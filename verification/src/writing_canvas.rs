//! The stroke-capture state machine.
//!
//! One call per observed pointer event turns pointer-down / motion / up into
//! a persistent ordered list of line-segment strokes. At most one pointer is
//! active at a time; events outside the capture bound are rejected; a motion
//! that leaves the bound cuts the trace and a motion that re-enters starts a
//! fresh stroke, so no segment ever bridges the gap. A monotonic update
//! counter counts exactly the accepted, stroke-mutating events, letting any
//! observer detect "something changed since I last looked" without diffing.

use vstd::prelude::*;

use crate::shapes::{Point, Rect, Stroke};

verus! {

/// Once a continuous motion has extended the most recent stroke to at least
/// this Euclidean length, the stroke is closed and a new zero-length stroke
/// begins at the current point. This bounds per-segment length for later
/// rendering and recognition without re-tessellation.
pub const SPLIT_THRESHOLD: u32 = 3;

/// The abstract state of a [`WritingCanvas`]: everything its contracts
/// speak about.
#[verifier::ext_equal]
pub struct CaptureState {
    /// The capture bound; events outside it are rejected or cut the trace.
    pub bound: Rect,
    /// Number of accepted, stroke-mutating events since the session began.
    pub update_count: nat,
    /// The stroke-splitting length threshold (its square bounds
    /// `spec_length_squared` of a growing stroke).
    pub threshold: nat,
    /// The active pointer, if any: its id, and whether its last observed
    /// position was inside the bound.
    pub pen: Option<(u32, bool)>,
    /// All strokes drawn since the last clear, in surface order.
    pub strokes: Seq<Stroke>,
}

/// A zero-length stroke at `p`, as appended on pointer-down and on re-entry.
pub open spec fn stroke_at(p: Point) -> Stroke {
    Stroke { start: p, end: p }
}

/// Whether a pointer-down at `(x, y)` with id `pen` mutates state `s`:
/// the point must be in bound and no pointer may be active.
pub open spec fn pen_down_accepted(s: CaptureState, x: i32, y: i32, pen: u32) -> bool {
    s.bound.spec_contains(Point { x, y }) && s.pen is None
}

/// The state after a pointer-down event.
pub open spec fn pen_down_spec(s: CaptureState, x: i32, y: i32, pen: u32) -> CaptureState {
    if pen_down_accepted(s, x, y, pen) {
        CaptureState {
            pen: Some((pen, true)),
            strokes: s.strokes.push(stroke_at(Point { x, y })),
            update_count: s.update_count + 1,
            ..s
        }
    } else {
        s
    }
}

/// Whether a motion event mutates the strokes (and so the counter): the
/// active pointer matches and the point is in bound.
pub open spec fn pen_motion_accepted(s: CaptureState, x: i32, y: i32, pen: u32) -> bool {
    s.pen matches Some((p, _)) && p == pen && s.bound.spec_contains(Point { x, y })
}

/// Whether a motion event extends the most recent stroke in place (the
/// pointer was already in bound), rather than opening a fresh one.
pub open spec fn pen_motion_extends(s: CaptureState, x: i32, y: i32, pen: u32) -> bool {
    s.pen matches Some((p, inb)) && p == pen && inb && s.bound.spec_contains(Point { x, y })
}

/// The state after a motion event. Leaving the bound only marks the pointer
/// out of bound (the trace is cut, not clipped); re-entering starts a new
/// stroke at the re-entry point; otherwise the last stroke's end moves to
/// the event point, and once that stroke reaches the split threshold a new
/// zero-length stroke is appended after it.
pub open spec fn pen_motion_spec(s: CaptureState, x: i32, y: i32, pen: u32) -> CaptureState {
    let pt = Point { x, y };
    match s.pen {
        None => s,
        Some((p, inb)) => {
            if p != pen {
                s
            } else if !s.bound.spec_contains(pt) {
                CaptureState { pen: Some((p, false)), ..s }
            } else {
                let strokes0 = if inb {
                    s.strokes
                } else {
                    s.strokes.push(stroke_at(pt))
                };
                let i = strokes0.len() - 1;
                let extended = Stroke { start: strokes0[i].start, end: pt };
                let strokes1 = strokes0.update(i, extended);
                let strokes2 = if extended.spec_length_squared() >= s.threshold * s.threshold {
                    strokes1.push(stroke_at(pt))
                } else {
                    strokes1
                };
                CaptureState {
                    pen: Some((p, true)),
                    strokes: strokes2,
                    update_count: s.update_count + 1,
                    ..s
                }
            }
        },
    }
}

/// Whether a pointer-up event touches the last stroke (and so the counter):
/// no mismatching pointer is active, and the point is in bound.
pub open spec fn pen_up_accepted(s: CaptureState, x: i32, y: i32, pen: u32) -> bool {
    (match s.pen {
        Some((p, _)) => p == pen,
        None => true,
    }) && s.bound.spec_contains(Point { x, y })
}

/// The state after a pointer-up event. A mismatching id is a no-op; the
/// active pointer is cleared regardless otherwise; an out-of-bound release
/// leaves the last stroke at its last in-bound point.
pub open spec fn pen_up_spec(s: CaptureState, x: i32, y: i32, pen: u32) -> CaptureState {
    let pt = Point { x, y };
    let mismatch = match s.pen {
        Some((p, _)) => p != pen,
        None => false,
    };
    if mismatch {
        s
    } else if !s.bound.spec_contains(pt) {
        CaptureState { pen: None, ..s }
    } else {
        let i = s.strokes.len() - 1;
        CaptureState {
            pen: None,
            strokes: s.strokes.update(i, Stroke { start: s.strokes[i].start, end: pt }),
            update_count: s.update_count + 1,
            ..s
        }
    }
}

/// The state after a clear: the stroke list is emptied; the update counter
/// is monotonic for the whole session and is not reset.
pub open spec fn clear_spec(s: CaptureState) -> CaptureState {
    CaptureState { strokes: Seq::empty(), ..s }
}

/// Converts pointer events into an ordered stroke list (see the module
/// documentation).
pub struct WritingCanvas {
    bound: Rect,
    update_count: u64,
    stroke_distance_threshold: u32,
    current_pen: Option<(u32, bool)>,
    all_strokes: Vec<Stroke>,
}

impl View for WritingCanvas {
    type V = CaptureState;

    closed spec fn view(&self) -> CaptureState {
        CaptureState {
            bound: self.bound,
            update_count: self.update_count as nat,
            threshold: self.stroke_distance_threshold as nat,
            pen: self.current_pen,
            strokes: self.all_strokes@,
        }
    }
}

impl WritingCanvas {
    pub fn new(bound: Rect) -> (r: WritingCanvas)
        ensures
            r@ == (CaptureState {
                bound,
                update_count: 0,
                threshold: SPLIT_THRESHOLD as nat,
                pen: None,
                strokes: Seq::<Stroke>::empty(),
            }),
    {
        WritingCanvas {
            bound,
            update_count: 0,
            stroke_distance_threshold: SPLIT_THRESHOLD,
            current_pen: None,
            all_strokes: Vec::new(),
        }
    }

    /// Replaces the capture bound (after a window-resize relayout); strokes,
    /// pointer state and counter are untouched.
    pub fn set_bound(&mut self, bound: Rect)
        ensures
            final(self)@ == (CaptureState { bound, ..old(self)@ }),
    {
        self.bound = bound;
    }

    /// The current capture bound.
    pub fn bound(&self) -> (r: Rect)
        ensures
            r == self@.bound,
    {
        self.bound
    }

    /// The active pointer, if any: its id and whether its last observed
    /// position was inside the bound.
    pub fn active_pen(&self) -> (r: Option<(u32, bool)>)
        ensures
            r == self@.pen,
    {
        self.current_pen
    }

    pub fn get_stroke_count(&self) -> (r: usize)
        ensures
            r == self@.strokes.len(),
    {
        self.all_strokes.len()
    }

    /// The number of accepted mutating events this session; strictly
    /// increases by exactly one per accepted event and never otherwise, so
    /// any number of independent observers can each track their own
    /// last-seen value.
    pub fn get_update_count(&self) -> (r: u64)
        ensures
            r == self@.update_count,
    {
        self.update_count
    }

    /// A read-only borrow of the strokes drawn since the last clear.
    pub fn strokes(&self) -> (r: &Vec<Stroke>)
        ensures
            r@ == self@.strokes,
    {
        &self.all_strokes
    }

    /// Handles a pointer-down event: ignored outside the bound or while any
    /// pointer is active; otherwise activates the pointer and opens a
    /// zero-length stroke at the event point.
    pub fn pen_down(&mut self, x: i32, y: i32, pen: u32)
        requires
            pen_down_accepted(old(self)@, x, y, pen) ==> old(self)@.update_count < u64::MAX,
        ensures
            final(self)@ == pen_down_spec(old(self)@, x, y, pen),
            final(self)@.update_count == old(self)@.update_count + (if pen_down_accepted(
                old(self)@,
                x,
                y,
                pen,
            ) {
                1int
            } else {
                0int
            }),
            old(self)@.pen is Some ==> final(self)@ == old(self)@,
    {
        let pt = Point { x, y };
        if !self.bound.contains(&pt) {
            return ;
        }
        if self.current_pen.is_some() {
            return ;
        }
        self.current_pen = Some((pen, true));
        self.all_strokes.push(Stroke { start: pt, end: pt });
        self.update_count = self.update_count + 1;
    }

    /// Handles a motion event; see [`pen_motion_spec`] for the transition.
    /// The caller must not have cleared the strokes while the active pointer
    /// was down in bound (the last stroke must exist to be extended).
    pub fn pen_motion(&mut self, x: i32, y: i32, pen: u32)
        requires
            pen_motion_extends(old(self)@, x, y, pen) ==> old(self)@.strokes.len() > 0,
            pen_motion_accepted(old(self)@, x, y, pen) ==> old(self)@.update_count < u64::MAX,
        ensures
            final(self)@ == pen_motion_spec(old(self)@, x, y, pen),
            final(self)@.update_count == old(self)@.update_count + (if pen_motion_accepted(
                old(self)@,
                x,
                y,
                pen,
            ) {
                1int
            } else {
                0int
            }),
    {
        let (p, inb) = match self.current_pen {
            None => { return ; },
            Some(t) => t,
        };
        if p != pen {
            return ;
        }
        let pt = Point { x, y };
        if !self.bound.contains(&pt) {
            self.current_pen = Some((p, false));
            return ;
        }
        if !inb {
            self.current_pen = Some((p, true));
            self.all_strokes.push(Stroke { start: pt, end: pt });
        }
        let i = self.all_strokes.len() - 1;
        let start = self.all_strokes[i].start;
        let extended = Stroke { start, end: pt };
        self.all_strokes[i] = extended;
        self.update_count = self.update_count + 1;
        let t = self.stroke_distance_threshold;
        proof {
            assert(0 <= (t as i128) * (t as i128) <= 0xffffffffffffffff) by (nonlinear_arith)
                requires
                    0 <= t <= 0xffffffff,
            ;
        }
        let threshold_squared: i128 = (t as i128) * (t as i128);
        if extended.length_squared() >= threshold_squared {
            self.all_strokes.push(Stroke { start: pt, end: pt });
        }
    }

    /// Handles a pointer-up event: a no-op on id mismatch; otherwise clears
    /// the active pointer, and if the release point is in bound, moves the
    /// last stroke's end there. The caller must not have cleared the strokes
    /// if the release is in bound (the last stroke must exist).
    pub fn pen_up(&mut self, x: i32, y: i32, pen: u32)
        requires
            pen_up_accepted(old(self)@, x, y, pen) ==> old(self)@.strokes.len() > 0 && old(
                self,
            )@.update_count < u64::MAX,
        ensures
            final(self)@ == pen_up_spec(old(self)@, x, y, pen),
            final(self)@.update_count == old(self)@.update_count + (if pen_up_accepted(
                old(self)@,
                x,
                y,
                pen,
            ) {
                1int
            } else {
                0int
            }),
    {
        match self.current_pen {
            Some((p, _)) => {
                if p != pen {
                    return ;
                }
            },
            None => {},
        }
        self.current_pen = None;
        let pt = Point { x, y };
        if !self.bound.contains(&pt) {
            return ;
        }
        let i = self.all_strokes.len() - 1;
        let start = self.all_strokes[i].start;
        self.all_strokes[i] = Stroke { start, end: pt };
        self.update_count = self.update_count + 1;
    }

    /// Empties the stroke list. The update counter keeps its value: it is
    /// monotonic for the whole session.
    pub fn clear(&mut self)
        ensures
            final(self)@ == clear_spec(old(self)@),
    {
        self.all_strokes.clear();
    }
}

/// A motion that exits the bound followed by one that re-enters it produces
/// a trace discontinuity: the strokes already drawn are unchanged by both
/// events, and exactly one new stroke appears, lying entirely at the
/// re-entry point — no segment crosses the gap.
pub proof fn lemma_exit_reenter_gap(
    s: CaptureState,
    ox: i32,
    oy: i32,
    rx: i32,
    ry: i32,
    pen: u32,
)
    requires
        s.pen == Some((pen, true)),
        !s.bound.spec_contains(Point { x: ox, y: oy }),
        s.bound.spec_contains(Point { x: rx, y: ry }),
        s.threshold > 0,
    ensures
        ({
            let out = pen_motion_spec(s, ox, oy, pen);
            let back = pen_motion_spec(out, rx, ry, pen);
            let q = Point { x: rx, y: ry };
            &&& out.strokes == s.strokes
            &&& back.strokes == s.strokes.push(stroke_at(q))
            &&& back.strokes.last() == stroke_at(q)
        }),
{
    let out = pen_motion_spec(s, ox, oy, pen);
    let back = pen_motion_spec(out, rx, ry, pen);
    let q = Point { x: rx, y: ry };
    assert(out.strokes == s.strokes);
    assert(out.pen == Some((pen, false)));
    let strokes0 = s.strokes.push(stroke_at(q));
    let i = strokes0.len() - 1;
    assert(strokes0[i] == stroke_at(q));
    let extended = Stroke { start: strokes0[i].start, end: q };
    assert(extended == stroke_at(q));
    assert(strokes0.update(i, extended) =~= strokes0);
    assert(extended.spec_length_squared() == 0);
    assert(s.threshold * s.threshold >= 1) by (nonlinear_arith)
        requires
            s.threshold >= 1,
    ;
    assert(back.strokes == strokes0);
}

} // verus!
