//! The recognition worker's wake-cycle decisions and the recognized-text
//! slot.
//!
//! The worker blocks between cycles and is woken by the producer. On wake it
//! samples the frame broker and decides: exit on the stop flag, go back to
//! sleep when there is nothing new (no frame yet, or a generation it has
//! already processed — coalescing any number of wakes into one pass), reject
//! a malformed raster, or hand a fresh valid raster to the recognizer. The
//! recognizer itself is an outside capability; its output replaces the text
//! slot wholesale.

use vstd::prelude::*;

use crate::frame_broker::PixelBuffer;

verus! {

/// What a recognition worker does with one wake.
#[derive(Clone, Copy, Debug, PartialEq, Eq, Structural)]
pub enum WakeAction {
    /// The stop flag was observed: the worker exits its loop.
    Exit,
    /// No frame has ever been published: re-block without side effects.
    Idle,
    /// The frame's generation was already processed: re-block without side
    /// effects (a duplicate wake is not an error).
    Stale,
    /// The frame is new but its raster is not one the recognizer's input
    /// conversion accepts: log and produce no recognition this cycle.
    Malformed,
    /// The frame is new and valid: run recognition on it.
    Process,
}

/// The worker's last-processed generation after one wake, given the stop
/// flag and the sampled frame as `(generation, raster is valid)`. A new
/// generation is recorded as processed even when its raster turns out
/// malformed: the failed work unit is abandoned, not retried.
pub open spec fn wake_generation_spec(last: u64, stop: bool, frame: Option<(u64, bool)>) -> u64 {
    if stop {
        last
    } else {
        match frame {
            None => last,
            Some((generation, _)) => generation,
        }
    }
}

/// The action taken on one wake, given the stop flag and the sampled frame
/// as `(generation, raster is valid)`.
pub open spec fn wake_action_spec(last: u64, stop: bool, frame: Option<(u64, bool)>) -> WakeAction {
    if stop {
        WakeAction::Exit
    } else {
        match frame {
            None => WakeAction::Idle,
            Some((generation, valid)) => if generation == last {
                WakeAction::Stale
            } else if valid {
                WakeAction::Process
            } else {
                WakeAction::Malformed
            },
        }
    }
}

/// The recognition worker's persistent state: the generation it last
/// accepted work for.
pub struct RecognitionWorker {
    pub last_generation: u64,
}

impl RecognitionWorker {
    pub fn new() -> (r: RecognitionWorker)
        ensures
            r.last_generation == 0,
    {
        RecognitionWorker { last_generation: 0 }
    }

    /// One wake cycle's decision. `stop` is the stop flag as observed at the
    /// top of the cycle; `frame` is what the broker handed out. The embedding
    /// performs the returned action: on [`WakeAction::Process`] it runs the
    /// recognizer on the frame and stores the result, on anything else it
    /// does no recognition work.
    pub fn on_wake(&mut self, stop: bool, frame: Option<(&PixelBuffer, u64)>) -> (r: WakeAction)
        ensures
            ({
                let info = match frame {
                    None => None,
                    Some((buffer, generation)) => Some((generation, buffer.spec_valid_rgb24())),
                };
                &&& r == wake_action_spec(old(self).last_generation, stop, info)
                &&& final(self).last_generation == wake_generation_spec(
                    old(self).last_generation,
                    stop,
                    info,
                )
            }),
    {
        if stop {
            return WakeAction::Exit;
        }
        match frame {
            None => WakeAction::Idle,
            Some((buffer, generation)) => {
                if generation == self.last_generation {
                    WakeAction::Stale
                } else {
                    self.last_generation = generation;
                    if buffer.valid_rgb24() {
                        WakeAction::Process
                    } else {
                        WakeAction::Malformed
                    }
                }
            },
        }
    }
}

/// A wake processes a given frame at most once: after any first wake on a
/// frame, a second wake with the same frame and no intervening publish finds
/// the generation already recorded, does no recognition work, and leaves the
/// worker's state unchanged.
pub proof fn lemma_second_wake_coalesced(last: u64, frame: Option<(u64, bool)>)
    ensures
        ({
            let once = wake_generation_spec(last, false, frame);
            let again = wake_action_spec(once, false, frame);
            &&& wake_generation_spec(once, false, frame) == once
            &&& again != WakeAction::Process
            &&& again != WakeAction::Malformed
        }),
{
}

/// The shared recognized-text slot: an optional string, replaced wholesale
/// under one hold, never partially updated, cleared explicitly when the
/// canvas is cleared.
pub struct RecognizedText {
    pub text: Option<String>,
}

impl RecognizedText {
    pub fn new() -> (r: RecognizedText)
        ensures
            r.text is None,
    {
        RecognizedText { text: None }
    }

    /// Wholesale replacement by a recognition result; the previous text is
    /// discarded.
    pub fn set(&mut self, text: String)
        ensures
            final(self).text == Some(text),
    {
        self.text = Some(text);
    }

    /// Explicit clear (the canvas was cleared); until then the last
    /// successfully recognized text stays visible.
    pub fn clear(&mut self)
        ensures
            final(self).text is None,
    {
        self.text = None;
    }

    pub fn get(&self) -> (r: Option<&String>)
        ensures
            match r {
                None => self.text is None,
                Some(text) => self.text == Some(*text),
            },
    {
        match &self.text {
            None => None,
            Some(text) => Some(text),
        }
    }
}

} // verus!
