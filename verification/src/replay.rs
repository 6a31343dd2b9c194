//! The replay worker's command-to-keystroke planning.
//!
//! A drained [`SimulateCommand`] becomes an ordered list of chords; each
//! chord is an ordered press-then-release of one or more keys standing for
//! one simulated character or action. Letters use the shift modifier exactly
//! when they are uppercase; characters with no mapping are skipped, not
//! retried and not reported. The injection of the keys into the OS input
//! stream, the focus-restoration preamble and the settle delays between a
//! chord's press and release stages are the embedding's work.

use vstd::prelude::*;

use crate::mailbox::SimulateCommand;

verus! {

/// A key the replay worker can press or release.
#[derive(Clone, Copy, Debug, PartialEq, Eq, Structural)]
pub enum Key {
    ShiftLeft,
    ControlLeft,
    Return,
    Space,
    Backspace,
    /// A letter key, named by its uppercase code (`b'A'` through `b'Z'`).
    Letter(u8),
}

/// One press-then-release unit: optional modifiers and a main key. The
/// presses go modifiers first, the releases in exactly the reverse order.
#[derive(Clone, Copy, Debug, PartialEq, Eq, Structural)]
pub struct Chord {
    pub shift: bool,
    pub control: bool,
    pub key: Key,
}

impl Chord {
    /// The keys of this chord in press order: control, then shift, then the
    /// main key.
    pub open spec fn spec_press_sequence(self) -> Seq<Key> {
        let with_control = if self.control {
            seq![Key::ControlLeft]
        } else {
            Seq::<Key>::empty()
        };
        let with_shift = if self.shift {
            with_control.push(Key::ShiftLeft)
        } else {
            with_control
        };
        with_shift.push(self.key)
    }

    pub fn press_sequence(&self) -> (r: Vec<Key>)
        ensures
            r@ == self.spec_press_sequence(),
    {
        let mut keys: Vec<Key> = Vec::new();
        if self.control {
            keys.push(Key::ControlLeft);
        }
        if self.shift {
            keys.push(Key::ShiftLeft);
        }
        keys.push(self.key);
        proof {
            assert(keys@ =~= self.spec_press_sequence());
        }
        keys
    }

    /// The keys of this chord in release order: exactly the press order
    /// reversed, so the main key is released before its modifiers.
    pub fn release_sequence(&self) -> (r: Vec<Key>)
        ensures
            r@ == self.spec_press_sequence().reverse(),
    {
        let mut keys: Vec<Key> = Vec::new();
        keys.push(self.key);
        if self.shift {
            keys.push(Key::ShiftLeft);
        }
        if self.control {
            keys.push(Key::ControlLeft);
        }
        proof {
            assert(keys@ =~= self.spec_press_sequence().reverse());
        }
        keys
    }
}

/// The chord that types one character, if the character has a mapping:
/// ASCII letters only, with shift exactly for the uppercase ones.
pub open spec fn spec_char_chord(c: char) -> Option<Chord> {
    let code = c as u32;
    if 'A' as u32 <= code && code <= 'Z' as u32 {
        Some(Chord { shift: true, control: false, key: Key::Letter(code as u8) })
    } else if 'a' as u32 <= code && code <= 'z' as u32 {
        Some(Chord { shift: false, control: false, key: Key::Letter((code - 32) as u8) })
    } else {
        None
    }
}

pub fn chord_for_char(c: char) -> (r: Option<Chord>)
    ensures
        r == spec_char_chord(c),
{
    let code = c as u32;
    if 'A' as u32 <= code && code <= 'Z' as u32 {
        Some(Chord { shift: true, control: false, key: Key::Letter(code as u8) })
    } else if 'a' as u32 <= code && code <= 'z' as u32 {
        Some(Chord { shift: false, control: false, key: Key::Letter((code - 32) as u8) })
    } else {
        None
    }
}

/// The chords that type a text: one per mapped character, in text order;
/// unmapped characters contribute nothing.
pub open spec fn text_chords(text: Seq<char>) -> Seq<Chord>
    decreases text.len(),
{
    if text.len() == 0 {
        Seq::empty()
    } else {
        text_chords(text.drop_last()) + match spec_char_chord(text.last()) {
            Some(chord) => seq![chord],
            None => Seq::<Chord>::empty(),
        }
    }
}

/// The chords a command executes as.
pub open spec fn plan_spec(cmd: SimulateCommand) -> Seq<Chord> {
    match cmd {
        SimulateCommand::TypeString(text) => text_chords(text@),
        SimulateCommand::PressEnter => seq![
            Chord { shift: false, control: false, key: Key::Return },
        ],
        SimulateCommand::PressSpace => seq![
            Chord { shift: false, control: false, key: Key::Space },
        ],
        SimulateCommand::DeleteWord => seq![
            Chord { shift: false, control: true, key: Key::Backspace },
        ],
    }
}

/// Plans the chord list for one drained command; see [`plan_spec`].
pub fn plan_for_command(cmd: &SimulateCommand) -> (r: Vec<Chord>)
    ensures
        r@ == plan_spec(*cmd),
{
    match cmd {
        SimulateCommand::TypeString(text) => {
            let mut chords: Vec<Chord> = Vec::new();
            let n = text.as_str().unicode_len();
            let mut i: usize = 0;
            while i < n
                invariant
                    n == text@.len(),
                    i <= n,
                    chords@ == text_chords(text@.take(i as int)),
                decreases n - i,
            {
                let c = text.as_str().get_char(i);
                proof {
                    assert(text@.take(i + 1).drop_last() =~= text@.take(i as int));
                    assert(text@.take(i + 1).last() == text@[i as int]);
                }
                match chord_for_char(c) {
                    Some(chord) => chords.push(chord),
                    None => {},
                }
                i = i + 1;
            }
            proof {
                assert(text@.take(n as int) =~= text@);
            }
            chords
        },
        SimulateCommand::PressEnter => {
            let mut chords: Vec<Chord> = Vec::new();
            chords.push(Chord { shift: false, control: false, key: Key::Return });
            proof {
                assert(chords@ =~= plan_spec(*cmd));
            }
            chords
        },
        SimulateCommand::PressSpace => {
            let mut chords: Vec<Chord> = Vec::new();
            chords.push(Chord { shift: false, control: false, key: Key::Space });
            proof {
                assert(chords@ =~= plan_spec(*cmd));
            }
            chords
        },
        SimulateCommand::DeleteWord => {
            let mut chords: Vec<Chord> = Vec::new();
            chords.push(Chord { shift: false, control: true, key: Key::Backspace });
            proof {
                assert(chords@ =~= plan_spec(*cmd));
            }
            chords
        },
    }
}

/// What a replay worker does with one wake.
pub enum ReplayAction {
    /// The stop flag was observed: the worker exits its loop.
    Exit,
    /// The mailbox was empty: re-block without side effects.
    Idle,
    /// A command was drained: execute these chords to completion, in order,
    /// before checking the mailbox again — a command in flight is never
    /// interrupted by a later post.
    Execute(Vec<Chord>),
}

/// One wake cycle's decision for the replay worker. `stop` is the stop flag
/// as observed at the top of the cycle; `cmd` is what the mailbox drain
/// returned. The embedding performs the returned action: on
/// [`ReplayAction::Execute`] it restores focus to the previously focused
/// window and injects each chord with its settle delays.
pub fn replay_on_wake(stop: bool, cmd: Option<SimulateCommand>) -> (r: ReplayAction)
    ensures
        stop ==> r is Exit,
        !stop && cmd is None ==> r is Idle,
        !stop ==> (cmd matches Some(c) ==> (r matches ReplayAction::Execute(plan) && plan@
            == plan_spec(c))),
{
    if stop {
        return ReplayAction::Exit;
    }
    match cmd {
        None => ReplayAction::Idle,
        Some(c) => ReplayAction::Execute(plan_for_command(&c)),
    }
}

} // verus!
