//! The single-slot command mailbox between the UI thread and the replay
//! worker.
//!
//! "Latest wins": a post always succeeds, overwriting any not-yet-consumed
//! command — there is no queueing and no back-pressure. The consumer drains
//! and clears the slot atomically; a command already being executed cannot
//! be interrupted, a command still in the slot can be silently superseded.

use vstd::prelude::*;

verus! {

/// One replay request, as posted on user command.
#[derive(Clone, Debug, PartialEq, Eq)]
pub enum SimulateCommand {
    /// Type the given text character by character.
    TypeString(String),
    /// Press and release the enter key.
    PressEnter,
    /// Press and release the space key.
    PressSpace,
    /// Delete the word before the cursor (control + backspace).
    DeleteWord,
}

/// The slot after a post: the new command, whatever was pending before.
pub open spec fn post_spec(slot: Option<SimulateCommand>, cmd: SimulateCommand) -> Option<
    SimulateCommand,
> {
    Some(cmd)
}

/// The slot and drained value after a take: the slot empties, the pending
/// command (if any) comes out.
pub open spec fn take_spec(slot: Option<SimulateCommand>) -> (Option<SimulateCommand>, Option<
    SimulateCommand,
>) {
    (None, slot)
}

/// Holds at most one pending command (see the module documentation).
pub struct CommandMailbox {
    pub slot: Option<SimulateCommand>,
}

impl CommandMailbox {
    pub fn new() -> (r: CommandMailbox)
        ensures
            r.slot is None,
    {
        CommandMailbox { slot: None }
    }

    /// Producer side: always succeeds, destroying any unconsumed previous
    /// command. The caller wakes the worker after every post.
    pub fn post(&mut self, cmd: SimulateCommand)
        ensures
            final(self).slot == post_spec(old(self).slot, cmd),
            final(self).slot == Some(cmd),
    {
        self.slot = Some(cmd);
    }

    /// Consumer side: drains and clears atomically.
    pub fn take(&mut self) -> (r: Option<SimulateCommand>)
        ensures
            final(self).slot == take_spec(old(self).slot).0,
            r == take_spec(old(self).slot).1,
            final(self).slot is None,
            r == old(self).slot,
    {
        self.slot.take()
    }
}

/// Requests that `text` be typed into the previously focused window: posts a
/// [`SimulateCommand::TypeString`] for the replay worker, overwriting any
/// pending command.
pub fn simulate(mailbox: &mut CommandMailbox, text: String)
    ensures
        final(mailbox).slot == Some(SimulateCommand::TypeString(text)),
{
    mailbox.post(SimulateCommand::TypeString(text));
}

/// Posting `a` and then `b` before any take results in exactly `b` pending:
/// the consumer drains `b`, leaves the slot empty, and can never observe the
/// overwritten `a`.
pub proof fn lemma_latest_post_wins(
    slot: Option<SimulateCommand>,
    a: SimulateCommand,
    b: SimulateCommand,
)
    ensures
        take_spec(post_spec(post_spec(slot, a), b)).1 == Some(b),
        take_spec(post_spec(post_spec(slot, a), b)).0 is None,
        a != b ==> take_spec(post_spec(post_spec(slot, a), b)).1 != Some(a),
{
}

} // verus!
