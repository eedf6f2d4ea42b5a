//! The step that the render loop takes on every frame: look into the mailbox
//! once and apply what was found.
//!
//! A frame takes at most one message, so a burst of results is taken in over
//! as many frames as it has messages.

use vstd::prelude::*;
use crate::mailbox::{drained, front, Mailbox, MailboxView};
use crate::message::{Messages, Slot};
use crate::view_state::{applied, replayed, ViewState};

verus! {

/// What a frame's look into the mailbox did to the view state.
#[derive(Debug, Clone, Copy, PartialEq, Eq, Structural)]
pub enum Polled {
    /// A message was applied; it filled this slot.
    Applied(Slot),
    /// No message was waiting; the state is as it was.
    Empty,
}

/// The state that follows `state` when a look into the mailbox returns
/// `found`.
pub open spec fn absorbed(state: ViewState, found: Option<Messages>) -> ViewState {
    match found {
        Some(message) => applied(state, message),
        None => state,
    }
}

/// What is reported of a look into the mailbox that returns `found`.
pub open spec fn report_of(found: Option<Messages>) -> Polled {
    match found {
        Some(message) => Polled::Applied(message.slot()),
        None => Polled::Empty,
    }
}

/// The view state and the mailbox after `frames` frames in which nothing is
/// sent.
pub open spec fn after_frames(state: ViewState, mailbox: MailboxView, frames: nat) -> (
    ViewState,
    MailboxView,
)
    decreases frames,
{
    if frames == 0 {
        (state, mailbox)
    } else {
        let (earlier, waiting) = after_frames(state, mailbox, (frames - 1) as nat);
        (absorbed(earlier, front(waiting)), drained(waiting))
    }
}

impl ViewState {
    /// Takes in what a look into the mailbox returned: a message is applied,
    /// and without one the state stays as it is.
    pub fn absorb(&mut self, found: Option<Messages>) -> (report: Polled)
        ensures
            *final(self) == absorbed(*old(self), found),
            report == report_of(found),
    {
        match found {
            Some(message) => {
                let slot = message.slot();
                self.apply(message);
                Polled::Applied(slot)
            },
            None => Polled::Empty,
        }
    }

    /// One frame's poll: takes the message that has waited longest out of
    /// `mailbox`, if any waits, and applies it.
    pub fn poll(&mut self, mailbox: &mut Mailbox) -> (report: Polled)
        ensures
            *final(self) == absorbed(*old(self), front(old(mailbox)@)),
            final(mailbox)@ == drained(old(mailbox)@),
            report == report_of(front(old(mailbox)@)),
    {
        let found = mailbox.try_recv();
        self.absorb(found)
    }
}

/// Frame by frame the view state takes in the waiting messages in the order
/// in which they arrived, one per frame, until none is left; from then on
/// a frame changes nothing.
pub proof fn law_frames_apply_in_arrival_order(
    state: ViewState,
    mailbox: MailboxView,
    frames: nat,
)
    ensures
        ({
            let taken = if frames <= mailbox.pending.len() {
                frames as int
            } else {
                mailbox.pending.len() as int
            };
            after_frames(state, mailbox, frames) == (
                replayed(state, mailbox.pending.take(taken)),
                MailboxView { pending: mailbox.pending.skip(taken), ..mailbox },
            )
        }),
    decreases frames,
{
    let waiting = mailbox.pending;
    if frames == 0 {
        assert(waiting.skip(0) =~= waiting);
    } else {
        law_frames_apply_in_arrival_order(state, mailbox, (frames - 1) as nat);
        if frames <= waiting.len() {
            let taken = waiting.take(frames as int);
            assert(taken.drop_last() =~= waiting.take(frames - 1));
            assert(waiting.skip(frames - 1).drop_first() =~= waiting.skip(frames as int));
        }
    }
}

} // verus!
