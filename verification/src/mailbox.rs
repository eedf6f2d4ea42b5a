//! The mailbox that carries messages from background tasks to the render
//! loop.
//!
//! The mailbox is an unbounded queue. Any number of tasks put messages in at
//! the back; the render loop alone takes them out at the front. Neither side
//! ever waits for the other: a message is accepted at once, and a look into
//! an empty mailbox says so at once. Once the render loop is gone the mailbox
//! is closed, and a message that comes after that is handed back to its
//! sender.
//!
//! A mailbox is an ordinary value with one owner at a time. To share it
//! between threads the caller keeps it behind a lock and lends it to each
//! call in turn; this module says what each call does to it.

use std::collections::VecDeque;
use vstd::prelude::*;
use crate::message::Messages;

verus! {

/// The messages that wait in a mailbox, oldest first, and whether the mailbox
/// still accepts more.
pub ghost struct MailboxView {
    pub pending: Seq<Messages>,
    pub open: bool,
}

/// The queue of messages between the tasks and the render loop.
pub struct Mailbox {
    pending: VecDeque<Messages>,
    open: bool,
}

impl View for Mailbox {
    type V = MailboxView;

    closed spec fn view(&self) -> MailboxView {
        MailboxView { pending: self.pending@, open: self.open }
    }
}

/// A new mailbox: open, with nothing waiting.
pub open spec fn empty_mailbox() -> MailboxView {
    MailboxView { pending: Seq::empty(), open: true }
}

/// The mailbox after `message` was sent to it: an open mailbox holds it
/// behind everything that was waiting, a closed one is as it was.
pub open spec fn sent(mailbox: MailboxView, message: Messages) -> MailboxView {
    if mailbox.open {
        MailboxView { pending: mailbox.pending.push(message), ..mailbox }
    } else {
        mailbox
    }
}

/// The message that the next look into the mailbox returns: the one that has
/// waited longest, if any waits.
pub open spec fn front(mailbox: MailboxView) -> Option<Messages> {
    if mailbox.pending.len() > 0 {
        Some(mailbox.pending[0])
    } else {
        None
    }
}

/// The mailbox after one look into it: without the message that had waited
/// longest, or as it was where none waited.
pub open spec fn drained(mailbox: MailboxView) -> MailboxView {
    if mailbox.pending.len() > 0 {
        MailboxView { pending: mailbox.pending.drop_first(), ..mailbox }
    } else {
        mailbox
    }
}

/// The mailbox after it was closed: nothing waits, and nothing is accepted.
pub open spec fn closed_mailbox() -> MailboxView {
    MailboxView { pending: Seq::empty(), open: false }
}

impl Mailbox {
    /// Opens a new, empty mailbox.
    pub fn new() -> (mailbox: Mailbox)
        ensures
            mailbox@ == empty_mailbox(),
    {
        Mailbox { pending: VecDeque::new(), open: true }
    }

    /// Puts `message` into the mailbox, behind those that wait there.
    ///
    /// A closed mailbox takes nothing: the message is handed back, unchanged,
    /// for the sender to drop.
    pub fn send(&mut self, message: Messages) -> (result: Result<(), Messages>)
        ensures
            final(self)@ == sent(old(self)@, message),
            result == if old(self)@.open {
                Ok::<(), Messages>(())
            } else {
                Err::<(), Messages>(message)
            },
    {
        if self.open {
            self.pending.push_back(message);
            Ok(())
        } else {
            Err(message)
        }
    }

    /// Takes the message that has waited longest out of the mailbox, or
    /// returns `None` where none waits. It returns at once either way.
    pub fn try_recv(&mut self) -> (message: Option<Messages>)
        ensures
            message == front(old(self)@),
            final(self)@ == drained(old(self)@),
    {
        self.pending.pop_front()
    }

    /// The number of messages that wait.
    pub fn len(&self) -> (count: usize)
        ensures
            count == self@.pending.len(),
    {
        self.pending.len()
    }

    /// Closes the mailbox when the render loop ends: what still waits is
    /// dropped, and nothing is accepted from now on.
    pub fn close(&mut self)
        ensures
            final(self)@ == closed_mailbox(),
    {
        self.pending.clear();
        self.open = false;
    }
}

/// One use of a mailbox.
pub ghost enum Step {
    /// A task sends a message.
    Send(Messages),
    /// The render loop looks into the mailbox.
    Drain,
}

/// The mailbox after `steps` were taken on it, in this order.
pub open spec fn run(mailbox: MailboxView, steps: Seq<Step>) -> MailboxView
    decreases steps.len(),
{
    if steps.len() == 0 {
        mailbox
    } else {
        let before = run(mailbox, steps.drop_last());
        match steps.last() {
            Step::Send(message) => sent(before, message),
            Step::Drain => drained(before),
        }
    }
}

/// The messages that the sends among `steps` handed in, in this order.
pub open spec fn handed_in(steps: Seq<Step>) -> Seq<Messages>
    decreases steps.len(),
{
    if steps.len() == 0 {
        Seq::empty()
    } else {
        match steps.last() {
            Step::Send(message) => handed_in(steps.drop_last()).push(message),
            Step::Drain => handed_in(steps.drop_last()),
        }
    }
}

/// The messages that the looks among `steps` returned, in this order, when
/// the steps were taken on `mailbox`.
pub open spec fn handed_out(mailbox: MailboxView, steps: Seq<Step>) -> Seq<Messages>
    decreases steps.len(),
{
    if steps.len() == 0 {
        Seq::empty()
    } else {
        let earlier = handed_out(mailbox, steps.drop_last());
        match steps.last() {
            Step::Send(_) => earlier,
            Step::Drain => match front(run(mailbox, steps.drop_last())) {
                Some(message) => earlier.push(message),
                None => earlier,
            },
        }
    }
}

/// An open mailbox loses nothing, repeats nothing and keeps the order of
/// arrival: however sends and looks alternate, what waited at first followed
/// by what was sent is what has been returned followed by what still waits.
/// So two messages come out in the order in which they went in, whoever sent
/// them, and once the mailbox is empty every message that was sent has been
/// returned by exactly one look.
pub proof fn law_mailbox_is_first_in_first_out(mailbox: MailboxView, steps: Seq<Step>)
    requires
        mailbox.open,
    ensures
        run(mailbox, steps).open,
        mailbox.pending + handed_in(steps) == handed_out(mailbox, steps) + run(
            mailbox,
            steps,
        ).pending,
        run(mailbox, steps).pending.len() == 0 ==> handed_out(mailbox, steps) == mailbox.pending
            + handed_in(steps),
    decreases steps.len(),
{
    if steps.len() > 0 {
        let earlier = steps.drop_last();
        law_mailbox_is_first_in_first_out(mailbox, earlier);
        if let Step::Send(message) = steps.last() {
            let all = mailbox.pending + handed_in(earlier);
            assert(all.push(message) =~= handed_out(mailbox, steps) + run(
                mailbox,
                steps,
            ).pending);
        }
    }
}

/// A look into an empty mailbox returns nothing and changes nothing.
pub proof fn law_empty_mailbox_stays_empty(mailbox: MailboxView)
    requires
        mailbox.pending.len() == 0,
    ensures
        front(mailbox) is None,
        drained(mailbox) == mailbox,
{
}

} // verus!
