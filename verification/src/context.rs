//! The application context: what the client owns besides its handles on the
//! network, on the user interface and on the mailbox it shares with its
//! tasks.

use vstd::prelude::*;
use crate::dispatch::{planned, Action, DispatchError, Request, RequestView};
use crate::mailbox::{drained, front, Mailbox};
use crate::poller::{absorbed, report_of, Polled};
use crate::session::{Credentials, MissingCredential};
use crate::view_state::{empty_state, ViewState};

verus! {

/// The credentials of the session and the view state.
///
/// There is one per process. It is made at startup, polled once on every
/// frame, and asked for a request whenever the user acts.
pub struct TemplateApp {
    credentials: Credentials,
    state: ViewState,
}

impl TemplateApp {
    /// The bearer token of the session.
    pub closed spec fn token(&self) -> Seq<char> {
        self.credentials@
    }

    /// The view state as it is now.
    pub closed spec fn view_state(&self) -> ViewState {
        self.state
    }

    /// Starts a session with the token that `setting` supplies; every slot
    /// of the view state is empty. Without a token no session starts.
    pub fn new(setting: Option<String>) -> (result: Result<TemplateApp, MissingCredential>)
        ensures
            match result {
                Ok(app) => setting matches Some(token) && app.token() == token@
                    && app.view_state() == empty_state(),
                Err(_) => setting is None,
            },
    {
        match Credentials::from_setting(setting) {
            Ok(credentials) => Ok(TemplateApp { credentials, state: ViewState::new() }),
            Err(missing) => Err(missing),
        }
    }

    /// The credentials, for the remote client to be made with.
    pub fn credentials(&self) -> (credentials: &Credentials)
        ensures
            credentials@ == self.token(),
    {
        &self.credentials
    }

    /// The view state, for the panels to be drawn from.
    pub fn state(&self) -> (state: &ViewState)
        ensures
            *state == self.view_state(),
    {
        &self.state
    }

    /// One frame's step: takes the message that has waited longest out of
    /// `mailbox`, if any waits, and applies it to the view state. The token
    /// stays the same.
    pub fn update(&mut self, mailbox: &mut Mailbox) -> (report: Polled)
        ensures
            final(self).token() == old(self).token(),
            final(self).view_state() == absorbed(old(self).view_state(), front(old(mailbox)@)),
            final(mailbox)@ == drained(old(mailbox)@),
            report == report_of(front(old(mailbox)@)),
    {
        self.state.poll(mailbox)
    }

    /// Plans the request that `action` leads to, for one task to make. The
    /// view state is only read: it changes when the task's message is
    /// polled.
    pub fn dispatch(&self, action: Action) -> (result: Result<Request, DispatchError>)
        ensures
            match result {
                Ok(request) => planned(self.view_state(), action) == Ok::<
                    RequestView,
                    DispatchError,
                >(request@),
                Err(error) => planned(self.view_state(), action) == Err::<
                    RequestView,
                    DispatchError,
                >(error),
            },
    {
        self.state.plan(action)
    }
}

} // verus!
