//! The state that the user interface renders: the latest value received of
//! each entity.

use vstd::prelude::*;
use crate::message::{Failure, Messages, Slot};
use crate::model::{Agent, Contract, Waypoint};

verus! {

/// One optional slot per entity, and one for the latest failure.
///
/// Every slot starts empty. A message fills the slot it is addressed to,
/// replacing what was there; nothing ever empties a slot.
#[derive(Debug, Clone, PartialEq, Eq)]
pub struct ViewState {
    pub agent: Option<Agent>,
    pub waypoint: Option<Waypoint>,
    pub contract: Option<Contract>,
    pub contracts_list: Option<Vec<Contract>>,
    pub failure: Option<Failure>,
}

/// The state in which nothing has been received.
pub open spec fn empty_state() -> ViewState {
    ViewState { agent: None, waypoint: None, contract: None, contracts_list: None, failure: None }
}

/// The state that follows `state` when `message` is received.
pub open spec fn applied(state: ViewState, message: Messages) -> ViewState {
    match message {
        Messages::Agent(agent) => ViewState { agent: Some(agent), ..state },
        Messages::Waypoint(waypoint) => ViewState { waypoint: Some(waypoint), ..state },
        Messages::Contract(contract) => ViewState { contract: Some(contract), ..state },
        Messages::ContractsList(list) => ViewState { contracts_list: Some(list), ..state },
        Messages::Failed(failure) => ViewState { failure: Some(failure), ..state },
    }
}

/// What a slot of `state` holds, as the message that would fill it so.
pub open spec fn held(state: ViewState, slot: Slot) -> Option<Messages> {
    match slot {
        Slot::Agent => match state.agent {
            Some(agent) => Some(Messages::Agent(agent)),
            None => None,
        },
        Slot::Waypoint => match state.waypoint {
            Some(waypoint) => Some(Messages::Waypoint(waypoint)),
            None => None,
        },
        Slot::Contract => match state.contract {
            Some(contract) => Some(Messages::Contract(contract)),
            None => None,
        },
        Slot::ContractsList => match state.contracts_list {
            Some(list) => Some(Messages::ContractsList(list)),
            None => None,
        },
        Slot::Failure => match state.failure {
            Some(failure) => Some(Messages::Failed(failure)),
            None => None,
        },
    }
}

/// The state that follows `state` when `messages` are received one after
/// the other.
pub open spec fn replayed(state: ViewState, messages: Seq<Messages>) -> ViewState
    decreases messages.len(),
{
    if messages.len() == 0 {
        state
    } else {
        applied(replayed(state, messages.drop_last()), messages.last())
    }
}

/// The last of `messages` that is addressed to `slot`, if there is one.
pub open spec fn latest(messages: Seq<Messages>, slot: Slot) -> Option<Messages>
    decreases messages.len(),
{
    if messages.len() == 0 {
        None
    } else if messages.last().slot() == slot {
        Some(messages.last())
    } else {
        latest(messages.drop_last(), slot)
    }
}

impl ViewState {
    /// A state with every slot empty.
    pub fn new() -> (state: ViewState)
        ensures
            state == empty_state(),
    {
        ViewState { agent: None, waypoint: None, contract: None, contracts_list: None, failure: None }
    }

    /// Receives `message`: the slot it is addressed to now holds its
    /// payload, and every other slot is as it was.
    pub fn apply(&mut self, message: Messages)
        ensures
            *final(self) == applied(*old(self), message),
    {
        match message {
            Messages::Agent(agent) => {
                self.agent = Some(agent);
            },
            Messages::Waypoint(waypoint) => {
                self.waypoint = Some(waypoint);
            },
            Messages::Contract(contract) => {
                self.contract = Some(contract);
            },
            Messages::ContractsList(list) => {
                self.contracts_list = Some(list);
            },
            Messages::Failed(failure) => {
                self.failure = Some(failure);
            },
        }
    }
}

/// A message fills the slot it is addressed to with exactly its payload and
/// leaves every other slot alone.
pub proof fn law_apply_fills_one_slot(state: ViewState, message: Messages, slot: Slot)
    ensures
        held(applied(state, message), slot) == if slot == message.slot() {
            Some(message)
        } else {
            held(state, slot)
        },
{
}

/// After any run of messages each slot holds, whole, the payload of the last
/// message that was addressed to it, or what it held before where there was
/// none: a later message replaces an earlier one and never blends with it.
pub proof fn law_last_message_wins(state: ViewState, messages: Seq<Messages>, slot: Slot)
    ensures
        held(replayed(state, messages), slot) == match latest(messages, slot) {
            Some(message) => Some(message),
            None => held(state, slot),
        },
    decreases messages.len(),
{
    if messages.len() > 0 {
        law_last_message_wins(state, messages.drop_last(), slot);
        law_apply_fills_one_slot(replayed(state, messages.drop_last()), messages.last(), slot);
    }
}

/// No message empties a slot: what has been received once stays on show
/// until something of the same kind replaces it.
pub proof fn law_slots_are_never_emptied(state: ViewState, messages: Seq<Messages>, slot: Slot)
    requires
        held(state, slot) is Some,
    ensures
        held(replayed(state, messages), slot) is Some,
{
    law_last_message_wins(state, messages, slot);
}

} // verus!
