//! The messages that background tasks deliver to the render loop.
//!
//! A task makes one remote call and reports its outcome in one message: the
//! entity where the call succeeded, and otherwise a failure that names the
//! request and says what went wrong.

use vstd::prelude::*;
use crate::model::{Agent, Contract, Waypoint};

verus! {

/// The requests that the client can make of the server.
#[derive(Debug, Clone, Copy, PartialEq, Eq, Structural)]
pub enum RequestKind {
    Agent,
    Waypoint,
    Contract,
    ContractsList,
}

/// A request that did not produce its entity.
#[derive(Debug, Clone, PartialEq, Eq)]
pub struct Failure {
    /// The request that failed.
    pub request: RequestKind,
    /// What went wrong, in words.
    pub reason: String,
}

/// What a background task reports: the entity it fetched, or the failure of
/// its request. A task sends exactly one message and then ends.
#[derive(Debug, Clone, PartialEq, Eq)]
pub enum Messages {
    Agent(Agent),
    Waypoint(Waypoint),
    Contract(Contract),
    ContractsList(Vec<Contract>),
    Failed(Failure),
}

/// The places of the view state that a message can fill.
#[derive(Debug, Clone, Copy, PartialEq, Eq, Structural)]
pub enum Slot {
    Agent,
    Waypoint,
    Contract,
    ContractsList,
    Failure,
}

impl Messages {
    /// Reports the outcome of the request for the agent.
    pub fn agent(outcome: Result<Agent, String>) -> (message: Messages)
        ensures
            message == match outcome {
                Ok(agent) => Messages::Agent(agent),
                Err(reason) => Messages::Failed(Failure { request: RequestKind::Agent, reason }),
            },
    {
        match outcome {
            Ok(agent) => Messages::Agent(agent),
            Err(reason) => Messages::Failed(Failure { request: RequestKind::Agent, reason }),
        }
    }

    /// Reports the outcome of the request for a waypoint.
    pub fn waypoint(outcome: Result<Waypoint, String>) -> (message: Messages)
        ensures
            message == match outcome {
                Ok(waypoint) => Messages::Waypoint(waypoint),
                Err(reason) => Messages::Failed(
                    Failure { request: RequestKind::Waypoint, reason },
                ),
            },
    {
        match outcome {
            Ok(waypoint) => Messages::Waypoint(waypoint),
            Err(reason) => Messages::Failed(Failure { request: RequestKind::Waypoint, reason }),
        }
    }

    /// Reports the outcome of the request for a contract.
    pub fn contract(outcome: Result<Contract, String>) -> (message: Messages)
        ensures
            message == match outcome {
                Ok(contract) => Messages::Contract(contract),
                Err(reason) => Messages::Failed(
                    Failure { request: RequestKind::Contract, reason },
                ),
            },
    {
        match outcome {
            Ok(contract) => Messages::Contract(contract),
            Err(reason) => Messages::Failed(Failure { request: RequestKind::Contract, reason }),
        }
    }

    /// Reports the outcome of the request for the list of contracts.
    pub fn contracts_list(outcome: Result<Vec<Contract>, String>) -> (message: Messages)
        ensures
            message == match outcome {
                Ok(list) => Messages::ContractsList(list),
                Err(reason) => Messages::Failed(
                    Failure { request: RequestKind::ContractsList, reason },
                ),
            },
    {
        match outcome {
            Ok(list) => Messages::ContractsList(list),
            Err(reason) => Messages::Failed(
                Failure { request: RequestKind::ContractsList, reason },
            ),
        }
    }

    /// The slot that the message is addressed to.
    pub open spec fn spec_slot(&self) -> Slot {
        match *self {
            Messages::Agent(_) => Slot::Agent,
            Messages::Waypoint(_) => Slot::Waypoint,
            Messages::Contract(_) => Slot::Contract,
            Messages::ContractsList(_) => Slot::ContractsList,
            Messages::Failed(_) => Slot::Failure,
        }
    }

    /// The slot that the message is addressed to.
    #[verifier::when_used_as_spec(spec_slot)]
    pub fn slot(&self) -> (slot: Slot)
        ensures
            slot == self.spec_slot(),
    {
        match *self {
            Messages::Agent(_) => Slot::Agent,
            Messages::Waypoint(_) => Slot::Waypoint,
            Messages::Contract(_) => Slot::Contract,
            Messages::ContractsList(_) => Slot::ContractsList,
            Messages::Failed(_) => Slot::Failure,
        }
    }
}

} // verus!
