//! From a user's action to the request that a background task will make.
//!
//! Planning reads the view state and changes nothing: acting twice before
//! the first answer has arrived plans the same request twice, and the two
//! tasks then run side by side.

use vstd::prelude::*;
use vstd::string::*;
use crate::location::{
    location_of, parse_waypoint, well_formed, InvalidLocation, Location, LocationView,
};
use crate::view_state::ViewState;

verus! {

/// The page of the contract list that is asked for.
pub const CONTRACTS_PAGE: i32 = 1;

/// How many contracts a page of the list holds.
pub const CONTRACTS_PAGE_SIZE: i32 = 10;

/// What the user can ask for.
#[derive(Debug, Clone, Copy, PartialEq, Eq, Structural)]
pub enum Action {
    GetAgent,
    GetLocation,
    GetContract,
    GetContractsList,
}

/// A request, with everything that the remote call needs besides the
/// client itself.
#[derive(Debug, Clone, PartialEq, Eq)]
pub enum Request {
    /// Fetch the agent that the credentials belong to.
    Agent,
    /// Fetch a waypoint by the identifiers of its system and of itself.
    Waypoint(Location),
    /// Fetch the contract with this identifier.
    Contract { id: String },
    /// Fetch one page of the list of contracts.
    ContractsList { page: i32, limit: i32 },
}

/// What a [`Request`] holds, with its texts as character sequences.
pub ghost enum RequestView {
    Agent,
    Waypoint(LocationView),
    Contract { id: Seq<char> },
    ContractsList { page: i32, limit: i32 },
}

impl View for Request {
    type V = RequestView;

    open spec fn view(&self) -> RequestView {
        match *self {
            Request::Agent => RequestView::Agent,
            Request::Waypoint(location) => RequestView::Waypoint(location@),
            Request::Contract { id } => RequestView::Contract { id: id@ },
            Request::ContractsList { page, limit } => RequestView::ContractsList { page, limit },
        }
    }
}

/// Why an action led to no request.
#[derive(Debug, Clone, Copy, PartialEq, Eq, Structural)]
pub enum DispatchError {
    /// The action is not on offer in the present state.
    NotOffered,
    /// The agent's headquarters is no well-formed waypoint identifier.
    InvalidLocation,
}

/// The identifier of the contract that `GetContract` asks for.
pub open spec fn contract_id() -> Seq<char> {
    "0"@
}

/// Whether `action` is on offer in `state`: the agent can be fetched while
/// none is known, and everything else once one is.
pub open spec fn offered(state: ViewState, action: Action) -> bool {
    match action {
        Action::GetAgent => state.agent is None,
        Action::GetLocation => state.agent is Some,
        Action::GetContract => state.agent is Some,
        Action::GetContractsList => state.agent is Some,
    }
}

/// The request that `action` leads to in `state`, or why it leads to none.
pub open spec fn planned(state: ViewState, action: Action) -> Result<RequestView, DispatchError> {
    if !offered(state, action) {
        Err(DispatchError::NotOffered)
    } else {
        match action {
            Action::GetAgent => Ok(RequestView::Agent),
            Action::GetLocation => {
                let headquarters = state.agent->0.headquarters@;
                if well_formed(headquarters) {
                    Ok(RequestView::Waypoint(location_of(headquarters)))
                } else {
                    Err(DispatchError::InvalidLocation)
                }
            },
            Action::GetContract => Ok(RequestView::Contract { id: contract_id() }),
            Action::GetContractsList => Ok(
                RequestView::ContractsList { page: CONTRACTS_PAGE, limit: CONTRACTS_PAGE_SIZE },
            ),
        }
    }
}

impl ViewState {
    /// Whether `action` is on offer in this state.
    pub fn offers(&self, action: Action) -> (on_offer: bool)
        ensures
            on_offer == offered(*self, action),
    {
        match action {
            Action::GetAgent => self.agent.is_none(),
            Action::GetLocation => self.agent.is_some(),
            Action::GetContract => self.agent.is_some(),
            Action::GetContractsList => self.agent.is_some(),
        }
    }

    /// Plans the request that `action` leads to.
    ///
    /// An action that is not on offer is refused. The location of the agent
    /// is derived from its headquarters before any task is started, so a
    /// malformed identifier is reported here.
    pub fn plan(&self, action: Action) -> (result: Result<Request, DispatchError>)
        ensures
            match result {
                Ok(request) => planned(*self, action) == Ok::<RequestView, DispatchError>(
                    request@,
                ),
                Err(error) => planned(*self, action) == Err::<RequestView, DispatchError>(error),
            },
    {
        if !self.offers(action) {
            return Err(DispatchError::NotOffered);
        }
        match action {
            Action::GetAgent => Ok(Request::Agent),
            Action::GetLocation => {
                match &self.agent {
                    Some(agent) => match parse_waypoint(agent.headquarters.clone()) {
                        Ok(location) => Ok(Request::Waypoint(location)),
                        Err(InvalidLocation) => Err(DispatchError::InvalidLocation),
                    },
                    None => Err(DispatchError::NotOffered),
                }
            },
            Action::GetContract => Ok(Request::Contract { id: String::from_str("0") }),
            Action::GetContractsList => Ok(
                Request::ContractsList { page: CONTRACTS_PAGE, limit: CONTRACTS_PAGE_SIZE },
            ),
        }
    }
}

} // verus!
