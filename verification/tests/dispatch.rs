use trader_console::dispatch::{
    Action, DispatchError, Request, CONTRACTS_PAGE, CONTRACTS_PAGE_SIZE,
};
use trader_console::location::Location;
use trader_console::message::Messages;
use trader_console::model::Agent;
use trader_console::view_state::ViewState;

fn state_with_headquarters(headquarters: &str) -> ViewState {
    let mut state = ViewState::new();
    state.apply(Messages::Agent(Agent {
        symbol: "ALPHA".to_string(),
        headquarters: headquarters.to_string(),
        credits: 1000,
    }));
    state
}

#[test]
fn without_an_agent_only_the_agent_is_on_offer() {
    let state = ViewState::new();
    assert!(state.offers(Action::GetAgent));
    assert!(!state.offers(Action::GetLocation));
    assert!(!state.offers(Action::GetContract));
    assert!(!state.offers(Action::GetContractsList));
}

#[test]
fn with_an_agent_everything_else_is_on_offer() {
    let state = state_with_headquarters("X1-DF55-20250Z");
    assert!(!state.offers(Action::GetAgent));
    assert!(state.offers(Action::GetLocation));
    assert!(state.offers(Action::GetContract));
    assert!(state.offers(Action::GetContractsList));
}

#[test]
fn get_agent_plans_the_agent_request() {
    let state = ViewState::new();
    assert_eq!(state.plan(Action::GetAgent), Ok(Request::Agent));
}

#[test]
fn get_agent_twice_plans_the_same_request_twice() {
    let state = ViewState::new();
    let first = state.plan(Action::GetAgent);
    let second = state.plan(Action::GetAgent);
    assert_eq!(first, Ok(Request::Agent));
    assert_eq!(second, first);
    assert_eq!(state, ViewState::new());
}

#[test]
fn get_location_plans_a_waypoint_request_from_the_headquarters() {
    let state = state_with_headquarters("X1-DF55-20250Z");
    assert_eq!(
        state.plan(Action::GetLocation),
        Ok(Request::Waypoint(Location {
            system: "X1-DF55".to_string(),
            waypoint: "X1-DF55-20250Z".to_string(),
        }))
    );
}

#[test]
fn get_location_with_malformed_headquarters_is_an_error() {
    let state = state_with_headquarters("X1");
    assert_eq!(state.plan(Action::GetLocation), Err(DispatchError::InvalidLocation));
    let state = state_with_headquarters("");
    assert_eq!(state.plan(Action::GetLocation), Err(DispatchError::InvalidLocation));
}

#[test]
fn get_contract_asks_for_contract_zero() {
    let state = state_with_headquarters("X1-DF55-20250Z");
    assert_eq!(state.plan(Action::GetContract), Ok(Request::Contract { id: "0".to_string() }));
}

#[test]
fn get_contracts_list_asks_for_the_first_ten() {
    let state = state_with_headquarters("X1-DF55-20250Z");
    assert_eq!(
        state.plan(Action::GetContractsList),
        Ok(Request::ContractsList { page: 1, limit: 10 })
    );
    assert_eq!(CONTRACTS_PAGE, 1);
    assert_eq!(CONTRACTS_PAGE_SIZE, 10);
}

#[test]
fn actions_that_are_not_on_offer_plan_nothing() {
    let empty = ViewState::new();
    assert_eq!(empty.plan(Action::GetLocation), Err(DispatchError::NotOffered));
    assert_eq!(empty.plan(Action::GetContract), Err(DispatchError::NotOffered));
    assert_eq!(empty.plan(Action::GetContractsList), Err(DispatchError::NotOffered));
    let known = state_with_headquarters("X1-DF55-20250Z");
    assert_eq!(known.plan(Action::GetAgent), Err(DispatchError::NotOffered));
    let malformed = state_with_headquarters("X1");
    assert_eq!(malformed.plan(Action::GetAgent), Err(DispatchError::NotOffered));
}

#[test]
fn planning_leaves_the_state_alone() {
    let state = state_with_headquarters("X1-DF55-20250Z");
    let before = state.clone();
    let _ = state.plan(Action::GetLocation);
    let _ = state.plan(Action::GetContract);
    assert_eq!(state, before);
}
