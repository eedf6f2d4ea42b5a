use trader_console::context::TemplateApp;
use trader_console::dispatch::{Action, DispatchError, Request};
use trader_console::labels::{agent_lines, failure_line};
use trader_console::location::Location;
use trader_console::mailbox::Mailbox;
use trader_console::message::{Failure, Messages, RequestKind, Slot};
use trader_console::model::{Agent, Waypoint};
use trader_console::poller::Polled;
use trader_console::session::{Credentials, MissingCredential};
use trader_console::view_state::ViewState;

fn alpha() -> Agent {
    Agent { symbol: "ALPHA".to_string(), headquarters: "X1-AB12".to_string(), credits: 1000 }
}

#[test]
fn session_without_credentials_does_not_start() {
    assert!(matches!(Credentials::from_setting(None), Err(MissingCredential)));
    assert!(matches!(TemplateApp::new(None), Err(MissingCredential)));
}

#[test]
fn fetched_agent_is_shown_after_the_next_poll() {
    let mut app = TemplateApp::new(Some("bearer-123".to_string())).ok().unwrap();
    let mut mailbox = Mailbox::new();

    assert_eq!(app.dispatch(Action::GetAgent), Ok(Request::Agent));
    assert_eq!(app.state().agent, None);
    assert_eq!(mailbox.send(Messages::Agent(alpha())), Ok(()));
    assert_eq!(app.state().agent, None);

    assert_eq!(app.update(&mut mailbox), Polled::Applied(Slot::Agent));
    assert_eq!(app.state().agent, Some(alpha()));
    let lines = agent_lines(app.state().agent.as_ref().unwrap());
    assert_eq!(lines[0], "Username: ALPHA");
    assert_eq!(lines[1], "Credits: 1000");
}

#[test]
fn location_is_fetched_by_system_and_waypoint_of_the_headquarters() {
    let mut mailbox = Mailbox::new();
    let mut state = ViewState::new();
    state.apply(Messages::Agent(alpha()));

    let request = state.plan(Action::GetLocation);
    assert_eq!(
        request,
        Ok(Request::Waypoint(Location {
            system: "X1-AB12".to_string(),
            waypoint: "X1-AB12".to_string(),
        }))
    );

    let found = Waypoint {
        symbol: "X1-AB12".to_string(),
        kind: "PLANET".to_string(),
        x: 1,
        y: 2,
        traits: vec![],
    };
    assert_eq!(mailbox.send(Messages::Waypoint(found.clone())), Ok(()));
    assert_eq!(state.poll(&mut mailbox), Polled::Applied(Slot::Waypoint));
    assert_eq!(state.waypoint, Some(found));
    assert_eq!(state.agent, Some(alpha()));
}

#[test]
fn two_quick_agent_requests_leave_the_answer_drained_last() {
    let mut mailbox = Mailbox::new();
    let mut state = ViewState::new();
    assert_eq!(state.plan(Action::GetAgent), Ok(Request::Agent));
    assert_eq!(state.plan(Action::GetAgent), Ok(Request::Agent));

    let slow = Agent { symbol: "ALPHA".to_string(), headquarters: "X1-A1-A".to_string(), credits: 1 };
    let fast = Agent { symbol: "ALPHA".to_string(), headquarters: "X1-B2-B".to_string(), credits: 2 };
    assert_eq!(mailbox.send(Messages::Agent(fast.clone())), Ok(()));
    assert_eq!(mailbox.send(Messages::Agent(slow.clone())), Ok(()));

    assert_eq!(state.poll(&mut mailbox), Polled::Applied(Slot::Agent));
    assert_eq!(state.agent, Some(fast));
    assert_eq!(state.poll(&mut mailbox), Polled::Applied(Slot::Agent));
    assert_eq!(state.agent, Some(slow));
    assert_eq!(state.poll(&mut mailbox), Polled::Empty);
    assert_eq!(state.plan(Action::GetAgent), Err(DispatchError::NotOffered));
}

#[test]
fn failed_fetch_becomes_visible_and_leaves_the_slot_as_it_was() {
    let mut mailbox = Mailbox::new();
    let mut state = ViewState::new();
    assert_eq!(state.plan(Action::GetAgent), Ok(Request::Agent));
    let failure = Failure { request: RequestKind::Agent, reason: "connection refused".to_string() };
    assert_eq!(mailbox.send(Messages::agent(Err("connection refused".to_string()))), Ok(()));
    assert_eq!(state.poll(&mut mailbox), Polled::Applied(Slot::Failure));
    assert_eq!(state.agent, None);
    assert_eq!(state.failure.as_ref().unwrap().request, RequestKind::Agent);
    assert_eq!(
        failure_line(state.failure.as_ref().unwrap()),
        "Could not get agent: connection refused"
    );
    assert_eq!(state.failure, Some(failure));
    assert_eq!(state.plan(Action::GetAgent), Ok(Request::Agent));
}

#[test]
fn message_that_comes_after_shutdown_is_handed_back() {
    let mut mailbox = Mailbox::new();
    let mut state = ViewState::new();
    assert_eq!(mailbox.send(Messages::Agent(alpha())), Ok(()));
    mailbox.close();
    assert_eq!(mailbox.send(Messages::Agent(alpha())), Err(Messages::Agent(alpha())));
    assert_eq!(state.poll(&mut mailbox), Polled::Empty);
    assert_eq!(state, ViewState::new());
}
