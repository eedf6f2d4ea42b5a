use trader_console::dispatch::Action;
use trader_console::labels::{
    agent_lines, button_caption, contract_heading, contract_lines, delivery_lines, failure_line,
    terms_lines, waypoint_lines,
};
use trader_console::message::{Failure, RequestKind};
use trader_console::model::{Agent, Contract, Delivery, Waypoint};

fn sample_contract(deliveries: Vec<Delivery>) -> Contract {
    Contract {
        id: "clm0n4k8q".to_string(),
        kind: "Procurement".to_string(),
        faction_symbol: "COSMIC".to_string(),
        payment_on_accepted: 1250,
        payment_on_fulfilled: 98000,
        deadline: "2026-01-08T12:00:00.000Z".to_string(),
        accepted: true,
        fulfilled: false,
        expiration: "2026-01-02T12:00:00.000Z".to_string(),
        deliveries,
    }
}

fn delivery(trade: &str, destination: &str, required: i32, fulfilled: i32) -> Delivery {
    Delivery {
        trade_symbol: trade.to_string(),
        destination_symbol: destination.to_string(),
        units_required: required,
        units_fulfilled: fulfilled,
    }
}

#[test]
fn agent_is_shown_in_three_lines() {
    let agent = Agent {
        symbol: "ALPHA".to_string(),
        headquarters: "X1-AB12".to_string(),
        credits: 1000,
    };
    assert_eq!(
        agent_lines(&agent),
        vec!["Username: ALPHA", "Credits: 1000", "Headquarters: X1-AB12"]
    );
}

#[test]
fn overdrawn_credits_are_shown_with_their_sign() {
    let agent = Agent {
        symbol: "DEBTOR".to_string(),
        headquarters: "X1-DF55-20250Z".to_string(),
        credits: -250,
    };
    assert_eq!(agent_lines(&agent)[1], "Credits: -250");
}

#[test]
fn waypoint_is_shown_with_its_traits() {
    let waypoint = Waypoint {
        symbol: "X1-DF55-20250Z".to_string(),
        kind: "PLANET".to_string(),
        x: 12,
        y: -7,
        traits: vec!["Marketplace".to_string(), "Shipyard".to_string()],
    };
    assert_eq!(
        waypoint_lines(&waypoint),
        vec![
            "Name: X1-DF55-20250Z",
            "Type: PLANET",
            "Symbol: X1-DF55-20250Z",
            "Location: 12, -7",
            "Trait: Marketplace",
            "Trait: Shipyard",
        ]
    );
}

#[test]
fn waypoint_without_traits_has_four_lines() {
    let waypoint = Waypoint {
        symbol: "X1-A-B".to_string(),
        kind: "ASTEROID".to_string(),
        x: i32::MIN,
        y: i32::MAX,
        traits: vec![],
    };
    assert_eq!(
        waypoint_lines(&waypoint),
        vec!["Name: X1-A-B", "Type: ASTEROID", "Symbol: X1-A-B", "Location: -2147483648, 2147483647"]
    );
}

#[test]
fn contract_card_is_titled_by_its_id() {
    assert_eq!(contract_heading(&sample_contract(vec![])), "Contract: clm0n4k8q");
}

#[test]
fn contract_head_names_kind_and_faction() {
    assert_eq!(
        contract_lines(&sample_contract(vec![])),
        vec!["Type: Procurement", "Faction Symbol: COSMIC"]
    );
}

#[test]
fn contract_terms_are_shown_in_six_lines() {
    assert_eq!(
        terms_lines(&sample_contract(vec![])),
        vec![
            "Payment on accept: 1250",
            "Payment on fullfilled: 98000",
            "Deadline: 2026-01-08T12:00:00.000Z",
            "Accepted?: true",
            "Fullfilled?: false",
            "Expiration: 2026-01-02T12:00:00.000Z",
        ]
    );
}

#[test]
fn contract_without_deliveries_shows_none() {
    assert_eq!(delivery_lines(&sample_contract(vec![])), Vec::<String>::new());
}

#[test]
fn deliveries_are_shown_one_after_the_other() {
    let contract = sample_contract(vec![
        delivery("IRON_ORE", "X1-DF55-20250Z", 40, 0),
        delivery("COPPER_ORE", "X1-DF55-17335A", 120, 35),
    ]);
    assert_eq!(
        delivery_lines(&contract),
        vec![
            "Trade Symbol: IRON_ORE",
            "Destination Symbol: X1-DF55-20250Z",
            "Units required: 40",
            "Units fulfilled: 0",
            "Trade Symbol: COPPER_ORE",
            "Destination Symbol: X1-DF55-17335A",
            "Units required: 120",
            "Units fulfilled: 35",
        ]
    );
}

#[test]
fn failure_names_the_request_and_the_reason() {
    let failed = |request: RequestKind| Failure { request, reason: "status code 401".to_string() };
    assert_eq!(failure_line(&failed(RequestKind::Agent)), "Could not get agent: status code 401");
    assert_eq!(
        failure_line(&failed(RequestKind::Waypoint)),
        "Could not get waypoint: status code 401"
    );
    assert_eq!(
        failure_line(&failed(RequestKind::Contract)),
        "Could not get contract: status code 401"
    );
    assert_eq!(
        failure_line(&failed(RequestKind::ContractsList)),
        "Could not get contracts list: status code 401"
    );
}

#[test]
fn each_action_has_its_caption() {
    assert_eq!(button_caption(Action::GetAgent), "Get Agent");
    assert_eq!(button_caption(Action::GetLocation), "Get Location");
    assert_eq!(button_caption(Action::GetContract), "Get Contract");
    assert_eq!(button_caption(Action::GetContractsList), "Get Contracts List");
}
