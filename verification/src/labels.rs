//! The lines of text in which the panels show what the view state holds.

use vstd::prelude::*;
use vstd::string::*;
use crate::dispatch::Action;
use crate::message::{Failure, RequestKind};
use crate::model::{Agent, Contract, Delivery, Waypoint};
use crate::text::{append_signed, decimal, truth, truth_text};

verus! {

/// The lines that show an agent.
pub open spec fn agent_labels(agent: Agent) -> Seq<Seq<char>> {
    seq![
        "Username: "@ + agent.symbol@,
        "Credits: "@ + decimal(agent.credits as int),
        "Headquarters: "@ + agent.headquarters@,
    ]
}

/// One line for each trait, in the order of the traits.
pub open spec fn trait_labels(traits: Seq<String>) -> Seq<Seq<char>> {
    Seq::new(traits.len(), |i: int| "Trait: "@ + traits[i]@)
}

/// The line that shows a position.
pub open spec fn position_label(x: int, y: int) -> Seq<char> {
    "Location: "@ + decimal(x) + ", "@ + decimal(y)
}

/// The lines that show a waypoint: four of its own, then its traits.
pub open spec fn waypoint_labels(waypoint: Waypoint) -> Seq<Seq<char>> {
    seq![
        "Name: "@ + waypoint.symbol@,
        "Type: "@ + waypoint.kind@,
        "Symbol: "@ + waypoint.symbol@,
        position_label(waypoint.x as int, waypoint.y as int),
    ] + trait_labels(waypoint.traits@)
}

/// The title of a contract's card.
pub open spec fn contract_title(contract: Contract) -> Seq<char> {
    "Contract: "@ + contract.id@
}

/// The lines at the head of a contract's card.
pub open spec fn contract_labels(contract: Contract) -> Seq<Seq<char>> {
    seq!["Type: "@ + contract.kind@, "Faction Symbol: "@ + contract.faction_symbol@]
}

/// The lines that show the terms of a contract and how far it has come.
pub open spec fn terms_labels(contract: Contract) -> Seq<Seq<char>> {
    seq![
        "Payment on accept: "@ + decimal(contract.payment_on_accepted as int),
        "Payment on fullfilled: "@ + decimal(contract.payment_on_fulfilled as int),
        "Deadline: "@ + contract.deadline@,
        "Accepted?: "@ + truth(contract.accepted),
        "Fullfilled?: "@ + truth(contract.fulfilled),
        "Expiration: "@ + contract.expiration@,
    ]
}

/// The lines that show one delivery.
pub open spec fn delivery_labels(delivery: Delivery) -> Seq<Seq<char>> {
    seq![
        "Trade Symbol: "@ + delivery.trade_symbol@,
        "Destination Symbol: "@ + delivery.destination_symbol@,
        "Units required: "@ + decimal(delivery.units_required as int),
        "Units fulfilled: "@ + decimal(delivery.units_fulfilled as int),
    ]
}

/// The lines that show `deliveries`, one delivery after the other.
pub open spec fn deliveries_labels(deliveries: Seq<Delivery>) -> Seq<Seq<char>>
    decreases deliveries.len(),
{
    if deliveries.len() == 0 {
        Seq::empty()
    } else {
        deliveries_labels(deliveries.drop_last()) + delivery_labels(deliveries.last())
    }
}

/// What a request asks for, in words.
pub open spec fn request_name(kind: RequestKind) -> Seq<char> {
    match kind {
        RequestKind::Agent => "agent"@,
        RequestKind::Waypoint => "waypoint"@,
        RequestKind::Contract => "contract"@,
        RequestKind::ContractsList => "contracts list"@,
    }
}

/// The line that shows a failure.
pub open spec fn failure_label(failure: Failure) -> Seq<char> {
    "Could not get "@ + request_name(failure.request) + ": "@ + failure.reason@
}

/// The caption of the button that stands for an action.
pub open spec fn action_caption(action: Action) -> Seq<char> {
    match action {
        Action::GetAgent => "Get Agent"@,
        Action::GetLocation => "Get Location"@,
        Action::GetContract => "Get Contract"@,
        Action::GetContractsList => "Get Contracts List"@,
    }
}

fn labelled(label: &str, value: &str) -> (line: String)
    ensures
        line@ == label@ + value@,
{
    let mut line = String::from_str(label);
    line.append(value);
    line
}

fn labelled_number(label: &str, value: i64) -> (line: String)
    ensures
        line@ == label@ + decimal(value as int),
{
    let mut line = String::from_str(label);
    append_signed(&mut line, value);
    line
}

/// The lines that show an agent.
pub fn agent_lines(agent: &Agent) -> (lines: Vec<String>)
    ensures
        lines.deep_view() == agent_labels(*agent),
{
    let mut lines: Vec<String> = Vec::new();
    lines.push(labelled("Username: ", agent.symbol.as_str()));
    lines.push(labelled_number("Credits: ", agent.credits));
    lines.push(labelled("Headquarters: ", agent.headquarters.as_str()));
    lines
}

/// The lines that show a waypoint.
pub fn waypoint_lines(waypoint: &Waypoint) -> (lines: Vec<String>)
    ensures
        lines.deep_view() == waypoint_labels(*waypoint),
{
    let mut lines: Vec<String> = Vec::new();
    lines.push(labelled("Name: ", waypoint.symbol.as_str()));
    lines.push(labelled("Type: ", waypoint.kind.as_str()));
    lines.push(labelled("Symbol: ", waypoint.symbol.as_str()));
    let mut position = labelled_number("Location: ", waypoint.x as i64);
    position.append(", ");
    append_signed(&mut position, waypoint.y as i64);
    lines.push(position);
    let ghost own = lines.deep_view();
    let mut i: usize = 0;
    while i < waypoint.traits.len()
        invariant
            i <= waypoint.traits.len(),
            lines.deep_view() == own + trait_labels(waypoint.traits@).take(i as int),
        decreases waypoint.traits.len() - i,
    {
        let ghost before = lines.deep_view();
        lines.push(labelled("Trait: ", waypoint.traits[i].as_str()));
        assert(lines.deep_view() =~= before.push("Trait: "@ + waypoint.traits[i as int]@));
        i = i + 1;
    }
    lines
}

/// The title of a contract's card.
pub fn contract_heading(contract: &Contract) -> (title: String)
    ensures
        title@ == contract_title(*contract),
{
    labelled("Contract: ", contract.id.as_str())
}

/// The lines at the head of a contract's card.
pub fn contract_lines(contract: &Contract) -> (lines: Vec<String>)
    ensures
        lines.deep_view() == contract_labels(*contract),
{
    let mut lines: Vec<String> = Vec::new();
    lines.push(labelled("Type: ", contract.kind.as_str()));
    lines.push(labelled("Faction Symbol: ", contract.faction_symbol.as_str()));
    lines
}

/// The lines that show the terms of a contract and how far it has come.
pub fn terms_lines(contract: &Contract) -> (lines: Vec<String>)
    ensures
        lines.deep_view() == terms_labels(*contract),
{
    let mut lines: Vec<String> = Vec::new();
    lines.push(labelled_number("Payment on accept: ", contract.payment_on_accepted as i64));
    lines.push(labelled_number("Payment on fullfilled: ", contract.payment_on_fulfilled as i64));
    lines.push(labelled("Deadline: ", contract.deadline.as_str()));
    lines.push(labelled("Accepted?: ", truth_text(contract.accepted)));
    lines.push(labelled("Fullfilled?: ", truth_text(contract.fulfilled)));
    lines.push(labelled("Expiration: ", contract.expiration.as_str()));
    lines
}

/// The lines that show the deliveries of a contract, one delivery after the
/// other.
pub fn delivery_lines(contract: &Contract) -> (lines: Vec<String>)
    ensures
        lines.deep_view() == deliveries_labels(contract.deliveries@),
{
    let mut lines: Vec<String> = Vec::new();
    let mut i: usize = 0;
    while i < contract.deliveries.len()
        invariant
            i <= contract.deliveries.len(),
            lines.deep_view() == deliveries_labels(contract.deliveries@.take(i as int)),
        decreases contract.deliveries.len() - i,
    {
        let delivery = &contract.deliveries[i];
        lines.push(labelled("Trade Symbol: ", delivery.trade_symbol.as_str()));
        lines.push(labelled("Destination Symbol: ", delivery.destination_symbol.as_str()));
        lines.push(labelled_number("Units required: ", delivery.units_required as i64));
        lines.push(labelled_number("Units fulfilled: ", delivery.units_fulfilled as i64));
        proof {
            let taken = contract.deliveries@.take(i + 1);
            assert(taken.drop_last() =~= contract.deliveries@.take(i as int));
        }
        i = i + 1;
    }
    assert(contract.deliveries@.take(i as int) =~= contract.deliveries@);
    lines
}

/// The line that shows a failure.
pub fn failure_line(failure: &Failure) -> (line: String)
    ensures
        line@ == failure_label(*failure),
{
    let name = match failure.request {
        RequestKind::Agent => "agent",
        RequestKind::Waypoint => "waypoint",
        RequestKind::Contract => "contract",
        RequestKind::ContractsList => "contracts list",
    };
    let mut line = labelled("Could not get ", name);
    line.append(": ");
    line.append(failure.reason.as_str());
    line
}

/// The caption of the button that stands for an action.
pub fn button_caption(action: Action) -> (caption: &'static str)
    ensures
        caption@ == action_caption(action),
{
    match action {
        Action::GetAgent => "Get Agent",
        Action::GetLocation => "Get Location",
        Action::GetContract => "Get Contract",
        Action::GetContractsList => "Get Contracts List",
    }
}

} // verus!
