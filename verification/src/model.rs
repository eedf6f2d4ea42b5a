//! The entities that the game server reports, reduced to what the client
//! reads of them.

use vstd::prelude::*;

verus! {

/// The player's agent.
#[derive(Debug, Clone, PartialEq, Eq)]
pub struct Agent {
    /// The agent's call sign.
    pub symbol: String,
    /// Identifier of the waypoint that the agent started at.
    pub headquarters: String,
    /// Credits at the agent's disposal; negative when overdrawn.
    pub credits: i64,
}

/// A point of interest within a system.
#[derive(Debug, Clone, PartialEq, Eq)]
pub struct Waypoint {
    /// The waypoint's full identifier.
    pub symbol: String,
    /// The kind of waypoint, as the server names it.
    pub kind: String,
    /// Position within the system.
    pub x: i32,
    pub y: i32,
    /// Names of the waypoint's traits.
    pub traits: Vec<String>,
}

/// One kind of good that a contract asks to be delivered.
#[derive(Debug, Clone, PartialEq, Eq)]
pub struct Delivery {
    pub trade_symbol: String,
    pub destination_symbol: String,
    pub units_required: i32,
    pub units_fulfilled: i32,
}

/// A contract offered to the agent.
#[derive(Debug, Clone, PartialEq, Eq)]
pub struct Contract {
    pub id: String,
    /// The kind of contract, as the server names it.
    pub kind: String,
    pub faction_symbol: String,
    pub payment_on_accepted: i32,
    pub payment_on_fulfilled: i32,
    pub deadline: String,
    pub accepted: bool,
    pub fulfilled: bool,
    pub expiration: String,
    /// The goods to deliver, in the order the server lists them.
    pub deliveries: Vec<Delivery>,
}

} // verus!
