//! Core of a desktop client for the SpaceTraders game API.
//!
//! The client shows what the game server reports of an agent, of the
//! waypoint it is at, and of its contracts. The user asks; a background task
//! makes the remote call and puts its one message into a mailbox; the render
//! loop takes at most one message out of the mailbox per frame and shows the
//! latest value of everything it has received.
//!
//! This crate holds what the client decides, with contracts that say what it
//! decides: [`location`] derives system and waypoint from an identifier,
//! [`dispatch`] turns a user's action into a request, [`view_state`] and
//! [`poller`] apply what the [`mailbox`] delivers, [`labels`] and [`text`]
//! say in which words the result is shown, and [`context`] ties them into
//! the one value that a window owns. The network, the runtime of the tasks
//! and the widgets are the caller's.

pub mod context;
pub mod dispatch;
pub mod labels;
pub mod location;
pub mod mailbox;
pub mod message;
pub mod model;
pub mod poller;
pub mod session;
pub mod text;
pub mod view_state;
