//! Protocol engine for embedded Matrix widgets: the capability filter, the
//! capability token codec, the message model, the table that correlates
//! requests sent to a widget with its replies, and the session state machine
//! that negotiates capabilities and answers widget requests in order.

pub mod capabilities;
pub mod error;
pub mod filter;
pub mod json;
pub mod messages;
pub mod outgoing;
pub mod pending;
pub mod session;
