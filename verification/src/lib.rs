//! A protocol client core for request/response backends: the message
//! envelope, the table of requests awaiting an answer, the connection state
//! machine, and the per-backend adapters that turn typed operations into
//! requests.
//!
//! The core performs no I/O. Every operation is a step of a state machine:
//! it takes the session and an event, updates the session, and returns what
//! the surrounding runtime has to do (dial, transmit, complete a waiting
//! caller).

pub mod bread;
pub mod client;
pub mod envelope;
pub mod error;
pub mod intent;
pub mod json;
pub mod registry;
pub mod session;
pub mod string_map;
pub mod theorems;
pub mod wallet;
pub mod wasender;
