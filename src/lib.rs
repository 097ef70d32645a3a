//! A bridge between HTTP request/response traffic and a three-call
//! application interface (scope, receive, send).
//!
//! The decisions of the bridge live here: how a request head becomes a
//! scope, what each receive call yields, how the application's send events
//! are assembled into one response, and which response every failure maps to.
//! Transport, channels and the hosted application stay with the caller.
pub mod body;
pub mod error;
pub mod scope;
pub mod receive;
pub mod send;
pub mod gateway;
