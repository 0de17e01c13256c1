//! A client-side connection over a message-stream transport, as a verified
//! state machine: each command of the caller and each event of the transport
//! or the reconnect timer is one step, which updates the connection's state
//! and says what its surroundings must do (build or close the transport, set
//! or clear the timer, call back the user).

pub mod config;
pub mod connection;
pub mod laws;
