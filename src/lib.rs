//! Decision logic of a message relay: routing configuration, the reconnection
//! backoff policy, the per-message forwarding worker, the event dispatcher and
//! the liveness monitor. Each component is a pure function from state and
//! event to next state and action; the program around it performs the actions.

pub mod config;
pub mod reconnect;
pub mod worker;
pub mod dispatch;
