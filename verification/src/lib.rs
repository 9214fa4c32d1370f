//! A minimal in-process runtime core for composing asynchronous services:
//! a state-distribution engine (a single-value broadcast channel, a pluggable
//! reactor, and the handle that binds the two) together with the control
//! handle services use to talk to the supervisor's command channel.

pub mod commands;
pub mod handle;
pub mod semantics;
pub mod state;
