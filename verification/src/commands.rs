//! Commands that services send to the supervisor over the control channel.
//!
//! A command is fire-and-forget: the sender never awaits a per-command
//! response. The supervisor's run loop, which owns the receiving half of
//! the channel, interprets them; that loop is outside this crate.

use vstd::prelude::*;

verus! {

/// A lifecycle signal for the whole application: `Shutdown` asks for a
/// graceful stop, `Kill` for an immediate one. The two are distinct values;
/// how the supervisor acts on each is its own business.
#[derive(Clone, Copy, Debug, PartialEq, Eq)]
pub enum OverwatchLifeCycleCommand {
    Shutdown,
    Kill,
}

/// A settings update: carries the new settings payload for the service it is
/// addressed to. The payload type is chosen by the application and is not
/// interpreted here.
#[derive(Clone, Copy, Debug, PartialEq, Eq)]
pub struct SettingsCommand<S>(pub S);

/// A request for a communication endpoint to the service with the given
/// identity; resolving it is the supervisor's business.
#[derive(Clone, Copy, Debug, PartialEq, Eq)]
pub struct RelayCommand {
    pub service_id: u64,
}

/// A control-plane command, as carried by the supervisor's command channel.
/// `S` is the application's settings payload type.
#[derive(Clone, Copy, Debug, PartialEq, Eq)]
pub enum OverwatchCommand<S> {
    Relay(RelayCommand),
    Settings(SettingsCommand<S>),
    OverwatchLifeCycle(OverwatchLifeCycleCommand),
}

} // verus!
