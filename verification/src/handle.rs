//! The control handle: the clonable capability object every service holds to
//! talk to the supervisor. It wraps a sender into the supervisor's bounded
//! command channel together with the scheduling context, and offers lifecycle
//! signalling, generic command dispatch, settings updates and relay requests.
//!
//! Every dispatch is fire-and-forget: it waits only until the command is
//! enqueued, never for the supervisor to act, and a delivery failure (the
//! supervisor's receiving half is gone) is absorbed — counted, never raised.

use std::marker::PhantomData;
use vstd::prelude::*;

use crate::commands::{OverwatchCommand, OverwatchLifeCycleCommand, SettingsCommand};

verus! {

#[verifier::external_type_specification]
#[verifier::external_body]
pub struct ExRuntimeHandle(tokio::runtime::Handle);

#[verifier::external_type_specification]
#[verifier::external_body]
#[verifier::reject_recursive_types(T)]
pub struct ExMpscSender<T>(tokio::sync::mpsc::Sender<T>);

/// Relies on tokio::sync::mpsc::Sender::send, driven to completion on the
/// current thread: waits until the bounded channel has room, then enqueues
/// `value`; fails exactly when the receiving half is closed. Sends from one
/// sender arrive in the order they were sent.
#[verifier::external_body]
fn command_send<T>(sender: &tokio::sync::mpsc::Sender<T>, value: T) -> (delivered: bool) {
    futures::executor::block_on(sender.send(value)).is_ok()
}

/// Relies on tokio::sync::mpsc::Sender::clone: the clone is a sender into the
/// same channel, indistinguishable from the original.
#[verifier::external_body]
fn command_sender_clone<T>(sender: &tokio::sync::mpsc::Sender<T>) -> (r: tokio::sync::mpsc::Sender<T>)
    ensures
        r == *sender,
{
    sender.clone()
}

/// Relies on tokio::runtime::Handle::clone: the clone is a handle to the same
/// runtime, indistinguishable from the original.
#[verifier::external_body]
fn runtime_handle_clone(handle: &tokio::runtime::Handle) -> (r: tokio::runtime::Handle)
    ensures
        r == *handle,
{
    handle.clone()
}

/// Handle over the main supervisor: a clonable capability that enqueues
/// commands onto the supervisor's channel. `S` is the application's settings
/// payload type.
#[verifier::reject_recursive_types(S)]
pub struct OverwatchHandle<S> {
    runtime_handle: tokio::runtime::Handle,
    sender: tokio::sync::mpsc::Sender<OverwatchCommand<S>>,
    log: Ghost<Seq<OverwatchCommand<S>>>,
    failures: u64,
}

/// A typed request, bound to a control handle, for a communication endpoint
/// to the service `Sv`; resolving it is the supervisor's business.
#[verifier::reject_recursive_types(Sv)]
#[verifier::reject_recursive_types(S)]
pub struct Relay<Sv, S> {
    handle: OverwatchHandle<S>,
    service: PhantomData<Sv>,
}

impl<Sv, S> Relay<Sv, S> {
    /// The control handle this request is bound to.
    pub closed spec fn bound_handle(&self) -> OverwatchHandle<S> {
        self.handle
    }
}

impl<S> OverwatchHandle<S> {
    /// The commands dispatched through this handle, oldest first, delivered
    /// or not: its own first-in-first-out view of the channel.
    pub closed spec fn sent(&self) -> Seq<OverwatchCommand<S>> {
        self.log@
    }

    /// How many dispatches through this handle found the supervisor gone.
    pub closed spec fn failed_deliveries(&self) -> u64 {
        self.failures
    }

    /// Whether two handles are capabilities over the same channel and runtime.
    pub closed spec fn same_channel(&self, other: &Self) -> bool {
        self.sender == other.sender && self.runtime_handle == other.runtime_handle
    }

    /// The scheduling context this handle carries.
    pub closed spec fn spec_runtime(&self) -> tokio::runtime::Handle {
        self.runtime_handle
    }

    pub fn new(runtime_handle: tokio::runtime::Handle, sender: tokio::sync::mpsc::Sender<OverwatchCommand<S>>) -> (r: Self)
        ensures
            r.sent() == Seq::<OverwatchCommand<S>>::empty(),
            r.failed_deliveries() == 0,
            r.spec_runtime() == runtime_handle,
    {
        OverwatchHandle {
            runtime_handle,
            sender,
            log: Ghost(Seq::empty()),
            failures: 0,
        }
    }

    /// Request a relay to a specific service by type: builds the typed
    /// request object bound to this handle. Resolution, and its not-found
    /// failure, belong to the external relay machinery.
    pub fn relay<Sv>(&self) -> (r: Relay<Sv, S>)
        ensures
            r.bound_handle() == *self,
    {
        Relay { handle: self.clone(), service: PhantomData }
    }

    /// Enqueue a command for the supervisor, suspending only while the
    /// bounded channel is full. The call never fails visibly: when the
    /// supervisor's receiving half is gone the command is counted as a failed
    /// delivery and control returns to the caller at once.
    pub fn send(&mut self, command: OverwatchCommand<S>)
        ensures
            final(self).sent() == old(self).sent().push(command),
            old(self).failed_deliveries() <= final(self).failed_deliveries() <= old(self).failed_deliveries() + 1,
            final(self).same_channel(old(self)),
    {
        self.log = Ghost(self.log@.push(command));
        let delivered = command_send(&self.sender, command);
        if !delivered {
            if self.failures < u64::MAX {
                self.failures = self.failures + 1;
            }
        }
    }

    /// Send the graceful-stop lifecycle signal; suspends only until the
    /// signal is enqueued, never until the shutdown completes, and a delivery
    /// failure is absorbed as in `send`.
    pub fn shutdown(&mut self)
        ensures
            final(self).sent() == old(self).sent().push(
                OverwatchCommand::OverwatchLifeCycle(OverwatchLifeCycleCommand::Shutdown),
            ),
            old(self).failed_deliveries() <= final(self).failed_deliveries() <= old(self).failed_deliveries() + 1,
            final(self).same_channel(old(self)),
    {
        self.send(OverwatchCommand::OverwatchLifeCycle(OverwatchLifeCycleCommand::Shutdown));
    }

    /// Send the immediate-stop lifecycle signal; delivery semantics as in
    /// `shutdown`. The distinction of intent lives only in the command value.
    pub fn kill(&mut self)
        ensures
            final(self).sent() == old(self).sent().push(
                OverwatchCommand::OverwatchLifeCycle(OverwatchLifeCycleCommand::Kill),
            ),
            old(self).failed_deliveries() <= final(self).failed_deliveries() <= old(self).failed_deliveries() + 1,
            final(self).same_channel(old(self)),
    {
        self.send(OverwatchCommand::OverwatchLifeCycle(OverwatchLifeCycleCommand::Kill));
    }

    /// Wrap `settings` in a settings-update command and enqueue it, with the
    /// fire-and-forget delivery semantics of `send`.
    pub fn update_settings(&mut self, settings: S)
        ensures
            final(self).sent() == old(self).sent().push(
                OverwatchCommand::Settings(SettingsCommand(settings)),
            ),
            old(self).failed_deliveries() <= final(self).failed_deliveries() <= old(self).failed_deliveries() + 1,
            final(self).same_channel(old(self)),
    {
        self.send(OverwatchCommand::Settings(SettingsCommand(settings)));
    }

    /// The scheduling context, for spawning work on the same execution
    /// substrate as the supervisor.
    pub fn runtime(&self) -> (r: &tokio::runtime::Handle)
        ensures
            *r == self.spec_runtime(),
    {
        &self.runtime_handle
    }

    /// How many dispatches through this handle found the supervisor gone; the
    /// explicit diagnostic for deliveries absorbed at the source.
    pub fn failed_delivery_count(&self) -> (n: u64)
        ensures
            n == self.failed_deliveries(),
    {
        self.failures
    }
}

impl<S> Clone for OverwatchHandle<S> {
    /// The clone is an equivalent capability: same channel, same scheduling
    /// context, same bookkeeping.
    fn clone(&self) -> (r: Self)
        ensures
            r == *self,
    {
        OverwatchHandle {
            runtime_handle: runtime_handle_clone(&self.runtime_handle),
            sender: command_sender_clone(&self.sender),
            log: self.log,
            failures: self.failures,
        }
    }
}

} // verus!
