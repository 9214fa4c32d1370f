//! The state-distribution engine: a single-value broadcast channel made of an
//! updater (the exclusive writer) and watchers (independent readers), plus the
//! handle that binds one watcher to one reactor and drives the consumption
//! loop "for every new state, invoke the reactor".
//!
//! The channel keeps only the latest value: a watcher that falls behind skips
//! intermediate values and observes the current truth, in publish order.

use std::marker::PhantomData;
use vstd::prelude::*;

verus! {

/// What a service state must offer: construction from the service's settings.
/// A state value is immutable once published; an update publishes a new value.
pub trait ServiceState: Sized {
    /// The settings value the state is initialized from.
    type Settings;

    /// Initialize a state from the provided settings.
    fn from_settings(settings: &Self::Settings) -> Self;
}

/// A state operator (reactor): a unit, built from settings, that consumes
/// observed states one at a time. For a given binding its invocations are
/// strictly sequential; a failure inside an invocation is the operator's own
/// responsibility and ends that binding's consumption loop.
pub trait StateOperator: Sized {
    /// The type of state that the operator can handle.
    type StateInput;

    /// Operator initialization; may be implemented over any settings type.
    fn from_settings<Settings>(settings: Settings) -> Self;

    /// Perform one reaction to one observed state.
    fn run(&mut self, state: Self::StateInput);
}

/// Operator that performs no operation upon a state update; for services that
/// expose their state only for polling.
#[derive(Copy)]
pub struct NoOperator<StateInput>(PhantomData<StateInput>);

impl<T> Clone for NoOperator<T> {
    fn clone(&self) -> Self {
        NoOperator(PhantomData)
    }
}

impl<StateInput: ServiceState> StateOperator for NoOperator<StateInput> {
    type StateInput = StateInput;

    fn from_settings<Settings>(_settings: Settings) -> Self {
        NoOperator(PhantomData)
    }

    fn run(&mut self, _state: Self::StateInput) {
    }
}

/// Empty state, constructible from any settings type, carrying no information;
/// for services with nothing meaningful to publish.
#[derive(Copy)]
pub struct NoState<Settings>(PhantomData<Settings>);

impl<T> Clone for NoState<T> {
    fn clone(&self) -> Self {
        NoState(PhantomData)
    }
}

impl<Settings> ServiceState for NoState<Settings> {
    type Settings = Settings;

    fn from_settings(_settings: &Self::Settings) -> Self {
        NoState(PhantomData)
    }
}

#[verifier::external_type_specification]
#[verifier::external_body]
#[verifier::reject_recursive_types(T)]
pub struct ExWatchSender<T>(tokio::sync::watch::Sender<T>);

#[verifier::external_type_specification]
#[verifier::external_body]
#[verifier::reject_recursive_types(T)]
pub struct ExWatchReceiver<T>(tokio::sync::watch::Receiver<T>);

#[verifier::external_type_specification]
#[verifier::external_body]
#[verifier::reject_recursive_types(T)]
pub struct ExWatchRef<'a, T>(tokio::sync::watch::Ref<'a, T>);

/// Relies on tokio::sync::watch::channel: creates the shared cell holding
/// `initial`, returning its one sender and first receiver.
#[verifier::external_body]
fn watch_channel<S>(initial: S) -> (tokio::sync::watch::Sender<S>, tokio::sync::watch::Receiver<S>) {
    tokio::sync::watch::channel(initial)
}

/// Relies on tokio::sync::watch::Sender::send: replaces the cell's value and
/// notifies all watchers; it fails, leaving the cell unchanged, when no
/// receiver is alive at the call.
#[verifier::external_body]
fn watch_send<S>(sender: &tokio::sync::watch::Sender<S>, value: S) -> (delivered: bool) {
    sender.send(value).is_ok()
}

/// Relies on tokio::sync::watch::Sender::clone: the clone is a writer to the
/// same cell, indistinguishable from the original.
#[verifier::external_body]
fn watch_sender_clone<S>(sender: &tokio::sync::watch::Sender<S>) -> (r: tokio::sync::watch::Sender<S>)
    ensures
        r == *sender,
{
    sender.clone()
}

/// Relies on tokio::sync::watch::Receiver::clone: the clone reads the same
/// cell and starts with this receiver's last-seen marker copied.
#[verifier::external_body]
fn watch_receiver_clone<S>(receiver: &tokio::sync::watch::Receiver<S>) -> (r: tokio::sync::watch::Receiver<S>)
    ensures
        r == *receiver,
{
    receiver.clone()
}

/// Relies on tokio::sync::watch::Receiver::borrow: reads the most recently
/// sent value; which value that is depends on concurrent publishes, so
/// nothing is claimed of it here.
#[verifier::external_body]
fn watch_borrow_cloned<S: Clone>(receiver: &tokio::sync::watch::Receiver<S>) -> S {
    receiver.borrow().clone()
}

/// Relies on tokio::sync::watch::Receiver::borrow: a scoped read guard over
/// the current value; publishes block while it is held.
#[verifier::external_body]
fn watch_borrow<S>(receiver: &tokio::sync::watch::Receiver<S>) -> tokio::sync::watch::Ref<'_, S> {
    receiver.borrow()
}

/// Relies on tokio::sync::watch::Receiver::borrow_and_update: reads the most
/// recently sent value and marks it as seen by this receiver.
#[verifier::external_body]
fn watch_borrow_and_update_cloned<S: Clone>(receiver: &mut tokio::sync::watch::Receiver<S>) -> S {
    receiver.borrow_and_update().clone()
}

/// Relies on tokio::sync::watch::Receiver::mark_changed: marks the value the
/// receiver currently holds as unseen, so the next wait observes it at once.
#[verifier::external_body]
fn watch_mark_changed<S>(receiver: &mut tokio::sync::watch::Receiver<S>) {
    receiver.mark_changed()
}

/// Relies on tokio::sync::watch::Receiver::changed, driven to completion on
/// the current thread: waits until the cell holds a value this receiver has
/// not seen (returning true) or until every sender is gone with nothing
/// unseen left (returning false). It blocks for as long as neither holds.
#[verifier::external_body]
fn watch_changed<S>(receiver: &mut tokio::sync::watch::Receiver<S>) -> (unseen: bool) {
    futures::executor::block_on(receiver.changed()).is_ok()
}

/// The exclusive-write side of a state channel: publishes new values and
/// notifies watchers. Clones write to the same cell.
#[verifier::reject_recursive_types(S)]
pub struct StateUpdater<S> {
    sender: tokio::sync::watch::Sender<S>,
    history: Ghost<Seq<S>>,
    undelivered: u64,
}

impl<S> StateUpdater<S> {
    /// The values published through this handle, oldest first, starting with
    /// the channel's initial state.
    pub closed spec fn published(&self) -> Seq<S> {
        self.history@
    }

    /// How many publishes through this handle found no watcher alive.
    pub closed spec fn missed_deliveries(&self) -> u64 {
        self.undelivered
    }
}

impl<S> Clone for StateUpdater<S> {
    /// The clone is an equivalent write handle over the same cell.
    fn clone(&self) -> (r: Self)
        ensures
            r == *self,
    {
        StateUpdater {
            sender: watch_sender_clone(&self.sender),
            history: self.history,
            undelivered: self.undelivered,
        }
    }
}

impl<S: ServiceState> StateUpdater<S> {
    /// Publish `new_state` as the channel's current value and wake all
    /// watchers. Never an error: when no watcher is alive the publish is
    /// counted as missed and the call returns normally, without blocking.
    pub fn update(&mut self, new_state: S)
        ensures
            final(self).published() == old(self).published().push(new_state),
            old(self).missed_deliveries() <= final(self).missed_deliveries() <= old(self).missed_deliveries() + 1,
    {
        let delivered = watch_send(&self.sender, new_state);
        self.history = Ghost(self.history@.push(new_state));
        if !delivered {
            if self.undelivered < u64::MAX {
                self.undelivered = self.undelivered + 1;
            }
        }
    }

    /// How many publishes through this handle found no watcher alive; the
    /// explicit diagnostic for deliveries absorbed at the source.
    pub fn missed_delivery_count(&self) -> (n: u64)
        ensures
            n == self.missed_deliveries(),
    {
        self.undelivered
    }
}

/// A read handle over a state channel: observes the latest published value,
/// tracking its own last-seen marker independently of other watchers.
#[verifier::reject_recursive_types(S)]
pub struct StateWatcher<S> {
    receiver: tokio::sync::watch::Receiver<S>,
}

impl<S> Clone for StateWatcher<S> {
    /// The clone is an independent read handle over the same cell, starting
    /// from this watcher's last-seen marker.
    fn clone(&self) -> (r: Self)
        ensures
            r == *self,
    {
        StateWatcher { receiver: watch_receiver_clone(&self.receiver) }
    }
}

impl<S> StateWatcher<S> where S: ServiceState + Clone {
    /// A snapshot of the most recently published value, without blocking the
    /// producer. Which value is current when the read happens depends on the
    /// timing of concurrent publishes, so no more is stated here; the
    /// channel's latest-value delivery is exercised by tests.
    pub fn state_cloned(&self) -> S {
        watch_borrow_cloned(&self.receiver)
    }
}

impl<S> StateWatcher<S> where S: ServiceState {
    /// A scoped read guard over the current value. It blocks new publishes
    /// for as long as it is held: release promptly, and never hold it across
    /// a suspension point.
    pub fn state_ref(&self) -> tokio::sync::watch::Ref<'_, S> {
        watch_borrow(&self.receiver)
    }
}

/// Construct a state channel holding `initial_state`; returns the exclusive
/// write handle and the first read handle.
pub fn state_channel<S: ServiceState>(initial_state: S) -> (r: (StateUpdater<S>, StateWatcher<S>))
    ensures
        r.0.published() == seq![initial_state],
        r.0.missed_deliveries() == 0,
{
    let ghost initial_history: Seq<S> = seq![initial_state];
    let (sender, receiver) = watch_channel(initial_state);
    let updater = StateUpdater {
        sender,
        history: Ghost(initial_history),
        undelivered: 0,
    };
    let watcher = StateWatcher { receiver };
    (updater, watcher)
}

/// Binds exactly one watcher to one operator and drives the consumption loop
/// "for every new state, invoke the operator", one round at a time.
#[verifier::reject_recursive_types(S)]
pub struct StateHandle<S: ServiceState, Operator: StateOperator<StateInput = S>> {
    watcher: StateWatcher<S>,
    operator: Operator,
    observed: Ghost<Seq<S>>,
}

impl<S: ServiceState, Operator: StateOperator<StateInput = S>> StateHandle<S, Operator> {
    /// The states this binding has handed to its operator, oldest first.
    pub closed spec fn observed(&self) -> Seq<S> {
        self.observed@
    }
}

impl<S: ServiceState, Operator: StateOperator<StateInput = S>> Clone for StateHandle<S, Operator>
    where Operator: Clone
{
    fn clone(&self) -> Self {
        StateHandle {
            watcher: self.watcher.clone(),
            operator: self.operator.clone(),
            observed: self.observed,
        }
    }
}

impl<S, Operator> StateHandle<S, Operator>
    where S: ServiceState + Clone, Operator: StateOperator<StateInput = S>
{
    /// Construct a state channel holding `initial_state` and bind its first
    /// watcher to `operator`; returns the ready-to-run binding and the write
    /// handle. The initial value counts as unseen, so the binding's first
    /// round reacts to it at once.
    pub fn new(initial_state: S, operator: Operator) -> (r: (Self, StateUpdater<S>))
        ensures
            r.0.observed() == Seq::<S>::empty(),
            r.1.published() == seq![initial_state],
            r.1.missed_deliveries() == 0,
    {
        let (updater, watcher) = state_channel(initial_state);
        let StateWatcher { receiver } = watcher;
        let mut receiver = receiver;
        watch_mark_changed(&mut receiver);
        let handle = StateHandle {
            watcher: StateWatcher { receiver },
            operator,
            observed: Ghost(Seq::empty()),
        };
        (handle, updater)
    }

    /// One round of the consumption loop: suspend until the channel holds a
    /// state this binding has not seen, then invoke the operator on it, to
    /// completion, and return true. Returns false, with the operator not
    /// invoked, exactly when the binding is over: every updater is gone and
    /// nothing unseen is left. Each round observes the latest value, skipping
    /// values that were overwritten before they were observed, in publish
    /// order; rounds are strictly sequential, so no two invocations overlap.
    /// Repeating this until it returns false is the consumption loop; how
    /// often a producer makes it go round is the producer's choice, so the
    /// repetition is the caller's, on whatever scheduler runs the binding.
    pub fn react_next(&mut self) -> (more: bool)
        ensures
            more ==> final(self).observed() == old(self).observed().push(final(self).observed().last()),
            !more ==> final(self).observed() == old(self).observed(),
    {
        let unseen = watch_changed(&mut self.watcher.receiver);
        if !unseen {
            return false;
        }
        let state = watch_borrow_and_update_cloned(&mut self.watcher.receiver);
        self.observed = Ghost(self.observed@.push(state));
        self.operator.run(state);
        true
    }
}

/// The phase of one binding's consumption loop.
#[derive(Clone, Copy, Debug, PartialEq, Eq)]
pub enum BindingPhase {
    /// No unseen state is buffered; the loop waits.
    Awaiting,
    /// An operator invocation is in flight.
    Reacting,
    /// Every updater is gone; the loop is over.
    Closed,
}

/// What the loop's wait came back with.
pub enum BindingEvent<S> {
    /// An unseen state was observed.
    Observed(S),
    /// The invocation in flight completed.
    ReactionComplete,
    /// Every updater is gone and nothing unseen is left.
    ProducerGone,
}

/// What the loop must do next.
pub enum BindingAction<S> {
    /// Invoke the operator on this state.
    Invoke(S),
    /// Wait for the next event.
    Wait,
    /// Return: the binding is over.
    Stop,
}

/// The transition relation of the consumption loop: from a phase and an
/// event to the next phase and the action owed. An observation taken while a
/// reaction is in flight is deferred — the loop re-observes the latest value
/// once the reaction completes — so no two invocations ever overlap.
pub open spec fn binding_step_spec<S>(phase: BindingPhase, event: BindingEvent<S>) -> (BindingPhase, BindingAction<S>) {
    match phase {
        BindingPhase::Awaiting => match event {
            BindingEvent::Observed(state) => (BindingPhase::Reacting, BindingAction::Invoke(state)),
            BindingEvent::ReactionComplete => (BindingPhase::Awaiting, BindingAction::Wait),
            BindingEvent::ProducerGone => (BindingPhase::Closed, BindingAction::Stop),
        },
        BindingPhase::Reacting => match event {
            BindingEvent::Observed(_) => (BindingPhase::Reacting, BindingAction::Wait),
            BindingEvent::ReactionComplete => (BindingPhase::Awaiting, BindingAction::Wait),
            BindingEvent::ProducerGone => (BindingPhase::Reacting, BindingAction::Wait),
        },
        BindingPhase::Closed => (BindingPhase::Closed, BindingAction::Stop),
    }
}

/// One step of the consumption loop's state machine, for a scheduler that
/// drives the loop event by event.
pub fn binding_step<S>(phase: BindingPhase, event: BindingEvent<S>) -> (r: (BindingPhase, BindingAction<S>))
    ensures
        r == binding_step_spec(phase, event),
{
    match phase {
        BindingPhase::Awaiting => match event {
            BindingEvent::Observed(state) => (BindingPhase::Reacting, BindingAction::Invoke(state)),
            BindingEvent::ReactionComplete => (BindingPhase::Awaiting, BindingAction::Wait),
            BindingEvent::ProducerGone => (BindingPhase::Closed, BindingAction::Stop),
        },
        BindingPhase::Reacting => match event {
            BindingEvent::Observed(_) => (BindingPhase::Reacting, BindingAction::Wait),
            BindingEvent::ReactionComplete => (BindingPhase::Awaiting, BindingAction::Wait),
            BindingEvent::ProducerGone => (BindingPhase::Reacting, BindingAction::Wait),
        },
        BindingPhase::Closed => (BindingPhase::Closed, BindingAction::Stop),
    }
}

/// For a single binding, two operator invocations never overlap: an
/// invocation is issued only from `Awaiting`, the phase it leaves behind is
/// `Reacting`, and from `Reacting` no event but the completion of the
/// invocation in flight leads anywhere an invocation can be issued.
pub proof fn lemma_sequential_invocation<S>(phase: BindingPhase, event: BindingEvent<S>)
    ensures
        binding_step_spec(phase, event).1 is Invoke ==>
            phase is Awaiting && event is Observed && binding_step_spec(phase, event).0 is Reacting,
        phase is Reacting && !(event is ReactionComplete) ==>
            binding_step_spec(phase, event).0 is Reacting,
        phase is Reacting && event is ReactionComplete ==>
            binding_step_spec(phase, event).0 is Awaiting,
{
}

/// Dropping the last updater terminates the loop cleanly: once the producer
/// is gone and the loop is awaiting, the next step stops it, and a stopped
/// binding stays stopped. The loop neither hangs nor errs: `binding_step` is
/// total over phases and events.
pub proof fn lemma_clean_termination<S>(event: BindingEvent<S>)
    ensures
        binding_step_spec::<S>(BindingPhase::Awaiting, BindingEvent::ProducerGone)
            == (BindingPhase::Closed, BindingAction::Stop::<S>),
        binding_step_spec(BindingPhase::Closed, event).0 is Closed,
        binding_step_spec(BindingPhase::Closed, event).1 is Stop,
{
}

} // verus!
