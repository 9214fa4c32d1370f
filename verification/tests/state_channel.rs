use std::cell::RefCell;
use std::rc::Rc;
use std::time::Duration;

use overwatch_rs::state::{
    NoOperator, NoState, ServiceState, StateHandle, StateOperator, StateUpdater,
};

#[derive(Clone, Copy, Debug, PartialEq, Eq)]
struct Counter(u64);

impl ServiceState for Counter {
    type Settings = ();

    fn from_settings(_settings: &Self::Settings) -> Self {
        Counter(0)
    }
}

/// Records every state it is invoked on, through a shared log.
struct Recorder {
    seen: Rc<RefCell<Vec<u64>>>,
}

impl StateOperator for Recorder {
    type StateInput = Counter;

    fn from_settings<Settings>(_settings: Settings) -> Self {
        Recorder {
            seen: Rc::new(RefCell::new(Vec::new())),
        }
    }

    fn run(&mut self, state: Counter) {
        self.seen.borrow_mut().push(state.0);
    }
}

#[test]
fn latest_value_after_updates() {
    let (mut updater, watcher) = overwatch_rs::state::state_channel(Counter(0));
    for i in 1..=5u64 {
        updater.update(Counter(i));
    }
    assert_eq!(watcher.state_cloned(), Counter(5));
    assert_eq!(updater.missed_delivery_count(), 0);
}

#[test]
fn cloned_watchers_agree_on_latest() {
    let (mut updater, w1) = overwatch_rs::state::state_channel(Counter(0));
    let w2 = w1.clone();
    updater.update(Counter(5));
    assert_eq!(w1.state_cloned(), Counter(5));
    assert_eq!(w2.state_cloned(), Counter(5));
    updater.update(Counter(6));
    assert_eq!(w2.state_cloned(), Counter(6));
    assert_eq!(w1.state_cloned(), Counter(6));
}

#[test]
fn state_ref_reads_current_value() {
    let (mut updater, watcher) = overwatch_rs::state::state_channel(Counter(0));
    updater.update(Counter(9));
    let guard = watcher.state_ref();
    assert_eq!(*guard, Counter(9));
}

#[test]
fn update_without_watcher_is_tolerated() {
    let (mut updater, watcher) = overwatch_rs::state::state_channel(Counter(0));
    drop(watcher);
    updater.update(Counter(1));
    updater.update(Counter(2));
    assert_eq!(updater.missed_delivery_count(), 2);
}

#[test]
fn reactor_observes_latest_value_in_order() {
    let recorder = Recorder::from_settings(());
    let seen = Rc::clone(&recorder.seen);
    let (mut handle, mut updater) = StateHandle::new(Counter(0), recorder);
    updater.update(Counter(1));
    updater.update(Counter(2));
    updater.update(Counter(3));
    drop(updater);
    while handle.react_next() {}
    let log = seen.borrow();
    assert_eq!(*log.last().expect("the reactor observed something"), 3);
    for window in log.windows(2) {
        assert!(window[0] <= window[1]);
    }
}

#[test]
fn fast_production_skips_to_latest() {
    let recorder = Recorder::from_settings(());
    let seen = Rc::clone(&recorder.seen);
    let (mut handle, mut updater) = StateHandle::new(Counter(0), recorder);
    updater.update(Counter(1));
    updater.update(Counter(2));
    updater.update(Counter(3));
    drop(updater);
    while handle.react_next() {}
    assert_eq!(*seen.borrow(), vec![3]);
}

#[test]
fn dropping_updater_terminates_consumption() {
    let recorder = Recorder::from_settings(());
    let seen = Rc::clone(&recorder.seen);
    let (mut handle, updater) = StateHandle::new(Counter(0), recorder);
    drop(updater);
    let mut rounds: u32 = 0;
    while handle.react_next() {
        rounds += 1;
    }
    assert_eq!(rounds, 1);
    assert_eq!(*seen.borrow(), vec![0]);
    assert!(!handle.react_next());
}

#[test]
fn null_state_and_null_operator() {
    let state = NoState::<u32>::from_settings(&7);
    let _copy = state.clone();
    let operator: NoOperator<NoState<u32>> = NoOperator::from_settings("anything");
    let (mut handle, updater) = StateHandle::new(NoState::from_settings(&7), operator.clone());
    drop(updater);
    while handle.react_next() {}
}

struct PanicOnGreaterThanTen;

impl StateOperator for PanicOnGreaterThanTen {
    type StateInput = Counter;

    fn from_settings<Settings>(_settings: Settings) -> Self {
        Self
    }

    fn run(&mut self, state: Counter) {
        let Counter(value) = state;
        println!("{value}");
        assert!(value < 10);
    }
}

#[test]
#[should_panic]
fn state_stream_collects() {
    let (mut handle, updater): (
        StateHandle<Counter, PanicOnGreaterThanTen>,
        StateUpdater<Counter>,
    ) = StateHandle::new(
        Counter::from_settings(&()),
        PanicOnGreaterThanTen::from_settings(()),
    );
    let runtime = tokio::runtime::Builder::new_multi_thread()
        .worker_threads(2)
        .enable_time()
        .build()
        .expect("runtime built");
    runtime.spawn(async move {
        let mut updater = updater;
        tokio::time::sleep(Duration::from_millis(50)).await;
        for i in 0..15u64 {
            updater.update(Counter(i));
            tokio::time::sleep(Duration::from_millis(50)).await;
        }
    });
    while handle.react_next() {}
}
