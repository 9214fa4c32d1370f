//! The delivery semantics of a state channel, as a model over the publish
//! history: the channel keeps exactly one current value, a watcher tracks how
//! far it has observed with a last-seen marker, and an observation always
//! yields the latest published value — later observations land strictly later
//! in publish order, so values are skipped under fast production but never
//! reordered. `StateUpdater::published` is such a history, oldest first.

use vstd::prelude::*;

verus! {

/// The channel's current value: the most recently published one.
pub open spec fn current_state<S>(history: Seq<S>) -> S
    recommends
        history.len() > 0,
{
    history.last()
}

/// The history after a further sequence of publishes, oldest first.
pub open spec fn publish_all<S>(history: Seq<S>, updates: Seq<S>) -> Seq<S> {
    history + updates
}

/// Whether a watcher whose last-seen marker is `cursor` (a position in
/// publish order) still has an unseen value to observe.
pub open spec fn has_unseen<S>(history: Seq<S>, cursor: int) -> bool {
    cursor < history.len() - 1
}

/// The publish-order position a watcher observes next: always the latest,
/// whatever its marker — intermediate positions are skipped, not queued.
pub open spec fn observed_index<S>(history: Seq<S>) -> int {
    history.len() - 1
}

/// The value a watcher observes next: always the current value.
pub open spec fn observed_value<S>(history: Seq<S>) -> S
    recommends
        history.len() > 0,
{
    history.last()
}

/// Latest-value semantics: for any sequence of publishes that all happen
/// before a poll, the poll returns the last published value, never an
/// earlier one.
pub proof fn lemma_latest_value<S>(history: Seq<S>, updates: Seq<S>)
    requires
        updates.len() > 0,
    ensures
        current_state(publish_all(history, updates)) == updates.last(),
{
    assert(publish_all(history, updates).len() == history.len() + updates.len());
    assert(publish_all(history, updates).last() == updates.last());
}

/// Lossy delivery under fast production: a watcher with anything unseen
/// observes the latest published value — whichever values were overwritten
/// before the observation are skipped — and its marker only ever moves
/// forward, so no value is observed out of publish order; a watcher with
/// nothing unseen is exactly one that has observed the current value.
pub proof fn lemma_lossy_delivery<S>(history: Seq<S>, cursor: int)
    requires
        0 <= cursor < history.len(),
    ensures
        has_unseen(history, cursor) ==> cursor < observed_index(history),
        has_unseen(history, cursor) ==> observed_value(history) == history[observed_index(history)],
        has_unseen(history, cursor) ==> observed_value(history) == current_state(history),
        !has_unseen(history, cursor) ==> cursor == observed_index(history),
{
}

/// Observations are monotone in publish order: once more values have been
/// published, the next observation lands at a position no earlier than the
/// last one — in particular, successive observations of a growing history
/// never run backwards.
pub proof fn lemma_observations_in_order<S>(history: Seq<S>, longer: Seq<S>)
    requires
        history.len() <= longer.len(),
    ensures
        observed_index::<S>(history) <= observed_index::<S>(longer),
{
}

} // verus!
