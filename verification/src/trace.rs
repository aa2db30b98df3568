//! A fetch over many events, and what holds of every course it can take.

use vstd::prelude::*;

use crate::error::error_of;
use crate::fetch::ModelFetchView;
use crate::transfer::{ActionView, EventView, StepView};

verus! {

/// The fetch after `events`, taken one after the other.
pub open spec fn run(state: ModelFetchView, events: Seq<EventView>, styled: bool) -> ModelFetchView
    decreases events.len(),
{
    if events.len() == 0 {
        state
    } else {
        run(state, events.drop_last(), styled).next(events.last(), styled)
    }
}

/// The answer to the event at place `k` of `events`.
pub open spec fn answer_at(state: ModelFetchView, events: Seq<EventView>, k: int, styled: bool)
    -> StepView
    recommends
        0 <= k < events.len(),
{
    run(state, events.take(k), styled).answer(events[k], styled)
}

/// Taking `first` and then `second` is taking the two in one go.
pub proof fn lemma_run_concat(
    state: ModelFetchView,
    first: Seq<EventView>,
    second: Seq<EventView>,
    styled: bool,
)
    ensures
        run(state, first + second, styled) == run(run(state, first, styled), second, styled),
    decreases second.len(),
{
    if second.len() == 0 {
        assert(first + second =~= first);
    } else {
        lemma_run_concat(state, first, second.drop_last(), styled);
        assert((first + second).drop_last() =~= first + second.drop_last());
        assert((first + second).last() == second.last());
    }
}

/// A fetch that has failed stays as it is whatever it is told, and answers
/// every event with the error it failed with.
pub proof fn lemma_failure_is_final(state: ModelFetchView, events: Seq<EventView>, styled: bool)
    requires
        state.failed(),
    ensures
        run(state, events, styled) == state,
        forall|k: int|
            0 <= k < events.len() ==> #[trigger] answer_at(state, events, k, styled) == (StepView {
                report: None,
                action: ActionView::Abort {
                    error: error_of(
                        state.transfer.phase->failure,
                        state.transfer.request.url,
                        state.transfer.request.path,
                        state.transfer.request.directory,
                    ),
                },
            }),
    decreases events.len(),
{
    if events.len() > 0 {
        lemma_failure_is_final(state, events.drop_last(), styled);
    }
    assert forall|k: int| 0 <= k < events.len() implies #[trigger] answer_at(
        state,
        events,
        k,
        styled,
    ) == (StepView {
        report: None,
        action: ActionView::Abort {
            error: error_of(
                state.transfer.phase->failure,
                state.transfer.request.url,
                state.transfer.request.path,
                state.transfer.request.directory,
            ),
        },
    }) by {
        lemma_failure_is_final(state, events.take(k), styled);
    }
}

/// A fetch that is complete stays as it is whatever it is told, and answers
/// every event by saying so.
pub proof fn lemma_completion_is_final(state: ModelFetchView, events: Seq<EventView>, styled: bool)
    requires
        state.done(),
    ensures
        run(state, events, styled) == state,
        forall|k: int|
            0 <= k < events.len() ==> #[trigger] answer_at(state, events, k, styled) == (StepView {
                report: None,
                action: ActionView::Complete,
            }),
    decreases events.len(),
{
    if events.len() > 0 {
        lemma_completion_is_final(state, events.drop_last(), styled);
    }
    assert forall|k: int| 0 <= k < events.len() implies #[trigger] answer_at(
        state,
        events,
        k,
        styled,
    ) == (StepView { report: None, action: ActionView::Complete }) by {
        lemma_completion_is_final(state, events.take(k), styled);
    }
}

} // verus!
