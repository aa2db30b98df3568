//! A model of the file system, and what a fetch does to it in any course
//! of events.

use vstd::prelude::*;

use crate::fetch::ModelFetchView;
use crate::resource::{lemma_paths_differ, Resource};
use crate::trace::{
    answer_at, lemma_completion_is_final, lemma_failure_is_final, lemma_run_concat, run,
};
use crate::transfer::{ActionView, EventView};

verus! {

/// A file system: the directories that exist, what each file holds, and the
/// file that is open for writing.
pub struct Disk {
    pub directories: Set<Seq<char>>,
    pub files: Map<Seq<char>, Seq<u8>>,
    pub open: Option<Seq<char>>,
}

/// The disk after `action` has been done and has not failed. A file that is
/// created is empty, whatever it held, and is the open one from then on;
/// what is written goes to the end of the open file.
pub open spec fn perform(disk: Disk, action: ActionView) -> Disk {
    match action {
        ActionView::CreateDirectory { path } => Disk {
            directories: disk.directories.insert(path),
            ..disk
        },
        ActionView::CreateFile { path } => Disk {
            files: disk.files.insert(path, Seq::empty()),
            open: Some(path),
            ..disk
        },
        ActionView::Write { bytes } => match disk.open {
            Some(path) => Disk { files: disk.files.insert(path, disk.files[path] + bytes), ..disk },
            None => disk,
        },
        _ => disk,
    }
}

/// The disk after a fetch has taken `events` and each of its answers has
/// been done.
pub open spec fn disk_after(
    state: ModelFetchView,
    disk: Disk,
    events: Seq<EventView>,
    styled: bool,
) -> Disk
    decreases events.len(),
{
    if events.len() == 0 {
        disk
    } else {
        perform(
            disk_after(state, disk, events.drop_last(), styled),
            run(state, events.drop_last(), styled).answer(events.last(), styled).action,
        )
    }
}

/// One more event is one more step, and its answer one more action.
pub proof fn lemma_push(
    state: ModelFetchView,
    disk: Disk,
    events: Seq<EventView>,
    event: EventView,
    styled: bool,
)
    ensures
        run(state, events.push(event), styled) == run(state, events, styled).next(event, styled),
        disk_after(state, disk, events.push(event), styled) == perform(
            disk_after(state, disk, events, styled),
            run(state, events, styled).answer(event, styled).action,
        ),
{
    assert(events.push(event).drop_last() =~= events);
}

/// Taking `first` and then `second` leaves on disk what taking the two in
/// one go leaves.
pub proof fn lemma_disk_concat(
    state: ModelFetchView,
    disk: Disk,
    first: Seq<EventView>,
    second: Seq<EventView>,
    styled: bool,
)
    ensures
        disk_after(state, disk, first + second, styled) == disk_after(
            run(state, first, styled),
            disk_after(state, disk, first, styled),
            second,
            styled,
        ),
    decreases second.len(),
{
    if second.len() == 0 {
        assert(first + second =~= first);
    } else {
        lemma_disk_concat(state, disk, first, second.drop_last(), styled);
        lemma_run_concat(state, first, second.drop_last(), styled);
        assert((first + second).drop_last() =~= first + second.drop_last());
        assert((first + second).last() == second.last());
    }
}

/// The fetch stands at a file of its model and transfers that file, and
/// where that transfer is complete the file is the last one.
pub open spec fn consistent(state: ModelFetchView) -> bool {
    &&& state.index < 6
    &&& state.transfer.request == Resource::spec_at(state.index as int)->0.spec_request(
        state.home,
        state.model_id,
    )
    &&& state.done() ==> state.index == 5
}

/// The fetch is consistent, and from the creation of its file to the end
/// of the body the open file is the one that it transfers.
pub open spec fn settled(state: ModelFetchView, disk: Disk) -> bool {
    &&& consistent(state)
    &&& state.transfer.phase is CreatingFile || state.transfer.phase is Reading
        || state.transfer.phase is Writing ==> disk.open == Some(state.transfer.request.path)
}

/// No step touches a file that comes before the current one in the fixed
/// order, nor goes back to one.
pub proof fn lemma_step_keeps_earlier_files(
    state: ModelFetchView,
    disk: Disk,
    event: EventView,
    styled: bool,
)
    requires
        settled(state, disk),
    ensures
        settled(state.next(event, styled), perform(disk, state.answer(event, styled).action)),
        state.next(event, styled).index >= state.index,
        forall|j: int|
            0 <= j < state.index ==> {
                let path = (#[trigger] Resource::spec_at(j))->0.spec_path(
                    state.home,
                    state.model_id,
                );
                let after = perform(disk, state.answer(event, styled).action);
                &&& after.files.contains_key(path) == disk.files.contains_key(path)
                &&& after.files.contains_key(path) ==> after.files[path] == disk.files[path]
            },
{
    assert forall|j: int| 0 <= j < state.index implies {
        let path = (#[trigger] Resource::spec_at(j))->0.spec_path(state.home, state.model_id);
        let after = perform(disk, state.answer(event, styled).action);
        &&& after.files.contains_key(path) == disk.files.contains_key(path)
        &&& after.files.contains_key(path) ==> after.files[path] == disk.files[path]
    } by {
        lemma_paths_differ(
            Resource::spec_at(j)->0,
            Resource::spec_at(state.index as int)->0,
            state.home,
            state.model_id,
        );
    }
}

/// A fetch stays with its model and its home directory.
pub proof fn lemma_run_keeps_context(state: ModelFetchView, events: Seq<EventView>, styled: bool)
    ensures
        run(state, events, styled).home == state.home,
        run(state, events, styled).model_id == state.model_id,
    decreases events.len(),
{
    if events.len() > 0 {
        lemma_run_keeps_context(state, events.drop_last(), styled);
    }
}

/// Whatever a fetch is told, it never goes back to an earlier file, and the
/// files before the current one stay as they are.
pub proof fn lemma_run_keeps_earlier_files(
    state: ModelFetchView,
    disk: Disk,
    events: Seq<EventView>,
    styled: bool,
)
    requires
        settled(state, disk),
    ensures
        settled(run(state, events, styled), disk_after(state, disk, events, styled)),
        run(state, events, styled).index >= state.index,
        forall|j: int|
            0 <= j < state.index ==> {
                let path = (#[trigger] Resource::spec_at(j))->0.spec_path(
                    state.home,
                    state.model_id,
                );
                let after = disk_after(state, disk, events, styled);
                &&& after.files.contains_key(path) == disk.files.contains_key(path)
                &&& after.files.contains_key(path) ==> after.files[path] == disk.files[path]
            },
    decreases events.len(),
{
    if events.len() > 0 {
        let before = events.drop_last();
        lemma_run_keeps_earlier_files(state, disk, before, styled);
        lemma_step_keeps_earlier_files(
            run(state, before, styled),
            disk_after(state, disk, before, styled),
            events.last(),
            styled,
        );
        lemma_run_keeps_context(state, before, styled);
    }
}

/// A fetch that is complete leaves the disk as it is, whatever it is told.
pub proof fn lemma_nothing_after_completion(
    state: ModelFetchView,
    disk: Disk,
    events: Seq<EventView>,
    styled: bool,
)
    requires
        state.done(),
    ensures
        run(state, events, styled) == state,
        disk_after(state, disk, events, styled) == disk,
    decreases events.len(),
{
    lemma_completion_is_final(state, events, styled);
    if events.len() > 0 {
        lemma_nothing_after_completion(state, disk, events.drop_last(), styled);
        lemma_completion_is_final(state, events.drop_last(), styled);
    }
}

/// Once a fetch has failed, what comes later changes nothing: the fetch and
/// the disk stay as they were at the failure, and every later answer is to
/// abort.
pub proof fn lemma_nothing_after_failure(
    state: ModelFetchView,
    disk: Disk,
    events: Seq<EventView>,
    m: int,
    styled: bool,
)
    requires
        0 <= m <= events.len(),
        run(state, events.take(m), styled).failed(),
    ensures
        run(state, events, styled) == run(state, events.take(m), styled),
        disk_after(state, disk, events, styled) == disk_after(state, disk, events.take(m), styled),
        forall|k: int|
            m <= k < events.len() ==> (#[trigger] answer_at(state, events, k, styled)).action
                is Abort,
    decreases events.len() - m,
{
    let failed = run(state, events.take(m), styled);
    assert forall|k: int| m <= k < events.len() implies (#[trigger] answer_at(
        state,
        events,
        k,
        styled,
    )).action is Abort by {
        let later = events.subrange(m, k);
        assert(events.take(k) =~= events.take(m) + later);
        lemma_run_concat(state, events.take(m), later, styled);
        lemma_failure_is_final(failed, later, styled);
    }
    if m < events.len() {
        assert(events.take(m + 1) =~= events.take(m).push(events[m]));
        lemma_push(state, disk, events.take(m), events[m], styled);
        lemma_nothing_after_failure(state, disk, events, m + 1, styled);
    } else {
        assert(events.take(m) =~= events);
    }
}

} // verus!
