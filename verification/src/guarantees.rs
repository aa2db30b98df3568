//! What a fetch guarantees, of every model and every course of events.
//!
//! The guarantees speak of the fetch as `ModelFetchView::next` and
//! `ModelFetchView::answer` define it, which is what `ModelFetch::step`
//! does, and of a disk and a host as `disk` and `host` model them. Where
//! one speaks of files that are complete, the progress display has its
//! style (`styled` is true): without a style no transfer gets past the
//! host's answer.

use vstd::prelude::*;

use crate::disk::{
    disk_after, lemma_disk_concat, lemma_nothing_after_completion, lemma_nothing_after_failure,
    lemma_push, lemma_run_keeps_earlier_files, perform, settled, Disk,
};
use crate::error::Failure;
use crate::fetch::{first_action, initial, ModelFetchView};
use crate::host::{
    all_sized, body, chunk_events, fetch_events, fetched, lemma_fetch, lemma_stored_holds,
    lemma_stored_keeps, lemma_stream, sized, stored, Served,
};
use crate::progress::{downloaded, ReportView};
use crate::resource::Resource;
use crate::trace::{answer_at, lemma_run_concat, run};
use crate::transfer::{EventView, Phase};

verus! {

/// The place of the current file in the fixed order never goes back, and it
/// moves on by one only when the body of the current file has ended.
pub proof fn lemma_index_moves_on_completion(state: ModelFetchView, event: EventView, styled: bool)
    ensures
        state.next(event, styled).index == state.index || state.next(event, styled).index
            == state.index + 1,
        state.next(event, styled).index == state.index + 1 ==> state.transfer.phase is Reading
            && event == EventView::EndOfStream,
{
}

/// At every point of every fetch, whatever it has been told: it stands at
/// one of the six files and transfers that file, it is complete only when
/// the last file is, and the one file that is open is the one it transfers.
pub proof fn lemma_fetch_stays_settled(
    home: Seq<char>,
    model_id: Seq<char>,
    disk: Disk,
    events: Seq<EventView>,
    styled: bool,
)
    ensures
        settled(
            run(initial(home, model_id), events, styled),
            fetched(home, model_id, disk, events, styled),
        ),
{
    lemma_run_keeps_earlier_files(
        initial(home, model_id),
        perform(disk, first_action(home, model_id)),
        events,
        styled,
    );
}

/// When a directory cannot be created, nothing is asked of the host and
/// nothing is written: the fetch fails at that step, every answer from
/// then on is to abort, and the disk stays as it was.
pub proof fn lemma_no_request_without_directory(
    state: ModelFetchView,
    disk: Disk,
    events: Seq<EventView>,
    styled: bool,
)
    requires
        state.transfer.phase == Phase::CreatingDirectory,
        events.len() > 0,
        events[0] != EventView::DirectoryCreated,
    ensures
        run(state, events, styled).index == state.index,
        run(state, events, styled).transfer.phase == (Phase::Failed {
            failure: Failure::CreateDirectory,
        }),
        disk_after(state, disk, events, styled) == disk,
        forall|k: int|
            0 <= k < events.len() ==> (#[trigger] answer_at(state, events, k, styled)).action
                is Abort,
{
    let none = Seq::<EventView>::empty();
    assert(events.take(0) =~= none);
    assert(events.take(1) =~= none.push(events[0]));
    lemma_push(state, disk, none, events[0], styled);
    lemma_nothing_after_failure(state, disk, events, 1, styled);
}

/// A fetch in which nothing fails ends complete. Each of the six files then
/// lies in its place below the model's directory, in a directory that
/// exists, and holds exactly the body that the host served for it, chunk
/// after chunk.
pub proof fn lemma_complete_fetch(
    home: Seq<char>,
    model_id: Seq<char>,
    disk: Disk,
    served: Seq<Served>,
)
    requires
        served.len() == 6,
        all_sized(served),
    ensures
        run(initial(home, model_id), fetch_events(served), true).done(),
        forall|j: int|
            0 <= j < 6 ==> {
                let resource = (#[trigger] Resource::spec_at(j))->0;
                let after = fetched(home, model_id, disk, fetch_events(served), true);
                &&& after.directories.contains(resource.spec_directory(home, model_id))
                &&& after.files.contains_key(resource.spec_path(home, model_id))
                &&& after.files[resource.spec_path(home, model_id)] == body(served[j].chunks)
            },
{
    lemma_fetch(home, model_id, disk, served);
    assert forall|j: int| 0 <= j < 6 implies {
        let resource = (#[trigger] Resource::spec_at(j))->0;
        let after = fetched(home, model_id, disk, fetch_events(served), true);
        &&& after.directories.contains(resource.spec_directory(home, model_id))
        &&& after.files.contains_key(resource.spec_path(home, model_id))
        &&& after.files[resource.spec_path(home, model_id)] == body(served[j].chunks)
    } by {
        lemma_stored_holds(disk.files, home, model_id, served, j);
    }
}

/// Fetching again what was fetched, from a host that serves the same,
/// leaves every file as the first fetch left it: a file is emptied and
/// written anew, never added to.
pub proof fn lemma_fetching_again(
    home: Seq<char>,
    model_id: Seq<char>,
    disk: Disk,
    served: Seq<Served>,
)
    requires
        served.len() == 6,
        all_sized(served),
    ensures
        fetched(
            home,
            model_id,
            fetched(home, model_id, disk, fetch_events(served), true),
            fetch_events(served),
            true,
        ).files == fetched(home, model_id, disk, fetch_events(served), true).files,
{
    let once = fetched(home, model_id, disk, fetch_events(served), true);
    let twice = fetched(home, model_id, once, fetch_events(served), true);
    lemma_fetch(home, model_id, disk, served);
    lemma_fetch(home, model_id, once, served);
    assert forall|path: Seq<char>|
        (#[trigger] twice.files.dom().contains(path)) == once.files.dom().contains(path) && (
        twice.files.dom().contains(path) ==> twice.files[path] == once.files[path]) by {
        if exists|j: int| 0 <= j < 6 && path == Resource::spec_at(j)->0.spec_path(home, model_id) {
            let j = choose|j: int|
                0 <= j < 6 && path == Resource::spec_at(j)->0.spec_path(home, model_id);
            lemma_stored_holds(disk.files, home, model_id, served, j);
            lemma_stored_holds(once.files, home, model_id, served, j);
        } else {
            lemma_stored_keeps(once.files, home, model_id, served, path);
        }
    }
    assert(twice.files =~= once.files);
}

/// A file that is complete is never touched again. Once the first files of
/// a model are complete, they hold the bodies that were served for them
/// whatever happens then, and the fetch never goes back to one of them:
/// where it fails, the files before the failure are whole.
pub proof fn lemma_complete_files_stay(
    home: Seq<char>,
    model_id: Seq<char>,
    disk: Disk,
    served: Seq<Served>,
    rest: Seq<EventView>,
)
    requires
        served.len() <= 6,
        all_sized(served),
    ensures
        served.len() < 6 ==> run(initial(home, model_id), fetch_events(served) + rest, true).index
            >= served.len(),
        forall|j: int|
            0 <= j < served.len() ==> {
                let path = (#[trigger] Resource::spec_at(j))->0.spec_path(home, model_id);
                let after = fetched(home, model_id, disk, fetch_events(served) + rest, true);
                &&& after.files.contains_key(path)
                &&& after.files[path] == body(served[j].chunks)
            },
{
    let start = initial(home, model_id);
    let first = perform(disk, first_action(home, model_id));
    let earlier = fetch_events(served);
    let reached = run(start, earlier, true);
    let stored = fetched(home, model_id, disk, earlier, true);
    lemma_fetch(home, model_id, disk, served);
    lemma_run_concat(start, earlier, rest, true);
    lemma_disk_concat(start, first, earlier, rest, true);
    if served.len() < 6 {
        lemma_run_keeps_earlier_files(reached, stored, rest, true);
    } else {
        lemma_nothing_after_completion(reached, stored, rest, true);
    }
    assert forall|j: int| 0 <= j < served.len() implies {
        let path = (#[trigger] Resource::spec_at(j))->0.spec_path(home, model_id);
        let after = fetched(home, model_id, disk, fetch_events(served) + rest, true);
        &&& after.files.contains_key(path)
        &&& after.files[path] == body(served[j].chunks)
    } by {
        lemma_stored_holds(disk.files, home, model_id, served, j);
    }
}

/// Where the host does not announce the size of a file, the fetch fails
/// there for the lack of it and goes no further: no later file is begun,
/// whatever happens then, and every file before it holds the body that was
/// served for it.
pub proof fn lemma_missing_size_stops_fetch(
    home: Seq<char>,
    model_id: Seq<char>,
    disk: Disk,
    served: Seq<Served>,
    rest: Seq<EventView>,
)
    requires
        served.len() < 6,
        all_sized(served),
    ensures
        ({
            let events = fetch_events(served).push(EventView::DirectoryCreated).push(
                EventView::Responded { content_length: None },
            ) + rest;
            let end = run(initial(home, model_id), events, true);
            let after = fetched(home, model_id, disk, events, true);
            &&& end.index == served.len()
            &&& end.transfer.phase == Phase::Failed { failure: Failure::ContentLength }
            &&& forall|j: int|
                0 <= j < served.len() ==> {
                    let resource = (#[trigger] Resource::spec_at(j))->0;
                    &&& after.files.contains_key(resource.spec_path(home, model_id))
                    &&& after.files[resource.spec_path(home, model_id)] == body(served[j].chunks)
                }
            &&& forall|k: int|
                fetch_events(served).len() < k < events.len() ==> (#[trigger] answer_at(
                    initial(home, model_id),
                    events,
                    k,
                    true,
                )).action is Abort
        }),
{
    let start = initial(home, model_id);
    let first = perform(disk, first_action(home, model_id));
    let earlier = fetch_events(served);
    let created = earlier.push(EventView::DirectoryCreated);
    let refused = created.push(EventView::Responded { content_length: None });
    let events = refused + rest;
    let m = refused.len() as int;
    lemma_fetch(home, model_id, disk, served);
    lemma_push(start, first, earlier, EventView::DirectoryCreated, true);
    lemma_push(start, first, created, EventView::Responded { content_length: None }, true);
    assert(events.take(m) =~= refused);
    lemma_nothing_after_failure(start, first, events, m, true);
    let after = fetched(home, model_id, disk, events, true);
    assert(after.files == stored(disk.files, home, model_id, served));
    assert forall|j: int| 0 <= j < served.len() implies {
        let resource = (#[trigger] Resource::spec_at(j))->0;
        &&& after.files.contains_key(resource.spec_path(home, model_id))
        &&& after.files[resource.spec_path(home, model_id)] == body(served[j].chunks)
    } by {
        lemma_stored_holds(disk.files, home, model_id, served, j);
    }
    assert forall|k: int| earlier.len() < k < events.len() implies (#[trigger] answer_at(
        start,
        events,
        k,
        true,
    )).action is Abort by {
        if k == m - 1 {
            assert(events.take(k) =~= created);
            assert(events[k] == EventView::Responded { content_length: None });
        }
    }
}

/// A body that arrives in chunks, however it is cut, fills the file and the
/// bar alike: when the chunks add up to the size that was announced, the
/// file has that size and holds the chunks in their order, the bar stands
/// at that size, which is also the last position it was told, and the end
/// of the body finishes the bar.
pub proof fn lemma_body_fills_file_and_bar(
    state: ModelFetchView,
    disk: Disk,
    chunks: Seq<Seq<u8>>,
    styled: bool,
)
    requires
        state.transfer.phase is Reading,
        state.transfer.phase->Reading_position == 0,
        disk.open is Some,
        disk.files.contains_key(disk.open->0),
        disk.files[disk.open->0].len() == 0,
        sized(chunks),
        body(chunks).len() == state.transfer.phase->Reading_total,
    ensures
        ({
            let total = state.transfer.phase->Reading_total;
            let events = chunk_events(chunks);
            let end = run(state, events, styled);
            let after = disk_after(state, disk, events, styled);
            &&& end.transfer.phase == Phase::Reading { total, position: total }
            &&& after.files[disk.open->0] == body(chunks)
            &&& after.files[disk.open->0].len() == total
            &&& chunks.len() > 0 ==> answer_at(state, events, events.len() - 1, styled).report
                == Some(ReportView::Position { position: total })
            &&& end.answer(EventView::EndOfStream, styled).report == Some(
                ReportView::Finish { message: downloaded(state.transfer.request.name) },
            )
        }),
{
    let path = disk.open->0;
    lemma_stream(state, disk, chunks, styled);
    assert(disk.files[path] + body(chunks) =~= body(chunks));
    if chunks.len() > 0 {
        let before = chunks.drop_last();
        assert(sized(before));
        lemma_stream(state, disk, before, styled);
        let read = chunk_events(before).push(EventView::Chunk { bytes: chunks.last() });
        lemma_push(state, disk, chunk_events(before), EventView::Chunk { bytes: chunks.last() }, styled);
        assert(chunk_events(chunks).take(chunk_events(chunks).len() - 1) =~= read);
    }
}

} // verus!
