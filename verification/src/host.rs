//! A host that serves a body for every file, and the course of a fetch in
//! which nothing fails.

use vstd::prelude::*;

use crate::disk::{disk_after, lemma_disk_concat, lemma_push, perform, Disk};
use crate::fetch::{first_action, initial, ModelFetchView};
use crate::progress::advanced;
use crate::resource::{lemma_paths_differ, Resource};
use crate::trace::{lemma_run_concat, run};
use crate::transfer::{EventView, Phase, TransferView};

verus! {

/// What the host serves for one file: the size it announces, and the chunks
/// its body arrives in.
pub struct Served {
    pub total: u64,
    pub chunks: Seq<Seq<u8>>,
}

/// The events of a body that arrives as `chunks`, each of which is written
/// before the next is read.
pub open spec fn chunk_events(chunks: Seq<Seq<u8>>) -> Seq<EventView>
    decreases chunks.len(),
{
    if chunks.len() == 0 {
        Seq::empty()
    } else {
        chunk_events(chunks.drop_last()).push(EventView::Chunk { bytes: chunks.last() }).push(
            EventView::Written,
        )
    }
}

/// The body that arrives as `chunks`: one chunk after the other.
pub open spec fn body(chunks: Seq<Seq<u8>>) -> Seq<u8>
    decreases chunks.len(),
{
    if chunks.len() == 0 {
        Seq::empty()
    } else {
        body(chunks.drop_last()) + chunks.last()
    }
}

/// Each chunk is one that a vector can hold.
pub open spec fn sized(chunks: Seq<Seq<u8>>) -> bool {
    forall|i: int| 0 <= i < chunks.len() ==> (#[trigger] chunks[i]).len() <= usize::MAX
}

/// The chunks of every body are such as a vector can hold.
pub open spec fn all_sized(served: Seq<Served>) -> bool {
    forall|i: int| 0 <= i < served.len() ==> sized(#[trigger] served[i].chunks)
}

/// The events of a transfer in which nothing fails: the directory is
/// created, the host answers and announces a size, the file is created,
/// the body arrives and is written chunk by chunk, and ends.
pub open spec fn transfer_events(served: Served) -> Seq<EventView> {
    (seq![
        EventView::DirectoryCreated,
        EventView::Responded { content_length: Some(served.total) },
        EventView::FileCreated,
    ] + chunk_events(served.chunks)).push(EventView::EndOfStream)
}

/// The events of a fetch in which nothing fails, for the files that
/// `served` holds, in the fixed order.
pub open spec fn fetch_events(served: Seq<Served>) -> Seq<EventView>
    decreases served.len(),
{
    if served.len() == 0 {
        Seq::empty()
    } else {
        fetch_events(served.drop_last()) + transfer_events(served.last())
    }
}

/// The fetch of `model_id` when the transfer of the file at place `index`
/// is about to create its directory.
pub open spec fn starting(home: Seq<char>, model_id: Seq<char>, index: nat) -> ModelFetchView
    recommends
        index < 6,
{
    ModelFetchView {
        home,
        model_id,
        index,
        transfer: TransferView {
            request: Resource::spec_at(index as int)->0.spec_request(home, model_id),
            phase: Phase::CreatingDirectory,
        },
    }
}

/// The fetch of `model_id` when every file is complete.
pub open spec fn finished(home: Seq<char>, model_id: Seq<char>) -> ModelFetchView {
    ModelFetchView {
        home,
        model_id,
        index: 5,
        transfer: TransferView {
            request: Resource::Weights.spec_request(home, model_id),
            phase: Phase::Complete,
        },
    }
}

/// The fetch of `model_id` after the files before place `index`: at the
/// start of the file at that place, or complete where there is none.
pub open spec fn after_files(home: Seq<char>, model_id: Seq<char>, index: nat) -> ModelFetchView {
    if index < 6 {
        starting(home, model_id, index)
    } else {
        finished(home, model_id)
    }
}

/// The disk after a fetch of `model_id` that began on `disk` has taken
/// `events`: its first action is done before any event is there.
pub open spec fn fetched(
    home: Seq<char>,
    model_id: Seq<char>,
    disk: Disk,
    events: Seq<EventView>,
    styled: bool,
) -> Disk {
    disk_after(
        initial(home, model_id),
        perform(disk, first_action(home, model_id)),
        events,
        styled,
    )
}

/// `files`, and in the place of each file of `model_id` that `served` holds
/// the body that was served for it.
pub open spec fn stored(
    files: Map<Seq<char>, Seq<u8>>,
    home: Seq<char>,
    model_id: Seq<char>,
    served: Seq<Served>,
) -> Map<Seq<char>, Seq<u8>>
    decreases served.len(),
{
    if served.len() == 0 {
        files
    } else {
        stored(files, home, model_id, served.drop_last()).insert(
            Resource::spec_at(served.len() - 1)->0.spec_path(home, model_id),
            body(served.last().chunks),
        )
    }
}

/// While a body is read, each chunk goes to the end of the open file, and
/// the position moves on by its length, up to the size that was announced.
pub proof fn lemma_stream(
    state: ModelFetchView,
    disk: Disk,
    chunks: Seq<Seq<u8>>,
    styled: bool,
)
    requires
        state.transfer.phase is Reading,
        state.transfer.phase->Reading_position <= state.transfer.phase->Reading_total,
        disk.open is Some,
        disk.files.contains_key(disk.open->0),
        sized(chunks),
    ensures
        run(state, chunk_events(chunks), styled) == (ModelFetchView {
            transfer: TransferView {
                phase: Phase::Reading {
                    total: state.transfer.phase->Reading_total,
                    position: advanced(
                        state.transfer.phase->Reading_total,
                        state.transfer.phase->Reading_position,
                        body(chunks).len(),
                    ),
                },
                ..state.transfer
            },
            ..state
        }),
        disk_after(state, disk, chunk_events(chunks), styled) == (Disk {
            files: disk.files.insert(disk.open->0, disk.files[disk.open->0] + body(chunks)),
            ..disk
        }),
    decreases chunks.len(),
{
    let path = disk.open->0;
    if chunks.len() == 0 {
        assert(disk.files[path] + body(chunks) =~= disk.files[path]);
        assert(disk.files.insert(path, disk.files[path]) =~= disk.files);
    } else {
        let before = chunks.drop_last();
        let last = chunks.last();
        assert(sized(before));
        lemma_stream(state, disk, before, styled);
        let read = chunk_events(before);
        let chunk = EventView::Chunk { bytes: last };
        lemma_push(state, disk, read, chunk, styled);
        lemma_push(state, disk, read.push(chunk), EventView::Written, styled);
        assert(disk.files[path] + body(before) + last =~= disk.files[path] + body(chunks));
        assert(disk.files.insert(path, disk.files[path] + body(before)).insert(
            path,
            disk.files[path] + body(before) + last,
        ) =~= disk.files.insert(path, disk.files[path] + body(chunks)));
    }
}

/// A transfer in which nothing fails leaves the file with the body that the
/// host served, whatever the file held before, and the fetch at the start
/// of the next file, whose directory is the next thing to be created.
pub proof fn lemma_transfer(
    home: Seq<char>,
    model_id: Seq<char>,
    index: nat,
    disk: Disk,
    served: Served,
)
    requires
        index < 6,
        sized(served.chunks),
    ensures
        run(starting(home, model_id, index), transfer_events(served), true) == after_files(
            home,
            model_id,
            index + 1,
        ),
        disk_after(starting(home, model_id, index), disk, transfer_events(served), true).files
            == disk.files.insert(
            Resource::spec_at(index as int)->0.spec_path(home, model_id),
            body(served.chunks),
        ),
        disk_after(
            starting(home, model_id, index),
            disk,
            transfer_events(served),
            true,
        ).directories == if index < 5 {
            disk.directories.insert(
                Resource::spec_at(index + 1 as int)->0.spec_directory(home, model_id),
            )
        } else {
            disk.directories
        },
{
    let state = starting(home, model_id, index);
    let path = Resource::spec_at(index as int)->0.spec_path(home, model_id);
    let none = Seq::<EventView>::empty();
    let e0 = EventView::DirectoryCreated;
    let e1 = EventView::Responded { content_length: Some(served.total) };
    let e2 = EventView::FileCreated;
    let opening = seq![e0, e1, e2];
    assert(opening =~= none.push(e0).push(e1).push(e2));
    lemma_push(state, disk, none, e0, true);
    lemma_push(state, disk, none.push(e0), e1, true);
    lemma_push(state, disk, none.push(e0).push(e1), e2, true);
    let opened = run(state, opening, true);
    let created = disk_after(state, disk, opening, true);
    assert(opened.transfer.phase == Phase::Reading { total: served.total, position: 0 });
    assert(created.files == disk.files.insert(path, Seq::empty()));
    assert(created.open == Some(path));
    let reading = chunk_events(served.chunks);
    lemma_stream(opened, created, served.chunks, true);
    lemma_run_concat(state, opening, reading, true);
    lemma_disk_concat(state, disk, opening, reading, true);
    lemma_push(state, disk, opening + reading, EventView::EndOfStream, true);
    assert(Seq::<u8>::empty() + body(served.chunks) =~= body(served.chunks));
    assert(created.files.insert(path, created.files[path] + body(served.chunks))
        =~= disk.files.insert(path, body(served.chunks)));
}

/// Among the stored files, each file of the model holds its own body.
pub proof fn lemma_stored_holds(
    files: Map<Seq<char>, Seq<u8>>,
    home: Seq<char>,
    model_id: Seq<char>,
    served: Seq<Served>,
    j: int,
)
    requires
        served.len() <= 6,
        0 <= j < served.len(),
    ensures
        stored(files, home, model_id, served).contains_key(
            Resource::spec_at(j)->0.spec_path(home, model_id),
        ),
        stored(files, home, model_id, served)[Resource::spec_at(j)->0.spec_path(home, model_id)]
            == body(served[j].chunks),
    decreases served.len(),
{
    if j < served.len() - 1 {
        lemma_stored_holds(files, home, model_id, served.drop_last(), j);
        lemma_paths_differ(
            Resource::spec_at(j)->0,
            Resource::spec_at(served.len() - 1)->0,
            home,
            model_id,
        );
    }
}

/// Storing the bodies leaves every other file as it was.
pub proof fn lemma_stored_keeps(
    files: Map<Seq<char>, Seq<u8>>,
    home: Seq<char>,
    model_id: Seq<char>,
    served: Seq<Served>,
    path: Seq<char>,
)
    requires
        forall|j: int|
            0 <= j < served.len() ==> path != (#[trigger] Resource::spec_at(j))->0.spec_path(
                home,
                model_id,
            ),
    ensures
        stored(files, home, model_id, served).contains_key(path) == files.contains_key(path),
        stored(files, home, model_id, served)[path] == files[path],
    decreases served.len(),
{
    if served.len() > 0 {
        lemma_stored_keeps(files, home, model_id, served.drop_last(), path);
        assert(path != Resource::spec_at(served.len() - 1)->0.spec_path(home, model_id));
    }
}

/// A fetch in which nothing fails, as far as `served` goes, stands at the
/// start of the next file, or is complete after the last. On disk each file
/// so far holds the body that was served for it, every other file is as it
/// was, and the directory of each file so far and of the next exists.
pub proof fn lemma_fetch(home: Seq<char>, model_id: Seq<char>, disk: Disk, served: Seq<Served>)
    requires
        served.len() <= 6,
        all_sized(served),
    ensures
        run(initial(home, model_id), fetch_events(served), true) == after_files(
            home,
            model_id,
            served.len(),
        ),
        fetched(home, model_id, disk, fetch_events(served), true).files == stored(
            disk.files,
            home,
            model_id,
            served,
        ),
        forall|j: int|
            0 <= j <= served.len() && j < 6 ==> fetched(
                home,
                model_id,
                disk,
                fetch_events(served),
                true,
            ).directories.contains((#[trigger] Resource::spec_at(j))->0.spec_directory(home, model_id)),
    decreases served.len(),
{
    let start = initial(home, model_id);
    let first = perform(disk, first_action(home, model_id));
    if served.len() > 0 {
        let before = served.drop_last();
        let index = before.len();
        assert(all_sized(before));
        lemma_fetch(home, model_id, disk, before);
        let earlier = fetch_events(before);
        let reached = fetched(home, model_id, disk, earlier, true);
        lemma_transfer(home, model_id, index, reached, served.last());
        lemma_run_concat(start, earlier, transfer_events(served.last()), true);
        lemma_disk_concat(start, first, earlier, transfer_events(served.last()), true);
        let now = fetched(home, model_id, disk, fetch_events(served), true);
        assert forall|j: int| 0 <= j <= served.len() && j < 6 implies now.directories.contains(
            (#[trigger] Resource::spec_at(j))->0.spec_directory(home, model_id),
        ) by {
            if j < served.len() {
                assert(reached.directories.contains(
                    Resource::spec_at(j)->0.spec_directory(home, model_id),
                ));
            }
        }
    }
}

} // verus!
