//! What an update does to the cache when nothing fails.
//!
//! A `Disk` stands for the file system: the folders that exist and the files
//! with their bytes. `update` plays the caller's part of the exchange with
//! the worker against such a disk and a remote that hands out `remote`, and
//! counts the archives written. The theorems below are about that play.

use vstd::prelude::*;
use super::{lemma_filenames_distinct, GtfsDataSource};
use super::worker::{
    static_folder, update_step, zip_path, Creation, ExistingView, Probe, UpdateActionView,
    UpdateEventView, UpdateStateView,
};

verus! {

/// The folders and files of a file system.
pub struct Disk {
    pub folders: Set<Seq<char>>,
    pub files: Map<Seq<char>, Seq<u8>>,
}

/// How an update ended: the disk after it, the number of archives written,
/// and whether the worker answered `Succeed`.
pub struct Outcome {
    pub disk: Disk,
    pub writes: nat,
    pub succeeded: bool,
}

/// What performing `action` reports where nothing fails, and the disk after it.
pub open spec fn perform(disk: Disk, remote: Seq<u8>, action: UpdateActionView) -> (
    Disk,
    UpdateEventView,
) {
    match action {
        UpdateActionView::Fetch(_) => (disk, UpdateEventView::Fetched(Some(remote))),
        UpdateActionView::ReadArchive(path) => (
            disk,
            UpdateEventView::Read(
                if disk.files.contains_key(path) {
                    ExistingView::Found(disk.files[path])
                } else {
                    ExistingView::NotFound
                },
            ),
        ),
        UpdateActionView::ProbeFolder(path) => (
            disk,
            UpdateEventView::Probed(
                if disk.folders.contains(path) {
                    Probe::Exists
                } else {
                    Probe::NotFound
                },
            ),
        ),
        UpdateActionView::CreateFolder(path) => (
            Disk { folders: disk.folders.insert(path), files: disk.files },
            UpdateEventView::FolderCreated(
                if disk.folders.contains(path) {
                    Creation::AlreadyExists
                } else {
                    Creation::Created
                },
            ),
        ),
        UpdateActionView::WriteArchive(path, bytes) => (
            Disk { folders: disk.folders, files: disk.files.insert(path, bytes) },
            UpdateEventView::Written(true),
        ),
        UpdateActionView::Succeed => (disk, UpdateEventView::Begin),
        UpdateActionView::Fail(_) => (disk, UpdateEventView::Begin),
    }
}

/// The exchange from `state` and `event` on, for at most `steps` answers of
/// the worker.
pub open spec fn play(
    root: Seq<char>,
    source: GtfsDataSource,
    state: UpdateStateView,
    event: UpdateEventView,
    disk: Disk,
    remote: Seq<u8>,
    steps: nat,
) -> Outcome
    decreases steps,
{
    if steps == 0 {
        Outcome { disk, writes: 0, succeeded: false }
    } else {
        let (next, action) = update_step(root, source, state, event);
        match action {
            UpdateActionView::Succeed => Outcome { disk, writes: 0, succeeded: true },
            UpdateActionView::Fail(_) => Outcome { disk, writes: 0, succeeded: false },
            _ => {
                let (after, brought) = perform(disk, remote, action);
                let rest = play(root, source, next, brought, after, remote, (steps - 1) as nat);
                Outcome {
                    disk: rest.disk,
                    writes: rest.writes + if action is WriteArchive {
                        1nat
                    } else {
                        0nat
                    },
                    succeeded: rest.succeeded,
                }
            },
        }
    }
}

/// One whole update of `source`. No update takes more than six answers.
pub open spec fn update(
    root: Seq<char>,
    source: GtfsDataSource,
    disk: Disk,
    remote: Seq<u8>,
) -> Outcome {
    play(root, source, UpdateStateView::Start, UpdateEventView::Begin, disk, remote, 6)
}

/// The path that `path_for` reports on `disk`: that of the archive of
/// `source`, where a file is there.
pub open spec fn cached_path(root: Seq<char>, source: GtfsDataSource, disk: Disk) -> Option<
    Seq<char>,
> {
    if disk.files.contains_key(zip_path(root, source)) {
        Some(zip_path(root, source))
    } else {
        None
    }
}

/// Whether the archive of `source` on `disk` holds exactly `remote`.
pub open spec fn is_current(
    root: Seq<char>,
    source: GtfsDataSource,
    disk: Disk,
    remote: Seq<u8>,
) -> bool {
    disk.files.contains_key(zip_path(root, source)) && disk.files[zip_path(root, source)] == remote
}

/// An update succeeds where nothing fails. It leaves the download in the
/// archive of its source and every other file as it was, and it writes once
/// where the archive was missing or different, and not at all where it was
/// the same.
pub proof fn lemma_update_stores_download(
    root: Seq<char>,
    source: GtfsDataSource,
    disk: Disk,
    remote: Seq<u8>,
)
    ensures
        update(root, source, disk, remote).succeeded,
        update(root, source, disk, remote).disk.files == disk.files.insert(
            zip_path(root, source),
            remote,
        ),
        update(root, source, disk, remote).writes == if is_current(root, source, disk, remote) {
            0nat
        } else {
            1nat
        },
        is_current(root, source, disk, remote) ==> update(root, source, disk, remote).disk == disk,
{
    reveal_with_fuel(play, 7);
    let after = update(root, source, disk, remote);
    assert(after.disk.files =~= disk.files.insert(zip_path(root, source), remote));
}

/// Two updates in a row against an unchanged remote write at most once, and
/// the second of them writes nothing and leaves the disk as the first left it.
pub proof fn lemma_update_is_idempotent(
    root: Seq<char>,
    source: GtfsDataSource,
    disk: Disk,
    remote: Seq<u8>,
)
    ensures
        ({
            let first = update(root, source, disk, remote);
            let second = update(root, source, first.disk, remote);
            &&& second.succeeded
            &&& second.writes == 0
            &&& second.disk == first.disk
            &&& first.writes + second.writes == if is_current(root, source, disk, remote) {
                0nat
            } else {
                1nat
            }
        }),
{
    lemma_update_stores_download(root, source, disk, remote);
    let first = update(root, source, disk, remote);
    assert(is_current(root, source, first.disk, remote));
    lemma_update_stores_download(root, source, first.disk, remote);
}

/// After an update the archive of its source has a path, and it is the path
/// the archive was written to; on a disk without that file there is none.
pub proof fn lemma_path_follows_update(
    root: Seq<char>,
    source: GtfsDataSource,
    disk: Disk,
    remote: Seq<u8>,
)
    ensures
        cached_path(root, source, update(root, source, disk, remote).disk) == Some(
            zip_path(root, source),
        ),
        cached_path(root, source, disk).is_some() <==> disk.files.contains_key(
            zip_path(root, source),
        ),
{
    lemma_update_stores_download(root, source, disk, remote);
}

/// Two sources have their archives in different files.
pub proof fn lemma_archive_paths_distinct(root: Seq<char>, a: GtfsDataSource, b: GtfsDataSource)
    requires
        a != b,
    ensures
        zip_path(root, a) != zip_path(root, b),
{
    lemma_filenames_distinct(a, b);
    let prefix = static_folder(root) + "/"@;
    let x = a.spec_filename();
    let y = b.spec_filename();
    let tail = ".zip"@;
    if zip_path(root, a) == zip_path(root, b) {
        assert(zip_path(root, a).len() == prefix.len() + x.len() + tail.len());
        assert(zip_path(root, b).len() == prefix.len() + y.len() + tail.len());
        assert(x.len() == y.len());
        assert forall|i: int| 0 <= i < x.len() implies x[i] == y[i] by {
            assert(zip_path(root, a)[prefix.len() + i] == x[i]);
            assert(zip_path(root, b)[prefix.len() + i] == y[i]);
        }
        assert(x =~= y);
    }
}

/// An update of one source leaves the archive of every other source as it
/// was.
pub proof fn lemma_update_keeps_other_archives(
    root: Seq<char>,
    source: GtfsDataSource,
    other: GtfsDataSource,
    disk: Disk,
    remote: Seq<u8>,
)
    requires
        source != other,
    ensures
        cached_path(root, other, update(root, source, disk, remote).disk) == cached_path(
            root,
            other,
            disk,
        ),
        disk.files.contains_key(zip_path(root, other)) ==> update(
            root,
            source,
            disk,
            remote,
        ).disk.files[zip_path(root, other)] == disk.files[zip_path(root, other)],
{
    lemma_update_stores_download(root, source, disk, remote);
    lemma_archive_paths_distinct(root, source, other);
}

/// The number of answers that an update in `state` can still give.
pub open spec fn answers_left(state: UpdateStateView) -> nat {
    match state {
        UpdateStateView::Start => 6,
        UpdateStateView::Fetching => 5,
        UpdateStateView::Comparing(_) => 4,
        UpdateStateView::CheckingFolder(_) => 3,
        UpdateStateView::CreatingFolder(_) => 2,
        UpdateStateView::Writing => 1,
        UpdateStateView::Finished => 0,
    }
}

/// Whatever the caller reports, each answer brings the update nearer to its
/// end, and the update has ended exactly when the answer is `Succeed` or
/// `Fail`. An archive is written only with the bytes that were downloaded
/// and found to differ, and only to the archive of the source.
pub proof fn lemma_update_progresses(
    root: Seq<char>,
    source: GtfsDataSource,
    state: UpdateStateView,
    event: UpdateEventView,
)
    ensures
        ({
            let (next, action) = update_step(root, source, state, event);
            &&& state != UpdateStateView::Finished ==> answers_left(next) < answers_left(state)
            &&& next == UpdateStateView::Finished <==> action is Succeed || action is Fail
            &&& action is Fail ==> action->Fail_0.source == source
            &&& forall|path: Seq<char>, bytes: Seq<u8>|
                action == UpdateActionView::WriteArchive(path, bytes) ==> {
                    &&& path == zip_path(root, source)
                    &&& state == UpdateStateView::CheckingFolder(bytes) || state
                        == UpdateStateView::CreatingFolder(bytes)
                }
        }),
{
}

} // verus!
