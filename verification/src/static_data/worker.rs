//! Keeping the cached archive of each source fresh.
//!
//! The worker decides; its caller downloads, reads and writes. An update of
//! one source is a short exchange: the caller hands the worker what the last
//! action brought (an `UpdateEvent`), and the worker answers with the next
//! action to perform (an `UpdateAction`) until it answers `Succeed` or `Fail`.
//! An archive is written only where the download differs from what is cached.

use vstd::prelude::*;
use vstd::string::*;
use super::GtfsDataSource;

verus! {

/// The folder below the worker's root that holds the archives.
pub const STATIC_FOLDERNAME: &'static str = "static-files";

/// How a download compares to the cached archive.
#[derive(Copy, Clone, Debug, PartialEq, Eq, Structural)]
pub enum DataComparison {
    Same,
    Different,
}

/// What reading the cached archive brought.
#[derive(Clone, Debug)]
pub enum Existing {
    Found(Vec<u8>),
    NotFound,
    Failed,
}

/// What asking for the archive folder's metadata brought.
#[derive(Copy, Clone, Debug, PartialEq, Eq, Structural)]
pub enum Probe {
    Exists,
    NotFound,
    Failed,
}

/// What creating the archive folder brought.
#[derive(Copy, Clone, Debug, PartialEq, Eq, Structural)]
pub enum Creation {
    Created,
    AlreadyExists,
    Failed,
}

/// The step of an update at which it failed.
#[derive(Copy, Clone, Debug, PartialEq, Eq, Structural)]
pub enum Stage {
    /// Downloading the archive.
    Fetching,
    /// Reading the cached archive.
    Comparing,
    /// Making the folder or writing the archive.
    Saving,
    /// The caller handed in an event that answers no action of this update.
    OutOfTurn,
}

/// The kinds of failure of an update.
#[derive(Copy, Clone, Debug, PartialEq, Eq, Structural)]
pub enum ErrorKind {
    Network,
    Filesystem,
    Protocol,
}

/// A failed update, with the source it was for.
#[derive(Copy, Clone, Debug, PartialEq, Eq, Structural)]
pub struct UpdateError {
    pub source: GtfsDataSource,
    pub stage: Stage,
}

impl UpdateError {
    pub open spec fn spec_kind(self) -> ErrorKind {
        match self.stage {
            Stage::Fetching => ErrorKind::Network,
            Stage::Comparing => ErrorKind::Filesystem,
            Stage::Saving => ErrorKind::Filesystem,
            Stage::OutOfTurn => ErrorKind::Protocol,
        }
    }

    /// Whether the network or the file system failed.
    pub fn kind(&self) -> (kind: ErrorKind)
        ensures
            kind == self.spec_kind(),
    {
        match self.stage {
            Stage::Fetching => ErrorKind::Network,
            Stage::Comparing => ErrorKind::Filesystem,
            Stage::Saving => ErrorKind::Filesystem,
            Stage::OutOfTurn => ErrorKind::Protocol,
        }
    }
}

/// Where an update of one source stands.
#[derive(Clone, Debug)]
pub enum UpdateState {
    Start,
    Fetching,
    Comparing { bytes: Vec<u8> },
    CheckingFolder { bytes: Vec<u8> },
    CreatingFolder { bytes: Vec<u8> },
    Writing,
    Finished,
}

/// What the caller reports to the worker.
#[derive(Clone, Debug)]
pub enum UpdateEvent {
    /// The update is asked for.
    Begin,
    /// The download ended: with the whole body, or without.
    Fetched(Option<Vec<u8>>),
    Read(Existing),
    Probed(Probe),
    FolderCreated(Creation),
    /// The archive was written and synced, or was not.
    Written(bool),
}

/// What the worker asks the caller to do next.
#[derive(Clone, Debug)]
pub enum UpdateAction {
    /// GET the address into memory.
    Fetch { url: &'static str },
    /// Read the whole file.
    ReadArchive { path: String },
    /// Ask for the folder's metadata.
    ProbeFolder { path: String },
    CreateFolder { path: String },
    /// Create or truncate the file, write the bytes and sync them to disk.
    WriteArchive { path: String, bytes: Vec<u8> },
    /// The update is done and the cache is current.
    Succeed,
    /// The update is over and has failed.
    Fail(UpdateError),
}

pub enum ExistingView {
    Found(Seq<u8>),
    NotFound,
    Failed,
}

pub enum UpdateStateView {
    Start,
    Fetching,
    Comparing(Seq<u8>),
    CheckingFolder(Seq<u8>),
    CreatingFolder(Seq<u8>),
    Writing,
    Finished,
}

pub enum UpdateEventView {
    Begin,
    Fetched(Option<Seq<u8>>),
    Read(ExistingView),
    Probed(Probe),
    FolderCreated(Creation),
    Written(bool),
}

pub enum UpdateActionView {
    Fetch(Seq<char>),
    ReadArchive(Seq<char>),
    ProbeFolder(Seq<char>),
    CreateFolder(Seq<char>),
    WriteArchive(Seq<char>, Seq<u8>),
    Succeed,
    Fail(UpdateError),
}

impl View for Existing {
    type V = ExistingView;

    open spec fn view(&self) -> ExistingView {
        match *self {
            Existing::Found(bytes) => ExistingView::Found(bytes@),
            Existing::NotFound => ExistingView::NotFound,
            Existing::Failed => ExistingView::Failed,
        }
    }
}

impl View for UpdateState {
    type V = UpdateStateView;

    open spec fn view(&self) -> UpdateStateView {
        match *self {
            UpdateState::Start => UpdateStateView::Start,
            UpdateState::Fetching => UpdateStateView::Fetching,
            UpdateState::Comparing { bytes } => UpdateStateView::Comparing(bytes@),
            UpdateState::CheckingFolder { bytes } => UpdateStateView::CheckingFolder(bytes@),
            UpdateState::CreatingFolder { bytes } => UpdateStateView::CreatingFolder(bytes@),
            UpdateState::Writing => UpdateStateView::Writing,
            UpdateState::Finished => UpdateStateView::Finished,
        }
    }
}

impl View for UpdateEvent {
    type V = UpdateEventView;

    open spec fn view(&self) -> UpdateEventView {
        match *self {
            UpdateEvent::Begin => UpdateEventView::Begin,
            UpdateEvent::Fetched(Some(bytes)) => UpdateEventView::Fetched(Some(bytes@)),
            UpdateEvent::Fetched(None) => UpdateEventView::Fetched(None),
            UpdateEvent::Read(existing) => UpdateEventView::Read(existing@),
            UpdateEvent::Probed(probe) => UpdateEventView::Probed(probe),
            UpdateEvent::FolderCreated(creation) => UpdateEventView::FolderCreated(creation),
            UpdateEvent::Written(done) => UpdateEventView::Written(done),
        }
    }
}

impl View for UpdateAction {
    type V = UpdateActionView;

    open spec fn view(&self) -> UpdateActionView {
        match *self {
            UpdateAction::Fetch { url } => UpdateActionView::Fetch(url@),
            UpdateAction::ReadArchive { path } => UpdateActionView::ReadArchive(path@),
            UpdateAction::ProbeFolder { path } => UpdateActionView::ProbeFolder(path@),
            UpdateAction::CreateFolder { path } => UpdateActionView::CreateFolder(path@),
            UpdateAction::WriteArchive { path, bytes } => UpdateActionView::WriteArchive(
                path@,
                bytes@,
            ),
            UpdateAction::Succeed => UpdateActionView::Succeed,
            UpdateAction::Fail(error) => UpdateActionView::Fail(error),
        }
    }
}

/// What `update_all` asks its caller to do next.
#[derive(Copy, Clone, Debug, PartialEq, Eq, Structural)]
pub enum PassStep {
    /// Update this source, then ask again.
    Update(GtfsDataSource),
    /// Every source is up to date.
    Done,
    /// A source failed and the pass ends with its error.
    Abort(UpdateError),
}

/// The folder of the archives below `root`.
pub open spec fn static_folder(root: Seq<char>) -> Seq<char> {
    root + "/"@ + STATIC_FOLDERNAME@
}

/// The file of a source's archive below `root`.
pub open spec fn zip_path(root: Seq<char>, source: GtfsDataSource) -> Seq<char> {
    static_folder(root) + "/"@ + source.spec_filename() + ".zip"@
}

/// A download is the same as the cached archive where there is one and it
/// holds the same bytes; a missing archive differs from every download.
pub open spec fn comparison(fetched: Seq<u8>, existing: ExistingView) -> Option<DataComparison> {
    match existing {
        ExistingView::Found(cached) => Some(
            if cached == fetched {
                DataComparison::Same
            } else {
                DataComparison::Different
            },
        ),
        ExistingView::NotFound => Some(DataComparison::Different),
        ExistingView::Failed => None,
    }
}

/// The worker's answer to `event` in `state`, and the state after it.
pub open spec fn update_step(
    root: Seq<char>,
    source: GtfsDataSource,
    state: UpdateStateView,
    event: UpdateEventView,
) -> (UpdateStateView, UpdateActionView) {
    let fail = |stage: Stage|
        (UpdateStateView::Finished, UpdateActionView::Fail(UpdateError { source, stage }));
    let write = |bytes: Seq<u8>|
        (UpdateStateView::Writing, UpdateActionView::WriteArchive(zip_path(root, source), bytes));
    match (state, event) {
        (UpdateStateView::Start, UpdateEventView::Begin) => (
            UpdateStateView::Fetching,
            UpdateActionView::Fetch(source.spec_url()),
        ),
        (UpdateStateView::Fetching, UpdateEventView::Fetched(Some(bytes))) => (
            UpdateStateView::Comparing(bytes),
            UpdateActionView::ReadArchive(zip_path(root, source)),
        ),
        (UpdateStateView::Fetching, UpdateEventView::Fetched(None)) => fail(Stage::Fetching),
        (UpdateStateView::Comparing(bytes), UpdateEventView::Read(existing)) => match comparison(
            bytes,
            existing,
        ) {
            Some(DataComparison::Same) => (UpdateStateView::Finished, UpdateActionView::Succeed),
            Some(DataComparison::Different) => (
                UpdateStateView::CheckingFolder(bytes),
                UpdateActionView::ProbeFolder(static_folder(root)),
            ),
            None => fail(Stage::Comparing),
        },
        (UpdateStateView::CheckingFolder(bytes), UpdateEventView::Probed(probe)) => match probe {
            Probe::Exists => write(bytes),
            Probe::NotFound => (
                UpdateStateView::CreatingFolder(bytes),
                UpdateActionView::CreateFolder(static_folder(root)),
            ),
            Probe::Failed => fail(Stage::Saving),
        },
        (
            UpdateStateView::CreatingFolder(bytes),
            UpdateEventView::FolderCreated(creation),
        ) => match creation {
            Creation::Created => write(bytes),
            Creation::AlreadyExists => write(bytes),
            Creation::Failed => fail(Stage::Saving),
        },
        (UpdateStateView::Writing, UpdateEventView::Written(done)) => if done {
            (UpdateStateView::Finished, UpdateActionView::Succeed)
        } else {
            fail(Stage::Saving)
        },
        _ => fail(Stage::OutOfTurn),
    }
}

/// The next step of a pass over all sources, after `completed` of them were
/// updated and the latest update ended in `outcome`.
pub open spec fn pass_step(completed: nat, outcome: Result<(), UpdateError>) -> PassStep {
    match outcome {
        Err(error) => PassStep::Abort(error),
        Ok(_) => if completed < GtfsDataSource::registry().len() {
            PassStep::Update(GtfsDataSource::registry()[completed as int])
        } else {
            PassStep::Done
        },
    }
}

/// Whether two byte strings are the same, byte for byte.
pub fn same_bytes(left: &Vec<u8>, right: &Vec<u8>) -> (same: bool)
    ensures
        same == (left@ == right@),
{
    if left.len() != right.len() {
        return false;
    }
    let mut i: usize = 0;
    while i < left.len()
        invariant
            left@.len() == right@.len(),
            i <= left@.len(),
            forall|j: int| 0 <= j < i ==> left@[j] == right@[j],
        decreases left@.len() - i,
    {
        if left[i] != right[i] {
            return false;
        }
        i += 1;
    }
    proof {
        assert(left@ =~= right@);
    }
    true
}

/// Keeps one archive per source below a root directory.
#[derive(Clone, Debug)]
pub struct StaticDataWorker {
    path: String,
}

impl StaticDataWorker {
    /// The root directory.
    pub closed spec fn root(&self) -> Seq<char> {
        self.path@
    }

    pub fn new(path: String) -> (worker: Self)
        ensures
            worker.root() == path@,
    {
        StaticDataWorker { path }
    }

    /// The folder that holds the archives.
    pub fn folder(&self) -> (path: String)
        ensures
            path@ == static_folder(self.root()),
    {
        let mut path = self.path.clone();
        path.append("/");
        path.append(STATIC_FOLDERNAME);
        path
    }

    /// The file that holds the archive of `source`, whether it exists or not.
    pub fn archive_path(&self, source: GtfsDataSource) -> (path: String)
        ensures
            path@ == zip_path(self.root(), source),
    {
        let mut path = self.folder();
        path.append("/");
        path.append(source.filename());
        path.append(".zip");
        path
    }

    /// The path of the cached archive of `source`, where `exists` says that
    /// a file is there; nothing is fetched.
    pub fn path_for(&self, source: GtfsDataSource, exists: bool) -> (path: Option<String>)
        ensures
            path.is_some() == exists,
            exists ==> path.unwrap()@ == zip_path(self.root(), source),
    {
        if exists {
            Some(self.archive_path(source))
        } else {
            None
        }
    }

    /// Compares a download to what reading the cached archive brought.
    pub fn compare_content(
        &self,
        bytes: &Vec<u8>,
        source: GtfsDataSource,
        existing: &Existing,
    ) -> (result: Result<DataComparison, UpdateError>)
        ensures
            result == match comparison(bytes@, existing@) {
                Some(outcome) => Ok::<DataComparison, UpdateError>(outcome),
                None => Err(UpdateError { source, stage: Stage::Comparing }),
            },
    {
        match existing {
            Existing::Found(cached) => {
                if same_bytes(cached, bytes) {
                    Ok(DataComparison::Same)
                } else {
                    Ok(DataComparison::Different)
                }
            },
            Existing::NotFound => Ok(DataComparison::Different),
            Existing::Failed => Err(UpdateError { source, stage: Stage::Comparing }),
        }
    }

    /// Whether the archive folder has to be created, from what its metadata
    /// brought.
    pub fn create_internal_dir(&self, source: GtfsDataSource, probe: Probe) -> (result: Result<
        bool,
        UpdateError,
    >)
        ensures
            result == match probe {
                Probe::Exists => Ok::<bool, UpdateError>(false),
                Probe::NotFound => Ok(true),
                Probe::Failed => Err(UpdateError { source, stage: Stage::Saving }),
            },
    {
        match probe {
            Probe::Exists => Ok(false),
            Probe::NotFound => Ok(true),
            Probe::Failed => Err(UpdateError { source, stage: Stage::Saving }),
        }
    }

    /// The action that writes the archive, once the folder is there.
    pub fn save_zip(&self, bytes: Vec<u8>, source: GtfsDataSource) -> (next: (
        UpdateState,
        UpdateAction,
    ))
        ensures
            next.0@ == UpdateStateView::Writing,
            next.1@ == UpdateActionView::WriteArchive(zip_path(self.root(), source), bytes@),
    {
        let path = self.archive_path(source);
        (UpdateState::Writing, UpdateAction::WriteArchive { path, bytes })
    }

    /// One step of the update of `source`: the answer to `event` in `state`.
    pub fn update_source(
        &self,
        source: GtfsDataSource,
        state: UpdateState,
        event: UpdateEvent,
    ) -> (next: (UpdateState, UpdateAction))
        ensures
            (next.0@, next.1@) == update_step(self.root(), source, state@, event@),
    {
        let out_of_turn = UpdateError { source, stage: Stage::OutOfTurn };
        match state {
            UpdateState::Start => match event {
                UpdateEvent::Begin => (
                    UpdateState::Fetching,
                    UpdateAction::Fetch { url: source.url() },
                ),
                _ => (UpdateState::Finished, UpdateAction::Fail(out_of_turn)),
            },
            UpdateState::Fetching => match event {
                UpdateEvent::Fetched(Some(bytes)) => (
                    UpdateState::Comparing { bytes },
                    UpdateAction::ReadArchive { path: self.archive_path(source) },
                ),
                UpdateEvent::Fetched(None) => (
                    UpdateState::Finished,
                    UpdateAction::Fail(UpdateError { source, stage: Stage::Fetching }),
                ),
                _ => (UpdateState::Finished, UpdateAction::Fail(out_of_turn)),
            },
            UpdateState::Comparing { bytes } => match event {
                UpdateEvent::Read(existing) => match self.compare_content(
                    &bytes,
                    source,
                    &existing,
                ) {
                    Ok(DataComparison::Same) => (UpdateState::Finished, UpdateAction::Succeed),
                    Ok(DataComparison::Different) => (
                        UpdateState::CheckingFolder { bytes },
                        UpdateAction::ProbeFolder { path: self.folder() },
                    ),
                    Err(error) => (UpdateState::Finished, UpdateAction::Fail(error)),
                },
                _ => (UpdateState::Finished, UpdateAction::Fail(out_of_turn)),
            },
            UpdateState::CheckingFolder { bytes } => match event {
                UpdateEvent::Probed(probe) => match self.create_internal_dir(source, probe) {
                    Ok(false) => self.save_zip(bytes, source),
                    Ok(true) => (
                        UpdateState::CreatingFolder { bytes },
                        UpdateAction::CreateFolder { path: self.folder() },
                    ),
                    Err(error) => (UpdateState::Finished, UpdateAction::Fail(error)),
                },
                _ => (UpdateState::Finished, UpdateAction::Fail(out_of_turn)),
            },
            UpdateState::CreatingFolder { bytes } => match event {
                UpdateEvent::FolderCreated(Creation::Created) => self.save_zip(bytes, source),
                UpdateEvent::FolderCreated(Creation::AlreadyExists) => self.save_zip(
                    bytes,
                    source,
                ),
                UpdateEvent::FolderCreated(Creation::Failed) => (
                    UpdateState::Finished,
                    UpdateAction::Fail(UpdateError { source, stage: Stage::Saving }),
                ),
                _ => (UpdateState::Finished, UpdateAction::Fail(out_of_turn)),
            },
            UpdateState::Writing => match event {
                UpdateEvent::Written(true) => (UpdateState::Finished, UpdateAction::Succeed),
                UpdateEvent::Written(false) => (
                    UpdateState::Finished,
                    UpdateAction::Fail(UpdateError { source, stage: Stage::Saving }),
                ),
                _ => (UpdateState::Finished, UpdateAction::Fail(out_of_turn)),
            },
            UpdateState::Finished => (UpdateState::Finished, UpdateAction::Fail(out_of_turn)),
        }
    }

    /// The next step of a pass over all sources in the order of the registry:
    /// `completed` sources were updated, and the latest update ended in
    /// `outcome` (`Ok` before the first). The first failure ends the pass.
    pub fn update_all(&self, completed: usize, outcome: Result<(), UpdateError>) -> (step:
        PassStep)
        ensures
            step == pass_step(completed as nat, outcome),
    {
        match outcome {
            Err(error) => PassStep::Abort(error),
            Ok(_) => {
                let sources = GtfsDataSource::all();
                if completed < sources.len() {
                    PassStep::Update(sources[completed])
                } else {
                    PassStep::Done
                }
            },
        }
    }
}

} // verus!
