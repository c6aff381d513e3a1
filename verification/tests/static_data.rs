use omny::static_data::worker::{
    Creation, DataComparison, ErrorKind, Existing, PassStep, Probe, Stage, UpdateAction,
    UpdateError, UpdateEvent, UpdateState, STATIC_FOLDERNAME,
};
use omny::static_data::{GtfsDataSource, StaticDataWorker};

/// A disk and a remote in memory, to play the caller's part of an update.
struct World {
    remote: Option<Vec<u8>>,
    folder: bool,
    archive: Option<Vec<u8>>,
    writes: usize,
    written_to: Vec<String>,
}

fn run_update(worker: &StaticDataWorker, source: GtfsDataSource, world: &mut World) -> Result<(), UpdateError> {
    let mut state = UpdateState::Start;
    let mut event = UpdateEvent::Begin;
    for _ in 0..10 {
        let (next, action) = worker.update_source(source, state, event);
        state = next;
        event = match action {
            UpdateAction::Fetch { url } => {
                assert_eq!(url, source.url());
                UpdateEvent::Fetched(world.remote.clone())
            }
            UpdateAction::ReadArchive { path } => {
                assert_eq!(path, worker.archive_path(source));
                UpdateEvent::Read(match &world.archive {
                    Some(bytes) => Existing::Found(bytes.clone()),
                    None => Existing::NotFound,
                })
            }
            UpdateAction::ProbeFolder { path } => {
                assert_eq!(path, worker.folder());
                UpdateEvent::Probed(if world.folder { Probe::Exists } else { Probe::NotFound })
            }
            UpdateAction::CreateFolder { path } => {
                assert_eq!(path, worker.folder());
                world.folder = true;
                UpdateEvent::FolderCreated(Creation::Created)
            }
            UpdateAction::WriteArchive { path, bytes } => {
                world.archive = Some(bytes);
                world.writes += 1;
                world.written_to.push(path);
                UpdateEvent::Written(true)
            }
            UpdateAction::Succeed => return Ok(()),
            UpdateAction::Fail(error) => return Err(error),
        };
    }
    panic!("the update did not end");
}

fn worker() -> StaticDataWorker {
    StaticDataWorker::new("/var/lib/omny".to_string())
}

#[test]
fn registry_lists_ten_sources_in_order() {
    let all = GtfsDataSource::all();
    assert_eq!(all.len(), 10);
    assert_eq!(all[0], GtfsDataSource::MtaBronxBus);
    assert_eq!(all[5], GtfsDataSource::MtaSubway);
    assert_eq!(all[6], GtfsDataSource::Path);
    assert_eq!(all[9], GtfsDataSource::NjTransitRail);
    for (i, a) in all.iter().enumerate() {
        for (j, b) in all.iter().enumerate() {
            if i != j {
                assert_ne!(a, b);
                assert_ne!(a.filename(), b.filename());
                assert_ne!(a.url(), b.url());
            }
        }
    }
}

#[test]
fn sources_have_fixed_urls_and_filenames() {
    assert_eq!(GtfsDataSource::MtaSubway.url(), "https://transitfeeds.com/p/mta/79/latest/download");
    assert_eq!(
        GtfsDataSource::Path.url(),
        "https://transitfeeds.com/p/port-authority-of-new-york-and-new-jersey/384/latest/download"
    );
    assert_eq!(GtfsDataSource::NjTransitRail.url(), "https://transitfeeds.com/p/nj-transit/408/latest/download");
    assert_eq!(GtfsDataSource::MtaBronxBus.filename(), "mta_bronx_bus");
    assert_eq!(GtfsDataSource::MtaStatenIslandBus.filename(), "mta_staten_island_bus");
    assert_eq!(GtfsDataSource::Path.filename(), "path");
    assert_eq!(GtfsDataSource::MtaMetroNorth.filename(), "mta_metro_north");
}

#[test]
fn archive_path_is_root_folder_key_zip() {
    assert_eq!(STATIC_FOLDERNAME, "static-files");
    assert_eq!(worker().folder(), "/var/lib/omny/static-files");
    assert_eq!(worker().archive_path(GtfsDataSource::MtaLirr), "/var/lib/omny/static-files/mta_lirr.zip");
}

#[test]
fn path_for_follows_existence() {
    let w = worker();
    assert_eq!(w.path_for(GtfsDataSource::MtaSubway, false), None);
    assert_eq!(
        w.path_for(GtfsDataSource::MtaSubway, true),
        Some("/var/lib/omny/static-files/mta_subway.zip".to_string())
    );
}

#[test]
fn first_update_writes_and_second_does_not() {
    let w = worker();
    let source = GtfsDataSource::MtaSubway;
    let mut world =
        World { remote: Some(vec![80, 75, 3, 4, 9]), folder: false, archive: None, writes: 0, written_to: vec![] };
    assert_eq!(w.path_for(source, world.archive.is_some()), None);
    assert_eq!(run_update(&w, source, &mut world), Ok(()));
    assert_eq!(world.writes, 1);
    assert!(world.folder);
    assert_eq!(world.archive, Some(vec![80, 75, 3, 4, 9]));
    assert_eq!(w.path_for(source, world.archive.is_some()), Some(world.written_to[0].clone()));
    assert_eq!(run_update(&w, source, &mut world), Ok(()));
    assert_eq!(world.writes, 1);
    assert_eq!(world.archive, Some(vec![80, 75, 3, 4, 9]));
}

#[test]
fn changed_remote_overwrites_the_archive() {
    let w = worker();
    let mut world =
        World { remote: Some(vec![1, 2, 3]), folder: true, archive: Some(vec![1, 2]), writes: 0, written_to: vec![] };
    assert_eq!(run_update(&w, GtfsDataSource::Path, &mut world), Ok(()));
    assert_eq!(world.writes, 1);
    assert_eq!(world.archive, Some(vec![1, 2, 3]));
    assert_eq!(world.written_to, vec!["/var/lib/omny/static-files/path.zip".to_string()]);
}

#[test]
fn failed_download_leaves_the_cache_alone() {
    let w = worker();
    let mut world = World { remote: None, folder: true, archive: Some(vec![7]), writes: 0, written_to: vec![] };
    let error = run_update(&w, GtfsDataSource::MtaLirr, &mut world).unwrap_err();
    assert_eq!(error, UpdateError { source: GtfsDataSource::MtaLirr, stage: Stage::Fetching });
    assert_eq!(error.kind(), ErrorKind::Network);
    assert_eq!(world.writes, 0);
    assert_eq!(world.archive, Some(vec![7]));
}

#[test]
fn compare_content_is_byte_for_byte() {
    let w = worker();
    let source = GtfsDataSource::MtaQueensBus;
    let bytes = vec![1u8, 2, 3];
    assert_eq!(w.compare_content(&bytes, source, &Existing::Found(vec![1, 2, 3])), Ok(DataComparison::Same));
    assert_eq!(w.compare_content(&bytes, source, &Existing::Found(vec![1, 2, 4])), Ok(DataComparison::Different));
    assert_eq!(w.compare_content(&bytes, source, &Existing::Found(vec![1, 2])), Ok(DataComparison::Different));
    assert_eq!(w.compare_content(&bytes, source, &Existing::Found(vec![])), Ok(DataComparison::Different));
    assert_eq!(w.compare_content(&vec![], source, &Existing::Found(vec![])), Ok(DataComparison::Same));
    assert_eq!(w.compare_content(&bytes, source, &Existing::NotFound), Ok(DataComparison::Different));
    let error = w.compare_content(&bytes, source, &Existing::Failed).unwrap_err();
    assert_eq!(error, UpdateError { source, stage: Stage::Comparing });
    assert_eq!(error.kind(), ErrorKind::Filesystem);
}

#[test]
fn folder_is_created_only_when_missing() {
    let w = worker();
    let source = GtfsDataSource::MtaBrooklynBus;
    assert_eq!(w.create_internal_dir(source, Probe::Exists), Ok(false));
    assert_eq!(w.create_internal_dir(source, Probe::NotFound), Ok(true));
    let error = w.create_internal_dir(source, Probe::Failed).unwrap_err();
    assert_eq!(error, UpdateError { source, stage: Stage::Saving });
    assert_eq!(error.kind(), ErrorKind::Filesystem);
}

fn fails_with(action: UpdateAction, stage: Stage) -> bool {
    matches!(action, UpdateAction::Fail(error) if error.stage == stage)
}

#[test]
fn file_system_failures_end_the_update() {
    let w = worker();
    let source = GtfsDataSource::MtaManhattanBus;
    let (_, action) =
        w.update_source(source, UpdateState::Comparing { bytes: vec![1] }, UpdateEvent::Read(Existing::Failed));
    assert!(fails_with(action, Stage::Comparing));
    let (_, action) =
        w.update_source(source, UpdateState::CheckingFolder { bytes: vec![1] }, UpdateEvent::Probed(Probe::Failed));
    assert!(fails_with(action, Stage::Saving));
    let (_, action) = w.update_source(
        source,
        UpdateState::CreatingFolder { bytes: vec![1] },
        UpdateEvent::FolderCreated(Creation::Failed),
    );
    assert!(fails_with(action, Stage::Saving));
    let (state, action) = w.update_source(source, UpdateState::Writing, UpdateEvent::Written(false));
    assert!(fails_with(action, Stage::Saving));
    assert!(matches!(state, UpdateState::Finished));
}

#[test]
fn folder_that_appeared_meanwhile_is_no_error() {
    let w = worker();
    let (state, action) = w.update_source(
        GtfsDataSource::Path,
        UpdateState::CreatingFolder { bytes: vec![5, 6] },
        UpdateEvent::FolderCreated(Creation::AlreadyExists),
    );
    assert!(matches!(state, UpdateState::Writing));
    match action {
        UpdateAction::WriteArchive { path, bytes } => {
            assert_eq!(path, "/var/lib/omny/static-files/path.zip");
            assert_eq!(bytes, vec![5, 6]);
        }
        _ => panic!("the archive is written next"),
    }
}

#[test]
fn event_out_of_turn_fails() {
    let w = worker();
    let source = GtfsDataSource::MtaSubway;
    let (_, action) = w.update_source(source, UpdateState::Start, UpdateEvent::Written(true));
    assert!(fails_with(action, Stage::OutOfTurn));
    let (_, action) = w.update_source(source, UpdateState::Finished, UpdateEvent::Begin);
    assert!(fails_with(action, Stage::OutOfTurn));
    assert_eq!(UpdateError { source, stage: Stage::OutOfTurn }.kind(), ErrorKind::Protocol);
}

#[test]
fn pass_visits_the_registry_in_order_and_stops_at_a_failure() {
    let w = worker();
    let all = GtfsDataSource::all();
    for (i, source) in all.iter().enumerate() {
        assert_eq!(w.update_all(i, Ok(())), PassStep::Update(*source));
    }
    assert_eq!(w.update_all(10, Ok(())), PassStep::Done);
    assert_eq!(w.update_all(11, Ok(())), PassStep::Done);
    let error = UpdateError { source: GtfsDataSource::MtaQueensBus, stage: Stage::Fetching };
    assert_eq!(w.update_all(3, Err(error)), PassStep::Abort(error));
}
