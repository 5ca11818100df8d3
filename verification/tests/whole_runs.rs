use gitcache::archive::{zip_dir_recursively, PackAction, PackError, PackEvent};
use gitcache::download::{download_files_from_webdav, DownloadAction, DownloadError, DownloadEvent};
use gitcache::model::OsType;
use gitcache::remote::{
    create_webdav_paths, CollectionError, RemoteStore, SetupAction, SetupError, SetupEvent,
};
use gitcache::snapshot::{cpy_files_to_cache_dir, StagingAction, StagingError, StagingEvent};

/// What the disk and the server answer during a fetch.
struct FetchAnswers {
    staging_exists: bool,
    staging_created: bool,
    reply: Option<u16>,
    file_created: bool,
    body_read: bool,
    written: bool,
}

fn all_well() -> FetchAnswers {
    FetchAnswers {
        staging_exists: false,
        staging_created: true,
        reply: Some(200),
        file_created: true,
        body_read: true,
        written: true,
    }
}

/// Plays a fetch to its end; returns the end and the actions carried out.
fn fetch(world: &FetchAnswers) -> (DownloadAction, Vec<DownloadAction>) {
    let mut done = Vec::new();
    let mut event = DownloadEvent::Begin { staging_exists: world.staging_exists };
    loop {
        let action = download_files_from_webdav(event);
        event = match action {
            DownloadAction::CreateStaging => DownloadEvent::StagingCreated(world.staging_created),
            DownloadAction::Fetch => DownloadEvent::Replied(world.reply),
            DownloadAction::CreateFile => DownloadEvent::FileCreated(world.file_created),
            DownloadAction::ReadBody => DownloadEvent::BodyRead(world.body_read),
            DownloadAction::WriteFile => DownloadEvent::Written(world.written),
            DownloadAction::Done | DownloadAction::Fail(_) => return (action, done),
        };
        done.push(action);
    }
}

#[test]
fn fetch_in_which_every_step_works() {
    let (end, done) = fetch(&all_well());
    assert_eq!(end, DownloadAction::Done);
    assert_eq!(
        done,
        vec![
            DownloadAction::CreateStaging,
            DownloadAction::Fetch,
            DownloadAction::CreateFile,
            DownloadAction::ReadBody,
            DownloadAction::WriteFile,
        ]
    );
}

#[test]
fn fetch_with_staging_in_the_way_does_nothing() {
    let (end, done) = fetch(&FetchAnswers { staging_exists: true, ..all_well() });
    assert_eq!(end, DownloadAction::Fail(DownloadError::StagingExists));
    assert!(done.is_empty());
}

#[test]
fn fetch_stops_at_the_first_step_that_fails() {
    let (end, done) = fetch(&FetchAnswers { reply: Some(404), written: false, ..all_well() });
    assert_eq!(end, DownloadAction::Fail(DownloadError::NotFound));
    assert_eq!(done, vec![DownloadAction::CreateStaging, DownloadAction::Fetch]);

    let (end, done) = fetch(&FetchAnswers { staging_created: false, reply: None, ..all_well() });
    assert_eq!(end, DownloadAction::Fail(DownloadError::StagingNotCreated));
    assert_eq!(done, vec![DownloadAction::CreateStaging]);

    let (end, done) = fetch(&FetchAnswers { body_read: false, ..all_well() });
    assert_eq!(end, DownloadAction::Fail(DownloadError::BodyUnreadable));
    assert_eq!(done.len(), 4);
}

/// Plays a packing to its end; returns the end and whether an archive file
/// is left.
fn pack(source_is_dir: bool, created: bool, walked: bool, written: bool) -> (PackAction, bool) {
    let mut archive = false;
    let mut event = PackEvent::Begin { source_is_dir };
    loop {
        let action = zip_dir_recursively(event);
        event = match action {
            PackAction::CreateArchive => {
                archive = created;
                PackEvent::Created(created)
            }
            PackAction::Walk => PackEvent::Walked(walked),
            PackAction::WriteEntries => PackEvent::Written(written),
            PackAction::Discard => {
                archive = false;
                PackEvent::Discarded
            }
            PackAction::Done | PackAction::Fail(_) => return (action, archive),
        };
    }
}

#[test]
fn packing_leaves_a_complete_archive_or_none() {
    assert_eq!(pack(true, true, true, true), (PackAction::Done, true));
    assert_eq!(pack(false, true, true, true), (PackAction::Fail(PackError::SourceNotFound), false));
    assert_eq!(pack(true, false, true, true), (PackAction::Fail(PackError::PackFailed), false));
    assert_eq!(pack(true, true, false, true), (PackAction::Fail(PackError::PackFailed), false));
    assert_eq!(pack(true, true, true, false), (PackAction::Fail(PackError::PackFailed), false));
}

/// Plays a staging to its end; returns the end and the actions carried out.
fn stage(exists: bool, created: bool, manifest_written: bool) -> (StagingAction, Vec<StagingAction>) {
    let mut done = Vec::new();
    let mut event = StagingEvent::Begin { staging_exists: exists };
    loop {
        let action = cpy_files_to_cache_dir(event);
        event = match action {
            StagingAction::CreateStaging => StagingEvent::Created(created),
            StagingAction::WriteManifest => StagingEvent::ManifestWritten(manifest_written),
            StagingAction::CopyRecords => StagingEvent::Copied,
            StagingAction::Done | StagingAction::Fail(_) => return (action, done),
        };
        done.push(action);
    }
}

#[test]
fn staging_with_a_directory_in_the_way_touches_nothing() {
    let (end, done) = stage(true, true, true);
    assert_eq!(end, StagingAction::Fail(StagingError::AlreadyExists));
    assert!(done.is_empty());
}

#[test]
fn staging_copies_only_after_directory_and_manifest() {
    assert_eq!(
        stage(false, true, true),
        (
            StagingAction::Done,
            vec![
                StagingAction::CreateStaging,
                StagingAction::WriteManifest,
                StagingAction::CopyRecords,
            ]
        )
    );
    assert_eq!(
        stage(false, false, true),
        (StagingAction::Fail(StagingError::NotCreated), vec![StagingAction::CreateStaging])
    );
    assert_eq!(
        stage(false, true, false),
        (
            StagingAction::Fail(StagingError::ManifestNotWritten),
            vec![StagingAction::CreateStaging, StagingAction::WriteManifest]
        )
    );
}

/// Plays a setup to its end.
fn set_up(
    listed: Option<u16>,
    listing: Option<&str>,
    base_made: Option<u16>,
    project_made: Option<u16>,
) -> (SetupAction, usize) {
    let env = vec![
        ("WEBDAVUSER".to_string(), "ci".to_string()),
        ("WEBDAVPASS".to_string(), "secret".to_string()),
        ("WEBDAVADDR".to_string(), "https://dav.example.com".to_string()),
        ("CI_PROJECT_ID".to_string(), "42".to_string()),
        ("CI_COMMIT_BRANCH".to_string(), "main".to_string()),
    ];
    let store = RemoteStore::from_environment(&env, OsType::Unix).unwrap();
    let mut actions = 0;
    let mut event = SetupEvent::Begin;
    loop {
        let action = create_webdav_paths(&store, &event);
        event = match action {
            SetupAction::ListBase => SetupEvent::Listed(listed),
            SetupAction::ReadListing => SetupEvent::ListingRead(listing.map(|t| t.to_string())),
            SetupAction::MakeBase => SetupEvent::BaseMade(base_made),
            SetupAction::MakeProject => SetupEvent::ProjectMade(project_made),
            SetupAction::Done | SetupAction::Fail(_) => return (action, actions),
        };
        actions += 1;
    }
}

#[test]
fn setup_ends_well_when_the_project_collection_stands() {
    let shown = Some("<a href=\"42/\">42</a>");
    let not_shown = Some("<a href=\"7/\">7</a>");
    assert_eq!(set_up(Some(200), shown, None, None), (SetupAction::Done, 2));
    assert_eq!(set_up(Some(302), not_shown, None, Some(201)), (SetupAction::Done, 3));
    assert_eq!(set_up(Some(404), None, Some(201), Some(201)), (SetupAction::Done, 3));
}

#[test]
fn setup_ends_badly_otherwise() {
    let not_shown = Some("<a href=\"7/\">7</a>");
    assert_eq!(set_up(None, not_shown, Some(201), Some(201)).0, SetupAction::Fail(SetupError::ListingFailed));
    assert_eq!(
        set_up(Some(200), None, Some(201), Some(201)).0,
        SetupAction::Fail(SetupError::ListingUnreadable)
    );
    assert_eq!(
        set_up(Some(200), not_shown, Some(201), Some(403)).0,
        SetupAction::Fail(SetupError::Project(CollectionError::Forbidden))
    );
    assert_eq!(
        set_up(Some(500), not_shown, Some(409), Some(201)).0,
        SetupAction::Fail(SetupError::Base(CollectionError::Conflict))
    );
    assert_eq!(
        set_up(Some(500), not_shown, Some(201), None).0,
        SetupAction::Fail(SetupError::Project(CollectionError::NoResponse))
    );
}
