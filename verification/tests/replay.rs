use gitcache::model::{CacheType, CopyJob, RestoreData};
use gitcache::replay::{
    is_selected, replay_report, restore, restore_data, restore_file, restore_folder, restore_job,
    ManifestLoad, ReplayReport, RestoreAction, RestoreError, RestoreEvent, RestoreFailure,
    RestoreRunAction, RestoreRunEvent,
};

fn record(name: &str, kind: CacheType, restore_to: &str) -> RestoreData {
    RestoreData::new(name.to_string(), kind, restore_to.to_string())
}

fn paths(list: &[&str]) -> Vec<String> {
    list.iter().map(|p| p.to_string()).collect()
}

#[test]
fn selection_matches_the_full_path_of_the_kind() {
    let dir = record("src_dir", CacheType::Directory, "/tmp");
    let file = record("config.ini", CacheType::File, "/tmp");
    let folders = paths(&["/tmp/src_dir"]);
    let files = paths(&["/tmp/config.ini"]);
    assert!(is_selected(&dir, &folders, &files));
    assert!(is_selected(&file, &folders, &files));
    assert!(!is_selected(&dir, &files, &folders));
    assert!(!is_selected(&file, &files, &folders));
    assert!(!is_selected(&dir, &Vec::new(), &Vec::new()));
}

#[test]
fn selection_is_letter_for_letter() {
    let dir = record("src_dir", CacheType::Directory, "/tmp");
    assert!(!is_selected(&dir, &paths(&["/tmp/src_dir/"]), &Vec::new()));
    assert!(!is_selected(&dir, &paths(&["/tmp//src_dir"]), &Vec::new()));
    assert!(!is_selected(&dir, &paths(&["tmp/src_dir"]), &Vec::new()));
    assert!(!is_selected(&dir, &paths(&["/tmp/src_dir2", "/tmp/src_di"]), &Vec::new()));
    let below_root = record("etc", CacheType::Directory, "/");
    assert!(!is_selected(&below_root, &paths(&["/etc"]), &Vec::new()));
    assert!(is_selected(&below_root, &paths(&["//etc"]), &Vec::new()));
}

#[test]
fn replay_restores_the_selected_and_skips_the_rest() {
    let a = record("a", CacheType::Directory, "/data");
    let b = record("b.txt", CacheType::File, "/data");
    let manifest = vec![a.clone(), b.clone()];
    let plan = restore_data(&manifest, &paths(&["/data/a"]), &Vec::new());
    assert_eq!(plan.records, vec![a]);
    assert_eq!(plan.skipped, 1);
    let report = replay_report(&plan, &vec![Ok(())]);
    assert_eq!(report, ReplayReport { restored: 1, missed: 0, failed: 0, skipped: 1 });
}

#[test]
fn replay_with_every_path_selected_restores_every_record() {
    let manifest = vec![
        record("src_dir", CacheType::Directory, "/tmp"),
        record("config.ini", CacheType::File, "/tmp"),
        record("tools", CacheType::Directory, "/opt"),
    ];
    let plan = restore_data(
        &manifest,
        &paths(&["/opt/tools", "/tmp/src_dir"]),
        &paths(&["/tmp/config.ini"]),
    );
    assert_eq!(plan.records, manifest);
    assert_eq!(plan.skipped, 0);
}

#[test]
fn replay_keeps_the_order_of_the_manifest() {
    let manifest = vec![
        record("f1", CacheType::File, "/x"),
        record("d1", CacheType::Directory, "/x"),
        record("f2", CacheType::File, "/x"),
        record("d2", CacheType::Directory, "/x"),
    ];
    let plan = restore_data(&manifest, &paths(&["/x/d2", "/x/d1"]), &paths(&["/x/f2"]));
    assert_eq!(
        plan.records,
        vec![
            record("d1", CacheType::Directory, "/x"),
            record("f2", CacheType::File, "/x"),
            record("d2", CacheType::Directory, "/x"),
        ]
    );
    assert_eq!(plan.skipped, 1);
}

#[test]
fn replay_of_an_empty_manifest_is_an_empty_plan() {
    let plan = restore_data(&Vec::new(), &paths(&["/x"]), &paths(&["/y"]));
    assert!(plan.records.is_empty());
    assert_eq!(plan.skipped, 0);
    assert_eq!(
        replay_report(&plan, &Vec::new()),
        ReplayReport { restored: 0, missed: 0, failed: 0, skipped: 0 }
    );
}

#[test]
fn replay_with_nothing_selected_skips_all() {
    let manifest =
        vec![record("a", CacheType::Directory, "/d"), record("b", CacheType::File, "/d")];
    let plan = restore_data(&manifest, &paths(&["/other"]), &Vec::new());
    assert!(plan.records.is_empty());
    assert_eq!(plan.skipped, 2);
}

#[test]
fn directory_path_among_the_files_selects_nothing() {
    let manifest = vec![record("a", CacheType::Directory, "/d")];
    let plan = restore_data(&manifest, &Vec::new(), &paths(&["/d/a"]));
    assert!(plan.records.is_empty());
    assert_eq!(plan.skipped, 1);
}

#[test]
fn report_counts_failures_without_failing() {
    let manifest = vec![
        record("a", CacheType::Directory, "/d"),
        record("b", CacheType::File, "/d"),
        record("c", CacheType::File, "/d"),
        record("e", CacheType::File, "/d"),
    ];
    let plan = restore_data(&manifest, &paths(&["/d/a"]), &paths(&["/d/b", "/d/c"]));
    let outcomes =
        vec![Err(RestoreError::MissingDestination), Ok(()), Err(RestoreError::CopyFailed)];
    assert_eq!(
        replay_report(&plan, &outcomes),
        ReplayReport { restored: 1, missed: 1, failed: 1, skipped: 1 }
    );
    let outcomes = vec![
        Err(RestoreError::KindMismatch),
        Err(RestoreError::MissingDestination),
        Err(RestoreError::MissingDestination),
    ];
    assert_eq!(
        replay_report(&plan, &outcomes),
        ReplayReport { restored: 0, missed: 2, failed: 1, skipped: 1 }
    );
}

#[test]
fn restore_copy_of_a_record() {
    assert_eq!(
        restore_job(&record("src_dir", CacheType::Directory, "/tmp")),
        CopyJob {
            kind: CacheType::Directory,
            from: ".cache/src_dir".to_string(),
            to: "/tmp/src_dir".to_string(),
            keep_permissions: true,
        }
    );
    assert_eq!(
        restore_job(&record("config.ini", CacheType::File, "/etc/app")),
        CopyJob {
            kind: CacheType::File,
            from: ".cache/config.ini".to_string(),
            to: "/etc/app/config.ini".to_string(),
            keep_permissions: true,
        }
    );
}

#[test]
fn restoring_a_directory_step_by_step() {
    let dir = record("a", CacheType::Directory, "/d");
    assert_eq!(restore_folder(&dir, RestoreEvent::Begin), RestoreAction::Probe);
    assert_eq!(restore_folder(&dir, RestoreEvent::Probed(true)), RestoreAction::Copy);
    assert_eq!(restore_folder(&dir, RestoreEvent::Copied(true)), RestoreAction::Done);
}

#[test]
fn restoring_a_file_step_by_step() {
    let file = record("a", CacheType::File, "/d");
    assert_eq!(restore_file(&file, RestoreEvent::Begin), RestoreAction::Probe);
    assert_eq!(restore_file(&file, RestoreEvent::Probed(true)), RestoreAction::Copy);
    assert_eq!(restore_file(&file, RestoreEvent::Copied(true)), RestoreAction::Done);
}

#[test]
fn restoring_as_the_other_kind_is_refused_and_never_attempted() {
    let dir = record("a", CacheType::Directory, "/d");
    let file = record("a", CacheType::File, "/d");
    assert_eq!(
        restore_file(&dir, RestoreEvent::Begin),
        RestoreAction::Fail(RestoreError::KindMismatch)
    );
    assert_eq!(
        restore_folder(&file, RestoreEvent::Begin),
        RestoreAction::Fail(RestoreError::KindMismatch)
    );
}

#[test]
fn missing_destination_is_a_miss_of_that_record() {
    let dir = record("a", CacheType::Directory, "C:\\data");
    assert_eq!(
        restore_folder(&dir, RestoreEvent::Probed(false)),
        RestoreAction::Fail(RestoreError::MissingDestination)
    );
    let file = record("a", CacheType::File, "C:\\data");
    assert_eq!(
        restore_file(&file, RestoreEvent::Probed(false)),
        RestoreAction::Fail(RestoreError::MissingDestination)
    );
}

#[test]
fn failed_copy_is_a_failure_of_that_record() {
    let dir = record("a", CacheType::Directory, "/d");
    assert_eq!(
        restore_folder(&dir, RestoreEvent::Copied(false)),
        RestoreAction::Fail(RestoreError::CopyFailed)
    );
    let file = record("a", CacheType::File, "/d");
    assert_eq!(
        restore_file(&file, RestoreEvent::Copied(false)),
        RestoreAction::Fail(RestoreError::CopyFailed)
    );
}

fn begin(staging: bool, manifest: bool, folders: usize, files: usize) -> RestoreRunEvent {
    RestoreRunEvent::Begin {
        staging_exists: staging,
        manifest_exists: manifest,
        folders,
        files,
    }
}

#[test]
fn restore_run_in_order() {
    assert_eq!(restore(begin(true, true, 1, 0)), RestoreRunAction::Load);
    assert_eq!(restore(begin(true, true, 0, 3)), RestoreRunAction::Load);
    assert_eq!(
        restore(RestoreRunEvent::Loaded(ManifestLoad::Parsed { records: 2 })),
        RestoreRunAction::Replay { warn_empty: false }
    );
    assert_eq!(restore(RestoreRunEvent::Replayed), RestoreRunAction::RemoveStaging);
    assert_eq!(restore(RestoreRunEvent::Removed(true)), RestoreRunAction::Done);
}

#[test]
fn empty_manifest_is_a_warning_and_no_failure() {
    assert_eq!(
        restore(RestoreRunEvent::Loaded(ManifestLoad::Parsed { records: 0 })),
        RestoreRunAction::Replay { warn_empty: true }
    );
}

#[test]
fn restore_run_hard_failures_in_their_order() {
    assert_eq!(
        restore(begin(false, false, 0, 0)),
        RestoreRunAction::Fail(RestoreFailure::StagingMissing)
    );
    assert_eq!(
        restore(begin(false, true, 1, 1)),
        RestoreRunAction::Fail(RestoreFailure::StagingMissing)
    );
    assert_eq!(
        restore(begin(true, false, 0, 0)),
        RestoreRunAction::Fail(RestoreFailure::ManifestMissing)
    );
    assert_eq!(
        restore(begin(true, true, 0, 0)),
        RestoreRunAction::Fail(RestoreFailure::NothingSelected)
    );
    assert_eq!(
        restore(RestoreRunEvent::Loaded(ManifestLoad::NotOpened)),
        RestoreRunAction::Fail(RestoreFailure::ManifestUnopenable)
    );
    assert_eq!(
        restore(RestoreRunEvent::Loaded(ManifestLoad::NotRead)),
        RestoreRunAction::Fail(RestoreFailure::ManifestUnreadable)
    );
    assert_eq!(
        restore(RestoreRunEvent::Loaded(ManifestLoad::Malformed)),
        RestoreRunAction::Fail(RestoreFailure::ManifestMalformed)
    );
    assert_eq!(
        restore(RestoreRunEvent::Removed(false)),
        RestoreRunAction::Fail(RestoreFailure::StagingNotRemoved)
    );
}

#[test]
fn restore_failure_codes() {
    assert_eq!(RestoreFailure::StagingMissing.exit_code(), 51);
    assert_eq!(RestoreFailure::ManifestMissing.exit_code(), 52);
    assert_eq!(RestoreFailure::NothingSelected.exit_code(), 21);
    assert_eq!(RestoreFailure::ManifestUnopenable.exit_code(), 53);
    assert_eq!(RestoreFailure::ManifestUnreadable.exit_code(), 54);
    assert_eq!(RestoreFailure::ManifestMalformed.exit_code(), 55);
    assert_eq!(RestoreFailure::StagingNotRemoved.exit_code(), 57);
}
