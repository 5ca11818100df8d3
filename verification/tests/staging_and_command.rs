use gitcache::command::{
    dispatch, exit_for, Exit, Failure, Invocation, Selection, StartError, Task,
};
use gitcache::download::{DownloadError, DownloadFailure};
use gitcache::environment::{ConfigError, Setting};
use gitcache::model::OsType;
use gitcache::remote::RemoteDeleteError;
use gitcache::replay::RestoreFailure;
use gitcache::snapshot::{BackupFailure, StagingError};
use gitcache::staging::{
    del_restore_dir, DeleteAction, DeleteError, DeleteEvent, MANIFEST_PATH, PACK_SOURCE,
    STAGING_DIRECTORY,
};

fn args(list: &[&str]) -> Vec<String> {
    list.iter().map(|a| a.to_string()).collect()
}

fn run(download: bool, task: Option<Task>) -> Selection {
    Selection::Run { download, task }
}

/// Plays a whole removal against a directory that is there or not, and
/// reports how it ended and whether the directory is there afterwards.
fn remove(present: bool, removable: bool) -> (Result<(), DeleteError>, bool) {
    let mut left = present;
    let mut event = DeleteEvent::Begin { staging_exists: present };
    loop {
        match del_restore_dir(event) {
            DeleteAction::Remove => {
                if removable {
                    left = false;
                }
                event = DeleteEvent::Removed(removable);
            }
            DeleteAction::Done => return (Ok(()), left),
            DeleteAction::Fail(e) => return (Err(e), left),
        }
    }
}

#[test]
fn staging_layout() {
    assert_eq!(STAGING_DIRECTORY, ".cache");
    assert_eq!(PACK_SOURCE, ".cache/");
    assert_eq!(MANIFEST_PATH, ".cache/data.json");
}

#[test]
fn removal_step_by_step() {
    assert_eq!(del_restore_dir(DeleteEvent::Begin { staging_exists: true }), DeleteAction::Remove);
    assert_eq!(del_restore_dir(DeleteEvent::Removed(true)), DeleteAction::Done);
    assert_eq!(
        del_restore_dir(DeleteEvent::Begin { staging_exists: false }),
        DeleteAction::Fail(DeleteError::NotFound)
    );
    assert_eq!(
        del_restore_dir(DeleteEvent::Removed(false)),
        DeleteAction::Fail(DeleteError::NotRemoved)
    );
}

#[test]
fn removing_twice_reports_not_found_the_second_time() {
    let (first, left) = remove(true, true);
    assert_eq!(first, Ok(()));
    assert!(!left);
    let (second, left) = remove(left, true);
    assert_eq!(second, Err(DeleteError::NotFound));
    assert!(!left);
}

#[test]
fn removal_that_fails_leaves_the_directory() {
    assert_eq!(remove(true, false), (Err(DeleteError::NotRemoved), true));
    assert_eq!(remove(false, false), (Err(DeleteError::NotFound), false));
}

#[test]
fn unsupported_system_runs_nothing() {
    assert_eq!(
        dispatch(OsType::Unknown, &args(&["tool", "/backup"])),
        Err(StartError::UnsupportedSystem)
    );
    assert_eq!(dispatch(OsType::Unknown, &Vec::new()), Err(StartError::UnsupportedSystem));
}

#[test]
fn no_arguments_run_nothing() {
    assert_eq!(dispatch(OsType::Unix, &Vec::new()), Err(StartError::NoArguments));
}

#[test]
fn single_flags() {
    let cases = vec![
        ("/backup", run(false, Some(Task::Backup))),
        ("/restore", run(false, Some(Task::Restore))),
        ("/rmlocalcache", run(false, Some(Task::RemoveLocalCache))),
        ("/rmremcache", run(false, Some(Task::RemoveRemoteCache))),
        ("/download", run(true, None)),
    ];
    for (flag, selection) in cases {
        assert_eq!(
            dispatch(OsType::Unix, &args(&["tool", flag])),
            Ok(Invocation { help: false, selection })
        );
    }
}

#[test]
fn help_goes_first_and_the_other_flags_still_count() {
    assert_eq!(
        dispatch(OsType::Windows, &args(&["tool", "/help"])),
        Ok(Invocation { help: true, selection: run(false, None) })
    );
    assert_eq!(
        dispatch(OsType::Windows, &args(&["tool", "/restore", "/help"])),
        Ok(Invocation { help: true, selection: run(false, Some(Task::Restore)) })
    );
}

#[test]
fn backup_excludes_download_and_restore() {
    assert_eq!(
        dispatch(OsType::Unix, &args(&["tool", "/backup", "/download"])),
        Ok(Invocation { help: false, selection: Selection::Conflict })
    );
    assert_eq!(
        dispatch(OsType::Unix, &args(&["tool", "/restore", "/backup"])),
        Ok(Invocation { help: false, selection: Selection::Conflict })
    );
    assert_eq!(
        dispatch(OsType::Unix, &args(&["/help", "/backup", "/download", "/restore"])),
        Ok(Invocation { help: true, selection: Selection::Conflict })
    );
}

#[test]
fn download_runs_before_the_task() {
    assert_eq!(
        dispatch(OsType::Unix, &args(&["tool", "/restore", "/download"])),
        Ok(Invocation { help: false, selection: run(true, Some(Task::Restore)) })
    );
}

#[test]
fn first_task_in_the_fixed_order_wins() {
    assert_eq!(
        dispatch(OsType::Unix, &args(&["tool", "/restore", "/rmremcache", "/rmlocalcache"])),
        Ok(Invocation { help: false, selection: run(false, Some(Task::RemoveLocalCache)) })
    );
    assert_eq!(
        dispatch(OsType::Unix, &args(&["tool", "/backup", "/rmremcache"])),
        Ok(Invocation { help: false, selection: run(false, Some(Task::RemoveRemoteCache)) })
    );
}

#[test]
fn unknown_flags_select_nothing_and_ask_for_a_hint() {
    let got = dispatch(OsType::Unix, &args(&["tool", "backup", "/Backup", "/backup "])).unwrap();
    assert_eq!(got, Invocation { help: false, selection: run(false, None) });
    assert!(got.needs_hint());
    assert!(dispatch(OsType::Unix, &args(&["tool"])).unwrap().needs_hint());
}

#[test]
fn known_flags_need_no_hint() {
    for flag in ["/help", "/download", "/backup", "/restore", "/rmlocalcache", "/rmremcache"] {
        assert!(!dispatch(OsType::Unix, &args(&["tool", flag])).unwrap().needs_hint());
    }
    assert!(!dispatch(OsType::Unix, &args(&["/backup", "/download"])).unwrap().needs_hint());
}

#[test]
fn exits_without_cleanup() {
    let cases = vec![
        (Failure::Start(StartError::UnsupportedSystem), 1),
        (Failure::Start(StartError::NoArguments), 2),
        (Failure::Conflict, 2),
        (Failure::Config(ConfigError::UnsupportedSystem), 1),
        (Failure::Config(ConfigError::Missing(Setting::WebdavUser)), 2),
        (Failure::RemoveLocalCache(DeleteError::NotFound), 5),
        (Failure::RemoveLocalCache(DeleteError::NotRemoved), 5),
        (Failure::RemoveRemoteCache(RemoteDeleteError::StagingMissing), 4),
        (Failure::RemoveRemoteCache(RemoteDeleteError::RequestFailed), 4),
    ];
    for (failure, code) in cases {
        assert_eq!(exit_for(failure), Exit { remove_staging: false, code });
    }
}

#[test]
fn staging_in_the_way_is_left_alone_on_exit() {
    assert_eq!(
        exit_for(Failure::Backup(BackupFailure::NotStaged(StagingError::AlreadyExists))),
        Exit { remove_staging: false, code: 16 }
    );
    assert_eq!(
        exit_for(Failure::Download(DownloadFailure::Fetch(DownloadError::StagingExists))),
        Exit { remove_staging: false, code: 22 }
    );
}

#[test]
fn exits_that_remove_staging_first() {
    let cases = vec![
        (Failure::Download(DownloadFailure::Fetch(DownloadError::NotFound)), 0),
        (Failure::Download(DownloadFailure::Fetch(DownloadError::Forbidden)), 22),
        (Failure::Download(DownloadFailure::Unpack), 23),
        (Failure::Backup(BackupFailure::NoSources), 13),
        (Failure::Backup(BackupFailure::NotUploaded), 18),
        (Failure::Backup(BackupFailure::NotStaged(StagingError::NotCreated)), 16),
        (Failure::Backup(BackupFailure::NotStaged(StagingError::ManifestNotWritten)), 16),
        (Failure::Restore(RestoreFailure::StagingMissing), 51),
        (Failure::Restore(RestoreFailure::NothingSelected), 21),
        (Failure::Restore(RestoreFailure::StagingNotRemoved), 57),
    ];
    for (failure, code) in cases {
        assert_eq!(exit_for(failure), Exit { remove_staging: true, code });
    }
}
