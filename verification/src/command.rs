//! The command line: which phases an invocation runs, in which order, and
//! with which exit code the process ends when one of them fails.

use crate::download::{DownloadError, DownloadFailure};
use crate::environment::ConfigError;
use crate::model::OsType;
use crate::remote::RemoteDeleteError;
use crate::replay::RestoreFailure;
use crate::snapshot::{
    backup_action, staging_action, BackupAction, BackupEvent, BackupFailure, StagingAction,
    StagingError, StagingEvent,
};
use crate::staging::DeleteError;
use crate::text::list_contains;
use vstd::prelude::*;

verus! {

/// A phase that ends the process when it is done.
#[derive(Clone, Copy, Debug, PartialEq, Eq, Structural)]
pub enum Task {
    /// Remove the staging directory.
    RemoveLocalCache,
    /// Remove the archive from the server.
    RemoveRemoteCache,
    /// Snapshot the sources and upload the archive.
    Backup,
    /// Replay the manifest in staging, then remove staging.
    Restore,
}

/// What the flags of an invocation select.
#[derive(Clone, Copy, Debug, PartialEq, Eq, Structural)]
pub enum Selection {
    /// A backup was asked for together with a download or a restore.
    Conflict,
    /// Run the download first if `download` is set, then the task if there
    /// is one. Where neither is asked for and no help was shown, a hint on
    /// the usage is due.
    Run { download: bool, task: Option<Task> },
}

/// What an invocation does.
#[derive(Clone, Copy, Debug, PartialEq, Eq, Structural)]
pub struct Invocation {
    /// Print the usage text first.
    pub help: bool,
    /// What follows.
    pub selection: Selection,
}

/// Why an invocation does nothing at all.
#[derive(Clone, Copy, Debug, PartialEq, Eq, Structural)]
pub enum StartError {
    /// The system is neither Windows nor Unix.
    UnsupportedSystem,
    /// There is no argument.
    NoArguments,
}

/// The task that the arguments name: the first, in this order, of removing
/// the local cache, removing the remote cache, backup and restore.
pub open spec fn task_of(args: Seq<Seq<char>>) -> Option<Task> {
    if args.contains("/rmlocalcache"@) {
        Some(Task::RemoveLocalCache)
    } else if args.contains("/rmremcache"@) {
        Some(Task::RemoveRemoteCache)
    } else if args.contains("/backup"@) {
        Some(Task::Backup)
    } else if args.contains("/restore"@) {
        Some(Task::Restore)
    } else {
        None
    }
}

/// A backup may not be combined with a download or a restore.
pub open spec fn conflicting(args: Seq<Seq<char>>) -> bool {
    args.contains("/backup"@) && (args.contains("/download"@) || args.contains("/restore"@))
}

/// What the arguments select.
pub open spec fn selection_of(args: Seq<Seq<char>>) -> Selection {
    if conflicting(args) {
        Selection::Conflict
    } else {
        Selection::Run { download: args.contains("/download"@), task: task_of(args) }
    }
}

/// What an invocation on system `os` with arguments `args` does.
pub open spec fn invocation_of(os: OsType, args: Seq<Seq<char>>) -> Result<
    Invocation,
    StartError,
> {
    if os == OsType::Unknown {
        Err(StartError::UnsupportedSystem)
    } else if args.len() == 0 {
        Err(StartError::NoArguments)
    } else {
        Ok(Invocation { help: args.contains("/help"@), selection: selection_of(args) })
    }
}

impl Invocation {
    /// No flag was recognised, so all that is left to do is to point to the
    /// usage text and to echo the arguments.
    pub open spec fn hint_due(self) -> bool {
        !self.help && self.selection == (Selection::Run { download: false, task: None })
    }

    /// Whether a hint on the usage is due.
    pub fn needs_hint(&self) -> (due: bool)
        ensures
            due == self.hint_due(),
    {
        match self.selection {
            Selection::Run { download: false, task: None } => !self.help,
            _ => false,
        }
    }
}

/// Reads the arguments of an invocation.
pub fn dispatch(os: OsType, args: &Vec<String>) -> (invocation: Result<Invocation, StartError>)
    ensures
        invocation == invocation_of(os, args.deep_view()),
{
    if os == OsType::Unknown {
        return Err(StartError::UnsupportedSystem);
    }
    if args.len() == 0 {
        return Err(StartError::NoArguments);
    }
    let help = list_contains(args, "/help");
    let backup = list_contains(args, "/backup");
    let download = list_contains(args, "/download");
    let restore = list_contains(args, "/restore");
    if backup && (download || restore) {
        return Ok(Invocation { help, selection: Selection::Conflict });
    }
    let task = if list_contains(args, "/rmlocalcache") {
        Some(Task::RemoveLocalCache)
    } else if list_contains(args, "/rmremcache") {
        Some(Task::RemoveRemoteCache)
    } else if backup {
        Some(Task::Backup)
    } else if restore {
        Some(Task::Restore)
    } else {
        None
    };
    Ok(Invocation { help, selection: Selection::Run { download, task } })
}

/// Why the process ends early.
#[derive(Clone, Copy, Debug, PartialEq, Eq, Structural)]
pub enum Failure {
    /// The invocation does nothing at all.
    Start(StartError),
    /// The flags contradict each other.
    Conflict,
    /// A setting is missing.
    Config(ConfigError),
    /// The download failed.
    Download(DownloadFailure),
    /// The staging directory was not removed.
    RemoveLocalCache(DeleteError),
    /// The archive was not removed from the server.
    RemoveRemoteCache(RemoteDeleteError),
    /// The backup failed.
    Backup(BackupFailure),
    /// The restore failed.
    Restore(RestoreFailure),
}

/// How the process ends.
#[derive(Clone, Copy, Debug, PartialEq, Eq, Structural)]
pub struct Exit {
    /// Remove the staging directory first, whether or not that works.
    pub remove_staging: bool,
    /// The exit code.
    pub code: i32,
}

/// A phase gave up because a staging directory was already there. That
/// directory belongs to another run.
pub open spec fn found_staging_in_the_way(failure: Failure) -> bool {
    failure == Failure::Backup(BackupFailure::NotStaged(StagingError::AlreadyExists)) || failure
        == Failure::Download(DownloadFailure::Fetch(DownloadError::StagingExists))
}

/// Whether the staging directory is removed before the process ends on a
/// failure: after a failed download, backup or restore, so that no
/// half-filled staging is left for the next run, but not where the phase
/// found a staging directory in its way and left it alone.
pub open spec fn removes_staging(failure: Failure) -> bool {
    match failure {
        Failure::Download(_) | Failure::Backup(_) | Failure::Restore(_) =>
            !found_staging_in_the_way(failure),
        _ => false,
    }
}

/// The exit code of the process on a failure.
pub open spec fn code_of(failure: Failure) -> int {
    match failure {
        Failure::Start(StartError::UnsupportedSystem) => 1,
        Failure::Start(StartError::NoArguments) => 2,
        Failure::Conflict => 2,
        Failure::Config(e) => e.code(),
        Failure::Download(f) => f.code(),
        Failure::RemoveLocalCache(_) => 5,
        Failure::RemoveRemoteCache(_) => 4,
        Failure::Backup(f) => f.code(),
        Failure::Restore(f) => f.code(),
    }
}

/// How the process ends on a failure.
pub open spec fn exit_of(failure: Failure) -> Exit {
    Exit { remove_staging: removes_staging(failure), code: code_of(failure) as i32 }
}

/// Decides how the process ends on a failure.
pub fn exit_for(failure: Failure) -> (exit: Exit)
    ensures
        exit == exit_of(failure),
        exit.code == 0 <==> failure == Failure::Download(
            DownloadFailure::Fetch(DownloadError::NotFound),
        ),
{
    let code: i32 = match failure {
        Failure::Start(StartError::UnsupportedSystem) => 1,
        Failure::Start(StartError::NoArguments) => 2,
        Failure::Conflict => 2,
        Failure::Config(e) => e.exit_code(),
        Failure::Download(f) => f.exit_code(),
        Failure::RemoveLocalCache(_) => 5,
        Failure::RemoveRemoteCache(_) => 4,
        Failure::Backup(f) => f.exit_code(),
        Failure::Restore(f) => f.exit_code(),
    };
    let remove_staging = match failure {
        Failure::Backup(BackupFailure::NotStaged(StagingError::AlreadyExists)) => false,
        Failure::Download(DownloadFailure::Fetch(DownloadError::StagingExists)) => false,
        Failure::Download(_) | Failure::Backup(_) | Failure::Restore(_) => true,
        _ => false,
    };
    Exit { remove_staging, code }
}

/// A backup that finds a staging directory in its way ends without touching
/// it: the staging gives up at its first step, the backup fails with that
/// reason, and the process ends without removing the directory.
pub proof fn lemma_backup_leaves_existing_staging_alone()
    ensures
        staging_action(StagingEvent::Begin { staging_exists: true }) == StagingAction::Fail(
            StagingError::AlreadyExists,
        ),
        backup_action(BackupEvent::Staged(Some(StagingError::AlreadyExists)))
            == BackupAction::Fail(BackupFailure::NotStaged(StagingError::AlreadyExists)),
        !exit_of(
            Failure::Backup(BackupFailure::NotStaged(StagingError::AlreadyExists)),
        ).remove_staging,
{
}

/// The exit code tells where a backup or a restore failed: two failures of
/// a backup with the same code are the same failure, or both are a staging
/// that was not done; two failures of a restore with the same code are the
/// same failure; and no failure of one has the code of a failure of the
/// other.
pub proof fn lemma_exit_codes_tell_failures_apart(
    a: BackupFailure,
    b: BackupFailure,
    c: RestoreFailure,
    d: RestoreFailure,
)
    ensures
        a.code() == b.code() ==> a == b || (a is NotStaged && b is NotStaged),
        c.code() == d.code() ==> c == d,
        a.code() != c.code(),
{
}

} // verus!
