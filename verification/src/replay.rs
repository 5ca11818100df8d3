//! The replay engine: which records of a manifest are restored on this
//! machine, how one record is put back, and what the run adds up to.

use crate::model::{CacheType, CopyJob, CopyJobView, RestoreData, RestoreRecord};
use crate::snapshot::staging_copy;
use crate::text::list_contains;
use vstd::prelude::*;
use vstd::string::*;

verus! {

/// A record is wanted when its full path is, letter for letter, one of the
/// selected paths of its kind.
pub open spec fn selected(
    record: RestoreRecord,
    folders: Seq<Seq<char>>,
    files: Seq<Seq<char>>,
) -> bool {
    match record.kind {
        CacheType::Directory => folders.contains(record.full_path()),
        CacheType::File => files.contains(record.full_path()),
    }
}

/// The test that keeps the wanted records.
pub open spec fn wanted(folders: Seq<Seq<char>>, files: Seq<Seq<char>>) -> spec_fn(
    RestoreRecord,
) -> bool {
    |record: RestoreRecord| selected(record, folders, files)
}

/// The records that a replay restores: the wanted ones, in the order of the
/// manifest.
pub open spec fn replay_plan(
    records: Seq<RestoreRecord>,
    folders: Seq<Seq<char>>,
    files: Seq<Seq<char>>,
) -> Seq<RestoreRecord> {
    records.filter(wanted(folders, files))
}

/// Whether the selection asks for this record.
pub fn is_selected(record: &RestoreData, folders: &Vec<String>, files: &Vec<String>) -> (yes: bool)
    ensures
        yes == selected(record@, folders.deep_view(), files.deep_view()),
{
    let path = record.full_path();
    match record.kind() {
        CacheType::Directory => list_contains(folders, path.as_str()),
        CacheType::File => list_contains(files, path.as_str()),
    }
}

/// What a replay of a manifest has to do.
#[derive(Debug, PartialEq, Eq)]
pub struct ReplayPlan {
    /// The records to restore, in the order of the manifest.
    pub records: Vec<RestoreData>,
    /// How many records of the manifest the selection did not ask for.
    pub skipped: usize,
}

/// Plans the replay of a manifest: the records that are restored on this
/// machine are those whose full path is among the selected paths of their
/// kind. The others are passed over, which is no error. An empty manifest
/// gives an empty plan.
pub fn restore_data(
    res_data_vec: &Vec<RestoreData>,
    restore_folder_paths: &Vec<String>,
    restore_file_paths: &Vec<String>,
) -> (plan: ReplayPlan)
    ensures
        plan.records.deep_view() == replay_plan(
            res_data_vec.deep_view(),
            restore_folder_paths.deep_view(),
            restore_file_paths.deep_view(),
        ),
        plan.records@.len() + plan.skipped == res_data_vec@.len(),
{
    let ghost keep = wanted(restore_folder_paths.deep_view(), restore_file_paths.deep_view());
    let mut plan: Vec<RestoreData> = Vec::new();
    let mut i: usize = 0;
    while i < res_data_vec.len()
        invariant
            i <= res_data_vec@.len(),
            keep == wanted(restore_folder_paths.deep_view(), restore_file_paths.deep_view()),
            plan.deep_view() == res_data_vec.deep_view().take(i as int).filter(keep),
            plan@.len() <= i,
        decreases res_data_vec@.len() - i,
    {
        proof {
            let shorter = res_data_vec.deep_view().take(i as int);
            assert(res_data_vec.deep_view().take(i + 1) =~= shorter.push(res_data_vec@[i as int]@));
            shorter.lemma_filter_push(res_data_vec@[i as int]@, keep);
        }
        if is_selected(&res_data_vec[i], restore_folder_paths, restore_file_paths) {
            plan.push(res_data_vec[i].clone());
        }
        i += 1;
    }
    assert(res_data_vec.deep_view().take(res_data_vec@.len() as int) =~= res_data_vec.deep_view());
    let skipped: usize = res_data_vec.len() - plan.len();
    ReplayPlan { records: plan, skipped }
}

/// The copy that restores a record: from its place in staging to its full
/// path, with the permission bits it has in staging.
pub open spec fn restore_copy(record: RestoreRecord) -> CopyJobView {
    CopyJobView {
        kind: record.kind,
        from: record.staged_path(),
        to: record.full_path(),
        keep_permissions: true,
    }
}

/// The copy that restores a record.
pub fn restore_job(record: &RestoreData) -> (job: CopyJob)
    ensures
        job@ == restore_copy(record@),
{
    CopyJob {
        kind: record.kind(),
        from: record.staged_path(),
        to: record.full_path(),
        keep_permissions: true,
    }
}

/// The replay undoes the staging: what was staged from a path is restored
/// to that path, as the same kind of object, and it is read from the place,
/// below the working directory, that the staging wrote. Both copies keep the
/// permission bits of what they copy.
pub proof fn lemma_replay_reverses_staging(record: RestoreRecord, current_directory: Seq<char>)
    ensures
        restore_copy(record).to == staging_copy(record, current_directory).from,
        restore_copy(record).kind == staging_copy(record, current_directory).kind,
        restore_copy(record).keep_permissions && staging_copy(
            record,
            current_directory,
        ).keep_permissions,
        staging_copy(record, current_directory).to == current_directory + "/"@ + restore_copy(
            record,
        ).from,
{
    reveal_strlit("/");
    reveal_strlit(".cache/");
    reveal_strlit("/.cache/");
}

/// Records with different names lie at different places in staging, so that
/// the copy of one does not overwrite the copy of another.
pub proof fn lemma_distinct_names_distinct_places(
    a: RestoreRecord,
    b: RestoreRecord,
    current_directory: Seq<char>,
)
    requires
        a.name != b.name,
    ensures
        restore_copy(a).from != restore_copy(b).from,
        staging_copy(a, current_directory).to != staging_copy(b, current_directory).to,
{
    let p = crate::model::staging_prefix();
    let q = current_directory + "/.cache/"@;
    assert((p + a.name).subrange(p.len() as int, (p + a.name).len() as int) =~= a.name);
    assert((p + b.name).subrange(p.len() as int, (p + b.name).len() as int) =~= b.name);
    assert((q + a.name).subrange(q.len() as int, (q + a.name).len() as int) =~= a.name);
    assert((q + b.name).subrange(q.len() as int, (q + b.name).len() as int) =~= b.name);
}

/// Why a record was not restored.
#[derive(Clone, Copy, Debug, PartialEq, Eq, Structural)]
pub enum RestoreError {
    /// The record is of the other kind; nothing was attempted.
    KindMismatch,
    /// The directory to restore into does not exist on this machine, as
    /// happens with a manifest from another system.
    MissingDestination,
    /// The copy out of staging failed.
    CopyFailed,
}

/// What has just happened while one record is restored.
#[derive(Clone, Copy, Debug, PartialEq, Eq, Structural)]
pub enum RestoreEvent {
    /// Nothing yet.
    Begin,
    /// The directory to restore into was looked up; `true` when it exists.
    Probed(bool),
    /// The copy was made, or failed.
    Copied(bool),
}

/// What to do next while one record is restored.
#[derive(Clone, Copy, Debug, PartialEq, Eq, Structural)]
pub enum RestoreAction {
    /// Look up whether the record's parent directory exists.
    Probe,
    /// Make the copy that `restore_job` gives for the record.
    Copy,
    /// Stop: the record is restored.
    Done,
    /// Stop: the record is not restored, and this is why.
    Fail(RestoreError),
}

/// The step that follows an event while a record of kind `kind` is restored
/// by the operation for kind `expected`. A record of the other kind is
/// refused before anything is looked up or copied.
pub open spec fn restore_action(
    expected: CacheType,
    kind: CacheType,
    event: RestoreEvent,
) -> RestoreAction {
    match event {
        RestoreEvent::Begin => if kind != expected {
            RestoreAction::Fail(RestoreError::KindMismatch)
        } else {
            RestoreAction::Probe
        },
        RestoreEvent::Probed(exists) => if exists {
            RestoreAction::Copy
        } else {
            RestoreAction::Fail(RestoreError::MissingDestination)
        },
        RestoreEvent::Copied(ok) => if ok {
            RestoreAction::Done
        } else {
            RestoreAction::Fail(RestoreError::CopyFailed)
        },
    }
}

/// Takes one step of restoring a record with the operation for `expected`.
fn restore_step(expected: CacheType, record: &RestoreData, event: RestoreEvent) -> (action:
    RestoreAction)
    ensures
        action == restore_action(expected, record@.kind, event),
{
    match event {
        RestoreEvent::Begin => {
            if record.kind() != expected {
                RestoreAction::Fail(RestoreError::KindMismatch)
            } else {
                RestoreAction::Probe
            }
        },
        RestoreEvent::Probed(exists) => {
            if exists {
                RestoreAction::Copy
            } else {
                RestoreAction::Fail(RestoreError::MissingDestination)
            }
        },
        RestoreEvent::Copied(ok) => {
            if ok {
                RestoreAction::Done
            } else {
                RestoreAction::Fail(RestoreError::CopyFailed)
            }
        },
    }
}

/// Says what to do next so that a directory record is restored. Start with
/// `Begin`, do what is returned, and come back with what happened, until the
/// answer is `Done` or `Fail`.
pub fn restore_folder(restore_data: &RestoreData, event: RestoreEvent) -> (action: RestoreAction)
    ensures
        action == restore_action(CacheType::Directory, restore_data@.kind, event),
{
    restore_step(CacheType::Directory, restore_data, event)
}

/// Says what to do next so that a file record is restored. Start with
/// `Begin`, do what is returned, and come back with what happened, until the
/// answer is `Done` or `Fail`.
pub fn restore_file(restore_data: &RestoreData, event: RestoreEvent) -> (action: RestoreAction)
    ensures
        action == restore_action(CacheType::File, restore_data@.kind, event),
{
    restore_step(CacheType::File, restore_data, event)
}

/// Tells the outcomes that are like `wanted` from the others: the successes
/// where it is a success, the failures for the same reason where it is a
/// failure.
pub open spec fn is_outcome(wanted: Result<(), RestoreError>) -> spec_fn(
    Result<(), RestoreError>,
) -> bool {
    |outcome: Result<(), RestoreError>|
        match (outcome, wanted) {
            (Ok(_), Ok(_)) => true,
            (Err(a), Err(b)) => a == b,
            _ => false,
        }
}

/// The number of outcomes that are like `wanted`.
pub open spec fn count_of(
    outcomes: Seq<Result<(), RestoreError>>,
    wanted: Result<(), RestoreError>,
) -> nat {
    outcomes.filter(is_outcome(wanted)).len()
}

/// What a replay adds up to.
#[derive(Clone, Copy, Debug, PartialEq, Eq, Structural)]
pub struct ReplayReport {
    /// Records that were restored.
    pub restored: usize,
    /// Records whose destination does not exist on this machine. They are
    /// misses of a manifest made elsewhere, and do not fail the replay.
    pub missed: usize,
    /// Records that were wanted, had a destination, and could not be
    /// restored. They do not fail the replay either.
    pub failed: usize,
    /// Records that the selection did not ask for. They are no failures.
    pub skipped: usize,
}

/// Counts the outcomes that are like `wanted`.
fn count(outcomes: &Vec<Result<(), RestoreError>>, wanted: Result<(), RestoreError>) -> (n: usize)
    ensures
        n == count_of(outcomes@, wanted),
        n <= outcomes@.len(),
{
    let mut n: usize = 0;
    let mut i: usize = 0;
    while i < outcomes.len()
        invariant
            i <= outcomes@.len(),
            n <= i,
            n == count_of(outcomes@.take(i as int), wanted),
        decreases outcomes@.len() - i,
    {
        proof {
            let shorter = outcomes@.take(i as int);
            assert(outcomes@.take(i + 1) =~= shorter.push(outcomes@[i as int]));
            shorter.lemma_filter_push(outcomes@[i as int], is_outcome(wanted));
        }
        let same = match (outcomes[i], wanted) {
            (Ok(_), Ok(_)) => true,
            (Err(a), Err(b)) => a == b,
            _ => false,
        };
        if same {
            n += 1;
        }
        i += 1;
    }
    assert(outcomes@.take(outcomes@.len() as int) =~= outcomes@);
    n
}

/// Adds up a replay. `outcomes` lists, for each record of the plan in turn,
/// how its restore ended. Misses and failures are counted and do not fail
/// the replay.
pub fn replay_report(plan: &ReplayPlan, outcomes: &Vec<Result<(), RestoreError>>) -> (report:
    ReplayReport)
    ensures
        report.restored == count_of(outcomes@, Ok(())),
        report.missed == count_of(outcomes@, Err(RestoreError::MissingDestination)),
        report.restored + report.missed + report.failed == outcomes@.len(),
        report.skipped == plan.skipped,
{
    let restored = count(outcomes, Ok(()));
    let missed = count(outcomes, Err(RestoreError::MissingDestination));
    proof {
        lemma_counts_do_not_overlap(outcomes@);
    }
    ReplayReport {
        restored,
        missed,
        failed: outcomes.len() - restored - missed,
        skipped: plan.skipped,
    }
}

/// The restored and the missed are different outcomes, so together they are
/// no more than all.
proof fn lemma_counts_do_not_overlap(outcomes: Seq<Result<(), RestoreError>>)
    ensures
        count_of(outcomes, Ok(())) + count_of(outcomes, Err(RestoreError::MissingDestination))
            <= outcomes.len(),
    decreases outcomes.len(),
{
    reveal(Seq::filter);
    if outcomes.len() > 0 {
        lemma_counts_do_not_overlap(outcomes.drop_last());
    }
}

/// Replaying a manifest against a selection that holds the full path of
/// every record, under the record's kind, restores every record: none is
/// passed over.
pub proof fn lemma_full_selection_restores_all(
    records: Seq<RestoreRecord>,
    folders: Seq<Seq<char>>,
    files: Seq<Seq<char>>,
)
    requires
        forall|i: int| 0 <= i < records.len() ==> selected(#[trigger] records[i], folders, files),
    ensures
        replay_plan(records, folders, files) == records,
    decreases records.len(),
{
    reveal(Seq::filter);
    if records.len() > 0 {
        lemma_full_selection_restores_all(records.drop_last(), folders, files);
    }
}

/// A record that the selection does not hold is not in the plan, and a
/// record of the plan is one of the manifest that the selection holds.
pub proof fn lemma_plan_holds_the_selected(
    records: Seq<RestoreRecord>,
    folders: Seq<Seq<char>>,
    files: Seq<Seq<char>>,
    record: RestoreRecord,
)
    ensures
        replay_plan(records, folders, files).contains(record) <==> records.contains(record)
            && selected(record, folders, files),
{
    let keep = wanted(folders, files);
    let plan = records.filter(keep);
    if plan.contains(record) {
        let i = choose|i: int| 0 <= i < plan.len() && plan[i] == record;
        records.lemma_filter_pred(keep, i);
        records.lemma_filter_contains_rev(keep, record);
    }
    if records.contains(record) && selected(record, folders, files) {
        let i = choose|i: int| 0 <= i < records.len() && records[i] == record;
        records.lemma_filter_contains(keep, i);
    }
}

/// Why a restore failed.
#[derive(Clone, Copy, Debug, PartialEq, Eq, Structural)]
pub enum RestoreFailure {
    /// There is no staging directory.
    StagingMissing,
    /// The staging directory holds no manifest file.
    ManifestMissing,
    /// The environment selects nothing to restore.
    NothingSelected,
    /// The manifest file could not be opened.
    ManifestUnopenable,
    /// The manifest file could not be read.
    ManifestUnreadable,
    /// The manifest's text is malformed.
    ManifestMalformed,
    /// The staging directory could not be removed after the replay.
    StagingNotRemoved,
}

impl RestoreFailure {
    /// The exit code of the restore for a failure; each failure has its
    /// own.
    pub open spec fn code(self) -> int {
        match self {
            RestoreFailure::StagingMissing => 51,
            RestoreFailure::ManifestMissing => 52,
            RestoreFailure::NothingSelected => 21,
            RestoreFailure::ManifestUnopenable => 53,
            RestoreFailure::ManifestUnreadable => 54,
            RestoreFailure::ManifestMalformed => 55,
            RestoreFailure::StagingNotRemoved => 57,
        }
    }

    /// The exit code of the restore for a failure.
    pub fn exit_code(&self) -> (code: i32)
        ensures
            code == self.code(),
            code != 0,
    {
        match self {
            RestoreFailure::StagingMissing => 51,
            RestoreFailure::ManifestMissing => 52,
            RestoreFailure::NothingSelected => 21,
            RestoreFailure::ManifestUnopenable => 53,
            RestoreFailure::ManifestUnreadable => 54,
            RestoreFailure::ManifestMalformed => 55,
            RestoreFailure::StagingNotRemoved => 57,
        }
    }
}

/// How reading and parsing the manifest file went.
#[derive(Clone, Copy, Debug, PartialEq, Eq, Structural)]
pub enum ManifestLoad {
    /// The file could not be opened.
    NotOpened,
    /// The file was opened, and reading it failed.
    NotRead,
    /// The file was read, and its text is no manifest.
    Malformed,
    /// The manifest was parsed and holds this many records.
    Parsed { records: usize },
}

/// What has just happened during a restore.
#[derive(Clone, Copy, Debug, PartialEq, Eq, Structural)]
pub enum RestoreRunEvent {
    /// Nothing yet. The staging directory and the manifest file were looked
    /// up, and the environment selects this many directories and this many
    /// files.
    Begin { staging_exists: bool, manifest_exists: bool, folders: usize, files: usize },
    /// The manifest file was read and parsed, or not.
    Loaded(ManifestLoad),
    /// The replay went through all records.
    Replayed,
    /// The staging directory was removed, or not.
    Removed(bool),
}

/// What to do next during a restore.
#[derive(Clone, Copy, Debug, PartialEq, Eq, Structural)]
pub enum RestoreRunAction {
    /// Read the manifest file and parse it.
    Load,
    /// Plan the replay with `restore_data` and restore each record of the
    /// plan. `warn_empty` asks for a warning that the manifest holds no
    /// record, which is no failure.
    Replay { warn_empty: bool },
    /// Remove the staging directory.
    RemoveStaging,
    /// Stop: the restore is complete.
    Done,
    /// Stop, and this is why.
    Fail(RestoreFailure),
}

/// The step that follows an event of the restore. Before the replay, a
/// missing staging directory, a missing manifest file, an empty selection
/// and a manifest that cannot be opened, read or parsed each end the
/// restore, in this order. An empty manifest does not. However the records
/// fared, the replay is followed by the removal of the staging directory.
pub open spec fn restore_run_action(event: RestoreRunEvent) -> RestoreRunAction {
    match event {
        RestoreRunEvent::Begin { staging_exists, manifest_exists, folders, files } => if
            !staging_exists
        {
            RestoreRunAction::Fail(RestoreFailure::StagingMissing)
        } else if !manifest_exists {
            RestoreRunAction::Fail(RestoreFailure::ManifestMissing)
        } else if folders == 0 && files == 0 {
            RestoreRunAction::Fail(RestoreFailure::NothingSelected)
        } else {
            RestoreRunAction::Load
        },
        RestoreRunEvent::Loaded(ManifestLoad::NotOpened) => RestoreRunAction::Fail(
            RestoreFailure::ManifestUnopenable,
        ),
        RestoreRunEvent::Loaded(ManifestLoad::NotRead) => RestoreRunAction::Fail(
            RestoreFailure::ManifestUnreadable,
        ),
        RestoreRunEvent::Loaded(ManifestLoad::Malformed) => RestoreRunAction::Fail(
            RestoreFailure::ManifestMalformed,
        ),
        RestoreRunEvent::Loaded(ManifestLoad::Parsed { records }) => RestoreRunAction::Replay {
            warn_empty: records == 0,
        },
        RestoreRunEvent::Replayed => RestoreRunAction::RemoveStaging,
        RestoreRunEvent::Removed(ok) => if ok {
            RestoreRunAction::Done
        } else {
            RestoreRunAction::Fail(RestoreFailure::StagingNotRemoved)
        },
    }
}

/// Says what to do next during a restore. Start with `Begin`, do what is
/// returned, and come back with what happened, until the answer is `Done` or
/// `Fail`.
pub fn restore(event: RestoreRunEvent) -> (action: RestoreRunAction)
    ensures
        action == restore_run_action(event),
{
    match event {
        RestoreRunEvent::Begin { staging_exists, manifest_exists, folders, files } => {
            if !staging_exists {
                RestoreRunAction::Fail(RestoreFailure::StagingMissing)
            } else if !manifest_exists {
                RestoreRunAction::Fail(RestoreFailure::ManifestMissing)
            } else if folders == 0 && files == 0 {
                RestoreRunAction::Fail(RestoreFailure::NothingSelected)
            } else {
                RestoreRunAction::Load
            }
        },
        RestoreRunEvent::Loaded(ManifestLoad::NotOpened) => RestoreRunAction::Fail(
            RestoreFailure::ManifestUnopenable,
        ),
        RestoreRunEvent::Loaded(ManifestLoad::NotRead) => RestoreRunAction::Fail(
            RestoreFailure::ManifestUnreadable,
        ),
        RestoreRunEvent::Loaded(ManifestLoad::Malformed) => RestoreRunAction::Fail(
            RestoreFailure::ManifestMalformed,
        ),
        RestoreRunEvent::Loaded(ManifestLoad::Parsed { records }) => RestoreRunAction::Replay {
            warn_empty: records == 0,
        },
        RestoreRunEvent::Replayed => RestoreRunAction::RemoveStaging,
        RestoreRunEvent::Removed(ok) => {
            if ok {
                RestoreRunAction::Done
            } else {
                RestoreRunAction::Fail(RestoreFailure::StagingNotRemoved)
            }
        },
    }
}

} // verus!
