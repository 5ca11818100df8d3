//! The snapshot builder: from the sources named in the environment to a
//! manifest, and from the manifest to a populated staging directory.

use crate::classify::{
    effective, generate_storage_data_directory_from_pathstr,
    generate_storage_data_file_from_pathstr, outcome_view, path_classification, ClassifyError,
    PathFacts,
};
use crate::model::{CacheType, CopyJob, CopyJobView, RestoreData, RestoreRecord};
use crate::text::joined;
use vstd::prelude::*;
use vstd::string::*;

verus! {

/// A source string and what was found out about it on disk.
#[derive(Debug, PartialEq, Eq)]
pub struct SourceProbe {
    /// The source as the environment gives it.
    pub raw: String,
    /// Its normalized absolute form, where it could be resolved.
    pub resolved: Option<String>,
    /// What the file system reports of the resolved form, or of the raw
    /// string where there is no resolved form.
    pub facts: PathFacts,
}

/// A source probe as mathematical values.
pub struct SourceProbeView {
    pub raw: Seq<char>,
    pub resolved: Option<Seq<char>>,
    pub facts: PathFacts,
}

impl View for SourceProbe {
    type V = SourceProbeView;

    open spec fn view(&self) -> SourceProbeView {
        SourceProbeView {
            raw: self.raw@,
            resolved: self.resolved.deep_view(),
            facts: self.facts,
        }
    }
}

impl DeepView for SourceProbe {
    type V = SourceProbeView;

    open spec fn deep_view(&self) -> SourceProbeView {
        self@
    }
}

/// Why a snapshot has no manifest.
#[derive(Clone, Copy, Debug, PartialEq, Eq, Structural)]
pub enum SnapshotError {
    /// Neither a directory source nor a file source was given.
    NoSources,
    /// Sources were given, and none of them could be classified.
    NoRecords,
}

/// The outcome of one classification, as mathematical values.
pub type Outcome = Result<RestoreRecord, ClassifyError>;

/// Picks the record of a classification that succeeded.
pub open spec fn record_of() -> spec_fn(Outcome) -> Option<RestoreRecord> {
    |outcome: Outcome|
        match outcome {
            Ok(record) => Some(record),
            Err(_) => None,
        }
}

/// The records of the classifications that succeeded, in order.
pub open spec fn kept(outcomes: Seq<Outcome>) -> Seq<RestoreRecord> {
    outcomes.filter_map(record_of())
}

/// The number of classifications that failed.
pub open spec fn failures(outcomes: Seq<Outcome>) -> nat
    decreases outcomes.len(),
{
    if outcomes.len() == 0 {
        0
    } else if outcomes.last() is Err {
        failures(outcomes.drop_last()) + 1
    } else {
        failures(outcomes.drop_last())
    }
}

/// The manifest that the classifications of the directory sources and of
/// the file sources give: the records of the directories, then those of
/// the files. Sources that failed are left out. There is no manifest
/// without sources, and none without a record.
pub open spec fn manifest_of(folders: Seq<Outcome>, files: Seq<Outcome>) -> Result<
    Seq<RestoreRecord>,
    SnapshotError,
> {
    if folders.len() == 0 && files.len() == 0 {
        Err(SnapshotError::NoSources)
    } else if (kept(folders) + kept(files)).len() == 0 {
        Err(SnapshotError::NoRecords)
    } else {
        Ok(kept(folders) + kept(files))
    }
}

/// A list of classification outcomes as mathematical values.
pub open spec fn outcomes_view(outcomes: Seq<Result<RestoreData, ClassifyError>>) -> Seq<
    Outcome,
> {
    outcomes.map_values(|o: Result<RestoreData, ClassifyError>| outcome_view(o))
}

/// A manifest, or the lack of one, as mathematical values.
pub open spec fn manifest_view(manifest: Result<Vec<RestoreData>, SnapshotError>) -> Result<
    Seq<RestoreRecord>,
    SnapshotError,
> {
    match manifest {
        Ok(records) => Ok(records.deep_view()),
        Err(e) => Err(e),
    }
}

/// The outcome of classifying a source as the expected kind: the
/// classification of its resolved form, or of the raw string where it has
/// none, as the platform splits that path.
pub open spec fn source_outcome(expected: CacheType, probe: SourceProbeView) -> Outcome {
    path_classification(expected, effective(probe.raw, probe.resolved), probe.facts)
}

/// The outcomes of classifying every source of a list as the expected kind,
/// in the order of the list.
pub open spec fn source_outcomes(expected: CacheType, probes: Seq<SourceProbeView>) -> Seq<
    Outcome,
> {
    Seq::new(probes.len(), |i: int| source_outcome(expected, probes[i]))
}

/// What became of the sources of a snapshot.
#[derive(Debug, PartialEq, Eq)]
pub struct Snapshot {
    /// The outcome of classifying each directory source, in their order.
    pub folder_outcomes: Vec<Result<RestoreData, ClassifyError>>,
    /// The outcome of classifying each file source, in their order.
    pub file_outcomes: Vec<Result<RestoreData, ClassifyError>>,
    /// The manifest built from the outcomes, or why there is none.
    pub manifest: Result<Vec<RestoreData>, SnapshotError>,
}

/// Appends to `records` the records of the outcomes that succeeded.
fn keep_records(records: &mut Vec<RestoreData>, outcomes: &Vec<Result<RestoreData, ClassifyError>>)
    ensures
        final(records).deep_view() == old(records).deep_view() + kept(outcomes_view(outcomes@)),
{
    let ghost views = outcomes_view(outcomes@);
    let ghost start = records.deep_view();
    let mut i: usize = 0;
    while i < outcomes.len()
        invariant
            i <= outcomes@.len(),
            views == outcomes_view(outcomes@),
            records.deep_view() == start + kept(views.take(i as int)),
        decreases outcomes@.len() - i,
    {
        proof {
            views.lemma_filter_map_take_succ(record_of(), i as int);
        }
        let ghost before = records.deep_view();
        match &outcomes[i] {
            Ok(record) => {
                records.push(record.clone());
                assert(records.deep_view() =~= before.push(record@));
            },
            Err(_) => {},
        }
        i += 1;
    }
    assert(views.take(outcomes@.len() as int) =~= views);
}

/// Builds the manifest from the outcomes of classifying the directory
/// sources and the file sources.
pub fn collect_records(
    folder_outcomes: &Vec<Result<RestoreData, ClassifyError>>,
    file_outcomes: &Vec<Result<RestoreData, ClassifyError>>,
) -> (manifest: Result<Vec<RestoreData>, SnapshotError>)
    ensures
        manifest_view(manifest) == manifest_of(
            outcomes_view(folder_outcomes@),
            outcomes_view(file_outcomes@),
        ),
{
    if folder_outcomes.len() == 0 && file_outcomes.len() == 0 {
        return Err(SnapshotError::NoSources);
    }
    let mut records: Vec<RestoreData> = Vec::new();
    keep_records(&mut records, folder_outcomes);
    keep_records(&mut records, file_outcomes);
    if records.len() == 0 {
        Err(SnapshotError::NoRecords)
    } else {
        Ok(records)
    }
}

/// Classifies every probe as a source of the expected kind.
fn classify_all(expected: CacheType, probes: &Vec<SourceProbe>) -> (outcomes: Vec<
    Result<RestoreData, ClassifyError>,
>)
    ensures
        outcomes_view(outcomes@) == source_outcomes(expected, probes.deep_view()),
{
    let mut outcomes: Vec<Result<RestoreData, ClassifyError>> = Vec::new();
    let mut i: usize = 0;
    while i < probes.len()
        invariant
            i <= probes@.len(),
            outcomes@.len() == i,
            forall|j: int|
                0 <= j < i ==> outcome_view(#[trigger] outcomes@[j]) == source_outcome(
                    expected,
                    probes@[j]@,
                ),
        decreases probes@.len() - i,
    {
        let probe = &probes[i];
        let outcome = match expected {
            CacheType::Directory => generate_storage_data_directory_from_pathstr(
                probe.raw.as_str(),
                probe.resolved.clone(),
                probe.facts,
            ),
            CacheType::File => generate_storage_data_file_from_pathstr(
                probe.raw.as_str(),
                probe.resolved.clone(),
                probe.facts,
            ),
        };
        outcomes.push(outcome);
        i += 1;
    }
    assert(outcomes_view(outcomes@) =~= source_outcomes(expected, probes.deep_view()));
    outcomes
}

/// Builds the manifest of a snapshot: every directory source is classified
/// as a directory, then every file source as a file. A source that fails is
/// left out, with its reason kept in the outcomes, and the others go on; the
/// snapshot fails only when there is no source at all or no source gave a
/// record.
pub fn generate_storage_data_from_pathstrings(
    files: &Vec<SourceProbe>,
    folders: &Vec<SourceProbe>,
) -> (snapshot: Snapshot)
    ensures
        outcomes_view(snapshot.folder_outcomes@) == source_outcomes(
            CacheType::Directory,
            folders.deep_view(),
        ),
        outcomes_view(snapshot.file_outcomes@) == source_outcomes(
            CacheType::File,
            files.deep_view(),
        ),
        manifest_view(snapshot.manifest) == manifest_of(
            source_outcomes(CacheType::Directory, folders.deep_view()),
            source_outcomes(CacheType::File, files.deep_view()),
        ),
        snapshot.manifest == Err::<Vec<RestoreData>, SnapshotError>(SnapshotError::NoSources)
            <==> files@.len() == 0 && folders@.len() == 0,
        snapshot.manifest matches Ok(records) ==> 0 < records@.len() <= files@.len()
            + folders@.len(),
{
    let folder_outcomes = classify_all(CacheType::Directory, folders);
    let file_outcomes = classify_all(CacheType::File, files);
    let manifest = collect_records(&folder_outcomes, &file_outcomes);
    proof {
        lemma_kept_and_failures(outcomes_view(folder_outcomes@));
        lemma_kept_and_failures(outcomes_view(file_outcomes@));
    }
    Snapshot { folder_outcomes, file_outcomes, manifest }
}

/// Every classification either gives a record or counts as a failure.
pub proof fn lemma_kept_and_failures(outcomes: Seq<Outcome>)
    ensures
        kept(outcomes).len() + failures(outcomes) == outcomes.len(),
    decreases outcomes.len(),
{
    if outcomes.len() > 0 {
        lemma_kept_and_failures(outcomes.drop_last());
    }
}

/// A snapshot of `n` sources of which `k` fail classification has a
/// manifest of exactly `n - k` records, and it has a manifest exactly when
/// at least one source classified.
pub proof fn lemma_partial_failure(folders: Seq<Outcome>, files: Seq<Outcome>)
    ensures
        failures(folders) + failures(files) <= folders.len() + files.len(),
        manifest_of(folders, files) is Ok <==> folders.len() + files.len() - (failures(folders)
            + failures(files)) >= 1,
        manifest_of(folders, files) matches Ok(records) ==> records.len() == folders.len()
            + files.len() - (failures(folders) + failures(files)),
{
    lemma_kept_and_failures(folders);
    lemma_kept_and_failures(files);
}

/// If exactly one of the sources fails classification, the manifest holds
/// one record for each of the others, and the snapshot succeeds as long as
/// there is another.
pub proof fn lemma_one_failure_costs_one_record(folders: Seq<Outcome>, files: Seq<Outcome>)
    requires
        failures(folders) + failures(files) == 1,
    ensures
        folders.len() + files.len() >= 1,
        folders.len() + files.len() - 1 >= 1 ==> manifest_of(folders, files) is Ok,
        manifest_of(folders, files) matches Ok(records) ==> records.len() == folders.len()
            + files.len() - 1,
{
    lemma_partial_failure(folders, files);
}

/// No two records of the manifest have the same name. Staging is flat and
/// keyed by name, so this is what keeps the copies of a snapshot apart.
pub open spec fn distinct_names(records: Seq<RestoreRecord>) -> bool {
    forall|i: int, j: int|
        0 <= i < j < records.len() ==> (#[trigger] records[i]).name != (#[trigger] records[j]).name
}

/// Whether no two records of the manifest have the same name. Where two
/// have, the copy of the later one overwrites the copy of the earlier one in
/// staging.
pub fn names_are_distinct(records: &Vec<RestoreData>) -> (distinct: bool)
    ensures
        distinct == distinct_names(records.deep_view()),
{
    let mut j: usize = 0;
    while j < records.len()
        invariant
            j <= records@.len(),
            forall|a: int, b: int|
                0 <= a < b < j ==> (#[trigger] records@[a])@.name != (#[trigger] records@[b])@.name,
        decreases records@.len() - j,
    {
        let mut i: usize = 0;
        while i < j
            invariant
                i <= j < records@.len(),
                forall|a: int|
                    0 <= a < i ==> (#[trigger] records@[a])@.name != records@[j as int]@.name,
            decreases j - i,
        {
            if crate::text::str_eq(records[i].name(), records[j].name()) {
                assert(records.deep_view()[i as int].name == records.deep_view()[j as int].name);
                return false;
            }
            i += 1;
        }
        j += 1;
    }
    true
}

/// The copy that stages a record in the working directory
/// `current_directory`: from the record's full path to the staging
/// directory, under the record's name, with the permission bits of the
/// source.
pub open spec fn staging_copy(record: RestoreRecord, current_directory: Seq<char>) -> CopyJobView {
    CopyJobView {
        kind: record.kind,
        from: record.full_path(),
        to: current_directory + "/.cache/"@ + record.name,
        keep_permissions: true,
    }
}

/// Makes the staging copy of every record.
pub open spec fn staging_copies(current_directory: Seq<char>) -> spec_fn(
    RestoreRecord,
) -> CopyJobView {
    |record: RestoreRecord| staging_copy(record, current_directory)
}

/// The copy that stages a record.
pub fn staging_job(record: &RestoreData, current_directory: &str) -> (job: CopyJob)
    ensures
        job@ == staging_copy(record@, current_directory@),
{
    let mut to = joined(current_directory, "/.cache/");
    to.append(record.name());
    CopyJob { kind: record.kind(), from: record.full_path(), to, keep_permissions: true }
}

/// The copies that stage the records of a manifest, one for each record and
/// in the manifest's order.
pub fn staging_jobs(records: &Vec<RestoreData>, current_directory: &str) -> (jobs: Vec<CopyJob>)
    ensures
        jobs.deep_view() == records.deep_view().map_values(staging_copies(current_directory@)),
{
    let mut jobs: Vec<CopyJob> = Vec::new();
    let mut i: usize = 0;
    while i < records.len()
        invariant
            i <= records@.len(),
            jobs@.len() == i,
            forall|j: int|
                0 <= j < i ==> (#[trigger] jobs@[j])@ == staging_copy(
                    records@[j]@,
                    current_directory@,
                ),
        decreases records@.len() - i,
    {
        jobs.push(staging_job(&records[i], current_directory));
        i += 1;
    }
    jobs
}

/// Why the staging directory was not populated.
#[derive(Clone, Copy, Debug, PartialEq, Eq, Structural)]
pub enum StagingError {
    /// A staging directory is already there; it is left as it is.
    AlreadyExists,
    /// The staging directory could not be made.
    NotCreated,
    /// The manifest could not be written into the staging directory.
    ManifestNotWritten,
}

/// What has just happened while the staging directory is populated.
#[derive(Clone, Copy, Debug, PartialEq, Eq, Structural)]
pub enum StagingEvent {
    /// Nothing yet; `staging_exists` says whether a staging directory is
    /// there.
    Begin { staging_exists: bool },
    /// The staging directory was made, or not.
    Created(bool),
    /// The manifest was written, or not.
    ManifestWritten(bool),
    /// Every record's content was copied, or its copy failed.
    Copied,
}

/// What to do next while the staging directory is populated.
#[derive(Clone, Copy, Debug, PartialEq, Eq, Structural)]
pub enum StagingAction {
    /// Make the staging directory.
    CreateStaging,
    /// Write the serialized manifest to the manifest file in staging.
    WriteManifest,
    /// Make the copies that `staging_jobs` lists for the manifest. A copy
    /// that fails is reported, and the others are still made.
    CopyRecords,
    /// Stop: staging is populated.
    Done,
    /// Stop, and this is why.
    Fail(StagingError),
}

/// The step that follows an event of the staging. A staging directory that
/// is already there ends it before anything is made, written or copied.
pub open spec fn staging_action(event: StagingEvent) -> StagingAction {
    match event {
        StagingEvent::Begin { staging_exists } => if staging_exists {
            StagingAction::Fail(StagingError::AlreadyExists)
        } else {
            StagingAction::CreateStaging
        },
        StagingEvent::Created(ok) => if ok {
            StagingAction::WriteManifest
        } else {
            StagingAction::Fail(StagingError::NotCreated)
        },
        StagingEvent::ManifestWritten(ok) => if ok {
            StagingAction::CopyRecords
        } else {
            StagingAction::Fail(StagingError::ManifestNotWritten)
        },
        StagingEvent::Copied => StagingAction::Done,
    }
}

/// Says what to do next so that the staging directory holds the manifest
/// and a copy of every record's content. Start with `Begin`, do what is
/// returned, and come back with what happened, until the answer is `Done` or
/// `Fail`.
pub fn cpy_files_to_cache_dir(event: StagingEvent) -> (action: StagingAction)
    ensures
        action == staging_action(event),
        event == (StagingEvent::Begin { staging_exists: true }) ==> action == StagingAction::Fail(
            StagingError::AlreadyExists,
        ),
{
    match event {
        StagingEvent::Begin { staging_exists } => {
            if staging_exists {
                StagingAction::Fail(StagingError::AlreadyExists)
            } else {
                StagingAction::CreateStaging
            }
        },
        StagingEvent::Created(ok) => {
            if ok {
                StagingAction::WriteManifest
            } else {
                StagingAction::Fail(StagingError::NotCreated)
            }
        },
        StagingEvent::ManifestWritten(ok) => {
            if ok {
                StagingAction::CopyRecords
            } else {
                StagingAction::Fail(StagingError::ManifestNotWritten)
            }
        },
        StagingEvent::Copied => StagingAction::Done,
    }
}

/// What the disk answers while the staging directory is populated: one
/// answer for each thing that may be asked of it.
pub struct StagingWorld {
    pub staging_exists: bool,
    pub created: bool,
    pub manifest_written: bool,
}

/// The event with which the disk answers an action.
pub open spec fn staging_answer(world: StagingWorld, action: StagingAction) -> StagingEvent {
    match action {
        StagingAction::CreateStaging => StagingEvent::Created(world.created),
        StagingAction::WriteManifest => StagingEvent::ManifestWritten(world.manifest_written),
        _ => StagingEvent::Copied,
    }
}

/// A staging that starts with `event`, after the actions `done` were
/// carried out, and is given at most `steps` answers by the disk: the answer
/// that ends it, and the actions that were carried out, in their order.
pub open spec fn staging_end(
    world: StagingWorld,
    event: StagingEvent,
    done: Seq<StagingAction>,
    steps: nat,
) -> (StagingAction, Seq<StagingAction>)
    decreases steps,
{
    let action = staging_action(event);
    if steps == 0 || action is Done || action is Fail {
        (action, done)
    } else {
        staging_end(world, staging_answer(world, action), done.push(action), (steps - 1) as nat)
    }
}

/// A whole staging, whatever the disk answers. Where a staging directory is
/// already there, it fails as its first answer: nothing is made, nothing is
/// written and no source is copied, so that the directory stays as it was.
/// Otherwise it ends well exactly when the directory was made and the
/// manifest written, whether or not every copy worked; and sources are
/// copied only after both.
pub proof fn lemma_staging_guard(world: StagingWorld)
    ensures
        ({
            let (end, done) = staging_end(
                world,
                StagingEvent::Begin { staging_exists: world.staging_exists },
                Seq::empty(),
                3,
            );
            &&& end is Done || end is Fail
            &&& world.staging_exists ==> end == StagingAction::Fail(StagingError::AlreadyExists)
                && done.len() == 0
            &&& end is Done <==> !world.staging_exists && world.created && world.manifest_written
            &&& done.contains(StagingAction::CopyRecords) <==> end is Done
            &&& end is Done ==> done == seq![
                StagingAction::CreateStaging,
                StagingAction::WriteManifest,
                StagingAction::CopyRecords,
            ]
        }),
{
    reveal_with_fuel(staging_end, 4);
    let one = Seq::<StagingAction>::empty().push(StagingAction::CreateStaging);
    let two = one.push(StagingAction::WriteManifest);
    let three = two.push(StagingAction::CopyRecords);
    assert(three =~= seq![
        StagingAction::CreateStaging,
        StagingAction::WriteManifest,
        StagingAction::CopyRecords,
    ]);
    assert(three[2] == StagingAction::CopyRecords);
}

/// Why a backup failed.
#[derive(Clone, Copy, Debug, PartialEq, Eq, Structural)]
pub enum BackupFailure {
    /// The environment names no source.
    NoSources,
    /// No manifest could be built from the sources.
    NoManifest,
    /// The collections on the server are not in place.
    RemoteNotReady,
    /// The staging directory was not populated, and this is why.
    NotStaged(StagingError),
    /// The staging directory was not packed.
    NotPacked,
    /// The archive did not reach the server.
    NotUploaded,
}

impl BackupFailure {
    /// The exit code of the backup for a failure; each failure has its own.
    pub open spec fn code(self) -> int {
        match self {
            BackupFailure::NoSources => 13,
            BackupFailure::NoManifest => 14,
            BackupFailure::RemoteNotReady => 15,
            BackupFailure::NotStaged(_) => 16,
            BackupFailure::NotPacked => 17,
            BackupFailure::NotUploaded => 18,
        }
    }

    /// The exit code of the backup for a failure.
    pub fn exit_code(&self) -> (code: i32)
        ensures
            code == self.code(),
            code != 0,
    {
        match self {
            BackupFailure::NoSources => 13,
            BackupFailure::NoManifest => 14,
            BackupFailure::RemoteNotReady => 15,
            BackupFailure::NotStaged(_) => 16,
            BackupFailure::NotPacked => 17,
            BackupFailure::NotUploaded => 18,
        }
    }
}

/// What has just happened during a backup.
#[derive(Clone, Copy, Debug, PartialEq, Eq, Structural)]
pub enum BackupEvent {
    /// The environment was scanned; it names this many directory sources
    /// and this many file sources.
    Begin { folders: usize, files: usize },
    /// The manifest was built, or could not be.
    Collected(bool),
    /// The collections on the server were set up, or could not be.
    RemoteReady(bool),
    /// The staging directory was populated (`None`), or was not and this is
    /// why.
    Staged(Option<StagingError>),
    /// The staging directory was packed, or could not be.
    Packed(bool),
    /// The archive was uploaded, or could not be.
    Uploaded(bool),
}

/// What to do next during a backup.
#[derive(Clone, Copy, Debug, PartialEq, Eq, Structural)]
pub enum BackupAction {
    /// Probe every source and build the manifest with
    /// `generate_storage_data_from_pathstrings`.
    Collect,
    /// Set up the collections on the server with `create_webdav_paths`.
    PrepareRemote,
    /// Serialize the manifest and populate staging with
    /// `cpy_files_to_cache_dir`. `names_are_distinct` tells beforehand
    /// whether every record keeps a copy of its own.
    Stage,
    /// Pack the staging directory into the archive file of this system and
    /// branch.
    Pack,
    /// Send the archive with `upload_zip`.
    Upload,
    /// Stop: the cache is on the server.
    Done,
    /// Stop, and this is why.
    Fail(BackupFailure),
}

/// The step that follows an event of the backup: the phases come in the
/// order collect, prepare the server, stage, pack, upload, and the first
/// that fails ends the backup with its own failure.
pub open spec fn backup_action(event: BackupEvent) -> BackupAction {
    match event {
        BackupEvent::Begin { folders, files } => if folders == 0 && files == 0 {
            BackupAction::Fail(BackupFailure::NoSources)
        } else {
            BackupAction::Collect
        },
        BackupEvent::Collected(ok) => if ok {
            BackupAction::PrepareRemote
        } else {
            BackupAction::Fail(BackupFailure::NoManifest)
        },
        BackupEvent::RemoteReady(ok) => if ok {
            BackupAction::Stage
        } else {
            BackupAction::Fail(BackupFailure::RemoteNotReady)
        },
        BackupEvent::Staged(None) => BackupAction::Pack,
        BackupEvent::Staged(Some(e)) => BackupAction::Fail(BackupFailure::NotStaged(e)),
        BackupEvent::Packed(ok) => if ok {
            BackupAction::Upload
        } else {
            BackupAction::Fail(BackupFailure::NotPacked)
        },
        BackupEvent::Uploaded(ok) => if ok {
            BackupAction::Done
        } else {
            BackupAction::Fail(BackupFailure::NotUploaded)
        },
    }
}

/// Says what to do next during a backup. Start with `Begin`, do what is
/// returned, and come back with what happened, until the answer is `Done` or
/// `Fail`.
pub fn backup(event: BackupEvent) -> (action: BackupAction)
    ensures
        action == backup_action(event),
{
    match event {
        BackupEvent::Begin { folders, files } => {
            if folders == 0 && files == 0 {
                BackupAction::Fail(BackupFailure::NoSources)
            } else {
                BackupAction::Collect
            }
        },
        BackupEvent::Collected(ok) => {
            if ok {
                BackupAction::PrepareRemote
            } else {
                BackupAction::Fail(BackupFailure::NoManifest)
            }
        },
        BackupEvent::RemoteReady(ok) => {
            if ok {
                BackupAction::Stage
            } else {
                BackupAction::Fail(BackupFailure::RemoteNotReady)
            }
        },
        BackupEvent::Staged(None) => BackupAction::Pack,
        BackupEvent::Staged(Some(e)) => BackupAction::Fail(BackupFailure::NotStaged(e)),
        BackupEvent::Packed(ok) => {
            if ok {
                BackupAction::Upload
            } else {
                BackupAction::Fail(BackupFailure::NotPacked)
            }
        },
        BackupEvent::Uploaded(ok) => {
            if ok {
                BackupAction::Done
            } else {
                BackupAction::Fail(BackupFailure::NotUploaded)
            }
        },
    }
}

} // verus!
