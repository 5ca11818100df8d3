//! The archive codec's rules: which entries a directory tree puts into an
//! archive, and what each entry of an archive becomes when it is unpacked.
//! Reading the tree and writing the archive happen elsewhere; what is
//! written, under which name and with which options, is decided here.

use crate::path::{path_relative_to, relative_to};
use crate::text::{ends_with_char, is_empty};
use vstd::prelude::*;

verus! {

/// How the bytes of an entry are kept in the archive.
#[derive(Clone, Copy, Debug, PartialEq, Eq, Structural)]
pub enum Compression {
    /// As they are, without compression: size is traded for speed and
    /// robustness.
    Stored,
}

/// The mask that keeps the permission bits of a mode.
pub const PERMISSION_BITS: u32 = 0o777;

/// The permission bits stored for a source of which the platform knows
/// none.
pub const DEFAULT_MODE: u32 = 0o755;

/// The permission bits that are stored for a source: its own, where the
/// platform has such bits.
pub open spec fn stored_mode(mode: Option<u32>) -> u32 {
    match mode {
        Some(bits) => bits & PERMISSION_BITS,
        None => DEFAULT_MODE,
    }
}

/// The options an entry is written with.
#[derive(Clone, Copy, Debug, PartialEq, Eq, Structural)]
pub struct EntryOptions {
    /// How the entry's bytes are kept.
    pub compression: Compression,
    /// The permission bits stored with the entry.
    pub mode: u32,
}

/// The options for the entry of a source with the given mode: it is stored
/// without compression, and it keeps the source's permission bits.
pub open spec fn entry_options(mode: Option<u32>) -> EntryOptions {
    EntryOptions { compression: Compression::Stored, mode: stored_mode(mode) }
}

/// Why a tree was not packed.
#[derive(Clone, Copy, Debug, PartialEq, Eq, Structural)]
pub enum PackError {
    /// The source is not a directory.
    SourceNotFound,
    /// The tree could not be walked or read, or the archive not written.
    PackFailed,
}

/// Something found while walking the source tree.
#[derive(Debug, PartialEq, Eq)]
pub struct TreeEntry {
    /// The path of what was found, the source directory included.
    pub path: String,
    /// Whether it is a regular file.
    pub is_file: bool,
    /// Its mode, where the platform has permission bits.
    pub mode: Option<u32>,
}

/// A tree entry as mathematical values.
pub struct TreeEntryView {
    pub path: Seq<char>,
    pub is_file: bool,
    pub mode: Option<u32>,
}

impl View for TreeEntry {
    type V = TreeEntryView;

    open spec fn view(&self) -> TreeEntryView {
        TreeEntryView { path: self.path@, is_file: self.is_file, mode: self.mode }
    }
}

impl DeepView for TreeEntry {
    type V = TreeEntryView;

    open spec fn deep_view(&self) -> TreeEntryView {
        self@
    }
}

/// One thing to write into the archive.
#[derive(Debug, PartialEq, Eq)]
pub enum PackStep {
    /// Start a file entry called `name` with these options and fill it with
    /// the bytes of the file that the walk found as its entry number
    /// `index`.
    WriteFile { index: usize, name: String, options: EntryOptions },
    /// Add a directory marker called `name` with these options.
    AddDirectory { name: String, options: EntryOptions },
}

/// A pack step as mathematical values.
pub enum PackStepView {
    WriteFile { index: int, name: Seq<char>, options: EntryOptions },
    AddDirectory { name: Seq<char>, options: EntryOptions },
}

impl View for PackStep {
    type V = PackStepView;

    open spec fn view(&self) -> PackStepView {
        match self {
            PackStep::WriteFile { index, name, options } => PackStepView::WriteFile {
                index: *index as int,
                name: name@,
                options: *options,
            },
            PackStep::AddDirectory { name, options } => PackStepView::AddDirectory {
                name: name@,
                options: *options,
            },
        }
    }
}

impl DeepView for PackStep {
    type V = PackStepView;

    open spec fn deep_view(&self) -> PackStepView {
        self@
    }
}

/// What the walk's entry number `index` puts into the archive, given its
/// path relative to the source directory. A file is written under its
/// relative path. Anything else gets a directory marker, but for the source
/// directory itself, whose relative path is empty. Either is stored without
/// compression and keeps the permission bits of its source. An entry with no
/// relative path fails the pack.
pub open spec fn pack_step(
    index: int,
    entry: TreeEntryView,
    relative: Option<Seq<char>>,
) -> Result<Option<PackStepView>, PackError> {
    match relative {
        None => Err(PackError::PackFailed),
        Some(name) => if entry.is_file {
            Ok(Some(PackStepView::WriteFile { index, name, options: entry_options(entry.mode) }))
        } else if name.len() > 0 {
            Ok(Some(PackStepView::AddDirectory { name, options: entry_options(entry.mode) }))
        } else {
            Ok(None)
        },
    }
}

/// What a walk of the tree puts into the archive: the steps of its entries,
/// in the order of the walk.
pub open spec fn pack_steps(
    entries: Seq<TreeEntryView>,
    relatives: Seq<Option<Seq<char>>>,
) -> Result<Seq<PackStepView>, PackError>
    recommends
        entries.len() == relatives.len(),
    decreases entries.len(),
{
    if entries.len() == 0 {
        Ok(Seq::empty())
    } else {
        match pack_steps(entries.drop_last(), relatives.drop_last()) {
            Err(e) => Err(e),
            Ok(steps) => match pack_step(
                entries.len() - 1,
                entries.last(),
                relatives.last(),
            ) {
                Err(e) => Err(e),
                Ok(Some(step)) => Ok(steps.push(step)),
                Ok(None) => Ok(steps),
            },
        }
    }
}

/// The path of every entry of a walk relative to `prefix`, as the platform
/// takes it.
pub open spec fn relatives_of(entries: Seq<TreeEntryView>, prefix: Seq<char>) -> Seq<
    Option<Seq<char>>,
> {
    Seq::new(entries.len(), |i: int| path_relative_to(entries[i].path, prefix))
}

/// What a walk of the tree below `prefix` puts into the archive.
pub open spec fn pack_plan(entries: Seq<TreeEntryView>, prefix: Seq<char>) -> Result<
    Seq<PackStepView>,
    PackError,
> {
    pack_steps(entries, relatives_of(entries, prefix))
}

/// Picks the number of the entry that a step writes as a file.
pub open spec fn written_entry() -> spec_fn(PackStepView) -> Option<int> {
    |step: PackStepView|
        match step {
            PackStepView::WriteFile { index, name, options } => Some(index),
            PackStepView::AddDirectory { name, options } => None,
        }
}

/// The numbers of the entries that a plan writes as files, in the plan's
/// order.
pub open spec fn written(steps: Seq<PackStepView>) -> Seq<int> {
    steps.filter_map(written_entry())
}

/// The numbers of the entries of a walk that are files, in ascending order.
pub open spec fn files_of(entries: Seq<TreeEntryView>) -> Seq<int>
    decreases entries.len(),
{
    if entries.len() == 0 {
        Seq::empty()
    } else if entries.last().is_file {
        files_of(entries.drop_last()).push(entries.len() - 1)
    } else {
        files_of(entries.drop_last())
    }
}

/// However the paths are taken relative to the source directory, a plan
/// writes every file of the walk, each once and in the order of the walk,
/// and it has no more steps than the walk has entries.
pub proof fn lemma_plan_writes_every_file(
    entries: Seq<TreeEntryView>,
    relatives: Seq<Option<Seq<char>>>,
)
    requires
        relatives.len() == entries.len(),
    ensures
        pack_steps(entries, relatives) matches Ok(steps) ==> written(steps) == files_of(entries)
            && steps.len() <= entries.len(),
    decreases entries.len(),
{
    if entries.len() > 0 {
        lemma_plan_writes_every_file(entries.drop_last(), relatives.drop_last());
        if let Ok(steps) = pack_steps(entries, relatives) {
            let before = pack_steps(entries.drop_last(), relatives.drop_last())->Ok_0;
            if steps.len() > before.len() {
                assert(steps.drop_last() =~= before);
            }
        }
    }
}

/// Stored permission bits survive being stored again: what was unpacked
/// with the bits of its source is packed with the same bits the next time.
pub proof fn lemma_stored_mode_is_kept(mode: u32)
    ensures
        stored_mode(Some(stored_mode(Some(mode)))) == stored_mode(Some(mode)),
        stored_mode(Some(mode)) <= PERMISSION_BITS,
{
    assert((mode & 0o777u32) & 0o777u32 == mode & 0o777u32) by (bit_vector);
    assert(mode & 0o777u32 <= 0o777u32) by (bit_vector);
}

/// A plan as mathematical values.
pub open spec fn plan_view(plan: Result<Vec<PackStep>, PackError>) -> Result<
    Seq<PackStepView>,
    PackError,
> {
    match plan {
        Ok(steps) => Ok(steps.deep_view()),
        Err(e) => Err(e),
    }
}

/// One entry's step as mathematical values.
pub open spec fn step_view(step: Result<Option<PackStep>, PackError>) -> Result<
    Option<PackStepView>,
    PackError,
> {
    match step {
        Ok(Some(s)) => Ok(Some(s@)),
        Ok(None) => Ok(None),
        Err(e) => Err(e),
    }
}

/// The options for the entry of a source with the given mode.
pub fn options_for(mode: Option<u32>) -> (options: EntryOptions)
    ensures
        options == entry_options(mode),
{
    let bits = match mode {
        Some(bits) => bits & PERMISSION_BITS,
        None => DEFAULT_MODE,
    };
    EntryOptions { compression: Compression::Stored, mode: bits }
}

/// Decides what the walk's entry number `index` puts into the archive,
/// given its path relative to the source directory.
pub fn pack_entry(index: usize, entry: &TreeEntry, relative: Option<String>) -> (step: Result<
    Option<PackStep>,
    PackError,
>)
    ensures
        step_view(step) == pack_step(index as int, entry@, relative.deep_view()),
{
    match relative {
        None => Err(PackError::PackFailed),
        Some(name) => {
            if entry.is_file {
                Ok(Some(PackStep::WriteFile { index, name, options: options_for(entry.mode) }))
            } else if !is_empty(name.as_str()) {
                Ok(Some(PackStep::AddDirectory { name, options: options_for(entry.mode) }))
            } else {
                Ok(None)
            }
        },
    }
}

/// Plans the archive for a walk of the tree below `prefix`: every file under
/// its path relative to `prefix`, and a marker for every directory but
/// `prefix` itself, each stored without compression and with the permission
/// bits of its source. The platform takes the paths relative to `prefix`; an
/// entry that it does not find below `prefix` fails the pack.
pub fn zip_dir(entries: &Vec<TreeEntry>, prefix: &str) -> (plan: Result<Vec<PackStep>, PackError>)
    ensures
        plan_view(plan) == pack_plan(entries.deep_view(), prefix@),
        plan matches Ok(steps) ==> written(steps.deep_view()) == files_of(entries.deep_view())
            && steps@.len() <= entries@.len(),
{
    let ghost all = relatives_of(entries.deep_view(), prefix@);
    let mut steps: Vec<PackStep> = Vec::new();
    let mut i: usize = 0;
    assert(steps.deep_view() =~= Seq::empty());
    while i < entries.len()
        invariant
            i <= entries@.len(),
            all == relatives_of(entries.deep_view(), prefix@),
            steps@.len() <= i,
            pack_steps(entries.deep_view().take(i as int), all.take(i as int)) == Ok::<
                Seq<PackStepView>,
                PackError,
            >(steps.deep_view()),
        decreases entries@.len() - i,
    {
        let relative = relative_to(entries[i].path.as_str(), prefix);
        let ghost before = steps.deep_view();
        proof {
            assert(entries.deep_view().take(i + 1).drop_last() =~= entries.deep_view().take(
                i as int,
            ));
            assert(all.take(i + 1).drop_last() =~= all.take(i as int));
            assert(all.take(i + 1).last() == relative.deep_view());
        }
        match pack_entry(i, &entries[i], relative) {
            Err(e) => {
                proof {
                    assert(pack_steps(entries.deep_view().take(i + 1), all.take(i + 1)) is Err);
                    lemma_pack_failure_extends(entries.deep_view(), all, i + 1);
                }
                return Err(e);
            },
            Ok(Some(step)) => {
                steps.push(step);
                assert(steps.deep_view() =~= before.push(step@));
            },
            Ok(None) => {},
        }
        i += 1;
    }
    assert(entries.deep_view().take(entries@.len() as int) =~= entries.deep_view());
    assert(all.take(entries@.len() as int) =~= all);
    proof {
        lemma_plan_writes_every_file(entries.deep_view(), all);
    }
    Ok(steps)
}

/// Once the first `n` entries of a walk fail the pack, the whole walk does.
proof fn lemma_pack_failure_extends(
    entries: Seq<TreeEntryView>,
    relatives: Seq<Option<Seq<char>>>,
    n: int,
)
    requires
        relatives.len() == entries.len(),
        0 <= n <= entries.len(),
        pack_steps(entries.take(n), relatives.take(n)) is Err,
    ensures
        pack_steps(entries, relatives) == Err::<Seq<PackStepView>, PackError>(
            PackError::PackFailed,
        ),
    decreases entries.len() - n,
{
    if n == entries.len() {
        assert(entries.take(n) =~= entries);
        assert(relatives.take(n) =~= relatives);
        lemma_pack_error_kind(entries, relatives);
    } else {
        assert(entries.take(n + 1).drop_last() =~= entries.take(n));
        assert(relatives.take(n + 1).drop_last() =~= relatives.take(n));
        lemma_pack_failure_extends(entries, relatives, n + 1);
    }
}

/// The only error a plan can hold is a failed pack.
proof fn lemma_pack_error_kind(entries: Seq<TreeEntryView>, relatives: Seq<Option<Seq<char>>>)
    ensures
        pack_steps(entries, relatives) matches Err(e) ==> e == PackError::PackFailed,
    decreases entries.len(),
{
    if entries.len() > 0 {
        lemma_pack_error_kind(entries.drop_last(), relatives.drop_last());
    }
}

/// What has just happened while a directory is packed.
#[derive(Clone, Copy, Debug, PartialEq, Eq, Structural)]
pub enum PackEvent {
    /// Nothing yet; `source_is_dir` says whether the source is a directory.
    Begin { source_is_dir: bool },
    /// The archive file was made, or not.
    Created(bool),
    /// The source tree was walked; `true` when every entry could be read.
    Walked(bool),
    /// The planned steps were written and the archive finished, or not.
    Written(bool),
    /// What there was of the archive file has been removed, if it could be.
    Discarded,
}

/// What to do next while a directory is packed.
#[derive(Clone, Copy, Debug, PartialEq, Eq, Structural)]
pub enum PackAction {
    /// Make the archive file.
    CreateArchive,
    /// Walk the source tree, the source directory first.
    Walk,
    /// Plan the walk with `zip_dir`, write each step with its options, and
    /// finish the archive.
    WriteEntries,
    /// Remove what there is of the archive file.
    Discard,
    /// Stop: the archive is complete.
    Done,
    /// Stop: there is no archive, and this is why.
    Fail(PackError),
}

/// The step that follows an event of the packing. A source that is no
/// directory ends it at once. Any later failure has the partial archive
/// removed and ends in the one error `PackFailed`.
pub open spec fn pack_action(event: PackEvent) -> PackAction {
    match event {
        PackEvent::Begin { source_is_dir } => if source_is_dir {
            PackAction::CreateArchive
        } else {
            PackAction::Fail(PackError::SourceNotFound)
        },
        PackEvent::Created(ok) => if ok {
            PackAction::Walk
        } else {
            PackAction::Fail(PackError::PackFailed)
        },
        PackEvent::Walked(ok) => if ok {
            PackAction::WriteEntries
        } else {
            PackAction::Discard
        },
        PackEvent::Written(ok) => if ok {
            PackAction::Done
        } else {
            PackAction::Discard
        },
        PackEvent::Discarded => PackAction::Fail(PackError::PackFailed),
    }
}

/// Says what to do next so that the source directory is packed into one
/// archive, complete or not there at all.
pub fn zip_dir_recursively(event: PackEvent) -> (action: PackAction)
    ensures
        action == pack_action(event),
{
    match event {
        PackEvent::Begin { source_is_dir } => {
            if source_is_dir {
                PackAction::CreateArchive
            } else {
                PackAction::Fail(PackError::SourceNotFound)
            }
        },
        PackEvent::Created(ok) => {
            if ok {
                PackAction::Walk
            } else {
                PackAction::Fail(PackError::PackFailed)
            }
        },
        PackEvent::Walked(ok) => {
            if ok {
                PackAction::WriteEntries
            } else {
                PackAction::Discard
            }
        },
        PackEvent::Written(ok) => {
            if ok {
                PackAction::Done
            } else {
                PackAction::Discard
            }
        },
        PackEvent::Discarded => PackAction::Fail(PackError::PackFailed),
    }
}

/// What the disk answers while a directory is packed: one answer for each
/// thing that may be asked of it.
pub struct PackWorld {
    pub source_is_dir: bool,
    pub created: bool,
    pub walked: bool,
    pub written: bool,
}

/// The event with which the disk answers an action.
pub open spec fn pack_answer(world: PackWorld, action: PackAction) -> PackEvent {
    match action {
        PackAction::CreateArchive => PackEvent::Created(world.created),
        PackAction::Walk => PackEvent::Walked(world.walked),
        PackAction::WriteEntries => PackEvent::Written(world.written),
        _ => PackEvent::Discarded,
    }
}

/// Whether an archive file is there after an action, given whether one was
/// there before: making the archive leaves one where it works, and
/// discarding removes it.
pub open spec fn archive_after(world: PackWorld, action: PackAction, before: bool) -> bool {
    match action {
        PackAction::CreateArchive => world.created,
        PackAction::Discard => false,
        _ => before,
    }
}

/// A packing that starts with `event` and is given at most `steps` answers
/// by the disk: the answer that ends it, and whether an archive file is
/// there at the end.
pub open spec fn pack_end(world: PackWorld, event: PackEvent, archive: bool, steps: nat) -> (
    PackAction,
    bool,
)
    decreases steps,
{
    let action = pack_action(event);
    if steps == 0 || action is Done || action is Fail {
        (action, archive)
    } else {
        pack_end(
            world,
            pack_answer(world, action),
            archive_after(world, action, archive),
            (steps - 1) as nat,
        )
    }
}

/// A whole packing, whatever the disk answers, where no archive file was
/// there before: it ends after at most four actions; it ends well exactly
/// when every step worked; and an archive file is left exactly when it ends
/// well, so that there is a complete archive or none.
pub proof fn lemma_pack_leaves_all_or_nothing(world: PackWorld)
    ensures
        ({
            let (end, archive) = pack_end(
                world,
                PackEvent::Begin { source_is_dir: world.source_is_dir },
                false,
                4,
            );
            &&& end is Done || end is Fail
            &&& end is Done <==> world.source_is_dir && world.created && world.walked
                && world.written
            &&& archive <==> end is Done
            &&& !world.source_is_dir ==> end == PackAction::Fail(PackError::SourceNotFound)
            &&& world.source_is_dir && end !is Done ==> end == PackAction::Fail(
                PackError::PackFailed,
            )
        }),
{
    reveal_with_fuel(pack_end, 5);
}

/// What an archive says of one of its entries.
#[derive(Debug, PartialEq, Eq)]
pub struct ArchiveEntry {
    /// The entry's name as the archive records it.
    pub name: String,
    /// The name as a relative path that stays below the directory it is
    /// joined to; `None` where the name cannot be mapped to such a path.
    pub enclosed: Option<String>,
    /// The permission bits stored with the entry, if any.
    pub mode: Option<u32>,
}

/// An archive entry as mathematical values.
pub struct ArchiveEntryView {
    pub name: Seq<char>,
    pub enclosed: Option<Seq<char>>,
    pub mode: Option<u32>,
}

impl View for ArchiveEntry {
    type V = ArchiveEntryView;

    open spec fn view(&self) -> ArchiveEntryView {
        ArchiveEntryView {
            name: self.name@,
            enclosed: self.enclosed.deep_view(),
            mode: self.mode,
        }
    }
}

/// What becomes of an archive entry.
#[derive(Debug, PartialEq, Eq)]
pub enum UnpackStep {
    /// Leave the entry out.
    Skip,
    /// Make the directory at `path`, with its parents, where it is missing;
    /// then apply `mode` where the platform has such bits.
    MakeDirectory { path: String, mode: Option<u32> },
    /// Make the parents of `path` where they are missing and write the
    /// entry's bytes to `path`; then apply `mode` where the platform has
    /// such bits.
    WriteFile { path: String, mode: Option<u32> },
}

/// An unpack step as mathematical values. Paths are relative to the
/// directory the archive lies in.
pub enum UnpackStepView {
    Skip,
    MakeDirectory { path: Seq<char>, mode: Option<u32> },
    WriteFile { path: Seq<char>, mode: Option<u32> },
}

impl View for UnpackStep {
    type V = UnpackStepView;

    open spec fn view(&self) -> UnpackStepView {
        match self {
            UnpackStep::Skip => UnpackStepView::Skip,
            UnpackStep::MakeDirectory { path, mode } => UnpackStepView::MakeDirectory {
                path: path@,
                mode: *mode,
            },
            UnpackStep::WriteFile { path, mode } => UnpackStepView::WriteFile {
                path: path@,
                mode: *mode,
            },
        }
    }
}

/// An entry whose recorded name ends in the separator stands for a
/// directory.
pub open spec fn names_directory(name: Seq<char>) -> bool {
    name.len() > 0 && name.last() == '/'
}

/// What becomes of an entry: one that cannot be mapped to a safe path is
/// skipped, one that stands for a directory has it made, and any other is
/// written as a file. The stored permission bits go with it.
pub open spec fn unpack_step(entry: ArchiveEntryView) -> UnpackStepView {
    match entry.enclosed {
        None => UnpackStepView::Skip,
        Some(path) => if names_directory(entry.name) {
            UnpackStepView::MakeDirectory { path, mode: entry.mode }
        } else {
            UnpackStepView::WriteFile { path, mode: entry.mode }
        },
    }
}

impl PackStepView {
    /// The options a step writes its entry with.
    pub open spec fn options(self) -> EntryOptions {
        match self {
            PackStepView::WriteFile { index, name, options } => options,
            PackStepView::AddDirectory { name, options } => options,
        }
    }
}

impl UnpackStepView {
    /// The mode a step applies to what it makes, if it applies one.
    pub open spec fn mode(self) -> Option<u32> {
        match self {
            UnpackStepView::Skip => None,
            UnpackStepView::MakeDirectory { path, mode } => mode,
            UnpackStepView::WriteFile { path, mode } => mode,
        }
    }
}

/// The permission bits of a source come back when its entry is unpacked:
/// where the archive records for an entry the permission bits that the plan
/// wrote it with, and the entry is not skipped, it is unpacked with a mode
/// whose permission bits are those of the source.
pub proof fn lemma_unpacked_bits_are_the_source_bits(
    index: int,
    source: TreeEntryView,
    relative: Option<Seq<char>>,
    archived: ArchiveEntryView,
)
    requires
        pack_step(index, source, relative) matches Ok(Some(step)) && archived.mode matches Some(
            mode,
        ) && mode & PERMISSION_BITS == step.options().mode,
        archived.enclosed is Some,
    ensures
        unpack_step(archived).mode() matches Some(mode) && mode & PERMISSION_BITS == stored_mode(
            source.mode,
        ),
{
}

/// Decides what becomes of one archive entry.
pub fn unpack_entry(entry: &ArchiveEntry) -> (step: UnpackStep)
    ensures
        step@ == unpack_step(entry@),
{
    match &entry.enclosed {
        None => UnpackStep::Skip,
        Some(path) => {
            if ends_with_char(entry.name.as_str(), '/') {
                UnpackStep::MakeDirectory { path: path.clone(), mode: entry.mode }
            } else {
                UnpackStep::WriteFile { path: path.clone(), mode: entry.mode }
            }
        },
    }
}

/// Why an archive was not unpacked.
#[derive(Clone, Copy, Debug, PartialEq, Eq, Structural)]
pub enum UnpackError {
    /// The archive's path could not be resolved.
    NotResolved,
    /// Nothing exists at the resolved path.
    NotFound,
    /// The resolved path has no parent directory to unpack into.
    NoParent,
    /// The archive could not be opened or is not a valid archive.
    Unreadable,
    /// The archive was read to its end, and some entries could not be
    /// unpacked.
    EntriesFailed,
}

/// What has just happened while an archive is unpacked.
#[derive(Clone, Copy, Debug, PartialEq, Eq, Structural)]
pub enum UnpackEvent {
    /// Nothing yet.
    Begin,
    /// The archive's path was resolved, or not.
    Resolved(bool),
    /// The resolved path was looked up on disk; `true` when it exists.
    Found(bool),
    /// The parent directory of the resolved path was asked for; `true`
    /// when it has one.
    Destination(bool),
    /// The archive was opened and its directory read, or not.
    Opened(bool),
    /// Every entry was taken in turn; `failures` of them could not be
    /// unpacked.
    Extracted { failures: usize },
}

/// What to do next while an archive is unpacked.
#[derive(Clone, Copy, Debug, PartialEq, Eq, Structural)]
pub enum UnpackAction {
    /// Resolve the archive's path to its absolute form.
    Resolve,
    /// Look the resolved path up on disk.
    Find,
    /// Take the parent directory of the resolved path: the archive is
    /// unpacked into the directory it lies in.
    FindDestination,
    /// Open the archive.
    Open,
    /// Take every entry in turn: ask `unpack_entry` what becomes of it, do
    /// that below the destination, and go on to the next whether or not it
    /// could be done.
    Extract,
    /// Stop: every entry is unpacked or was skipped.
    Done,
    /// Stop, and this is why.
    Fail(UnpackError),
}

/// The step that follows an event of the unpacking. Failures before the
/// first entry end it at once; a failure of an entry does not keep the
/// other entries from being unpacked, and is reported at the end.
pub open spec fn unpack_action(event: UnpackEvent) -> UnpackAction {
    match event {
        UnpackEvent::Begin => UnpackAction::Resolve,
        UnpackEvent::Resolved(ok) => if ok {
            UnpackAction::Find
        } else {
            UnpackAction::Fail(UnpackError::NotResolved)
        },
        UnpackEvent::Found(ok) => if ok {
            UnpackAction::FindDestination
        } else {
            UnpackAction::Fail(UnpackError::NotFound)
        },
        UnpackEvent::Destination(ok) => if ok {
            UnpackAction::Open
        } else {
            UnpackAction::Fail(UnpackError::NoParent)
        },
        UnpackEvent::Opened(ok) => if ok {
            UnpackAction::Extract
        } else {
            UnpackAction::Fail(UnpackError::Unreadable)
        },
        UnpackEvent::Extracted { failures } => if failures == 0 {
            UnpackAction::Done
        } else {
            UnpackAction::Fail(UnpackError::EntriesFailed)
        },
    }
}

/// Says what to do next so that an archive is unpacked into the directory
/// it lies in.
pub fn unzip_file(event: UnpackEvent) -> (action: UnpackAction)
    ensures
        action == unpack_action(event),
{
    match event {
        UnpackEvent::Begin => UnpackAction::Resolve,
        UnpackEvent::Resolved(ok) => {
            if ok {
                UnpackAction::Find
            } else {
                UnpackAction::Fail(UnpackError::NotResolved)
            }
        },
        UnpackEvent::Found(ok) => {
            if ok {
                UnpackAction::FindDestination
            } else {
                UnpackAction::Fail(UnpackError::NotFound)
            }
        },
        UnpackEvent::Destination(ok) => {
            if ok {
                UnpackAction::Open
            } else {
                UnpackAction::Fail(UnpackError::NoParent)
            }
        },
        UnpackEvent::Opened(ok) => {
            if ok {
                UnpackAction::Extract
            } else {
                UnpackAction::Fail(UnpackError::Unreadable)
            }
        },
        UnpackEvent::Extracted { failures } => {
            if failures == 0 {
                UnpackAction::Done
            } else {
                UnpackAction::Fail(UnpackError::EntriesFailed)
            }
        },
    }
}

} // verus!
