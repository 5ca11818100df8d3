//! The path classifier: from a source path and what the file system reports
//! of it to a restore record, or to the reason there is none.

use crate::model::{CacheType, RestoreData, RestoreRecord};
use crate::path::{file_name_of, parent_of, path_file_name, path_parent};
use crate::text::{contains_char, is_empty};
use vstd::prelude::*;

verus! {

/// Why a source path yields no record.
#[derive(Clone, Copy, Debug, PartialEq, Eq, Structural)]
pub enum ClassifyError {
    /// Nothing exists at the path.
    NotFound,
    /// What exists there is of the other kind.
    KindMismatch,
    /// The path has no parent directory, as a file system root has none.
    NoParent,
    /// The path does not end in a name that is a single component.
    NoName,
}

/// What the file system reports of a path.
#[derive(Clone, Copy, Debug, PartialEq, Eq, Structural)]
pub struct PathFacts {
    /// The path's metadata can be read.
    pub exists: bool,
    /// The path is a directory.
    pub is_dir: bool,
    /// The path is a regular file.
    pub is_file: bool,
}

/// The path that is classified: the resolved form where resolution
/// succeeded, the raw string where it did not.
pub open spec fn effective(raw: Seq<char>, resolved: Option<Seq<char>>) -> Seq<char> {
    match resolved {
        Some(path) => path,
        None => raw,
    }
}

/// What is on disk contradicts the expected kind: a directory where a file
/// is expected, or a file where a directory is expected.
pub open spec fn kind_conflict(expected: CacheType, facts: PathFacts) -> bool {
    match expected {
        CacheType::File => facts.is_dir,
        CacheType::Directory => facts.is_file,
    }
}

/// A name that can stand in a record: not empty and free of the separator.
pub open spec fn usable_name(name: Option<Seq<char>>) -> bool {
    name matches Some(n) && n.len() > 0 && !n.contains('/')
}

/// The classification of a path from the expected kind, the facts on disk,
/// and the parent and final component of the path. The checks come in this
/// order: existence, kind, parent, name.
pub open spec fn classification(
    expected: CacheType,
    facts: PathFacts,
    parent: Option<Seq<char>>,
    name: Option<Seq<char>>,
) -> Result<RestoreRecord, ClassifyError> {
    if !facts.exists {
        Err(ClassifyError::NotFound)
    } else if kind_conflict(expected, facts) {
        Err(ClassifyError::KindMismatch)
    } else if parent is None {
        Err(ClassifyError::NoParent)
    } else if !usable_name(name) {
        Err(ClassifyError::NoName)
    } else {
        Ok(RestoreRecord { name: name->0, kind: expected, restore_to: parent->0 })
    }
}

/// The outcome of a classification, seen as mathematical values.
pub open spec fn outcome_view(outcome: Result<RestoreData, ClassifyError>) -> Result<
    RestoreRecord,
    ClassifyError,
> {
    match outcome {
        Ok(record) => Ok(record@),
        Err(e) => Err(e),
    }
}

/// The classification of `path` as the platform splits it: its parent and
/// its final component are the ones the standard library finds.
pub open spec fn path_classification(
    expected: CacheType,
    path: Seq<char>,
    facts: PathFacts,
) -> Result<RestoreRecord, ClassifyError> {
    classification(expected, facts, path_parent(path), path_file_name(path))
}

/// However a path is split, the facts on disk come first: what is not there
/// is not found, what is of the other kind is a mismatch and is never taken
/// for the expected kind, and a record is given only of what exists without
/// such a mismatch, with the expected kind and a name of one component.
pub proof fn lemma_facts_decide_first(
    expected: CacheType,
    facts: PathFacts,
    parent: Option<Seq<char>>,
    name: Option<Seq<char>>,
)
    ensures
        !facts.exists ==> classification(expected, facts, parent, name) == Err::<
            RestoreRecord,
            ClassifyError,
        >(ClassifyError::NotFound),
        facts.exists && kind_conflict(expected, facts) ==> classification(
            expected,
            facts,
            parent,
            name,
        ) == Err::<RestoreRecord, ClassifyError>(ClassifyError::KindMismatch),
        classification(expected, facts, parent, name) matches Ok(record) ==> facts.exists
            && !kind_conflict(expected, facts) && record.kind == expected
            && record.well_formed() && parent == Some(record.restore_to) && name == Some(
            record.name,
        ),
{
}

/// Step one of the classifier: the resolved path where there is one, else
/// the raw string unchanged.
pub fn effective_path(raw: &str, resolved: Option<String>) -> (path: String)
    ensures
        path@ == effective(raw@, resolved.deep_view()),
{
    match resolved {
        Some(path) => path,
        None => raw.to_string(),
    }
}

/// Classifies a path whose parent and final component are given.
pub fn classify(
    expected: CacheType,
    facts: PathFacts,
    parent: Option<String>,
    name: Option<String>,
) -> (outcome: Result<RestoreData, ClassifyError>)
    ensures
        outcome_view(outcome) == classification(
            expected,
            facts,
            parent.deep_view(),
            name.deep_view(),
        ),
{
    if !facts.exists {
        return Err(ClassifyError::NotFound);
    }
    let conflict = match expected {
        CacheType::File => facts.is_dir,
        CacheType::Directory => facts.is_file,
    };
    if conflict {
        return Err(ClassifyError::KindMismatch);
    }
    let restore_to = match parent {
        Some(p) => p,
        None => {
            return Err(ClassifyError::NoParent);
        },
    };
    match name {
        Some(n) => {
            if is_empty(n.as_str()) || contains_char(n.as_str(), '/') {
                Err(ClassifyError::NoName)
            } else {
                Ok(RestoreData::new(n, expected, restore_to))
            }
        },
        None => Err(ClassifyError::NoName),
    }
}

/// Classifies `path` as a source of the expected kind. The platform splits
/// the path into parent and final component.
pub fn classify_path(expected: CacheType, path: &str, facts: PathFacts) -> (outcome: Result<
    RestoreData,
    ClassifyError,
>)
    ensures
        outcome_view(outcome) == path_classification(expected, path@, facts),
        !facts.exists ==> outcome == Err::<RestoreData, ClassifyError>(ClassifyError::NotFound),
        facts.exists && kind_conflict(expected, facts) ==> outcome == Err::<
            RestoreData,
            ClassifyError,
        >(ClassifyError::KindMismatch),
        outcome matches Ok(record) ==> record@.kind == expected && record@.well_formed(),
{
    let parent = parent_of(path);
    let name = file_name_of(path);
    classify(expected, facts, parent, name)
}

/// The record for a file at `file`, a path that is already resolved.
pub fn generate_storage_data_file_from_pathbuf(file: &str, facts: PathFacts) -> (outcome: Result<
    RestoreData,
    ClassifyError,
>)
    ensures
        outcome_view(outcome) == path_classification(CacheType::File, file@, facts),
        !facts.exists ==> outcome == Err::<RestoreData, ClassifyError>(ClassifyError::NotFound),
        facts.exists && facts.is_dir ==> outcome == Err::<RestoreData, ClassifyError>(
            ClassifyError::KindMismatch,
        ),
        outcome matches Ok(record) ==> record@.kind == CacheType::File && record@.well_formed(),
{
    classify_path(CacheType::File, file, facts)
}

/// The record for a directory at `dir`, a path that is already resolved.
pub fn generate_storage_data_directory_from_pathbuf(dir: &str, facts: PathFacts) -> (outcome:
    Result<RestoreData, ClassifyError>)
    ensures
        outcome_view(outcome) == path_classification(CacheType::Directory, dir@, facts),
        !facts.exists ==> outcome == Err::<RestoreData, ClassifyError>(ClassifyError::NotFound),
        facts.exists && facts.is_file ==> outcome == Err::<RestoreData, ClassifyError>(
            ClassifyError::KindMismatch,
        ),
        outcome matches Ok(record) ==> record@.kind == CacheType::Directory
            && record@.well_formed(),
{
    classify_path(CacheType::Directory, dir, facts)
}

/// The record for the file that the source string `file` names. `resolved`
/// is the normalized absolute form of `file`, where it could be had, and
/// `facts` are those of the path that `effective_path` gives for the two.
pub fn generate_storage_data_file_from_pathstr(
    file: &str,
    resolved: Option<String>,
    facts: PathFacts,
) -> (outcome: Result<RestoreData, ClassifyError>)
    ensures
        outcome_view(outcome) == path_classification(
            CacheType::File,
            effective(file@, resolved.deep_view()),
            facts,
        ),
        !facts.exists ==> outcome == Err::<RestoreData, ClassifyError>(ClassifyError::NotFound),
        facts.exists && facts.is_dir ==> outcome == Err::<RestoreData, ClassifyError>(
            ClassifyError::KindMismatch,
        ),
        outcome matches Ok(record) ==> record@.kind == CacheType::File && record@.well_formed(),
{
    let path = effective_path(file, resolved);
    generate_storage_data_file_from_pathbuf(path.as_str(), facts)
}

/// The record for the directory that the source string `directory` names.
/// `resolved` is the normalized absolute form of `directory`, where it could
/// be had, and `facts` are those of the path that `effective_path` gives for
/// the two.
pub fn generate_storage_data_directory_from_pathstr(
    directory: &str,
    resolved: Option<String>,
    facts: PathFacts,
) -> (outcome: Result<RestoreData, ClassifyError>)
    ensures
        outcome_view(outcome) == path_classification(
            CacheType::Directory,
            effective(directory@, resolved.deep_view()),
            facts,
        ),
        !facts.exists ==> outcome == Err::<RestoreData, ClassifyError>(ClassifyError::NotFound),
        facts.exists && facts.is_file ==> outcome == Err::<RestoreData, ClassifyError>(
            ClassifyError::KindMismatch,
        ),
        outcome matches Ok(record) ==> record@.kind == CacheType::Directory
            && record@.well_formed(),
{
    let path = effective_path(directory, resolved);
    generate_storage_data_directory_from_pathbuf(path.as_str(), facts)
}

} // verus!
