//! The restore record, the unit of cacheable state, and the two enumerations
//! that accompany it.

use vstd::prelude::*;
use vstd::string::*;

verus! {

/// Whether a cached object is a directory or a single file. Fixed when the
/// record is made.
#[derive(Clone, Copy, Debug, PartialEq, Eq, Structural)]
pub enum CacheType {
    Directory,
    File,
}

/// The family of operating system the tool runs on.
#[derive(Clone, Copy, Debug, PartialEq, Eq, Structural)]
pub enum OsType {
    Windows,
    Unix,
    Unknown,
}

impl OsType {
    /// The system found from the two platform flags: Windows wins over Unix,
    /// and neither gives `Unknown`.
    pub open spec fn detect(windows: bool, unix: bool) -> OsType {
        if windows {
            OsType::Windows
        } else if unix {
            OsType::Unix
        } else {
            OsType::Unknown
        }
    }

    /// The name of a supported system, as it appears in archive names.
    pub open spec fn label(self) -> Seq<char>
        recommends
            self != OsType::Unknown,
    {
        match self {
            OsType::Windows => "Windows"@,
            OsType::Unix => "Unix"@,
            OsType::Unknown => Seq::empty(),
        }
    }

    /// The system's name as text. An unknown system has no name.
    pub fn to_string(&self) -> (name: String)
        requires
            *self != OsType::Unknown,
        ensures
            name@ == self.label(),
    {
        match self {
            OsType::Windows => "Windows".to_string(),
            _ => "Unix".to_string(),
        }
    }

    /// The system this build targets, given whether it is a Windows build and
    /// whether it is a Unix build.
    pub fn get_ostype(windows: bool, unix: bool) -> (os: OsType)
        ensures
            os == OsType::detect(windows, unix),
    {
        if windows {
            OsType::Windows
        } else if unix {
            OsType::Unix
        } else {
            OsType::Unknown
        }
    }
}

/// The character that joins a parent directory and a name into a path.
pub open spec fn separator() -> Seq<char> {
    "/"@
}

/// The staging directory followed by the separator.
pub open spec fn staging_prefix() -> Seq<char> {
    ".cache/"@
}

/// What a restore record says, as mathematical values.
pub struct RestoreRecord {
    pub name: Seq<char>,
    pub kind: CacheType,
    pub restore_to: Seq<char>,
}

impl RestoreRecord {
    /// The name is a single path component: not empty, and free of the
    /// separator.
    pub open spec fn well_formed(self) -> bool {
        self.name.len() > 0 && !self.name.contains('/')
    }

    /// Where the object lived, and where a restore puts it back: the parent
    /// directory, the separator, the name.
    pub open spec fn full_path(self) -> Seq<char> {
        self.restore_to + separator() + self.name
    }

    /// Where the object's copy lies in staging. It depends on the name alone:
    /// staging is flat.
    pub open spec fn staged_path(self) -> Seq<char> {
        staging_prefix() + self.name
    }
}

/// One cacheable file or directory: its base name, its kind, and the parent
/// directory it is copied back into.
#[derive(Debug, PartialEq, Eq)]
pub struct RestoreData {
    pub(crate) restore_obj_name: String,
    pub(crate) cachetype: CacheType,
    pub(crate) restore_to: String,
}

impl View for RestoreData {
    type V = RestoreRecord;

    closed spec fn view(&self) -> RestoreRecord {
        RestoreRecord {
            name: self.restore_obj_name@,
            kind: self.cachetype,
            restore_to: self.restore_to@,
        }
    }
}

impl DeepView for RestoreData {
    type V = RestoreRecord;

    open spec fn deep_view(&self) -> RestoreRecord {
        self@
    }
}

impl Clone for RestoreData {
    fn clone(&self) -> (copy: Self)
        ensures
            copy == *self,
    {
        RestoreData {
            restore_obj_name: self.restore_obj_name.clone(),
            cachetype: self.cachetype,
            restore_to: self.restore_to.clone(),
        }
    }
}

impl RestoreData {
    /// A record with the given name, kind and parent directory.
    pub fn new(name: String, kind: CacheType, restore_to: String) -> (record: RestoreData)
        ensures
            record@ == (RestoreRecord { name: name@, kind, restore_to: restore_to@ }),
    {
        RestoreData { restore_obj_name: name, cachetype: kind, restore_to }
    }

    /// The base name of the cached object.
    pub fn name(&self) -> (name: &str)
        ensures
            name@ == self@.name,
    {
        self.restore_obj_name.as_str()
    }

    /// The kind of the cached object.
    pub fn kind(&self) -> (kind: CacheType)
        ensures
            kind == self@.kind,
    {
        self.cachetype
    }

    /// The directory the object is copied back into.
    pub fn restore_to(&self) -> (parent: &str)
        ensures
            parent@ == self@.restore_to,
    {
        self.restore_to.as_str()
    }

    /// Whether the name is a single path component.
    pub fn is_well_formed(&self) -> (ok: bool)
        ensures
            ok == self@.well_formed(),
    {
        !crate::text::is_empty(self.restore_obj_name.as_str()) && !crate::text::contains_char(
            self.restore_obj_name.as_str(),
            '/',
        )
    }

    /// The path the object is restored to.
    pub fn full_path(&self) -> (path: String)
        ensures
            path@ == self@.full_path(),
    {
        let mut path = self.restore_to.clone();
        path.append("/");
        path.append(self.restore_obj_name.as_str());
        path
    }

    /// The path of the object's copy in staging, relative to the working
    /// directory.
    pub fn staged_path(&self) -> (path: String)
        ensures
            path@ == self@.staged_path(),
    {
        crate::text::joined(".cache/", self.restore_obj_name.as_str())
    }
}

/// A copy to make, as mathematical values.
pub struct CopyJobView {
    pub kind: CacheType,
    pub from: Seq<char>,
    pub to: Seq<char>,
    pub keep_permissions: bool,
}

/// A copy to make: of a whole tree where the kind is a directory, of one
/// file where it is a file.
#[derive(Debug, PartialEq, Eq)]
pub struct CopyJob {
    /// What is copied: a whole tree or one file.
    pub kind: CacheType,
    /// Where it is copied from.
    pub from: String,
    /// Where it is copied to.
    pub to: String,
    /// Whether the copy is given the permission bits of what is copied.
    pub keep_permissions: bool,
}

impl View for CopyJob {
    type V = CopyJobView;

    open spec fn view(&self) -> CopyJobView {
        CopyJobView {
            kind: self.kind,
            from: self.from@,
            to: self.to@,
            keep_permissions: self.keep_permissions,
        }
    }
}

impl DeepView for CopyJob {
    type V = CopyJobView;

    open spec fn deep_view(&self) -> CopyJobView {
        self@
    }
}

} // verus!
