//! The download phase: fetch the archive of this system and branch into a
//! fresh staging directory and unpack it there. The functions say which
//! step comes next; the requests and the file operations are made elsewhere.

use crate::remote::{
    Method, RemoteStore, RemoteStoreView, Request, RequestView, STATUS_ACCEPTED, STATUS_CONFLICT,
    STATUS_CREATED, STATUS_FORBIDDEN, STATUS_NOT_FOUND, STATUS_OK,
};
use vstd::prelude::*;

verus! {

/// Why the archive was not fetched.
#[derive(Clone, Copy, Debug, PartialEq, Eq, Structural)]
pub enum DownloadError {
    /// A staging directory is already there; it is left as it is.
    StagingExists,
    /// The staging directory could not be made.
    StagingNotCreated,
    /// The request brought no response.
    RequestFailed,
    /// The server forbids reading the archive.
    Forbidden,
    /// The server has no archive for this system and branch. This is the
    /// expected state before the first backup.
    NotFound,
    /// The server reports a conflict.
    Conflict,
    /// The server answered with a status that is not handled.
    UnexpectedStatus,
    /// The local archive file could not be made.
    FileNotCreated,
    /// The body of the response could not be read.
    BodyUnreadable,
    /// The body could not be written to the local archive file.
    WriteFailed,
}

/// What has just happened while the archive is fetched.
#[derive(Clone, Copy, Debug, PartialEq, Eq, Structural)]
pub enum DownloadEvent {
    /// Nothing yet; `staging_exists` says whether a staging directory is
    /// there.
    Begin { staging_exists: bool },
    /// The staging directory was made, or not.
    StagingCreated(bool),
    /// The archive was asked for. `None`: no response; else the status of
    /// the response.
    Replied(Option<u16>),
    /// The local archive file was made, or not.
    FileCreated(bool),
    /// The body of the response was read, or not.
    BodyRead(bool),
    /// The body was written to the local archive file, or not.
    Written(bool),
}

/// What to do next while the archive is fetched.
#[derive(Clone, Copy, Debug, PartialEq, Eq, Structural)]
pub enum DownloadAction {
    /// Make the staging directory.
    CreateStaging,
    /// Ask the server for the archive.
    Fetch,
    /// Make the local archive file, inside staging.
    CreateFile,
    /// Read the body of the response.
    ReadBody,
    /// Write the body to the local archive file.
    WriteFile,
    /// Stop: the archive lies in the local archive file.
    Done,
    /// Stop: there is no local archive, and this is why.
    Fail(DownloadError),
}

/// What the status of the server's response means for the download: `None`
/// where the body is the archive, else the error.
pub open spec fn status_error(status: u16) -> Option<DownloadError> {
    if status == STATUS_FORBIDDEN {
        Some(DownloadError::Forbidden)
    } else if status == STATUS_NOT_FOUND {
        Some(DownloadError::NotFound)
    } else if status == STATUS_ACCEPTED || status == STATUS_OK || status == STATUS_CREATED {
        None
    } else if status == STATUS_CONFLICT {
        Some(DownloadError::Conflict)
    } else {
        Some(DownloadError::UnexpectedStatus)
    }
}

/// The step that follows an event of the download. An existing staging
/// directory ends it at once; after that each step follows the success of
/// the one before, and the first failure ends it.
pub open spec fn download_action(event: DownloadEvent) -> DownloadAction {
    match event {
        DownloadEvent::Begin { staging_exists } => if staging_exists {
            DownloadAction::Fail(DownloadError::StagingExists)
        } else {
            DownloadAction::CreateStaging
        },
        DownloadEvent::StagingCreated(ok) => if ok {
            DownloadAction::Fetch
        } else {
            DownloadAction::Fail(DownloadError::StagingNotCreated)
        },
        DownloadEvent::Replied(None) => DownloadAction::Fail(DownloadError::RequestFailed),
        DownloadEvent::Replied(Some(status)) => match status_error(status) {
            Some(e) => DownloadAction::Fail(e),
            None => DownloadAction::CreateFile,
        },
        DownloadEvent::FileCreated(ok) => if ok {
            DownloadAction::ReadBody
        } else {
            DownloadAction::Fail(DownloadError::FileNotCreated)
        },
        DownloadEvent::BodyRead(ok) => if ok {
            DownloadAction::WriteFile
        } else {
            DownloadAction::Fail(DownloadError::BodyUnreadable)
        },
        DownloadEvent::Written(ok) => if ok {
            DownloadAction::Done
        } else {
            DownloadAction::Fail(DownloadError::WriteFailed)
        },
    }
}

/// Reads the status of the server's response to the request for the
/// archive.
pub fn check_download_status(status: u16) -> (error: Option<DownloadError>)
    ensures
        error == status_error(status),
{
    if status == STATUS_FORBIDDEN {
        Some(DownloadError::Forbidden)
    } else if status == STATUS_NOT_FOUND {
        Some(DownloadError::NotFound)
    } else if status == STATUS_ACCEPTED || status == STATUS_OK || status == STATUS_CREATED {
        None
    } else if status == STATUS_CONFLICT {
        Some(DownloadError::Conflict)
    } else {
        Some(DownloadError::UnexpectedStatus)
    }
}

/// Says what to do next so that the archive lies in staging. Start with
/// `Begin`, do what is returned, and come back with what happened, until the
/// answer is `Done` or `Fail`. `request_for_fetch` gives the request that an
/// action makes, and `file_for_fetch` the file that it works on.
pub fn download_files_from_webdav(event: DownloadEvent) -> (action: DownloadAction)
    ensures
        action == download_action(event),
{
    match event {
        DownloadEvent::Begin { staging_exists } => {
            if staging_exists {
                DownloadAction::Fail(DownloadError::StagingExists)
            } else {
                DownloadAction::CreateStaging
            }
        },
        DownloadEvent::StagingCreated(ok) => {
            if ok {
                DownloadAction::Fetch
            } else {
                DownloadAction::Fail(DownloadError::StagingNotCreated)
            }
        },
        DownloadEvent::Replied(None) => DownloadAction::Fail(DownloadError::RequestFailed),
        DownloadEvent::Replied(Some(status)) => {
            match check_download_status(status) {
                Some(e) => DownloadAction::Fail(e),
                None => DownloadAction::CreateFile,
            }
        },
        DownloadEvent::FileCreated(ok) => {
            if ok {
                DownloadAction::ReadBody
            } else {
                DownloadAction::Fail(DownloadError::FileNotCreated)
            }
        },
        DownloadEvent::BodyRead(ok) => {
            if ok {
                DownloadAction::WriteFile
            } else {
                DownloadAction::Fail(DownloadError::BodyUnreadable)
            }
        },
        DownloadEvent::Written(ok) => {
            if ok {
                DownloadAction::Done
            } else {
                DownloadAction::Fail(DownloadError::WriteFailed)
            }
        },
    }
}

/// The request that an action of the fetch makes of the server: the archive
/// is fetched from its address.
pub open spec fn fetch_request(store: RemoteStoreView, action: DownloadAction) -> Option<
    RequestView,
> {
    match action {
        DownloadAction::Fetch => Some(
            RequestView { method: Method::Get, url: store.archive_url() },
        ),
        _ => None,
    }
}

/// The file that an action of the fetch works on: the local archive file,
/// which lies in staging under the archive's name.
pub open spec fn fetch_file(store: RemoteStoreView, action: DownloadAction) -> Option<Seq<char>> {
    match action {
        DownloadAction::CreateFile | DownloadAction::WriteFile => Some(store.local_archive()),
        _ => None,
    }
}

/// The request that an action of the fetch makes of the server, if it makes
/// one.
pub fn request_for_fetch(store: &RemoteStore, action: DownloadAction) -> (request: Option<Request>)
    ensures
        request.deep_view() == fetch_request(store@, action),
{
    match action {
        DownloadAction::Fetch => Some(Request { method: Method::Get, url: store.archive_url() }),
        _ => None,
    }
}

/// The file that an action of the fetch works on, if it works on one.
pub fn file_for_fetch(store: &RemoteStore, action: DownloadAction) -> (path: Option<String>)
    ensures
        path.deep_view() == fetch_file(store@, action),
{
    match action {
        DownloadAction::CreateFile | DownloadAction::WriteFile => Some(store.local_archive_path()),
        _ => None,
    }
}

/// What the disk and the server answer while the archive is fetched: one
/// answer for each thing that may be asked of them.
pub struct FetchWorld {
    pub staging_exists: bool,
    pub staging_created: bool,
    pub reply: Option<u16>,
    pub file_created: bool,
    pub body_read: bool,
    pub written: bool,
}

/// The event with which the world answers an action.
pub open spec fn fetch_answer(world: FetchWorld, action: DownloadAction) -> DownloadEvent {
    match action {
        DownloadAction::CreateStaging => DownloadEvent::StagingCreated(world.staging_created),
        DownloadAction::Fetch => DownloadEvent::Replied(world.reply),
        DownloadAction::CreateFile => DownloadEvent::FileCreated(world.file_created),
        DownloadAction::ReadBody => DownloadEvent::BodyRead(world.body_read),
        _ => DownloadEvent::Written(world.written),
    }
}

/// A fetch that starts with `event`, after the actions `done` were carried
/// out, and is given at most `steps` answers by the world: the answer that
/// ends it, and the actions that were carried out, in their order.
pub open spec fn fetch_end(
    world: FetchWorld,
    event: DownloadEvent,
    done: Seq<DownloadAction>,
    steps: nat,
) -> (DownloadAction, Seq<DownloadAction>)
    decreases steps,
{
    let action = download_action(event);
    if steps == 0 || action is Done || action is Fail {
        (action, done)
    } else {
        fetch_end(world, fetch_answer(world, action), done.push(action), (steps - 1) as nat)
    }
}

/// The actions of a fetch in which every step works.
pub open spec fn fetch_steps() -> Seq<DownloadAction> {
    seq![
        DownloadAction::CreateStaging,
        DownloadAction::Fetch,
        DownloadAction::CreateFile,
        DownloadAction::ReadBody,
        DownloadAction::WriteFile,
    ]
}

/// A whole fetch, whatever the world answers: it ends after at most five
/// actions, which are the first of the five steps in their order; it ends
/// well exactly when no staging directory was in the way and every step
/// worked; a staging directory in the way ends it before anything is done;
/// and the server is asked only once the staging directory was made.
pub proof fn lemma_fetch_ends_at_the_first_failure(world: FetchWorld)
    ensures
        ({
            let (end, done) = fetch_end(
                world,
                DownloadEvent::Begin { staging_exists: world.staging_exists },
                Seq::empty(),
                5,
            );
            &&& end is Done || end is Fail
            &&& done.is_prefix_of(fetch_steps())
            &&& end is Done <==> {
                &&& !world.staging_exists
                &&& world.staging_created
                &&& world.reply matches Some(status) && status_error(status) is None
                &&& world.file_created
                &&& world.body_read
                &&& world.written
            }
            &&& end is Done ==> done == fetch_steps()
            &&& world.staging_exists ==> end == DownloadAction::Fail(DownloadError::StagingExists)
                && done.len() == 0
            &&& done.contains(DownloadAction::Fetch) ==> !world.staging_exists
                && world.staging_created
            &&& !world.staging_exists && world.staging_created && world.reply == Some(
                STATUS_NOT_FOUND,
            ) ==> end == DownloadAction::Fail(DownloadError::NotFound)
        }),
{
    reveal_with_fuel(fetch_end, 6);
}

/// What has just happened while the fetched archive is unpacked.
#[derive(Clone, Copy, Debug, PartialEq, Eq, Structural)]
pub enum UnzipEvent {
    /// Nothing yet.
    Begin,
    /// The archive was unpacked, or not.
    Unpacked(bool),
    /// The archive file was removed, or not.
    Removed(bool),
}

/// What to do next while the fetched archive is unpacked.
#[derive(Clone, Copy, Debug, PartialEq, Eq, Structural)]
pub enum UnzipAction {
    /// Unpack the local archive file into the directory it lies in.
    Unpack,
    /// Remove the local archive file.
    RemoveArchive,
    /// Stop: the archive's content lies in staging.
    Done,
    /// Stop: the archive could not be unpacked.
    Fail,
}

/// The step that follows an event of the unpacking. A failure to remove the
/// archive file is not an error.
pub open spec fn unzip_action(event: UnzipEvent) -> UnzipAction {
    match event {
        UnzipEvent::Begin => UnzipAction::Unpack,
        UnzipEvent::Unpacked(ok) => if ok {
            UnzipAction::RemoveArchive
        } else {
            UnzipAction::Fail
        },
        UnzipEvent::Removed(_) => UnzipAction::Done,
    }
}

/// Says what to do next so that the fetched archive is unpacked and its
/// file is gone.
pub fn unzip_and_del(event: UnzipEvent) -> (action: UnzipAction)
    ensures
        action == unzip_action(event),
{
    match event {
        UnzipEvent::Begin => UnzipAction::Unpack,
        UnzipEvent::Unpacked(ok) => {
            if ok {
                UnzipAction::RemoveArchive
            } else {
                UnzipAction::Fail
            }
        },
        UnzipEvent::Removed(_) => UnzipAction::Done,
    }
}

/// Why the download phase failed.
#[derive(Clone, Copy, Debug, PartialEq, Eq, Structural)]
pub enum DownloadFailure {
    /// The archive was not fetched.
    Fetch(DownloadError),
    /// The archive was fetched and could not be unpacked.
    Unpack,
}

impl DownloadFailure {
    /// The exit code of the download phase for a failure. An archive that
    /// the server does not have is no fault and gives 0.
    pub open spec fn code(self) -> int {
        match self {
            DownloadFailure::Fetch(DownloadError::NotFound) => 0,
            DownloadFailure::Fetch(_) => 22,
            DownloadFailure::Unpack => 23,
        }
    }

    /// The exit code of the download phase for a failure.
    pub fn exit_code(&self) -> (code: i32)
        ensures
            code == self.code(),
            code == 0 <==> *self == DownloadFailure::Fetch(DownloadError::NotFound),
    {
        match self {
            DownloadFailure::Fetch(DownloadError::NotFound) => 0,
            DownloadFailure::Fetch(_) => 22,
            DownloadFailure::Unpack => 23,
        }
    }
}

/// What has just happened during the download phase.
#[derive(Clone, Copy, Debug, PartialEq, Eq, Structural)]
pub enum DownloadRunEvent {
    /// Nothing yet.
    Begin,
    /// The archive was fetched (`None`), or was not and this is why.
    Fetched(Option<DownloadError>),
    /// The archive was unpacked and its file removed, or could not be
    /// unpacked.
    Unpacked(bool),
}

/// What to do next during the download phase.
#[derive(Clone, Copy, Debug, PartialEq, Eq, Structural)]
pub enum DownloadRunAction {
    /// Fetch the archive with `download_files_from_webdav`.
    FetchArchive,
    /// Unpack it with `unzip_and_del`.
    UnpackArchive,
    /// Stop: staging holds the cache.
    Done,
    /// Stop, and this is why.
    Fail(DownloadFailure),
}

/// The step that follows an event of the download phase.
pub open spec fn download_run_action(event: DownloadRunEvent) -> DownloadRunAction {
    match event {
        DownloadRunEvent::Begin => DownloadRunAction::FetchArchive,
        DownloadRunEvent::Fetched(None) => DownloadRunAction::UnpackArchive,
        DownloadRunEvent::Fetched(Some(e)) => DownloadRunAction::Fail(DownloadFailure::Fetch(e)),
        DownloadRunEvent::Unpacked(ok) => if ok {
            DownloadRunAction::Done
        } else {
            DownloadRunAction::Fail(DownloadFailure::Unpack)
        },
    }
}

/// Says what to do next during the download phase. Start with `Begin`, do
/// what is returned, and come back with what happened, until the answer is
/// `Done` or `Fail`.
pub fn download(event: DownloadRunEvent) -> (action: DownloadRunAction)
    ensures
        action == download_run_action(event),
{
    match event {
        DownloadRunEvent::Begin => DownloadRunAction::FetchArchive,
        DownloadRunEvent::Fetched(None) => DownloadRunAction::UnpackArchive,
        DownloadRunEvent::Fetched(Some(e)) => DownloadRunAction::Fail(DownloadFailure::Fetch(e)),
        DownloadRunEvent::Unpacked(ok) => {
            if ok {
                DownloadRunAction::Done
            } else {
                DownloadRunAction::Fail(DownloadFailure::Unpack)
            }
        },
    }
}

} // verus!
