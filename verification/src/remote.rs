//! The remote store: where a cache archive lives on the server, and what
//! each answer of the server means for the step that follows. Every request
//! is made elsewhere; the functions here say which request comes next.

use crate::environment::{
    get_branch_name, get_projectid, get_webdav_password, get_webdav_user, get_webdavaddr,
    setting_value, zip_file_name, ConfigError, Setting,
};
use crate::model::{staging_prefix, OsType};
use crate::text::{joined, contains};
use vstd::prelude::*;
use vstd::string::*;

verus! {

/// The server found what was asked for at another place.
pub const STATUS_FOUND: u16 = 302;

/// The request succeeded.
pub const STATUS_OK: u16 = 200;

/// The request made a new resource.
pub const STATUS_CREATED: u16 = 201;

/// The request was taken on.
pub const STATUS_ACCEPTED: u16 = 202;

/// The user may not do this.
pub const STATUS_FORBIDDEN: u16 = 403;

/// Nothing exists under the address.
pub const STATUS_NOT_FOUND: u16 = 404;

/// The resource is in the way of the request.
pub const STATUS_CONFLICT: u16 = 409;

/// The settings of the remote store and the archive's name, as mathematical
/// values.
pub struct RemoteStoreView {
    pub address: Seq<char>,
    pub user: Seq<char>,
    pub password: Seq<char>,
    pub project: Seq<char>,
    pub archive: Seq<char>,
}

impl RemoteStoreView {
    /// The collection that holds the caches of all projects.
    pub open spec fn base_url(self) -> Seq<char> {
        self.address + "/gitcache"@
    }

    /// The collection that holds the caches of this project.
    pub open spec fn project_url(self) -> Seq<char> {
        self.address + "/gitcache/"@ + self.project
    }

    /// The archive of this system and branch inside the project's
    /// collection.
    pub open spec fn archive_url(self) -> Seq<char> {
        self.address + "/gitcache/"@ + self.project + "/"@ + self.archive
    }

    /// The link by which a listing of the base collection shows the
    /// project's collection.
    pub open spec fn project_marker(self) -> Seq<char> {
        "<a href=\""@ + self.project + "/\">"@
    }

    /// Where a downloaded archive is put: inside staging, under its own
    /// name.
    pub open spec fn local_archive(self) -> Seq<char> {
        staging_prefix() + self.archive
    }
}

/// The remote store of a run: its address, the credentials, the project
/// whose cache it keeps, and the name of the archive for this system and
/// branch.
#[derive(Debug, PartialEq, Eq)]
pub struct RemoteStore {
    pub address: String,
    pub user: String,
    pub password: String,
    pub project: String,
    pub archive: String,
}

impl View for RemoteStore {
    type V = RemoteStoreView;

    open spec fn view(&self) -> RemoteStoreView {
        RemoteStoreView {
            address: self.address@,
            user: self.user@,
            password: self.password@,
            project: self.project@,
            archive: self.archive@,
        }
    }
}

/// The remote store that an environment describes for a system. The system
/// must be supported; then the address, the user, the password, the branch
/// and the project must be set, and the first that is missing is the error.
pub open spec fn remote_store_of(
    vars: Seq<(Seq<char>, Seq<char>)>,
    os: OsType,
) -> Result<RemoteStoreView, ConfigError> {
    if os == OsType::Unknown {
        Err(ConfigError::UnsupportedSystem)
    } else if setting_value(vars, Setting::WebdavAddress) is Err {
        Err(ConfigError::Missing(Setting::WebdavAddress))
    } else if setting_value(vars, Setting::WebdavUser) is Err {
        Err(ConfigError::Missing(Setting::WebdavUser))
    } else if setting_value(vars, Setting::WebdavPassword) is Err {
        Err(ConfigError::Missing(Setting::WebdavPassword))
    } else if setting_value(vars, Setting::BranchName) is Err {
        Err(ConfigError::Missing(Setting::BranchName))
    } else if setting_value(vars, Setting::ProjectId) is Err {
        Err(ConfigError::Missing(Setting::ProjectId))
    } else {
        Ok(
            RemoteStoreView {
                address: setting_value(vars, Setting::WebdavAddress)->Ok_0,
                user: setting_value(vars, Setting::WebdavUser)->Ok_0,
                password: setting_value(vars, Setting::WebdavPassword)->Ok_0,
                project: setting_value(vars, Setting::ProjectId)->Ok_0,
                archive: zip_file_name(os, setting_value(vars, Setting::BranchName)->Ok_0),
            },
        )
    }
}

impl RemoteStore {
    /// Reads the remote store's settings from the environment, before any
    /// work begins.
    pub fn from_environment(vars: &Vec<(String, String)>, os: OsType) -> (store: Result<
        RemoteStore,
        ConfigError,
    >)
        ensures
            match store {
                Ok(s) => remote_store_of(vars.deep_view(), os) == Ok::<
                    RemoteStoreView,
                    ConfigError,
                >(s@),
                Err(e) => remote_store_of(vars.deep_view(), os) == Err::<
                    RemoteStoreView,
                    ConfigError,
                >(e),
            },
    {
        if os == OsType::Unknown {
            return Err(ConfigError::UnsupportedSystem);
        }
        let address = match get_webdavaddr(vars) {
            Ok(v) => v,
            Err(e) => {
                return Err(e);
            },
        };
        let user = match get_webdav_user(vars) {
            Ok(v) => v,
            Err(e) => {
                return Err(e);
            },
        };
        let password = match get_webdav_password(vars) {
            Ok(v) => v,
            Err(e) => {
                return Err(e);
            },
        };
        let branch = match get_branch_name(vars) {
            Ok(v) => v,
            Err(e) => {
                return Err(e);
            },
        };
        let project = match get_projectid(vars) {
            Ok(v) => v,
            Err(e) => {
                return Err(e);
            },
        };
        let mut archive = os.to_string();
        archive.append("-");
        archive.append(branch.as_str());
        archive.append(".zip");
        Ok(RemoteStore { address, user, password, project, archive })
    }

    /// The address of the collection that holds all projects' caches.
    pub fn base_url(&self) -> (url: String)
        ensures
            url@ == self@.base_url(),
    {
        joined(self.address.as_str(), "/gitcache")
    }

    /// The address of the collection that holds this project's caches.
    pub fn project_url(&self) -> (url: String)
        ensures
            url@ == self@.project_url(),
    {
        let mut url = joined(self.address.as_str(), "/gitcache/");
        url.append(self.project.as_str());
        url
    }

    /// The address of the archive.
    pub fn archive_url(&self) -> (url: String)
        ensures
            url@ == self@.archive_url(),
    {
        let mut url = self.project_url();
        url.append("/");
        url.append(self.archive.as_str());
        url
    }

    /// The path a downloaded archive is written to.
    pub fn local_archive_path(&self) -> (path: String)
        ensures
            path@ == self@.local_archive(),
    {
        joined(".cache/", self.archive.as_str())
    }

    /// Whether a listing of the base collection shows the project's
    /// collection.
    pub fn listing_shows_project(&self, listing: &str) -> (shown: bool)
        ensures
            shown == crate::text::occurs_in(self@.project_marker(), listing@),
    {
        let mut marker = joined("<a href=\"", self.project.as_str());
        marker.append("/\">");
        contains(listing, marker.as_str())
    }
}

/// How deep a listing of a collection goes: the collection and what lies
/// directly in it.
pub const LISTING_DEPTH: &'static str = "1";

/// What is asked of the server.
#[derive(Clone, Copy, Debug, PartialEq, Eq, Structural)]
pub enum Method {
    /// List a collection, `LISTING_DEPTH` deep.
    List,
    /// Make a collection.
    MakeCollection,
    /// Fetch a resource.
    Get,
    /// Store the bytes at hand as a resource.
    Put,
    /// Remove a resource.
    Delete,
}

/// A request as mathematical values.
pub struct RequestView {
    pub method: Method,
    pub url: Seq<char>,
}

/// A request to the server: what is asked, and of which address.
#[derive(Debug, PartialEq, Eq)]
pub struct Request {
    pub method: Method,
    pub url: String,
}

impl View for Request {
    type V = RequestView;

    open spec fn view(&self) -> RequestView {
        RequestView { method: self.method, url: self.url@ }
    }
}

impl DeepView for Request {
    type V = RequestView;

    open spec fn deep_view(&self) -> RequestView {
        self@
    }
}

/// Why a collection could not be made on the server.
#[derive(Clone, Copy, Debug, PartialEq, Eq, Structural)]
pub enum CollectionError {
    /// The request brought no response.
    NoResponse,
    /// The server forbids making the collection.
    Forbidden,
    /// The server reports that the collection is already there, though the
    /// listing did not show it.
    Conflict,
    /// The server answered with a status that is not handled.
    UnexpectedStatus,
}

/// Why the collections for the archive are not in place.
#[derive(Clone, Copy, Debug, PartialEq, Eq, Structural)]
pub enum SetupError {
    /// The listing of the base collection brought no response.
    ListingFailed,
    /// The listing came, but its text could not be read.
    ListingUnreadable,
    /// The base collection could not be made.
    Base(CollectionError),
    /// The project's collection could not be made.
    Project(CollectionError),
}

/// What has just happened while the collections are being set up.
#[derive(Debug, PartialEq, Eq)]
pub enum SetupEvent {
    /// Nothing yet.
    Begin,
    /// The listing of the base collection was asked for. `None`: no
    /// response; else the status of the response.
    Listed(Option<u16>),
    /// The text of the listing was read, or could not be read.
    ListingRead(Option<String>),
    /// The base collection was asked to be made.
    BaseMade(Option<u16>),
    /// The project's collection was asked to be made.
    ProjectMade(Option<u16>),
}

/// What to do next while the collections are being set up.
#[derive(Clone, Copy, Debug, PartialEq, Eq, Structural)]
pub enum SetupAction {
    /// Ask for a listing of the base collection.
    ListBase,
    /// Read the text of the listing.
    ReadListing,
    /// Make the base collection.
    MakeBase,
    /// Make the project's collection.
    MakeProject,
    /// Stop: the collections are in place.
    Done,
    /// Stop: the collections are not in place, and this is why.
    Fail(SetupError),
}

/// What the answer to a request to make a collection means. Accepted, ok
/// and created are success.
pub open spec fn collection_outcome(reply: Option<u16>) -> Result<(), CollectionError> {
    match reply {
        None => Err(CollectionError::NoResponse),
        Some(status) => if status == STATUS_FORBIDDEN {
            Err(CollectionError::Forbidden)
        } else if status == STATUS_ACCEPTED || status == STATUS_OK || status == STATUS_CREATED {
            Ok(())
        } else if status == STATUS_CONFLICT {
            Err(CollectionError::Conflict)
        } else {
            Err(CollectionError::UnexpectedStatus)
        },
    }
}

/// The outcome of making the project's collection, as the outcome of the
/// whole setup.
pub open spec fn project_outcome(reply: Option<u16>) -> Result<(), SetupError> {
    match collection_outcome(reply) {
        Ok(()) => Ok(()),
        Err(e) => Err(SetupError::Project(e)),
    }
}

/// The step that follows an event of the setup. A base collection that the
/// listing does not find is made, and the project's collection after it; a
/// listing that does not show the project's collection has it made; and a
/// listing that shows it ends the setup.
pub open spec fn setup_action(store: RemoteStoreView, event: SetupEvent) -> SetupAction {
    match event {
        SetupEvent::Begin => SetupAction::ListBase,
        SetupEvent::Listed(None) => SetupAction::Fail(SetupError::ListingFailed),
        SetupEvent::Listed(Some(status)) => if status != STATUS_FOUND && status != STATUS_OK {
            SetupAction::MakeBase
        } else {
            SetupAction::ReadListing
        },
        SetupEvent::ListingRead(None) => SetupAction::Fail(SetupError::ListingUnreadable),
        SetupEvent::ListingRead(Some(text)) => if crate::text::occurs_in(
            store.project_marker(),
            text@,
        ) {
            SetupAction::Done
        } else {
            SetupAction::MakeProject
        },
        SetupEvent::BaseMade(reply) => match collection_outcome(reply) {
            Ok(()) => SetupAction::MakeProject,
            Err(e) => SetupAction::Fail(SetupError::Base(e)),
        },
        SetupEvent::ProjectMade(reply) => match project_outcome(reply) {
            Ok(()) => SetupAction::Done,
            Err(e) => SetupAction::Fail(e),
        },
    }
}

/// Reads the answer to a request to make a collection.
pub fn check_collection(reply: Option<u16>) -> (outcome: Result<(), CollectionError>)
    ensures
        outcome == collection_outcome(reply),
{
    match reply {
        None => Err(CollectionError::NoResponse),
        Some(status) => {
            if status == STATUS_FORBIDDEN {
                Err(CollectionError::Forbidden)
            } else if status == STATUS_ACCEPTED || status == STATUS_OK || status
                == STATUS_CREATED {
                Ok(())
            } else if status == STATUS_CONFLICT {
                Err(CollectionError::Conflict)
            } else {
                Err(CollectionError::UnexpectedStatus)
            }
        },
    }
}

/// Reads the answer to the request that makes the project's collection.
pub fn make_webdav_project_path(reply: Option<u16>) -> (outcome: Result<(), SetupError>)
    ensures
        outcome == project_outcome(reply),
{
    match check_collection(reply) {
        Ok(()) => Ok(()),
        Err(e) => Err(SetupError::Project(e)),
    }
}

/// Says what to do next so that the collections for the archive exist on the
/// server. Start with `Begin`, do what is returned, and come back with what
/// happened, until the answer is `Done` or `Fail`. `request_for_setup` gives
/// the request that an action makes.
pub fn create_webdav_paths(store: &RemoteStore, event: &SetupEvent) -> (action: SetupAction)
    ensures
        action == setup_action(store@, *event),
{
    match event {
        SetupEvent::Begin => SetupAction::ListBase,
        SetupEvent::Listed(None) => SetupAction::Fail(SetupError::ListingFailed),
        SetupEvent::Listed(Some(status)) => {
            if *status != STATUS_FOUND && *status != STATUS_OK {
                SetupAction::MakeBase
            } else {
                SetupAction::ReadListing
            }
        },
        SetupEvent::ListingRead(None) => SetupAction::Fail(SetupError::ListingUnreadable),
        SetupEvent::ListingRead(Some(text)) => {
            if store.listing_shows_project(text.as_str()) {
                SetupAction::Done
            } else {
                SetupAction::MakeProject
            }
        },
        SetupEvent::BaseMade(reply) => {
            match check_collection(*reply) {
                Ok(()) => SetupAction::MakeProject,
                Err(e) => SetupAction::Fail(SetupError::Base(e)),
            }
        },
        SetupEvent::ProjectMade(reply) => {
            match make_webdav_project_path(*reply) {
                Ok(()) => SetupAction::Done,
                Err(e) => SetupAction::Fail(e),
            }
        },
    }
}

/// The request that an action of the setup makes of the server: the base
/// collection is listed and made at its own address, the project's
/// collection is made at its own, and no other action asks anything.
pub open spec fn setup_request(store: RemoteStoreView, action: SetupAction) -> Option<
    RequestView,
> {
    match action {
        SetupAction::ListBase => Some(RequestView { method: Method::List, url: store.base_url() }),
        SetupAction::MakeBase => Some(
            RequestView { method: Method::MakeCollection, url: store.base_url() },
        ),
        SetupAction::MakeProject => Some(
            RequestView { method: Method::MakeCollection, url: store.project_url() },
        ),
        _ => None,
    }
}

/// The request that an action of the setup makes of the server, if it makes
/// one.
pub fn request_for_setup(store: &RemoteStore, action: SetupAction) -> (request: Option<Request>)
    ensures
        request.deep_view() == setup_request(store@, action),
{
    match action {
        SetupAction::ListBase => Some(Request { method: Method::List, url: store.base_url() }),
        SetupAction::MakeBase => Some(
            Request { method: Method::MakeCollection, url: store.base_url() },
        ),
        SetupAction::MakeProject => Some(
            Request { method: Method::MakeCollection, url: store.project_url() },
        ),
        _ => None,
    }
}

/// What the server answers while the collections are set up: one answer
/// for each thing that may be asked of it.
pub struct SetupWorld {
    pub listed: Option<u16>,
    pub listing: Option<String>,
    pub base_made: Option<u16>,
    pub project_made: Option<u16>,
}

/// The event with which the server answers an action.
pub open spec fn setup_answer(world: SetupWorld, action: SetupAction) -> SetupEvent {
    match action {
        SetupAction::ListBase => SetupEvent::Listed(world.listed),
        SetupAction::ReadListing => SetupEvent::ListingRead(world.listing),
        SetupAction::MakeBase => SetupEvent::BaseMade(world.base_made),
        _ => SetupEvent::ProjectMade(world.project_made),
    }
}

/// The answer that ends a setup which starts with `event` and is given at
/// most `steps` answers by the server.
pub open spec fn setup_end(
    store: RemoteStoreView,
    world: SetupWorld,
    event: SetupEvent,
    steps: nat,
) -> SetupAction
    decreases steps,
{
    let action = setup_action(store, event);
    if steps == 0 || action is Done || action is Fail {
        action
    } else {
        setup_end(store, world, setup_answer(world, action), (steps - 1) as nat)
    }
}

/// The listing found the base collection.
pub open spec fn base_found(world: SetupWorld) -> bool {
    world.listed == Some(STATUS_FOUND) || world.listed == Some(STATUS_OK)
}

/// A whole setup, whatever the server answers: it ends after at most three
/// actions, and it ends well exactly when the project's collection is in
/// place at the end: because the listing of the base collection shows it,
/// or because it was made, after the base collection was found or made.
pub proof fn lemma_setup_ends_well_when_collections_stand(
    store: RemoteStoreView,
    world: SetupWorld,
)
    ensures
        ({
            let end = setup_end(store, world, SetupEvent::Begin, 3);
            &&& end is Done || end is Fail
            &&& end is Done <==> {
                ||| {
                    &&& base_found(world)
                    &&& world.listing matches Some(text)
                    &&& crate::text::occurs_in(store.project_marker(), text@)
                        || collection_outcome(world.project_made) is Ok
                }
                ||| {
                    &&& world.listed is Some
                    &&& !base_found(world)
                    &&& collection_outcome(world.base_made) is Ok
                    &&& collection_outcome(world.project_made) is Ok
                }
            }
            &&& world.listed is None ==> end == SetupAction::Fail(SetupError::ListingFailed)
        }),
{
    reveal_with_fuel(setup_end, 4);
}

/// Why the archive did not reach the server.
#[derive(Clone, Copy, Debug, PartialEq, Eq, Structural)]
pub enum UploadError {
    /// The archive file could not be opened.
    ArchiveUnopenable,
    /// The archive file could not be read.
    ArchiveUnreadable,
    /// The request that sends the archive failed.
    SendFailed,
}

/// How reading the archive file went.
#[derive(Clone, Copy, Debug, PartialEq, Eq, Structural)]
pub enum ReadOutcome {
    /// The file could not be opened.
    NotOpened,
    /// The file was opened, and reading it failed.
    NotRead,
    /// The file's bytes are at hand.
    Read,
}

/// What has just happened during an upload.
#[derive(Clone, Copy, Debug, PartialEq, Eq, Structural)]
pub enum UploadEvent {
    /// Nothing yet.
    Begin,
    /// The archive file was read, or not.
    ArchiveRead(ReadOutcome),
    /// The archive was sent; `true` when the request succeeded.
    Sent(bool),
}

/// What to do next during an upload.
#[derive(Clone, Copy, Debug, PartialEq, Eq, Structural)]
pub enum UploadAction {
    /// Read the archive file, which lies in the working directory under
    /// the archive's name.
    ReadArchive,
    /// Send the bytes that were read.
    Send,
    /// Stop: the archive is on the server.
    Done,
    /// Stop: the archive is not on the server, and this is why.
    Fail(UploadError),
}

/// The step that follows an event of the upload.
pub open spec fn upload_action(event: UploadEvent) -> UploadAction {
    match event {
        UploadEvent::Begin => UploadAction::ReadArchive,
        UploadEvent::ArchiveRead(ReadOutcome::NotOpened) => UploadAction::Fail(
            UploadError::ArchiveUnopenable,
        ),
        UploadEvent::ArchiveRead(ReadOutcome::NotRead) => UploadAction::Fail(
            UploadError::ArchiveUnreadable,
        ),
        UploadEvent::ArchiveRead(ReadOutcome::Read) => UploadAction::Send,
        UploadEvent::Sent(true) => UploadAction::Done,
        UploadEvent::Sent(false) => UploadAction::Fail(UploadError::SendFailed),
    }
}

/// Says what to do next so that the archive reaches the server.
/// `request_for_upload` gives the request that an action makes.
pub fn upload_zip(event: UploadEvent) -> (action: UploadAction)
    ensures
        action == upload_action(event),
{
    match event {
        UploadEvent::Begin => UploadAction::ReadArchive,
        UploadEvent::ArchiveRead(ReadOutcome::NotOpened) => UploadAction::Fail(
            UploadError::ArchiveUnopenable,
        ),
        UploadEvent::ArchiveRead(ReadOutcome::NotRead) => UploadAction::Fail(
            UploadError::ArchiveUnreadable,
        ),
        UploadEvent::ArchiveRead(ReadOutcome::Read) => UploadAction::Send,
        UploadEvent::Sent(true) => UploadAction::Done,
        UploadEvent::Sent(false) => UploadAction::Fail(UploadError::SendFailed),
    }
}

/// The request that an action of the upload makes of the server: the
/// archive's bytes are put at the archive's address.
pub open spec fn upload_request(store: RemoteStoreView, action: UploadAction) -> Option<
    RequestView,
> {
    match action {
        UploadAction::Send => Some(RequestView { method: Method::Put, url: store.archive_url() }),
        _ => None,
    }
}

/// The request that an action of the upload makes of the server, if it makes
/// one.
pub fn request_for_upload(store: &RemoteStore, action: UploadAction) -> (request: Option<Request>)
    ensures
        request.deep_view() == upload_request(store@, action),
{
    match action {
        UploadAction::Send => Some(Request { method: Method::Put, url: store.archive_url() }),
        _ => None,
    }
}

/// Why the archive was not removed from the server.
#[derive(Clone, Copy, Debug, PartialEq, Eq, Structural)]
pub enum RemoteDeleteError {
    /// There is no staging directory in the working directory.
    StagingMissing,
    /// The request that removes the archive failed.
    RequestFailed,
}

/// What has just happened while the archive is removed from the server.
#[derive(Clone, Copy, Debug, PartialEq, Eq, Structural)]
pub enum RemoteDeleteEvent {
    /// Nothing yet; `staging_exists` says whether a staging directory is
    /// there.
    Begin { staging_exists: bool },
    /// The server was asked to remove the archive; `true` when the request
    /// succeeded.
    Deleted(bool),
}

/// What to do next while the archive is removed from the server.
#[derive(Clone, Copy, Debug, PartialEq, Eq, Structural)]
pub enum RemoteDeleteAction {
    /// Ask the server to remove the archive.
    Delete,
    /// Stop: the server was asked and took the request.
    Done,
    /// Stop, and this is why.
    Fail(RemoteDeleteError),
}

/// The step that follows an event of the removal. The archive is removed
/// only from a working directory that holds a staging directory.
pub open spec fn remote_delete_action(event: RemoteDeleteEvent) -> RemoteDeleteAction {
    match event {
        RemoteDeleteEvent::Begin { staging_exists } => if staging_exists {
            RemoteDeleteAction::Delete
        } else {
            RemoteDeleteAction::Fail(RemoteDeleteError::StagingMissing)
        },
        RemoteDeleteEvent::Deleted(ok) => if ok {
            RemoteDeleteAction::Done
        } else {
            RemoteDeleteAction::Fail(RemoteDeleteError::RequestFailed)
        },
    }
}

/// Says what to do next so that the archive of this system and branch is
/// removed from the server. `request_for_delete` gives the request that an
/// action makes.
pub fn del_webdav_cache(event: RemoteDeleteEvent) -> (action: RemoteDeleteAction)
    ensures
        action == remote_delete_action(event),
{
    match event {
        RemoteDeleteEvent::Begin { staging_exists } => {
            if staging_exists {
                RemoteDeleteAction::Delete
            } else {
                RemoteDeleteAction::Fail(RemoteDeleteError::StagingMissing)
            }
        },
        RemoteDeleteEvent::Deleted(ok) => {
            if ok {
                RemoteDeleteAction::Done
            } else {
                RemoteDeleteAction::Fail(RemoteDeleteError::RequestFailed)
            }
        },
    }
}

/// The request that an action of the removal makes of the server: the
/// archive is removed at its address.
pub open spec fn delete_request(store: RemoteStoreView, action: RemoteDeleteAction) -> Option<
    RequestView,
> {
    match action {
        RemoteDeleteAction::Delete => Some(
            RequestView { method: Method::Delete, url: store.archive_url() },
        ),
        _ => None,
    }
}

/// The request that an action of the removal makes of the server, if it
/// makes one.
pub fn request_for_delete(store: &RemoteStore, action: RemoteDeleteAction) -> (request: Option<
    Request,
>)
    ensures
        request.deep_view() == delete_request(store@, action),
{
    match action {
        RemoteDeleteAction::Delete => Some(
            Request { method: Method::Delete, url: store.archive_url() },
        ),
        _ => None,
    }
}

} // verus!
