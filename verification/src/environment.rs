//! The settings the tool reads from the process environment. The environment
//! is handed in as a list of variables, each a name and a value, so that
//! nothing here depends on hidden global state.

use crate::model::OsType;
use crate::text::{starts_with, str_eq};
use vstd::prelude::*;
use vstd::string::*;

verus! {

/// The settings every run needs.
#[derive(Clone, Copy, Debug, PartialEq, Eq, Structural)]
pub enum Setting {
    WebdavUser,
    WebdavPassword,
    WebdavAddress,
    ProjectId,
    BranchName,
}

/// Why the configuration cannot be used.
#[derive(Clone, Copy, Debug, PartialEq, Eq, Structural)]
pub enum ConfigError {
    /// The build targets neither Windows nor Unix.
    UnsupportedSystem,
    /// The variable that holds this setting is not set.
    Missing(Setting),
}

impl Setting {
    /// The name of the variable that holds the setting.
    pub open spec fn variable(self) -> Seq<char> {
        match self {
            Setting::WebdavUser => "WEBDAVUSER"@,
            Setting::WebdavPassword => "WEBDAVPASS"@,
            Setting::WebdavAddress => "WEBDAVADDR"@,
            Setting::ProjectId => "CI_PROJECT_ID"@,
            Setting::BranchName => "CI_COMMIT_BRANCH"@,
        }
    }

    /// The name of the variable that holds the setting.
    pub fn variable_name(&self) -> (name: &'static str)
        ensures
            name@ == self.variable(),
    {
        match self {
            Setting::WebdavUser => "WEBDAVUSER",
            Setting::WebdavPassword => "WEBDAVPASS",
            Setting::WebdavAddress => "WEBDAVADDR",
            Setting::ProjectId => "CI_PROJECT_ID",
            Setting::BranchName => "CI_COMMIT_BRANCH",
        }
    }
}

impl ConfigError {
    /// The process exit code for the error: 1 for an unsupported system, 2
    /// for a missing variable.
    pub open spec fn code(self) -> int {
        match self {
            ConfigError::UnsupportedSystem => 1,
            ConfigError::Missing(_) => 2,
        }
    }

    /// The process exit code for the error.
    pub fn exit_code(&self) -> (code: i32)
        ensures
            code == self.code(),
    {
        match self {
            ConfigError::UnsupportedSystem => 1,
            ConfigError::Missing(_) => 2,
        }
    }
}

/// Picks the value of a variable whose name begins with `prefix`.
pub open spec fn value_if_prefixed(prefix: Seq<char>) -> spec_fn((Seq<char>, Seq<char>)) -> Option<
    Seq<char>,
> {
    |v: (Seq<char>, Seq<char>)|
        if prefix.is_prefix_of(v.0) {
            Some(v.1)
        } else {
            None
        }
}

/// The values of the variables whose name begins with `prefix`, in the order
/// of the environment.
pub open spec fn values_with_prefix(
    vars: Seq<(Seq<char>, Seq<char>)>,
    prefix: Seq<char>,
) -> Seq<Seq<char>> {
    vars.filter_map(value_if_prefixed(prefix))
}

/// The value of the first variable called `name`, if there is one.
pub open spec fn lookup(vars: Seq<(Seq<char>, Seq<char>)>, name: Seq<char>) -> Option<Seq<char>>
    decreases vars.len(),
{
    if vars.len() == 0 {
        None
    } else if vars.first().0 == name {
        Some(vars.first().1)
    } else {
        lookup(vars.drop_first(), name)
    }
}

/// The value of a setting: that of its variable, or the error that names the
/// setting.
pub open spec fn setting_value(
    vars: Seq<(Seq<char>, Seq<char>)>,
    setting: Setting,
) -> Result<Seq<char>, ConfigError> {
    match lookup(vars, setting.variable()) {
        Some(value) => Ok(value),
        None => Err(ConfigError::Missing(setting)),
    }
}

/// The name of the archive for a system and a branch: the system's name, a
/// hyphen, the branch, and the extension.
pub open spec fn zip_file_name(os: OsType, branch: Seq<char>) -> Seq<char> {
    os.label() + "-"@ + branch + ".zip"@
}

/// The archive name a run uses, or the reason it has none: the system must be
/// supported, and then the branch must be set.
pub open spec fn zip_file_name_of(
    vars: Seq<(Seq<char>, Seq<char>)>,
    os: OsType,
) -> Result<Seq<char>, ConfigError> {
    if os == OsType::Unknown {
        Err(ConfigError::UnsupportedSystem)
    } else {
        match setting_value(vars, Setting::BranchName) {
            Ok(branch) => Ok(zip_file_name(os, branch)),
            Err(e) => Err(e),
        }
    }
}

/// A text result and the value it stands for hold the same characters, or
/// are the same error.
pub open spec fn same_text<E>(got: Result<String, E>, want: Result<Seq<char>, E>) -> bool {
    match got {
        Ok(text) => want == Ok::<Seq<char>, E>(text@),
        Err(e) => want == Err::<Seq<char>, E>(e),
    }
}

/// The values of all variables whose name starts with `name`, in the order
/// in which the environment lists them.
pub fn get_env_if_startswith(vars: &Vec<(String, String)>, name: &str) -> (found: Vec<String>)
    ensures
        found.deep_view() == values_with_prefix(vars.deep_view(), name@),
{
    let mut found: Vec<String> = Vec::new();
    let mut i: usize = 0;
    while i < vars.len()
        invariant
            i <= vars@.len(),
            found.deep_view() == values_with_prefix(vars.deep_view().take(i as int), name@),
        decreases vars@.len() - i,
    {
        proof {
            vars.deep_view().lemma_filter_map_take_succ(value_if_prefixed(name@), i as int);
        }
        if starts_with(vars[i].0.as_str(), name) {
            found.push(vars[i].1.clone());
        }
        i += 1;
    }
    assert(vars.deep_view().take(vars@.len() as int) =~= vars.deep_view());
    found
}

/// The value of the variable called `name`, if the environment has one.
pub fn safe_get_envvar(vars: &Vec<(String, String)>, name: &str) -> (value: Option<String>)
    ensures
        value.deep_view() == lookup(vars.deep_view(), name@),
{
    let mut i: usize = 0;
    assert(vars.deep_view().skip(0) =~= vars.deep_view());
    while i < vars.len()
        invariant
            i <= vars@.len(),
            lookup(vars.deep_view(), name@) == lookup(vars.deep_view().skip(i as int), name@),
        decreases vars@.len() - i,
    {
        let ghost rest = vars.deep_view().skip(i as int);
        assert(rest.drop_first() =~= vars.deep_view().skip(i + 1));
        if str_eq(vars[i].0.as_str(), name) {
            return Some(vars[i].1.clone());
        }
        i += 1;
    }
    None
}

/// The value of a setting, or the error that names it when its variable is
/// not set.
pub fn get_setting(vars: &Vec<(String, String)>, setting: Setting) -> (value: Result<
    String,
    ConfigError,
>)
    ensures
        same_text(value, setting_value(vars.deep_view(), setting)),
{
    match safe_get_envvar(vars, setting.variable_name()) {
        Some(value) => Ok(value),
        None => Err(ConfigError::Missing(setting)),
    }
}

/// The user name for the remote store.
pub fn get_webdav_user(vars: &Vec<(String, String)>) -> (value: Result<String, ConfigError>)
    ensures
        same_text(value, setting_value(vars.deep_view(), Setting::WebdavUser)),
{
    get_setting(vars, Setting::WebdavUser)
}

/// The password for the remote store.
pub fn get_webdav_password(vars: &Vec<(String, String)>) -> (value: Result<String, ConfigError>)
    ensures
        same_text(value, setting_value(vars.deep_view(), Setting::WebdavPassword)),
{
    get_setting(vars, Setting::WebdavPassword)
}

/// The address of the remote store.
pub fn get_webdavaddr(vars: &Vec<(String, String)>) -> (value: Result<String, ConfigError>)
    ensures
        same_text(value, setting_value(vars.deep_view(), Setting::WebdavAddress)),
{
    get_setting(vars, Setting::WebdavAddress)
}

/// The identifier of the project whose cache is kept.
pub fn get_projectid(vars: &Vec<(String, String)>) -> (value: Result<String, ConfigError>)
    ensures
        same_text(value, setting_value(vars.deep_view(), Setting::ProjectId)),
{
    get_setting(vars, Setting::ProjectId)
}

/// The branch whose cache is kept.
pub fn get_branch_name(vars: &Vec<(String, String)>) -> (value: Result<String, ConfigError>)
    ensures
        same_text(value, setting_value(vars.deep_view(), Setting::BranchName)),
{
    get_setting(vars, Setting::BranchName)
}

/// The name of the archive that holds the cache of this system and branch.
pub fn get_zip_file_name(vars: &Vec<(String, String)>, os: OsType) -> (name: Result<
    String,
    ConfigError,
>)
    ensures
        same_text(name, zip_file_name_of(vars.deep_view(), os)),
{
    if os == OsType::Unknown {
        return Err(ConfigError::UnsupportedSystem);
    }
    match get_branch_name(vars) {
        Ok(branch) => {
            let mut name = os.to_string();
            name.append("-");
            name.append(branch.as_str());
            name.append(".zip");
            Ok(name)
        },
        Err(e) => Err(e),
    }
}

} // verus!
