use gitcache::environment::{
    get_branch_name, get_env_if_startswith, get_projectid, get_setting, get_webdav_password,
    get_webdav_user, get_webdavaddr, get_zip_file_name, safe_get_envvar, ConfigError, Setting,
};
use gitcache::model::{CacheType, OsType, RestoreData};

fn var(name: &str, value: &str) -> (String, String) {
    (name.to_string(), value.to_string())
}

fn ci_environment() -> Vec<(String, String)> {
    vec![
        var("PATH", "/usr/bin"),
        var("cachepath_home", "/tmp/src_dir"),
        var("WEBDAVUSER", "ci"),
        var("cachefile_conf", "/tmp/config.ini"),
        var("WEBDAVPASS", "secret"),
        var("WEBDAVADDR", "https://dav.example.com"),
        var("cachepath_tools", "/opt/tools"),
        var("CI_PROJECT_ID", "42"),
        var("CI_COMMIT_BRANCH", "main"),
    ]
}

#[test]
fn os_type_names() {
    assert_eq!(OsType::Windows.to_string(), "Windows");
    assert_eq!(OsType::Unix.to_string(), "Unix");
}

#[test]
fn os_type_from_platform_flags() {
    assert_eq!(OsType::get_ostype(true, false), OsType::Windows);
    assert_eq!(OsType::get_ostype(false, true), OsType::Unix);
    assert_eq!(OsType::get_ostype(true, true), OsType::Windows);
    assert_eq!(OsType::get_ostype(false, false), OsType::Unknown);
}

#[test]
fn record_holds_what_it_was_made_from() {
    let record = RestoreData::new("a.txt".to_string(), CacheType::File, "/tmp/x".to_string());
    assert_eq!(record.name(), "a.txt");
    assert_eq!(record.kind(), CacheType::File);
    assert_eq!(record.restore_to(), "/tmp/x");
}

#[test]
fn record_paths() {
    let record = RestoreData::new("src_dir".to_string(), CacheType::Directory, "/tmp".to_string());
    assert_eq!(record.full_path(), "/tmp/src_dir");
    assert_eq!(record.staged_path(), ".cache/src_dir");
}

#[test]
fn record_below_the_root_has_a_doubled_separator() {
    let record = RestoreData::new("etc".to_string(), CacheType::Directory, "/".to_string());
    assert_eq!(record.full_path(), "//etc");
}

#[test]
fn record_clone_is_equal() {
    let record = RestoreData::new("a".to_string(), CacheType::File, "/b".to_string());
    assert_eq!(record.clone(), record);
}

#[test]
fn record_name_must_be_one_component() {
    let good = RestoreData::new("a.txt".to_string(), CacheType::File, "/tmp".to_string());
    let empty = RestoreData::new(String::new(), CacheType::File, "/tmp".to_string());
    let nested = RestoreData::new("x/a.txt".to_string(), CacheType::File, "/tmp".to_string());
    let backslash = RestoreData::new("x\\a.txt".to_string(), CacheType::File, "/tmp".to_string());
    assert!(good.is_well_formed());
    assert!(!empty.is_well_formed());
    assert!(!nested.is_well_formed());
    assert!(backslash.is_well_formed());
}

#[test]
fn values_by_prefix_keep_the_order_of_the_environment() {
    let env = ci_environment();
    assert_eq!(
        get_env_if_startswith(&env, "cachepath_"),
        vec!["/tmp/src_dir".to_string(), "/opt/tools".to_string()]
    );
    assert_eq!(get_env_if_startswith(&env, "cachefile_"), vec!["/tmp/config.ini".to_string()]);
}

#[test]
fn values_by_prefix_edge_cases() {
    let env = ci_environment();
    assert!(get_env_if_startswith(&env, "cachedir_").is_empty());
    assert!(get_env_if_startswith(&Vec::new(), "cachepath_").is_empty());
    assert_eq!(get_env_if_startswith(&env, "").len(), env.len());
    let short = vec![var("cache", "x"), var("cachepath_", "y"), var("Cachepath_a", "z")];
    assert_eq!(get_env_if_startswith(&short, "cachepath_"), vec!["y".to_string()]);
}

#[test]
fn lookup_takes_the_first_variable_of_that_name() {
    let env = vec![var("A", "1"), var("B", "2"), var("A", "3")];
    assert_eq!(safe_get_envvar(&env, "A"), Some("1".to_string()));
    assert_eq!(safe_get_envvar(&env, "B"), Some("2".to_string()));
    assert_eq!(safe_get_envvar(&env, "C"), None);
    assert_eq!(safe_get_envvar(&env, "a"), None);
    assert_eq!(safe_get_envvar(&env, ""), None);
}

#[test]
fn settings_come_from_their_variables() {
    let env = ci_environment();
    assert_eq!(get_webdav_user(&env), Ok("ci".to_string()));
    assert_eq!(get_webdav_password(&env), Ok("secret".to_string()));
    assert_eq!(get_webdavaddr(&env), Ok("https://dav.example.com".to_string()));
    assert_eq!(get_projectid(&env), Ok("42".to_string()));
    assert_eq!(get_branch_name(&env), Ok("main".to_string()));
    assert_eq!(get_setting(&env, Setting::ProjectId), Ok("42".to_string()));
}

#[test]
fn missing_settings_name_themselves() {
    let env: Vec<(String, String)> = vec![var("PATH", "/usr/bin")];
    assert_eq!(get_webdav_user(&env), Err(ConfigError::Missing(Setting::WebdavUser)));
    assert_eq!(get_webdav_password(&env), Err(ConfigError::Missing(Setting::WebdavPassword)));
    assert_eq!(get_webdavaddr(&env), Err(ConfigError::Missing(Setting::WebdavAddress)));
    assert_eq!(get_projectid(&env), Err(ConfigError::Missing(Setting::ProjectId)));
    assert_eq!(get_branch_name(&env), Err(ConfigError::Missing(Setting::BranchName)));
}

#[test]
fn setting_variable_names() {
    assert_eq!(Setting::WebdavUser.variable_name(), "WEBDAVUSER");
    assert_eq!(Setting::WebdavPassword.variable_name(), "WEBDAVPASS");
    assert_eq!(Setting::WebdavAddress.variable_name(), "WEBDAVADDR");
    assert_eq!(Setting::ProjectId.variable_name(), "CI_PROJECT_ID");
    assert_eq!(Setting::BranchName.variable_name(), "CI_COMMIT_BRANCH");
}

#[test]
fn config_error_exit_codes() {
    assert_eq!(ConfigError::UnsupportedSystem.exit_code(), 1);
    assert_eq!(ConfigError::Missing(Setting::WebdavUser).exit_code(), 2);
    assert_eq!(ConfigError::Missing(Setting::BranchName).exit_code(), 2);
}

#[test]
fn zip_file_name_joins_system_and_branch() {
    let env = ci_environment();
    assert_eq!(get_zip_file_name(&env, OsType::Unix), Ok("Unix-main.zip".to_string()));
    assert_eq!(get_zip_file_name(&env, OsType::Windows), Ok("Windows-main.zip".to_string()));
}

#[test]
fn zip_file_name_needs_system_then_branch() {
    let env = ci_environment();
    let empty: Vec<(String, String)> = Vec::new();
    assert_eq!(get_zip_file_name(&env, OsType::Unknown), Err(ConfigError::UnsupportedSystem));
    assert_eq!(get_zip_file_name(&empty, OsType::Unknown), Err(ConfigError::UnsupportedSystem));
    assert_eq!(
        get_zip_file_name(&empty, OsType::Unix),
        Err(ConfigError::Missing(Setting::BranchName))
    );
}
