use coin_price::cli::Args;
use coin_price::config::{
    Config, ConfigError, ConfigFile, FileFragment, PathKind, CONFIG_FILE_NAME, PKG_NAME,
    SYSTEM_CONFIG_FILE, SYSTEM_DATA_DIR,
};

fn args(key: Option<&str>, dir: Option<&str>) -> Args {
    Args {
        coinmarketcap_api_key: key.map(String::from),
        data_dir: dir.map(String::from),
        config: None,
    }
}

fn file(key: Option<&str>) -> FileFragment {
    FileFragment::Parsed(ConfigFile { coinmarketcap_api_key: key.map(String::from) })
}

fn key_of(cli: Option<&str>, system: Option<&str>, user: Option<&str>) -> Result<String, ConfigError> {
    Config::resolve(
        args(cli, None),
        vec![file(system), file(user)],
        false,
        PathKind::Missing,
        Some("/home/u/.local/share".to_string()),
    )
    .map(|c| c.coinmarketcap_api_key)
}

#[test]
fn api_key_from_command_line_wins() {
    assert_eq!(key_of(Some("cli"), Some("sys"), Some("user")), Ok("cli".to_string()));
}

#[test]
fn api_key_from_user_file_over_system_file() {
    assert_eq!(key_of(None, Some("sys"), Some("user")), Ok("user".to_string()));
}

#[test]
fn api_key_from_system_file_alone() {
    assert_eq!(key_of(None, Some("sys"), None), Ok("sys".to_string()));
}

#[test]
fn api_key_missing_everywhere() {
    assert_eq!(key_of(None, None, None), Err(ConfigError::MissingApiKey));
}

#[test]
fn empty_api_keys_do_not_count() {
    assert_eq!(key_of(Some(""), Some("sys"), Some("")), Ok("sys".to_string()));
    assert_eq!(key_of(Some(""), Some(""), Some("")), Err(ConfigError::MissingApiKey));
}

#[test]
fn missing_files_are_skipped() {
    let r = Config::resolve(
        args(None, Some("/srv/data")),
        vec![FileFragment::Missing, file(Some("user"))],
        false,
        PathKind::Directory,
        None,
    )
    .unwrap();
    assert_eq!(r.coinmarketcap_api_key, "user");
    assert_eq!(r.data_dir, "/srv/data");
}

#[test]
fn malformed_file_fails_resolution() {
    let r = Config::resolve(
        args(Some("cli"), None),
        vec![FileFragment::Malformed, file(Some("user"))],
        false,
        PathKind::Missing,
        Some("/home/u/.local/share".to_string()),
    );
    assert_eq!(r.unwrap_err(), ConfigError::ParseFailure);
}

#[test]
fn privileged_run_uses_system_data_dir() {
    for kind in [PathKind::Missing, PathKind::Directory, PathKind::File, PathKind::Other] {
        let r = Config::resolve(args(Some("k"), Some("/tmp/elsewhere")), vec![], true, kind, None).unwrap();
        assert_eq!(r.data_dir, SYSTEM_DATA_DIR);
        assert_eq!(r.data_dir, "/var/lib/coin-price");
    }
    let r = Config::resolve(args(Some("k"), None), vec![], true, PathKind::Missing, None).unwrap();
    assert_eq!(r.data_dir, "/var/lib/coin-price");
}

#[test]
fn regular_file_as_data_dir_is_invalid() {
    let r = Config::resolve(
        args(Some("k"), Some("/etc/passwd")),
        vec![],
        false,
        PathKind::File,
        Some("/home/u/.local/share".to_string()),
    );
    assert_eq!(r.unwrap_err(), ConfigError::InvalidPath);
    let r = Config::resolve(args(Some("k"), Some("/dev/null")), vec![], false, PathKind::Other, None);
    assert_eq!(r.unwrap_err(), ConfigError::InvalidPath);
    let r = Config::resolve(args(Some("k"), Some("")), vec![], false, PathKind::Missing, None);
    assert_eq!(r.unwrap_err(), ConfigError::InvalidPath);
}

#[test]
fn explicit_data_dir_may_be_missing_or_a_directory() {
    for kind in [PathKind::Missing, PathKind::Directory] {
        let r = Config::resolve(args(Some("k"), Some("/srv/feed")), vec![], false, kind, None).unwrap();
        assert_eq!(r.data_dir, "/srv/feed");
    }
}

#[test]
fn platform_data_dir_gets_program_name() {
    let r = Config::resolve(
        args(Some("k"), None),
        vec![],
        false,
        PathKind::Missing,
        Some("/home/u/.local/share".to_string()),
    )
    .unwrap();
    assert_eq!(r.data_dir, "/home/u/.local/share/coin-price");
    assert_eq!(PKG_NAME, "coin-price");
}

#[test]
fn no_data_dir_anywhere() {
    let r = Config::resolve(args(Some("k"), None), vec![], false, PathKind::Missing, None);
    assert_eq!(r.unwrap_err(), ConfigError::NoDataDir);
}

#[test]
fn data_dir_error_comes_before_missing_key() {
    let r = Config::resolve(args(None, None), vec![], false, PathKind::Missing, None);
    assert_eq!(r.unwrap_err(), ConfigError::NoDataDir);
}

#[test]
fn merge_with_cfg_file_takes_nonempty_key() {
    let mut c = Config::empty();
    c.merge_with_cfg_file(ConfigFile { coinmarketcap_api_key: Some("a".to_string()) });
    assert_eq!(c.coinmarketcap_api_key, "a");
    c.merge_with_cfg_file(ConfigFile { coinmarketcap_api_key: Some(String::new()) });
    assert_eq!(c.coinmarketcap_api_key, "a");
    c.merge_with_cfg_file(ConfigFile { coinmarketcap_api_key: None });
    assert_eq!(c.coinmarketcap_api_key, "a");
    assert_eq!(c.data_dir, "");
}

#[test]
fn merge_with_cli_args_leaves_config_on_error() {
    let mut c = Config::empty();
    c.merge_with_cfg_file(ConfigFile { coinmarketcap_api_key: Some("file".to_string()) });
    let r = c.merge_with_cli_args(args(Some("cli"), Some("/x")), false, PathKind::File, None);
    assert_eq!(r, Err(ConfigError::InvalidPath));
    assert_eq!(c.coinmarketcap_api_key, "file");
    assert_eq!(c.data_dir, "");
    let r = c.merge_with_cli_args(args(Some("cli"), Some("/x")), false, PathKind::Directory, None);
    assert_eq!(r, Ok(()));
    assert_eq!(c.coinmarketcap_api_key, "cli");
    assert_eq!(c.data_dir, "/x");
}

#[test]
fn merge_all_later_file_wins() {
    let r = ConfigFile::merge_all(vec![file(Some("a")), FileFragment::Missing, file(Some("b")), file(None)]).unwrap();
    assert_eq!(r.coinmarketcap_api_key, Some("b".to_string()));
    let r = ConfigFile::merge_all(vec![]).unwrap();
    assert_eq!(r.coinmarketcap_api_key, None);
    let r = ConfigFile::merge_all(vec![file(Some("a")), FileFragment::Malformed]);
    assert_eq!(r.unwrap_err(), ConfigError::ParseFailure);
}

#[test]
fn config_file_merge_overrides() {
    let mut f = ConfigFile::empty();
    f.merge(&ConfigFile { coinmarketcap_api_key: Some("x".to_string()) });
    assert_eq!(f.coinmarketcap_api_key, Some("x".to_string()));
    f.merge(&ConfigFile { coinmarketcap_api_key: Some(String::new()) });
    assert_eq!(f.coinmarketcap_api_key, Some("x".to_string()));
}

#[test]
fn user_config_selection() {
    let r = ConfigFile::select_user_config(Some("/a/b.toml".to_string()), PathKind::File, None);
    assert_eq!(r, Ok("/a/b.toml".to_string()));
    let r = ConfigFile::select_user_config(Some("/a".to_string()), PathKind::Directory, Some("/c".to_string()));
    assert_eq!(r, Err(ConfigError::InvalidPath));
    let r = ConfigFile::select_user_config(Some("/a".to_string()), PathKind::Missing, Some("/c".to_string()));
    assert_eq!(r, Err(ConfigError::InvalidPath));
    let r = ConfigFile::select_user_config(None, PathKind::Missing, Some("/home/u/.config".to_string()));
    assert_eq!(r, Ok("/home/u/.config/coin-price/config.toml".to_string()));
    assert_eq!(CONFIG_FILE_NAME, "config.toml");
    let r = ConfigFile::select_user_config(None, PathKind::Missing, None);
    assert_eq!(r, Err(ConfigError::NoConfigFile));
}

#[test]
fn user_config_path_keeps_explicit_file() {
    let r = ConfigFile::user_config_path(Some("/a/b.toml".to_string()), PathKind::File);
    assert_eq!(r, Ok("/a/b.toml".to_string()));
    let r = ConfigFile::user_config_path(Some("/a".to_string()), PathKind::Directory);
    assert_eq!(r, Err(ConfigError::InvalidPath));
}

#[test]
fn files_are_read_system_first() {
    let r = ConfigFile::files_in_merge_order("/u/config.toml".to_string());
    assert_eq!(r, vec![SYSTEM_CONFIG_FILE.to_string(), "/u/config.toml".to_string()]);
    assert_eq!(SYSTEM_CONFIG_FILE, "/etc/coin-price/config.toml");
}

#[test]
fn new_resolves_on_this_machine() {
    let r = Config::new(args(Some("k"), Some("/not/a/dir")), vec![file(Some("f"))], PathKind::File);
    match r {
        Ok(c) => {
            assert_eq!(c.data_dir, "/var/lib/coin-price");
            assert_eq!(c.coinmarketcap_api_key, "k");
        }
        Err(e) => assert_eq!(e, ConfigError::InvalidPath),
    }
    let r = Config::new(args(None, None), vec![FileFragment::Malformed], PathKind::Missing);
    assert_eq!(r.unwrap_err(), ConfigError::ParseFailure);
}
