use vstd::prelude::*;

use crate::cli::Args;
use crate::paths::{join, join_path};

verus! {

/// Name under which the program keeps its files.
pub const PKG_NAME: &'static str = "coin-price";

/// Data directory used whenever the process runs with root privileges.
pub const SYSTEM_DATA_DIR: &'static str = "/var/lib/coin-price";

/// System-wide configuration file, merged below the user's own file.
pub const SYSTEM_CONFIG_FILE: &'static str = "/etc/coin-price/config.toml";

/// File name of a configuration file inside a configuration directory.
pub const CONFIG_FILE_NAME: &'static str = "config.toml";

/// What a path names on disk.
#[derive(Debug, Clone, Copy, PartialEq, Eq, Structural)]
pub enum PathKind {
    Missing,
    Directory,
    File,
    Other,
}

/// Why no configuration could be resolved.
#[derive(Debug, Clone, Copy, PartialEq, Eq, Structural)]
pub enum ConfigError {
    /// No source sets a non-empty API key.
    MissingApiKey,
    /// An explicit path names something of the wrong kind.
    InvalidPath,
    /// No data directory was given and the platform has none.
    NoDataDir,
    /// No configuration file was given and the platform has no configuration directory.
    NoConfigFile,
    /// A configuration file on disk could not be parsed.
    ParseFailure,
}

/// The resolved settings of a run.
///
/// Merge of command-line arguments and configuration files, from highest
/// priority to lowest: command line, user file, system file, built-in defaults.
#[derive(Debug)]
pub struct Config {
    pub data_dir: String,
    pub coinmarketcap_api_key: String,
}

/// The settings one configuration file holds.
#[derive(Debug)]
pub struct ConfigFile {
    pub coinmarketcap_api_key: Option<String>,
}

/// What reading one configuration file gave.
#[derive(Debug)]
pub enum FileFragment {
    /// No file at that path: nothing to merge.
    Missing,
    /// The file parsed into these settings.
    Parsed(ConfigFile),
    /// The file exists but is not a valid configuration document.
    Malformed,
}

/// The value of an optional setting, where it is set to a non-empty string.
pub open spec fn nonempty(o: Option<String>) -> Option<Seq<char>> {
    match o {
        Some(s) => if s@.len() > 0 { Some(s@) } else { None },
        None => None,
    }
}

/// The view of an optional string.
pub open spec fn opt_view(o: Option<String>) -> Option<Seq<char>> {
    match o {
        Some(s) => Some(s@),
        None => None,
    }
}

/// `high` where it is set, else `low`.
pub open spec fn prefer(high: Option<Seq<char>>, low: Option<Seq<char>>) -> Option<Seq<char>> {
    match high {
        Some(v) => Some(v),
        None => low,
    }
}

/// The API key after merging configuration files in order, lowest precedence first:
/// each later file overrides the key where it sets a non-empty one.
pub open spec fn merged_files_key(files: Seq<FileFragment>) -> Result<Option<Seq<char>>, ConfigError>
    decreases files.len(),
{
    if files.len() == 0 {
        Ok(None)
    } else {
        match merged_files_key(files.drop_last()) {
            Err(e) => Err(e),
            Ok(acc) => match files.last() {
                FileFragment::Missing => Ok(acc),
                FileFragment::Malformed => Err(ConfigError::ParseFailure),
                FileFragment::Parsed(f) => Ok(prefer(nonempty(f.coinmarketcap_api_key), acc)),
            },
        }
    }
}

/// The data directory a run uses.
pub open spec fn data_dir_choice(
    privileged: bool,
    explicit: Option<Seq<char>>,
    explicit_kind: PathKind,
    platform_data_dir: Option<Seq<char>>,
) -> Result<Seq<char>, ConfigError> {
    if privileged {
        Ok(SYSTEM_DATA_DIR@)
    } else {
        match explicit {
            Some(p) => if p.len() > 0 && (explicit_kind == PathKind::Directory
                || explicit_kind == PathKind::Missing) {
                Ok(p)
            } else {
                Err(ConfigError::InvalidPath)
            },
            None => match platform_data_dir {
                Some(d) => Ok(join(d, PKG_NAME@)),
                None => Err(ConfigError::NoDataDir),
            },
        }
    }
}

/// The user configuration file a run reads.
pub open spec fn user_config_choice(
    explicit: Option<Seq<char>>,
    explicit_kind: PathKind,
    platform_config_dir: Option<Seq<char>>,
) -> Result<Seq<char>, ConfigError> {
    match explicit {
        Some(p) => if explicit_kind == PathKind::File {
            Ok(p)
        } else {
            Err(ConfigError::InvalidPath)
        },
        None => match platform_config_dir {
            Some(d) => Ok(join(join(d, PKG_NAME@), CONFIG_FILE_NAME@)),
            None => Err(ConfigError::NoConfigFile),
        },
    }
}

/// The resolved configuration, as (data directory, API key).
pub open spec fn resolution(
    cli_args: Args,
    files: Seq<FileFragment>,
    privileged: bool,
    data_dir_kind: PathKind,
    platform_data_dir: Option<Seq<char>>,
) -> Result<(Seq<char>, Seq<char>), ConfigError> {
    match merged_files_key(files) {
        Err(e) => Err(e),
        Ok(file_key) => match data_dir_choice(
            privileged,
            opt_view(cli_args.data_dir),
            data_dir_kind,
            platform_data_dir,
        ) {
            Err(e) => Err(e),
            Ok(dir) => match prefer(nonempty(cli_args.coinmarketcap_api_key), file_key) {
                Some(key) => Ok((dir, key)),
                None => Err(ConfigError::MissingApiKey),
            },
        },
    }
}

/// The view of a resolution result, as (data directory, API key).
pub open spec fn resolved_view(r: Result<Config, ConfigError>) -> Result<(Seq<char>, Seq<char>), ConfigError> {
    match r {
        Ok(c) => Ok((c.data_dir@, c.coinmarketcap_api_key@)),
        Err(e) => Err(e),
    }
}

/// The view of a chosen path.
pub open spec fn path_view(r: Result<String, ConfigError>) -> Result<Seq<char>, ConfigError> {
    match r {
        Ok(p) => Ok(p@),
        Err(e) => Err(e),
    }
}

/// Relies on nix's `Uid::effective` and `Uid::is_root`: whether the process runs
/// with the root user's effective identity. Nothing is promised of the answer.
#[verifier::external_body]
fn effective_user_is_root() -> (r: bool) {
    nix::unistd::Uid::effective().is_root()
}

/// Relies on `dirs::data_dir`: the platform's per-user data directory, if the
/// environment gives one. Nothing is promised of the answer.
#[verifier::external_body]
fn platform_data_dir() -> (r: Option<String>) {
    dirs::data_dir().map(|d| d.to_string_lossy().into_owned())
}

/// Relies on `dirs::config_dir`: the platform's per-user configuration directory,
/// if the environment gives one. Nothing is promised of the answer.
#[verifier::external_body]
fn platform_config_dir() -> (r: Option<String>) {
    dirs::config_dir().map(|d| d.to_string_lossy().into_owned())
}

impl Config {
    /// A configuration with nothing set yet.
    pub fn empty() -> (r: Config)
        ensures
            r.data_dir@.len() == 0,
            r.coinmarketcap_api_key@.len() == 0,
    {
        Config { data_dir: String::new(), coinmarketcap_api_key: String::new() }
    }

    /// Resolves the configuration of a run on this machine.
    ///
    /// `files` holds what reading each configuration file gave, lowest precedence
    /// first; `data_dir_kind` is what the explicit data directory, if any, names on
    /// disk. Whether the process is privileged and where the platform keeps user
    /// data are asked of the system.
    pub fn new(cli_args: Args, files: Vec<FileFragment>, data_dir_kind: PathKind) -> (r: Result<Config, ConfigError>)
        ensures
            exists|privileged: bool, platform: Option<Seq<char>>|
                resolved_view(r) == #[trigger] resolution(cli_args, files@, privileged, data_dir_kind, platform),
    {
        let privileged = effective_user_is_root();
        let platform = platform_data_dir();
        let r = Config::resolve(cli_args, files, privileged, data_dir_kind, platform);
        assert(resolved_view(r) == resolution(cli_args, files@, privileged, data_dir_kind, opt_view(platform)));
        r
    }

    /// Resolves the configuration from all its sources.
    ///
    /// The files are merged first (lowest precedence first), then the command
    /// line on top; the data directory follows `data_dir_choice`. A resolved
    /// configuration has a non-empty data directory and a non-empty API key.
    pub fn resolve(
        cli_args: Args,
        files: Vec<FileFragment>,
        privileged: bool,
        data_dir_kind: PathKind,
        platform_data_dir: Option<String>,
    ) -> (r: Result<Config, ConfigError>)
        ensures
            resolved_view(r) == resolution(cli_args, files@, privileged, data_dir_kind, opt_view(platform_data_dir)),
            r matches Ok(c) ==> c.data_dir@.len() > 0 && c.coinmarketcap_api_key@.len() > 0,
    {
        let ghost args = cli_args;
        let mut cfg = Config::empty();
        let ghost files_view = files@;
        let config_file = match ConfigFile::merge_all(files) {
            Ok(f) => f,
            Err(e) => return Err(e),
        };
        proof {
            lemma_merged_files_key_nonempty(files_view);
        }
        cfg.merge_with_cfg_file(config_file);
        match cfg.merge_with_cli_args(cli_args, privileged, data_dir_kind, platform_data_dir) {
            Ok(()) => {},
            Err(e) => return Err(e),
        }
        proof {
            lemma_data_dir_choice_nonempty(
                privileged,
                opt_view(args.data_dir),
                data_dir_kind,
                opt_view(platform_data_dir),
            );
        }
        if cfg.coinmarketcap_api_key.as_str().is_empty() {
            return Err(ConfigError::MissingApiKey);
        }
        Ok(cfg)
    }

    /// Takes the API key of a configuration file where it is set and non-empty.
    pub fn merge_with_cfg_file(&mut self, cfg_file: ConfigFile)
        ensures
            final(self).data_dir == old(self).data_dir,
            final(self).coinmarketcap_api_key@ == match nonempty(cfg_file.coinmarketcap_api_key) {
                Some(k) => k,
                None => old(self).coinmarketcap_api_key@,
            },
    {
        let ConfigFile { coinmarketcap_api_key } = cfg_file;
        if let Some(t) = coinmarketcap_api_key {
            if !t.as_str().is_empty() {
                self.coinmarketcap_api_key = t;
            }
        }
    }

    /// Sets the data directory (see `data_dir_choice`) and takes the command
    /// line's API key where it is set and non-empty. On an error nothing changes.
    pub fn merge_with_cli_args(
        &mut self,
        cli_args: Args,
        privileged: bool,
        data_dir_kind: PathKind,
        platform_data_dir: Option<String>,
    ) -> (r: Result<(), ConfigError>)
        ensures
            ({
                let choice = data_dir_choice(
                    privileged,
                    opt_view(cli_args.data_dir),
                    data_dir_kind,
                    opt_view(platform_data_dir),
                );
                match r {
                    Ok(()) => {
                        &&& choice == Ok::<Seq<char>, ConfigError>(final(self).data_dir@)
                        &&& final(self).coinmarketcap_api_key@ == match nonempty(cli_args.coinmarketcap_api_key) {
                            Some(k) => k,
                            None => old(self).coinmarketcap_api_key@,
                        }
                    },
                    Err(e) => {
                        &&& choice == Err::<Seq<char>, ConfigError>(e)
                        &&& *final(self) == *old(self)
                    },
                }
            }),
    {
        let Args { config: _, data_dir, coinmarketcap_api_key } = cli_args;
        let dir = if privileged {
            SYSTEM_DATA_DIR.to_owned()
        } else {
            match data_dir {
                Some(p) => {
                    let usable = match data_dir_kind {
                        PathKind::Directory => true,
                        PathKind::Missing => true,
                        _ => false,
                    };
                    if usable && !p.as_str().is_empty() {
                        p
                    } else {
                        return Err(ConfigError::InvalidPath);
                    }
                },
                None => match platform_data_dir {
                    Some(d) => join_path(d.as_str(), PKG_NAME),
                    None => return Err(ConfigError::NoDataDir),
                },
            }
        };
        self.data_dir = dir;
        if let Some(t) = coinmarketcap_api_key {
            if !t.as_str().is_empty() {
                self.coinmarketcap_api_key = t;
            }
        }
        Ok(())
    }
}

impl ConfigFile {
    /// A configuration file that sets nothing.
    pub fn empty() -> (r: ConfigFile)
        ensures
            r.coinmarketcap_api_key is None,
    {
        ConfigFile { coinmarketcap_api_key: None }
    }

    /// Lays `other` over `self`: its API key wins where it is set and non-empty.
    pub fn merge(&mut self, other: &ConfigFile)
        ensures
            opt_view(final(self).coinmarketcap_api_key) == prefer(
                nonempty(other.coinmarketcap_api_key),
                opt_view(old(self).coinmarketcap_api_key),
            ),
    {
        if let Some(t) = &other.coinmarketcap_api_key {
            if !t.as_str().is_empty() {
                self.coinmarketcap_api_key = Some(t.clone());
            }
        }
    }

    /// Merges what reading each configuration file gave, lowest precedence first.
    ///
    /// A malformed file fails the whole merge; a missing one is skipped. Only
    /// a non-empty key is ever taken.
    pub fn merge_all(files: Vec<FileFragment>) -> (r: Result<ConfigFile, ConfigError>)
        ensures
            match r {
                Ok(f) => merged_files_key(files@) == Ok::<Option<Seq<char>>, ConfigError>(
                    opt_view(f.coinmarketcap_api_key),
                ),
                Err(e) => merged_files_key(files@) == Err::<Option<Seq<char>>, ConfigError>(e),
            },
    {
        let mut acc: Result<ConfigFile, ConfigError> = Ok(ConfigFile::empty());
        let mut i: usize = 0;
        while i < files.len()
            invariant
                i <= files@.len(),
                match acc {
                    Ok(f) => merged_files_key(files@.subrange(0, i as int))
                        == Ok::<Option<Seq<char>>, ConfigError>(opt_view(f.coinmarketcap_api_key)),
                    Err(e) => merged_files_key(files@.subrange(0, i as int))
                        == Err::<Option<Seq<char>>, ConfigError>(e),
                },
            decreases files@.len() - i,
        {
            proof {
                let next = files@.subrange(0, i + 1);
                assert(next.drop_last() =~= files@.subrange(0, i as int));
                assert(next.last() == files@[i as int]);
            }
            if let Ok(f) = &mut acc {
                match &files[i] {
                    FileFragment::Missing => {},
                    FileFragment::Parsed(g) => f.merge(g),
                    FileFragment::Malformed => {
                        acc = Err(ConfigError::ParseFailure);
                    },
                }
            }
            i += 1;
        }
        assert(files@.subrange(0, files@.len() as int) =~= files@);
        acc
    }

    /// Chooses the user configuration file: the explicit path, which must name
    /// a file, else `<config dir>/coin-price/config.toml`.
    pub fn select_user_config(
        explicit: Option<String>,
        explicit_kind: PathKind,
        platform_config_dir: Option<String>,
    ) -> (r: Result<String, ConfigError>)
        ensures
            path_view(r) == user_config_choice(opt_view(explicit), explicit_kind, opt_view(platform_config_dir)),
    {
        match explicit {
            Some(p) => match explicit_kind {
                PathKind::File => Ok(p),
                _ => Err(ConfigError::InvalidPath),
            },
            None => match platform_config_dir {
                Some(d) => {
                    let dir = join_path(d.as_str(), PKG_NAME);
                    Ok(join_path(dir.as_str(), CONFIG_FILE_NAME))
                },
                None => Err(ConfigError::NoConfigFile),
            },
        }
    }

    /// Chooses the user configuration file on this machine; `explicit_kind` is
    /// what the explicit path, if any, names on disk.
    pub fn user_config_path(explicit: Option<String>, explicit_kind: PathKind) -> (r: Result<String, ConfigError>)
        ensures
            exists|platform: Option<Seq<char>>|
                path_view(r) == #[trigger] user_config_choice(opt_view(explicit), explicit_kind, platform),
    {
        let platform = platform_config_dir();
        let r = ConfigFile::select_user_config(explicit, explicit_kind, platform);
        assert(path_view(r) == user_config_choice(opt_view(explicit), explicit_kind, opt_view(platform)));
        r
    }

    /// The configuration files to read, in merge order: the system file, then
    /// the user's.
    pub fn files_in_merge_order(user_config: String) -> (r: Vec<String>)
        ensures
            r@.len() == 2,
            r@[0]@ == SYSTEM_CONFIG_FILE@,
            r@[1]@ == user_config@,
    {
        let mut r: Vec<String> = Vec::new();
        r.push(SYSTEM_CONFIG_FILE.to_owned());
        r.push(user_config);
        r
    }
}

/// Merging files fails only on a malformed file.
pub proof fn lemma_merged_files_error(files: Seq<FileFragment>)
    ensures
        merged_files_key(files) matches Err(e) ==> e == ConfigError::ParseFailure,
    decreases files.len(),
{
    if files.len() > 0 {
        lemma_merged_files_error(files.drop_last());
    }
}

/// A key that merging files yields is never empty.
pub proof fn lemma_merged_files_key_nonempty(files: Seq<FileFragment>)
    ensures
        merged_files_key(files) matches Ok(Some(k)) ==> k.len() > 0,
    decreases files.len(),
{
    if files.len() > 0 {
        lemma_merged_files_key_nonempty(files.drop_last());
    }
}

/// Every data directory that `data_dir_choice` picks is non-empty.
pub proof fn lemma_data_dir_choice_nonempty(
    privileged: bool,
    explicit: Option<Seq<char>>,
    explicit_kind: PathKind,
    platform_data_dir: Option<Seq<char>>,
)
    ensures
        data_dir_choice(privileged, explicit, explicit_kind, platform_data_dir) matches Ok(d)
            ==> d.len() > 0,
{
    reveal_strlit("/var/lib/coin-price");
}

} // verus!

verus! {

/// The API key one configuration file contributes.
pub open spec fn fragment_key(f: FileFragment) -> Option<Seq<char>> {
    match f {
        FileFragment::Parsed(c) => nonempty(c.coinmarketcap_api_key),
        _ => None,
    }
}

/// Precedence of the API key: with a system file and a user file (each present
/// or missing, neither malformed) and a usable data directory, the resolved key
/// is the one of the highest-precedence source that sets a non-empty key —
/// command line, then user file, then system file — and resolution fails with
/// `MissingApiKey` when none does.
pub proof fn law_api_key_precedence(
    cli_args: Args,
    system: FileFragment,
    user: FileFragment,
    privileged: bool,
    data_dir_kind: PathKind,
    platform_data_dir: Option<Seq<char>>,
)
    requires
        !(system is Malformed),
        !(user is Malformed),
        data_dir_choice(privileged, opt_view(cli_args.data_dir), data_dir_kind, platform_data_dir) is Ok,
    ensures
        ({
            let r = resolution(cli_args, seq![system, user], privileged, data_dir_kind, platform_data_dir);
            let dir = data_dir_choice(privileged, opt_view(cli_args.data_dir), data_dir_kind, platform_data_dir)->Ok_0;
            match prefer(nonempty(cli_args.coinmarketcap_api_key), prefer(fragment_key(user), fragment_key(system))) {
                Some(k) => r == Ok::<(Seq<char>, Seq<char>), ConfigError>((dir, k)),
                None => r == Err::<(Seq<char>, Seq<char>), ConfigError>(ConfigError::MissingApiKey),
            }
        }),
{
    let files = seq![system, user];
    assert(files.drop_last() =~= seq![system]);
    assert(files.drop_last().drop_last() =~= Seq::<FileFragment>::empty());
    assert(merged_files_key(Seq::<FileFragment>::empty()) == Ok::<Option<Seq<char>>, ConfigError>(None));
    assert(merged_files_key(seq![system]) == Ok::<Option<Seq<char>>, ConfigError>(fragment_key(system)));
    assert(merged_files_key(files) == Ok::<Option<Seq<char>>, ConfigError>(
        prefer(fragment_key(user), fragment_key(system)),
    ));
}

/// With root privileges the data directory is always the system one: no
/// explicit directory, path kind or platform directory changes it, and the
/// data-directory step never fails.
pub proof fn law_privileged_data_dir(
    cli_args: Args,
    files: Seq<FileFragment>,
    data_dir_kind: PathKind,
    platform_data_dir: Option<Seq<char>>,
)
    ensures
        data_dir_choice(true, opt_view(cli_args.data_dir), data_dir_kind, platform_data_dir)
            == Ok::<Seq<char>, ConfigError>(SYSTEM_DATA_DIR@),
        resolution(cli_args, files, true, data_dir_kind, platform_data_dir) matches Ok((d, _))
            ==> d == SYSTEM_DATA_DIR@,
        resolution(cli_args, files, true, data_dir_kind, platform_data_dir)
            != Err::<(Seq<char>, Seq<char>), ConfigError>(ConfigError::InvalidPath),
        resolution(cli_args, files, true, data_dir_kind, platform_data_dir)
            != Err::<(Seq<char>, Seq<char>), ConfigError>(ConfigError::NoDataDir),
{
    lemma_merged_files_error(files);
}

/// An explicit data directory that names an existing regular file is refused
/// with `InvalidPath` (for an unprivileged run whose configuration files parse).
pub proof fn law_file_as_data_dir_rejected(
    cli_args: Args,
    files: Seq<FileFragment>,
    platform_data_dir: Option<Seq<char>>,
)
    requires
        cli_args.data_dir is Some,
        merged_files_key(files) is Ok,
    ensures
        resolution(cli_args, files, false, PathKind::File, platform_data_dir)
            == Err::<(Seq<char>, Seq<char>), ConfigError>(ConfigError::InvalidPath),
{
}

} // verus!
