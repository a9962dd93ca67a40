//! Resolution of the port and the data directory from what the process found around it.

use vstd::prelude::*;
use crate::text::ends_with_char;

verus! {

/// The variable that names the port.
pub const PORT_VAR: &'static str = "PORT";

/// The variable that names the data directory.
pub const DATA_DIR_VAR: &'static str = "DATA_DIR";

/// The variable that names the chess engine, handed on to the backend when set.
pub const STOCKFISH_PATH_VAR: &'static str = "STOCKFISH_PATH";

/// The port used when the environment gives none.
pub const DEFAULT_PORT: &'static str = "42069";

/// The application's directory below the base directory.
pub const APP_DIR_NAME: &'static str = "LocalChessAnalyzer";

/// The data directory below the application's directory.
pub const DATA_DIR_NAME: &'static str = "data";

/// The character between the components of a path.
pub const SEPARATOR: char = '/';

/// Why no configuration could be resolved.
#[derive(Debug, Clone, Copy, PartialEq, Eq)]
pub enum ConfigError {
    /// Neither the application data directory nor the home directory could be found.
    NoBaseDirectory,
}

/// The values the backend is started with.
#[derive(Debug, Clone, PartialEq, Eq)]
pub struct Config {
    pub port: String,
    pub data_dir: String,
}

/// A `Config` as plain text values.
pub struct ConfigView {
    pub port: Seq<char>,
    pub data_dir: Seq<char>,
}

impl View for Config {
    type V = ConfigView;

    open spec fn view(&self) -> ConfigView {
        ConfigView { port: self.port@, data_dir: self.data_dir@ }
    }
}

/// The port: the variable's value where it is set and not empty, else the default.
pub open spec fn resolved_port(port_var: Option<Seq<char>>) -> Seq<char> {
    match port_var {
        Some(value) => if value.len() > 0 {
            value
        } else {
            DEFAULT_PORT@
        },
        None => DEFAULT_PORT@,
    }
}

/// The directory that defaults are placed under: the application data directory where it
/// was found, else the home directory, if that was found.
pub open spec fn base_dir(app_data_dir: Option<Seq<char>>, home_dir: Option<Seq<char>>) -> Option<
    Seq<char>,
> {
    match app_data_dir {
        Some(dir) => Some(dir),
        None => home_dir,
    }
}

/// `component` placed below `base`. A separator goes between the two unless `base` is empty
/// or already ends in one.
pub open spec fn joined(base: Seq<char>, component: Seq<char>) -> Seq<char> {
    if base.len() == 0 || base.last() == SEPARATOR {
        base + component
    } else {
        base + seq![SEPARATOR] + component
    }
}

/// The data directory used when the environment names none.
pub open spec fn default_data_dir_of(base: Seq<char>) -> Seq<char> {
    joined(joined(base, APP_DIR_NAME@), DATA_DIR_NAME@)
}

/// The data directory: the variable's value as it is where it is set, else the default
/// below `base`.
pub open spec fn resolved_data_dir(data_dir_var: Option<Seq<char>>, base: Seq<char>) -> Seq<char> {
    match data_dir_var {
        Some(value) => value,
        None => default_data_dir_of(base),
    }
}

/// The configuration, or `None` where no base directory was found. The base directory is
/// needed even where the data directory is given.
pub open spec fn resolved_config(
    port_var: Option<Seq<char>>,
    data_dir_var: Option<Seq<char>>,
    app_data_dir: Option<Seq<char>>,
    home_dir: Option<Seq<char>>,
) -> Option<ConfigView> {
    match base_dir(app_data_dir, home_dir) {
        Some(base) => Some(
            ConfigView {
                port: resolved_port(port_var),
                data_dir: resolved_data_dir(data_dir_var, base),
            },
        ),
        None => None,
    }
}

/// Chooses the port from the value of the port variable, `None` standing for unset.
pub fn resolve_port(port_var: Option<String>) -> (port: String)
    ensures
        port@ == resolved_port(port_var.deep_view()),
{
    match port_var {
        Some(value) => {
            if value.as_str().is_empty() {
                String::from_str(DEFAULT_PORT)
            } else {
                value
            }
        },
        None => String::from_str(DEFAULT_PORT),
    }
}

/// Chooses the base directory from the two lookups, `None` standing for a failed one.
pub fn resolve_base_dir(app_data_dir: Option<String>, home_dir: Option<String>) -> (base: Result<
    String,
    ConfigError,
>)
    ensures
        match base {
            Ok(dir) => base_dir(app_data_dir.deep_view(), home_dir.deep_view()) == Some(dir@),
            Err(e) => base_dir(app_data_dir.deep_view(), home_dir.deep_view()) is None && e
                == ConfigError::NoBaseDirectory,
        },
{
    match app_data_dir {
        Some(dir) => Ok(dir),
        None => match home_dir {
            Some(dir) => Ok(dir),
            None => Err(ConfigError::NoBaseDirectory),
        },
    }
}

/// Places `component` below `base`.
pub fn join(base: &str, component: &str) -> (path: String)
    ensures
        path@ == joined(base@, component@),
{
    let mut path = String::from_str(base);
    if !base.is_empty() && !ends_with_char(base, SEPARATOR) {
        path.append("/");
        proof {
            reveal_strlit("/");
            assert("/"@ =~= seq![SEPARATOR]);
        }
    }
    path.append(component);
    path
}

/// The data directory below `base` that is used when the environment names none.
pub fn default_data_dir(base: &str) -> (dir: String)
    ensures
        dir@ == default_data_dir_of(base@),
{
    let app_dir = join(base, APP_DIR_NAME);
    join(app_dir.as_str(), DATA_DIR_NAME)
}

/// Chooses the data directory from the value of its variable, `None` standing for unset.
pub fn resolve_data_dir(data_dir_var: Option<String>, base: &str) -> (dir: String)
    ensures
        dir@ == resolved_data_dir(data_dir_var.deep_view(), base@),
{
    match data_dir_var {
        Some(value) => value,
        None => default_data_dir(base),
    }
}

/// Resolves the configuration from the two variables and the two directory lookups.
/// It fails exactly when both lookups failed.
pub fn resolve_config(
    port_var: Option<String>,
    data_dir_var: Option<String>,
    app_data_dir: Option<String>,
    home_dir: Option<String>,
) -> (config: Result<Config, ConfigError>)
    ensures
        match config {
            Ok(c) => resolved_config(
                port_var.deep_view(),
                data_dir_var.deep_view(),
                app_data_dir.deep_view(),
                home_dir.deep_view(),
            ) == Some(c@),
            Err(e) => resolved_config(
                port_var.deep_view(),
                data_dir_var.deep_view(),
                app_data_dir.deep_view(),
                home_dir.deep_view(),
            ) is None && e == ConfigError::NoBaseDirectory,
        },
{
    match resolve_base_dir(app_data_dir, home_dir) {
        Ok(base) => {
            let port = resolve_port(port_var);
            let data_dir = resolve_data_dir(data_dir_var, base.as_str());
            Ok(Config { port, data_dir })
        },
        Err(e) => Err(e),
    }
}

/// Whatever the base directory, the default data directory lies below it and ends in the
/// application's directory followed by its data directory.
pub proof fn default_data_dir_lies_below_base(base: Seq<char>)
    ensures
        base.is_prefix_of(default_data_dir_of(base)),
        "LocalChessAnalyzer/data"@.is_suffix_of(default_data_dir_of(base)),
        default_data_dir_of(base) == joined(base, APP_DIR_NAME@) + "/data"@,
{
    reveal_strlit("LocalChessAnalyzer");
    reveal_strlit("data");
    reveal_strlit("/data");
    reveal_strlit("LocalChessAnalyzer/data");
    let app_dir = joined(base, APP_DIR_NAME@);
    let dir = default_data_dir_of(base);
    assert(app_dir.len() > 0 && app_dir.last() == 'r');
    assert(dir =~= app_dir + "/data"@);
    assert(base =~= dir.subrange(0, base.len() as int));
    assert("LocalChessAnalyzer/data"@ =~= dir.subrange(
        dir.len() - "LocalChessAnalyzer/data"@.len(),
        dir.len() as int,
    ));
}

/// With the data directory's variable unset, the resolved directory is the default below the
/// base; with it set, the resolved directory is the variable's value, whatever the base.
pub proof fn data_dir_follows_variable(data_dir_var: Option<Seq<char>>, base: Seq<char>)
    ensures
        data_dir_var is None ==> base.is_prefix_of(resolved_data_dir(data_dir_var, base))
            && "LocalChessAnalyzer/data"@.is_suffix_of(resolved_data_dir(data_dir_var, base)),
        data_dir_var matches Some(value) ==> resolved_data_dir(data_dir_var, base) == value,
{
    default_data_dir_lies_below_base(base);
}

/// With the port's variable unset the port is the default; with it set to a text that is
/// not empty the port is that text.
pub proof fn port_follows_variable(port_var: Option<Seq<char>>)
    ensures
        port_var is None ==> resolved_port(port_var) == "42069"@,
        port_var matches Some(value) ==> value.len() > 0 ==> resolved_port(port_var) == value,
{
}

} // verus!
