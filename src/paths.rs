use vstd::prelude::*;
use vstd::string::*;

verus! {

/// Relies on `shellexpand::full`: `~` and `$VAR` expansion against the
/// process environment, `None` when a variable is unset. Text with no `$`
/// and no leading `~` comes back unchanged.
#[verifier::external_body]
fn shell_expand(path: &str) -> (r: Option<String>)
    ensures
        !path@.contains('$') && !(path@.len() > 0 && path@[0] == '~') ==> r is Some
            && r->Some_0@ == path@,
{
    match shellexpand::full(path) {
        Ok(text) => Some(text.into_owned()),
        Err(_) => None,
    }
}

/// Relies on `dirs::data_local_dir`: the platform's per-user local data
/// directory, if it can be determined.
#[verifier::external_body]
fn platform_data_dir() -> (r: Option<String>) {
    dirs::data_local_dir().map(|p| p.to_string_lossy().into_owned())
}

/// Relies on `dirs::config_dir`: the platform's per-user configuration
/// directory, if it can be determined.
#[verifier::external_body]
fn platform_config_dir() -> (r: Option<String>) {
    dirs::config_dir().map(|p| p.to_string_lossy().into_owned())
}

/// `name` appended to `base` as a path component.
pub open spec fn joined(base: Seq<char>, name: Seq<char>) -> Seq<char> {
    if base.len() == 0 {
        name
    } else if base.last() == '/' {
        base + name
    } else {
        base + "/"@ + name
    }
}

/// Append a component to a directory path.
pub fn join_path(base: &str, name: &str) -> (r: String)
    ensures
        r@ == joined(base@, name@),
{
    let n = base.unicode_len();
    if n == 0 {
        return String::from_str(name);
    }
    let start = String::from_str(base);
    if base.get_char(n - 1) == '/' {
        start.concat(name)
    } else {
        start.concat("/").concat(name)
    }
}

/// Why the application paths cannot be set up.
#[derive(Debug, Clone, Copy, PartialEq, Eq, Structural)]
pub enum PathsError {
    /// The platform gives no data directory.
    NoDataDir,
    /// The platform gives no configuration directory.
    NoConfigDir,
    /// A configured path names an unset variable.
    Expansion,
}

/// Optional overrides of the default locations (the `[paths]` section).
#[derive(Debug, Clone)]
pub struct PathsConfig {
    pub data_dir: Option<String>,
    pub deps_dir: Option<String>,
    pub socket_path: Option<String>,
}

impl Default for PathsConfig {
    fn default() -> (r: Self)
        ensures
            r.data_dir.is_none(),
            r.deps_dir.is_none(),
            r.socket_path.is_none(),
    {
        PathsConfig { data_dir: None, deps_dir: None, socket_path: None }
    }
}

impl PathsConfig {
    /// Expand `~` and environment variables in a configured path.
    pub fn expand_path(path: &str) -> (r: Result<String, PathsError>)
        ensures
            r is Err ==> r == Err::<String, PathsError>(PathsError::Expansion),
            !path@.contains('$') && !(path@.len() > 0 && path@[0] == '~') ==> r is Ok && r->Ok_0@
                == path@,
    {
        match shell_expand(path) {
            Some(p) => Ok(p),
            None => Err(PathsError::Expansion),
        }
    }
}

/// A configured path that expansion leaves as it is.
pub open spec fn literal_path(o: Option<String>) -> bool {
    o matches Some(d) && !d@.contains('$') && !(d@.len() > 0 && d@[0] == '~')
}

/// Every location the daemon uses.
#[derive(Debug, Clone)]
pub struct AppPaths {
    pub data_dir: String,
    pub config_dir: String,
    pub config_file: String,
    pub state_file: String,
    pub socket_path: String,
    pub log_file: String,
    pub deps_dir: String,
    pub deps_bin_dir: String,
    pub deps_src_dir: String,
}

/// The locations derived from the three chosen directories.
pub open spec fn derived_paths(p: AppPaths) -> bool {
    &&& p.config_file@ == joined(p.config_dir@, "config.toml"@)
    &&& p.state_file@ == joined(p.data_dir@, "state.json"@)
    &&& p.log_file@ == joined(p.data_dir@, "daemon.log"@)
    &&& p.deps_bin_dir@ == joined(p.deps_dir@, "bin"@)
    &&& p.deps_src_dir@ == joined(p.deps_dir@, "src"@)
}

fn expand_or(custom: &Option<String>) -> (r: Option<Result<String, PathsError>>)
    ensures
        custom.is_none() == r.is_none(),
        custom matches Some(c) ==> (r->Some_0 is Err ==> r->Some_0 == Err::<String, PathsError>(
            PathsError::Expansion)) && (!c@.contains('$') && !(c@.len() > 0 && c@[0] == '~')
            ==> r->Some_0 is Ok && r->Some_0->Ok_0@ == c@),
{
    match custom {
        None => None,
        Some(c) => Some(PathsConfig::expand_path(c.as_str())),
    }
}

impl AppPaths {
    /// The default locations, with no overrides.
    pub fn new() -> (r: Result<Self, PathsError>)
        ensures
            r matches Ok(p) ==> derived_paths(p),
    {
        AppPaths::from_config(None, None)
    }

    /// Resolve the locations. The data directory is the configured one or
    /// the platform's `encodetalker` data directory; the configuration
    /// directory is always the platform's. The dependency directory is the
    /// configured one, else `portable_deps_dir` (a `.dependencies` folder
    /// found beside the executable), else `deps` under the data directory.
    /// The socket is the configured path or `daemon.sock` in the data
    /// directory.
    pub fn from_config(paths_config: Option<PathsConfig>, portable_deps_dir: Option<String>) -> (r:
        Result<Self, PathsError>)
        ensures
            r matches Ok(p) ==> {
                &&& derived_paths(p)
                &&& paths_config.is_none() || paths_config->Some_0.deps_dir.is_none() ==> (
                    match portable_deps_dir {
                        Some(d) => p.deps_dir@ == d@,
                        None => p.deps_dir@ == joined(p.data_dir@, "deps"@),
                    })
                &&& paths_config.is_none() || paths_config->Some_0.socket_path.is_none()
                    ==> p.socket_path@ == joined(p.data_dir@, "daemon.sock"@)
                &&& paths_config matches Some(c) ==> (literal_path(c.data_dir) ==> p.data_dir@
                    == c.data_dir->Some_0@)
                &&& paths_config matches Some(c) ==> (literal_path(c.deps_dir) ==> p.deps_dir@
                    == c.deps_dir->Some_0@)
                &&& paths_config matches Some(c) ==> (literal_path(c.socket_path)
                    ==> p.socket_path@ == c.socket_path->Some_0@)
            },
            r matches Err(e) ==> e == PathsError::Expansion || e == PathsError::NoDataDir || e
                == PathsError::NoConfigDir,
    {
        let config = match paths_config {
            Some(c) => c,
            None => PathsConfig { data_dir: None, deps_dir: None, socket_path: None },
        };
        let data_dir = match expand_or(&config.data_dir) {
            Some(Ok(d)) => d,
            Some(Err(e)) => return Err(e),
            None => match platform_data_dir() {
                Some(base) => join_path(base.as_str(), "encodetalker"),
                None => return Err(PathsError::NoDataDir),
            },
        };
        let config_dir = match platform_config_dir() {
            Some(base) => join_path(base.as_str(), "encodetalker"),
            None => return Err(PathsError::NoConfigDir),
        };
        let deps_dir = match expand_or(&config.deps_dir) {
            Some(Ok(d)) => d,
            Some(Err(e)) => return Err(e),
            None => match portable_deps_dir {
                Some(d) => d,
                None => join_path(data_dir.as_str(), "deps"),
            },
        };
        let socket_path = match expand_or(&config.socket_path) {
            Some(Ok(d)) => d,
            Some(Err(e)) => return Err(e),
            None => join_path(data_dir.as_str(), "daemon.sock"),
        };
        Ok(
            AppPaths {
                config_file: join_path(config_dir.as_str(), "config.toml"),
                state_file: join_path(data_dir.as_str(), "state.json"),
                log_file: join_path(data_dir.as_str(), "daemon.log"),
                deps_bin_dir: join_path(deps_dir.as_str(), "bin"),
                deps_src_dir: join_path(deps_dir.as_str(), "src"),
                data_dir,
                config_dir,
                deps_dir,
                socket_path,
            },
        )
    }
}

} // verus!
