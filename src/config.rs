//! Where configuration lives, and when it may be written.
use vstd::prelude::*;

verus! {

/// The directory of a project that holds its configuration.
pub const PROJECT_CONFIG_DIR: &'static str = ".rex";

/// The name of a configuration file.
pub const CONFIG_FILE_NAME: &'static str = "config.json";

/// A relative path component appended to a base path: nothing is added to
/// an empty base, and no second separator after one that ends in `/`.
pub open spec fn path_join(base: Seq<char>, part: Seq<char>) -> Seq<char> {
    if base.len() == 0 {
        part
    } else if base.last() == '/' {
        base + part
    } else {
        base + seq!['/'] + part
    }
}

/// Appends the relative component `part` to `base`.
pub fn join_path(base: &str, part: &str) -> (r: String)
    ensures
        r@ == path_join(base@, part@),
{
    let n = base.unicode_len();
    if n == 0 {
        return String::from_str(part);
    }
    let joined = String::from_str(base);
    if base.get_char(n - 1) == '/' {
        joined.concat(part)
    } else {
        let with_separator = joined.concat("/");
        proof {
            reveal_strlit("/");
        }
        with_separator.concat(part)
    }
}

/// The configuration file of the project in `project_dir`:
/// `<project_dir>/.rex/config.json`.
pub fn local_config_path(project_dir: &str) -> (r: String)
    ensures
        r@ == path_join(path_join(project_dir@, PROJECT_CONFIG_DIR@), CONFIG_FILE_NAME@),
{
    let dir = join_path(project_dir, PROJECT_CONFIG_DIR);
    join_path(dir.as_str(), CONFIG_FILE_NAME)
}

/// Why a configuration file was not written.
#[derive(Debug, Clone, Copy, PartialEq, Eq, Structural)]
pub enum ConfigError {
    /// The file exists and overwriting was not asked for.
    AlreadyExists,
}

/// Whether a default configuration may be written to a path: refused
/// exactly when a file is already there and `force` is off.
pub fn check_overwrite(exists: bool, force: bool) -> (r: Result<(), ConfigError>)
    ensures
        r is Err <==> (exists && !force),
        r matches Err(e) ==> e == ConfigError::AlreadyExists,
{
    if exists && !force {
        Err(ConfigError::AlreadyExists)
    } else {
        Ok(())
    }
}

} // verus!
