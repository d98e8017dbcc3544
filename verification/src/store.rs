//! Where the preference file lives: a fixed relative path below the user's
//! configuration directory, or below the current directory where the
//! platform names none.

use vstd::prelude::*;
use vstd::string::StringExecFns;

verus! {

/// The path of the preference file below `dir`, or below `.` where `dir`
/// is absent.
pub open spec fn config_path_in(dir: Option<Seq<char>>) -> Seq<char> {
    let base = match dir {
        Some(d) => d,
        None => "."@,
    };
    base + "/"@ + "emojid/config.toml"@
}

/// The text of an optional directory.
pub open spec fn dir_view(dir: Option<String>) -> Option<Seq<char>> {
    match dir {
        Some(d) => Some(d@),
        None => None,
    }
}

/// Calls `dirs::config_dir`, which looks the user's configuration directory
/// up in the environment. Nothing is claimed of the result: it may be any
/// directory or none. A directory whose name is not valid UTF-8 counts as
/// none.
#[verifier::external_body]
fn user_config_dir() -> (r: Option<String>) {
    match dirs::config_dir() {
        Some(p) => p.into_os_string().into_string().ok(),
        None => None,
    }
}

/// The path of the preference file, given the user's configuration
/// directory where there is one.
pub fn config_path_from(dir: Option<String>) -> (path: String)
    ensures
        path@ == config_path_in(dir_view(dir)),
{
    let base: String = match dir {
        Some(d) => d,
        None => ".".to_owned(),
    };
    base.concat("/").concat("emojid/config.toml")
}

/// The path of the preference file on this machine. Whatever the
/// environment names as the configuration directory, the path is the one
/// that `config_path_in` gives for it.
pub fn config_path() -> (path: String)
    ensures
        exists|dir: Option<Seq<char>>| path@ == config_path_in(dir),
{
    let dir: Option<String> = user_config_dir();
    config_path_from(dir)
}

} // verus!
