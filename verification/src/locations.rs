//! Where this application keeps its things by default.
//!
//! The user's directories are found by the `dirs` crate, which reads the
//! environment and the user database. What it finds differs from user to
//! user and from run to run, so nothing is claimed of it beyond its type.
//! What this module adds is fixed: the name that is adjoined to each
//! directory.

use crate::paths::{join, path_joined};
use vstd::prelude::*;

verus! {

/// The application's identifier: the name of its directories and of its
/// stored configuration.
pub const APP_ID: &'static str = "quick_launch";

/// The name of the script directory under the user's home.
pub const HOME_DIR_NAME: &'static str = ".quick_launch";

/// `dirs::executable_dir`: the directory for the user's own executables,
/// where the platform has one. A directory whose name is not valid Unicode
/// counts as none. Nothing is promised of the result.
#[verifier::external_body]
pub(crate) fn executable_dir() -> (dir: Option<String>) {
    dirs::executable_dir()?.into_os_string().into_string().ok()
}

/// `dirs::config_dir`: the directory for the user's configuration files,
/// where one can be found. A directory whose name is not valid Unicode
/// counts as none. Nothing is promised of the result.
#[verifier::external_body]
pub(crate) fn config_dir() -> (dir: Option<String>) {
    dirs::config_dir()?.into_os_string().into_string().ok()
}

/// `dirs::home_dir`: the user's home directory, where one can be found. A
/// directory whose name is not valid Unicode counts as none. Nothing is
/// promised of the result.
#[verifier::external_body]
pub(crate) fn home_dir() -> (dir: Option<String>) {
    dirs::home_dir()?.into_os_string().into_string().ok()
}

/// Whether `found` is what adjoining `name` to some directory gives, or
/// nothing at all.
pub open spec fn is_under_some_dir(found: Option<String>, name: Seq<char>) -> bool {
    found matches Some(path) ==> exists|base: Seq<char>| path@ == #[trigger] path_joined(base, name)
}

/// `name` adjoined to `base`, where there is a base.
pub fn under(base: Option<String>, name: &str) -> (found: Option<String>)
    ensures
        match base {
            Some(b) => found matches Some(path) && path@ == path_joined(b@, name@),
            None => found is None,
        },
{
    match base {
        Some(b) => Some(join(b.as_str(), name)),
        None => None,
    }
}

/// The script directory that is used where the user chose none: the
/// application's own directory among the user's executables. `None` on a
/// platform that has no place for those.
pub fn get_default_script_dir() -> (found: Option<String>)
    ensures
        is_under_some_dir(found, APP_ID@),
{
    under(executable_dir(), APP_ID)
}

/// The directory that holds the application's settings, below the user's
/// configuration directory. `None` where no configuration directory can be
/// found. The directory is named, not created.
pub fn default_quick_launch_settings_dir() -> (found: Option<String>)
    ensures
        is_under_some_dir(found, APP_ID@),
{
    under(config_dir(), APP_ID)
}

/// The directory that is scanned for executables by default, below the
/// user's home. `None` where no home directory can be found. The directory
/// is named, not created.
pub fn default_quick_launch_dir() -> (found: Option<String>)
    ensures
        is_under_some_dir(found, HOME_DIR_NAME@),
{
    under(home_dir(), HOME_DIR_NAME)
}

} // verus!
