//! The two directories that the application works with.

use crate::locations::{
    default_quick_launch_dir, default_quick_launch_settings_dir, is_under_some_dir, APP_ID,
    HOME_DIR_NAME,
};
use vstd::prelude::*;

verus! {

/// Where executables are looked for and where the configuration is kept.
#[derive(Debug, Clone, PartialEq, Eq)]
pub struct Settings {
    /// The directory that is scanned for executables.
    pub exec_dir: String,
    /// The directory that holds the configuration.
    pub config_dir: String,
}

impl Settings {
    /// Settings with the given directories.
    pub fn new(exec_dir: String, config_dir: String) -> (settings: Self)
        ensures
            settings == (Settings { exec_dir, config_dir }),
    {
        Self { exec_dir, config_dir }
    }

    /// Replaces the directory that is scanned.
    pub fn set_exec_dir(&mut self, exec_dir: String)
        ensures
            *final(self) == (Settings { exec_dir, config_dir: old(self).config_dir }),
    {
        self.exec_dir = exec_dir;
    }

    /// Replaces the directory of the configuration.
    pub fn set_config_dir(&mut self, config_dir: String)
        ensures
            *final(self) == (Settings { exec_dir: old(self).exec_dir, config_dir }),
    {
        self.config_dir = config_dir;
    }

    /// The settings of a user who has chosen nothing: both directories at
    /// their default places. `None` where the user's home or configuration
    /// directory cannot be found. The directories are named, not created.
    pub fn at_default_places() -> (settings: Option<Self>)
        ensures
            settings matches Some(s) ==> {
                &&& is_under_some_dir(Some(s.exec_dir), HOME_DIR_NAME@)
                &&& is_under_some_dir(Some(s.config_dir), APP_ID@)
            },
    {
        Self::from_found(default_quick_launch_dir(), default_quick_launch_settings_dir())
    }

    /// Settings from what was found of the two default places: there are
    /// settings exactly when both were found.
    pub fn from_found(exec_dir: Option<String>, config_dir: Option<String>) -> (settings: Option<
        Self,
    >)
        ensures
            settings == (match (exec_dir, config_dir) {
                (Some(exec_dir), Some(config_dir)) => Some(Settings { exec_dir, config_dir }),
                _ => None,
            }),
    {
        match (exec_dir, config_dir) {
            (Some(exec_dir), Some(config_dir)) => Some(Self::new(exec_dir, config_dir)),
            _ => None,
        }
    }
}

} // verus!
