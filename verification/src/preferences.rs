//! What the user prefers: which directory to scan and how wide the grid is.

use crate::locations::{get_default_script_dir, is_under_some_dir, APP_ID};
use vstd::prelude::*;

verus! {

/// The number of columns of the grid where the user chose none.
pub const DEFAULT_NUM_COLS: usize = 3;

/// The application's preferences.
#[derive(Debug, Clone, PartialEq, Eq)]
pub struct AppPreferences {
    /// The directory that is scanned for executables, if one was chosen.
    pub script_dir: Option<String>,
    /// The directory that is scanned where none was chosen.
    pub default_script_dir: String,
    /// The number of columns of the grid; never zero.
    pub num_cols: usize,
}

impl AppPreferences {
    /// Preferences are well formed when the grid has a column.
    pub open spec fn wf(self) -> bool {
        self.num_cols > 0
    }

    /// The directory that these preferences point at: the chosen one, or
    /// the default where none was chosen.
    pub open spec fn effective_dir(self) -> String {
        match self.script_dir {
            Some(dir) => dir,
            None => self.default_script_dir,
        }
    }

    /// Preferences with the given fields.
    pub fn with_default_dir(
        script_dir: Option<String>,
        default_script_dir: String,
        num_cols: usize,
    ) -> (preferences: Self)
        requires
            num_cols > 0,
        ensures
            preferences == (AppPreferences { script_dir, default_script_dir, num_cols }),
            preferences.wf(),
    {
        AppPreferences { script_dir, default_script_dir, num_cols }
    }

    /// The preferences that `default_script_dir` gives where the user has
    /// chosen nothing: that directory is scanned, in three columns.
    pub fn default_with_dir(default_script_dir: String) -> (preferences: Self)
        ensures
            preferences == (AppPreferences {
                script_dir: Some(default_script_dir),
                default_script_dir,
                num_cols: DEFAULT_NUM_COLS,
            }),
            preferences.wf(),
    {
        let chosen = default_script_dir.clone();
        AppPreferences {
            script_dir: Some(chosen),
            default_script_dir,
            num_cols: DEFAULT_NUM_COLS,
        }
    }

    /// Preferences for a chosen directory and width, given what was found
    /// of the default directory: there are preferences exactly when one was
    /// found, and they hold it beside the choice and the width.
    pub fn from_found(
        script_dir: Option<String>,
        found: Option<String>,
        num_cols: usize,
    ) -> (preferences: Option<Self>)
        requires
            num_cols > 0,
        ensures
            preferences == (match found {
                Some(default_script_dir) => Some(
                    AppPreferences { script_dir, default_script_dir, num_cols },
                ),
                None => None,
            }),
            preferences matches Some(p) ==> p.wf(),
    {
        match found {
            Some(default_script_dir) => Some(
                Self::with_default_dir(script_dir, default_script_dir, num_cols),
            ),
            None => None,
        }
    }

    /// The preferences of a user who has chosen nothing, given what was
    /// found of the default directory: there are preferences exactly when one
    /// was found, and they scan it in three columns.
    pub fn default_from_found(found: Option<String>) -> (preferences: Option<Self>)
        ensures
            preferences == (match found {
                Some(default_script_dir) => Some(
                    AppPreferences {
                        script_dir: Some(default_script_dir),
                        default_script_dir,
                        num_cols: DEFAULT_NUM_COLS,
                    },
                ),
                None => None,
            }),
            preferences matches Some(p) ==> p.wf(),
    {
        match found {
            Some(default_script_dir) => Some(Self::default_with_dir(default_script_dir)),
            None => None,
        }
    }

    /// Preferences for a chosen directory and width, with this user's
    /// default directory beside them. `None` where the platform has no
    /// directory for the user's executables, so that no default can be
    /// named.
    pub fn new(script_dir: Option<String>, num_cols: usize) -> (preferences: Option<Self>)
        requires
            num_cols > 0,
        ensures
            preferences matches Some(p) ==> {
                &&& p.script_dir == script_dir
                &&& p.num_cols == num_cols
                &&& p.wf()
                &&& is_under_some_dir(Some(p.default_script_dir), APP_ID@)
            },
    {
        Self::from_found(script_dir, get_default_script_dir(), num_cols)
    }

    /// The preferences of a user who has chosen nothing. `None` where the
    /// platform has no directory for the user's executables.
    pub fn default() -> (preferences: Option<Self>)
        ensures
            preferences matches Some(p) ==> {
                &&& p.script_dir == Some(p.default_script_dir)
                &&& p.num_cols == DEFAULT_NUM_COLS
                &&& p.wf()
                &&& is_under_some_dir(Some(p.default_script_dir), APP_ID@)
            },
    {
        Self::default_from_found(get_default_script_dir())
    }

    /// The directory to scan: the chosen one, or the default.
    pub fn get_script_dir(&self) -> (dir: &String)
        ensures
            *dir == self.effective_dir(),
    {
        match &self.script_dir {
            Some(dir) => dir,
            None => &self.default_script_dir,
        }
    }

    /// Chooses `path` as the directory to scan.
    pub fn set_script_dir(&mut self, path: String)
        ensures
            *final(self) == (AppPreferences { script_dir: Some(path), ..*old(self) }),
            final(self).effective_dir() == path,
    {
        self.script_dir = Some(path);
    }
}

} // verus!
