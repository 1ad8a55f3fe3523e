//! What the launcher shows: the scripts of the current directory, laid out
//! in a grid, and the preferences that say which directory and how wide.
//!
//! The state never reads a directory itself. Whoever owns it lists the
//! directory that [`LauncherState::get_script_dir`] names and hands the
//! listing in.

use crate::grid::{cell_index, cell_item, compute_n_rows, rows_needed};
use crate::picker::PickEvent;
use crate::preferences::AppPreferences;
use crate::scan::{scan, scan_result, Listing};
use vstd::prelude::*;

verus! {

/// The launcher's state between two frames.
pub struct LauncherState {
    scripts: Vec<String>,
    preferences: AppPreferences,
}

impl LauncherState {
    #[verifier::type_invariant]
    spec fn inv(self) -> bool {
        self.preferences.wf()
    }

    /// The scripts on show, in the order of the scan that found them.
    pub closed spec fn shown(&self) -> Seq<String> {
        self.scripts@
    }

    /// The preferences in force.
    pub closed spec fn prefs(&self) -> AppPreferences {
        self.preferences
    }

    /// The number of rows of the grid: as many as the scripts on show need
    /// at the preferred width.
    pub open spec fn rows(&self) -> int {
        rows_needed(self.prefs().num_cols as int, self.shown().len() as int)
    }

    /// The state at start: the given preferences, and the scripts that the
    /// listing of their directory holds.
    pub fn new(preferences: AppPreferences, listing: &Listing) -> (state: Self)
        requires
            preferences.wf(),
        ensures
            state.prefs() == preferences,
            state.shown() == scan_result(*listing),
    {
        LauncherState { scripts: scan(listing), preferences }
    }

    /// Replaces the scripts by those of a new listing and lays the grid out
    /// again. The preferences stay.
    pub fn rescan_dir(&mut self, listing: &Listing)
        ensures
            final(self).prefs() == old(self).prefs(),
            final(self).shown() == scan_result(*listing),
    {
        proof {
            use_type_invariant(&*self);
        }
        self.scripts = scan(listing);
    }

    /// The directory whose scripts are to be shown.
    pub fn get_script_dir(&self) -> (dir: &String)
        ensures
            *dir == self.prefs().effective_dir(),
    {
        self.preferences.get_script_dir()
    }

    /// Chooses `path` as the directory to show. The scripts on show stay
    /// until the next rescan.
    pub fn set_script_dir(&mut self, path: String)
        ensures
            final(self).prefs() == (AppPreferences { script_dir: Some(path), ..old(self).prefs() }),
            final(self).shown() == old(self).shown(),
    {
        proof {
            use_type_invariant(&*self);
        }
        self.preferences.script_dir = Some(path);
    }

    /// Takes in what the folder picker reported. Returns whether a folder
    /// was chosen, and so whether the owner must store the preferences and
    /// rescan: only a choice changes anything.
    pub fn adopt(&mut self, event: PickEvent) -> (changed: bool)
        ensures
            changed == (event is Chosen),
            final(self).shown() == old(self).shown(),
            match event {
                PickEvent::Chosen(folder) => final(self).prefs() == (AppPreferences {
                    script_dir: Some(folder),
                    ..old(self).prefs()
                }),
                _ => final(self).prefs() == old(self).prefs(),
            },
    {
        match event {
            PickEvent::Chosen(folder) => {
                self.set_script_dir(folder);
                true
            },
            _ => false,
        }
    }

    /// The preferences in force.
    pub fn preferences(&self) -> (preferences: &AppPreferences)
        ensures
            *preferences == self.prefs(),
            preferences.wf(),
    {
        proof {
            use_type_invariant(self);
        }
        &self.preferences
    }

    /// The scripts on show.
    pub fn scripts(&self) -> (scripts: &Vec<String>)
        ensures
            scripts@ == self.shown(),
    {
        &self.scripts
    }

    /// The number of columns of the grid: at least one.
    pub fn num_cols(&self) -> (n: usize)
        ensures
            n == self.prefs().num_cols,
            n > 0,
    {
        proof {
            use_type_invariant(self);
        }
        self.preferences.num_cols
    }

    /// The number of rows of the grid: as many as the scripts need.
    pub fn num_rows(&self) -> (n: usize)
        ensures
            n == self.rows(),
    {
        proof {
            use_type_invariant(self);
        }
        compute_n_rows(self.preferences.num_cols, self.scripts.len())
    }

    /// The script behind the button at `row` and `col`, or `None` for a
    /// cell that has no button.
    pub fn script_at(&self, row: usize, col: usize) -> (script: Option<&String>)
        ensures
            match script {
                Some(s) => {
                    &&& cell_item(
                        row as int,
                        col as int,
                        self.prefs().num_cols as int,
                        self.shown().len() as int,
                    ) matches Some(i)
                    &&& *s == self.shown()[i]
                },
                None => cell_item(
                    row as int,
                    col as int,
                    self.prefs().num_cols as int,
                    self.shown().len() as int,
                ) is None,
            },
    {
        match cell_index(row, col, self.preferences.num_cols, self.scripts.len()) {
            Some(i) => Some(&self.scripts[i]),
            None => None,
        }
    }
}

} // verus!
