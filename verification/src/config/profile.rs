use crate::config::executables::QuickLaunchExecutable;
use vstd::prelude::*;

verus! {

/// The name of the profile that exists from the start.
pub const DEFAULT_PROFILE_NAME: &'static str = "default";

/// A named list of executables.
#[derive(Debug, Clone, PartialEq, Eq)]
pub struct QuickLaunchProfileSettings {
    pub name: String,
    pub executables: Vec<QuickLaunchExecutable>,
}

impl QuickLaunchProfileSettings {
    /// Appends the entry for `executable_path` to the profile's list.
    pub fn add_executable_from_path(&mut self, executable_path: String)
        ensures
            final(self).name == old(self).name,
            final(self).executables@.len() == old(self).executables@.len() + 1,
            final(self).executables@.drop_last() == old(self).executables@,
            final(self).executables@.last().is_fresh_for(executable_path),
    {
        let executable = QuickLaunchExecutable::from_path(executable_path);
        self.executables.push(executable);
        assert(self.executables@.drop_last() =~= old(self).executables@);
    }
}

impl Default for QuickLaunchProfileSettings {
    /// The profile called `default`, with nothing in it.
    fn default() -> (profile: Self)
        ensures
            profile.name@ == DEFAULT_PROFILE_NAME@,
            profile.executables@.len() == 0,
    {
        Self { name: DEFAULT_PROFILE_NAME.to_owned(), executables: Vec::new() }
    }
}

} // verus!
