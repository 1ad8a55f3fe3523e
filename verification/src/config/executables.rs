use crate::paths::{display_name, display_name_text};
use vstd::prelude::*;

verus! {

/// One executable that a profile lists.
#[derive(Debug, Clone, PartialEq, Eq)]
pub struct QuickLaunchExecutable {
    /// The name shown for it.
    pub display_name: String,
    /// Where it is.
    pub executable_path: String,
    /// Where its icon is, if it has one.
    pub icon_path: Option<String>,
    /// How often it was launched.
    pub n_launches: u32,
}

impl QuickLaunchExecutable {
    /// Whether this is the entry that a bare path gives: named after the
    /// file, without its extension, with no icon and no launches yet.
    pub open spec fn is_fresh_for(self, path: String) -> bool {
        &&& self.display_name@ == display_name_text(path@)
        &&& self.executable_path == path
        &&& self.icon_path is None
        &&& self.n_launches == 0
    }

    /// An entry with the given fields.
    pub fn new(
        display_name: String,
        executable_path: String,
        icon_path: Option<String>,
        n_launches: u32,
    ) -> (entry: Self)
        ensures
            entry == (QuickLaunchExecutable {
                display_name,
                executable_path,
                icon_path,
                n_launches,
            }),
    {
        Self { display_name, executable_path, icon_path, n_launches }
    }

    /// The entry for an executable of which only the path is known.
    pub fn from_path(executable_path: String) -> (entry: Self)
        ensures
            entry.is_fresh_for(executable_path),
    {
        let display_name = display_name(executable_path.as_str());
        Self { display_name, executable_path, icon_path: None, n_launches: 0 }
    }

    /// Counts one more launch.
    pub fn increment_launch_count(&mut self)
        requires
            old(self).n_launches < u32::MAX,
        ensures
            *final(self) == (QuickLaunchExecutable {
                n_launches: (old(self).n_launches + 1) as u32,
                ..*old(self)
            }),
    {
        self.n_launches += 1;
    }
}

} // verus!
