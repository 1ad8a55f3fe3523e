use crate::config::profile::QuickLaunchProfileSettings;
use vstd::prelude::*;
use vstd::std_specs::iter::IteratorSpec;

verus! {

/// Why a change to the profiles was refused.
#[derive(Debug, Clone, PartialEq, Eq)]
pub enum ProfileError {
    /// A profile of this name exists already.
    DuplicateProfileName(String),
    /// No profile has this name.
    ProfileNotFound(String),
}

impl ProfileError {
    /// The error's message as text.
    pub open spec fn message_text(self) -> Seq<char> {
        match self {
            ProfileError::DuplicateProfileName(name) => "Profile with name '"@ + name@
                + "' already exists."@,
            ProfileError::ProfileNotFound(name) => "Profile with name '"@ + name@
                + "' not found."@,
        }
    }

    /// The error's message.
    pub fn message(&self) -> (text: String)
        ensures
            text@ == self.message_text(),
    {
        let mut text = "Profile with name '".to_owned();
        match self {
            ProfileError::DuplicateProfileName(name) => {
                text.append(name.as_str());
                text.append("' already exists.");
            },
            ProfileError::ProfileNotFound(name) => {
                text.append(name.as_str());
                text.append("' not found.");
            },
        }
        text
    }
}

/// The projection of a profile on its name.
pub open spec fn name_of() -> spec_fn(QuickLaunchProfileSettings) -> String {
    |profile: QuickLaunchProfileSettings| profile.name
}

/// Whether some profile of the list is called `name`.
pub open spec fn has_name(profiles: Seq<QuickLaunchProfileSettings>, name: Seq<char>) -> bool {
    exists|i: int| 0 <= i < profiles.len() && (#[trigger] profiles[i]).name@ == name
}

/// Whether the profile at `i` is the first of the list that is called
/// `name`.
pub open spec fn is_first_named(
    profiles: Seq<QuickLaunchProfileSettings>,
    name: Seq<char>,
    i: int,
) -> bool {
    &&& 0 <= i < profiles.len()
    &&& profiles[i].name@ == name
    &&& forall|j: int| 0 <= j < i ==> (#[trigger] profiles[j]).name@ != name
}

/// Whether no two profiles of the list share a name.
pub open spec fn names_distinct(profiles: Seq<QuickLaunchProfileSettings>) -> bool {
    forall|i: int, j: int|
        0 <= i < j < profiles.len() ==> (#[trigger] profiles[i]).name@ != (
        #[trigger] profiles[j]).name@
}

/// All that the application stores: its profiles, in the order in which
/// they were added.
#[derive(Debug, Clone, PartialEq, Eq)]
pub struct QuickLaunchAppSettings {
    pub profiles: Vec<QuickLaunchProfileSettings>,
}

impl Default for QuickLaunchAppSettings {
    /// Settings with the one profile that exists from the start.
    fn default() -> (settings: Self)
        ensures
            settings.profiles@.len() == 1,
            settings.profiles@[0].name@ == crate::config::profile::DEFAULT_PROFILE_NAME@,
            settings.profiles@[0].executables@.len() == 0,
    {
        let mut profiles: Vec<QuickLaunchProfileSettings> = Vec::new();
        profiles.push(QuickLaunchProfileSettings::default());
        Self { profiles }
    }
}

impl QuickLaunchAppSettings {
    /// Settings that hold the given profiles.
    pub fn new(profiles: Vec<QuickLaunchProfileSettings>) -> (settings: Self)
        ensures
            settings.profiles == profiles,
    {
        Self { profiles }
    }

    /// The names of the profiles, in their order.
    pub fn profile_names(&self) -> (names: Vec<String>)
        ensures
            names@ == self.profiles@.map_values(name_of()),
    {
        let mut names: Vec<String> = Vec::new();
        let mut i: usize = 0;
        while i < self.profiles.len()
            invariant
                i <= self.profiles.len(),
                names@ == self.profiles@.take(i as int).map_values(name_of()),
            decreases self.profiles.len() - i,
        {
            names.push(self.profiles[i].name.clone());
            i = i + 1;
            assert(names@ =~= self.profiles@.take(i as int).map_values(name_of()));
        }
        assert(self.profiles@.take(self.profiles.len() as int) =~= self.profiles@);
        names
    }

    /// The place of the first profile called `name`, if there is one.
    pub fn position_of(&self, name: &str) -> (found: Option<usize>)
        ensures
            match found {
                Some(i) => is_first_named(self.profiles@, name@, i as int),
                None => !has_name(self.profiles@, name@),
            },
    {
        let wanted = name.to_owned();
        let mut i: usize = 0;
        while i < self.profiles.len()
            invariant
                i <= self.profiles.len(),
                wanted@ == name@,
                forall|j: int| 0 <= j < i ==> (#[trigger] self.profiles@[j]).name@ != name@,
            decreases self.profiles.len() - i,
        {
            if self.profiles[i].name == wanted {
                return Some(i);
            }
            i = i + 1;
        }
        None
    }

    /// The first profile called `name`, if there is one.
    pub fn profile_by_name(&self, name: &str) -> (found: Option<&QuickLaunchProfileSettings>)
        ensures
            match found {
                Some(profile) => exists|i: int|
                    is_first_named(self.profiles@, name@, i) && *profile == self.profiles@[i],
                None => !has_name(self.profiles@, name@),
            },
    {
        match self.position_of(name) {
            Some(i) => {
                assert(is_first_named(self.profiles@, name@, i as int));
                Some(&self.profiles[i])
            },
            None => None,
        }
    }

    /// Adds a profile at the end, unless its name is taken. A name that is
    /// taken is refused with `ProfileNotFound`, which carries the name; the
    /// profiles are then left as they were.
    pub fn add_profile(&mut self, profile: QuickLaunchProfileSettings) -> (added: Result<
        (),
        ProfileError,
    >)
        ensures
            has_name(old(self).profiles@, profile.name@) ==> {
                &&& added matches Err(ProfileError::ProfileNotFound(name))
                &&& name@ == profile.name@
                &&& final(self).profiles@ == old(self).profiles@
            },
            !has_name(old(self).profiles@, profile.name@) ==> {
                &&& added is Ok
                &&& final(self).profiles@ == old(self).profiles@.push(profile)
            },
            names_distinct(old(self).profiles@) ==> names_distinct(final(self).profiles@),
    {
        let profile_name = profile.name.clone();
        if self.has_profile(profile_name.as_str()) {
            return Err(ProfileError::ProfileNotFound(profile_name));
        }
        proof {
            if names_distinct(self.profiles@) {
                lemma_add_keeps_names_distinct(self.profiles@, profile);
            }
        }
        self.profiles.push(profile);
        Ok(())
    }

    /// Removes the first profile called `name`. Where there is none, the
    /// profiles are left as they were and the error carries the name.
    pub fn remove_profile(&mut self, name: &str) -> (removed: Result<(), ProfileError>)
        ensures
            has_name(old(self).profiles@, name@) ==> {
                &&& removed is Ok
                &&& exists|i: int|
                    is_first_named(old(self).profiles@, name@, i) && final(self).profiles@ == old(
                        self,
                    ).profiles@.remove(i)
            },
            !has_name(old(self).profiles@, name@) ==> {
                &&& removed matches Err(ProfileError::ProfileNotFound(missing))
                &&& missing@ == name@
                &&& final(self).profiles@ == old(self).profiles@
            },
            names_distinct(old(self).profiles@) ==> {
                &&& names_distinct(final(self).profiles@)
                &&& !has_name(final(self).profiles@, name@)
            },
    {
        match self.position_of(name) {
            Some(index) => {
                assert(is_first_named(self.profiles@, name@, index as int));
                proof {
                    if names_distinct(self.profiles@) {
                        lemma_remove_keeps_names_distinct(self.profiles@, index as int);
                        lemma_removed_name_is_gone(self.profiles@, name@, index as int);
                    }
                }
                self.profiles.remove(index);
                Ok(())
            },
            None => Err(ProfileError::ProfileNotFound(name.to_owned())),
        }
    }

    /// Whether a profile is called `name`.
    pub fn has_profile(&self, name: &str) -> (found: bool)
        ensures
            found == has_name(self.profiles@, name@),
    {
        match self.position_of(name) {
            Some(i) => {
                assert(is_first_named(self.profiles@, name@, i as int));
                true
            },
            None => false,
        }
    }

    /// An iterator over the profiles, first to last.
    pub fn iter_profiles(&self) -> (profiles: core::slice::Iter<'_, QuickLaunchProfileSettings>)
        ensures
            profiles.remaining() == self.profiles@.as_ref(),
    {
        let profiles = self.profiles.iter();
        proof {
            broadcast use vstd::std_specs::slice::axiom_spec_slice_iter;

        }
        profiles
    }
}

/// Adding a profile under a free name keeps the names distinct.
pub proof fn lemma_add_keeps_names_distinct(
    profiles: Seq<QuickLaunchProfileSettings>,
    profile: QuickLaunchProfileSettings,
)
    requires
        names_distinct(profiles),
        !has_name(profiles, profile.name@),
    ensures
        names_distinct(profiles.push(profile)),
{
    let after = profiles.push(profile);
    assert forall|i: int, j: int| 0 <= i < j < after.len() implies (#[trigger] after[i]).name@ != (
    #[trigger] after[j]).name@ by {
        assert(after[i] == profiles[i]);
        if j < profiles.len() {
            assert(after[j] == profiles[j]);
        }
    }
}

/// Removing a profile keeps the names distinct.
pub proof fn lemma_remove_keeps_names_distinct(profiles: Seq<QuickLaunchProfileSettings>, i: int)
    requires
        names_distinct(profiles),
        0 <= i < profiles.len(),
    ensures
        names_distinct(profiles.remove(i)),
{
    let after = profiles.remove(i);
    assert forall|a: int, b: int| 0 <= a < b < after.len() implies (#[trigger] after[a]).name@ != (
    #[trigger] after[b]).name@ by {
        let a0 = if a < i {
            a
        } else {
            a + 1
        };
        let b0 = if b < i {
            b
        } else {
            b + 1
        };
        assert(after[a] == profiles[a0]);
        assert(after[b] == profiles[b0]);
    }
}

/// Where the names are distinct, removing a profile by its name leaves no
/// profile of that name.
pub proof fn lemma_removed_name_is_gone(
    profiles: Seq<QuickLaunchProfileSettings>,
    name: Seq<char>,
    i: int,
)
    requires
        names_distinct(profiles),
        is_first_named(profiles, name, i),
    ensures
        !has_name(profiles.remove(i), name),
{
    let after = profiles.remove(i);
    assert forall|j: int| 0 <= j < after.len() implies (#[trigger] after[j]).name@ != name by {
        let j0 = if j < i {
            j
        } else {
            j + 1
        };
        assert(after[j] == profiles[j0]);
        if j0 < i {
            assert(profiles[j0].name@ != profiles[i].name@);
        } else {
            assert(profiles[i].name@ != profiles[j0].name@);
        }
    }
}

/// Adding a profile under a free name and then asking for that name finds
/// the profile that was added.
pub proof fn lemma_added_profile_is_found(
    profiles: Seq<QuickLaunchProfileSettings>,
    profile: QuickLaunchProfileSettings,
)
    requires
        !has_name(profiles, profile.name@),
    ensures
        is_first_named(profiles.push(profile), profile.name@, profiles.len() as int),
        has_name(profiles.push(profile), profile.name@),
{
    let after = profiles.push(profile);
    assert(after[profiles.len() as int] == profile);
    assert forall|j: int| 0 <= j < profiles.len() implies (#[trigger] after[j]).name@
        != profile.name@ by {
        assert(after[j] == profiles[j]);
    }
}

} // verus!
