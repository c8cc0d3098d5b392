//! The configuration and the profiles registered in it.

use crate::names::{
    eq_ignore_ascii_case, name_taken, names_distinct, names_stay_distinct, same_name,
};
use std::path::PathBuf;
use vstd::prelude::*;

verus! {

/// One registered profile.
#[derive(Debug, PartialEq, Eq)]
pub struct ProfileItem {
    /// Where the profile's definition is stored.
    pub path: PathBuf,
    /// The name by which the user knows the profile.
    pub name: String,
    /// Where the profile's mods are put.
    pub output_dir: PathBuf,
}

impl Clone for ProfileItem {
    fn clone(&self) -> (copy: ProfileItem)
        ensures
            copy == *self,
    {
        ProfileItem {
            path: self.path.clone(),
            name: self.name.clone(),
            output_dir: self.output_dir.clone(),
        }
    }
}

/// The registered profiles, in the order in which they were added.
#[derive(Debug, PartialEq, Eq)]
pub struct Config {
    /// The profiles; a new one goes behind the others.
    pub profiles: Vec<ProfileItem>,
}

impl Clone for Config {
    fn clone(&self) -> (copy: Config)
        ensures
            copy@ == self@,
    {
        let copy = Config { profiles: self.profiles.clone() };
        assert(copy@ =~= self@);
        copy
    }
}

/// What a name is refused with when a profile already bears it.
pub const NAME_TAKEN: &'static str = "A profile with that name already exists";

/// The names of `profiles`, in their order.
pub open spec fn names_of(profiles: Seq<ProfileItem>) -> Seq<Seq<char>> {
    profiles.map_values(|item: ProfileItem| item.name@)
}

impl View for Config {
    type V = Seq<ProfileItem>;

    open spec fn view(&self) -> Seq<ProfileItem> {
        self.profiles@
    }
}

impl Config {
    /// The names of the registered profiles, in their order.
    pub open spec fn names(&self) -> Seq<Seq<char>> {
        names_of(self@)
    }

    /// Whether no two profiles bear the same name, the case of ASCII letters
    /// set aside.
    pub open spec fn names_unique(&self) -> bool {
        names_distinct(self.names())
    }

    /// A configuration without profiles.
    pub fn new() -> (config: Config)
        ensures
            config@ == Seq::<ProfileItem>::empty(),
            config.names_unique(),
    {
        Config { profiles: Vec::new() }
    }

    /// Whether a registered profile bears `candidate` as its name, the case
    /// of ASCII letters set aside.
    pub fn name_taken(&self, candidate: &str) -> (taken: bool)
        ensures
            taken == name_taken(self.names(), candidate@),
    {
        let mut i: usize = 0;
        while i < self.profiles.len()
            invariant
                i <= self.profiles.len(),
                forall|j: int| 0 <= j < i ==> !same_name(#[trigger] self.names()[j], candidate@),
            decreases self.profiles.len() - i,
        {
            if eq_ignore_ascii_case(self.profiles[i].name.as_str(), candidate) {
                assert(same_name(self.names()[i as int], candidate@));
                return true;
            }
            i += 1;
        }
        false
    }

    /// Decides on a name that the user proposes for a new profile: accepted
    /// unless a registered profile bears it, and then refused with
    /// `NAME_TAKEN`.
    pub fn validate_name(&self, candidate: &str) -> (verdict: Result<(), String>)
        ensures
            verdict is Err == name_taken(self.names(), candidate@),
            verdict matches Err(message) ==> message@ == NAME_TAKEN@,
    {
        if self.name_taken(candidate) {
            Err(NAME_TAKEN.to_owned())
        } else {
            Ok(())
        }
    }

    /// Registers a profile: one record made of the three values is added
    /// behind those that are there, which stay as they are. Nothing is checked
    /// here; the names stay unique exactly when they were and `name` was not
    /// taken.
    pub fn add_profile(&mut self, name: String, path: PathBuf, output_dir: PathBuf)
        ensures
            final(self)@ == old(self)@.push(ProfileItem { path, name, output_dir }),
            final(self).names() == old(self).names().push(name@),
            final(self).names_unique() == (old(self).names_unique() && !name_taken(
                old(self).names(),
                name@,
            )),
    {
        self.profiles.push(ProfileItem { path, name, output_dir });
        proof {
            assert(names_of(self@) =~= names_of(old(self)@).push(name@));
            names_stay_distinct(old(self).names(), name@);
        }
    }
}

} // verus!
