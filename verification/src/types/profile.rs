//! Cargo build profiles.
use vstd::prelude::*;
use crate::error::Error;
use crate::text::str_eq;

verus! {

/// A Cargo build profile.
#[derive(Copy, Clone, Debug, Eq, Hash, PartialEq, Structural)]
pub enum Profile {
    Debug,
    Release,
}

/// The directory name Cargo uses for a profile.
pub open spec fn profile_text(p: Profile) -> Seq<char> {
    match p {
        Profile::Debug => "debug"@,
        Profile::Release => "release"@,
    }
}

/// The profile named `s`, if any.
pub open spec fn profile_of_text(s: Seq<char>) -> Option<Profile> {
    if s == "debug"@ {
        Some(Profile::Debug)
    } else if s == "release"@ {
        Some(Profile::Release)
    } else {
        None
    }
}

impl Profile {
    /// The directory name Cargo uses for the profile (`debug` or `release`).
    pub fn as_ref(&self) -> (r: &'static str)
        ensures r@ == profile_text(*self),
    {
        match self {
            Profile::Debug => "debug",
            Profile::Release => "release",
        }
    }

    /// The profile named `s`.
    pub fn from_str(s: &str) -> (r: Result<Profile, Error>)
        ensures
            match profile_of_text(s@) {
                Some(p) => r == Ok::<Profile, Error>(p),
                None => r matches Err(Error::InvalidProfile(e)) && e@ == s@,
            },
    {
        if str_eq(s, "debug") {
            Ok(Profile::Debug)
        } else if str_eq(s, "release") {
            Ok(Profile::Release)
        } else {
            Err(Error::InvalidProfile(s.to_owned()))
        }
    }
}

/// Reading the name of a profile gives the profile back.
pub proof fn lemma_profile_round_trip(p: Profile)
    ensures profile_of_text(profile_text(p)) == Some(p),
{
    reveal_strlit("debug");
    reveal_strlit("release");
    assert("debug"@.len() == 5);
    assert("release"@.len() == 7);
}

impl Default for Profile {
    fn default() -> (r: Self)
        ensures r == Profile::Debug,
    {
        Profile::Debug
    }
}

impl std::str::FromStr for Profile {
    type Err = Error;

    fn from_str(s: &str) -> (r: std::result::Result<Self, Self::Err>)
        ensures
            match profile_of_text(s@) {
                Some(p) => r == Ok::<Profile, Error>(p),
                None => r matches Err(Error::InvalidProfile(e)) && e@ == s@,
            },
    {
        Profile::from_str(s)
    }
}

} // verus!
