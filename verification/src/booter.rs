//! The boot helper's view of the build: which cargo profile the kernel is
//! built with and where cargo puts its output.

use vstd::prelude::*;

verus! {

/// A cargo build profile.
#[derive(Debug, Clone, Copy, PartialEq, Eq)]
pub enum Profile {
    Release,
    Dev,
}

impl Profile {
    /// The name of the profile, as cargo's `--profile` takes it.
    pub open spec fn spec_profile_name(self) -> Seq<char> {
        match self {
            Profile::Release => "release"@,
            Profile::Dev => "dev"@,
        }
    }

    /// The directory under `target/<triple>/` where cargo puts the output of
    /// the profile: cargo names the `dev` profile's directory `debug`.
    pub open spec fn spec_profile_dir(self) -> Seq<char> {
        match self {
            Profile::Release => "release"@,
            Profile::Dev => "debug"@,
        }
    }

    /// The name of the profile.
    pub fn as_profile(self) -> (name: &'static str)
        ensures
            name@ == self.spec_profile_name(),
    {
        match self {
            Profile::Release => "release",
            Profile::Dev => "dev",
        }
    }

    /// The output directory of the profile.
    pub fn as_path(self) -> (dir: &'static str)
        ensures
            dir@ == self.spec_profile_dir(),
    {
        match self {
            Profile::Release => "release",
            Profile::Dev => "debug",
        }
    }
}

/// The output directory bears the profile's name for every profile but
/// `dev`, whose output goes to `debug`.
pub proof fn lemma_profile_dir_matches_name(p: Profile)
    ensures
        p.spec_profile_dir() == p.spec_profile_name() <==> p == Profile::Release,
{
    reveal_strlit("release");
    reveal_strlit("dev");
    reveal_strlit("debug");
    if p == Profile::Dev {
        assert(p.spec_profile_dir().len() != p.spec_profile_name().len());
    }
}

/// The boot helper's command line options.
#[derive(Debug, Clone, Copy, PartialEq, Eq)]
pub struct Args {
    /// Boot the image with the legacy BIOS firmware instead of UEFI.
    pub bios: bool,
    /// Run the machine without a graphical screen.
    pub no_screen: bool,
}

} // verus!
