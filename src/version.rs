use vstd::prelude::*;

verus! {

/// A component that reaches this value rolls over into the next one.
pub const VERSION_ROLLOVER: u64 = 10;

/// Semantic version of a build's image.
#[derive(Clone, Copy, Debug, PartialEq, Eq, Structural)]
pub struct Version {
    pub major: u64,
    pub minor: u64,
    pub patch: u64,
}

/// The version after one successful build: the patch goes up; a patch
/// that reaches the rollover resets and bumps the minor, and a minor that
/// reaches it resets and bumps the major (which stops at `u64::MAX`).
pub open spec fn next_version(v: Version) -> Version {
    if v.patch + 1 < VERSION_ROLLOVER {
        Version { major: v.major, minor: v.minor, patch: (v.patch + 1) as u64 }
    } else if v.minor + 1 < VERSION_ROLLOVER {
        Version { major: v.major, minor: (v.minor + 1) as u64, patch: 0 }
    } else if v.major < u64::MAX {
        Version { major: (v.major + 1) as u64, minor: 0, patch: 0 }
    } else {
        Version { major: v.major, minor: 0, patch: 0 }
    }
}

/// `v` incremented `n` times.
pub open spec fn version_after(v: Version, n: nat) -> Version
    decreases n,
{
    if n == 0 {
        v
    } else {
        next_version(version_after(v, (n - 1) as nat))
    }
}

impl Version {
    pub fn new(major: u64, minor: u64, patch: u64) -> (r: Version)
        ensures
            r == (Version { major, minor, patch }),
    {
        Version { major, minor, patch }
    }

    pub fn increment(&mut self)
        ensures
            *final(self) == next_version(*old(self)),
    {
        if self.patch < VERSION_ROLLOVER - 1 {
            self.patch = self.patch + 1;
        } else if self.minor < VERSION_ROLLOVER - 1 {
            self.patch = 0;
            self.minor = self.minor + 1;
        } else {
            self.patch = 0;
            self.minor = 0;
            if self.major < u64::MAX {
                self.major = self.major + 1;
            }
        }
    }
}

impl Default for Version {
    fn default() -> (r: Version)
        ensures
            r == (Version { major: 0, minor: 0, patch: 0 }),
    {
        Version { major: 0, minor: 0, patch: 0 }
    }
}

} // verus!
