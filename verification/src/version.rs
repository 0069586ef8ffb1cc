//! The version threshold: the rule is enabled only when the project's configured
//! minimum supported version is at least the version that introduced the
//! bit-width constants on the primitive integer types.

use vstd::prelude::*;

verus! {

/// A three-component version: major, minor, patch.
#[derive(Clone, Copy, Debug, PartialEq, Eq, Structural)]
pub struct Version {
    pub major: u32,
    pub minor: u32,
    pub patch: u32,
}

/// `a` is at least `b`, comparing major, then minor, then patch.
pub open spec fn spec_version_ge(a: Version, b: Version) -> bool {
    ||| a.major > b.major
    ||| (a.major == b.major && a.minor > b.minor)
    ||| (a.major == b.major && a.minor == b.minor && a.patch >= b.patch)
}

/// The minimum version that defines the suggested bit-width constants:
/// the associated constant `BITS` exists on every primitive integer type
/// from version 1.52.0 on, so the suggestion is meaningless below it.
pub open spec fn spec_required_version() -> Version {
    Version { major: 1, minor: 52, patch: 0 }
}

/// The fixed requirement constant the enablement decision compares against.
pub fn required_version() -> (v: Version)
    ensures
        v == spec_required_version(),
{
    Version { major: 1, minor: 52, patch: 0 }
}

/// Lexicographic comparison of two versions.
pub fn version_ge(a: &Version, b: &Version) -> (r: bool)
    ensures
        r == spec_version_ge(*a, *b),
{
    if a.major != b.major {
        a.major > b.major
    } else if a.minor != b.minor {
        a.minor > b.minor
    } else {
        a.patch >= b.patch
    }
}

/// The rule is enabled iff no minimum version is configured, or the configured
/// minimum is at least the fixed requirement.
pub open spec fn spec_is_enabled(msrv: Option<Version>) -> bool {
    match msrv {
        None => true,
        Some(v) => spec_version_ge(v, spec_required_version()),
    }
}

/// Decides, once per analysis run, whether any per-node work happens at all.
pub fn is_enabled(msrv: Option<Version>) -> (r: bool)
    ensures
        r == spec_is_enabled(msrv),
{
    match msrv {
        None => true,
        Some(v) => version_ge(&v, &required_version()),
    }
}

} // verus!
