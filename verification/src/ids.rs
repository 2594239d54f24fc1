use vstd::prelude::*;

verus! {

/// Value of `SlangProfileID` that names no profile.
pub const PROFILE_ID_UNKNOWN_RAW: u32 = 0;

/// Value of `SlangCapabilityID` that names no capability.
pub const CAPABILITY_ID_UNKNOWN_RAW: i32 = 0;

/// A target profile known to the compiler, as returned by a profile lookup.
#[derive(Clone, Copy, Debug, PartialEq, Eq, Structural)]
pub struct ProfileID(pub u32);

impl ProfileID {
    /// The identifier the compiler gives to a profile name it does not know.
    pub fn unknown() -> (r: ProfileID)
        ensures
            r.0 == PROFILE_ID_UNKNOWN_RAW,
    {
        ProfileID(PROFILE_ID_UNKNOWN_RAW)
    }

    /// Whether this is the identifier of no known profile.
    pub fn is_unknown(&self) -> (r: bool)
        ensures
            r == (self.0 == PROFILE_ID_UNKNOWN_RAW),
    {
        self.0 == PROFILE_ID_UNKNOWN_RAW
    }
}

/// A capability known to the compiler, as returned by a capability lookup.
#[derive(Clone, Copy, Debug, PartialEq, Eq, Structural)]
pub struct CapabilityID(pub i32);

impl CapabilityID {
    /// The identifier the compiler gives to a capability name it does not know.
    pub fn unknown() -> (r: CapabilityID)
        ensures
            r.0 == CAPABILITY_ID_UNKNOWN_RAW,
    {
        CapabilityID(CAPABILITY_ID_UNKNOWN_RAW)
    }

    /// Whether this is the identifier of no known capability.
    pub fn is_unknown(&self) -> (r: bool)
        ensures
            r == (self.0 == CAPABILITY_ID_UNKNOWN_RAW),
    {
        self.0 == CAPABILITY_ID_UNKNOWN_RAW
    }
}

} // verus!
