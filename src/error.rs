use vstd::prelude::*;

verus! {

/// What can go wrong in the fan curve engine.
#[derive(Debug, Clone, Copy, PartialEq, Eq, Structural)]
pub enum ProfileError {
    /// No hwmon node exposes custom fan curve control, or it controls no fan.
    NotSupported,
    /// A fan name did not parse.
    ParseProfileName,
    /// Reading or writing a hwmon attribute failed.
    Io,
}

} // verus!
