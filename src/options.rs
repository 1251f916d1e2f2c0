use vstd::prelude::*;

verus! {

/// Largest `u32`, which the host platform reads as "no timeout".
pub const NO_TIMEOUT: u32 = 0xFFFF_FFFF;

/// Configuration of a position request or watch.
#[derive(Debug, Clone, Copy, PartialEq, Eq, Structural)]
pub struct PositionOptions {
    /// Ask the host for its most accurate (and costliest) reading.
    pub enable_high_accuracy: bool,
    /// How long the host may take to answer, in milliseconds.
    pub timeout_ms: u32,
    /// How old a cached reading may be, in milliseconds; 0 asks for a fresh one.
    pub maximum_age: u32,
}

impl PositionOptions {
    /// Low accuracy, no timeout and always a fresh reading.
    pub open spec fn spec_default() -> PositionOptions {
        PositionOptions { enable_high_accuracy: false, timeout_ms: NO_TIMEOUT, maximum_age: 0 }
    }
}

impl Default for PositionOptions {
    fn default() -> (r: PositionOptions)
        ensures
            r == PositionOptions::spec_default(),
            r.enable_high_accuracy == false,
            r.timeout_ms == 0xFFFF_FFFFu32,
            r.maximum_age == 0,
    {
        PositionOptions { enable_high_accuracy: false, timeout_ms: NO_TIMEOUT, maximum_age: 0 }
    }
}

/// The options that a call runs with: those given, else the defaults.
pub open spec fn spec_effective_options(options: Option<PositionOptions>) -> PositionOptions {
    match options {
        Some(o) => o,
        None => PositionOptions::spec_default(),
    }
}

pub fn effective_options(options: Option<PositionOptions>) -> (r: PositionOptions)
    ensures
        r == spec_effective_options(options),
{
    match options {
        Some(o) => o,
        None => PositionOptions::default(),
    }
}

} // verus!
