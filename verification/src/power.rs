//! Choice of the pin level that wakes the node from deep sleep.

use vstd::prelude::*;

verus! {

/// Level of the wake pin that ends deep sleep.
#[derive(Clone, Copy, Debug, PartialEq, Eq, Structural)]
pub enum WakeLevel {
    Low,
    High,
}

impl WakeLevel {
    /// The level as a boolean: `true` for high.
    pub open spec fn spec_is_high(self) -> bool {
        self == WakeLevel::High
    }

    /// The level as a boolean: `true` for high.
    #[verifier::when_used_as_spec(spec_is_high)]
    pub fn is_high(self) -> (high: bool)
        ensures
            high == self.spec_is_high(),
    {
        match self {
            WakeLevel::High => true,
            WakeLevel::Low => false,
        }
    }
}

/// The wake level to arm when the encoder line currently reads `encoder_high`.
///
/// The node must wake on the next change of the line, not on the level it
/// already has, so the armed level is the opposite of the present one.
pub fn wake_level(encoder_high: bool) -> (level: WakeLevel)
    ensures
        level.is_high() == !encoder_high,
        encoder_high ==> level == WakeLevel::Low,
        !encoder_high ==> level == WakeLevel::High,
{
    if encoder_high {
        WakeLevel::Low
    } else {
        WakeLevel::High
    }
}

} // verus!
