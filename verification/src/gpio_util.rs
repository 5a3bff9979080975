//! Logic levels of digital pins.

use vstd::prelude::*;

verus! {

/// Logic level of a digital pin. Cast to an integer, `Low` is 0 and `High` is 1.
#[derive(Debug, Clone, Copy, PartialEq, Eq, Structural)]
pub enum PinState {
    Low,
    High,
}

impl PinState {
    /// The level that switches a load on (`High`) or off (`Low`).
    pub open spec fn level_for(on: bool) -> PinState {
        if on {
            PinState::High
        } else {
            PinState::Low
        }
    }

    /// The level that switches a load on (`High`) or off (`Low`).
    pub fn from_bool(on: bool) -> (level: PinState)
        ensures
            level == PinState::level_for(on),
    {
        if on {
            PinState::High
        } else {
            PinState::Low
        }
    }

    /// Whether the level is `High`.
    pub fn is_high(&self) -> (high: bool)
        ensures
            high == (*self is High),
    {
        match self {
            PinState::High => true,
            PinState::Low => false,
        }
    }

    /// Whether the level is `Low`.
    pub fn is_low(&self) -> (low: bool)
        ensures
            low == (*self is Low),
    {
        match self {
            PinState::Low => true,
            PinState::High => false,
        }
    }
}

} // verus!
