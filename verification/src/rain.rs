//! Change detection for a rain sensor that has a digital output and an
//! analog output.

use crate::gpio_util::PinState;
use vstd::prelude::*;

verus! {

/// The last reading that was reported.
#[derive(Debug, Clone, Copy, PartialEq, Eq, Structural)]
pub struct RainReading {
    pub last_raining_flag: bool,
    pub last_raining_analog_value: u8,
}

/// The digital output of the sensor reads `Low` while it rains.
pub fn is_raining(detector_level: PinState) -> (raining: bool)
    ensures
        raining == (detector_level is Low),
{
    detector_level.is_low()
}

impl RainReading {
    /// The reading before the first sample: dry, analog value 255.
    pub fn new() -> (reading: RainReading)
        ensures
            !reading.last_raining_flag,
            reading.last_raining_analog_value == 255,
    {
        RainReading { last_raining_flag: false, last_raining_analog_value: 255 }
    }

    /// Takes a new sample and says whether it differs from the last one that
    /// was reported, in the flag or in the analog value. The sample is then the
    /// last one reported.
    pub fn update(&mut self, raining: bool, analog_value: u8) -> (changed: bool)
        ensures
            changed == (old(self).last_raining_flag != raining || old(
                self,
            ).last_raining_analog_value != analog_value),
            final(self).last_raining_flag == raining,
            final(self).last_raining_analog_value == analog_value,
    {
        let changed = self.last_raining_flag != raining || self.last_raining_analog_value
            != analog_value;
        if changed {
            self.last_raining_flag = raining;
            self.last_raining_analog_value = analog_value;
        }
        changed
    }
}

} // verus!
