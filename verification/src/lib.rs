//! Control logic for a small set of single-board-computer device demos.
//!
//! The centrepiece is a laser intrusion detector: a push-button arms and
//! disarms it, a light sensor behind an analog-to-digital converter reports
//! when the beam is interrupted, and four digital outputs drive the laser,
//! a status indicator, a siren and a camera trigger.
//!
//! Everything here works on plain values. Reading pins, sleeping and threads
//! belong to the program that links this library; it feeds samples and
//! events in and performs the pin writes that come back.

pub mod debounce;
pub mod events;
pub mod gpio_util;
pub mod joystick;
pub mod pi_util;
pub mod rain;
pub mod security;
pub mod sensor;
pub mod servo_motor_util;
