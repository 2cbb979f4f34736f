//! A stand-in for the device that needs no hardware.
//!
//! The mock remembers which target was set, when, and how warm it was then.
//! From there its temperature approaches the target along a curve. The
//! curve itself is floating-point work and is drawn by whoever holds the
//! mock: the mock says where the curve starts and is told where it has got
//! to.

use crate::models::Device;
use crate::temperature::Temperature;
use vstd::prelude::*;

verus! {

/// Bit pattern of 20 degrees, the target of a new mock.
pub const INITIAL_TARGET_BITS: u32 = 0x41a0_0000;

/// Bit pattern of 19 degrees, the temperature of a new mock.
pub const INITIAL_TEMPERATURE_BITS: u32 = 0x4198_0000;

/// Seconds after which the mock has covered about three quarters of the way
/// to its target.
pub const TIME_CONSTANT_SECS: u64 = 5;

/// Where the curve of the mock stands: it started at `from`, heads for
/// `towards`, and has been under way for `elapsed_millis`.
#[derive(Clone, Copy, Debug, PartialEq, Eq)]
pub struct Course {
    pub from: Temperature,
    pub towards: Temperature,
    pub elapsed_millis: u64,
}

/// The mock device.
#[derive(Clone, Copy, Debug, PartialEq, Eq)]
pub struct Mock {
    target_temperature: Temperature,
    last_time: u64,
    last_temperature: Temperature,
}

impl Mock {
    /// The target that was set last.
    pub closed spec fn target(&self) -> Temperature {
        self.target_temperature
    }

    /// The time, in milliseconds, at which the target was set.
    pub closed spec fn since(&self) -> u64 {
        self.last_time
    }

    /// The temperature that the mock had when the target was set.
    pub closed spec fn origin(&self) -> Temperature {
        self.last_temperature
    }

    /// What is left of `now` after the time at which the target was set;
    /// nothing if `now` lies before it.
    pub open spec fn elapsed(&self, now: u64) -> u64 {
        if now >= self.since() {
            (now - self.since()) as u64
        } else {
            0
        }
    }

    /// A mock made at the time `now`, in milliseconds: at 19 degrees, with a
    /// target of 20 degrees.
    pub fn new(now: u64) -> (mock: Mock)
        ensures
            mock.target().bits == INITIAL_TARGET_BITS,
            mock.origin().bits == INITIAL_TEMPERATURE_BITS,
            mock.since() == now,
    {
        Mock {
            target_temperature: Temperature::from_bits(INITIAL_TARGET_BITS),
            last_time: now,
            last_temperature: Temperature::from_bits(INITIAL_TEMPERATURE_BITS),
        }
    }

    /// Where the curve stands at the time `now`.
    pub fn course(&self, now: u64) -> (course: Course)
        ensures
            course == (Course {
                from: self.origin(),
                towards: self.target(),
                elapsed_millis: self.elapsed(now),
            }),
    {
        let elapsed_millis = if now >= self.last_time {
            now - self.last_time
        } else {
            0
        };
        Course { from: self.last_temperature, towards: self.target_temperature, elapsed_millis }
    }

    /// The state of the mock, given the temperature to which the curve has
    /// got: that temperature, the target, nothing switched on and no
    /// problem.
    pub fn read(&self, current: Temperature) -> (device: Device)
        ensures
            device == (Device {
                current_temperature: Some(current),
                target_temperature: Some(self.target()),
                stirrer_on: false,
                heater_on: false,
                serial_problem: false,
            }),
    {
        Device {
            current_temperature: Some(current),
            target_temperature: Some(self.target_temperature),
            stirrer_on: false,
            heater_on: false,
            serial_problem: false,
        }
    }

    /// Sets a new target at the time `now`. The curve starts anew from
    /// `current`, the temperature to which it had got.
    pub fn set_temperature(&mut self, temperature: Temperature, current: Temperature, now: u64)
        ensures
            final(self).target() == temperature,
            final(self).origin() == current,
            final(self).since() == now,
    {
        self.last_time = now;
        self.last_temperature = current;
        self.target_temperature = temperature;
    }
}

} // verus!
