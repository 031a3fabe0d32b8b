//! The fixed addresses, command codes and policy limits of the controller.

use vstd::prelude::*;

verus! {

/// Embedded controller command port.
pub const EC_COMMAND_PORT: u16 = 0x66;

/// Embedded controller data port.
pub const EC_DATA_PORT: u16 = 0x62;

/// Command that asks for the temperature.
pub const COMMAND_TEMP: u8 = 0x9E;

/// Command that sets the fan speed.
pub const COMMAND_SPEED: u8 = 0x99;

/// Identifier of the fan.
pub const FAN_ID: u8 = 0x01;

/// Lowest speed, in percent, that the fan is run at.
pub const FAN_SPEED_MIN: u8 = 30;

/// Highest speed, in percent, that the fan is run at.
pub const FAN_SPEED_MAX: u8 = 100;

/// Above this temperature a rising reading raises the fan speed.
pub const MIN_TEMP: u8 = 70;

/// Above this temperature the fan speed is raised even if the reading is steady.
pub const MAX_TEMP: u8 = 85;

/// Time between two iterations of the control loop, in milliseconds.
pub const REFRESH_RATE: u64 = 250;

/// How long the temperature has to keep rising before the speed is raised.
pub const REACTION_TIME_MS_RAISE: u64 = 1000;

/// How long the temperature has to keep steady or falling before the speed is lowered.
pub const REACTION_TIME_MS_LOWER: u64 = 2000;

/// Percent points added when the speed is raised.
pub const FAN_RAISE_INCREMENT: u8 = 5;

/// Percent points taken off when the speed is lowered.
pub const FAN_LOWER_INCREMENT: u8 = 1;

/// Longest time to wait for a status flag, in milliseconds.
pub const COMMAND_FLAG_MAX_WAIT_MS: u128 = 1000;

/// Iterations that the temperature has to keep rising before the speed is raised.
pub const REACTION_LOOPS_RAISE: u64 = 4;

/// Iterations that the temperature has to keep steady or falling before the speed is lowered.
pub const REACTION_LOOPS_LOWER: u64 = 8;

} // verus!
