//! Verified core of a driver for the Sensirion SGP40 gas sensor.
//!
//! The sensor speaks a small command protocol over I²C: a 16-bit command
//! (optionally followed by argument words, each protected by a CRC-8 byte),
//! a command-specific wait, and then a number of 16-bit words read back, each
//! again followed by its CRC-8 byte. This crate holds the protocol logic:
//! command framing, CRC checking of the replies, the conversion of humidity and
//! temperature into sensor ticks, the decoding of replies, and a transaction
//! state machine that tells the caller which bus operation to perform next.

pub mod asynchronous;
pub mod crc;
pub mod frame;
pub mod transaction;

pub use asynchronous::{Sgp40Async, DEFAULT_HUMIDITY, DEFAULT_TEMPERATURE, MEASURE_TEST_OK};
pub use crc::{check_word, word_matches};
pub use frame::{command_frame, command_frame_with_args, u16_from_be_bytes, u16_to_be_bytes, MAX_ARGS};
pub use transaction::{Action, Event, Stage, Transaction};

use vstd::prelude::*;

verus! {

/// Sgp40 errors
#[derive(Debug)]
pub enum Error<E> {
    /// I²C bus error
    I2c(E),
    /// CRC checksum validation failed
    Crc,
    /// Self test failed
    SelfTest,
}

/// The errors of the `sensirion_i2c` bus helpers, with the bus error as a
/// plain value.
#[derive(Debug)]
pub enum I2cHelperError<E> {
    /// The bus reported an error on a write.
    I2cWrite(E),
    /// The bus reported an error on a read.
    I2cRead(E),
    /// A checksum did not match.
    Crc,
}

impl<E> Error<E> {
    /// The driver error for an error of the bus helpers: bus errors on writes
    /// and reads both become `I2c`, a checksum mismatch becomes `Crc`.
    pub fn from_i2c_error(err: I2cHelperError<E>) -> (r: Self)
        ensures
            r == match err {
                I2cHelperError::I2cWrite(e) => Error::I2c(e),
                I2cHelperError::I2cRead(e) => Error::I2c(e),
                I2cHelperError::Crc => Error::<E>::Crc,
            },
    {
        match err {
            I2cHelperError::Crc => Error::Crc,
            I2cHelperError::I2cWrite(e) => Error::I2c(e),
            I2cHelperError::I2cRead(e) => Error::I2c(e),
        }
    }
}

/// The commands that the driver sends to the sensor.
#[derive(Debug, Copy, Clone, PartialEq, Eq, Structural)]
pub enum Command {
    /// Measures raw signal
    MeasurementRaw,
    /// Gets chips serial number
    Serial,
    /// Stops the measurement
    HeaterOff,
    /// Build-in self-test. This should be normally needed by any application
    MeasureTest,
    /// This is I²C wide command resetting all devices connected to the same bus
    SoftReset,
}

impl Command {
    /// The 16-bit command code sent on the bus.
    pub open spec fn code(self) -> u16 {
        match self {
            Command::MeasurementRaw => 0x260f,
            Command::Serial => 0x3682,
            Command::HeaterOff => 0x3615,
            Command::MeasureTest => 0x280e,
            Command::SoftReset => 0x0006,
        }
    }

    /// The time in milliseconds the sensor needs after the command.
    pub open spec fn delay_ms(self) -> u32 {
        match self {
            Command::MeasurementRaw => 30,
            Command::Serial => 1,
            Command::HeaterOff => 1,
            Command::MeasureTest => 250,
            Command::SoftReset => 1,
        }
    }

    /// Command and the requested delay in ms
    pub fn as_tuple(self) -> (r: (u16, u32))
        ensures
            r == (self.code(), self.delay_ms()),
    {
        match self {
            Command::MeasurementRaw => (0x260f, 30),
            Command::Serial => (0x3682, 1),
            Command::HeaterOff => (0x3615, 1),
            Command::MeasureTest => (0x280e, 250),
            Command::SoftReset => (0x0006, 1),
        }
    }
}

} // verus!
