//! The error values that the library's operations report.
use vstd::prelude::*;
use crate::timer::TimerError;

verus! {

/// The error of a failed conversion of text into an integer.
#[verifier::external_type_specification]
#[verifier::external_body]
pub struct ExParseIntError(std::num::ParseIntError);

/// Any failure of an operation of the game client.
#[derive(Debug)]
pub enum ShapoError {
    /// A failure of the system around the game (files, settings, missing data).
    SystemError(String),
    /// A failure to convert a value to or from its stored form.
    ConvertError(String),
    /// A failure of a [`crate::timer::Timer`].
    TimerError(TimerError),
    /// A failure to understand a command.
    ParseError(ParseError),
}

/// A failure to understand a command typed by the user.
#[derive(Debug)]
pub enum ParseError {
    /// A number in the command could not be read.
    NaN(std::num::ParseIntError),
    /// The command is not one the editor knows.
    InvaildCommand,
}

} // verus!
