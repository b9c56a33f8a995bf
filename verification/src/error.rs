//! The errors that decoding a command frame can end in.

use vstd::prelude::*;
use vstd::string::*;
use crate::text::{decimal_text, u8_text};

verus! {

/// Why a command frame was not carried out, or not to its end.
#[derive(Debug, PartialEq, Eq)]
pub enum Rr4cError {
    /// The frame or segment is malformed; holds its text.
    BadCommand(String),
    /// A number in the command cannot be read; holds the command's text.
    BadCommandValue(String),
    /// The hardware refused an operation; holds what it reported.
    Gpio(String),
    /// The command ends before all of its fields; holds its text.
    IncompleteCommand(String),
    /// No such command; holds its text.
    UnknownCommand(String),
    /// No such light command; holds the character that was given.
    UnknownLedCommand(u8),
    /// No such mode; holds the code that was given.
    UnknownModeCommand(String),
    /// No such direction; holds the character that was given.
    UnknownMotorCommand(u8),
    /// No such speed change; holds the character that was given.
    UnknownMotorSpeedCommand(u8),
    /// No such servo command; holds the character that was given.
    UnknownServoCommand(u8),
    /// No such spin; holds the character that was given.
    UnknownSpinCommand(u8),
}

/// An error as contracts speak of it: the kind, with the text or character
/// it holds.
pub enum Fault {
    BadCommand(Seq<char>),
    BadCommandValue(Seq<char>),
    Gpio(Seq<char>),
    IncompleteCommand(Seq<char>),
    UnknownCommand(Seq<char>),
    UnknownLedCommand(u8),
    UnknownModeCommand(Seq<char>),
    UnknownMotorCommand(u8),
    UnknownMotorSpeedCommand(u8),
    UnknownServoCommand(u8),
    UnknownSpinCommand(u8),
}

impl View for Rr4cError {
    type V = Fault;

    open spec fn view(&self) -> Fault {
        match self {
            Rr4cError::BadCommand(s) => Fault::BadCommand(s@),
            Rr4cError::BadCommandValue(s) => Fault::BadCommandValue(s@),
            Rr4cError::Gpio(s) => Fault::Gpio(s@),
            Rr4cError::IncompleteCommand(s) => Fault::IncompleteCommand(s@),
            Rr4cError::UnknownCommand(s) => Fault::UnknownCommand(s@),
            Rr4cError::UnknownLedCommand(c) => Fault::UnknownLedCommand(*c),
            Rr4cError::UnknownModeCommand(s) => Fault::UnknownModeCommand(s@),
            Rr4cError::UnknownMotorCommand(c) => Fault::UnknownMotorCommand(*c),
            Rr4cError::UnknownMotorSpeedCommand(c) => Fault::UnknownMotorSpeedCommand(*c),
            Rr4cError::UnknownServoCommand(c) => Fault::UnknownServoCommand(*c),
            Rr4cError::UnknownSpinCommand(c) => Fault::UnknownSpinCommand(*c),
        }
    }
}

/// The result of a call that returns a value or an error.
pub type Rr4cResult<T> = Result<T, Rr4cError>;

/// A result as contracts speak of it: success, or the fault.
pub open spec fn outcome(result: Result<(), Rr4cError>) -> Result<(), Fault> {
    match result {
        Ok(_) => Ok(()),
        Err(e) => Err(e@),
    }
}

impl Fault {
    /// What the message of this error opens with.
    pub open spec fn opening(self) -> Seq<char> {
        match self {
            Fault::BadCommand(_) => "Was given invalid command: '"@,
            Fault::BadCommandValue(_) => "Was given bad command value in command: '"@,
            Fault::Gpio(_) => "Gpio access failed"@,
            Fault::IncompleteCommand(_) => "Was given an invalid or incomplete command: '"@,
            Fault::UnknownCommand(_) => "Given unknown command: '"@,
            Fault::UnknownLedCommand(_) => "Given unknown led command: '"@,
            Fault::UnknownModeCommand(_) => "Given unknown mode command: '"@,
            Fault::UnknownMotorCommand(_) => "Given unknown motor command '"@,
            Fault::UnknownMotorSpeedCommand(_) => "Given unknown motor speed command '"@,
            Fault::UnknownServoCommand(_) => "Given unknown servo command '"@,
            Fault::UnknownSpinCommand(_) => "Given unknown spin command '"@,
        }
    }

    /// What the message of this error quotes: the text it holds, or the
    /// character it holds as a number in base ten. Nothing for a hardware
    /// failure.
    pub open spec fn quoted(self) -> Option<Seq<char>> {
        match self {
            Fault::BadCommand(s) => Some(s),
            Fault::BadCommandValue(s) => Some(s),
            Fault::Gpio(_) => None,
            Fault::IncompleteCommand(s) => Some(s),
            Fault::UnknownCommand(s) => Some(s),
            Fault::UnknownLedCommand(c) => Some(decimal_text(c as nat)),
            Fault::UnknownModeCommand(s) => Some(s),
            Fault::UnknownMotorCommand(c) => Some(decimal_text(c as nat)),
            Fault::UnknownMotorSpeedCommand(c) => Some(decimal_text(c as nat)),
            Fault::UnknownServoCommand(c) => Some(decimal_text(c as nat)),
            Fault::UnknownSpinCommand(c) => Some(decimal_text(c as nat)),
        }
    }

    /// The message of this error: the opening, then what it quotes between
    /// single quotes.
    pub open spec fn message(self) -> Seq<char> {
        match self.quoted() {
            Some(q) => self.opening() + q + "'"@,
            None => self.opening(),
        }
    }
}

impl Rr4cError {
    /// The message of this error, for a person to read.
    pub fn message(&self) -> (text: String)
        ensures
            text@ == self@.message(),
    {
        match self {
            Rr4cError::BadCommand(s) => quote("Was given invalid command: '", s.as_str()),
            Rr4cError::BadCommandValue(s) => quote(
                "Was given bad command value in command: '",
                s.as_str(),
            ),
            Rr4cError::Gpio(_) => String::from_str("Gpio access failed"),
            Rr4cError::IncompleteCommand(s) => quote(
                "Was given an invalid or incomplete command: '",
                s.as_str(),
            ),
            Rr4cError::UnknownCommand(s) => quote("Given unknown command: '", s.as_str()),
            Rr4cError::UnknownLedCommand(c) => quote(
                "Given unknown led command: '",
                u8_text(*c).as_str(),
            ),
            Rr4cError::UnknownModeCommand(s) => quote("Given unknown mode command: '", s.as_str()),
            Rr4cError::UnknownMotorCommand(c) => quote(
                "Given unknown motor command '",
                u8_text(*c).as_str(),
            ),
            Rr4cError::UnknownMotorSpeedCommand(c) => quote(
                "Given unknown motor speed command '",
                u8_text(*c).as_str(),
            ),
            Rr4cError::UnknownServoCommand(c) => quote(
                "Given unknown servo command '",
                u8_text(*c).as_str(),
            ),
            Rr4cError::UnknownSpinCommand(c) => quote(
                "Given unknown spin command '",
                u8_text(*c).as_str(),
            ),
        }
    }
}

/// `opening`, then `quoted`, then a closing single quote.
fn quote(opening: &str, quoted: &str) -> (text: String)
    ensures
        text@ == opening@ + quoted@ + "'"@,
{
    let mut text = String::from_str(opening);
    text.append(quoted);
    text.append("'");
    text
}

} // verus!
