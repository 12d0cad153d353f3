//! The command set that the adapter speaks as text: a command of three
//! numbers, answered by a status, two numbers and a message.

use crate::payload::MAX_MSG_SIZE;
use vstd::prelude::*;

verus! {

/// `heapless::String`, carried as an opaque value.
#[verifier::external_type_specification]
#[verifier::external_body]
pub struct ExHeaplessString<const N: usize>(heapless::String<N>);

/// What a command asks for.
#[derive(Debug, Clone, Copy, PartialEq, Eq, Structural)]
pub enum CommandCode {
    SetDirection,
    WriteValue,
    ReadValue,
    Test,
}

impl CommandCode {
    /// The command that a number stands for, if it stands for one.
    pub open spec fn spec_from_u8(x: u8) -> Option<CommandCode> {
        if x == 0 {
            Some(CommandCode::SetDirection)
        } else if x == 1 {
            Some(CommandCode::WriteValue)
        } else if x == 2 {
            Some(CommandCode::ReadValue)
        } else if x == 10 {
            Some(CommandCode::Test)
        } else {
            None
        }
    }

    /// The command that `x` stands for; `None` for every number but 0, 1,
    /// 2 and 10.
    pub fn from_u8(x: u8) -> (r: Option<Self>)
        ensures
            r == Self::spec_from_u8(x),
    {
        match x {
            0 => Some(Self::SetDirection),
            1 => Some(Self::WriteValue),
            2 => Some(Self::ReadValue),
            10 => Some(Self::Test),
            _ => None,
        }
    }
}

/// A command of the host.
#[derive(Debug, Clone, Copy, PartialEq, Eq, Structural)]
pub struct Command {
    /// The number of the command.
    pub cod: u8,
    /// The index of the pin that the command is about.
    pub pin: u8,
    /// The argument of the command.
    pub arg: u8,
}

/// The text of an answer.
pub type AnswerText = heapless::String<MAX_MSG_SIZE>;

/// Whether a command was carried out.
#[derive(Debug, Clone, Copy, PartialEq, Eq, Structural)]
pub enum AnswerStatus {
    Okay,
    Error,
}

/// The answer to a command.
#[derive(Debug)]
pub struct Answer {
    /// Whether the command was carried out.
    pub sts: AnswerStatus,
    /// The index of the pin that the command was about.
    pub pin: u8,
    /// The value read, or the argument of the command.
    pub arg: u8,
    /// A text for the reader.
    pub msg: AnswerText,
}

impl Answer {
    /// The answer to a command that was carried out.
    pub fn ok(pin: u8, arg: u8, msg: AnswerText) -> (r: Self)
        ensures
            r.sts == AnswerStatus::Okay,
            r.pin == pin,
            r.arg == arg,
            r.msg == msg,
    {
        Self { sts: AnswerStatus::Okay, pin: pin, arg: arg, msg: msg }
    }

    /// The answer to a command that failed.
    pub fn error(pin: u8, arg: u8, msg: AnswerText) -> (r: Self)
        ensures
            r.sts == AnswerStatus::Error,
            r.pin == pin,
            r.arg == arg,
            r.msg == msg,
    {
        Self { sts: AnswerStatus::Error, pin: pin, arg: arg, msg: msg }
    }
}

/// The level that a write command asks for.
#[derive(Debug, Clone, Copy, PartialEq, Eq, Structural)]
pub enum CmdPinWriteValue {
    Low,
    High,
}

impl CmdPinWriteValue {
    /// The level that a number stands for, if it stands for one.
    pub open spec fn spec_from_u8(x: u8) -> Option<CmdPinWriteValue> {
        if x == 0 {
            Some(CmdPinWriteValue::Low)
        } else if x == 1 {
            Some(CmdPinWriteValue::High)
        } else {
            None
        }
    }

    /// The level that `x` stands for; `None` for every number above 1.
    pub fn from_u8(x: u8) -> (r: Option<Self>)
        ensures
            r == Self::spec_from_u8(x),
    {
        match x {
            0 => Some(Self::Low),
            1 => Some(Self::High),
            _ => None,
        }
    }
}

/// The direction that a direction command asks for.
#[derive(Debug, Clone, Copy, PartialEq, Eq, Structural)]
pub enum CmdPinDirValue {
    PullUpInput,
    PullDownInput,
    ReadableOutput,
}

impl CmdPinDirValue {
    /// The direction that a number stands for, if it stands for one.
    pub open spec fn spec_from_u8(x: u8) -> Option<CmdPinDirValue> {
        if x == 0 {
            Some(CmdPinDirValue::PullUpInput)
        } else if x == 1 {
            Some(CmdPinDirValue::PullDownInput)
        } else if x == 2 {
            Some(CmdPinDirValue::ReadableOutput)
        } else {
            None
        }
    }

    /// The direction that `x` stands for; `None` for every number above 2.
    pub fn from_u8(x: u8) -> (r: Option<Self>)
        ensures
            r == Self::spec_from_u8(x),
    {
        match x {
            0 => Some(Self::PullUpInput),
            1 => Some(Self::PullDownInput),
            2 => Some(Self::ReadableOutput),
            _ => None,
        }
    }
}

} // verus!
