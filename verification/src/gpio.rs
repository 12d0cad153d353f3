//! The GPIO command set: pin directions and levels, requests and responses.

use crate::ha::{diagnostic_bytes, ArgParser, Code, CodeCategory, MsgError, MsgFrame};
use vstd::prelude::*;

verus! {

/// How a pin is configured.
#[derive(Debug, Clone, Copy, PartialEq, Eq, Structural)]
pub enum GpioDir {
    PullDownInput,
    PullUpInput,
    Output,
}

impl GpioDir {
    /// The byte that stands for a direction.
    pub open spec fn spec_to_u8(self) -> u8 {
        match self {
            GpioDir::PullDownInput => 0,
            GpioDir::PullUpInput => 1,
            GpioDir::Output => 2,
        }
    }

    /// The direction that a byte stands for, if it stands for one.
    pub open spec fn spec_from_u8(x: u8) -> Option<GpioDir> {
        if x == 0 {
            Some(GpioDir::PullDownInput)
        } else if x == 1 {
            Some(GpioDir::PullUpInput)
        } else if x == 2 {
            Some(GpioDir::Output)
        } else {
            None
        }
    }

    /// The direction that `x` stands for; `None` for every byte above 2.
    pub fn from_u8(x: u8) -> (r: Option<Self>)
        ensures
            r == Self::spec_from_u8(x),
    {
        match x {
            0 => Some(Self::PullDownInput),
            1 => Some(Self::PullUpInput),
            2 => Some(Self::Output),
            _ => None,
        }
    }

    /// The byte that stands for this direction.
    pub fn to_u8(&self) -> (r: u8)
        ensures
            r == self.spec_to_u8(),
    {
        match self {
            Self::PullDownInput => 0,
            Self::PullUpInput => 1,
            Self::Output => 2,
        }
    }
}

/// The level of a pin.
#[derive(Debug, Clone, Copy, PartialEq, Eq, Structural)]
pub enum GpioValue {
    Low,
    High,
}

impl GpioValue {
    /// The byte that stands for a level.
    pub open spec fn spec_to_u8(self) -> u8 {
        match self {
            GpioValue::Low => 0,
            GpioValue::High => 1,
        }
    }

    /// The level that a byte stands for, if it stands for one.
    pub open spec fn spec_from_u8(x: u8) -> Option<GpioValue> {
        if x == 0 {
            Some(GpioValue::Low)
        } else if x == 1 {
            Some(GpioValue::High)
        } else {
            None
        }
    }

    /// The level that `x` stands for; `None` for every byte above 1.
    pub fn from_u8(x: u8) -> (r: Option<Self>)
        ensures
            r == Self::spec_from_u8(x),
    {
        match x {
            0 => Some(Self::Low),
            1 => Some(Self::High),
            _ => None,
        }
    }

    /// The byte that stands for this level.
    pub fn to_u8(&self) -> (r: u8)
        ensures
            r == self.spec_to_u8(),
    {
        match self {
            Self::Low => 0,
            Self::High => 1,
        }
    }
}

/// A direction is found again from its byte, and a byte that stands for a
/// direction is the byte of that direction.
pub proof fn lemma_gpio_dir_round_trip(d: GpioDir, x: u8)
    ensures
        GpioDir::spec_from_u8(d.spec_to_u8()) == Some(d),
        GpioDir::spec_from_u8(x) == Some(d) <==> d.spec_to_u8() == x,
        GpioDir::spec_from_u8(x) is Some <==> x <= 2,
{
}

/// A level is found again from its byte, and a byte that stands for a level
/// is the byte of that level.
pub proof fn lemma_gpio_value_round_trip(v: GpioValue, x: u8)
    ensures
        GpioValue::spec_from_u8(v.spec_to_u8()) == Some(v),
        GpioValue::spec_from_u8(x) == Some(v) <==> v.spec_to_u8() == x,
        GpioValue::spec_from_u8(x) is Some <==> x <= 1,
{
}

/// A command of the host.
#[derive(Debug, Clone, Copy, PartialEq, Eq, Structural)]
pub enum Request {
    Ping,
    ItfType,
    Version,
    IdGet,
    /// Configure a pin: its index, then the direction.
    GpioDirSet(u8, GpioDir),
    /// Report how a pin is configured.
    GpioDirGet(u8),
    /// Drive a pin: its index, then the level.
    GpioWrite(u8, GpioValue),
    /// Report the level of a pin.
    GpioRead(u8),
}

/// The request that a frame of the given code and payload asks for.
///
/// The generic requests take no argument and ignore the payload. A GPIO
/// request takes its arguments off the front of the payload, one byte each:
/// the pin index, then, where there is one, the direction or the level. A
/// missing byte, or one outside its enumeration, makes the whole request
/// invalid. A response code is no request.
pub open spec fn parse_request(code: Code, payload: Seq<u8>) -> Result<Request, MsgError> {
    match code {
        Code::Ping => Ok(Request::Ping),
        Code::ItfType => Ok(Request::ItfType),
        Code::Version => Ok(Request::Version),
        Code::IdGet => Ok(Request::IdGet),
        Code::GpioDirSet => if payload.len() >= 2 {
            match GpioDir::spec_from_u8(payload[1]) {
                Some(dir) => Ok(Request::GpioDirSet(payload[0], dir)),
                None => Err(MsgError::InvalidArg),
            }
        } else {
            Err(MsgError::InvalidArg)
        },
        Code::GpioDirGet => if payload.len() >= 1 {
            Ok(Request::GpioDirGet(payload[0]))
        } else {
            Err(MsgError::InvalidArg)
        },
        Code::GpioWrite => if payload.len() >= 2 {
            match GpioValue::spec_from_u8(payload[1]) {
                Some(value) => Ok(Request::GpioWrite(payload[0], value)),
                None => Err(MsgError::InvalidArg),
            }
        } else {
            Err(MsgError::InvalidArg)
        },
        Code::GpioRead => if payload.len() >= 1 {
            Ok(Request::GpioRead(payload[0]))
        } else {
            Err(MsgError::InvalidArg)
        },
        _ => Err(MsgError::NotARequest(code)),
    }
}

impl Request {
    /// Turns a frame into the request that it asks for.
    ///
    /// Fails with `InvalidArg` when an argument is missing or outside its
    /// enumeration, and with `NotARequest` when the code of the frame is
    /// that of a response.
    pub fn consume_frame(ff: MsgFrame) -> (r: Result<Self, MsgError>)
        ensures
            r == parse_request(ff@.0, ff@.1),
            CodeCategory::spec_categorize(ff@.0) == CodeCategory::Response ==> r == Err::<
                Request,
                MsgError,
            >(MsgError::NotARequest(ff@.0)),
    {
        match ff.code {
            Code::Ping => Ok(Self::Ping),
            Code::ItfType => Ok(Self::ItfType),
            Code::Version => Ok(Self::Version),
            Code::IdGet => Ok(Self::IdGet),
            Code::GpioDirSet => {
                let mut argp = ArgParser::new(ff.payload());
                let pin_idx = match argp.consume_u8() {
                    Some(x) => x,
                    None => {
                        return Err(MsgError::InvalidArg);
                    },
                };
                let dir = match argp.consume_u8() {
                    Some(x) => match GpioDir::from_u8(x) {
                        Some(d) => d,
                        None => {
                            return Err(MsgError::InvalidArg);
                        },
                    },
                    None => {
                        return Err(MsgError::InvalidArg);
                    },
                };
                Ok(Self::GpioDirSet(pin_idx, dir))
            },
            Code::GpioDirGet => {
                let mut argp = ArgParser::new(ff.payload());
                let pin_idx = match argp.consume_u8() {
                    Some(x) => x,
                    None => {
                        return Err(MsgError::InvalidArg);
                    },
                };
                Ok(Self::GpioDirGet(pin_idx))
            },
            Code::GpioWrite => {
                let mut argp = ArgParser::new(ff.payload());
                let pin_idx = match argp.consume_u8() {
                    Some(x) => x,
                    None => {
                        return Err(MsgError::InvalidArg);
                    },
                };
                let value = match argp.consume_u8() {
                    Some(x) => match GpioValue::from_u8(x) {
                        Some(v) => v,
                        None => {
                            return Err(MsgError::InvalidArg);
                        },
                    },
                    None => {
                        return Err(MsgError::InvalidArg);
                    },
                };
                Ok(Self::GpioWrite(pin_idx, value))
            },
            Code::GpioRead => {
                let mut argp = ArgParser::new(ff.payload());
                let pin_idx = match argp.consume_u8() {
                    Some(x) => x,
                    None => {
                        return Err(MsgError::InvalidArg);
                    },
                };
                Ok(Self::GpioRead(pin_idx))
            },
            _ => Err(MsgError::NotARequest(ff.code)),
        }
    }
}

/// A frame whose code is that of a response is never taken for a request,
/// whatever its payload; a frame whose code is that of a request never
/// fails for its code.
pub proof fn lemma_only_requests_are_dispatched(code: Code, payload: Seq<u8>)
    ensures
        CodeCategory::spec_categorize(code) == CodeCategory::Response <==> parse_request(
            code,
            payload,
        ) == Err::<Request, MsgError>(MsgError::NotARequest(code)),
        CodeCategory::spec_categorize(code) == CodeCategory::ReqGeneric ==> parse_request(
            code,
            payload,
        ) is Ok,
{
}

/// The number of argument bytes that a request of the given code takes.
pub open spec fn arity(code: Code) -> nat {
    match code {
        Code::GpioDirSet => 2,
        Code::GpioWrite => 2,
        Code::GpioDirGet => 1,
        Code::GpioRead => 1,
        _ => 0,
    }
}

/// A request takes exactly as many bytes as its arity: with fewer in the
/// payload it is invalid as a whole, and bytes beyond them change nothing.
pub proof fn lemma_request_takes_its_arity(code: Code, payload: Seq<u8>)
    ensures
        payload.len() < arity(code) ==> parse_request(code, payload) == Err::<Request, MsgError>(
            MsgError::InvalidArg,
        ),
        payload.len() >= arity(code) ==> parse_request(code, payload) == parse_request(
            code,
            payload.take(arity(code) as int),
        ),
{
}

/// An answer of the adapter.
#[derive(Debug, Clone, Copy, PartialEq, Eq)]
pub enum Response {
    /// The request was carried out.
    Good,
    /// The level of a pin: its index, then the level.
    GpioValue(u8, GpioValue),
    /// How a pin is configured: its index, then the direction.
    GpioDir(u8, GpioDir),
    /// The request failed; the text says how.
    ErrGeneric(&'static str),
    /// The request names a pin or a value that does not exist; the text
    /// says which.
    ErrInvalidArgs(&'static str),
}

impl Response {
    /// The code of the frame that carries a response.
    pub open spec fn spec_code(self) -> Code {
        match self {
            Response::Good => Code::Good,
            Response::GpioValue(_, _) => Code::GpioValue,
            Response::GpioDir(_, _) => Code::GpioValue,
            Response::ErrGeneric(_) => Code::ErrGeneric,
            Response::ErrInvalidArgs(_) => Code::ErrInvalidArgs,
        }
    }

    /// The payload of the frame that carries a response.
    pub open spec fn spec_payload(self) -> Seq<u8> {
        match self {
            Response::Good => Seq::empty(),
            Response::GpioValue(pin, value) => seq![pin, value.spec_to_u8()],
            Response::GpioDir(pin, dir) => seq![pin, dir.spec_to_u8()],
            Response::ErrGeneric(text) => diagnostic_bytes(text),
            Response::ErrInvalidArgs(text) => diagnostic_bytes(text),
        }
    }

    /// The frame that carries this response.
    ///
    /// `Good` has no payload. A pin report has two bytes, the pin index
    /// and the byte of the level or direction, under the code `GpioValue`.
    /// An error carries its text, cut off after `MAX_MSG_SIZE` bytes.
    pub fn to_frame(&self) -> (f: MsgFrame)
        ensures
            f@ == (self.spec_code(), self.spec_payload()),
            CodeCategory::spec_categorize(f@.0) == CodeCategory::Response,
    {
        match self {
            Self::Good => MsgFrame::empty(Code::Good),
            Self::GpioValue(idx, value) => {
                let bytes = [*idx, value.to_u8()];
                MsgFrame::new(Code::GpioValue, bytes.as_slice()).unwrap()
            },
            Self::GpioDir(idx, dir) => {
                let bytes = [*idx, dir.to_u8()];
                MsgFrame::new(Code::GpioValue, bytes.as_slice()).unwrap()
            },
            Self::ErrGeneric(text) => MsgFrame::with_text(Code::ErrGeneric, text),
            Self::ErrInvalidArgs(text) => MsgFrame::with_text(Code::ErrInvalidArgs, text),
        }
    }
}

} // verus!
