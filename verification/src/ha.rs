//! Message framing: codes, frames and argument parsing.

use crate::checksum::{calculate, crc16_ccitt_false};
use crate::payload::{
    payload_as_slice, payload_bytes, payload_from_slice, payload_new, MAX_MSG_SIZE,
};
use crate::slip::DecoderBuffer;
use vstd::prelude::*;
use vstd::slice::slice_subrange;
use vstd::string::StringSliceAdditionalSpecFns;

verus! {

/// The 16-bit number that two bytes spell in big-endian order.
pub open spec fn be16(hi: u8, lo: u8) -> u16 {
    (hi as int * 256 + lo as int) as u16
}

/// The high byte of `x` in big-endian order.
pub open spec fn hi_byte(x: u16) -> u8 {
    (x as int / 256) as u8
}

/// The low byte of `x` in big-endian order.
pub open spec fn lo_byte(x: u16) -> u8 {
    (x as int % 256) as u8
}

/// Joins two bytes, most significant first.
pub fn join_be(hi: u8, lo: u8) -> (x: u16)
    ensures
        x == be16(hi, lo),
        hi_byte(x) == hi,
        lo_byte(x) == lo,
{
    (hi as u16) * 256 + (lo as u16)
}

/// Splits `x` into its two bytes, most significant first.
pub fn split_be(x: u16) -> (bytes: [u8; 2])
    ensures
        bytes@ == seq![hi_byte(x), lo_byte(x)],
        be16(bytes@[0], bytes@[1]) == x,
{
    let bytes = [(x / 256) as u8, (x % 256) as u8];
    bytes
}

/// Splitting a number and joining the two bytes gives the number back, and
/// the other way round.
pub proof fn lemma_be16_round_trip(x: u16, hi: u8, lo: u8)
    ensures
        be16(hi_byte(x), lo_byte(x)) == x,
        hi_byte(be16(hi, lo)) == hi,
        lo_byte(be16(hi, lo)) == lo,
{
}

/// The identifier of a message kind, as it travels in the first two bytes
/// of a frame.
#[derive(Debug, Clone, Copy, PartialEq, Eq, Structural)]
pub enum Code {
    // Generic requests
    Ping,
    ItfType,
    Version,
    IdGet,
    // Requests of the GPIO interface
    GpioDirSet,
    GpioDirGet,
    GpioWrite,
    GpioRead,
    // Response of the GPIO interface
    GpioValue,
    // Responses
    Good,
    ErrGeneric,
    ErrCRC,
    ErrUnknownCode,
    ErrInvalidArgs,
    ErrBusy,
}

/// The three kinds of code.
#[derive(Debug, Clone, Copy, PartialEq, Eq, Structural)]
pub enum CodeCategory {
    /// A request that every interface answers.
    ReqGeneric,
    /// A request of the GPIO interface.
    ReqGpio,
    /// An answer of the adapter; never valid as a request.
    Response,
}

impl Code {
    /// The number of a code on the wire.
    pub open spec fn spec_to_u16(self) -> u16 {
        match self {
            Code::Ping => 0x0000,
            Code::ItfType => 0x0001,
            Code::Version => 0x0002,
            Code::IdGet => 0x0003,
            Code::GpioDirSet => 0x0100,
            Code::GpioDirGet => 0x0101,
            Code::GpioRead => 0x0102,
            Code::GpioWrite => 0x0103,
            Code::GpioValue => 0xFEFF,
            Code::Good => 0xFFFF,
            Code::ErrGeneric => 0xFFFE,
            Code::ErrCRC => 0xFFFD,
            Code::ErrUnknownCode => 0xFFFC,
            Code::ErrInvalidArgs => 0xFFFB,
            Code::ErrBusy => 0xFFFA,
        }
    }

    /// The code that a number stands for, if it stands for one.
    pub open spec fn spec_from_u16(code: u16) -> Option<Code> {
        if exists|c: Code| c.spec_to_u16() == code {
            Some(choose|c: Code| c.spec_to_u16() == code)
        } else {
            None
        }
    }

    /// Reads a code from two bytes in big-endian order.
    pub fn from_slice(ss: &[u8; 2]) -> (r: Option<Self>)
        ensures
            r == Self::spec_from_u16(be16(ss@[0], ss@[1])),
    {
        Self::from_u16(join_be(ss[0], ss[1]))
    }

    /// The code that `code` stands for; `None` for every number outside
    /// the table.
    pub fn from_u16(code: u16) -> (r: Option<Self>)
        ensures
            r == Self::spec_from_u16(code),
            r matches Some(c) ==> c.spec_to_u16() == code,
            r is None ==> forall|c: Code| c.spec_to_u16() != code,
    {
        let r = match code {
            0x0000 => Some(Self::Ping),
            0x0001 => Some(Self::ItfType),
            0x0002 => Some(Self::Version),
            0x0003 => Some(Self::IdGet),
            0x0100 => Some(Self::GpioDirSet),
            0x0101 => Some(Self::GpioDirGet),
            0x0102 => Some(Self::GpioRead),
            0x0103 => Some(Self::GpioWrite),
            0xFEFF => Some(Self::GpioValue),
            0xFFFF => Some(Self::Good),
            0xFFFE => Some(Self::ErrGeneric),
            0xFFFD => Some(Self::ErrCRC),
            0xFFFC => Some(Self::ErrUnknownCode),
            0xFFFB => Some(Self::ErrInvalidArgs),
            0xFFFA => Some(Self::ErrBusy),
            _ => None,
        };
        proof {
            match r {
                Some(c) => {
                    assert(c.spec_to_u16() == code);
                },
                None => {
                    assert forall|c: Code| c.spec_to_u16() != code by {}
                },
            }
        }
        r
    }

    /// The number of this code on the wire.
    pub fn to_u16(&self) -> (r: u16)
        ensures
            r == self.spec_to_u16(),
    {
        match self {
            Self::Ping => 0x0000,
            Self::ItfType => 0x0001,
            Self::Version => 0x0002,
            Self::IdGet => 0x0003,
            Self::GpioDirSet => 0x0100,
            Self::GpioDirGet => 0x0101,
            Self::GpioRead => 0x0102,
            Self::GpioWrite => 0x0103,
            Self::GpioValue => 0xFEFF,
            Self::Good => 0xFFFF,
            Self::ErrGeneric => 0xFFFE,
            Self::ErrCRC => 0xFFFD,
            Self::ErrUnknownCode => 0xFFFC,
            Self::ErrInvalidArgs => 0xFFFB,
            Self::ErrBusy => 0xFFFA,
        }
    }
}

impl CodeCategory {
    /// The category of a code, by the range that its number lies in:
    /// numbers up to `0x00FF` are generic requests, those from `0x0100` to
    /// `0x01FF` are GPIO requests, and all others are responses.
    pub open spec fn spec_categorize(code: Code) -> CodeCategory {
        let x = code.spec_to_u16();
        if x <= 0x00FF {
            CodeCategory::ReqGeneric
        } else if x <= 0x01FF {
            CodeCategory::ReqGpio
        } else {
            CodeCategory::Response
        }
    }

    /// Tells whether a code is a generic request, a GPIO request or a
    /// response.
    pub fn categorize(code: &Code) -> (r: CodeCategory)
        ensures
            r == Self::spec_categorize(*code),
            r == CodeCategory::ReqGeneric <==> (*code == Code::Ping || *code == Code::ItfType
                || *code == Code::Version || *code == Code::IdGet),
            r == CodeCategory::ReqGpio <==> (*code == Code::GpioDirSet || *code
                == Code::GpioDirGet || *code == Code::GpioWrite || *code == Code::GpioRead),
    {
        let x = code.to_u16();
        if x <= 0x00FF {
            CodeCategory::ReqGeneric
        } else if x <= 0x01FF {
            CodeCategory::ReqGpio
        } else {
            CodeCategory::Response
        }
    }
}

/// No two codes share a number.
pub proof fn lemma_code_numbers_distinct()
    ensures
        forall|a: Code, b: Code| a.spec_to_u16() == b.spec_to_u16() ==> a == b,
{
}

/// The code table is a bijection between the codes and their numbers: a
/// code is found again from its number, and a number that stands for a code
/// is the number of that code.
pub proof fn lemma_code_bijection(c: Code, x: u16)
    ensures
        Code::spec_from_u16(c.spec_to_u16()) == Some(c),
        Code::spec_from_u16(x) == Some(c) <==> c.spec_to_u16() == x,
{
}

/// Why a byte string is not a frame, or a frame not a request.
#[derive(Debug, Clone, Copy, PartialEq, Eq, Structural)]
pub enum MsgError {
    /// Fewer than four bytes, or a payload beyond the capacity.
    InvalidLength,
    /// The checksum computed over the frame, then the one received in it.
    InvalidCRC(u16, u16),
    /// The first two bytes stand for no code.
    UnknownCode,
    /// An argument is missing or outside its enumeration.
    InvalidArg,
    /// The code is that of a response.
    NotARequest(Code),
}

impl MsgError {
    /// The code of the response that reports this error to the host.
    pub open spec fn spec_reply_code(self) -> Code {
        match self {
            MsgError::InvalidLength => Code::ErrGeneric,
            MsgError::InvalidCRC(_, _) => Code::ErrCRC,
            MsgError::UnknownCode => Code::ErrUnknownCode,
            MsgError::InvalidArg => Code::ErrInvalidArgs,
            MsgError::NotARequest(_) => Code::ErrGeneric,
        }
    }

    /// The payload of the response that reports this error to the host: a
    /// short text under the codes `ErrGeneric` and `ErrInvalidArgs`,
    /// nothing under the others.
    pub open spec fn spec_reply_payload(self) -> Seq<u8> {
        match self {
            MsgError::InvalidLength => diagnostic_bytes("Invalid length"),
            MsgError::InvalidCRC(_, _) => Seq::empty(),
            MsgError::UnknownCode => Seq::empty(),
            MsgError::InvalidArg => diagnostic_bytes("Invalid argument"),
            MsgError::NotARequest(_) => diagnostic_bytes("Not a request"),
        }
    }

    /// The response frame that reports this error to the host.
    pub fn to_frame(&self) -> (f: MsgFrame)
        ensures
            f@ == (self.spec_reply_code(), self.spec_reply_payload()),
            CodeCategory::spec_categorize(f@.0) == CodeCategory::Response,
    {
        match self {
            MsgError::InvalidLength => MsgFrame::with_text(Code::ErrGeneric, "Invalid length"),
            MsgError::InvalidCRC(_, _) => MsgFrame::empty(Code::ErrCRC),
            MsgError::UnknownCode => MsgFrame::empty(Code::ErrUnknownCode),
            MsgError::InvalidArg => MsgFrame::with_text(Code::ErrInvalidArgs, "Invalid argument"),
            MsgError::NotARequest(_) => MsgFrame::with_text(Code::ErrGeneric, "Not a request"),
        }
    }
}

/// The bytes of a diagnostic text as a payload carries them: the bytes of
/// the text, cut off after `MAX_MSG_SIZE` of them.
pub open spec fn diagnostic_bytes(text: &str) -> Seq<u8> {
    let bytes = text.spec_bytes();
    if bytes.len() <= MAX_MSG_SIZE {
        bytes
    } else {
        bytes.subrange(0, MAX_MSG_SIZE as int)
    }
}

/// A message: its code and its payload.
#[derive(Debug)]
pub struct MsgFrame {
    pub code: Code,
    pub data: heapless::Vec<u8, MAX_MSG_SIZE>,
}

impl View for MsgFrame {
    type V = (Code, Seq<u8>);

    open spec fn view(&self) -> (Code, Seq<u8>) {
        (self.code, payload_bytes(self.data))
    }
}

/// The part of a serialized frame that the checksum covers: the code,
/// most significant byte first, then the payload.
pub open spec fn frame_body(code: Code, payload: Seq<u8>) -> Seq<u8> {
    seq![hi_byte(code.spec_to_u16()), lo_byte(code.spec_to_u16())] + payload
}

/// The checksum of a frame.
pub open spec fn frame_crc(code: Code, payload: Seq<u8>) -> u16 {
    crc16_ccitt_false(frame_body(code, payload))
}

/// A frame as it travels: the code, the payload, and the checksum of both,
/// most significant byte first.
pub open spec fn frame_bytes(code: Code, payload: Seq<u8>) -> Seq<u8> {
    frame_body(code, payload) + seq![
        hi_byte(frame_crc(code, payload)),
        lo_byte(frame_crc(code, payload)),
    ]
}

/// What a byte string is read as: the code and payload of a frame, or the
/// first reason, in the order length, checksum, code, capacity, why it is
/// not one.
pub open spec fn parse_frame(s: Seq<u8>) -> Result<(Code, Seq<u8>), MsgError> {
    let n = s.len() as int;
    if n < 4 {
        Err(MsgError::InvalidLength)
    } else {
        let computed = crc16_ccitt_false(s.subrange(0, n - 2));
        let received = be16(s[n - 2], s[n - 1]);
        if computed != received {
            Err(MsgError::InvalidCRC(computed, received))
        } else {
            match Code::spec_from_u16(be16(s[0], s[1])) {
                None => Err(MsgError::UnknownCode),
                Some(code) => if n - 4 > MAX_MSG_SIZE {
                    Err(MsgError::InvalidLength)
                } else {
                    Ok((code, s.subrange(2, n - 2)))
                },
            }
        }
    }
}

/// The most bytes that a serialized frame can have: the code, a payload
/// of `MAX_MSG_SIZE` bytes, and the checksum.
pub const FRAME_CAPACITY: usize = MAX_MSG_SIZE + 4;

/// Appends the bytes of `src` to `dst`, which has room for them.
fn append_bytes(dst: &mut DecoderBuffer<FRAME_CAPACITY>, src: &[u8])
    requires
        old(dst)@.len() + src@.len() <= FRAME_CAPACITY,
    ensures
        final(dst)@ == old(dst)@ + src@,
{
    let mut i: usize = 0;
    while i < src.len()
        invariant
            i <= src@.len(),
            old(dst)@.len() + src@.len() <= FRAME_CAPACITY,
            dst@ == old(dst)@ + src@.subrange(0, i as int),
        decreases src@.len() - i,
    {
        let _ = dst.put(src[i]);
        i += 1;
    }
}

impl MsgFrame {
    /// Makes a frame of a code and a payload. Fails with `InvalidLength`
    /// exactly when the payload is longer than `MAX_MSG_SIZE`.
    pub fn new(code: Code, payload: &[u8]) -> (r: Result<Self, MsgError>)
        ensures
            r is Ok <==> payload@.len() <= MAX_MSG_SIZE,
            r matches Ok(f) ==> f@ == (code, payload@),
            r matches Err(e) ==> e == MsgError::InvalidLength,
    {
        match payload_from_slice(payload) {
            Ok(data) => Ok(Self { code, data }),
            Err(_) => Err(MsgError::InvalidLength),
        }
    }

    /// A frame of a code and no payload.
    pub fn empty(code: Code) -> (f: Self)
        ensures
            f@ == (code, Seq::<u8>::empty()),
    {
        Self { code, data: payload_new() }
    }

    /// A frame of a code and a diagnostic text. A text of more than
    /// `MAX_MSG_SIZE` bytes is cut off there.
    pub fn with_text(code: Code, text: &str) -> (f: Self)
        ensures
            f@ == (code, diagnostic_bytes(text)),
    {
        let bytes = text.as_bytes();
        let kept = if bytes.len() <= MAX_MSG_SIZE {
            bytes
        } else {
            slice_subrange(bytes, 0, MAX_MSG_SIZE)
        };
        Self { code, data: payload_from_slice(kept).unwrap() }
    }

    /// Reads a frame from its serialized bytes.
    ///
    /// The bytes are rejected with `InvalidLength` when there are fewer
    /// than four; else with `InvalidCRC` when the last two bytes are not
    /// the checksum of those before; else with `UnknownCode` when the first
    /// two stand for no code; else with `InvalidLength` when more than
    /// `MAX_MSG_SIZE` bytes lie between. Otherwise the frame holds the code
    /// and the bytes between.
    pub fn from_slice(ss: &[u8]) -> (r: Result<Self, MsgError>)
        ensures
            match r {
                Ok(f) => parse_frame(ss@) == Ok::<(Code, Seq<u8>), MsgError>(f@),
                Err(e) => parse_frame(ss@) == Err::<(Code, Seq<u8>), MsgError>(e),
            },
    {
        let n = ss.len();
        if n < 4 {
            return Err(MsgError::InvalidLength);
        }
        let crc_frame = join_be(ss[n - 2], ss[n - 1]);
        let crc_real = calculate(slice_subrange(ss, 0, n - 2));
        if crc_real != crc_frame {
            return Err(MsgError::InvalidCRC(crc_real, crc_frame));
        }
        let head = [ss[0], ss[1]];
        let code = match Code::from_slice(&head) {
            Some(x) => x,
            None => {
                return Err(MsgError::UnknownCode);
            },
        };
        match payload_from_slice(slice_subrange(ss, 2, n - 2)) {
            Ok(data) => Ok(Self { code, data }),
            Err(_) => Err(MsgError::InvalidLength),
        }
    }

    /// The payload of the frame.
    pub fn payload(&self) -> (s: &[u8])
        ensures
            s@ == self@.1,
            s@.len() <= MAX_MSG_SIZE,
    {
        payload_as_slice(&self.data)
    }

    /// The checksum of the frame: that of its code, most significant byte
    /// first, followed by its payload.
    pub fn crc(&self) -> (r: u16)
        ensures
            r == frame_crc(self@.0, self@.1),
    {
        let head = split_be(self.code.to_u16());
        let mut body: DecoderBuffer<FRAME_CAPACITY> = DecoderBuffer::new();
        append_bytes(&mut body, head.as_slice());
        append_bytes(&mut body, self.payload());
        assert(body@ == frame_body(self@.0, self@.1));
        calculate(body.slice())
    }

    /// The frame as it travels: code, payload, checksum.
    pub fn to_bytes(&self) -> (bytes: DecoderBuffer<FRAME_CAPACITY>)
        ensures
            bytes@ == frame_bytes(self@.0, self@.1),
            parse_frame(bytes@) == Ok::<(Code, Seq<u8>), MsgError>(self@),
    {
        let head = split_be(self.code.to_u16());
        let mut bytes: DecoderBuffer<FRAME_CAPACITY> = DecoderBuffer::new();
        append_bytes(&mut bytes, head.as_slice());
        append_bytes(&mut bytes, self.payload());
        assert(bytes@ == frame_body(self@.0, self@.1));
        let tail = split_be(calculate(bytes.slice()));
        append_bytes(&mut bytes, tail.as_slice());
        proof {
            lemma_frame_round_trip(self@.0, self@.1);
        }
        bytes
    }
}

/// Reading a serialized frame gives the frame back: for every code and
/// every payload within the capacity, the bytes of the frame parse to that
/// code and that payload.
pub proof fn lemma_frame_round_trip(code: Code, payload: Seq<u8>)
    requires
        payload.len() <= MAX_MSG_SIZE,
    ensures
        parse_frame(frame_bytes(code, payload)) == Ok::<(Code, Seq<u8>), MsgError>(
            (code, payload),
        ),
{
    let s = frame_bytes(code, payload);
    let n = s.len() as int;
    assert(s.subrange(0, n - 2) == frame_body(code, payload));
    assert(s.subrange(2, n - 2) == payload);
}

/// The byte string `s` with one bit of its byte `i` inverted.
pub open spec fn flip_bit(s: Seq<u8>, i: int, bit: u8) -> Seq<u8> {
    s.update(i, s[i] ^ (1u8 << bit))
}

/// A single inverted bit in the checksum of a serialized frame is always
/// found out: the bytes are rejected with `InvalidCRC`, which carries the
/// checksum computed, unchanged, and the one received, now another.
pub proof fn lemma_flipped_checksum_bit_is_detected(s: Seq<u8>, i: int, bit: u8)
    requires
        parse_frame(s) is Ok,
        s.len() - 2 <= i < s.len(),
        bit < 8,
    ensures
        parse_frame(flip_bit(s, i, bit)) matches Err(MsgError::InvalidCRC(computed, received))
            && computed == crc16_ccitt_false(s.subrange(0, s.len() - 2)) && received != computed,
{
    let t = flip_bit(s, i, bit);
    let n = s.len() as int;
    let b = s[i];
    assert((b ^ (1u8 << bit)) != b) by (bit_vector)
        requires
            bit < 8,
    ;
    assert(t.subrange(0, n - 2) == s.subrange(0, n - 2));
}

/// A change to a serialized frame that leaves its length and its last two
/// bytes alone is found out exactly when the checksum tells the changed
/// bytes from those of the frame: the result is then `InvalidCRC`, and no
/// other error comes before it.
///
/// That the checksum does tell them apart when a single bit differs is a
/// property of CRC-16/CCITT-FALSE; it is not proved here, where the
/// checksum is only a name.
pub proof fn lemma_changed_body_is_detected(s: Seq<u8>, t: Seq<u8>)
    requires
        parse_frame(s) is Ok,
        t.len() == s.len(),
        t[s.len() - 2] == s[s.len() - 2],
        t[s.len() - 1] == s[s.len() - 1],
    ensures
        crc16_ccitt_false(t.subrange(0, s.len() - 2)) != crc16_ccitt_false(
            s.subrange(0, s.len() - 2),
        ) <==> parse_frame(t) matches Err(MsgError::InvalidCRC(_, _)),
        parse_frame(t) matches Err(MsgError::InvalidCRC(computed, received)) ==> computed
            == crc16_ccitt_false(t.subrange(0, s.len() - 2)) && received == crc16_ccitt_false(
            s.subrange(0, s.len() - 2),
        ),
{
}

/// A cursor that takes typed arguments off the front of a payload, one
/// after the other.
pub struct ArgParser<'a> {
    buf: &'a [u8],
    idx: usize,
}

impl<'a> ArgParser<'a> {
    #[verifier::type_invariant]
    spec fn in_bounds(&self) -> bool {
        self.idx <= self.buf@.len()
    }

    /// The bytes that have not been taken yet.
    pub closed spec fn remaining(&self) -> Seq<u8> {
        self.buf@.subrange(self.idx as int, self.buf@.len() as int)
    }

    /// A cursor at the start of `buf`.
    pub fn new(buf: &'a [u8]) -> (r: Self)
        ensures
            r.remaining() == buf@,
    {
        Self { buf, idx: 0 }
    }

    /// Takes the next byte. Returns `None`, and takes nothing, when no byte
    /// remains.
    pub fn consume_u8(&mut self) -> (r: Option<u8>)
        ensures
            r is Some <==> old(self).remaining().len() >= 1,
            r matches Some(x) ==> x == old(self).remaining()[0] && final(self).remaining()
                == old(self).remaining().skip(1),
            r is None ==> final(self).remaining() == old(self).remaining(),
    {
        proof {
            use_type_invariant(&*self);
        }
        if self.idx < self.buf.len() {
            let c = self.buf[self.idx];
            self.idx += 1;
            Some(c)
        } else {
            None
        }
    }

    /// Takes the next two bytes as a number in big-endian order. Returns
    /// `None`, and takes nothing, when fewer than two bytes remain.
    pub fn consume_u16(&mut self) -> (r: Option<u16>)
        ensures
            r is Some <==> old(self).remaining().len() >= 2,
            r matches Some(x) ==> x == be16(old(self).remaining()[0], old(self).remaining()[1])
                && final(self).remaining() == old(self).remaining().skip(2),
            r is None ==> final(self).remaining() == old(self).remaining(),
    {
        proof {
            use_type_invariant(&*self);
        }
        if self.buf.len() - self.idx >= 2 {
            let x = join_be(self.buf[self.idx], self.buf[self.idx + 1]);
            self.idx += 2;
            Some(x)
        } else {
            None
        }
    }
}

} // verus!
