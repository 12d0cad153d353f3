//! From the bytes of the stream to the answer: what to do with a completed
//! frame, how the outcome of a pin operation becomes a response, and how a
//! response goes back onto the stream.
//!
//! The pin operations themselves, and the transport, are the caller's. The
//! functions here decide; the caller acts and reports back.

use crate::gpio::{parse_request, GpioDir, GpioValue, Request, Response};
use crate::ha::{frame_bytes, lemma_frame_round_trip, parse_frame, Code, CodeCategory, MsgFrame};
use crate::payload::MAX_MSG_SIZE;
use crate::slip::{
    escape, feed_outcome, lemma_slip_round_trip, slip_encode, Decoder, DecoderErrorCode,
    DecoderState, Encoder, Fed, SlipError,
};
use vstd::prelude::*;

verus! {

/// What the capability provider reports after a pin operation.
#[derive(Debug, Clone, Copy, PartialEq, Eq, Structural)]
pub enum ProviderReply {
    /// The direction or the level was set.
    Done,
    /// How the pin is configured.
    Direction(GpioDir),
    /// The level of the pin.
    Value(GpioValue),
    /// The provider has no pin of that index.
    InvalidPin,
    /// The hardware refused the operation.
    Failed,
}

/// The response to a GPIO request, given what the provider reported.
///
/// An unknown pin is an invalid argument. Otherwise the reply that fits the
/// request gives `Good` or the report asked for, and every other reply is a
/// generic error whose text names the operation that failed.
pub open spec fn spec_conclude(req: Request, reply: ProviderReply) -> Response {
    match req {
        Request::GpioDirSet(_, _) => match reply {
            ProviderReply::InvalidPin => Response::ErrInvalidArgs("Unknown pin"),
            ProviderReply::Done => Response::Good,
            _ => Response::ErrGeneric("Cannot set into desired mode"),
        },
        Request::GpioDirGet(pin) => match reply {
            ProviderReply::InvalidPin => Response::ErrInvalidArgs("Unknown pin"),
            ProviderReply::Direction(dir) => Response::GpioDir(pin, dir),
            _ => Response::ErrGeneric("Unknown pin direction"),
        },
        Request::GpioWrite(_, _) => match reply {
            ProviderReply::InvalidPin => Response::ErrInvalidArgs("Unknown pin"),
            ProviderReply::Done => Response::Good,
            _ => Response::ErrGeneric("Cannot set desired value"),
        },
        Request::GpioRead(pin) => match reply {
            ProviderReply::InvalidPin => Response::ErrInvalidArgs("Unknown pin"),
            ProviderReply::Value(value) => Response::GpioValue(pin, value),
            _ => Response::ErrGeneric("Error reading pin"),
        },
        _ => Response::ErrGeneric("Not a GPIO request"),
    }
}

/// Folds the provider's report on a GPIO request into the response.
pub fn conclude(req: &Request, reply: ProviderReply) -> (r: Response)
    ensures
        r == spec_conclude(*req, reply),
{
    match req {
        Request::GpioDirSet(_, _) => match reply {
            ProviderReply::InvalidPin => Response::ErrInvalidArgs("Unknown pin"),
            ProviderReply::Done => Response::Good,
            _ => Response::ErrGeneric("Cannot set into desired mode"),
        },
        Request::GpioDirGet(pin) => match reply {
            ProviderReply::InvalidPin => Response::ErrInvalidArgs("Unknown pin"),
            ProviderReply::Direction(dir) => Response::GpioDir(*pin, dir),
            _ => Response::ErrGeneric("Unknown pin direction"),
        },
        Request::GpioWrite(_, _) => match reply {
            ProviderReply::InvalidPin => Response::ErrInvalidArgs("Unknown pin"),
            ProviderReply::Done => Response::Good,
            _ => Response::ErrGeneric("Cannot set desired value"),
        },
        Request::GpioRead(pin) => match reply {
            ProviderReply::InvalidPin => Response::ErrInvalidArgs("Unknown pin"),
            ProviderReply::Value(value) => Response::GpioValue(*pin, value),
            _ => Response::ErrGeneric("Error reading pin"),
        },
        _ => Response::ErrGeneric("Not a GPIO request"),
    }
}

/// What to do with a completed frame, as a plain value.
pub enum Plan {
    /// Send the frame of this code and payload.
    Send(Code, Seq<u8>),
    /// Let the identity provider answer this generic request.
    Identify(Request),
    /// Let the capability provider carry out this GPIO request.
    Perform(Request),
}

/// What to do with a completed frame.
#[derive(Debug)]
pub enum Action {
    /// The answer is decided: send this frame.
    Send(MsgFrame),
    /// A generic request other than `Ping`: the identity provider answers.
    Identify(Request),
    /// A GPIO request: the capability provider carries it out, and
    /// `conclude` turns its report into the response.
    Perform(Request),
}

impl View for Action {
    type V = Plan;

    open spec fn view(&self) -> Plan {
        match self {
            Action::Send(f) => Plan::Send(f@.0, f@.1),
            Action::Identify(req) => Plan::Identify(*req),
            Action::Perform(req) => Plan::Perform(*req),
        }
    }
}

/// What a frame of the given code and payload calls for.
///
/// A frame that is no request calls for the response that reports the
/// error. `Ping` calls for `Good`. The other generic requests go to the
/// identity provider, the GPIO requests to the capability provider.
pub open spec fn plan_frame(code: Code, payload: Seq<u8>) -> Plan {
    match parse_request(code, payload) {
        Err(e) => Plan::Send(e.spec_reply_code(), e.spec_reply_payload()),
        Ok(req) => if req == Request::Ping {
            Plan::Send(Code::Good, Seq::empty())
        } else if CodeCategory::spec_categorize(code) == CodeCategory::ReqGeneric {
            Plan::Identify(req)
        } else {
            Plan::Perform(req)
        },
    }
}

/// What the bytes of a completed frame call for: the response that
/// reports the error where the bytes are no frame, else what the frame
/// calls for.
pub open spec fn plan(bytes: Seq<u8>) -> Plan {
    match parse_frame(bytes) {
        Err(e) => Plan::Send(e.spec_reply_code(), e.spec_reply_payload()),
        Ok((code, payload)) => plan_frame(code, payload),
    }
}

/// Decides what to do with the bytes of a completed frame.
pub fn decide(bytes: &[u8]) -> (a: Action)
    ensures
        a@ == plan(bytes@),
{
    let frame = match MsgFrame::from_slice(bytes) {
        Ok(f) => f,
        Err(e) => {
            return Action::Send(e.to_frame());
        },
    };
    let category = CodeCategory::categorize(&frame.code);
    match Request::consume_frame(frame) {
        Err(e) => Action::Send(e.to_frame()),
        Ok(req) => match req {
            Request::Ping => Action::Send(Response::Good.to_frame()),
            _ => match category {
                CodeCategory::ReqGeneric => Action::Identify(req),
                _ => Action::Perform(req),
            },
        },
    }
}

/// What a plan is made of: an action never asks the identity provider for
/// anything but one of its three requests, nor the capability provider for
/// anything but a GPIO request, and a frame to send always bears a
/// response code.
pub proof fn lemma_plan_is_sound(bytes: Seq<u8>)
    ensures
        match plan(bytes) {
            Plan::Send(code, _) => CodeCategory::spec_categorize(code) == CodeCategory::Response,
            Plan::Identify(req) => req == Request::ItfType || req == Request::Version || req
                == Request::IdGet,
            Plan::Perform(req) => req is GpioDirSet || req is GpioDirGet || req is GpioWrite
                || req is GpioRead,
        },
{
}

/// Puts a frame onto the stream: code, payload and checksum, escaped, then
/// the delimiter.
///
/// Fails with `BufferFull` when the encoder has no room for all of it. The
/// encoder is then left unchanged, unless only the delimiter did not fit:
/// then it holds the escaped frame without the delimiter.
pub fn build_response<const BUFLEN: usize>(ff: &MsgFrame, encoder: &mut Encoder<BUFLEN>) -> (r:
    Result<(), SlipError>)
    ensures
        r is Ok <==> old(encoder)@.len() + slip_encode(frame_bytes(ff@.0, ff@.1)).len() <= BUFLEN,
        r is Ok ==> final(encoder)@ == old(encoder)@ + slip_encode(frame_bytes(ff@.0, ff@.1)),
        r matches Err(e) ==> e == DecoderErrorCode::BufferFull && final(encoder)@ == (if old(
            encoder,
        )@.len() + escape(frame_bytes(ff@.0, ff@.1)).len() <= BUFLEN {
            old(encoder)@ + escape(frame_bytes(ff@.0, ff@.1))
        } else {
            old(encoder)@
        }),
{
    let bytes = ff.to_bytes();
    match encoder.feed(bytes.slice()) {
        Ok(_) => {},
        Err(e) => {
            return Err(e);
        },
    }
    encoder.finish()
}

/// What a call of `Pipeline::advance` found in the chunk.
#[derive(Debug)]
pub enum Advance {
    /// The chunk is used up and the frame is not complete.
    Pending,
    /// Two delimiters in a row: there is no frame between them.
    Empty,
    /// The frame in progress was malformed on the stream and is dropped.
    Resync(DecoderErrorCode),
    /// A frame is complete, and this is what it calls for.
    Frame(Action),
}

/// What a call of `Pipeline::advance` found in the chunk, as a plain
/// value.
pub enum Progress {
    Pending,
    Empty,
    Resync(DecoderErrorCode),
    Frame(Plan),
}

impl View for Advance {
    type V = Progress;

    open spec fn view(&self) -> Progress {
        match self {
            Advance::Pending => Progress::Pending,
            Advance::Empty => Progress::Empty,
            Advance::Resync(code) => Progress::Resync(*code),
            Advance::Frame(action) => Progress::Frame(action@),
        }
    }
}

/// The pipeline between the two directions of the stream: a decoder for
/// what comes in and an encoder for what goes out.
pub struct Pipeline<const CAPACITY: usize> {
    decoder: Decoder<CAPACITY>,
    encoder: Encoder<CAPACITY>,
}

/// The number of bytes that `advance` takes from a chunk, the state in
/// which it leaves the decoder, and what it reports.
///
/// The decoder takes bytes until the frame ends, a byte cannot be taken or
/// the chunk is used up. In the first two cases the decoder starts afresh:
/// a completed frame has been read and decided on, a malformed one is
/// dropped.
pub open spec fn advance_outcome(cap: nat, st: DecoderState, chunk: Seq<u8>) -> (
    int,
    DecoderState,
    Progress,
) {
    let fed = feed_outcome(cap, st, chunk);
    match fed.1 {
        Fed::Pending => (chunk.len() as int, fed.0, Progress::Pending),
        Fed::Complete { consumed } => (
            consumed,
            DecoderState::fresh(),
            if fed.0.data.len() == 0 {
                Progress::Empty
            } else {
                Progress::Frame(plan(fed.0.data))
            },
        ),
        Fed::Failed { pos, code } => (pos, DecoderState::fresh(), Progress::Resync(code)),
    }
}

impl<const CAPACITY: usize> Pipeline<CAPACITY> {
    /// The state of the decoder.
    pub closed spec fn incoming(&self) -> DecoderState {
        self.decoder@
    }

    /// The bytes that the encoder holds.
    pub closed spec fn outgoing(&self) -> Seq<u8> {
        self.encoder@
    }

    /// An idle pipeline.
    pub fn new() -> (r: Self)
        ensures
            r.incoming() == DecoderState::fresh(),
            r.outgoing() == Seq::<u8>::empty(),
    {
        Self { decoder: Decoder::new(), encoder: Encoder::new() }
    }

    /// Takes bytes of the stream up to the end of the frame in progress,
    /// and says how many were taken and what they call for.
    ///
    /// The caller feeds the rest of the chunk in a further call. Of a
    /// chunk that is not empty at least one byte is taken.
    pub fn advance(&mut self, chunk: &[u8]) -> (r: (usize, Advance))
        ensures
            r.0 as int == advance_outcome(CAPACITY as nat, old(self).incoming(), chunk@).0,
            final(self).incoming() == advance_outcome(
                CAPACITY as nat,
                old(self).incoming(),
                chunk@,
            ).1,
            r.1@ == advance_outcome(CAPACITY as nat, old(self).incoming(), chunk@).2,
            final(self).outgoing() == old(self).outgoing(),
            r.0 <= chunk@.len(),
            chunk@.len() > 0 ==> r.0 >= 1,
    {
        match self.decoder.feed(chunk) {
            Err(e) => {
                self.decoder.reset();
                (e.pos, Advance::Resync(e.code))
            },
            Ok((nbytes, is_end)) => {
                if is_end {
                    let found = if self.decoder.slice().len() == 0 {
                        Advance::Empty
                    } else {
                        Advance::Frame(decide(self.decoder.slice()))
                    };
                    self.decoder.reset();
                    (nbytes, found)
                } else {
                    (nbytes, Advance::Pending)
                }
            },
        }
    }

    /// Encodes a response frame for the stream, in place of what the
    /// encoder held. Fails with `BufferFull` when the encoded frame is
    /// longer than `CAPACITY`; nothing is then to be sent.
    pub fn respond(&mut self, frame: &MsgFrame) -> (r: Result<(), SlipError>)
        ensures
            r is Ok <==> slip_encode(frame_bytes(frame@.0, frame@.1)).len() <= CAPACITY,
            r is Ok ==> final(self).outgoing() == slip_encode(frame_bytes(frame@.0, frame@.1)),
            r matches Err(e) ==> e == DecoderErrorCode::BufferFull && final(self).outgoing()
                == Seq::<u8>::empty(),
            final(self).incoming() == old(self).incoming(),
    {
        self.encoder.reset();
        let r = build_response(frame, &mut self.encoder);
        if r.is_err() {
            self.encoder.reset();
        }
        r
    }

    /// The bytes to send: the frame that `respond` encoded last.
    pub fn pending_output(&self) -> (s: &[u8])
        ensures
            s@ == self.outgoing(),
    {
        self.encoder.slice()
    }
}

/// What one side puts onto the stream, the other side reads: an idle
/// pipeline that is fed the frame of a code and a payload, as
/// `build_response` encodes it, takes every byte, is idle again, and
/// reports what a frame of that code and payload calls for.
pub proof fn lemma_pipeline_reads_what_was_built(cap: nat, code: Code, payload: Seq<u8>)
    requires
        payload.len() <= MAX_MSG_SIZE,
        payload.len() + 4 <= cap,
    ensures
        advance_outcome(cap, DecoderState::fresh(), slip_encode(frame_bytes(code, payload))) == (
            slip_encode(frame_bytes(code, payload)).len() as int,
            DecoderState::fresh(),
            Progress::Frame(plan_frame(code, payload)),
        ),
{
    lemma_slip_round_trip(cap, frame_bytes(code, payload));
    lemma_frame_round_trip(code, payload);
}

} // verus!
