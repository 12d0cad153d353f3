//! SLIP framing: a byte stream is cut into frames by a delimiter, and the
//! bytes of a frame that equal the delimiter or the escape byte travel as
//! two-byte escape sequences.

use vstd::prelude::*;
use vstd::slice::slice_subrange;

verus! {

/// Ends a frame.
pub const END: u8 = 0xC0;

/// Starts an escape sequence.
pub const ESC: u8 = 0xDB;

/// After `ESC`, stands for `END`.
pub const ESC_END: u8 = 0xDC;

/// After `ESC`, stands for `ESC`.
pub const ESC_ESC: u8 = 0xDD;

/// Why the SLIP layer gave up on a frame.
#[derive(Debug, Clone, Copy, PartialEq, Eq, Structural)]
pub enum DecoderErrorCode {
    /// `ESC` was followed by a byte other than `ESC_END` and `ESC_ESC`.
    BadEsc,
    /// The buffer has no room for the next byte.
    BufferFull,
}

/// The error of an encoder: always `BufferFull`.
pub type SlipError = DecoderErrorCode;

/// A decoding error and the number of input bytes taken up to and
/// including the one that caused it.
#[derive(Debug, Clone, Copy, PartialEq, Eq, Structural)]
pub struct DecoderError {
    pub pos: usize,
    pub code: DecoderErrorCode,
}

/// A byte buffer of fixed capacity with a write cursor.
pub struct DecoderBuffer<const CAPACITY: usize> {
    idx: usize,
    buf: [u8; CAPACITY],
}

impl<const CAPACITY: usize> View for DecoderBuffer<CAPACITY> {
    type V = Seq<u8>;

    /// The bytes written so far.
    closed spec fn view(&self) -> Seq<u8> {
        self.buf@.subrange(0, self.idx as int)
    }
}

impl<const CAPACITY: usize> DecoderBuffer<CAPACITY> {
    #[verifier::type_invariant]
    spec fn cursor_in_bounds(&self) -> bool {
        self.idx <= CAPACITY
    }

    /// An empty buffer.
    pub fn new() -> (r: Self)
        ensures
            r@ == Seq::<u8>::empty(),
    {
        Self { idx: 0, buf: [0u8;CAPACITY] }
    }

    /// Forgets the bytes written so far.
    pub fn reset(&mut self)
        ensures
            final(self)@ == Seq::<u8>::empty(),
    {
        self.idx = 0;
    }

    /// The bytes written so far.
    pub fn slice(&self) -> (s: &[u8])
        ensures
            s@ == self@,
            s@.len() <= CAPACITY,
    {
        proof {
            use_type_invariant(self);
        }
        slice_subrange(self.buf.as_slice(), 0, self.idx)
    }

    /// Appends a byte. Fails with `BufferFull`, and changes nothing, when
    /// the buffer already holds `CAPACITY` bytes.
    pub fn put(&mut self, c: u8) -> (r: Result<(), DecoderErrorCode>)
        ensures
            old(self)@.len() <= CAPACITY,
            r is Ok <==> old(self)@.len() < CAPACITY,
            r is Ok ==> final(self)@ == old(self)@.push(c),
            r matches Err(e) ==> e == DecoderErrorCode::BufferFull && final(self)@ == old(self)@,
    {
        proof {
            use_type_invariant(&*self);
        }
        if self.idx >= CAPACITY {
            Err(DecoderErrorCode::BufferFull)
        } else {
            self.buf[self.idx] = c;
            self.idx += 1;
            Ok(())
        }
    }
}

/// What a decoder knows between two bytes: the payload taken so far, and
/// whether the last byte was an unanswered `ESC`.
pub struct DecoderState {
    pub data: Seq<u8>,
    pub escaping: bool,
}

impl DecoderState {
    /// The state of a decoder that has taken nothing yet.
    pub open spec fn fresh() -> DecoderState {
        DecoderState { data: Seq::empty(), escaping: false }
    }
}

/// What one byte does to the frame that is being decoded.
pub enum Event {
    /// The frame goes on.
    Continue,
    /// The byte ends the frame.
    FrameEnd,
    /// The byte cannot be taken.
    Error(DecoderErrorCode),
}

/// Appends a payload byte if there is room for it.
pub open spec fn store(cap: nat, st: DecoderState, c: u8) -> (DecoderState, Event) {
    if st.data.len() < cap {
        (DecoderState { data: st.data.push(c), escaping: st.escaping }, Event::Continue)
    } else {
        (st, Event::Error(DecoderErrorCode::BufferFull))
    }
}

/// The state after a decoder of capacity `cap` in state `st` has taken the
/// byte `c`, and what the byte meant.
pub open spec fn decode_step(cap: nat, st: DecoderState, c: u8) -> (DecoderState, Event) {
    if st.escaping {
        let plain = DecoderState { data: st.data, escaping: false };
        if c == ESC_END {
            store(cap, plain, END)
        } else if c == ESC_ESC {
            store(cap, plain, ESC)
        } else {
            (plain, Event::Error(DecoderErrorCode::BadEsc))
        }
    } else if c == END {
        (st, Event::FrameEnd)
    } else if c == ESC {
        (DecoderState { data: st.data, escaping: true }, Event::Continue)
    } else {
        store(cap, st, c)
    }
}

/// How a call of `feed` ends.
pub enum Fed {
    /// Every byte of the input was taken and the frame is not complete.
    Pending,
    /// The frame is complete after `consumed` bytes of the input.
    Complete { consumed: int },
    /// The byte that made `pos` bytes could not be taken.
    Failed { pos: int, code: DecoderErrorCode },
}

/// The state of a decoder of capacity `cap` after it was fed `input` from
/// the position `pos` on, starting in state `st`, and how the feeding ended.
/// Bytes are taken one at a time until one ends the frame, one cannot be
/// taken, or none is left.
pub open spec fn feed_from(cap: nat, st: DecoderState, input: Seq<u8>, pos: int) -> (
    DecoderState,
    Fed,
)
    decreases input.len() - pos,
{
    if pos < 0 || pos >= input.len() {
        (st, Fed::Pending)
    } else {
        let step = decode_step(cap, st, input[pos]);
        match step.1 {
            Event::Continue => feed_from(cap, step.0, input, pos + 1),
            Event::FrameEnd => (step.0, Fed::Complete { consumed: pos + 1 }),
            Event::Error(code) => (step.0, Fed::Failed { pos: pos + 1, code }),
        }
    }
}

/// The state of a decoder after it was fed `input`, and how the feeding
/// ended.
pub open spec fn feed_outcome(cap: nat, st: DecoderState, input: Seq<u8>) -> (DecoderState, Fed) {
    feed_from(cap, st, input, 0)
}

/// A SLIP decoder: takes the bytes of a stream, in chunks of any size, and
/// collects the payload of one frame.
pub struct Decoder<const CAPACITY: usize> {
    buf: DecoderBuffer<CAPACITY>,
    is_escaping: bool,
}

impl<const CAPACITY: usize> View for Decoder<CAPACITY> {
    type V = DecoderState;

    closed spec fn view(&self) -> DecoderState {
        DecoderState { data: self.buf@, escaping: self.is_escaping }
    }
}

impl<const CAPACITY: usize> Decoder<CAPACITY> {
    /// A decoder that has taken nothing yet.
    pub fn new() -> (r: Self)
        ensures
            r@ == DecoderState::fresh(),
    {
        Self { buf: DecoderBuffer::new(), is_escaping: false }
    }

    /// Forgets the frame in progress. To be called after every completed
    /// frame and after every error, before more bytes are fed.
    pub fn reset(&mut self)
        ensures
            final(self)@ == DecoderState::fresh(),
    {
        self.is_escaping = false;
        self.buf.reset();
    }

    /// The payload taken so far.
    pub fn slice(&self) -> (s: &[u8])
        ensures
            s@ == self@.data,
            s@.len() <= CAPACITY,
    {
        self.buf.slice()
    }

    /// Takes bytes of the stream until one ends the frame, one cannot be
    /// taken, or `input` is used up.
    ///
    /// Returns the number of bytes taken and whether the frame is complete;
    /// the payload is then read with `slice`. On an error the number counts
    /// the byte that caused it. The decoder is not reset in either case.
    pub fn feed(&mut self, input: &[u8]) -> (r: Result<(usize, bool), DecoderError>)
        ensures
            final(self)@ == feed_outcome(CAPACITY as nat, old(self)@, input@).0,
            match r {
                Ok((n, false)) => n == input@.len() && feed_outcome(
                    CAPACITY as nat,
                    old(self)@,
                    input@,
                ).1 == Fed::Pending,
                Ok((n, true)) => 1 <= n <= input@.len() && feed_outcome(
                    CAPACITY as nat,
                    old(self)@,
                    input@,
                ).1 == (Fed::Complete { consumed: n as int }),
                Err(e) => 1 <= e.pos <= input@.len() && feed_outcome(
                    CAPACITY as nat,
                    old(self)@,
                    input@,
                ).1 == (Fed::Failed { pos: e.pos as int, code: e.code }),
            },
    {
        let mut i: usize = 0;
        while i < input.len()
            invariant
                i <= input@.len(),
                feed_from(CAPACITY as nat, self@, input@, i as int) == feed_outcome(
                    CAPACITY as nat,
                    old(self)@,
                    input@,
                ),
            decreases input@.len() - i,
        {
            let c = input[i];
            i += 1;
            if self.is_escaping {
                self.is_escaping = false;
                match c {
                    ESC_END => {
                        match self.buf.put(END) {
                            Ok(_) => {},
                            Err(code) => {
                                return Err(DecoderError { pos: i, code: code });
                            },
                        }
                    },
                    ESC_ESC => {
                        match self.buf.put(ESC) {
                            Ok(_) => {},
                            Err(code) => {
                                return Err(DecoderError { pos: i, code: code });
                            },
                        }
                    },
                    _ => {
                        return Err(DecoderError { pos: i, code: DecoderErrorCode::BadEsc });
                    },
                }
            } else {
                match c {
                    END => {
                        return Ok((i, true));
                    },
                    ESC => {
                        self.is_escaping = true;
                    },
                    _ => {
                        match self.buf.put(c) {
                            Ok(_) => {},
                            Err(code) => {
                                return Err(DecoderError { pos: i, code: code });
                            },
                        }
                    },
                }
            }
        }
        Ok((i, false))
    }
}

/// A payload byte as it travels: `END` and `ESC` as their escape
/// sequences, every other byte as itself.
pub open spec fn escape_byte(c: u8) -> Seq<u8> {
    if c == END {
        seq![ESC, ESC_END]
    } else if c == ESC {
        seq![ESC, ESC_ESC]
    } else {
        seq![c]
    }
}

/// A payload as it travels, without the closing delimiter: its bytes in
/// order, each escaped.
pub open spec fn escape(bytes: Seq<u8>) -> Seq<u8>
    decreases bytes.len(),
{
    if bytes.len() == 0 {
        Seq::empty()
    } else {
        escape(bytes.drop_last()) + escape_byte(bytes.last())
    }
}

/// A payload as one frame of the stream: escaped, then the delimiter.
pub open spec fn slip_encode(bytes: Seq<u8>) -> Seq<u8> {
    escape(bytes) + seq![END]
}

/// Escaping one byte more appends the escape of that byte.
pub proof fn lemma_escape_take(bytes: Seq<u8>, i: int)
    requires
        0 <= i < bytes.len(),
    ensures
        escape(bytes.take(i + 1)) == escape(bytes.take(i)) + escape_byte(bytes[i]),
        escape(bytes.take(i + 1)).len() == escape(bytes.take(i)).len() + escape_byte(
            bytes[i],
        ).len(),
        1 <= escape_byte(bytes[i]).len() <= 2,
{
    assert(bytes.take(i + 1).drop_last() == bytes.take(i));
}

/// An escaped payload is at least as long as the payload and at most twice
/// as long, and an escaped prefix is no longer than the escaped whole.
pub proof fn lemma_escape_len(bytes: Seq<u8>, i: int)
    requires
        0 <= i <= bytes.len(),
    ensures
        escape(bytes.take(i)).len() <= escape(bytes).len(),
        bytes.len() <= escape(bytes).len() <= 2 * bytes.len(),
    decreases bytes.len(),
{
    if bytes.len() > 0 {
        lemma_escape_len(bytes.drop_last(), bytes.len() - 1);
        if i == bytes.len() {
            assert(bytes.take(i) == bytes);
        } else {
            lemma_escape_len(bytes.drop_last(), i);
            assert(bytes.drop_last().take(i) == bytes.take(i));
        }
    }
}

/// A SLIP encoder: collects the bytes of one frame as they travel.
pub struct Encoder<const CAPACITY: usize> {
    buf: DecoderBuffer<CAPACITY>,
}

impl<const CAPACITY: usize> View for Encoder<CAPACITY> {
    type V = Seq<u8>;

    /// The bytes built so far.
    closed spec fn view(&self) -> Seq<u8> {
        self.buf@
    }
}

impl<const CAPACITY: usize> Encoder<CAPACITY> {
    /// An encoder that has built nothing yet.
    pub fn new() -> (r: Self)
        ensures
            r@ == Seq::<u8>::empty(),
    {
        Self { buf: DecoderBuffer::new() }
    }

    /// Forgets the bytes built so far.
    pub fn reset(&mut self)
        ensures
            final(self)@ == Seq::<u8>::empty(),
    {
        self.buf.reset();
    }

    /// The bytes built so far.
    pub fn slice(&self) -> (s: &[u8])
        ensures
            s@ == self@,
            s@.len() <= CAPACITY,
    {
        self.buf.slice()
    }

    /// Appends payload bytes, escaped. Fails with `BufferFull`, and
    /// changes nothing, when the escaped bytes do not all fit.
    pub fn feed(&mut self, input: &[u8]) -> (r: Result<(), SlipError>)
        ensures
            old(self)@.len() <= CAPACITY,
            r is Ok <==> old(self)@.len() + escape(input@).len() <= CAPACITY,
            r is Ok ==> final(self)@ == old(self)@ + escape(input@),
            r matches Err(e) ==> e == DecoderErrorCode::BufferFull && final(self)@ == old(self)@,
    {
        let free = CAPACITY - self.buf.slice().len();
        let mut need: usize = 0;
        let mut i: usize = 0;
        while i < input.len()
            invariant
                i <= input@.len(),
                need == escape(input@.take(i as int)).len(),
                need <= free,
                free + old(self)@.len() == CAPACITY,
                self@ == old(self)@,
            decreases input@.len() - i,
        {
            let c = input[i];
            let width: usize = if c == END || c == ESC {
                2
            } else {
                1
            };
            proof {
                lemma_escape_take(input@, i as int);
                lemma_escape_len(input@, i + 1);
            }
            if free - need < width {
                return Err(DecoderErrorCode::BufferFull);
            }
            need += width;
            i += 1;
        }
        assert(input@.take(i as int) == input@);
        let mut j: usize = 0;
        while j < input.len()
            invariant
                j <= input@.len(),
                old(self)@.len() + escape(input@).len() <= CAPACITY,
                self@ == old(self)@ + escape(input@.take(j as int)),
            decreases input@.len() - j,
        {
            proof {
                lemma_escape_take(input@, j as int);
                lemma_escape_len(input@, j + 1);
            }
            let c = input[j];
            if c == END {
                let _ = self.buf.put(ESC);
                let _ = self.buf.put(ESC_END);
            } else if c == ESC {
                let _ = self.buf.put(ESC);
                let _ = self.buf.put(ESC_ESC);
            } else {
                let _ = self.buf.put(c);
            }
            j += 1;
        }
        Ok(())
    }

    /// Closes the frame with the delimiter. Fails with `BufferFull`, and
    /// changes nothing, when the buffer is full.
    pub fn finish(&mut self) -> (r: Result<(), SlipError>)
        ensures
            r is Ok <==> old(self)@.len() < CAPACITY,
            r is Ok ==> final(self)@ == old(self)@.push(END),
            r matches Err(e) ==> e == DecoderErrorCode::BufferFull && final(self)@ == old(self)@,
    {
        self.buf.put(END)
    }
}

/// Feeding a decoder a stretch of escaped payload, wherever in the input
/// it lies, appends the payload to what the decoder holds.
proof fn lemma_feed_escaped(
    cap: nat,
    held: Seq<u8>,
    before: Seq<u8>,
    bytes: Seq<u8>,
    after: Seq<u8>,
)
    requires
        held.len() + bytes.len() <= cap,
    ensures
        feed_from(
            cap,
            DecoderState { data: held, escaping: false },
            before + escape(bytes) + after,
            before.len() as int,
        ) == feed_from(
            cap,
            DecoderState { data: held + bytes, escaping: false },
            before + escape(bytes) + after,
            (before.len() + escape(bytes).len()) as int,
        ),
    decreases bytes.len(),
{
    let input = before + escape(bytes) + after;
    if bytes.len() > 0 {
        // By induction the decoder holds all but the last byte when it
        // comes to the escape of the last one.
        let front = bytes.drop_last();
        let c = bytes.last();
        lemma_feed_escaped(cap, held, before, front, escape_byte(c) + after);
        assert(before + escape(front) + (escape_byte(c) + after) == input);
        assert(held + bytes == (held + front).push(c));
        if c == END || c == ESC {
            // The escape takes two steps: `ESC`, then its second byte.
            let p = (before.len() + escape(front).len()) as int;
            let st = DecoderState { data: held + front, escaping: false };
            let mid = DecoderState { data: held + front, escaping: true };
            assert(feed_from(cap, st, input, p) == feed_from(cap, mid, input, p + 1));
        }
    }
}

/// Decoding what was encoded gives the payload back: a fresh decoder that
/// is fed the frame of a payload within its capacity, bytes equal to `END`
/// or `ESC` included, takes every byte of the frame, reports the frame
/// complete, and holds the payload.
pub proof fn lemma_slip_round_trip(cap: nat, bytes: Seq<u8>)
    requires
        bytes.len() <= cap,
    ensures
        feed_outcome(cap, DecoderState::fresh(), slip_encode(bytes)) == (
            DecoderState { data: bytes, escaping: false },
            Fed::Complete { consumed: slip_encode(bytes).len() as int },
        ),
{
    let empty = Seq::<u8>::empty();
    lemma_feed_escaped(cap, empty, empty, bytes, seq![END]);
}

/// How an outcome reads when the input that gave it is preceded by `by`
/// more bytes.
pub open spec fn shift_fed(fed: Fed, by: int) -> Fed {
    match fed {
        Fed::Pending => Fed::Pending,
        Fed::Complete { consumed } => Fed::Complete { consumed: consumed + by },
        Fed::Failed { pos, code } => Fed::Failed { pos: pos + by, code },
    }
}

proof fn lemma_feed_from_within(cap: nat, st: DecoderState, a: Seq<u8>, b: Seq<u8>, pos: int)
    requires
        0 <= pos <= a.len(),
    ensures
        feed_from(cap, st, a, pos).1 == Fed::Pending ==> feed_from(cap, st, a + b, pos)
            == feed_from(cap, feed_from(cap, st, a, pos).0, a + b, a.len() as int),
        feed_from(cap, st, a, pos).1 != Fed::Pending ==> feed_from(cap, st, a + b, pos)
            == feed_from(cap, st, a, pos),
    decreases a.len() - pos,
{
    if pos < a.len() {
        let step = decode_step(cap, st, a[pos]);
        if step.1 == Event::Continue {
            lemma_feed_from_within(cap, step.0, a, b, pos + 1);
        }
    }
}

proof fn lemma_feed_from_beyond(cap: nat, st: DecoderState, a: Seq<u8>, b: Seq<u8>, pos: int)
    requires
        0 <= pos <= b.len(),
    ensures
        feed_from(cap, st, a + b, a.len() + pos).0 == feed_from(cap, st, b, pos).0,
        feed_from(cap, st, a + b, a.len() + pos).1 == shift_fed(
            feed_from(cap, st, b, pos).1,
            a.len() as int,
        ),
    decreases b.len() - pos,
{
    if pos < b.len() {
        let step = decode_step(cap, st, b[pos]);
        if step.1 == Event::Continue {
            lemma_feed_from_beyond(cap, step.0, a, b, pos + 1);
        }
    }
}

/// A decoder does not care how the stream is cut into chunks: feeding `a`
/// and then, unless `a` ended the frame or failed, feeding `b` leaves the
/// decoder where feeding `a + b` at once leaves it, with the counts of the
/// second call shifted by the length of `a`.
pub proof fn lemma_feed_chunks(cap: nat, st: DecoderState, a: Seq<u8>, b: Seq<u8>)
    ensures
        feed_outcome(cap, st, a).1 != Fed::Pending ==> feed_outcome(cap, st, a + b)
            == feed_outcome(cap, st, a),
        feed_outcome(cap, st, a).1 == Fed::Pending ==> feed_outcome(cap, st, a + b) == (
            feed_outcome(cap, feed_outcome(cap, st, a).0, b).0,
            shift_fed(feed_outcome(cap, feed_outcome(cap, st, a).0, b).1, a.len() as int),
        ),
{
    lemma_feed_from_within(cap, st, a, b, 0);
    lemma_feed_from_beyond(cap, feed_outcome(cap, st, a).0, a, b, 0);
}

} // verus!
