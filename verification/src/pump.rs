//! The output pump: what is sent to the client for each read of the
//! pseudo-terminal, with bytes of a character that a read has split kept for
//! the next one.

use crate::events::{Emit, OutEvent};
use crate::text::string_of;
use vstd::prelude::*;
use vstd::slice::slice_subrange;
use vstd::utf8::{
    decode_utf8, encode_utf8, encode_utf8_decode_utf8, encode_utf8_valid_utf8,
    partial_valid_partial_invalid_utf8, valid_utf8, valid_utf8_concat,
};

verus! {

/// The size of the buffer that one read fills.
pub const READ_BUFFER_SIZE: usize = 4096;

/// `std::str::from_utf8` of the standard library, with the text copied into
/// a `String`: there is a text exactly where the bytes are valid UTF-8, and
/// it is the text that they encode.
#[verifier::external_body]
fn from_utf8(bytes: &[u8]) -> (r: Option<String>)
    ensures
        r is Some <==> valid_utf8(bytes@),
        r matches Some(s) ==> s@ == decode_utf8(bytes@),
{
    match std::str::from_utf8(bytes) {
        Ok(s) => Some(s.to_owned()),
        Err(_) => None,
    }
}

/// The greatest length up to `k` at which a prefix of `bytes` is valid
/// UTF-8.
pub open spec fn valid_prefix_upto(bytes: Seq<u8>, k: int) -> int
    decreases k,
{
    if k <= 0 {
        0
    } else if k <= bytes.len() && valid_utf8(bytes.take(k)) {
        k
    } else {
        valid_prefix_upto(bytes, k - 1)
    }
}

/// The length of the longest prefix of `bytes` that is valid UTF-8.
pub open spec fn longest_valid_prefix(bytes: Seq<u8>) -> int {
    valid_prefix_upto(bytes, bytes.len() as int)
}

/// `valid_prefix_upto` gives a valid prefix, and no longer one up to `k` is
/// valid.
pub proof fn lemma_valid_prefix_upto(bytes: Seq<u8>, k: int)
    requires
        0 <= k <= bytes.len(),
    ensures
        0 <= valid_prefix_upto(bytes, k) <= k,
        valid_utf8(bytes.take(valid_prefix_upto(bytes, k))),
        forall|j: int|
            valid_prefix_upto(bytes, k) < j <= k ==> !valid_utf8(#[trigger] bytes.take(j)),
    decreases k,
{
    if k <= 0 {
        assert(bytes.take(0).len() == 0);
    } else if valid_utf8(bytes.take(k)) {
    } else {
        lemma_valid_prefix_upto(bytes, k - 1);
    }
}

/// One digit of a byte in hexadecimal, in lower case.
pub open spec fn hex_digit(n: int) -> char {
    if n < 10 {
        ('0' as int + n) as char
    } else {
        ('a' as int + n - 10) as char
    }
}

/// The bytes written as `\x` and two hexadecimal digits each.
pub open spec fn hex_escaped(bytes: Seq<u8>) -> Seq<char>
    decreases bytes.len(),
{
    if bytes.len() == 0 {
        Seq::empty()
    } else {
        hex_escaped(bytes.drop_last()) + seq![
            '\\',
            'x',
            hex_digit(bytes.last() as int / 16),
            hex_digit(bytes.last() as int % 16),
        ]
    }
}

/// One hexadecimal digit.
fn hex_char(n: u8) -> (c: char)
    requires
        n < 16,
    ensures
        c == hex_digit(n as int),
{
    if n < 10 {
        (48u8 + n) as char
    } else {
        (97u8 + (n - 10)) as char
    }
}

/// The bytes written as `\x` and two hexadecimal digits each.
pub fn hex_escape(bytes: &[u8]) -> (r: String)
    ensures
        r@ == hex_escaped(bytes@),
{
    let mut out: Vec<char> = Vec::new();
    let mut i: usize = 0;
    assert(bytes@.take(0) =~= Seq::<u8>::empty());
    while i < bytes.len()
        invariant
            i <= bytes.len(),
            out@ == hex_escaped(bytes@.take(i as int)),
        decreases bytes.len() - i,
    {
        let b = bytes[i];
        let ghost before = out@;
        out.push('\\');
        out.push('x');
        out.push(hex_char(b / 16));
        out.push(hex_char(b % 16));
        proof {
            assert(bytes@.take(i + 1).drop_last() =~= bytes@.take(i as int));
            assert(out@ =~= before + seq![
                '\\',
                'x',
                hex_digit(b as int / 16),
                hex_digit(b as int % 16),
            ]);
        }
        i += 1;
    }
    assert(bytes@.take(bytes.len() as int) =~= bytes@);
    string_of(&out)
}

/// What one buffer of output decodes to.
#[derive(Debug, PartialEq, Eq)]
pub enum Chunk {
    /// The text of the longest prefix that is valid UTF-8, and the bytes
    /// behind it, which wait for the next read.
    Text { text: String, rest: Vec<u8> },
    /// No prefix decodes: the bytes, hex-escaped.
    Binary { hex: String },
}

/// What a buffer of output decodes to, over plain sequences.
pub enum ChunkView {
    Text { text: Seq<char>, rest: Seq<u8> },
    Binary { hex: Seq<char> },
}

impl View for Chunk {
    type V = ChunkView;

    open spec fn view(&self) -> ChunkView {
        match self {
            Chunk::Text { text, rest } => ChunkView::Text { text: text@, rest: rest@ },
            Chunk::Binary { hex } => ChunkView::Binary { hex: hex@ },
        }
    }
}

/// What `bytes` decode to: the text of their longest prefix that is valid
/// UTF-8 and the bytes behind it; where they are not empty and not even
/// their first character decodes, all of them hex-escaped.
pub open spec fn chunk_of(bytes: Seq<u8>) -> ChunkView {
    let k = longest_valid_prefix(bytes);
    if k > 0 || bytes.len() == 0 {
        ChunkView::Text { text: decode_utf8(bytes.take(k)), rest: bytes.skip(k) }
    } else {
        ChunkView::Binary { hex: hex_escaped(bytes) }
    }
}

/// Decodes one buffer of output.
pub fn decode_chunk(bytes: &[u8]) -> (r: Chunk)
    ensures
        r@ == chunk_of(bytes@),
{
    let n: usize = bytes.len();
    let mut k: usize = n;
    while k > 0
        invariant
            k <= n,
            n == bytes@.len(),
            longest_valid_prefix(bytes@) == valid_prefix_upto(bytes@, k as int),
        decreases k,
    {
        let head = slice_subrange(bytes, 0, k);
        assert(head@ =~= bytes@.take(k as int));
        match from_utf8(head) {
            Some(text) => {
                let tail = slice_subrange(bytes, k, n);
                assert(tail@ =~= bytes@.skip(k as int));
                let rest = vstd::slice::slice_to_vec(tail);
                return Chunk::Text { text, rest };
            },
            None => {},
        }
        k -= 1;
    }
    if n == 0 {
        let ghost empty = bytes@.take(0);
        proof {
            assert(empty.len() == 0);
            assert(decode_utf8(empty) =~= Seq::<char>::empty());
        }
        let rest: Vec<u8> = Vec::new();
        assert(rest@ =~= bytes@.skip(0));
        let text = String::new();
        Chunk::Text { text, rest }
    } else {
        Chunk::Binary { hex: hex_escape(bytes) }
    }
}

/// How a pump ended.
#[derive(Debug, PartialEq, Eq)]
pub enum PumpEnd {
    /// The shell closed its output.
    Eof,
    /// A read failed, with the message of the system.
    Failed(String),
}

/// A `PumpEnd` over plain sequences.
pub enum PumpEndView {
    Eof,
    Failed(Seq<char>),
}

impl View for PumpEnd {
    type V = PumpEndView;

    open spec fn view(&self) -> PumpEndView {
        match self {
            PumpEnd::Eof => PumpEndView::Eof,
            PumpEnd::Failed(m) => PumpEndView::Failed(m@),
        }
    }
}

/// What the pump hands to its loop after one read.
#[derive(Debug, PartialEq, Eq)]
pub enum PumpOutput {
    /// Send this frame and read on.
    Frame(Emit),
    /// Nothing of the buffer decodes: its bytes hex-escaped, for the log.
    /// Read on.
    Undecodable(String),
    /// The pump has ended: leave the loop and hand the end to the
    /// teardown, which tears the session down and sends what is to be sent.
    End(PumpEnd),
    /// Nothing to send. Read on.
    Idle,
    /// The pump was stopped: leave the loop and send nothing.
    Stopped,
}

/// A `PumpOutput` over plain sequences.
pub enum PumpOutputView {
    Frame(OutEvent, Seq<char>),
    Undecodable(Seq<char>),
    End(PumpEndView),
    Idle,
    Stopped,
}

impl View for PumpOutput {
    type V = PumpOutputView;

    open spec fn view(&self) -> PumpOutputView {
        match self {
            PumpOutput::Frame(e) => PumpOutputView::Frame(e.event, e.text@),
            PumpOutput::Undecodable(hex) => PumpOutputView::Undecodable(hex@),
            PumpOutput::End(end) => PumpOutputView::End(end@),
            PumpOutput::Idle => PumpOutputView::Idle,
            PumpOutput::Stopped => PumpOutputView::Stopped,
        }
    }
}

/// The state of a pump: the bytes kept from earlier reads, and whether it
/// still runs.
pub struct PumpView {
    pub carry: Seq<u8>,
    pub running: bool,
}

/// The bytes that wait for the next read after a pump that held `carry`
/// has read `bytes`.
pub open spec fn carry_after_read(carry: Seq<u8>, bytes: Seq<u8>) -> Seq<u8> {
    match chunk_of(carry + bytes) {
        ChunkView::Text { text, rest } => rest,
        ChunkView::Binary { hex } => Seq::empty(),
    }
}

/// What a running pump that held `carry` hands out for the read `bytes`.
pub open spec fn output_for_read(carry: Seq<u8>, bytes: Seq<u8>) -> PumpOutputView {
    match chunk_of(carry + bytes) {
        ChunkView::Text { text, rest } => if text.len() == 0 {
            PumpOutputView::Idle
        } else {
            PumpOutputView::Frame(OutEvent::TerminalData, text)
        },
        ChunkView::Binary { hex } => PumpOutputView::Undecodable(hex),
    }
}

/// The output pump of one session.
pub struct OutputPump {
    carry: Vec<u8>,
    running: bool,
}

impl View for OutputPump {
    type V = PumpView;

    closed spec fn view(&self) -> PumpView {
        PumpView { carry: self.carry@, running: self.running }
    }
}

impl OutputPump {
    /// A running pump that holds no bytes.
    pub fn new() -> (p: OutputPump)
        ensures
            p@.running,
            p@.carry == Seq::<u8>::empty(),
    {
        OutputPump { carry: Vec::new(), running: true }
    }

    /// Whether the pump still runs.
    pub fn is_running(&self) -> (b: bool)
        ensures
            b == self@.running,
    {
        self.running
    }

    /// Stops the pump: every later read is answered with `Stopped`.
    pub fn stop(&mut self)
        ensures
            !final(self)@.running,
            final(self)@.carry == old(self)@.carry,
    {
        self.running = false;
    }

    /// The pump has read `bytes`. The bytes kept from earlier reads go in
    /// front of them; the text of the longest prefix that decodes is sent
    /// as `terminal_data`, and what is behind it is kept.
    pub fn on_bytes(&mut self, bytes: &[u8]) -> (out: PumpOutput)
        ensures
            final(self)@.running == old(self)@.running,
            !old(self)@.running ==> out@ == PumpOutputView::Stopped && final(self)@.carry == old(
                self,
            )@.carry,
            old(self)@.running ==> out@ == output_for_read(old(self)@.carry, bytes@),
            old(self)@.running ==> final(self)@.carry == carry_after_read(
                old(self)@.carry,
                bytes@,
            ),
    {
        if !self.running {
            return PumpOutput::Stopped;
        }
        let mut buf: Vec<u8> = Vec::new();
        buf.extend_from_slice(self.carry.as_slice());
        buf.extend_from_slice(bytes);
        assert(buf@ =~= old(self)@.carry + bytes@);
        match decode_chunk(buf.as_slice()) {
            Chunk::Text { text, rest } => {
                self.carry = rest;
                if text.as_str().is_empty() {
                    PumpOutput::Idle
                } else {
                    PumpOutput::Frame(Emit::new(OutEvent::TerminalData, text))
                }
            },
            Chunk::Binary { hex } => {
                self.carry = Vec::new();
                PumpOutput::Undecodable(hex)
            },
        }
    }

    /// The shell closed its output: the pump ends. A pump that was stopped
    /// has nothing to hand on.
    pub fn on_eof(&mut self) -> (out: PumpOutput)
        ensures
            !final(self)@.running,
            final(self)@.carry == old(self)@.carry,
            out@ == (if old(self)@.running {
                PumpOutputView::End(PumpEndView::Eof)
            } else {
                PumpOutputView::Stopped
            }),
    {
        if !self.running {
            return PumpOutput::Stopped;
        }
        self.running = false;
        PumpOutput::End(PumpEnd::Eof)
    }

    /// A read failed with `message`: the pump ends, and the message goes
    /// on with its end. A pump that was stopped has nothing to hand on.
    pub fn on_error(&mut self, message: &str) -> (out: PumpOutput)
        ensures
            !final(self)@.running,
            final(self)@.carry == old(self)@.carry,
            out@ == (if old(self)@.running {
                PumpOutputView::End(PumpEndView::Failed(message@))
            } else {
                PumpOutputView::Stopped
            }),
    {
        if !self.running {
            return PumpOutput::Stopped;
        }
        self.running = false;
        PumpOutput::End(PumpEnd::Failed(message.to_owned()))
    }
}

/// All bytes of `chunks`, in order.
pub open spec fn all_bytes(chunks: Seq<Seq<u8>>) -> Seq<u8>
    decreases chunks.len(),
{
    if chunks.len() == 0 {
        Seq::empty()
    } else {
        all_bytes(chunks.drop_last()) + chunks.last()
    }
}

/// The bytes that a pump started with `carry` holds after it has read
/// `chunks`, one after the other.
pub open spec fn carry_after(carry: Seq<u8>, chunks: Seq<Seq<u8>>) -> Seq<u8>
    decreases chunks.len(),
{
    if chunks.len() == 0 {
        carry
    } else {
        carry_after_read(carry_after(carry, chunks.drop_last()), chunks.last())
    }
}

/// The texts of the `terminal_data` frames that a pump started with `carry`
/// sends while it reads `chunks`, put together.
pub open spec fn text_after(carry: Seq<u8>, chunks: Seq<Seq<u8>>) -> Seq<char>
    decreases chunks.len(),
{
    if chunks.len() == 0 {
        Seq::empty()
    } else {
        text_after(carry, chunks.drop_last()) + (match output_for_read(
            carry_after(carry, chunks.drop_last()),
            chunks.last(),
        ) {
            PumpOutputView::Frame(event, text) => text,
            _ => Seq::empty(),
        })
    }
}

/// No read of `chunks` met a buffer of which nothing decodes.
pub open spec fn all_decodable(carry: Seq<u8>, chunks: Seq<Seq<u8>>) -> bool
    decreases chunks.len(),
{
    chunks.len() > 0 ==> all_decodable(carry, chunks.drop_last()) && chunk_of(
        carry_after(carry, chunks.drop_last()) + chunks.last(),
    ) is Text
}

/// The encoding of two texts put together is their encodings put together.
pub proof fn lemma_encode_concat(a: Seq<char>, b: Seq<char>)
    ensures
        encode_utf8(a + b) == encode_utf8(a) + encode_utf8(b),
    decreases a.len(),
{
    if a.len() == 0 {
        assert(a + b =~= b);
        assert(encode_utf8(a) + encode_utf8(b) =~= encode_utf8(b));
    } else {
        lemma_encode_concat(a.drop_first(), b);
        assert((a + b).drop_first() =~= a.drop_first() + b);
        assert((a + b)[0] == a[0]);
        assert(encode_utf8(a + b) =~= encode_utf8(a) + encode_utf8(b));
    }
}

/// As long as every buffer decodes at its front, no byte is lost or
/// changed: the bytes of the text sent so far, followed by the bytes that
/// the pump still holds, are the bytes it started with followed by the
/// bytes it has read.
pub proof fn lemma_pump_conserves_bytes(carry: Seq<u8>, chunks: Seq<Seq<u8>>)
    requires
        all_decodable(carry, chunks),
    ensures
        encode_utf8(text_after(carry, chunks)) + carry_after(carry, chunks) == carry + all_bytes(
            chunks,
        ),
    decreases chunks.len(),
{
    if chunks.len() == 0 {
        assert(encode_utf8(text_after(carry, chunks)) + carry =~= carry + all_bytes(chunks));
    } else {
        let prev = chunks.drop_last();
        lemma_pump_conserves_bytes(carry, prev);
        let held = carry_after(carry, prev);
        let buf = held + chunks.last();
        let k = longest_valid_prefix(buf);
        lemma_valid_prefix_upto(buf, buf.len() as int);
        let piece = decode_utf8(buf.take(k));
        vstd::utf8::decode_utf8_encode_utf8(buf.take(k));
        lemma_encode_concat(text_after(carry, prev), piece);
        assert(text_after(carry, chunks) =~= text_after(carry, prev) + piece);
        assert(buf.take(k) + buf.skip(k) =~= buf);
        assert(encode_utf8(text_after(carry, chunks)) + carry_after(carry, chunks) =~= (
        encode_utf8(text_after(carry, prev)) + held) + chunks.last());
        assert((carry + all_bytes(prev)) + chunks.last() =~= carry + all_bytes(chunks));
    }
}

/// Output that is valid UTF-8 as a whole reaches the client unchanged,
/// however the reads have split it, as long as every buffer decodes at its
/// front: the texts sent, put together, are the text that all bytes read
/// encode, and no byte is left waiting.
pub proof fn lemma_pump_text_is_output(chunks: Seq<Seq<u8>>)
    requires
        all_decodable(Seq::empty(), chunks),
        valid_utf8(all_bytes(chunks)),
    ensures
        text_after(Seq::empty(), chunks) == decode_utf8(all_bytes(chunks)),
        carry_after(Seq::empty(), chunks).len() == 0,
{
    let carry = Seq::<u8>::empty();
    let total = all_bytes(chunks);
    let text = text_after(carry, chunks);
    let left = carry_after(carry, chunks);
    lemma_pump_conserves_bytes(carry, chunks);
    assert(carry + total =~= total);
    let sent = encode_utf8(text);
    encode_utf8_valid_utf8(text);
    assert(total.subrange(0, sent.len() as int) =~= sent);
    assert(total.subrange(sent.len() as int, total.len() as int) =~= left);
    if !valid_utf8(left) {
        partial_valid_partial_invalid_utf8(total, sent.len() as int);
    }
    if chunks.len() > 0 {
        let buf = carry_after(carry, chunks.drop_last()) + chunks.last();
        let k = longest_valid_prefix(buf);
        lemma_valid_prefix_upto(buf, buf.len() as int);
        assert(left == buf.skip(k));
        valid_utf8_concat(buf.take(k), left);
        assert(buf.take(k) + buf.skip(k) =~= buf);
        assert(buf.take(buf.len() as int) =~= buf);
    }
    assert(left.len() == 0);
    assert(sent + left =~= sent);
    encode_utf8_decode_utf8(text);
}

} // verus!
