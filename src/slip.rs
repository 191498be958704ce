//! SLIP framing (RFC 1055) with a leading END byte.

use vstd::prelude::*;

verus! {

/// Frame boundary marker.
pub const SLIP_END: u8 = 0xC0;

/// Escape marker.
pub const SLIP_ESC: u8 = 0xDB;

/// Escaped form of END.
pub const SLIP_ESC_END: u8 = 0xDC;

/// Escaped form of ESC.
pub const SLIP_ESC_ESC: u8 = 0xDD;

/// The bytes that stand for one data byte inside a frame.
pub open spec fn escape_byte(b: u8) -> Seq<u8> {
    if b == SLIP_END {
        seq![SLIP_ESC, SLIP_ESC_END]
    } else if b == SLIP_ESC {
        seq![SLIP_ESC, SLIP_ESC_ESC]
    } else {
        seq![b]
    }
}

/// The escaped body of a frame.
pub open spec fn escape_all(data: Seq<u8>) -> Seq<u8>
    decreases data.len(),
{
    if data.len() == 0 {
        Seq::empty()
    } else {
        escape_all(data.drop_last()) + escape_byte(data.last())
    }
}

/// A complete encoded frame: END, escaped body, END.
pub open spec fn slip_encoding(data: Seq<u8>) -> Seq<u8> {
    seq![SLIP_END] + escape_all(data) + seq![SLIP_END]
}

/// Abstract state of the streaming decoder.
pub struct DecoderModel {
    pub buffer: Seq<u8>,
    pub in_escape: bool,
}

/// The decoder's response to one byte: the next state and the frames it completes.
pub open spec fn decode_step(st: DecoderModel, b: u8) -> (DecoderModel, Seq<Seq<u8>>) {
    if st.in_escape {
        if b == SLIP_ESC_END {
            (DecoderModel { buffer: st.buffer.push(SLIP_END), in_escape: false }, Seq::empty())
        } else if b == SLIP_ESC_ESC {
            (DecoderModel { buffer: st.buffer.push(SLIP_ESC), in_escape: false }, Seq::empty())
        } else {
            (
                DecoderModel { buffer: st.buffer.push(SLIP_ESC).push(b), in_escape: false },
                Seq::empty(),
            )
        }
    } else if b == SLIP_END {
        if st.buffer.len() > 0 {
            (DecoderModel { buffer: Seq::empty(), in_escape: false }, seq![st.buffer])
        } else {
            (st, Seq::empty())
        }
    } else if b == SLIP_ESC {
        (DecoderModel { buffer: st.buffer, in_escape: true }, Seq::empty())
    } else {
        (DecoderModel { buffer: st.buffer.push(b), in_escape: false }, Seq::empty())
    }
}

/// The decoder fed a byte string, one byte at a time from the front.
pub open spec fn decode_bytes(st: DecoderModel, input: Seq<u8>) -> (DecoderModel, Seq<Seq<u8>>)
    decreases input.len(),
{
    if input.len() == 0 {
        (st, Seq::empty())
    } else {
        let (mid, frames) = decode_bytes(st, input.drop_last());
        let (next, more) = decode_step(mid, input.last());
        (next, frames + more)
    }
}

/// A decoder with nothing buffered.
pub open spec fn idle_decoder() -> DecoderModel {
    DecoderModel { buffer: Seq::empty(), in_escape: false }
}

/// Feeding two byte strings one after the other is feeding their concatenation.
pub proof fn lemma_decode_concat(st: DecoderModel, a: Seq<u8>, b: Seq<u8>)
    ensures
        decode_bytes(st, a + b) == ({
            let (mid, fa) = decode_bytes(st, a);
            let (end, fb) = decode_bytes(mid, b);
            (end, fa + fb)
        }),
    decreases b.len(),
{
    if b.len() == 0 {
        assert(a + b =~= a);
        assert(decode_bytes(st, a).1 + Seq::<Seq<u8>>::empty() =~= decode_bytes(st, a).1);
    } else {
        lemma_decode_concat(st, a, b.drop_last());
        assert((a + b).drop_last() =~= a + b.drop_last());
        assert((a + b).last() == b.last());
        let (mid, fa) = decode_bytes(st, a);
        let (m2, fb) = decode_bytes(mid, b.drop_last());
        let (end, more) = decode_step(m2, b.last());
        assert(fa + fb + more =~= fa + (fb + more));
    }
}

proof fn lemma_decode_one(st: DecoderModel, b: u8)
    ensures
        decode_bytes(st, seq![b]) == decode_step(st, b),
{
    let input = seq![b];
    assert(input.drop_last() =~= Seq::<u8>::empty());
    assert(input.last() == b);
    assert(decode_bytes(st, input.drop_last()) == (st, Seq::<Seq<u8>>::empty()));
    let (next, more) = decode_step(st, b);
    assert(Seq::<Seq<u8>>::empty() + more =~= more);
}

proof fn lemma_decode_escaped(buf: Seq<u8>, data: Seq<u8>)
    ensures
        decode_bytes(DecoderModel { buffer: buf, in_escape: false }, escape_all(data)) == (
            DecoderModel { buffer: buf + data, in_escape: false },
            Seq::<Seq<u8>>::empty(),
        ),
    decreases data.len(),
{
    let st = DecoderModel { buffer: buf, in_escape: false };
    if data.len() == 0 {
        assert(buf + data =~= buf);
    } else {
        let init = data.drop_last();
        let b = data.last();
        lemma_decode_escaped(buf, init);
        lemma_decode_concat(st, escape_all(init), escape_byte(b));
        let mid = DecoderModel { buffer: buf + init, in_escape: false };
        let e = escape_byte(b);
        if b == SLIP_END || b == SLIP_ESC {
            let second = if b == SLIP_END { SLIP_ESC_END } else { SLIP_ESC_ESC };
            assert(e =~= seq![SLIP_ESC] + seq![second]);
            lemma_decode_concat(mid, seq![SLIP_ESC], seq![second]);
            lemma_decode_one(mid, SLIP_ESC);
            lemma_decode_one(DecoderModel { buffer: buf + init, in_escape: true }, second);
        } else {
            assert(e =~= seq![b]);
            lemma_decode_one(mid, b);
        }
        assert(buf + init + seq![b] =~= buf + data);
        assert((buf + init).push(b) =~= buf + data);
        assert(Seq::<Seq<u8>>::empty() + Seq::<Seq<u8>>::empty() =~= Seq::<Seq<u8>>::empty());
        let (end, fe) = decode_bytes(mid, e);
        assert(fe =~= Seq::<Seq<u8>>::empty());
    }
}

/// Decoding the encoding of a non-empty byte string from an idle decoder
/// yields exactly that string as one frame, and leaves the decoder idle.
pub proof fn lemma_slip_round_trip(data: Seq<u8>)
    requires
        data.len() > 0,
    ensures
        decode_bytes(idle_decoder(), slip_encoding(data)) == (idle_decoder(), seq![data]),
{
    let idle = idle_decoder();
    let head = seq![SLIP_END];
    let body = escape_all(data);
    let tail = seq![SLIP_END];
    assert(slip_encoding(data) == head + body + tail);
    lemma_decode_concat(idle, head + body, tail);
    lemma_decode_concat(idle, head, body);
    lemma_decode_one(idle, SLIP_END);
    assert(Seq::<u8>::empty() + data =~= data);
    lemma_decode_escaped(Seq::empty(), data);
    let full = DecoderModel { buffer: data, in_escape: false };
    lemma_decode_one(full, SLIP_END);
    assert(Seq::<Seq<u8>>::empty() + Seq::<Seq<u8>>::empty() + seq![data] =~= seq![data]);
}

/// SLIP encoder for outgoing frames.
pub struct SlipEncoder;

impl SlipEncoder {
    /// Encodes `data` as one frame, with END before and after it.
    pub fn encode(data: &[u8]) -> (r: Vec<u8>)
        ensures
            r@ == slip_encoding(data@),
    {
        let mut encoded: Vec<u8> = Vec::new();
        encoded.push(SLIP_END);
        let mut i: usize = 0;
        while i < data.len()
            invariant
                0 <= i <= data.len(),
                encoded@ == seq![SLIP_END] + escape_all(data@.subrange(0, i as int)),
            decreases data.len() - i,
        {
            let byte = data[i];
            proof {
                assert(data@.subrange(0, i + 1).drop_last() =~= data@.subrange(0, i as int));
            }
            if byte == SLIP_END {
                encoded.push(SLIP_ESC);
                encoded.push(SLIP_ESC_END);
            } else if byte == SLIP_ESC {
                encoded.push(SLIP_ESC);
                encoded.push(SLIP_ESC_ESC);
            } else {
                encoded.push(byte);
            }
            i = i + 1;
            assert(encoded@ =~= seq![SLIP_END] + escape_all(data@.subrange(0, i as int)));
        }
        assert(data@.subrange(0, data.len() as int) =~= data@);
        encoded.push(SLIP_END);
        encoded
    }
}

/// Streaming SLIP decoder.
pub struct SlipDecoder {
    buffer: Vec<u8>,
    in_escape: bool,
}

impl View for SlipDecoder {
    type V = DecoderModel;

    closed spec fn view(&self) -> DecoderModel {
        DecoderModel { buffer: self.buffer@, in_escape: self.in_escape }
    }
}

impl SlipDecoder {
    /// A decoder with an empty buffer.
    pub fn new() -> (r: Self)
        ensures
            r@ == idle_decoder(),
    {
        SlipDecoder { buffer: Vec::with_capacity(256), in_escape: false }
    }

    /// Feeds bytes and returns the frames they complete, in order.
    /// Empty frames are dropped; an ESC followed by anything but the two
    /// escape codes is kept as the pair of bytes.
    pub fn feed(&mut self, data: &[u8]) -> (r: Vec<Vec<u8>>)
        ensures
            (final(self)@, r.deep_view()) == decode_bytes(old(self)@, data@),
    {
        let mut frames: Vec<Vec<u8>> = Vec::new();
        let ghost start = self@;
        let mut i: usize = 0;
        while i < data.len()
            invariant
                0 <= i <= data.len(),
                (self@, frames.deep_view()) == decode_bytes(start, data@.subrange(0, i as int)),
            decreases data.len() - i,
        {
            let byte = data[i];
            let ghost before = frames.deep_view();
            proof {
                assert(data@.subrange(0, i + 1).drop_last() =~= data@.subrange(0, i as int));
            }
            if self.in_escape {
                self.in_escape = false;
                if byte == SLIP_ESC_END {
                    self.buffer.push(SLIP_END);
                } else if byte == SLIP_ESC_ESC {
                    self.buffer.push(SLIP_ESC);
                } else {
                    self.buffer.push(SLIP_ESC);
                    self.buffer.push(byte);
                }
                assert(frames.deep_view() =~= before + Seq::<Seq<u8>>::empty());
            } else if byte == SLIP_END {
                if self.buffer.len() > 0 {
                    let mut done: Vec<u8> = Vec::new();
                    std::mem::swap(&mut done, &mut self.buffer);
                    let ghost old_frames = frames@;
                    frames.push(done);
                    assert(done.deep_view() =~= done@);
                    assert(frames@ == old_frames.push(done));
                    assert(frames.deep_view() =~= before + seq![done@]);
                } else {
                    assert(frames.deep_view() =~= before + Seq::<Seq<u8>>::empty());
                }
            } else if byte == SLIP_ESC {
                self.in_escape = true;
                assert(frames.deep_view() =~= before + Seq::<Seq<u8>>::empty());
            } else {
                self.buffer.push(byte);
                assert(frames.deep_view() =~= before + Seq::<Seq<u8>>::empty());
            }
            i = i + 1;
        }
        assert(data@.subrange(0, data.len() as int) =~= data@);
        frames
    }

    /// Drops any partial frame and leaves escape mode.
    pub fn clear(&mut self)
        ensures
            final(self)@ == idle_decoder(),
    {
        self.buffer.clear();
        self.in_escape = false;
    }
}

impl Default for SlipDecoder {
    fn default() -> (r: Self)
        ensures
            r@ == idle_decoder(),
    {
        Self::new()
    }
}

} // verus!
