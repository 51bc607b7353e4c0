//! Wire frames (format version 1).
//!
//! One frame per analysis cycle: a start-of-frame marker, a format version
//! byte, each of the `SPECTRUM_BINS` bin intensities as a big-endian `u16`
//! (so the round trip is exact, with no quantization loss), and a final
//! integrity byte holding the sum of all payload bytes modulo 256. The
//! device rejects a frame whose integrity byte does not match; the
//! reference decoder here does the same.

use vstd::prelude::*;

use crate::config::SPECTRUM_BINS;

verus! {

/// Start-of-frame marker.
pub const FRAME_START: u8 = 0xA5;

/// Wire format version.
pub const FRAME_VERSION: u8 = 1;

/// Total bytes in one frame: marker, version, payload, integrity byte.
pub const FRAME_LEN: usize = 2 * SPECTRUM_BINS + 3;

/// Big-endian byte pair of each bin value, flattened.
pub open spec fn payload_bytes(s: Seq<u16>) -> Seq<u8> {
    Seq::new(
        2 * s.len(),
        |k: int|
            if k % 2 == 0 {
                (s[k / 2] / 256) as u8
            } else {
                (s[k / 2] % 256) as u8
            },
    )
}

/// Sum of a byte sequence.
pub open spec fn byte_sum(s: Seq<u8>) -> int
    decreases s.len(),
{
    if s.len() == 0 {
        0
    } else {
        s[0] + byte_sum(s.drop_first())
    }
}

/// Integrity byte: the payload byte sum modulo 256.
pub open spec fn checksum(s: Seq<u8>) -> u8 {
    (byte_sum(s) % 256) as u8
}

/// The encoded frame for an output spectrum.
pub open spec fn frame_bytes(s: Seq<u16>) -> Seq<u8> {
    seq![FRAME_START, FRAME_VERSION] + payload_bytes(s) + seq![checksum(payload_bytes(s))]
}

/// A byte sequence is a well-formed frame: right length, right marker and
/// version, matching integrity byte.
pub open spec fn frame_ok(b: Seq<u8>) -> bool {
    &&& b.len() == FRAME_LEN as nat
    &&& b[0] == FRAME_START
    &&& b[1] == FRAME_VERSION
    &&& b[FRAME_LEN as int - 1] == checksum(b.subrange(2, FRAME_LEN as int - 1))
}

/// The bin values a payload region carries.
pub open spec fn parse_payload(b: Seq<u8>) -> Seq<u16> {
    Seq::new(b.len() / 2, |i: int| (b[2 * i] * 256 + b[2 * i + 1]) as u16)
}

/// What the reference decoder recovers: the carried bin values of a
/// well-formed frame, nothing from any other byte sequence.
pub open spec fn parse_frame(b: Seq<u8>) -> Option<Seq<u16>> {
    if frame_ok(b) {
        Some(parse_payload(b.subrange(2, FRAME_LEN as int - 1)))
    } else {
        None
    }
}

/// A byte sum splits over concatenation.
proof fn lemma_byte_sum_concat(a: Seq<u8>, b: Seq<u8>)
    ensures
        byte_sum(a + b) == byte_sum(a) + byte_sum(b),
    decreases a.len(),
{
    if a.len() == 0 {
        assert(a + b =~= b);
    } else {
        assert((a + b).drop_first() =~= a.drop_first() + b);
        lemma_byte_sum_concat(a.drop_first(), b);
        assert(byte_sum(a + b) == (a + b)[0] + byte_sum(a.drop_first() + b));
    }
}

/// A byte sum is non-negative and bounded by 255 per byte.
proof fn lemma_byte_sum_bounds(s: Seq<u8>)
    ensures
        0 <= byte_sum(s) <= s.len() * 255,
    decreases s.len(),
{
    if s.len() > 0 {
        lemma_byte_sum_bounds(s.drop_first());
    }
}

/// Sum of a two-byte sequence.
proof fn lemma_byte_sum_pair(x: u8, y: u8)
    ensures
        byte_sum(seq![x, y]) == x + y,
{
    assert(seq![x, y].drop_first() =~= seq![y]);
    assert(seq![y].drop_first() =~= Seq::<u8>::empty());
    assert(byte_sum(Seq::<u8>::empty()) == 0);
    assert(byte_sum(seq![y]) == y + byte_sum(seq![y].drop_first()));
    assert(byte_sum(seq![x, y]) == x + byte_sum(seq![x, y].drop_first()));
}

/// Encodes an output spectrum as one wire frame.
pub fn encode_frame(spectrum: &Vec<u16>) -> (frame: Vec<u8>)
    requires
        spectrum@.len() == SPECTRUM_BINS as nat,
    ensures
        frame@ == frame_bytes(spectrum@),
{
    let mut frame: Vec<u8> = Vec::new();
    frame.push(FRAME_START);
    frame.push(FRAME_VERSION);
    let mut acc: u32 = 0;
    let mut i: usize = 0;
    proof {
        assert(payload_bytes(spectrum@.subrange(0, 0)) =~= Seq::<u8>::empty());
        assert(frame@ =~= seq![FRAME_START, FRAME_VERSION] + payload_bytes(
            spectrum@.subrange(0, 0),
        ));
    }
    while i < SPECTRUM_BINS
        invariant
            i <= SPECTRUM_BINS,
            spectrum@.len() == SPECTRUM_BINS as nat,
            frame@ == seq![FRAME_START, FRAME_VERSION] + payload_bytes(
                spectrum@.subrange(0, i as int),
            ),
            acc as int == byte_sum(payload_bytes(spectrum@.subrange(0, i as int))),
            acc as int <= 510 * (i as int),
        decreases SPECTRUM_BINS - i,
    {
        let v = spectrum[i];
        let hi = (v / 256) as u8;
        let lo = (v % 256) as u8;
        let ghost before = payload_bytes(spectrum@.subrange(0, i as int));
        frame.push(hi);
        frame.push(lo);
        proof {
            assert(payload_bytes(spectrum@.subrange(0, (i + 1) as int)) =~= before + seq![hi, lo]);
            lemma_byte_sum_concat(before, seq![hi, lo]);
            lemma_byte_sum_pair(hi, lo);
            assert(frame@ =~= seq![FRAME_START, FRAME_VERSION] + payload_bytes(
                spectrum@.subrange(0, (i + 1) as int),
            ));
        }
        acc = acc + hi as u32 + lo as u32;
        i += 1;
    }
    let ck = (acc % 256) as u8;
    frame.push(ck);
    proof {
        assert(spectrum@.subrange(0, SPECTRUM_BINS as int) =~= spectrum@);
        assert(frame@ =~= frame_bytes(spectrum@));
    }
    frame
}

/// The reference decoder: recovers the bin values of a well-formed frame
/// and rejects every other byte sequence.
pub fn decode_frame(frame: &Vec<u8>) -> (r: Option<Vec<u16>>)
    ensures
        match r {
            Some(s) => parse_frame(frame@) == Some(s@),
            None => parse_frame(frame@) is None,
        },
{
    if frame.len() != FRAME_LEN {
        return None;
    }
    if frame[0] != FRAME_START || frame[1] != FRAME_VERSION {
        return None;
    }
    let mut acc: u32 = 0;
    let mut k: usize = 2;
    proof {
        assert(frame@.subrange(2, 2) =~= Seq::<u8>::empty());
    }
    while k < FRAME_LEN - 1
        invariant
            2 <= k <= FRAME_LEN - 1,
            frame@.len() == FRAME_LEN as nat,
            acc as int == byte_sum(frame@.subrange(2, k as int)),
            acc as int <= 255 * (k as int),
        decreases FRAME_LEN - k,
    {
        let ghost before = frame@.subrange(2, k as int);
        proof {
            assert(frame@.subrange(2, (k + 1) as int) =~= before + seq![frame@[k as int]]);
            lemma_byte_sum_concat(before, seq![frame@[k as int]]);
            assert(seq![frame@[k as int]].drop_first() =~= Seq::<u8>::empty());
            assert(byte_sum(Seq::<u8>::empty()) == 0);
            assert(byte_sum(seq![frame@[k as int]]) == frame@[k as int]);
        }
        acc = acc + frame[k] as u32;
        k += 1;
    }
    proof {
        lemma_byte_sum_bounds(frame@.subrange(2, FRAME_LEN as int - 1));
    }
    if frame[FRAME_LEN - 1] as u32 != acc % 256 {
        return None;
    }
    let mut out: Vec<u16> = Vec::new();
    let mut i: usize = 0;
    while i < SPECTRUM_BINS
        invariant
            i <= SPECTRUM_BINS,
            frame@.len() == FRAME_LEN as nat,
            out@.len() == i as nat,
            forall|j: int| 0 <= j < i as int ==> out@[j] == parse_payload(
                frame@.subrange(2, FRAME_LEN as int - 1),
            )[j],
        decreases SPECTRUM_BINS - i,
    {
        let v = (frame[2 + 2 * i] as u16) * 256 + (frame[3 + 2 * i] as u16);
        out.push(v);
        i += 1;
    }
    proof {
        assert(out@ =~= parse_payload(frame@.subrange(2, FRAME_LEN as int - 1)));
    }
    Some(out)
}

/// Law: the round trip is exact. Encoding any output spectrum and decoding
/// it on the reference decoder recovers the original bin values.
pub proof fn lemma_frame_round_trip(s: Seq<u16>)
    requires
        s.len() == SPECTRUM_BINS as nat,
    ensures
        parse_frame(frame_bytes(s)) == Some(s),
{
    let p = payload_bytes(s);
    let b = frame_bytes(s);
    assert(b.subrange(2, FRAME_LEN as int - 1) =~= p);
    assert(frame_ok(b));
    assert forall|i: int| 0 <= i < s.len() implies parse_payload(p)[i] == s[i] by {
        vstd::arithmetic::div_mod::lemma_fundamental_div_mod(s[i] as int, 256);
    }
    assert(parse_payload(p) =~= s);
}

} // verus!
