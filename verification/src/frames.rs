//! Length-delimited Flight frames: a Protobuf varint length delimiter
//! followed by that many payload bytes. The decoder buffers arbitrary
//! chunks and emits one payload per fully available frame, so the emitted
//! sequence depends only on the concatenation of the pushed bytes.

use vstd::prelude::*;

verus! {

/// One more than the largest length a delimiter may carry.
pub open spec fn varint_limit() -> nat {
    0x1_0000_0000_0000_0000
}

/// `128^n`, the weight of the `n`-th varint digit.
pub open spec fn pow128(n: int) -> nat
    decreases n,
{
    if n <= 0 {
        1
    } else {
        128 * pow128(n - 1)
    }
}

/// Reads one base-128 varint from the front of `s`: its value and how many
/// bytes it occupies. `None` when no terminating byte is present.
pub open spec fn varint_parse(s: Seq<u8>) -> Option<(nat, int)>
    decreases s.len(),
{
    if s.len() == 0 {
        None
    } else if s[0] < 128 {
        Some((s[0] as nat, 1))
    } else {
        match varint_parse(s.skip(1)) {
            None => None,
            Some((v, l)) => Some((((s[0] - 128) + 128 * v) as nat, l + 1)),
        }
    }
}

/// The varint encoding of `n`, least significant digits first.
pub open spec fn varint_enc(n: nat) -> Seq<u8>
    decreases n,
{
    if n < 128 {
        seq![n as u8]
    } else {
        seq![(128 + (n % 128)) as u8] + varint_enc(n / 128)
    }
}

pub proof fn lemma_pow128_pos(n: int)
    ensures
        pow128(n) >= 1,
    decreases n,
{
    if n > 0 {
        lemma_pow128_pos(n - 1);
    }
}

pub proof fn lemma_parse_shape(s: Seq<u8>)
    ensures
        match varint_parse(s) {
            Some(p) => 1 <= p.1 <= s.len() && p.0 < pow128(p.1),
            None => true,
        },
    decreases s.len(),
{
    if s.len() > 0 {
        if s[0] < 128 {
            assert(pow128(1) == 128 * pow128(0));
        } else {
            lemma_parse_shape(s.skip(1));
            if varint_parse(s.skip(1)) is Some {
                let p = varint_parse(s.skip(1))->Some_0;
                lemma_pow128_pos(p.1);
                assert(pow128(p.1 + 1) == 128 * pow128(p.1));
                assert(128 * p.0 <= 128 * (pow128(p.1) - 1));
            }
        }
    }
}

/// A varint whose first `m` bytes are all continuation bytes occupies more
/// than `m` bytes.
pub proof fn lemma_parse_long(s: Seq<u8>, m: int)
    requires
        0 <= m <= s.len(),
        forall|i: int| 0 <= i < m ==> #[trigger] s[i] >= 128,
    ensures
        match varint_parse(s) {
            Some(p) => p.1 > m,
            None => true,
        },
    decreases m,
{
    if m > 0 {
        assert(s[0] >= 128);
        assert(forall|i: int| 0 <= i < m - 1 ==> #[trigger] s.skip(1)[i] >= 128);
        lemma_parse_long(s.skip(1), m - 1);
        if varint_parse(s.skip(1)) is Some {
            let p1 = varint_parse(s.skip(1))->Some_0;
            assert(varint_parse(s) == Some((((s[0] - 128) + 128 * p1.0) as nat, p1.1 + 1)));
        } else {
            assert(varint_parse(s) is None);
        }
    } else {
        lemma_parse_shape(s);
    }
}

/// A string of continuation bytes alone is no varint.
pub proof fn lemma_parse_all_cont(s: Seq<u8>)
    requires
        forall|i: int| 0 <= i < s.len() ==> #[trigger] s[i] >= 128,
    ensures
        varint_parse(s) is None,
    decreases s.len(),
{
    if s.len() > 0 {
        assert(forall|i: int| 0 <= i < s.skip(1).len() ==> #[trigger] s.skip(1)[i] >= 128);
        lemma_parse_all_cont(s.skip(1));
    }
}

/// Decoding an encoded varint in front of anything yields the value back.
pub proof fn lemma_enc_parse(n: nat, rest: Seq<u8>)
    ensures
        varint_parse(varint_enc(n) + rest) == Some((n, varint_enc(n).len() as int)),
    decreases n,
{
    let s = varint_enc(n) + rest;
    if n < 128 {
        assert(s[0] == n as u8);
    } else {
        assert(s[0] == (128 + (n % 128)) as u8);
        assert(s[0] >= 128);
        lemma_enc_parse(n / 128, rest);
        assert(s.skip(1) =~= varint_enc(n / 128) + rest);
        assert((s[0] - 128) == n % 128);
        assert(n % 128 + 128 * (n / 128) == n) by (nonlinear_arith);
    }
}

/// An encoded varint of a value below `pow128(b)` takes at most `b` bytes.
pub proof fn lemma_enc_len(n: nat, b: int)
    requires
        b >= 1,
        n < pow128(b),
    ensures
        varint_enc(n).len() <= b,
    decreases b,
{
    if n >= 128 {
        assert(b >= 2) by {
            reveal_with_fuel(pow128, 3);
        }
        assert(n / 128 < pow128(b - 1)) by (nonlinear_arith)
            requires
                n < 128 * pow128(b - 1),
        ;
        lemma_enc_len(n / 128, b - 1);
    }
}

/// The payloads of every complete frame at the front of `s`, in order:
/// a valid delimiter (at most ten bytes, value below `2^64`) followed by
/// that many payload bytes, repeated as long as the bytes suffice.
pub open spec fn frames_of(s: Seq<u8>) -> Seq<Seq<u8>>
    decreases s.len(),
{
    match varint_parse(s) {
        Some((v, l)) => {
            if 1 <= l <= 10 && v < varint_limit() && s.len() >= l + v {
                seq![s.subrange(l, l + v)] + frames_of(s.skip(l + v))
            } else {
                Seq::empty()
            }
        },
        None => Seq::empty(),
    }
}

/// The wire form of one frame: delimiter then payload.
pub open spec fn frame_enc(p: Seq<u8>) -> Seq<u8> {
    varint_enc(p.len()) + p
}

/// The wire form of a sequence of frames.
pub open spec fn frames_enc(ps: Seq<Seq<u8>>) -> Seq<u8>
    decreases ps.len(),
{
    if ps.len() == 0 {
        Seq::empty()
    } else {
        frame_enc(ps[0]) + frames_enc(ps.skip(1))
    }
}

/// Round trip of the wire format: the decoder recovers from a concatenation
/// of encoded frames exactly the frames that were encoded, however the
/// bytes were chunked on the way in.
pub proof fn lemma_frames_round_trip(ps: Seq<Seq<u8>>)
    requires
        forall|i: int| 0 <= i < ps.len() ==> (#[trigger] ps[i]).len() < varint_limit(),
    ensures
        frames_of(frames_enc(ps)) == ps,
    decreases ps.len(),
{
    reveal_with_fuel(pow128, 11);
    if ps.len() > 0 {
        let p0 = ps[0];
        let n0 = p0.len();
        let tail = frames_enc(ps.skip(1));
        let s = frames_enc(ps);
        assert(s =~= varint_enc(n0) + (p0 + tail));
        lemma_enc_parse(n0, p0 + tail);
        let dl = varint_enc(n0).len() as int;
        lemma_enc_len(n0, 10);
        assert(varint_parse(s) == Some((n0, dl)));
        assert(s.len() >= dl + n0);
        assert(s.subrange(dl, dl + n0) =~= p0);
        assert(s.skip(dl + n0) =~= tail);
        assert(forall|i: int|
            0 <= i < ps.skip(1).len() ==> (#[trigger] ps.skip(1)[i]).len() < varint_limit());
        lemma_frames_round_trip(ps.skip(1));
        assert(frames_of(s) =~= seq![p0] + ps.skip(1));
        assert(seq![p0] + ps.skip(1) =~= ps);
    }
}

/// The wire is not a complete frame or has a corrupt delimiter.
#[derive(Debug, Clone, PartialEq, Eq, Structural)]
pub enum FrameError {
    /// The length delimiter is longer than ten bytes or encodes a value
    /// beyond `2^64`.
    InvalidDelimiter,
}

/// Buffers wire bytes and hands out one complete frame at a time.
pub struct FrameDecoder {
    pub buf: Vec<u8>,
}

impl FrameDecoder {
    pub fn new() -> (r: Self)
        ensures
            r.buf@ =~= Seq::<u8>::empty(),
    {
        FrameDecoder { buf: Vec::new() }
    }

    /// Appends one received chunk to the internal buffer.
    pub fn push_bytes(&mut self, chunk: &Vec<u8>)
        ensures
            final(self).buf@ == old(self).buf@ + chunk@,
    {
        let ghost pre = self.buf@;
        self.buf.extend_from_slice(chunk.as_slice());
        proof {
            assert(self.buf@ =~= pre + chunk@);
        }
    }

    /// Takes the next complete frame off the front of the buffer.
    ///
    /// `Ok(Some(payload))` consumes one frame; `Ok(None)` means more bytes
    /// are needed and leaves the buffer unchanged; an error reports a
    /// corrupt delimiter and leaves the buffer unchanged.
    #[verifier::loop_isolation(false)]
    pub fn next_frame(&mut self) -> (r: Result<Option<Vec<u8>>, FrameError>)
        ensures
            ({
                let s = old(self).buf@;
                match varint_parse(s) {
                    Some((v, l)) => {
                        if !(l <= 10 && v < varint_limit()) {
                            r matches Err(FrameError::InvalidDelimiter) && *final(self) == *old(
                                self,
                            )
                        } else if s.len() >= l + v {
                            r matches Ok(Some(f)) && f@ == s.subrange(l, l + v) && final(self).buf@
                                == s.skip(l + v)
                        } else {
                            r matches Ok(None::<Vec<u8>>) && *final(self) == *old(self)
                        }
                    },
                    None => {
                        if s.len() >= 10 {
                            r matches Err(FrameError::InvalidDelimiter) && *final(self) == *old(
                                self,
                            )
                        } else {
                            r matches Ok(None::<Vec<u8>>) && *final(self) == *old(self)
                        }
                    },
                }
            }),
    {
        let n = self.buf.len();
        let scan = if n < 10 {
            n
        } else {
            10
        };
        let mut k: usize = 0;
        let mut found = false;
        while k < scan && !found
            invariant
                0 <= k <= scan,
                !found ==> forall|i: int| 0 <= i < k ==> self.buf@[i] >= 128,
                found ==> k < scan && self.buf@[k as int] < 128 && (forall|i: int|
                    0 <= i < k ==> self.buf@[i] >= 128),
            decreases scan - k + (if found {
                0int
            } else {
                1int
            }),
        {
            if self.buf[k] < 128 {
                found = true;
            } else {
                k = k + 1;
            }
        }
        if !found {
            if n >= 10 {
                proof {
                    lemma_parse_long(self.buf@, 10);
                    if varint_parse(self.buf@) is None {
                    } else {
                        lemma_parse_shape(self.buf@);
                    }
                }
                return Err(FrameError::InvalidDelimiter);
            } else {
                proof {
                    lemma_parse_all_cont(self.buf@);
                }
                return Ok(None);
            }
        }
        // Read the delimiter backwards: each step prepends one digit, so the
        // running value is exactly what `varint_parse` reads from that index.
        let mut value: u128 = self.buf[k] as u128;
        proof {
            reveal_with_fuel(pow128, 11);
            assert(self.buf@.skip(k as int)[0] == self.buf@[k as int]);
            assert(varint_parse(self.buf@.skip(k as int)) == Some(
                (self.buf@[k as int] as nat, 1int),
            ));
        }
        let mut i: usize = k;
        while i > 0
            invariant
                0 <= i <= k,
                varint_parse(self.buf@.skip(i as int)) == Some(
                    (value as nat, (k + 1 - i) as int),
                ),
                value < pow128((k + 1 - i) as int),
            decreases i,
        {
            i = i - 1;
            let b = self.buf[i];
            proof {
                assert(self.buf@.skip(i as int)[0] == b);
                assert(b >= 128);
                assert(self.buf@.skip(i as int).skip(1) =~= self.buf@.skip(i as int + 1));
                assert(128 * (value as nat) <= 128 * (pow128((k - i) as int) - 1));
            }
            value = (b - 128) as u128 + 128 * value;
        }
        proof {
            assert(self.buf@.skip(0) =~= self.buf@);
        }
        if value >= 0x1_0000_0000_0000_0000u128 {
            return Err(FrameError::InvalidDelimiter);
        }
        let dl: usize = k + 1;
        let need: u128 = value;
        let avail: usize = n - dl;
        if (avail as u128) < need {
            return Ok(None);
        }
        let flen: usize = need as usize;
        let rest = self.buf.split_off(dl + flen);
        let frame = self.buf.split_off(dl);
        self.buf = rest;
        proof {
            assert(frame@ == old(self).buf@.subrange(dl as int, dl as int + flen as int));
            assert(self.buf@ =~= old(self).buf@.skip(dl as int + flen as int));
        }
        Ok(Some(frame))
    }
}

/// Encodes `n` as a varint length delimiter.
pub fn encode_varint(n: u64) -> (r: Vec<u8>)
    ensures
        r@ == varint_enc(n as nat),
{
    let mut out: Vec<u8> = Vec::new();
    let mut m: u64 = n;
    loop
        invariant_except_break
            varint_enc(n as nat) == out@ + varint_enc(m as nat),
        ensures
            out@ == varint_enc(n as nat),
        decreases m,
    {
        if m < 128 {
            out.push(m as u8);
            proof {
                assert(varint_enc(m as nat) =~= seq![m as u8]);
                assert(out@ =~= varint_enc(n as nat));
            }
            break;
        } else {
            let ghost pre = out@;
            out.push((128 + (m % 128)) as u8);
            proof {
                assert(varint_enc(m as nat) =~= seq![(128 + ((m as nat) % 128)) as u8]
                    + varint_enc((m as nat) / 128));
                assert(out@ =~= pre.push((128 + (m % 128)) as u8));
                assert(pre + varint_enc(m as nat) =~= out@ + varint_enc((m as nat) / 128));
            }
            m = m / 128;
        }
    }
    out
}

/// Frames one payload for the wire: its length delimiter, then its bytes.
pub fn encode_frame(payload: &Vec<u8>) -> (r: Vec<u8>)
    ensures
        r@ == frame_enc(payload@),
{
    let mut out = encode_varint(payload.len() as u64);
    let ghost pre = out@;
    out.extend_from_slice(payload.as_slice());
    proof {
        assert(out@ =~= pre + payload@);
    }
    out
}

} // verus!
