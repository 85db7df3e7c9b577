//! Server side of the attested handshake: a per-stream automaton that sends
//! a fresh 64-byte nonce, checks the returned attestation report against the
//! nonce and the expected launch digest, and on success issues a random
//! bearer token into the server-wide token set.

use vstd::prelude::*;

use crate::util::bytes_eq;
use crate::util::push_char;

verus! {

/// Tokens of the sessions that completed attestation, in order of issue.
#[derive(Debug)]
pub struct TokenSet {
    pub tokens: Vec<String>,
}

/// Whether some token of `tokens` reads as `t`.
pub open spec fn token_set_contains(tokens: Seq<String>, t: Seq<char>) -> bool {
    exists|i: int| 0 <= i < tokens.len() && tokens[i]@ == t
}

impl TokenSet {
    pub fn new() -> (r: Self)
        ensures
            r.tokens@ =~= Seq::<String>::empty(),
    {
        TokenSet { tokens: Vec::new() }
    }

    /// Membership check used to gate every data-plane call.
    pub fn contains(&self, t: &String) -> (r: bool)
        ensures
            r == token_set_contains(self.tokens@, t@),
    {
        let mut i: usize = 0;
        while i < self.tokens.len()
            invariant
                0 <= i <= self.tokens@.len(),
                forall|j: int| 0 <= j < i ==> self.tokens@[j]@ != t@,
            decreases self.tokens@.len() - i,
        {
            if self.tokens[i].eq(t) {
                return true;
            }
            i = i + 1;
        }
        false
    }
}

/// Hexadecimal digit character for a value below sixteen.
pub open spec fn hex_digit(d: int) -> char {
    if d < 10 {
        crate::util::digit_char(d)
    } else if d == 10 {
        'a'
    } else if d == 11 {
        'b'
    } else if d == 12 {
        'c'
    } else if d == 13 {
        'd'
    } else if d == 14 {
        'e'
    } else {
        'f'
    }
}

/// Lower-case hexadecimal rendering of a byte string, two digits per byte.
pub open spec fn hex_of(bytes: Seq<u8>) -> Seq<char>
    decreases bytes.len(),
{
    if bytes.len() == 0 {
        Seq::empty()
    } else {
        hex_of(bytes.drop_last()).push(hex_digit((bytes.last() / 16) as int)).push(
            hex_digit((bytes.last() % 16) as int),
        )
    }
}

pub proof fn lemma_hex_of_len(bytes: Seq<u8>)
    ensures
        hex_of(bytes).len() == 2 * bytes.len(),
    decreases bytes.len(),
{
    if bytes.len() > 0 {
        lemma_hex_of_len(bytes.drop_last());
    }
}

fn hex_digit_exec(d: u8) -> (c: char)
    requires
        d < 16,
    ensures
        c == hex_digit(d as int),
{
    if d == 0 {
        '0'
    } else if d == 1 {
        '1'
    } else if d == 2 {
        '2'
    } else if d == 3 {
        '3'
    } else if d == 4 {
        '4'
    } else if d == 5 {
        '5'
    } else if d == 6 {
        '6'
    } else if d == 7 {
        '7'
    } else if d == 8 {
        '8'
    } else if d == 9 {
        '9'
    } else if d == 10 {
        'a'
    } else if d == 11 {
        'b'
    } else if d == 12 {
        'c'
    } else if d == 13 {
        'd'
    } else if d == 14 {
        'e'
    } else {
        'f'
    }
}

/// Renders bytes as lower-case hexadecimal, as the issued tokens are.
pub fn hex_encode(bytes: &Vec<u8>) -> (r: String)
    ensures
        r@ == hex_of(bytes@),
{
    let mut out = String::new();
    let mut i: usize = 0;
    while i < bytes.len()
        invariant
            0 <= i <= bytes@.len(),
            out@ == hex_of(bytes@.subrange(0, i as int)),
        decreases bytes@.len() - i,
    {
        let b = bytes[i];
        push_char(&mut out, hex_digit_exec(b / 16));
        push_char(&mut out, hex_digit_exec(b % 16));
        proof {
            let t = bytes@.subrange(0, i as int + 1);
            assert(t.drop_last() =~= bytes@.subrange(0, i as int));
            assert(t.last() == bytes@[i as int]);
        }
        i = i + 1;
    }
    proof {
        assert(bytes@.subrange(0, bytes@.len() as int) =~= bytes@);
    }
    out
}

/// Relies on rand's `SysRng` (the operating system's generator) to fill a
/// fresh buffer; nothing is assumed of the bytes beyond their count.
#[verifier::external_body]
fn os_random_bytes(n: usize) -> (r: Result<Vec<u8>, ()>)
    ensures
        r matches Ok(v) ==> v@.len() == n,
{
    let mut buf = vec![0u8; n];
    match rand::TryRng::try_fill_bytes(&mut rand::rngs::SysRng, &mut buf) {
        Ok(()) => Ok(buf),
        Err(_) => Err(()),
    }
}

/// The deterministic 64-byte challenge used when attestation freshness is
/// deliberately disabled for test environments. Never all zeroes, so a
/// zeroed report still fails the nonce check.
pub open spec fn test_challenge_spec() -> Seq<u8> {
    Seq::new(64, |i: int| (i + 1) as u8)
}

/// The fixed challenge bytes for `use_test_challenge` mode.
pub fn test_challenge() -> (r: Vec<u8>)
    ensures
        r@ == test_challenge_spec(),
{
    let mut v: Vec<u8> = Vec::new();
    let mut i: u8 = 0;
    while i < 64
        invariant
            0 <= i <= 64,
            v@.len() == i as int,
            forall|j: int| 0 <= j < i ==> v@[j] == (j + 1) as u8,
        decreases 64 - i,
    {
        v.push(i + 1);
        i = i + 1;
    }
    proof {
        assert(v@ =~= test_challenge_spec());
    }
    v
}

/// What the abstract attestation verifier said of a received report.
#[derive(Debug)]
pub enum ReportVerdict {
    /// The signature chains to a trusted root; the report's measurement and
    /// 64-byte report data follow.
    Verified(Vec<u8>, Vec<u8>),
    /// The report could not be verified, with the verifier's message.
    Rejected(String),
}

/// One inbound handshake message, after the transport layer decoded it.
#[derive(Debug)]
pub enum HandshakeRequestEvent {
    /// The opening message of the stream; its payload is ignored.
    First,
    /// A later message whose payload was handed to the attestation verifier.
    Report(ReportVerdict),
}

/// The server's reply to one handshake message.
#[derive(Debug)]
pub enum HandshakeReply {
    /// Round one: the fresh challenge nonce, to be echoed in the report.
    Challenge(Vec<u8>),
    /// Round two: the issued bearer token, 128 hexadecimal characters.
    Token(String),
}

/// How a handshake message was refused.
#[derive(Debug)]
pub enum HandshakeError {
    /// Attestation failed: surfaced as gRPC `unauthenticated`.
    Unauthenticated(String),
    /// A server-side fault: surfaced as gRPC `internal`.
    Internal(String),
}

/// Per-stream handshake automaton: `count` messages seen so far, and the
/// challenge sent in round one.
#[derive(Debug)]
pub struct HandshakeSession {
    pub count: u64,
    pub challenge: Vec<u8>,
}

/// The report is accepted exactly when its report data equals the challenge
/// and, where an expected launch digest is configured, its measurement
/// equals that digest.
pub open spec fn report_accepted(
    chal: Seq<u8>,
    ld: Option<Vec<u8>>,
    meas: Seq<u8>,
    rdata: Seq<u8>,
) -> bool {
    rdata == chal && (ld matches Some(l) ==> meas == l@)
}

impl HandshakeSession {
    pub fn new() -> (r: Self)
        ensures
            r.count == 0,
    {
        HandshakeSession { count: 0, challenge: Vec::new() }
    }

    /// Handles one handshake message.
    ///
    /// Message zero answers with a fresh 64-byte challenge (the fixed test
    /// pattern when `use_test_challenge` is set). Message one checks the
    /// verifier's verdict against the stored challenge and the configured
    /// launch digest: on success a random 64-byte token is hex-encoded,
    /// recorded in `tokens` and returned; on any failure the stream is
    /// refused as unauthenticated and `tokens` is unchanged. Every further
    /// message is an internal error.
    pub fn on_request(
        &mut self,
        tokens: &mut TokenSet,
        use_test_challenge: bool,
        server_ld: &Option<Vec<u8>>,
        ev: HandshakeRequestEvent,
    ) -> (r: Result<HandshakeReply, HandshakeError>)
        ensures
            old(self).count == 0 && use_test_challenge ==> r is Ok,
            old(self).count == 0 ==> match r {
                Ok(reply) => reply matches HandshakeReply::Challenge(c) && final(self).count == 1
                    && final(self).challenge@ == c@ && c@.len() == 64 && (use_test_challenge
                    ==> c@ == test_challenge_spec()) && final(tokens).tokens@ == old(tokens).tokens@,
                Err(e) => e matches HandshakeError::Internal(_) && *final(self) == *old(self)
                    && final(tokens).tokens@ == old(tokens).tokens@,
            },
            old(self).count == 1 ==> final(self).count == 2 && final(self).challenge@ == old(self).challenge@ && match ev {
                HandshakeRequestEvent::Report(ReportVerdict::Verified(meas, rdata)) => {
                    if report_accepted(old(self).challenge@, *server_ld, meas@, rdata@) {
                        match r {
                            Ok(reply) => reply matches HandshakeReply::Token(t) && t@.len() == 128
                                && (exists|b: Seq<u8>|
                                b.len() == 64 && t@ == #[trigger] hex_of(b)) && final(tokens).tokens@ == old(tokens).tokens@.push(t),
                            Err(e) => e matches HandshakeError::Internal(_) && final(tokens).tokens@ == old(tokens).tokens@,
                        }
                    } else {
                        r matches Err(HandshakeError::Unauthenticated(_)) && final(tokens).tokens@ == old(tokens).tokens@
                    }
                },
                _ => r matches Err(HandshakeError::Unauthenticated(_)) && final(tokens).tokens@
                    == old(tokens).tokens@,
            },
            old(self).count >= 2 ==> *final(self) == *old(self) && final(tokens).tokens@ == old(tokens).tokens@ && (r matches Err(HandshakeError::Internal(m)) && m@
                == "too many handshake requests"@),
    {
        if self.count == 0 {
            let challenge = if use_test_challenge {
                test_challenge()
            } else {
                match os_random_bytes(64) {
                    Ok(v) => v,
                    Err(_) => {
                        return Err(
                            HandshakeError::Internal("challenge generation failed".to_owned()),
                        );
                    },
                }
            };
            self.count = 1;
            self.challenge = challenge.clone();
            Ok(HandshakeReply::Challenge(challenge))
        } else if self.count == 1 {
            self.count = 2;
            let verdict = match ev {
                HandshakeRequestEvent::First => {
                    return Err(
                        HandshakeError::Unauthenticated(
                            "attestation report was not presented".to_owned(),
                        ),
                    );
                },
                HandshakeRequestEvent::Report(v) => v,
            };
            let (meas, rdata) = match verdict {
                ReportVerdict::Rejected(m) => {
                    return Err(HandshakeError::Unauthenticated(m));
                },
                ReportVerdict::Verified(meas, rdata) => (meas, rdata),
            };
            if !bytes_eq(&rdata, &self.challenge) {
                return Err(
                    HandshakeError::Unauthenticated(
                        "attestation report data does not match challenge".to_owned(),
                    ),
                );
            }
            match server_ld {
                Some(ld) => {
                    if !bytes_eq(&meas, ld) {
                        return Err(
                            HandshakeError::Unauthenticated(
                                "launch digest does not match expected value".to_owned(),
                            ),
                        );
                    }
                },
                None => {},
            }
            let token_bytes = match os_random_bytes(64) {
                Ok(v) => v,
                Err(_) => {
                    return Err(HandshakeError::Internal("token generation failed".to_owned()));
                },
            };
            let token = hex_encode(&token_bytes);
            proof {
                lemma_hex_of_len(token_bytes@);
                assert(token_bytes@.len() == 64 && token@ == hex_of(token_bytes@));
            }
            tokens.tokens.push(token.clone());
            Ok(HandshakeReply::Token(token))
        } else {
            Err(HandshakeError::Internal("too many handshake requests".to_owned()))
        }
    }
}

} // verus!
