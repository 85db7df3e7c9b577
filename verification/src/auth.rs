//! Authorisation pipeline of the data plane: the session bearer token from
//! `x-yak-authorization`, the OIDC subject from `authorization`, and the
//! optional subject allow-list.

use vstd::prelude::*;

use crate::config::CmdOptions;
use crate::handshake::token_set_contains;
use crate::handshake::TokenSet;
use crate::util::push_char;

verus! {

/// Why a request was refused; every case surfaces as gRPC `unauthenticated`.
#[derive(Debug, Clone)]
pub enum AuthError {
    /// The header is absent.
    NoToken,
    /// The header value is shorter than a bearer prefix.
    TooShort,
    /// The header value does not start with `Bearer `.
    InvalidFormat,
    /// The presented session token was never issued.
    InvalidToken(String),
    /// The presented JSON web token did not verify, with the verifier's message.
    JwtInvalid(String),
    /// The subject is not on the allow-list.
    UnauthorizedSubject(String),
}

/// OIDC claims carried by a verified JSON web token.
#[derive(Debug, Clone)]
pub struct Claims {
    pub iss: String,
    pub sub: String,
    pub aud: Vec<String>,
    pub iat: usize,
    pub exp: usize,
    pub scope: String,
    pub azp: String,
}

/// The token of a `Bearer ` header value, when it has that shape.
pub open spec fn bearer_token(s: Seq<char>) -> Option<Seq<char>> {
    if s.len() < 7 {
        None
    } else if s.subrange(0, 7) == "Bearer "@ {
        Some(s.skip(7))
    } else {
        None
    }
}

/// The subject string with `|` rewritten to `_`.
pub open spec fn sanitize_subject_spec(s: Seq<char>) -> Seq<char> {
    s.map_values(
        |c: char|
            if c == '|' {
                '_'
            } else {
                c
            },
    )
}

/// Renders the bearer header carrying `value`: parsing the result back
/// yields exactly `value`.
pub fn bearer_header(value: &str) -> (r: String)
    ensures
        r@ == "Bearer "@ + value@,
        bearer_token(r@) == Some(value@),
{
    let mut out = "Bearer ".to_owned();
    out.append(value);
    proof {
        reveal_strlit("Bearer ");
        assert(out@.subrange(0, 7) =~= "Bearer "@);
        assert(out@.skip(7) =~= value@);
    }
    out
}

/// Extracts the token from a `Bearer ` header value, with the exact error
/// the data plane reports for each malformed shape.
pub fn parse_bearer(header: Option<&String>) -> (r: Result<String, AuthError>)
    ensures
        match header {
            None => r matches Err(AuthError::NoToken),
            Some(h) => {
                if h@.len() < 7 {
                    r matches Err(AuthError::TooShort)
                } else {
                    match bearer_token(h@) {
                        Some(t) => r matches Ok(tok) && tok@ == t,
                        None => r matches Err(AuthError::InvalidFormat),
                    }
                }
            },
        },
{
    let h = match header {
        None => {
            return Err(AuthError::NoToken);
        },
        Some(h) => h,
    };
    let n: usize = h.as_str().unicode_len();
    if n < 7 {
        return Err(AuthError::TooShort);
    }
    let prefix = "Bearer ";
    proof {
        reveal_strlit("Bearer ");
    }
    let mut i: usize = 0;
    while i < 7
        invariant
            0 <= i <= 7,
            header == Some(h),
            n == h@.len(),
            n >= 7,
            prefix@ == "Bearer "@,
            prefix@.len() == 7,
            forall|j: int| 0 <= j < i ==> h@[j] == prefix@[j],
        decreases 7 - i,
    {
        if h.as_str().get_char(i) != prefix.get_char(i) {
            proof {
                assert(h@.subrange(0, 7)[i as int] != "Bearer "@[i as int]);
            }
            return Err(AuthError::InvalidFormat);
        }
        i = i + 1;
    }
    proof {
        assert(h@.subrange(0, 7) =~= "Bearer "@);
    }
    let token = h.as_str().substring_char(7, n).to_owned();
    Ok(token)
}

/// Checks the session bearer header of a data-plane call: the header must be
/// present, well-formed, and its token must have been issued by a completed
/// handshake. Exactly the unissued tokens are refused.
pub fn authorize_token(header: Option<&String>, tokens: &TokenSet) -> (r: Result<
    String,
    AuthError,
>)
    ensures
        match header {
            None => r matches Err(AuthError::NoToken),
            Some(h) => {
                if h@.len() < 7 {
                    r matches Err(AuthError::TooShort)
                } else {
                    match bearer_token(h@) {
                        Some(t) => {
                            if token_set_contains(tokens.tokens@, t) {
                                r matches Ok(tok) && tok@ == t
                            } else {
                                r matches Err(AuthError::InvalidToken(tok)) && tok@ == t
                            }
                        },
                        None => r matches Err(AuthError::InvalidFormat),
                    }
                }
            },
        },
{
    let token = parse_bearer(header)?;
    if !tokens.contains(&token) {
        return Err(AuthError::InvalidToken(token));
    }
    Ok(token)
}

/// Copy of `s` with every `|` replaced by `_`, as OIDC subjects are stored.
pub fn sanitize_subject(s: &str) -> (r: String)
    ensures
        r@ == sanitize_subject_spec(s@),
{
    let n: usize = s.unicode_len();
    let mut out = String::new();
    let mut i: usize = 0;
    while i < n
        invariant
            0 <= i <= n,
            n == s@.len(),
            out@ == sanitize_subject_spec(s@.subrange(0, i as int)),
        decreases n - i,
    {
        let c = s.get_char(i);
        if c == '|' {
            push_char(&mut out, '_');
        } else {
            push_char(&mut out, c);
        }
        proof {
            assert(sanitize_subject_spec(s@.subrange(0, i + 1)) =~= sanitize_subject_spec(
                s@.subrange(0, i as int),
            ).push(
                if s@[i as int] == '|' {
                    '_'
                } else {
                    s@[i as int]
                },
            ));
        }
        i = i + 1;
    }
    proof {
        assert(s@.subrange(0, n as int) =~= s@);
    }
    out
}

/// The subject of a data-plane call: the verified claim's `sub` with `|`
/// rewritten to `_`; `test` when no token was presented; an authentication
/// error when one was presented but did not verify.
pub fn resolve_subject(introspection: Option<Result<String, String>>) -> (r: Result<
    String,
    AuthError,
>)
    ensures
        match introspection {
            None => r matches Ok(s) && s@ == "test"@,
            Some(Ok(sub)) => r matches Ok(s) && s@ == sanitize_subject_spec(sub@),
            Some(Err(m)) => r matches Err(AuthError::JwtInvalid(e)) && e@ == m@,
        },
{
    match introspection {
        None => Ok("test".to_owned()),
        Some(Ok(sub)) => Ok(sanitize_subject(sub.as_str())),
        Some(Err(m)) => Err(AuthError::JwtInvalid(m)),
    }
}

/// True when the subject may use the data plane: either no allow-list is
/// configured, or the subject is exactly the allow-listed one.
pub fn authenticate_subject(cmd_opts: &CmdOptions, subject: &str) -> (r: bool)
    ensures
        r == match cmd_opts.authorized_subject {
            Some(a) => a@ == subject@,
            None => true,
        },
{
    match &cmd_opts.authorized_subject {
        Some(authorized) => crate::util::str_eq(authorized.as_str(), subject),
        None => true,
    }
}

/// The whole authorisation pipeline of `DoGet` and `DoPut`: session token,
/// then subject, then allow-list. `introspection` is what the OIDC verifier
/// said of the `authorization` header: absent, verified with a subject, or
/// failed with a message.
pub fn authorize_request(
    cmd_opts: &CmdOptions,
    tokens: &TokenSet,
    session_header: Option<&String>,
    introspection: Option<Result<String, String>>,
) -> (r: Result<String, AuthError>)
    ensures
        match session_header {
            None => r matches Err(AuthError::NoToken),
            Some(h) => {
                if h@.len() < 7 {
                    r matches Err(AuthError::TooShort)
                } else {
                    match bearer_token(h@) {
                        None => r matches Err(AuthError::InvalidFormat),
                        Some(t) => {
                            if !token_set_contains(tokens.tokens@, t) {
                                r matches Err(AuthError::InvalidToken(tok)) && tok@ == t
                            } else {
                                match introspection {
                            None => subject_outcome(r, "test"@, cmd_opts.authorized_subject),
                            Some(Ok(sub)) => subject_outcome(
                                r,
                                sanitize_subject_spec(sub@),
                                cmd_opts.authorized_subject,
                            ),
                                    Some(Err(m)) => r matches Err(AuthError::JwtInvalid(e)) && e@
                                        == m@,
                                }
                            }
                        },
                    }
                }
            },
        },
{
    let _token = authorize_token(session_header, tokens)?;
    let subject = resolve_subject(introspection)?;
    if !authenticate_subject(cmd_opts, subject.as_str()) {
        return Err(AuthError::UnauthorizedSubject(subject));
    }
    Ok(subject)
}

/// After token and subject both passed: the subject is returned when the
/// allow-list admits it and refused otherwise.
pub open spec fn subject_outcome(
    r: Result<String, AuthError>,
    subject: Seq<char>,
    allow: Option<String>,
) -> bool {
    match allow {
        Some(a) => {
            if a@ == subject {
                r matches Ok(s) && s@ == subject
            } else {
                r matches Err(AuthError::UnauthorizedSubject(s)) && s@ == subject
            }
        },
        None => r matches Ok(s) && s@ == subject,
    }
}

} // verus!
