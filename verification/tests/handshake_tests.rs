use isekai::auth::{authorize_token, AuthError};
use isekai::handshake::{
    test_challenge, HandshakeError, HandshakeReply, HandshakeRequestEvent, HandshakeSession,
    ReportVerdict, TokenSet,
};

fn run_round_one(session: &mut HandshakeSession, tokens: &mut TokenSet) -> Vec<u8> {
    let reply = session
        .on_request(tokens, true, &None, HandshakeRequestEvent::First)
        .unwrap();
    match reply {
        HandshakeReply::Challenge(c) => c,
        other => panic!("expected a challenge, got {:?}", token_kind(&other)),
    }
}

fn token_kind(r: &HandshakeReply) -> &'static str {
    match r {
        HandshakeReply::Challenge(_) => "challenge",
        HandshakeReply::Token(_) => "token",
    }
}

#[test]
fn happy_attest_issues_token() {
    let mut session = HandshakeSession::new();
    let mut tokens = TokenSet::new();
    let challenge = run_round_one(&mut session, &mut tokens);
    assert_eq!(challenge, test_challenge());
    assert_eq!(challenge.len(), 64);
    assert!(tokens.tokens.is_empty());

    let verdict = ReportVerdict::Verified(vec![0u8; 48], challenge.clone());
    let reply = session
        .on_request(&mut tokens, true, &None, HandshakeRequestEvent::Report(verdict))
        .unwrap();
    let token = match reply {
        HandshakeReply::Token(t) => t,
        other => panic!("expected a token, got {:?}", token_kind(&other)),
    };
    assert_eq!(token.len(), 128);
    assert!(token.chars().all(|c| c.is_ascii_hexdigit()));
    assert_eq!(tokens.tokens, vec![token.clone()]);

    // The issued token authorises a data-plane call.
    let header = format!("Bearer {}", token);
    let got = authorize_token(Some(&header), &tokens).unwrap();
    assert_eq!(got, token);
}

#[test]
fn wrong_nonce_is_rejected_and_no_token_issued() {
    let mut session = HandshakeSession::new();
    let mut tokens = TokenSet::new();
    let _challenge = run_round_one(&mut session, &mut tokens);

    // The client echoes 64 zero bytes instead of the challenge.
    let verdict = ReportVerdict::Verified(vec![0u8; 48], vec![0u8; 64]);
    let r = session.on_request(&mut tokens, true, &None, HandshakeRequestEvent::Report(verdict));
    assert!(matches!(r, Err(HandshakeError::Unauthenticated(_))));
    assert!(tokens.tokens.is_empty());
}

#[test]
fn wrong_measurement_is_rejected_when_digest_configured() {
    let mut session = HandshakeSession::new();
    let mut tokens = TokenSet::new();
    let challenge = run_round_one(&mut session, &mut tokens);

    let expected = Some(vec![7u8; 48]);
    let verdict = ReportVerdict::Verified(vec![8u8; 48], challenge);
    let r = session.on_request(
        &mut tokens,
        true,
        &expected,
        HandshakeRequestEvent::Report(verdict),
    );
    assert!(matches!(r, Err(HandshakeError::Unauthenticated(_))));
    assert!(tokens.tokens.is_empty());
}

#[test]
fn matching_measurement_is_accepted() {
    let mut session = HandshakeSession::new();
    let mut tokens = TokenSet::new();
    let challenge = run_round_one(&mut session, &mut tokens);

    let expected = Some(vec![7u8; 48]);
    let verdict = ReportVerdict::Verified(vec![7u8; 48], challenge);
    let r = session.on_request(
        &mut tokens,
        true,
        &expected,
        HandshakeRequestEvent::Report(verdict),
    );
    assert!(r.is_ok());
    assert_eq!(tokens.tokens.len(), 1);
}

#[test]
fn rejected_report_is_unauthenticated() {
    let mut session = HandshakeSession::new();
    let mut tokens = TokenSet::new();
    let _ = run_round_one(&mut session, &mut tokens);
    let verdict = ReportVerdict::Rejected("bad signature".to_string());
    let r = session.on_request(&mut tokens, true, &None, HandshakeRequestEvent::Report(verdict));
    match r {
        Err(HandshakeError::Unauthenticated(m)) => assert_eq!(m, "bad signature"),
        other => panic!("unexpected: {:?}", other.is_ok()),
    }
    assert!(tokens.tokens.is_empty());
}

#[test]
fn third_message_is_internal_error() {
    let mut session = HandshakeSession::new();
    let mut tokens = TokenSet::new();
    let challenge = run_round_one(&mut session, &mut tokens);
    let verdict = ReportVerdict::Verified(vec![0u8; 48], challenge);
    let _ = session.on_request(&mut tokens, true, &None, HandshakeRequestEvent::Report(verdict));
    let r = session.on_request(&mut tokens, true, &None, HandshakeRequestEvent::First);
    match r {
        Err(HandshakeError::Internal(m)) => assert_eq!(m, "too many handshake requests"),
        other => panic!("unexpected: {:?}", other.is_ok()),
    }
}

#[test]
fn random_challenge_differs_per_session() {
    let mut s1 = HandshakeSession::new();
    let mut s2 = HandshakeSession::new();
    let mut tokens = TokenSet::new();
    let c1 = match s1.on_request(&mut tokens, false, &None, HandshakeRequestEvent::First) {
        Ok(HandshakeReply::Challenge(c)) => c,
        _ => panic!("expected challenge"),
    };
    let c2 = match s2.on_request(&mut tokens, false, &None, HandshakeRequestEvent::First) {
        Ok(HandshakeReply::Challenge(c)) => c,
        _ => panic!("expected challenge"),
    };
    assert_eq!(c1.len(), 64);
    assert_eq!(c2.len(), 64);
    assert_ne!(c1, c2);
}

#[test]
fn unissued_token_is_unauthenticated() {
    let tokens = TokenSet::new();
    let header = "Bearer deadbeef".to_string();
    let r = authorize_token(Some(&header), &tokens);
    match r {
        Err(AuthError::InvalidToken(t)) => assert_eq!(t, "deadbeef"),
        other => panic!("unexpected: {:?}", other.is_ok()),
    }
}
