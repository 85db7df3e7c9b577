use isekai::auth::{
    authenticate_subject, authorize_request, bearer_header, parse_bearer, resolve_subject,
    sanitize_subject, AuthError,
};
use isekai::config::CmdOptions;
use isekai::handshake::TokenSet;

fn opts(authorized_subject: Option<&str>) -> CmdOptions {
    CmdOptions {
        no_tls: true,
        authorized_subject: authorized_subject.map(|s| s.to_string()),
        csv_file: None,
        edinet_db: None,
        parquet_path: "./parquet".to_string(),
        storage_db: "./storage.db".to_string(),
        policy_db: "./policy.db".to_string(),
        cert: "./certs/server.crt".to_string(),
        key: "./certs/server.key".to_string(),
        port: 50053,
        use_test_challenge: true,
        server_ld: None,
    }
}

#[test]
fn bearer_parsing_cases() {
    assert!(matches!(parse_bearer(None), Err(AuthError::NoToken)));
    let short = "Bear".to_string();
    assert!(matches!(parse_bearer(Some(&short)), Err(AuthError::TooShort)));
    let wrong = "Basic abcdef".to_string();
    assert!(matches!(parse_bearer(Some(&wrong)), Err(AuthError::InvalidFormat)));
    let good = "Bearer tok123".to_string();
    assert_eq!(parse_bearer(Some(&good)).unwrap(), "tok123");
    let empty_token = "Bearer ".to_string();
    assert_eq!(parse_bearer(Some(&empty_token)).unwrap(), "");
}

#[test]
fn subject_sanitising() {
    assert_eq!(sanitize_subject("auth0|user42"), "auth0_user42");
    assert_eq!(sanitize_subject("plain"), "plain");
    assert_eq!(
        resolve_subject(Some(Ok("google|a|b".to_string()))).unwrap(),
        "google_a_b"
    );
    assert_eq!(resolve_subject(None).unwrap(), "test");
    assert!(matches!(
        resolve_subject(Some(Err("expired".to_string()))),
        Err(AuthError::JwtInvalid(_))
    ));
}

#[test]
fn allow_list_is_enforced() {
    let free = opts(None);
    assert!(authenticate_subject(&free, "anyone"));
    let restricted = opts(Some("alice"));
    assert!(authenticate_subject(&restricted, "alice"));
    assert!(!authenticate_subject(&restricted, "bob"));
}

#[test]
fn pipeline_rejects_unknown_token_for_any_subject() {
    let o = opts(None);
    let mut tokens = TokenSet::new();
    tokens.tokens.push("issued".to_string());
    let bad = "Bearer forged".to_string();
    let r = authorize_request(&o, &tokens, Some(&bad), None);
    assert!(matches!(r, Err(AuthError::InvalidToken(_))));

    let good = "Bearer issued".to_string();
    assert_eq!(authorize_request(&o, &tokens, Some(&good), None).unwrap(), "test");
}

#[test]
fn pipeline_enforces_subject_after_token() {
    let o = opts(Some("carol"));
    let mut tokens = TokenSet::new();
    tokens.tokens.push("tkn".to_string());
    let hdr = "Bearer tkn".to_string();
    let ok = authorize_request(&o, &tokens, Some(&hdr), Some(Ok("carol".to_string())));
    assert_eq!(ok.unwrap(), "carol");
    let bad = authorize_request(&o, &tokens, Some(&hdr), Some(Ok("mallory".to_string())));
    assert!(matches!(bad, Err(AuthError::UnauthorizedSubject(_))));
    let nojwt = authorize_request(&o, &tokens, Some(&hdr), None);
    assert!(matches!(nojwt, Err(AuthError::UnauthorizedSubject(_))));
}

#[test]
fn bearer_headers_round_trip() {
    let header = bearer_header("tok123");
    assert_eq!(header, "Bearer tok123");
    assert_eq!(parse_bearer(Some(&header)).unwrap(), "tok123");
    let empty = bearer_header("");
    assert_eq!(parse_bearer(Some(&empty)).unwrap(), "");
}
