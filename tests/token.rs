use serve_backend::error::ErrorKind;
use serve_backend::token::{check_claims, ClaimSet, TokenCodec, TOKEN_LIFESPAN};

const T0: u64 = 1_500_000_000;

fn codec() -> TokenCodec {
    TokenCodec::new(b"a test key".to_vec())
}

fn claims(exp: Option<u64>) -> ClaimSet {
    ClaimSet { subject: Some("alice".to_string()), issuer: None, issued_at: None, expires_at: exp }
}

#[test]
fn round_trip_keeps_subject() {
    let c = codec();
    let tok = c.issue_at("alice", T0).unwrap();
    let got = c.verify_at(&tok, T0 + 10).unwrap();
    assert_eq!(got.subject, Some("alice".to_string()));
    assert_eq!(got.issuer, Some("serve_backend".to_string()));
    assert_eq!(got.issued_at, Some(T0));
    assert_eq!(got.expires_at, Some(T0 + TOKEN_LIFESPAN));
}

#[test]
fn round_trip_with_current_clock() {
    let c = codec();
    let tok = c.issue("bob").unwrap();
    assert_eq!(c.verify(&tok).unwrap().subject, Some("bob".to_string()));
}

#[test]
fn expiry_is_inclusive() {
    let c = codec();
    let tok = c.issue_at("alice", T0).unwrap();
    assert!(c.verify_at(&tok, T0 + 600).is_ok());
    let e = c.verify_at(&tok, T0 + 601).err().unwrap();
    assert!(matches!(e.kind, ErrorKind::TokenFailure(ref r) if r == "Token expired 1 second(s) ago"));
}

#[test]
fn check_claims_boundary() {
    assert!(check_claims(claims(Some(100)), true, 100).is_ok());
    let e = check_claims(claims(Some(100)), true, 101).err().unwrap();
    assert!(matches!(e.kind, ErrorKind::TokenFailure(ref r) if r == "Token expired 1 second(s) ago"));
    let e = check_claims(claims(Some(100)), true, 1234).err().unwrap();
    assert!(matches!(e.kind, ErrorKind::TokenFailure(ref r) if r == "Token expired 1134 second(s) ago"));
}

#[test]
fn signature_is_checked_before_expiry() {
    let e = check_claims(claims(Some(100)), false, 5000).err().unwrap();
    assert!(matches!(e.kind, ErrorKind::TokenFailure(ref r) if r == "Token verification failed"));
}

#[test]
fn signed_claims_without_expiry_are_token_failure() {
    let e = check_claims(claims(None), true, 1).err().unwrap();
    assert!(matches!(e.kind, ErrorKind::TokenFailure(ref r) if r == "Token carries no expiry"));
}

#[test]
fn tampered_signature_is_token_failure() {
    let c = codec();
    let tok = c.issue_at("alice", T0).unwrap();
    let sig_start = tok.rfind('.').unwrap() + 1;
    let mut bytes = tok.clone().into_bytes();
    bytes[sig_start] = if bytes[sig_start] == b'A' { b'B' } else { b'A' };
    let bad = String::from_utf8(bytes).unwrap();
    assert_ne!(bad, tok);
    let e = c.verify_at(&bad, T0).err().unwrap();
    assert!(matches!(e.kind, ErrorKind::TokenFailure(ref r) if r == "Token verification failed"));
}

#[test]
fn other_key_is_token_failure() {
    let tok = codec().issue_at("alice", T0).unwrap();
    let other = TokenCodec::new(b"another key".to_vec());
    let e = other.verify_at(&tok, T0).err().unwrap();
    assert!(matches!(e.kind, ErrorKind::TokenFailure(_)));
}

#[test]
fn garbage_is_malformed() {
    let c = codec();
    let e = c.verify_at("garbage", T0).err().unwrap();
    assert!(matches!(e.kind, ErrorKind::MalformedRequest(ref r) if r == "Could not parse JWT: \"garbage\""));
    let e = c.verify_at("@@@.###.sig", T0).err().unwrap();
    assert!(matches!(e.kind, ErrorKind::MalformedRequest(_)));
}

#[test]
fn custom_lifespan() {
    let c = TokenCodec::with_lifespan(b"k".to_vec(), 5);
    assert_eq!(c.lifespan_secs(), 5);
    let tok = c.issue_at("carol", T0).unwrap();
    assert!(c.verify_at(&tok, T0 + 5).is_ok());
    assert!(c.verify_at(&tok, T0 + 6).is_err());
}

#[test]
fn every_signature_byte_is_covered() {
    let c = codec();
    let tok = c.issue_at("alice", T0).unwrap();
    let sig_start = tok.rfind('.').unwrap() + 1;
    for i in sig_start..tok.len() {
        let mut bytes = tok.clone().into_bytes();
        bytes[i] = if bytes[i] == b'x' { b'y' } else { b'x' };
        let bad = String::from_utf8(bytes).unwrap();
        let e = c.verify_at(&bad, T0).err().unwrap();
        assert!(matches!(e.kind, ErrorKind::TokenFailure(_)));
    }
}

#[test]
fn clock_out_of_range_is_refused() {
    let e = codec().issue_at("alice", u64::MAX - 599).err().unwrap();
    assert!(matches!(e.kind, ErrorKind::Msg(ref r) if r == "Clock out of range"));
    assert!(codec().issue_at("alice", u64::MAX - 600).is_ok());
}

#[test]
fn equal_logins_give_equal_tokens() {
    let a = codec().issue_at("alice", T0).unwrap();
    let b = codec().issue_at("alice", T0).unwrap();
    assert_eq!(a, b);
}
