use serve_backend::credentials::{bearer_from_header, extract, Basic, Credential, Login, Scheme};
use serve_backend::error::ErrorKind;

#[test]
fn bearer_token_passes_through_unparsed() {
    match extract(Scheme::Bearer, Some("Bearer not.a.jwt")) {
        Ok(Credential::Bearer(t)) => assert_eq!(t, "not.a.jwt"),
        _ => panic!("expected a bearer credential"),
    }
}

#[test]
fn bearer_without_header_is_token_failure() {
    let e = extract(Scheme::Bearer, None).err().unwrap();
    assert!(matches!(e.kind, ErrorKind::TokenFailure(ref r) if r.starts_with("Missing")));
}

#[test]
fn bearer_with_other_scheme_is_token_failure() {
    let e = extract(Scheme::Bearer, Some("Basic YWxpY2U6c2VjcmV0")).err().unwrap();
    assert!(matches!(e.kind, ErrorKind::TokenFailure(_)));
}

#[test]
fn basic_credential_decodes() {
    // "alice:secret"
    let b = Basic::from_header("Basic YWxpY2U6c2VjcmV0").unwrap();
    assert_eq!(b.username, "alice");
    assert_eq!(b.password, Some("secret".to_string()));
    match extract(Scheme::Password, Some("Basic YWxpY2U6c2VjcmV0")) {
        Ok(Credential::Password(l)) => {
            assert_eq!(l.username, "alice");
            assert_eq!(l.password, "secret");
        }
        _ => panic!("expected a password credential"),
    }
}

#[test]
fn basic_password_stops_at_second_colon() {
    // "bob:pw:extra"
    let b = Basic::from_header("Basic Ym9iOnB3OmV4dHJh").unwrap();
    assert_eq!(b.username, "bob");
    assert_eq!(b.password, Some("pw".to_string()));
}

#[test]
fn password_without_header_is_password_failure() {
    let e = extract(Scheme::Password, None).err().unwrap();
    assert!(matches!(e.kind, ErrorKind::PasswordFailure(_)));
}

#[test]
fn password_with_bad_base64_is_password_failure() {
    let e = extract(Scheme::Password, Some("Basic !!!")).err().unwrap();
    assert!(matches!(e.kind, ErrorKind::PasswordFailure(_)));
}

#[test]
fn username_without_password_is_malformed() {
    // "alice"
    let e = extract(Scheme::Password, Some("Basic YWxpY2U=")).err().unwrap();
    assert!(matches!(e.kind, ErrorKind::MalformedRequest(ref r) if r == "Password not supplied by client"));
    let e = Login::try_from(Basic { username: "alice".to_string(), password: None }).err().unwrap();
    assert!(matches!(e.kind, ErrorKind::MalformedRequest(_)));
}

#[test]
fn password_with_bad_utf8_is_password_failure() {
    // bytes 0xff ':'
    let e = extract(Scheme::Password, Some("Basic /zo=")).err().unwrap();
    assert!(matches!(e.kind, ErrorKind::PasswordFailure(_)));
}

#[test]
fn bearer_value_is_cut_one_byte_after_the_scheme() {
    assert_eq!(bearer_from_header("Bearer abc"), Some("abc".to_string()));
    assert_eq!(bearer_from_header("Bearerxabc"), Some("abc".to_string()));
    assert_eq!(bearer_from_header("Bearer "), None);
    assert_eq!(bearer_from_header("Basic abc"), None);
}

#[test]
fn multibyte_after_scheme_reads_as_missing() {
    assert_eq!(bearer_from_header("Bearer\u{e9}abc"), None);
    assert!(Basic::from_header("Basic\u{e9}abc").is_none());
    let e = extract(Scheme::Bearer, Some("Bearer\u{e9}abc")).err().unwrap();
    assert!(matches!(e.kind, ErrorKind::TokenFailure(_)));
}
