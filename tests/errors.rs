use serve_backend::error::{Challenge, Error, ErrorKind, Response};

fn kinds() -> Vec<ErrorKind> {
    vec![
        ErrorKind::TokenFailure("t".to_string()),
        ErrorKind::PasswordFailure("p".to_string()),
        ErrorKind::MalformedRequest("m".to_string()),
        ErrorKind::DatabaseError,
        ErrorKind::ObjectIdError,
        ErrorKind::JsonDecodeError,
        ErrorKind::JsonEncodeError,
        ErrorKind::Msg("x".to_string()),
    ]
}

#[test]
fn status_table_rows() {
    let expected: Vec<(u16, Option<Challenge>)> = vec![
        (401, Some(Challenge::Bearer)),
        (401, Some(Challenge::Basic)),
        (400, None),
        (500, None),
        (500, None),
        (400, None),
        (400, None),
        (500, None),
    ];
    for (k, (status, challenge)) in kinds().into_iter().zip(expected.into_iter()) {
        let e = Error::new(k);
        assert_eq!(e.get_status(), status);
        assert_eq!(e.get_response(), Response { status, challenge });
    }
}

#[test]
fn challenge_header_values() {
    assert_eq!(Challenge::Bearer.header_value(), "Bearer realm=\"serve_backend\"");
    assert_eq!(Challenge::Basic.header_value(), "Basic realm=\"serve_backend\"");
}

#[test]
fn kind_messages() {
    assert_eq!(
        ErrorKind::TokenFailure("gone".to_string()).message(),
        "Could not authenticate client token: gone"
    );
    assert_eq!(
        ErrorKind::PasswordFailure("no".to_string()).message(),
        "Password authentication failed: no"
    );
    assert_eq!(ErrorKind::MalformedRequest("bad".to_string()).message(), "Malformed request: bad");
    assert_eq!(ErrorKind::DatabaseError.message(), "Database error");
    assert_eq!(ErrorKind::Msg("plain".to_string()).message(), "plain");
}

#[test]
fn chain_puts_old_kind_first_among_causes() {
    let e = Error::new(ErrorKind::DatabaseError).chain(ErrorKind::Msg("outer".to_string()));
    assert!(matches!(e.kind, ErrorKind::Msg(ref m) if m == "outer"));
    assert_eq!(e.causes.len(), 1);
    assert!(matches!(e.causes[0], ErrorKind::DatabaseError));
}
