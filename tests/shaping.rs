use serve_backend::error::{Error, ErrorKind, Response};
use serve_backend::shaper::{shape, IgnoreClientError, Level, LogError};
use serve_backend::user::User;

#[test]
fn client_failures_are_not_logged() {
    let s = shape(Error::new(ErrorKind::TokenFailure("x".to_string())));
    assert_eq!(s.response.status, 401);
    assert!(s.log.is_empty());
    let s = shape(Error::new(ErrorKind::JsonDecodeError));
    assert_eq!(s.response, Response { status: 400, challenge: None });
    assert!(s.log.is_empty());
}

#[test]
fn server_failures_are_logged_with_causes() {
    let e = Error::new(ErrorKind::DatabaseError)
        .chain(ErrorKind::ObjectIdError)
        .chain(ErrorKind::Msg("request failed".to_string()));
    let s = shape(e);
    assert_eq!(s.response.status, 500);
    let levels: Vec<Level> = s.log.iter().map(|l| l.level).collect();
    assert_eq!(levels, vec![Level::Error, Level::Info, Level::Info, Level::Trace]);
    assert_eq!(s.log[0].message, "request failed");
    assert_eq!(s.log[1].message, "caused by: Error generating ObjectId");
    assert_eq!(s.log[2].message, "caused by: Database error");
    assert_eq!(s.log[3].message, "request failed <- Error generating ObjectId <- Database error");
}

#[test]
fn ignore_client_error_passes_server_errors_on() {
    assert!(IgnoreClientError.catch(Error::new(ErrorKind::Msg("m".to_string()))).is_err());
    let r = IgnoreClientError.catch(Error::new(ErrorKind::MalformedRequest("m".to_string())));
    assert_eq!(r.ok(), Some(Response { status: 400, challenge: None }));
}

#[test]
fn log_error_without_causes() {
    let log = LogError.catch(&Error::new(ErrorKind::DatabaseError));
    assert_eq!(log.len(), 2);
    assert_eq!(log[0].level, Level::Error);
    assert_eq!(log[1].level, Level::Trace);
}

#[test]
fn user_validation() {
    let ok = User::new(Some("Ada".to_string()), Some("Lovelace".to_string()));
    assert!(ok.validate().is_ok());
    let e = User::new(None, Some("L".to_string())).validate().err().unwrap();
    assert!(matches!(e.kind, ErrorKind::MalformedRequest(ref r) if r == "missing required JSON object: first"));
    let e = User::new(None, None).validate().err().unwrap();
    assert!(matches!(e.kind, ErrorKind::MalformedRequest(ref r) if r == "missing required JSON object: last"));
    assert_eq!(e.causes.len(), 1);
    let s = shape(e);
    assert_eq!(s.response.status, 400);
    assert!(s.log.is_empty());
}
