//! The closed set of failures and how each one maps onto an HTTP response.
use vstd::prelude::*;

verus! {

/// HTTP status codes used by the service.
pub const STATUS_BAD_REQUEST: u16 = 400;
pub const STATUS_UNAUTHORIZED: u16 = 401;
pub const STATUS_INTERNAL_SERVER_ERROR: u16 = 500;

/// Every kind of failure the request lifecycle can produce. The
/// authentication kinds carry a human-readable reason.
#[derive(Debug)]
pub enum ErrorKind {
    TokenFailure(String),
    PasswordFailure(String),
    MalformedRequest(String),
    DatabaseError,
    ObjectIdError,
    JsonDecodeError,
    JsonEncodeError,
    Msg(String),
}

/// The scheme a 401 response asks the client to retry with.
#[derive(PartialEq, Eq, Structural, Clone, Copy, Debug)]
pub enum Challenge {
    Bearer,
    Basic,
}

/// A failure: its kind, and the kinds it was caused by, nearest first.
#[derive(Debug)]
pub struct Error {
    pub kind: ErrorKind,
    pub causes: Vec<ErrorKind>,
}

/// The transport-level answer for a failure: a status code and, for 401, the
/// challenge that goes into the `WWW-Authenticate` header.
#[derive(PartialEq, Eq, Structural, Clone, Copy, Debug)]
pub struct Response {
    pub status: u16,
    pub challenge: Option<Challenge>,
}

pub open spec fn status_of(k: ErrorKind) -> u16 {
    match k {
        ErrorKind::TokenFailure(_) | ErrorKind::PasswordFailure(_) => STATUS_UNAUTHORIZED,
        ErrorKind::MalformedRequest(_) | ErrorKind::JsonEncodeError
        | ErrorKind::JsonDecodeError => STATUS_BAD_REQUEST,
        ErrorKind::DatabaseError | ErrorKind::ObjectIdError
        | ErrorKind::Msg(_) => STATUS_INTERNAL_SERVER_ERROR,
    }
}

pub open spec fn challenge_of(k: ErrorKind) -> Option<Challenge> {
    match k {
        ErrorKind::TokenFailure(_) => Some(Challenge::Bearer),
        ErrorKind::PasswordFailure(_) => Some(Challenge::Basic),
        _ => None,
    }
}

pub open spec fn response_of(k: ErrorKind) -> Response {
    Response { status: status_of(k), challenge: challenge_of(k) }
}

/// What a kind reads as in a log line.
pub open spec fn message_of(k: ErrorKind) -> Seq<char> {
    match k {
        ErrorKind::TokenFailure(r) => "Could not authenticate client token: "@ + r@,
        ErrorKind::PasswordFailure(r) => "Password authentication failed: "@ + r@,
        ErrorKind::MalformedRequest(r) => "Malformed request: "@ + r@,
        ErrorKind::DatabaseError => "Database error"@,
        ErrorKind::ObjectIdError => "Error generating ObjectId"@,
        ErrorKind::JsonDecodeError => "Error decoding JSON data"@,
        ErrorKind::JsonEncodeError => "Error encoding JSON data"@,
        ErrorKind::Msg(m) => m@,
    }
}

/// The reason a kind carries; empty for the kinds that carry none.
pub open spec fn reason_of(k: ErrorKind) -> Seq<char> {
    match k {
        ErrorKind::TokenFailure(r) => r@,
        ErrorKind::PasswordFailure(r) => r@,
        ErrorKind::MalformedRequest(r) => r@,
        ErrorKind::Msg(r) => r@,
        _ => Seq::empty(),
    }
}

pub open spec fn is_server_error(status: u16) -> bool {
    500 <= status && status < 600
}

impl Challenge {
    /// The value of the `WWW-Authenticate` header for this challenge.
    pub fn header_value(&self) -> (r: &'static str)
        ensures
            *self == Challenge::Bearer ==> r@ == "Bearer realm=\"serve_backend\""@,
            *self == Challenge::Basic ==> r@ == "Basic realm=\"serve_backend\""@,
    {
        match self {
            Challenge::Bearer => {
                proof { reveal_strlit("Bearer realm=\"serve_backend\""); }
                "Bearer realm=\"serve_backend\""
            },
            Challenge::Basic => {
                proof { reveal_strlit("Basic realm=\"serve_backend\""); }
                "Basic realm=\"serve_backend\""
            },
        }
    }
}

impl ErrorKind {
    pub fn status(&self) -> (r: u16)
        ensures
            r == status_of(*self),
    {
        match self {
            ErrorKind::TokenFailure(_) | ErrorKind::PasswordFailure(_) => STATUS_UNAUTHORIZED,
            ErrorKind::MalformedRequest(_) | ErrorKind::JsonEncodeError
            | ErrorKind::JsonDecodeError => STATUS_BAD_REQUEST,
            ErrorKind::DatabaseError | ErrorKind::ObjectIdError
            | ErrorKind::Msg(_) => STATUS_INTERNAL_SERVER_ERROR,
        }
    }

    pub fn challenge(&self) -> (r: Option<Challenge>)
        ensures
            r == challenge_of(*self),
    {
        match self {
            ErrorKind::TokenFailure(_) => Some(Challenge::Bearer),
            ErrorKind::PasswordFailure(_) => Some(Challenge::Basic),
            _ => None,
        }
    }

    /// The kind as it reads in a log line.
    pub fn message(&self) -> (r: String)
        ensures
            r@ == message_of(*self),
    {
        match self {
            ErrorKind::TokenFailure(r) => {
                String::from_str("Could not authenticate client token: ").concat(r.as_str())
            },
            ErrorKind::PasswordFailure(r) => {
                String::from_str("Password authentication failed: ").concat(r.as_str())
            },
            ErrorKind::MalformedRequest(r) => {
                String::from_str("Malformed request: ").concat(r.as_str())
            },
            ErrorKind::DatabaseError => String::from_str("Database error"),
            ErrorKind::ObjectIdError => String::from_str("Error generating ObjectId"),
            ErrorKind::JsonDecodeError => String::from_str("Error decoding JSON data"),
            ErrorKind::JsonEncodeError => String::from_str("Error encoding JSON data"),
            ErrorKind::Msg(m) => m.clone(),
        }
    }
}

impl Error {
    /// A failure with no cause behind it.
    pub fn new(kind: ErrorKind) -> (r: Error)
        ensures
            r.kind == kind,
            r.causes@.len() == 0,
    {
        Error { kind, causes: Vec::new() }
    }

    /// Wraps this failure as the cause of a new one of `kind`.
    pub fn chain(self, kind: ErrorKind) -> (r: Error)
        ensures
            r.kind == kind,
            r.causes@ == seq![self.kind].add(self.causes@),
    {
        let Error { kind: inner, causes } = self;
        let mut all: Vec<ErrorKind> = Vec::new();
        all.push(inner);
        let mut rest = causes;
        all.append(&mut rest);
        Error { kind, causes: all }
    }

    /// Maps the failure's kind to its HTTP status code.
    pub fn get_status(&self) -> (r: u16)
        ensures
            r == status_of(self.kind),
    {
        self.kind.status()
    }

    /// The response a client receives for this failure.
    pub fn get_response(&self) -> (r: Response)
        ensures
            r == response_of(self.kind),
    {
        Response { status: self.get_status(), challenge: self.kind.challenge() }
    }
}

/// The status mapping is total and follows the table: token and password
/// failures are 401 with a Bearer and a Basic challenge respectively;
/// malformed requests and JSON failures are 400; database, object id and
/// generic failures are 500; only 401 carries a challenge.
pub proof fn lemma_status_table(k: ErrorKind)
    ensures
        status_of(k) == STATUS_UNAUTHORIZED || status_of(k) == STATUS_BAD_REQUEST
            || status_of(k) == STATUS_INTERNAL_SERVER_ERROR,
        (status_of(k) == STATUS_UNAUTHORIZED) <==> (k is TokenFailure || k is PasswordFailure),
        (status_of(k) == STATUS_BAD_REQUEST) <==> (k is MalformedRequest || k is JsonEncodeError
            || k is JsonDecodeError),
        (status_of(k) == STATUS_INTERNAL_SERVER_ERROR) <==> (k is DatabaseError || k is ObjectIdError
            || k is Msg),
        (challenge_of(k) == Some(Challenge::Bearer)) <==> k is TokenFailure,
        (challenge_of(k) == Some(Challenge::Basic)) <==> k is PasswordFailure,
        challenge_of(k) is None <==> status_of(k) != STATUS_UNAUTHORIZED,
        is_server_error(status_of(k)) <==> status_of(k) == STATUS_INTERNAL_SERVER_ERROR,
{
}

} // verus!
