//! Credential extraction: reads the `Authorization` header of a request
//! according to the scheme in force and yields the credential it carries.
use vstd::prelude::*;
use crate::error::{Error, ErrorKind, reason_of};
use crate::text::{cut_after_scheme_is_safe, cut_after_scheme_safe, opt_seq, opt_str, scheme_payload};
use iron::headers::{Authorization, Basic as HyperBasic, Bearer, Header};

verus! {

/// The authentication scheme a request is held to.
#[derive(PartialEq, Eq, Structural, Clone, Copy, Debug)]
pub enum Scheme {
    Password,
    Bearer,
}

/// The fields of an HTTP Basic credential: a user name and, where the client
/// sent one, a password.
#[derive(Debug)]
pub struct Basic {
    pub username: String,
    pub password: Option<String>,
}

/// A user name with the password presented for it.
#[derive(Debug)]
pub struct Login {
    pub username: String,
    pub password: String,
}

/// What a request presents for its scheme.
#[derive(Debug)]
pub enum Credential {
    Password(Login),
    Bearer(String),
}

/// The user name and password that hyper reads from an `Authorization`
/// header value of the Basic scheme, where it reads one.
pub uninterp spec fn basic_header_of(header: Seq<char>) -> Option<(Seq<char>, Option<Seq<char>>)>;

/// Relies on hyper's `Header::parse_header` for `Authorization<Bearer>`
/// (re-exported by iron): a value that begins with "Bearer" and has more than
/// one byte after it gives the text from the second byte after "Bearer" on.
/// hyper cuts the value at that byte, hence the `requires`.
#[verifier::external_body]
fn parse_bearer_header(header: &str) -> (r: Option<String>)
    requires
        cut_after_scheme_safe(header@, "Bearer"@),
    ensures
        opt_seq(r) == scheme_payload(header@, "Bearer"@),
{
    let raw = [header.as_bytes().to_vec()];
    <Authorization<Bearer> as Header>::parse_header(&raw).ok().map(|a| a.0.token)
}

/// Relies on hyper's `Header::parse_header` for `Authorization<Basic>`
/// (re-exported by iron), which base64-decodes the value after "Basic" and
/// splits it at ':'. The result is a function of the value. hyper cuts the
/// value one byte after "Basic", hence the `requires`.
#[verifier::external_body]
fn parse_basic_header(header: &str) -> (r: Option<Basic>)
    requires
        cut_after_scheme_safe(header@, "Basic"@),
    ensures
        match r {
            Some(b) => basic_header_of(header@) == Some(b.view_pair()),
            None => basic_header_of(header@) is None,
        },
{
    let raw = [header.as_bytes().to_vec()];
    <Authorization<HyperBasic> as Header>::parse_header(&raw)
        .ok()
        .map(|a| Basic { username: a.0.username, password: a.0.password })
}

/// The bearer token an `Authorization` header value holds, if any.
pub open spec fn bearer_read_of(header: Seq<char>) -> Option<Seq<char>> {
    if cut_after_scheme_safe(header, "Bearer"@) {
        scheme_payload(header, "Bearer"@)
    } else {
        None
    }
}

/// The Basic credential an `Authorization` header value holds, if any.
pub open spec fn basic_read_of(header: Seq<char>) -> Option<(Seq<char>, Option<Seq<char>>)> {
    if cut_after_scheme_safe(header, "Basic"@) {
        basic_header_of(header)
    } else {
        None
    }
}

impl Basic {
    pub open spec fn view_pair(&self) -> (Seq<char>, Option<Seq<char>>) {
        (self.username@, opt_seq(self.password))
    }

    /// Reads a Basic credential from an `Authorization` header value.
    pub fn from_header(header: &str) -> (r: Option<Basic>)
        ensures
            match r {
                Some(b) => basic_read_of(header@) == Some(b.view_pair()),
                None => basic_read_of(header@) is None,
            },
    {
        proof { reveal_strlit("Basic"); }
        if cut_after_scheme_is_safe(header, "Basic") {
            parse_basic_header(header)
        } else {
            None
        }
    }
}

/// Reads a bearer token from an `Authorization` header value.
pub fn bearer_from_header(header: &str) -> (r: Option<String>)
    ensures
        opt_seq(r) == bearer_read_of(header@),
{
    proof { reveal_strlit("Bearer"); }
    if cut_after_scheme_is_safe(header, "Bearer") {
        parse_bearer_header(header)
    } else {
        None
    }
}

impl Login {
    /// A login from a Basic credential; one without a password is malformed.
    pub fn try_from(b: Basic) -> (r: Result<Login, Error>)
        ensures
            match b.password {
                Some(p) => r matches Ok(l) && l.username@ == b.username@ && l.password@ == p@,
                None => r matches Err(e) && e.kind is MalformedRequest
                    && reason_of(e.kind) == "Password not supplied by client"@,
            },
    {
        match b.password {
            Some(p) => Ok(Login { username: b.username, password: p }),
            None => {
                proof { reveal_strlit("Password not supplied by client"); }
                Err(Error::new(ErrorKind::MalformedRequest(
                    String::from_str("Password not supplied by client"),
                )))
            },
        }
    }
}

pub open spec fn missing_token_reason() -> Seq<char> {
    "Missing authentication tokens"@
}

pub open spec fn missing_basic_reason() -> Seq<char> {
    "Client did not provide Basic header"@
}

/// Whether `r` is what extracting a credential for `scheme` from the header
/// value `header` (if the request has one) gives.
pub open spec fn extract_spec(r: Result<Credential, Error>, scheme: Scheme, header: Option<Seq<char>>) -> bool {
    match scheme {
        Scheme::Bearer => {
            let payload = match header {
                Some(h) => bearer_read_of(h),
                None => None,
            };
            match payload {
                Some(tok) => r matches Ok(Credential::Bearer(t)) && t@ == tok,
                None => r matches Err(e) && e.kind is TokenFailure
                    && reason_of(e.kind) == missing_token_reason(),
            }
        },
        Scheme::Password => {
            let basic = match header {
                Some(h) => basic_read_of(h),
                None => None,
            };
            match basic {
                None => r matches Err(e) && e.kind is PasswordFailure
                    && reason_of(e.kind) == missing_basic_reason(),
                Some((user, None)) => r matches Err(e) && e.kind is MalformedRequest
                    && reason_of(e.kind) == "Password not supplied by client"@,
                Some((user, Some(pass))) => r matches Ok(Credential::Password(l))
                    && l.username@ == user && l.password@ == pass,
            }
        },
    }
}

/// Reads the credential of `scheme` from the `Authorization` header value, if
/// the request has one.
pub fn extract(scheme: Scheme, header: Option<&str>) -> (r: Result<Credential, Error>)
    ensures
        extract_spec(r, scheme, opt_str(header)),
{
    match scheme {
        Scheme::Bearer => {
            let payload = match header {
                Some(h) => bearer_from_header(h),
                None => None,
            };
            match payload {
                Some(tok) => Ok(Credential::Bearer(tok)),
                None => {
                    proof { reveal_strlit("Missing authentication tokens"); }
                    Err(Error::new(ErrorKind::TokenFailure(
                        String::from_str("Missing authentication tokens"),
                    )))
                },
            }
        },
        Scheme::Password => {
            let basic = match header {
                Some(h) => Basic::from_header(h),
                None => None,
            };
            match basic {
                None => {
                    proof { reveal_strlit("Client did not provide Basic header"); }
                    Err(Error::new(ErrorKind::PasswordFailure(
                        String::from_str("Client did not provide Basic header"),
                    )))
                },
                Some(b) => match Login::try_from(b) {
                    Ok(l) => Ok(Credential::Password(l)),
                    Err(e) => Err(e),
                },
            }
        },
    }
}

/// Missing credentials: a bearer request without a header fails as a token
/// failure saying the token is missing; a password request without a Basic
/// header fails as a password failure; and one whose Basic credential has a
/// user name but no password is a malformed request.
pub proof fn lemma_missing_credentials(r: Result<Credential, Error>, header: Option<Seq<char>>)
    ensures
        extract_spec(r, Scheme::Bearer, None) ==> (r matches Err(e) && e.kind is TokenFailure
            && reason_of(e.kind) == missing_token_reason()),
        extract_spec(r, Scheme::Password, None) ==> (r matches Err(e) && e.kind is PasswordFailure
            && reason_of(e.kind) == missing_basic_reason()),
        (header matches Some(h) && basic_read_of(h) matches Some((_, None))
            && extract_spec(r, Scheme::Password, header)) ==> (r matches Err(e)
            && e.kind is MalformedRequest),
{
}

} // verus!
