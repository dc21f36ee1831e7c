//! The authentication guard that runs before every handler: it picks the
//! scheme from the request path, extracts the credential, and either issues a
//! token (login) or verifies the presented one.
use vstd::prelude::*;
use crate::credentials::{Credential, Login, Scheme, basic_read_of, bearer_read_of, extract};
use crate::error::{Error, ErrorKind, reason_of};
use crate::text::{opt_str, find_char, index_of, same_text};
use crate::token::{ClaimSet, TokenCodec, issue_spec, now_seconds, verify_spec};

verus! {

/// The first segment of a request path, leading '/' aside.
pub open spec fn first_segment(path: Seq<char>) -> Seq<char> {
    let p = if path.len() > 0 && path[0] == '/' { path.subrange(1, path.len() as int) } else { path };
    p.subrange(0, index_of(p, '/', 0))
}

/// Requests under the login path use the password scheme; all others bear a token.
pub open spec fn scheme_of_path(path: Seq<char>) -> Scheme {
    if first_segment(path) == "login"@ { Scheme::Password } else { Scheme::Bearer }
}

pub fn scheme_for(path: &str) -> (r: Scheme)
    ensures
        r == scheme_of_path(path@),
{
    let n = path.unicode_len();
    let rest = if n > 0 && path.get_char(0) == '/' { path.substring_char(1, n) } else { path };
    let end = find_char(rest, '/', 0);
    let seg = rest.substring_char(0, end);
    proof { reveal_strlit("login"); }
    if same_text(seg, "login") { Scheme::Password } else { Scheme::Bearer }
}

pub open spec fn incorrect_password_reason() -> Seq<char> {
    "Incorrect password"@
}

pub open spec fn clock_reason() -> Seq<char> {
    "Clock out of range"@
}

/// Whether `r` is what a login of `user` with `pass` gives at `now`.
pub open spec fn login_spec(
    r: Result<String, Error>,
    user: Seq<char>,
    pass: Seq<char>,
    expected: Seq<char>,
    codec: TokenCodec,
    now: u64,
) -> bool {
    if pass != expected {
        r matches Err(e) && e.kind is PasswordFailure && reason_of(e.kind) == incorrect_password_reason()
    } else if now as int + codec.lifespan() as int > u64::MAX as int {
        r matches Err(e) && e.kind is Msg && reason_of(e.kind) == clock_reason()
    } else {
        issue_spec(r, user, now, codec.lifespan(), codec.key())
    }
}

impl Login {
    /// Compares the presented password with the expected one.
    pub fn check_password(&self, expected: &str) -> (r: Result<(), Error>)
        ensures
            self.password@ == expected@ ==> r is Ok,
            self.password@ != expected@ ==> (r matches Err(e) && e.kind is PasswordFailure
                && reason_of(e.kind) == incorrect_password_reason()),
    {
        if same_text(self.password.as_str(), expected) {
            Ok(())
        } else {
            proof { reveal_strlit("Incorrect password"); }
            Err(Error::new(ErrorKind::PasswordFailure(String::from_str("Incorrect password"))))
        }
    }

    /// Issues a token to the user as of `now`, once the password matches.
    pub fn get_token(&self, codec: &TokenCodec, expected: &str, now: u64) -> (r: Result<String, Error>)
        ensures
            login_spec(r, self.username@, self.password@, expected@, *codec, now),
    {
        match self.check_password(expected) {
            Err(e) => return Err(e),
            Ok(()) => {},
        }
        codec.issue_at(self.username.as_str(), now)
    }
}

/// How a request leaves the guard when it passes.
#[derive(Debug)]
pub enum GuardOutcome {
    /// A token was verified; its claims are the request's identity.
    Authenticated(ClaimSet),
    /// A login succeeded; the token is the response body and no handler runs.
    TokenIssued(String),
}

/// The claims-or-error part of a guard result, where it is not an issued token.
pub open spec fn bearer_part(r: Result<GuardOutcome, Error>) -> Option<Result<ClaimSet, Error>> {
    match r {
        Ok(GuardOutcome::Authenticated(c)) => Some(Ok(c)),
        Ok(GuardOutcome::TokenIssued(_)) => None,
        Err(e) => Some(Err(e)),
    }
}

/// The token-or-error part of a guard result, where it is not an identity.
pub open spec fn login_part(r: Result<GuardOutcome, Error>) -> Option<Result<String, Error>> {
    match r {
        Ok(GuardOutcome::TokenIssued(t)) => Some(Ok(t)),
        Ok(GuardOutcome::Authenticated(_)) => None,
        Err(e) => Some(Err(e)),
    }
}

/// The guard's configuration: the token codec, and the password that the
/// credential store holds for every user.
pub struct Authenticate {
    pub codec: TokenCodec,
    pub expected_password: String,
}

impl Authenticate {
    /// Whether `r` is what the guard gives for a request to `path` with the
    /// given `Authorization` header value at `now`.
    pub open spec fn guard_spec(
        &self,
        r: Result<GuardOutcome, Error>,
        path: Seq<char>,
        header: Option<Seq<char>>,
        now: u64,
    ) -> bool {
        match scheme_of_path(path) {
            Scheme::Bearer => {
                let payload = match header {
                    Some(h) => bearer_read_of(h),
                    None => None,
                };
                match payload {
                    None => r matches Err(e) && e.kind is TokenFailure
                        && reason_of(e.kind) == "Missing authentication tokens"@,
                    Some(tok) => bearer_part(r) matches Some(v)
                        && verify_spec(v, tok, self.codec.key(), now),
                }
            },
            Scheme::Password => {
                let basic = match header {
                    Some(h) => basic_read_of(h),
                    None => None,
                };
                match basic {
                    None => r matches Err(e) && e.kind is PasswordFailure
                        && reason_of(e.kind) == "Client did not provide Basic header"@,
                    Some((user, None)) => r matches Err(e) && e.kind is MalformedRequest
                        && reason_of(e.kind) == "Password not supplied by client"@,
                    Some((user, Some(pass))) => login_part(r) matches Some(v)
                        && login_spec(v, user, pass, self.expected_password@, self.codec, now),
                }
            },
        }
    }

    /// Runs the guard on a request to `path` whose `Authorization` header value
    /// is `header`, as of `now`.
    pub fn before_at(&self, path: &str, header: Option<&str>, now: u64) -> (r: Result<GuardOutcome, Error>)
        ensures
            self.guard_spec(r, path@, opt_str(header), now),
    {
        let scheme = scheme_for(path);
        let cred = extract(scheme, header);
        match cred {
            Err(e) => Err(e),
            Ok(Credential::Bearer(tok)) => match self.codec.verify_at(tok.as_str(), now) {
                Ok(c) => Ok(GuardOutcome::Authenticated(c)),
                Err(e) => Err(e),
            },
            Ok(Credential::Password(login)) => {
                match login.get_token(&self.codec, self.expected_password.as_str(), now) {
                    Ok(t) => Ok(GuardOutcome::TokenIssued(t)),
                    Err(e) => Err(e),
                }
            },
        }
    }

    /// Runs the guard as of the current time, read once.
    pub fn before(&self, path: &str, header: Option<&str>) -> (r: Result<GuardOutcome, Error>)
        ensures
            exists|now: u64| #[trigger] self.guard_spec(r, path@, opt_str(header), now),
    {
        let now = now_seconds();
        self.before_at(path, header, now)
    }
}

/// A request without an `Authorization` header fails at the guard: as a
/// token failure saying the token is missing on a bearer path, and as a
/// password failure on the login path.
pub proof fn lemma_guard_without_header(g: Authenticate, path: Seq<char>, now: u64, r: Result<GuardOutcome, Error>)
    requires
        g.guard_spec(r, path, None, now),
    ensures
        scheme_of_path(path) == Scheme::Bearer ==> (r matches Err(e) && e.kind is TokenFailure
            && reason_of(e.kind) == "Missing authentication tokens"@),
        scheme_of_path(path) == Scheme::Password ==> (r matches Err(e) && e.kind is PasswordFailure),
{
}

} // verus!
