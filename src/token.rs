//! The token codec: signs a claim set into a token string, and reads a token
//! string back into a claim set after checking its signature and its expiry.
use vstd::prelude::*;
use crate::error::{Error, ErrorKind, reason_of};
use crate::text::{contains_char, decimal, decimal_of, opt_seq};

verus! {

/// How long an issued token stays valid, in seconds.
pub const TOKEN_LIFESPAN: u64 = 600;

/// The claims a token carries.
#[derive(Debug)]
pub struct ClaimSet {
    pub subject: Option<String>,
    pub issuer: Option<String>,
    pub issued_at: Option<u64>,
    pub expires_at: Option<u64>,
}

pub ghost struct ClaimsView {
    pub subject: Option<Seq<char>>,
    pub issuer: Option<Seq<char>>,
    pub issued_at: Option<u64>,
    pub expires_at: Option<u64>,
}

impl View for ClaimSet {
    type V = ClaimsView;

    open spec fn view(&self) -> ClaimsView {
        ClaimsView {
            subject: opt_seq(self.subject),
            issuer: opt_seq(self.issuer),
            issued_at: self.issued_at,
            expires_at: self.expires_at,
        }
    }
}

/// The token string that signing `claims` under `key` yields.
pub uninterp spec fn jwt_signed_of(claims: ClaimsView, key: Seq<u8>) -> Seq<char>;

/// The claims that reading the token string `raw` yields, if it can be read.
pub uninterp spec fn jwt_parsed_of(raw: Seq<char>) -> Option<ClaimsView>;

/// Whether the signature segment of `raw` is the one its other segments have under `key`.
pub uninterp spec fn jwt_verified_of(raw: Seq<char>, key: Seq<u8>) -> bool;

/// Relies on jwt::Token::signed, with the default header and HMAC-SHA256: the
/// token string is a function of the claims and the key. It is the header and
/// claims segments, base64 of their JSON, then the signature, joined by '.';
/// so jwt::Token::parse reads the same claims back and jwt::Token::verify
/// accepts it under the same key. Signing fails only where serde_json cannot
/// serialise the header or the claims, which for `Header` and `Registered`
/// does not happen, and the HMAC accepts a key of any length.
#[verifier::external_body]
fn jwt_sign(claims: &ClaimSet, key: &Vec<u8>) -> (r: Option<String>)
    ensures
        r is Some,
        r->0@ == jwt_signed_of(claims@, key@),
        r->0@.contains('.'),
        jwt_parsed_of(r->0@) == Some(claims@),
        jwt_verified_of(r->0@, key@),
{
    let reg = jwt::Registered {
        iss: claims.issuer.clone(),
        sub: claims.subject.clone(),
        aud: None,
        exp: claims.expires_at,
        nbf: None,
        iat: claims.issued_at,
        jti: None,
    };
    jwt::Token::new(jwt::Header::default(), reg).signed(key, sha2::Sha256::default()).ok()
}

/// Relies on jwt::Token::parse, which indexes the second '.'-separated segment
/// (hence the `requires`): the claims read are a function of the text.
#[verifier::external_body]
fn jwt_parse(raw: &str) -> (r: Option<ClaimSet>)
    requires
        raw@.contains('.'),
    ensures
        match r {
            Some(c) => jwt_parsed_of(raw@) == Some(c@),
            None => jwt_parsed_of(raw@) is None,
        },
{
    match jwt::Token::<jwt::Header, jwt::Registered>::parse(raw) {
        Ok(t) => Some(ClaimSet {
            subject: t.claims.sub,
            issuer: t.claims.iss,
            issued_at: t.claims.iat,
            expires_at: t.claims.exp,
        }),
        Err(_) => None,
    }
}

/// Relies on jwt::Token::verify with HMAC-SHA256, on the token that
/// jwt::Token::parse reads from `raw`: the answer is a function of the text and
/// the key.
#[verifier::external_body]
fn jwt_signature_valid(raw: &str, key: &Vec<u8>) -> (r: bool)
    requires
        raw@.contains('.'),
    ensures
        r == jwt_verified_of(raw@, key@),
{
    match jwt::Token::<jwt::Header, jwt::Registered>::parse(raw) {
        Ok(t) => t.verify(key, sha2::Sha256::default()),
        Err(_) => false,
    }
}

/// Relies on time::get_time: the wall-clock time, in whole seconds.
#[verifier::external_body]
pub(crate) fn now_seconds() -> (r: u64) {
    time::get_time().sec as u64
}

pub open spec fn issuer_name() -> Seq<char> {
    "serve_backend"@
}

/// The claims of a token issued to `subject` at `now`.
pub open spec fn claims_for(subject: Seq<char>, now: u64, lifespan: u64) -> ClaimsView {
    ClaimsView {
        subject: Some(subject),
        issuer: Some(issuer_name()),
        issued_at: Some(now),
        expires_at: Some((now + lifespan) as u64),
    }
}

pub open spec fn unparsable_reason(raw: Seq<char>) -> Seq<char> {
    "Could not parse JWT: \""@ + raw + "\""@
}

pub open spec fn expired_reason(seconds: nat) -> Seq<char> {
    "Token expired "@ + decimal_of(seconds) + " second(s) ago"@
}

/// Whether `r` is what issuing a token to `subject` at `now` gives.
pub open spec fn issue_spec(r: Result<String, Error>, subject: Seq<char>, now: u64, lifespan: u64, key: Seq<u8>) -> bool {
    let t = jwt_signed_of(claims_for(subject, now, lifespan), key);
    &&& r matches Ok(got) && got@ == t
    &&& t.contains('.')
    &&& jwt_parsed_of(t) == Some(claims_for(subject, now, lifespan))
    &&& jwt_verified_of(t, key)
}

/// Whether `r` is what issuing at `now` gives, the refusal of a `now` whose
/// expiry time would not fit included.
pub open spec fn issue_at_spec(r: Result<String, Error>, subject: Seq<char>, now: u64, lifespan: u64, key: Seq<u8>) -> bool {
    if now as int + lifespan as int > u64::MAX as int {
        r matches Err(e) && e.kind is Msg && reason_of(e.kind) == "Clock out of range"@
    } else {
        issue_spec(r, subject, now, lifespan, key)
    }
}

/// What checking claims that were read, with the given signature verdict, at
/// `now`, gives: the claims themselves, or the failure's kind tag and reason.
pub enum Verdict {
    Valid,
    BadSignature,
    NoExpiry,
    Expired(nat),
}

pub open spec fn verdict_of(c: ClaimsView, signature_ok: bool, now: u64) -> Verdict {
    if !signature_ok {
        Verdict::BadSignature
    } else {
        match c.expires_at {
            None => Verdict::NoExpiry,
            Some(exp) => if now > exp { Verdict::Expired((now - exp) as nat) } else { Verdict::Valid },
        }
    }
}

/// Whether `r` is the outcome that `v` calls for on claims `c`.
pub open spec fn meets_verdict(r: Result<ClaimSet, Error>, c: ClaimsView, v: Verdict) -> bool {
    match v {
        Verdict::Valid => r matches Ok(got) && got@ == c,
        Verdict::BadSignature => r matches Err(e) && e.kind is TokenFailure
            && reason_of(e.kind) == "Token verification failed"@,
        Verdict::NoExpiry => r matches Err(e) && e.kind is TokenFailure
            && reason_of(e.kind) == "Token carries no expiry"@,
        Verdict::Expired(n) => r matches Err(e) && e.kind is TokenFailure
            && reason_of(e.kind) == expired_reason(n),
    }
}

/// The outcome of verifying the token text `raw` under `key` at `now`.
pub open spec fn verify_spec(r: Result<ClaimSet, Error>, raw: Seq<char>, key: Seq<u8>, now: u64) -> bool {
    if !raw.contains('.') {
        r matches Err(e) && e.kind is MalformedRequest && reason_of(e.kind) == unparsable_reason(raw)
    } else {
        match jwt_parsed_of(raw) {
            None => r matches Err(e) && e.kind is MalformedRequest
                && reason_of(e.kind) == unparsable_reason(raw),
            Some(c) => meets_verdict(r, c, verdict_of(c, jwt_verified_of(raw, key), now)),
        }
    }
}

/// Decides a read token: the signature is checked first, then the expiry
/// (a token is still valid at the second it expires).
pub fn check_claims(claims: ClaimSet, signature_ok: bool, now: u64) -> (r: Result<ClaimSet, Error>)
    ensures
        meets_verdict(r, claims@, verdict_of(claims@, signature_ok, now)),
{
    if !signature_ok {
        proof { reveal_strlit("Token verification failed"); }
        return Err(Error::new(ErrorKind::TokenFailure(String::from_str("Token verification failed"))));
    }
    match claims.expires_at {
        None => {
            proof { reveal_strlit("Token carries no expiry"); }
            Err(Error::new(ErrorKind::TokenFailure(String::from_str("Token carries no expiry"))))
        },
        Some(exp) => {
            if now > exp {
                let reason = String::from_str("Token expired ").concat(decimal(now - exp).as_str())
                    .concat(" second(s) ago");
                Err(Error::new(ErrorKind::TokenFailure(reason)))
            } else {
                Ok(claims)
            }
        },
    }
}

/// Signs and reads tokens under one secret key.
pub struct TokenCodec {
    key: Vec<u8>,
    lifespan: u64,
}

impl TokenCodec {
    pub closed spec fn key(&self) -> Seq<u8> {
        self.key@
    }

    pub closed spec fn lifespan(&self) -> u64 {
        self.lifespan
    }

    /// A codec whose tokens live for the standard lifespan.
    pub fn new(key: Vec<u8>) -> (r: TokenCodec)
        ensures
            r.key() == key@,
            r.lifespan() == TOKEN_LIFESPAN,
    {
        TokenCodec { key, lifespan: TOKEN_LIFESPAN }
    }

    /// A codec whose tokens live for `lifespan` seconds.
    pub fn with_lifespan(key: Vec<u8>, lifespan: u64) -> (r: TokenCodec)
        ensures
            r.key() == key@,
            r.lifespan() == lifespan,
    {
        TokenCodec { key, lifespan }
    }

    pub fn lifespan_secs(&self) -> (r: u64)
        ensures
            r == self.lifespan(),
    {
        self.lifespan
    }

    /// Issues a token to `subject` as of `now`; a `now` whose expiry time
    /// would not fit is refused.
    pub fn issue_at(&self, subject: &str, now: u64) -> (r: Result<String, Error>)
        ensures
            issue_at_spec(r, subject@, now, self.lifespan(), self.key()),
    {
        if now > u64::MAX - self.lifespan {
            proof { reveal_strlit("Clock out of range"); }
            return Err(Error::new(ErrorKind::Msg(String::from_str("Clock out of range"))));
        }
        proof { reveal_strlit("serve_backend"); }
        let claims = ClaimSet {
            subject: Some(String::from_str(subject)),
            issuer: Some(String::from_str("serve_backend")),
            issued_at: Some(now),
            expires_at: Some(now + self.lifespan),
        };
        assert(claims@ == claims_for(subject@, now, self.lifespan()));
        Ok(jwt_sign(&claims, &self.key).unwrap())
    }

    /// Issues a token to `subject` as of the current time.
    pub fn issue(&self, subject: &str) -> (r: Result<String, Error>)
        ensures
            exists|now: u64| #[trigger] issue_at_spec(r, subject@, now, self.lifespan(), self.key()),
    {
        let now = now_seconds();
        self.issue_at(subject, now)
    }

    /// Reads `raw` back into its claims, checking its signature and then its
    /// expiry as of `now`.
    pub fn verify_at(&self, raw: &str, now: u64) -> (r: Result<ClaimSet, Error>)
        ensures
            verify_spec(r, raw@, self.key(), now),
    {
        if !contains_char(raw, '.') {
            return Err(Error::new(ErrorKind::MalformedRequest(unparsable(raw))));
        }
        match jwt_parse(raw) {
            None => Err(Error::new(ErrorKind::MalformedRequest(unparsable(raw)))),
            Some(claims) => {
                let ok = jwt_signature_valid(raw, &self.key);
                check_claims(claims, ok, now)
            },
        }
    }

    /// Reads `raw` back into its claims as of the current time.
    pub fn verify(&self, raw: &str) -> (r: Result<ClaimSet, Error>)
        ensures
            exists|now: u64| verify_spec(r, raw@, self.key(), now),
    {
        let now = now_seconds();
        self.verify_at(raw, now)
    }
}

fn unparsable(raw: &str) -> (r: String)
    ensures
        r@ == unparsable_reason(raw@),
{
    proof {
        reveal_strlit("Could not parse JWT: \"");
        reveal_strlit("\"");
    }
    String::from_str("Could not parse JWT: \"").concat(raw).concat("\"")
}

/// Round trip: a token issued to `subject` at `issued` is accepted under the
/// same key at any time up to the end of its lifespan, and the accepted
/// claims are the issued ones, naming `subject`.
pub proof fn lemma_round_trip(
    subject: Seq<char>,
    key: Seq<u8>,
    issued: u64,
    lifespan: u64,
    now: u64,
    token: Result<String, Error>,
    r: Result<ClaimSet, Error>,
)
    requires
        issued as int + lifespan as int <= u64::MAX as int,
        now <= issued + lifespan,
        issue_spec(token, subject, issued, lifespan, key),
        verify_spec(r, token->Ok_0@, key, now),
    ensures
        r matches Ok(c) && c@ == claims_for(subject, issued, lifespan)
            && c@.subject == Some(subject),
{
}

/// Expiry is inclusive: with a good signature, claims that expire at `exp`
/// are accepted at `exp` and earlier, and fail as a token failure from the
/// second after.
pub proof fn lemma_expiry_boundary(c: ClaimsView, now: u64, r: Result<ClaimSet, Error>)
    requires
        c.expires_at is Some,
        meets_verdict(r, c, verdict_of(c, true, now)),
    ensures
        now <= c.expires_at->0 ==> (r matches Ok(got) && got@ == c),
        now > c.expires_at->0 ==> (r matches Err(e) && e.kind is TokenFailure
            && reason_of(e.kind) == expired_reason((now - c.expires_at->0) as nat)),
{
}

/// A token that reads fine but whose signature does not hold fails as a
/// token failure, never as a malformed request, and whatever its expiry: the
/// signature is checked first.
pub proof fn lemma_bad_signature_is_token_failure(
    raw: Seq<char>,
    key: Seq<u8>,
    now: u64,
    r: Result<ClaimSet, Error>,
)
    requires
        raw.contains('.'),
        jwt_parsed_of(raw) is Some,
        !jwt_verified_of(raw, key),
        verify_spec(r, raw, key, now),
    ensures
        r matches Err(e) && e.kind is TokenFailure
            && reason_of(e.kind) == "Token verification failed"@,
{
}

} // verus!
