//! The user record handled by the service's routes, and the check that a
//! submitted one has its required fields.
use vstd::prelude::*;
use crate::error::{Error, ErrorKind, reason_of};

verus! {

/// A user as stored: names, and the hex text of its object id once stored.
#[derive(Debug)]
pub struct User {
    pub first: Option<String>,
    pub last: Option<String>,
    pub id: Option<String>,
}

pub open spec fn missing_reason(field: Seq<char>) -> Seq<char> {
    "missing required JSON object: "@ + field
}

pub open spec fn is_missing(k: ErrorKind, field: Seq<char>) -> bool {
    k is MalformedRequest && reason_of(k) == missing_reason(field)
}

fn missing(field: &str) -> (r: ErrorKind)
    ensures
        is_missing(r, field@),
{
    proof { reveal_strlit("missing required JSON object: "); }
    ErrorKind::MalformedRequest(String::from_str("missing required JSON object: ").concat(field))
}

impl User {
    pub fn new(first: Option<String>, last: Option<String>) -> (r: User)
        ensures
            r.first == first,
            r.last == last,
            r.id is None,
    {
        User { first, last, id: None }
    }

    /// Checks that both names are present. Each missing name is reported, the
    /// later one wrapping the earlier as its cause.
    pub fn validate(&self) -> (r: Result<(), Error>)
        ensures
            self.first is Some && self.last is Some ==> r is Ok,
            self.first is None && self.last is Some ==> (r matches Err(e)
                && is_missing(e.kind, "first"@) && e.causes@.len() == 0),
            self.first is Some && self.last is None ==> (r matches Err(e)
                && is_missing(e.kind, "last"@) && e.causes@.len() == 0),
            self.first is None && self.last is None ==> (r matches Err(e)
                && is_missing(e.kind, "last"@) && e.causes@.len() == 1
                && is_missing(e.causes@[0], "first"@)),
    {
        proof {
            reveal_strlit("first");
            reveal_strlit("last");
        }
        let mut res: Result<(), Error> = Ok(());
        if self.first.is_none() {
            res = Err(Error::new(missing("first")));
        }
        if self.last.is_none() {
            let k = missing("last");
            res = match res {
                Ok(()) => Err(Error::new(k)),
                Err(e) => Err(e.chain(k)),
            };
        }
        res
    }
}

} // verus!
