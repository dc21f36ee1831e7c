//! Shaping of failures after the handlers ran: client-caused failures become
//! their response at once; the rest are logged with their causes.
use vstd::prelude::*;
use crate::error::{Error, ErrorKind, Response, is_server_error, message_of, response_of, status_of};

verus! {

/// The severity of a log entry.
#[derive(PartialEq, Eq, Structural, Clone, Copy, Debug)]
pub enum Level {
    Error,
    Info,
    Trace,
}

/// One line for the log sink.
#[derive(Debug)]
pub struct LogEntry {
    pub level: Level,
    pub message: String,
}

impl LogEntry {
    pub open spec fn view_pair(&self) -> (Level, Seq<char>) {
        (self.level, self.message@)
    }
}

pub open spec fn caused_by(k: ErrorKind) -> Seq<char> {
    "caused by: "@ + message_of(k)
}

/// The whole chain, outermost first, each link after " <- ".
pub open spec fn chain_text(kinds: Seq<ErrorKind>) -> Seq<char>
    decreases kinds.len(),
{
    if kinds.len() == 0 {
        Seq::empty()
    } else if kinds.len() == 1 {
        message_of(kinds[0])
    } else {
        chain_text(kinds.drop_last()) + " <- "@ + message_of(kinds.last())
    }
}

/// The entries logged for `e`: its message at error severity, each cause at
/// info severity, and the whole chain at trace severity.
pub open spec fn log_of(e: Error) -> Seq<(Level, Seq<char>)> {
    seq![(Level::Error, message_of(e.kind))]
        + Seq::new(e.causes@.len(), |i: int| (Level::Info, caused_by(e.causes@[i])))
        + seq![(Level::Trace, chain_text(seq![e.kind] + e.causes@))]
}

pub open spec fn entries_view(v: Seq<LogEntry>) -> Seq<(Level, Seq<char>)> {
    Seq::new(v.len(), |i: int| v[i].view_pair())
}

/// Writes the error chain to the log. It never alters the response.
pub struct LogError;

impl LogError {
    /// The entries to log for `err`.
    pub fn catch(&self, err: &Error) -> (r: Vec<LogEntry>)
        ensures
            entries_view(r@) == log_of(*err),
    {
        let mut out: Vec<LogEntry> = Vec::new();
        out.push(LogEntry { level: Level::Error, message: err.kind.message() });
        let n = err.causes.len();
        let mut chain = err.kind.message();
        proof {
            reveal_strlit("caused by: ");
            reveal_strlit(" <- ");
            assert(seq![err.kind].add(err.causes@.subrange(0, 0)) =~= seq![err.kind]);
        }
        let mut i: usize = 0;
        while i < n
            invariant
                n == err.causes@.len(),
                i <= n,
                out@.len() == i + 1,
                out@[0].view_pair() == (Level::Error, message_of(err.kind)),
                forall|j: int| 0 <= j < i ==> #[trigger] out@[j + 1].view_pair()
                    == (Level::Info, caused_by(err.causes@[j])),
                chain@ == chain_text(seq![err.kind] + err.causes@.subrange(0, i as int)),
            decreases n - i,
        {
            let m = err.causes[i].message();
            let line = String::from_str("caused by: ").concat(m.as_str());
            out.push(LogEntry { level: Level::Info, message: line });
            chain = chain.concat(" <- ").concat(m.as_str());
            proof {
                let prev = seq![err.kind] + err.causes@.subrange(0, i as int);
                let next = seq![err.kind] + err.causes@.subrange(0, i + 1);
                assert(next.drop_last() =~= prev);
                assert(next.last() == err.causes@[i as int]);
            }
            i = i + 1;
        }
        proof {
            assert(err.causes@.subrange(0, n as int) =~= err.causes@);
        }
        out.push(LogEntry { level: Level::Trace, message: chain });
        proof {
            let l = log_of(*err);
            let ev = entries_view(out@);
            assert(l.len() == n + 2);
            assert forall|k: int| 0 <= k < n + 2 implies ev[k] == l[k] by {
                if 1 <= k <= n {
                    assert(out@[(k - 1) + 1].view_pair() == (Level::Info, caused_by(err.causes@[k - 1])));
                }
            }
            assert(ev =~= l);
        }
        out
    }
}

/// Keeps client-caused failures out of the log: anything but a server error
/// becomes its response here.
pub struct IgnoreClientError;

impl IgnoreClientError {
    /// The response for a client-caused failure, or the failure handed on.
    pub fn catch(&self, err: Error) -> (r: Result<Response, Error>)
        ensures
            !is_server_error(status_of(err.kind)) ==> r == Ok::<Response, Error>(response_of(err.kind)),
            is_server_error(status_of(err.kind)) ==> r == Err::<Response, Error>(err),
    {
        let status = err.get_status();
        if status < 500 || status >= 600 {
            Ok(err.get_response())
        } else {
            Err(err)
        }
    }
}

/// A failure turned into what goes on the wire and what goes to the log.
#[derive(Debug)]
pub struct Shaped {
    pub response: Response,
    pub log: Vec<LogEntry>,
}

/// Both passes in their order: suppression first, then logging of what
/// remains.
pub fn shape(err: Error) -> (r: Shaped)
    ensures
        r.response == response_of(err.kind),
        !is_server_error(status_of(err.kind)) ==> r.log@.len() == 0,
        is_server_error(status_of(err.kind)) ==> entries_view(r.log@) == log_of(err),
{
    match IgnoreClientError.catch(err) {
        Ok(response) => Shaped { response, log: Vec::new() },
        Err(e) => {
            let log = LogError.catch(&e);
            Shaped { response: e.get_response(), log }
        },
    }
}

/// What the log receives for a failure: nothing where it is not a server
/// error; otherwise exactly one error-severity entry, the first, and one
/// info-severity entry per cause, followed by the trace.
pub proof fn lemma_log_shape(e: Error, r: Shaped)
    requires
        r.response == response_of(e.kind),
        !is_server_error(status_of(e.kind)) ==> r.log@.len() == 0,
        is_server_error(status_of(e.kind)) ==> entries_view(r.log@) == log_of(e),
    ensures
        !is_server_error(status_of(e.kind)) ==> r.log@.len() == 0,
        is_server_error(status_of(e.kind)) ==> {
            &&& r.log@.len() == e.causes@.len() + 2
            &&& forall|i: int| 0 <= i < r.log@.len() ==>
                (#[trigger] r.log@[i].level == Level::Error <==> i == 0)
            &&& forall|i: int| 0 <= i < r.log@.len() ==>
                (#[trigger] r.log@[i].level == Level::Info <==> 1 <= i <= e.causes@.len())
            &&& forall|i: int| 1 <= i <= e.causes@.len() ==>
                #[trigger] r.log@[i].message@ == caused_by(e.causes@[i - 1])
        },
{
    if is_server_error(status_of(e.kind)) {
        let n = e.causes@.len();
        let l = log_of(e);
        let ev = entries_view(r.log@);
        assert(ev.len() == r.log@.len());
        assert(l.len() == n + 2);
        assert forall|i: int| 0 <= i < n + 2 implies (#[trigger] l[i]).0 == (if i == 0 {
            Level::Error
        } else if i <= n {
            Level::Info
        } else {
            Level::Trace
        }) && (1 <= i <= n ==> l[i].1 == caused_by(e.causes@[i - 1])) by {
            if i == 0 {
            } else if i <= n {
            } else {
            }
        }
        assert forall|i: int| 0 <= i < r.log@.len() implies
            (#[trigger] r.log@[i].level == Level::Error <==> i == 0) by {
            assert(ev[i] == r.log@[i].view_pair());
            assert(ev[i] == l[i]);
        }
        assert forall|i: int| 0 <= i < r.log@.len() implies
            (#[trigger] r.log@[i].level == Level::Info <==> 1 <= i <= n) by {
            assert(ev[i] == r.log@[i].view_pair());
            assert(ev[i] == l[i]);
        }
        assert forall|i: int| 1 <= i <= n implies
            #[trigger] r.log@[i].message@ == caused_by(e.causes@[i - 1]) by {
            assert(ev[i] == r.log@[i].view_pair());
            assert(ev[i] == l[i]);
        }
    }
}

} // verus!
