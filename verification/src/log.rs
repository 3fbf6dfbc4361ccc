//! Log records: one per request, rendered as a single line.  Writing the
//! line out is the caller's business; the record and its rendering are
//! exact here.

use vstd::prelude::*;
use vstd::string::StringExecFns;
use crate::server::{CtxModel, HttpContext};
use crate::strutil::{dec_digits, u64_to_string};

verus! {

/// One request's log record: connection identity, request sequence
/// number, final status, verb and raw target.
pub struct LogRecord {
    pub client_id: usize,
    pub request_count: usize,
    pub status: u16,
    pub verb: String,
    pub path_and_query: String,
}

/// The mathematical content of a log record.
#[verifier::ext_equal]
pub struct LogModel {
    pub client_id: usize,
    pub request_count: usize,
    pub status: u16,
    pub verb: Seq<char>,
    pub path_and_query: Seq<char>,
}

impl View for LogRecord {
    type V = LogModel;

    open spec fn view(&self) -> LogModel {
        LogModel {
            client_id: self.client_id,
            request_count: self.request_count,
            status: self.status,
            verb: self.verb@,
            path_and_query: self.path_and_query@,
        }
    }
}

/// The record a context leaves behind once the chain is done with it.
pub open spec fn log_of(ctx: CtxModel) -> LogModel {
    LogModel {
        client_id: ctx.client_id,
        request_count: ctx.request_count,
        status: ctx.status,
        verb: ctx.verb,
        path_and_query: ctx.path_and_query,
    }
}

/// A log record rendered as one line, fields separated by single spaces.
pub open spec fn render_log_model(l: LogModel) -> Seq<char> {
    dec_digits(l.client_id as int) + " "@ + dec_digits(l.request_count as int) + " "@
        + dec_digits(l.status as int) + " "@ + l.verb + " "@ + l.path_and_query
}

impl LogRecord {
    /// Observes the context as it stands: its identity and final status.
    pub fn from_context(ctx: &HttpContext) -> (r: LogRecord)
        ensures
            r@ == log_of(ctx@),
    {
        LogRecord {
            client_id: ctx.client_id,
            request_count: ctx.request_count,
            status: ctx.status,
            verb: ctx.verb.clone(),
            path_and_query: ctx.path_and_query.clone(),
        }
    }

    /// The one-line rendering of this record.
    pub fn render(&self) -> (r: String)
        ensures
            r@ == render_log_model(self@),
    {
        let mut s = u64_to_string(self.client_id as u64);
        s.append(" ");
        let part = u64_to_string(self.request_count as u64);
        s.append(part.as_str());
        s.append(" ");
        let part = u64_to_string(self.status as u64);
        s.append(part.as_str());
        s.append(" ");
        s.append(self.verb.as_str());
        s.append(" ");
        s.append(self.path_and_query.as_str());
        proof {
            assert(s@ =~= render_log_model(self@));
        }
        s
    }
}

} // verus!
