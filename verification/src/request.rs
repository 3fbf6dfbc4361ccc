//! The request line parser.
//!
//! A request line looks like `VERB PATH[?QUERY] VERSION\r\n`.  The line is
//! split on the first space into the verb and the remainder; the remainder
//! is cut at the next space or carriage return to give the raw target
//! (path-and-query); the target is split on the first `?` into the path and
//! the query (the query keeps its leading `?`).  A missing verb or target
//! yields empty strings rather than an error.

use vstd::prelude::*;
use vstd::string::StrSliceExecFns;
use vstd::string::StringExecFns;
use vstd::string::StringSliceAdditionalSpecFns;
use vstd::utf8::valid_utf8;
use crate::strutil::find_char;

verus! {

/// The most bytes a reader should take for one request line.
pub const MAX_REQUEST_LINE_BYTES: usize = 4096;

/// One parsed request line.
pub struct HttpRequest {
    pub verb: String,
    pub path_and_query: String,
    pub path: String,
    pub query: String,
}

/// The mathematical content of a parsed request line.
#[verifier::ext_equal]
pub struct ReqModel {
    pub verb: Seq<char>,
    pub path_and_query: Seq<char>,
    pub path: Seq<char>,
    pub query: Seq<char>,
}

impl View for HttpRequest {
    type V = ReqModel;

    open spec fn view(&self) -> ReqModel {
        ReqModel {
            verb: self.verb@,
            path_and_query: self.path_and_query@,
            path: self.path@,
            query: self.query@,
        }
    }
}

/// The line with its terminator (`\r\n`, or a bare `\n`) removed.
pub open spec fn strip_line_end(line: Seq<char>) -> Seq<char> {
    if line.len() >= 2 && line[line.len() - 2] == '\r' && line[line.len() - 1] == '\n' {
        line.take(line.len() - 2)
    } else if line.len() >= 1 && line[line.len() - 1] == '\n' {
        line.take(line.len() - 1)
    } else {
        line
    }
}

/// The verb (before the first space) and the remainder (after it).
/// Without a space the whole input is the verb and the remainder is empty.
pub open spec fn split_verb(t: Seq<char>) -> (Seq<char>, Seq<char>) {
    match t.index_of_first(' ') {
        Some(i) => (t.take(i), t.skip(i + 1)),
        None => (t, Seq::<char>::empty()),
    }
}

/// Where the raw target ends in the remainder: at the first space or
/// carriage return, or at the end.
pub open spec fn target_end(rest: Seq<char>) -> int {
    let sp = rest.index_of_first(' ');
    let cr = rest.index_of_first('\r');
    match (sp, cr) {
        (Some(i), Some(j)) => if i <= j {
            i
        } else {
            j
        },
        (Some(i), None) => i,
        (None, Some(j)) => j,
        (None, None) => rest.len() as int,
    }
}

/// The path (before the first `?`) and the query (from the `?` on, the `?`
/// included; empty when there is none).
pub open spec fn split_path_query(paq: Seq<char>) -> (Seq<char>, Seq<char>) {
    match paq.index_of_first('?') {
        Some(i) => (paq.take(i), paq.skip(i)),
        None => (paq, Seq::<char>::empty()),
    }
}

/// What the parser returns for a raw request line.
pub open spec fn parse_model(line: Seq<char>) -> ReqModel {
    let t = strip_line_end(line);
    let (verb, rest) = split_verb(t);
    let paq = rest.take(target_end(rest));
    let (path, query) = split_path_query(paq);
    ReqModel { verb, path_and_query: paq, path, query }
}

/// Parses one raw request line into its verb, target, path and query.
pub fn parse_request_line(line: &str) -> (r: HttpRequest)
    ensures
        r@ == parse_model(line@),
{
    let len = line.unicode_len();
    // strip the terminator
    let t_end: usize = if len >= 2 && line.get_char(len - 2) == '\r' && line.get_char(len - 1)
        == '\n' {
        len - 2
    } else if len >= 1 && line.get_char(len - 1) == '\n' {
        len - 1
    } else {
        len
    };
    let t = line.substring_char(0, t_end);
    proof {
        assert(t@ =~= strip_line_end(line@));
    }
    // the verb, before the first space
    proof {
        t@.index_of_first_ensures(' ');
    }
    let (verb, rest) = match find_char(t, ' ') {
        Some(i) => {
            let v = t.substring_char(0, i);
            let rest = t.substring_char(i + 1, t_end);
            (v, rest)
        },
        None => (t, t.substring_char(t_end, t_end)),
    };
    proof {
        assert(verb@ =~= split_verb(t@).0);
        assert(rest@ =~= split_verb(t@).1);
    }
    // the raw target, up to the next space or carriage return
    let rest_len = rest.unicode_len();
    let sp = find_char(rest, ' ');
    let cr = find_char(rest, '\r');
    let paq_end: usize = match (sp, cr) {
        (Some(i), Some(j)) => if i <= j {
            i
        } else {
            j
        },
        (Some(i), None) => i,
        (None, Some(j)) => j,
        (None, None) => rest_len,
    };
    proof {
        rest@.index_of_first_ensures(' ');
        rest@.index_of_first_ensures('\r');
    }
    let paq = rest.substring_char(0, paq_end);
    proof {
        assert(paq@ =~= split_verb(strip_line_end(line@)).1.take(target_end(rest@)));
    }
    // the path and the query
    let paq_len = paq.unicode_len();
    proof {
        paq@.index_of_first_ensures('?');
    }
    let (path, query) = match find_char(paq, '?') {
        Some(i) => (paq.substring_char(0, i), paq.substring_char(i, paq_len)),
        None => (paq, paq.substring_char(paq_len, paq_len)),
    };
    proof {
        assert(path@ =~= split_path_query(paq@).0);
        assert(query@ =~= split_path_query(paq@).1);
    }
    HttpRequest {
        verb: String::from_str(verb),
        path_and_query: String::from_str(paq),
        path: String::from_str(path),
        query: String::from_str(query),
    }
}

/// The error std's `str::from_utf8` reports on invalid input.
#[verifier::external_type_specification]
#[verifier::external_body]
pub struct ExUtf8Error(core::str::Utf8Error);

/// Relies on std's `str::from_utf8`: it returns `Ok` exactly on valid
/// UTF-8 input, and the returned slice decodes those same bytes.
#[verifier::external_body]
fn bytes_to_str(v: &[u8]) -> (r: Result<&str, core::str::Utf8Error>)
    ensures
        r is Ok <==> valid_utf8(v@),
        r matches Ok(s) ==> s.spec_bytes() == v@,
{
    core::str::from_utf8(v)
}

/// Decodes an optional byte slice as UTF-8; absent input reads as empty.
pub fn utf8(x: Option<&[u8]>) -> (r: Result<&str, core::str::Utf8Error>)
    ensures
        match x {
            Some(b) => (r is Ok <==> valid_utf8(b@)) && (r matches Ok(s) ==> s.spec_bytes() == b@),
            None => r matches Ok(s) && s@ == Seq::<char>::empty(),
        },
{
    match x {
        Some(b) => bytes_to_str(b),
        None => {
            proof {
                reveal_strlit("");
            }
            Ok("")
        },
    }
}

} // verus!
