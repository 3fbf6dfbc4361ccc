//! Responses and their wire format.
//!
//! A response is a status, a reason phrase, a content type and a body.
//! On the wire it is the header block
//! `HTTP/1.1 <code> <reason>\r\nContent-Type: <type>\r\nContent-Length: <n>\r\n\r\n`
//! followed by the body bytes verbatim; no other header is ever emitted.
//! The `send*` functions build the response and mark the context
//! answered; writing the bytes to the socket is the caller's business.

use vstd::prelude::*;
use vstd::string::StrSliceExecFns;
use vstd::string::StringExecFns;
use vstd::utf8::encode_utf8;
use crate::server::{CtxModel, HttpContext};
use crate::strutil::{dec_digits, rfind_char, str_eq, u64_to_string};

verus! {

/// The MIME type for a path whose extension (everything from the last
/// `.`) is one of the supported set; `None` for any other path.
pub open spec fn content_type_for(path: Seq<char>) -> Option<Seq<char>> {
    match path.index_of_last('.') {
        Some(i) => {
            let ext = path.skip(i);
            if ext == ".js"@ {
                Some("text/javascript"@)
            } else if ext == ".css"@ {
                Some("text/css"@)
            } else if ext == ".html"@ {
                Some("text/html"@)
            } else {
                None
            }
        },
        None => None,
    }
}

/// The MIME type a path is served with, by its extension: `.js`, `.css`
/// and `.html` are supported, anything else is not.
pub fn content_type_from_path_extension(path: &str) -> (r: Option<&'static str>)
    ensures
        match r {
            Some(ct) => content_type_for(path@) == Some(ct@),
            None => content_type_for(path@) is None,
        },
{
    proof {
        path@.index_of_last_ensures('.');
    }
    match rfind_char(path, '.') {
        Some(i) => {
            let len = path.unicode_len();
            let ext = path.substring_char(i, len);
            proof {
                assert(ext@ =~= path@.skip(i as int));
            }
            if str_eq(ext, ".js") {
                Some("text/javascript")
            } else if str_eq(ext, ".css") {
                Some("text/css")
            } else if str_eq(ext, ".html") {
                Some("text/html")
            } else {
                None
            }
        },
        None => None,
    }
}

/// One HTTP response: status line, content type, and the body bytes.
pub struct Response {
    pub status: u16,
    pub reason: String,
    pub content_type: String,
    pub body: Vec<u8>,
}

/// The mathematical content of a response.
#[verifier::ext_equal]
pub struct RespModel {
    pub status: u16,
    pub reason: Seq<char>,
    pub content_type: Seq<char>,
    pub body: Seq<u8>,
}

impl View for Response {
    type V = RespModel;

    open spec fn view(&self) -> RespModel {
        RespModel {
            status: self.status,
            reason: self.reason@,
            content_type: self.content_type@,
            body: self.body@,
        }
    }
}

/// The header block of a response on the wire, blank line included; the
/// body bytes follow it verbatim, exactly `Content-Length` of them.
pub open spec fn render_header_model(r: RespModel) -> Seq<char> {
    "HTTP/1.1 "@ + dec_digits(r.status as int) + " "@ + r.reason + "\r\n"@ + "Content-Type: "@
        + r.content_type + "\r\n"@ + "Content-Length: "@ + dec_digits(r.body.len() as int)
        + "\r\n\r\n"@
}

/// A response whose body is the given HTML text.
pub open spec fn plain_response_model(status: u16, reason: Seq<char>, msg: Seq<char>) -> RespModel {
    RespModel { status, reason, content_type: "text/html"@, body: encode_utf8(msg) }
}

impl Response {
    /// This response's header block, ready to precede the body on the wire.
    pub fn header_string(&self) -> (h: String)
        ensures
            h@ == render_header_model(self@),
    {
        let mut s = String::from_str("HTTP/1.1 ");
        let part = u64_to_string(self.status as u64);
        s.append(part.as_str());
        s.append(" ");
        s.append(self.reason.as_str());
        s.append("\r\n");
        s.append("Content-Type: ");
        s.append(self.content_type.as_str());
        s.append("\r\n");
        s.append("Content-Length: ");
        let part = u64_to_string(self.body.len() as u64);
        s.append(part.as_str());
        s.append("\r\n\r\n");
        proof {
            assert(s@ =~= render_header_model(self@));
        }
        s
    }
}

/// Builds the response a handler sends: the given status line over an
/// HTML text body.
pub fn send(status_code: u16, status_msg: &str, msg: &str) -> (r: Response)
    ensures
        r@ == plain_response_model(status_code, status_msg@, msg@),
{
    Response {
        status: status_code,
        reason: String::from_str(status_msg),
        content_type: String::from_str("text/html"),
        body: msg.as_bytes_vec(),
    }
}

/// Answers Bad Request with a short diagnostic body.
pub fn send_400(context: &mut HttpContext, msg: &str) -> (r: Response)
    ensures
        final(context)@ == (CtxModel { status: 400, ..old(context)@ }),
        r@ == plain_response_model(400, "Bad Request"@, msg@),
{
    context.status = 400;
    send(400, "Bad Request", msg)
}

/// Answers Not Found.
pub fn send_404(context: &mut HttpContext) -> (r: Response)
    ensures
        final(context)@ == (CtxModel { status: 404, ..old(context)@ }),
        r@ == plain_response_model(404, "Not Found"@, "Resource Not Found"@),
{
    context.status = 404;
    send(404, "Not Found", "Resource Not Found")
}

/// Answers Method Not Allowed.
pub fn send_405(context: &mut HttpContext) -> (r: Response)
    ensures
        final(context)@ == (CtxModel { status: 405, ..old(context)@ }),
        r@ == plain_response_model(405, "Method Not Allowed"@, "Method Not Allowed"@),
{
    context.status = 405;
    send(405, "Method Not Allowed", "Method Not Allowed")
}

/// What a GET of a path is answered with once its file was read: the
/// bytes under their MIME type when the extension is supported, Bad
/// Request otherwise; `None` when the file did not open (not handled
/// here — the chain's default answers later).
pub open spec fn static_answer(path: Seq<char>, file: Option<Seq<u8>>) -> Option<RespModel> {
    match file {
        None => None,
        Some(bytes) => match content_type_for(path) {
            Some(ct) => Some(RespModel { status: 200, reason: "OK"@, content_type: ct, body: bytes }),
            None => Some(plain_response_model(400, "Bad Request"@, "file extension not supported!"@)),
        },
    }
}

/// Serves file contents for the context's path: success under the
/// resolved content type, or Bad Request for an unsupported extension.
pub fn send_file(context: &mut HttpContext, contents: Vec<u8>) -> (r: Response)
    ensures
        match content_type_for(old(context)@.path) {
            Some(ct) => final(context)@ == (CtxModel { status: 200, ..old(context)@ }) && r@
                == (RespModel { status: 200, reason: "OK"@, content_type: ct, body: contents@ }),
            None => final(context)@ == (CtxModel { status: 400, ..old(context)@ }) && r@
                == plain_response_model(400, "Bad Request"@, "file extension not supported!"@),
        },
        Some(r@) == static_answer(old(context)@.path, Some(contents@)),
{
    match content_type_from_path_extension(context.path.as_str()) {
        Some(ct) => {
            context.status = 200;
            Response {
                status: 200,
                reason: String::from_str("OK"),
                content_type: String::from_str(ct),
                body: contents,
            }
        },
        None => send_400(context, "file extension not supported!"),
    }
}

/// The response the chain falls back to when no node answered: Not Found
/// for a GET, Method Not Allowed for any other verb.
pub open spec fn default_response_model(verb: Seq<char>) -> RespModel {
    if verb == "GET"@ {
        plain_response_model(404, "Not Found"@, "Resource Not Found"@)
    } else {
        plain_response_model(405, "Method Not Allowed"@, "Method Not Allowed"@)
    }
}

} // verus!
