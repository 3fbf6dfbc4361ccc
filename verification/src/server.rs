//! Connection-session state, the per-request context, and the server's
//! middleware chain, built once in insertion order.
//!
//! The socket itself stays with the caller: the caller reads a request
//! line, classifies the outcome (`ReadOutcome`) and applies it to the
//! session with `ClientConnection::on_read`, which decides whether the
//! keep-alive loop goes on.

use vstd::prelude::*;
use crate::chain::ChainRun;
use crate::middleware::{chain_model, Middleware, MwModel};
use crate::request::{parse_model, parse_request_line, HttpRequest, ReqModel};

verus! {

/// How long a connection may sit idle before its read times out.
pub const READ_TIMEOUT_SECS: u64 = 5;

/// Whether a connection should stay open after the current request.
pub enum ConnectionKeepAlive {
    KeepAlive,
    Close,
}

/// Content kinds a request can announce in its headers.
pub enum ContentType {
    TextHtml,
    ApplicationJson,
    ImagePng,
    ImageJpeg,
    Unknown,
}

/// Request headers the server recognises.
pub struct Headers {
    pub accept: String,
    pub content_type: ContentType,
    pub content_length: usize,
    pub connection: ConnectionKeepAlive,
    pub user_agent: String,
}

/// One accepted connection's session state: its identity, how many
/// requests it has attempted, and whether its loop should continue.
pub struct ClientConnection {
    pub keep_alive: bool,
    pub id: usize,
    pub request_count: usize,
}

/// What one attempt to read a request line produced.  `Data` carries the
/// line read; `Closed` is a read of zero bytes (the peer closed);
/// `TimedOut` and `Disconnected` are the idle-timeout class of failures;
/// `Failed` is any other I/O error.
pub enum ReadOutcome {
    Data(String),
    Closed,
    TimedOut,
    Disconnected,
    Failed,
}

/// What the connection loop does next: dispatch a request line through
/// the chain, or stop, cleanly or after reporting an error.
pub enum ReadStep {
    Dispatch(String),
    CloseClean,
    CloseError,
}

impl ClientConnection {
    /// A fresh session: alive, no request attempted yet.
    pub fn new(id: usize) -> (c: ClientConnection)
        ensures
            c.id == id,
            c.request_count == 0,
            c.keep_alive,
    {
        ClientConnection { keep_alive: true, id, request_count: 0 }
    }

    /// Counts one request attempt.  The counter sticks at its maximum
    /// rather than wrapping.
    pub fn begin_request(&mut self)
        ensures
            final(self).id == old(self).id,
            final(self).keep_alive == old(self).keep_alive,
            final(self).request_count == if old(self).request_count < usize::MAX {
                old(self).request_count + 1
            } else {
                old(self).request_count as int
            },
    {
        if self.request_count < usize::MAX {
            self.request_count = self.request_count + 1;
        }
    }

    /// Applies one read outcome to the session: data keeps the loop
    /// going and is dispatched; a peer close or an idle timeout ends the
    /// loop cleanly; any other failure ends it as an error.
    pub fn on_read(&mut self, outcome: ReadOutcome) -> (step: ReadStep)
        ensures
            final(self).id == old(self).id,
            final(self).request_count == old(self).request_count,
            match outcome {
                ReadOutcome::Data(line) => final(self).keep_alive == old(self).keep_alive && step
                    == ReadStep::Dispatch(line),
                ReadOutcome::Closed => !final(self).keep_alive && step == ReadStep::CloseClean,
                ReadOutcome::TimedOut => !final(self).keep_alive && step == ReadStep::CloseClean,
                ReadOutcome::Disconnected => !final(self).keep_alive && step
                    == ReadStep::CloseClean,
                ReadOutcome::Failed => !final(self).keep_alive && step == ReadStep::CloseError,
            },
    {
        match outcome {
            ReadOutcome::Data(line) => ReadStep::Dispatch(line),
            ReadOutcome::Closed => {
                self.keep_alive = false;
                ReadStep::CloseClean
            },
            ReadOutcome::TimedOut => {
                self.keep_alive = false;
                ReadStep::CloseClean
            },
            ReadOutcome::Disconnected => {
                self.keep_alive = false;
                ReadStep::CloseClean
            },
            ReadOutcome::Failed => {
                self.keep_alive = false;
                ReadStep::CloseError
            },
        }
    }
}

/// The per-request bundle threaded through the middleware chain: the
/// owning connection's identity and request number, the parsed request
/// line, and the response status, `0` while no middleware has answered.
pub struct HttpContext {
    pub client_id: usize,
    pub request_count: usize,
    pub verb: String,
    pub path_and_query: String,
    pub path: String,
    pub query: String,
    pub status: u16,
}

/// The mathematical content of a request context.
#[verifier::ext_equal]
pub struct CtxModel {
    pub client_id: usize,
    pub request_count: usize,
    pub verb: Seq<char>,
    pub path_and_query: Seq<char>,
    pub path: Seq<char>,
    pub query: Seq<char>,
    pub status: u16,
}

impl View for HttpContext {
    type V = CtxModel;

    open spec fn view(&self) -> CtxModel {
        CtxModel {
            client_id: self.client_id,
            request_count: self.request_count,
            verb: self.verb@,
            path_and_query: self.path_and_query@,
            path: self.path@,
            query: self.query@,
            status: self.status,
        }
    }
}

/// The context a parsed request line opens on a connection: status zero.
pub open spec fn fresh_ctx(client_id: usize, request_count: usize, req: ReqModel) -> CtxModel {
    CtxModel {
        client_id,
        request_count,
        verb: req.verb,
        path_and_query: req.path_and_query,
        path: req.path,
        query: req.query,
        status: 0,
    }
}

impl HttpContext {
    /// A fresh, unanswered context for one request on a connection.
    pub fn new(client: &ClientConnection, request: HttpRequest) -> (c: HttpContext)
        ensures
            c@ == fresh_ctx(client.id, client.request_count, request@),
    {
        HttpContext {
            client_id: client.id,
            request_count: client.request_count,
            verb: request.verb,
            path_and_query: request.path_and_query,
            path: request.path,
            query: request.query,
            status: 0,
        }
    }
}

/// Parses one request line received on this connection and starts its
/// traversal of the chain, on a fresh, unanswered context.
pub fn handle_request(chain: &Vec<Middleware>, client: &ClientConnection, line: &str) -> (m:
    ChainRun)
    ensures
        m.inv(),
        m.chain_view() == chain_model(chain@),
        m.start_ctx() == fresh_ctx(client.id, client.request_count, parse_model(line@)),
        m.answers_given() == Seq::<Option<Seq<u8>>>::empty(),
{
    let req = parse_request_line(line);
    let context = HttpContext::new(client, req);
    ChainRun::new(chain, context)
}

/// The server: a middleware chain assembled once, in insertion order.
/// The first node added is the entry point each request traverses.
pub struct Server {
    middleware: Vec<Middleware>,
}

impl View for Server {
    type V = Seq<MwModel>;

    closed spec fn view(&self) -> Seq<MwModel> {
        chain_model(self.middleware@)
    }
}

impl Server {
    /// A server with an empty chain.  It may not start before a
    /// middleware node is added.
    pub fn new() -> (s: Server)
        ensures
            s@ =~= Seq::<MwModel>::empty(),
    {
        Server { middleware: Vec::new() }
    }

    /// Appends a node at the end of the chain, keeping insertion order.
    pub fn add_middleware(&mut self, middleware: Middleware)
        ensures
            final(self)@ == old(self)@.push(middleware@),
    {
        let ghost m = middleware@;
        self.middleware.push(middleware);
        proof {
            assert(chain_model(self.middleware@) =~= chain_model(old(self).middleware@).push(m));
        }
    }

    /// The chain, in insertion order.
    pub fn chain(&self) -> (r: &Vec<Middleware>)
        ensures
            chain_model(r@) == self@,
    {
        &self.middleware
    }

    /// Starting with an empty chain is a configuration error; a caller
    /// must check this before accepting connections.
    pub fn can_start(&self) -> (r: bool)
        ensures
            r == (self@.len() > 0),
    {
        self.middleware.len() > 0
    }
}

} // verus!
