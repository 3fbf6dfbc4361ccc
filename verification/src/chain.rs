//! The middleware chain's execution protocol.
//!
//! A request traverses the chain in order.  Every node acts and then
//! delegates to the next node only while the status is still zero
//! ("unhandled"), so at most one node answers.  A static-file node must
//! ask the caller for a file; the walk therefore suspends there and goes
//! on once the caller has handed the bytes back (`ChainRun`).  When the
//! forward walk stops, the logging nodes it passed unwind innermost
//! first: whichever of them finds the status still zero supplies the
//! guaranteed default response, and each emits one log record.

use vstd::prelude::*;
use vstd::slice::slice_to_vec;
use crate::http::{
    default_response_model,
    send_404,
    send_405,
    send_file,
    static_answer,
    RespModel,
    Response,
};
use crate::log::{log_of, LogModel, LogRecord};
use crate::middleware::{
    chain_model,
    joined_fs_path,
    resolve_fs_path,
    route_find,
    route_lookup,
    Middleware,
    MwModel,
};
use crate::server::{CtxModel, HttpContext};
use crate::strutil::str_eq;

verus! {

/// Everything one request's traversal leaves behind: the context with
/// its final status, every response written in order, the filesystem
/// paths probed in order, and the log records emitted in order.
#[verifier::ext_equal]
pub struct RunState {
    pub ctx: CtxModel,
    pub writes: Seq<RespModel>,
    pub reads: Seq<Seq<char>>,
    pub logs: Seq<LogModel>,
}

/// A node answers: the response is recorded and the status set.
pub open spec fn apply_write(st: RunState, r: RespModel) -> RunState {
    RunState { ctx: CtxModel { status: r.status, ..st.ctx }, writes: st.writes.push(r), ..st }
}

/// The state a fresh context starts the chain in.
pub open spec fn init_run(ctx: CtxModel) -> RunState {
    RunState { ctx, writes: Seq::empty(), reads: Seq::empty(), logs: Seq::empty() }
}

/// Where the forward walk came to rest: `Done` once `stop` nodes were
/// entered and no further node may act, or `More` at a static-file node
/// that still needs a file answer.
#[verifier::ext_equal]
pub enum WalkRes {
    Done { stop: int, st: RunState },
    More { at: int, st: RunState },
}

/// The forward walk from node `i`, consuming file answers in order.
///
/// A logging node does nothing on the way forward.  A router node writes
/// the response bound to the context's path, if any.  A static-file node
/// serving a GET probes the filesystem — it consumes the next answer, or
/// suspends when none is left — and writes what the probe warrants.
/// After each node the walk continues only while the status is zero.
pub open spec fn walk(
    chain: Seq<MwModel>,
    st: RunState,
    i: int,
    answers: Seq<Option<Seq<u8>>>,
) -> WalkRes
    decreases chain.len() - i,
{
    if i < 0 || i >= chain.len() {
        WalkRes::Done { stop: chain.len() as int, st }
    } else {
        match chain[i] {
            MwModel::Logging => {
                if st.ctx.status == 0 {
                    walk(chain, st, i + 1, answers)
                } else {
                    WalkRes::Done { stop: i + 1, st }
                }
            },
            MwModel::Router(routes) => {
                let st1 = match route_lookup(routes, st.ctx.path) {
                    Some(r) => apply_write(st, r),
                    None => st,
                };
                if st1.ctx.status == 0 {
                    walk(chain, st1, i + 1, answers)
                } else {
                    WalkRes::Done { stop: i + 1, st: st1 }
                }
            },
            MwModel::StaticFile(root) => {
                if st.ctx.verb == "GET"@ {
                    if answers.len() == 0 {
                        WalkRes::More { at: i, st }
                    } else {
                        let probed = RunState {
                            reads: st.reads.push(joined_fs_path(root, st.ctx.path)),
                            ..st
                        };
                        let st1 = match static_answer(st.ctx.path, answers[0]) {
                            Some(r) => apply_write(probed, r),
                            None => probed,
                        };
                        if st1.ctx.status == 0 {
                            walk(chain, st1, i + 1, answers.drop_first())
                        } else {
                            WalkRes::Done { stop: i + 1, st: st1 }
                        }
                    }
                } else {
                    if st.ctx.status == 0 {
                        walk(chain, st, i + 1, answers)
                    } else {
                        WalkRes::Done { stop: i + 1, st }
                    }
                }
            },
        }
    }
}

/// The backward unwind over the first `i` nodes once the walk stopped:
/// each logging node among them, innermost first, supplies the default
/// response if the status is still zero, then emits one log record.
pub open spec fn unwind(chain: Seq<MwModel>, st: RunState, i: int) -> RunState
    decreases i,
{
    if i <= 0 {
        st
    } else {
        match chain[i - 1] {
            MwModel::Logging => {
                let st1 = if st.ctx.status == 0 {
                    apply_write(st, default_response_model(st.ctx.verb))
                } else {
                    st
                };
                let st2 = RunState { logs: st1.logs.push(log_of(st1.ctx)), ..st1 };
                unwind(chain, st2, i - 1)
            },
            _ => unwind(chain, st, i - 1),
        }
    }
}

/// Whether the given file answers suffice for the walk to finish.
pub open spec fn run_complete(
    chain: Seq<MwModel>,
    ctx: CtxModel,
    answers: Seq<Option<Seq<u8>>>,
) -> bool {
    walk(chain, init_run(ctx), 0, answers) is Done
}

/// The complete effect of one request on a chain, given the file answers
/// its static-file nodes consume in order.  Meaningful when
/// `run_complete` holds of the same arguments.
pub open spec fn spec_run(
    chain: Seq<MwModel>,
    ctx: CtxModel,
    answers: Seq<Option<Seq<u8>>>,
) -> RunState {
    match walk(chain, init_run(ctx), 0, answers) {
        WalkRes::Done { stop, st } => unwind(chain, st, stop),
        WalkRes::More { at, st } => st,
    }
}

/// Extending the answers does not disturb a finished walk, and resumes a
/// suspended one exactly where it stood.
pub proof fn lemma_walk_extend(
    chain: Seq<MwModel>,
    st: RunState,
    i: int,
    answers: Seq<Option<Seq<u8>>>,
    more: Seq<Option<Seq<u8>>>,
)
    ensures
        match walk(chain, st, i, answers) {
            WalkRes::Done { stop, st: st1 } => walk(chain, st, i, answers + more) == (
            WalkRes::Done { stop, st: st1 }),
            WalkRes::More { at, st: st1 } => walk(chain, st, i, answers + more) == walk(
                chain,
                st1,
                at,
                more,
            ),
        },
    decreases chain.len() - i,
{
    if i < 0 || i >= chain.len() {
    } else {
        match chain[i] {
            MwModel::Logging => {
                if st.ctx.status == 0 {
                    lemma_walk_extend(chain, st, i + 1, answers, more);
                }
            },
            MwModel::Router(routes) => {
                let st1 = match route_lookup(routes, st.ctx.path) {
                    Some(r) => apply_write(st, r),
                    None => st,
                };
                if st1.ctx.status == 0 {
                    lemma_walk_extend(chain, st1, i + 1, answers, more);
                }
            },
            MwModel::StaticFile(root) => {
                if st.ctx.verb == "GET"@ {
                    if answers.len() == 0 {
                        assert(answers + more =~= more);
                    } else {
                        assert((answers + more)[0] == answers[0]);
                        assert((answers + more).drop_first() =~= answers.drop_first() + more);
                        let probed = RunState {
                            reads: st.reads.push(joined_fs_path(root, st.ctx.path)),
                            ..st
                        };
                        let st1 = match static_answer(st.ctx.path, answers[0]) {
                            Some(r) => apply_write(probed, r),
                            None => probed,
                        };
                        if st1.ctx.status == 0 {
                            lemma_walk_extend(chain, st1, i + 1, answers.drop_first(), more);
                        }
                    }
                } else {
                    if st.ctx.status == 0 {
                        lemma_walk_extend(chain, st, i + 1, answers, more);
                    }
                }
            },
        }
    }
}

/// The models of written responses, in order.
pub open spec fn writes_model(writes: Seq<Response>) -> Seq<RespModel> {
    writes.map_values(|r: Response| r@)
}

/// The models of emitted log records, in order.
pub open spec fn logs_model(logs: Seq<LogRecord>) -> Seq<LogModel> {
    logs.map_values(|l: LogRecord| l@)
}

/// The model of a file answer: the bytes read, or `None` when the file
/// did not open.
pub open spec fn file_model(d: Option<Vec<u8>>) -> Option<Seq<u8>> {
    match d {
        Some(v) => Some(v@),
        None => None,
    }
}

proof fn lemma_writes_model_push(w: Seq<Response>, r: Response)
    ensures
        writes_model(w.push(r)) == writes_model(w).push(r@),
{
    assert(writes_model(w.push(r)) =~= writes_model(w).push(r@));
}

proof fn lemma_logs_model_push(l: Seq<LogRecord>, r: LogRecord)
    ensures
        logs_model(l.push(r)) == logs_model(l).push(r@),
{
    assert(logs_model(l.push(r)) =~= logs_model(l).push(r@));
}

fn clone_response(r: &Response) -> (c: Response)
    ensures
        c@ == r@,
{
    Response {
        status: r.status,
        reason: r.reason.clone(),
        content_type: r.content_type.clone(),
        body: slice_to_vec(r.body.as_slice()),
    }
}

/// What one finished request left behind: the context with its final
/// status, the responses written, and the log records emitted, with the
/// probed paths and consumed file answers as ghost history.
pub struct RequestOutcome {
    pub context: HttpContext,
    pub writes: Vec<Response>,
    pub logs: Vec<LogRecord>,
    pub reads: Ghost<Seq<Seq<char>>>,
    pub answers: Ghost<Seq<Option<Seq<u8>>>>,
}

/// One request's traversal of a middleware chain.  It suspends whenever
/// a static-file node must probe the filesystem: `needs_file` names the
/// path, the caller opens and reads it, and `provide_file` hands the
/// bytes (or `None`) back.  Once finished, `finish` yields the outcome,
/// which equals `spec_run` of the chain over the answers given.
pub struct ChainRun {
    ctx: HttpContext,
    writes: Vec<Response>,
    logs: Vec<LogRecord>,
    at: usize,
    pending: Option<String>,
    finished: bool,
    ctx0: Ghost<CtxModel>,
    chain0: Ghost<Seq<MwModel>>,
    reads: Ghost<Seq<Seq<char>>>,
    answers: Ghost<Seq<Option<Seq<u8>>>>,
}

impl ChainRun {
    /// The run's current observable state.
    pub closed spec fn cur(self) -> RunState {
        RunState {
            ctx: self.ctx@,
            writes: writes_model(self.writes@),
            reads: self.reads@,
            logs: logs_model(self.logs@),
        }
    }

    /// The chain this run traverses.
    pub closed spec fn chain_view(self) -> Seq<MwModel> {
        self.chain0@
    }

    /// The context the run started from.
    pub closed spec fn start_ctx(self) -> CtxModel {
        self.ctx0@
    }

    /// The file answers consumed so far, in order.
    pub closed spec fn answers_given(self) -> Seq<Option<Seq<u8>>> {
        self.answers@
    }

    /// Whether the traversal is complete.
    pub closed spec fn is_finished(self) -> bool {
        self.finished
    }

    /// The filesystem path the run is suspended on, if any.
    pub closed spec fn awaiting(self) -> Option<Seq<char>> {
        match self.pending {
            Some(p) => Some(p@),
            None => None,
        }
    }

    /// A run is either finished, with its state the complete effect of
    /// the chain over the answers given, or suspended at a static-file
    /// node, with the walk so far pinned down by the same answers.
    pub closed spec fn inv(self) -> bool {
        if self.finished {
            &&& self.pending is None
            &&& run_complete(self.chain0@, self.ctx0@, self.answers@)
            &&& self.cur() == spec_run(self.chain0@, self.ctx0@, self.answers@)
        } else {
            &&& self.at < self.chain0@.len()
            &&& self.chain0@[self.at as int] is StaticFile
            &&& self.pending is Some
            &&& self.pending->Some_0@ == joined_fs_path(
                self.chain0@[self.at as int]->StaticFile_0,
                self.ctx@.path,
            )
            &&& self.ctx@.verb == "GET"@
            &&& self.ctx@.status == 0
            &&& walk(self.chain0@, init_run(self.ctx0@), 0, self.answers@) == (WalkRes::More {
                at: self.at as int,
                st: self.cur(),
            })
        }
    }

    /// Mid-walk state: the walk over everything consumed so far rests
    /// exactly at node `at` with the current state.
    spec fn walking(self) -> bool {
        &&& !self.finished
        &&& self.pending is None
        &&& self.at <= self.chain0@.len()
        &&& self.ctx@.status == 0
        &&& walk(self.chain0@, init_run(self.ctx0@), 0, self.answers@) == walk(
            self.chain0@,
            self.cur(),
            self.at as int,
            Seq::<Option<Seq<u8>>>::empty(),
        )
    }

    /// Starts one request's traversal of the chain and carries it as far
    /// as the first filesystem probe, or to the end.
    pub fn new(chain: &Vec<Middleware>, context: HttpContext) -> (m: ChainRun)
        requires
            context@.status == 0,
        ensures
            m.inv(),
            m.chain_view() == chain_model(chain@),
            m.start_ctx() == context@,
            m.answers_given() == Seq::<Option<Seq<u8>>>::empty(),
    {
        let ghost c0 = context@;
        let mut m = ChainRun {
            ctx: context,
            writes: Vec::new(),
            logs: Vec::new(),
            at: 0,
            pending: None,
            finished: false,
            ctx0: Ghost(c0),
            chain0: Ghost(chain_model(chain@)),
            reads: Ghost(Seq::empty()),
            answers: Ghost(Seq::empty()),
        };
        proof {
            assert(m.cur() =~= init_run(c0));
        }
        m.advance(chain);
        m
    }

    /// Walks forward from the current node with no answers in hand,
    /// suspending at a static-file node that serves this GET, and
    /// unwinding once the walk stops.
    fn advance(&mut self, chain: &Vec<Middleware>)
        requires
            old(self).walking(),
            chain_model(chain@) == old(self).chain0@,
        ensures
            final(self).inv(),
            final(self).chain0 == old(self).chain0,
            final(self).ctx0 == old(self).ctx0,
            final(self).answers == old(self).answers,
        decreases chain@.len() - old(self).at,
    {
        if self.at >= chain.len() {
            self.unwind_from(chain);
            return ;
        }
        let node = &chain[self.at];
        proof {
            assert(self.chain0@[self.at as int] == chain@[self.at as int]@);
        }
        match node {
            Middleware::Logging(_) => {
                self.at = self.at + 1;
                self.advance(chain);
            },
            Middleware::Router(r) => {
                let found = route_find(&r.routes, self.ctx.path.as_str());
                let ghost pre = self.cur();
                match found {
                    Some(idx) => {
                        let resp = clone_response(&r.routes[idx].response);
                        self.ctx.status = resp.status;
                        self.writes.push(resp);
                        proof {
                            lemma_writes_model_push(old(self).writes@, resp);
                            assert(self.cur() =~= apply_write(
                                pre,
                                route_lookup(
                                    crate::middleware::routes_model(r.routes@),
                                    pre.ctx.path,
                                )->Some_0,
                            ));
                        }
                    },
                    None => {},
                }
                if self.ctx.status == 0 {
                    self.at = self.at + 1;
                    self.advance(chain);
                } else {
                    self.at = self.at + 1;
                    self.unwind_from(chain);
                }
            },
            Middleware::StaticFile(s) => {
                if str_eq(self.ctx.verb.as_str(), "GET") {
                    let p = resolve_fs_path(s.wwwroot.as_str(), self.ctx.path.as_str());
                    self.pending = Some(p);
                } else {
                    self.at = self.at + 1;
                    self.advance(chain);
                }
            },
        }
    }

    /// Unwinds the logging nodes among the first `at` nodes, innermost
    /// first: the default response if the status is still zero, and one
    /// log record each.
    fn unwind_from(&mut self, chain: &Vec<Middleware>)
        requires
            !old(self).finished,
            old(self).pending is None,
            chain_model(chain@) == old(self).chain0@,
            old(self).at <= chain@.len(),
            walk(old(self).chain0@, init_run(old(self).ctx0@), 0, old(self).answers@) == (
            WalkRes::Done { stop: old(self).at as int, st: old(self).cur() }),
        ensures
            final(self).inv(),
            final(self).chain0 == old(self).chain0,
            final(self).ctx0 == old(self).ctx0,
            final(self).answers == old(self).answers,
    {
        let ghost st_done = self.cur();
        let ghost stop = self.at as int;
        let ghost g_chain = self.chain0@;
        let ghost g_ctx0 = self.ctx0@;
        let ghost g_answers = self.answers@;
        let mut j: usize = self.at;
        while j > 0
            invariant
                j <= stop,
                stop <= chain@.len(),
                chain_model(chain@) == g_chain,
                self.chain0@ == g_chain,
                self.ctx0@ == g_ctx0,
                self.answers@ == g_answers,
                self.reads@ == st_done.reads,
                !self.finished,
                self.pending is None,
                unwind(g_chain, st_done, stop) == unwind(g_chain, self.cur(), j as int),
            decreases j,
        {
            j = j - 1;
            let node = &chain[j];
            proof {
                assert(g_chain[j as int] == chain@[j as int]@);
            }
            let ghost pre = self.cur();
            match node {
                Middleware::Logging(_) => {
                    if self.ctx.status == 0 {
                        let d = if str_eq(self.ctx.verb.as_str(), "GET") {
                            send_404(&mut self.ctx)
                        } else {
                            send_405(&mut self.ctx)
                        };
                        let ghost w0 = self.writes@;
                        self.writes.push(d);
                        proof {
                            lemma_writes_model_push(w0, d);
                            assert(self.cur() =~= apply_write(
                                pre,
                                default_response_model(pre.ctx.verb),
                            ));
                        }
                    }
                    let ghost mid = self.cur();
                    let rec = LogRecord::from_context(&self.ctx);
                    let ghost l0 = self.logs@;
                    self.logs.push(rec);
                    proof {
                        lemma_logs_model_push(l0, rec);
                        assert(self.cur() =~= (RunState {
                            logs: mid.logs.push(log_of(mid.ctx)),
                            ..mid
                        }));
                    }
                },
                _ => {},
            }
        }
        self.finished = true;
    }

    /// The filesystem path the run is waiting on; `None` once finished.
    pub fn needs_file(&self) -> (r: Option<String>)
        ensures
            r is Some <==> self.awaiting() is Some,
            r matches Some(p) ==> self.awaiting() == Some(p@),
            self.inv() ==> (r is Some <==> !self.is_finished()),
    {
        match &self.pending {
            Some(p) => Some(p.clone()),
            None => None,
        }
    }

    /// Hands back what the filesystem said for the path named by
    /// `needs_file`: the bytes read, or `None` when the file did not
    /// open.  The run consumes the answer and carries on.
    pub fn provide_file(&mut self, chain: &Vec<Middleware>, data: Option<Vec<u8>>)
        requires
            old(self).inv(),
            !old(self).is_finished(),
            chain_model(chain@) == old(self).chain_view(),
        ensures
            final(self).inv(),
            final(self).chain_view() == old(self).chain_view(),
            final(self).start_ctx() == old(self).start_ctx(),
            final(self).answers_given() == old(self).answers_given().push(file_model(data)),
    {
        let ghost a: Option<Seq<u8>> = file_model(data);
        proof {
            lemma_walk_extend(self.chain0@, init_run(self.ctx0@), 0, self.answers@, seq![a]);
            assert(self.answers@ + seq![a] =~= self.answers@.push(a));
        }
        let ghost resumed = self.cur();
        let ghost at0 = self.at as int;
        self.pending = None;
        self.answers = Ghost(self.answers@.push(a));
        // the walk over the pushed answers rests where it did, now with
        // one answer in hand
        proof {
            assert(walk(self.chain0@, init_run(self.ctx0@), 0, self.answers@) == walk(
                self.chain0@,
                resumed,
                at0,
                seq![a],
            ));
        }
        let chain_len = chain.len();
        proof {
            assert(self.chain0@.len() == chain_len);
        }
        let node = &chain[self.at];
        proof {
            assert(self.chain0@[self.at as int] == chain@[self.at as int]@);
        }
        match node {
            Middleware::StaticFile(s) => {
                proof {
                    self.reads@ = self.reads@.push(joined_fs_path(s.wwwroot@, self.ctx@.path));
                    assert(self.cur() =~= (RunState {
                        reads: resumed.reads.push(joined_fs_path(s.wwwroot@, resumed.ctx.path)),
                        ..resumed
                    }));
                }
                let ghost probed = self.cur();
                match data {
                    Some(bytes) => {
                        let resp = send_file(&mut self.ctx, bytes);
                        let ghost w0 = self.writes@;
                        self.writes.push(resp);
                        proof {
                            lemma_writes_model_push(w0, resp);
                            assert(self.cur() =~= apply_write(
                                probed,
                                static_answer(probed.ctx.path, a)->Some_0,
                            ));
                        }
                    },
                    None => {},
                }
                proof {
                    assert(seq![a].drop_first() =~= Seq::<Option<Seq<u8>>>::empty());
                }
                if self.ctx.status == 0 {
                    self.at = self.at + 1;
                    self.advance(chain);
                } else {
                    self.at = self.at + 1;
                    self.unwind_from(chain);
                }
            },
            _ => {
                proof {
                    assert(false);
                }
            },
        }
    }

    /// The outcome of a finished run: exactly what `spec_run` says the
    /// chain does with the answers that were given.
    pub fn finish(self) -> (o: RequestOutcome)
        requires
            self.inv(),
            self.is_finished(),
        ensures
            ({
                let end = spec_run(self.chain_view(), self.start_ctx(), self.answers_given());
                &&& run_complete(self.chain_view(), self.start_ctx(), self.answers_given())
                &&& o.context@ == end.ctx
                &&& writes_model(o.writes@) == end.writes
                &&& logs_model(o.logs@) == end.logs
                &&& o.reads@ == end.reads
                &&& o.answers@ == self.answers_given()
            }),
    {
        RequestOutcome {
            context: self.ctx,
            writes: self.writes,
            logs: self.logs,
            reads: self.reads,
            answers: self.answers,
        }
    }
}

} // verus!
