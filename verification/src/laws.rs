//! The laws of the standard chain.
//!
//! The standard chain is the wiring the server is built with: request
//! logging first, then the router, then the static-file server.  These
//! proofs pin down how a whole request fares on it: who answers, that
//! exactly one node does, and what the log says.

use vstd::prelude::*;
use crate::chain::{apply_write, init_run, run_complete, spec_run, unwind, walk, RunState, WalkRes};
use crate::http::{content_type_for, default_response_model, plain_response_model, RespModel};
use crate::log::log_of;
use crate::middleware::{joined_fs_path, route_lookup, MwModel, RouteModel};
use crate::server::CtxModel;

verus! {

/// The chain the server runs: logging, router, static files.
pub open spec fn standard_chain(routes: Seq<RouteModel>, root: Seq<char>) -> Seq<MwModel> {
    seq![MwModel::Logging, MwModel::Router(routes), MwModel::StaticFile(root)]
}

/// A well-formed route table: every bound response carries a real
/// (non-zero) status, so an answered request reads as answered.
pub open spec fn wf_routes(routes: Seq<RouteModel>) -> bool {
    forall|i: int| 0 <= i < routes.len() ==> routes[i].response.status != 0
}

/// A lookup in a well-formed table never hands back a zero status.
pub proof fn lemma_route_lookup_wf(routes: Seq<RouteModel>, path: Seq<char>)
    requires
        wf_routes(routes),
    ensures
        route_lookup(routes, path) matches Some(r) ==> r.status != 0,
    decreases routes.len(),
{
    if routes.len() > 0 && !(routes[0].path == path) {
        assert(wf_routes(routes.drop_first())) by {
            assert(forall|i: int|
                0 <= i < routes.drop_first().len() ==> routes.drop_first()[i] == routes[i + 1]);
        }
        lemma_route_lookup_wf(routes.drop_first(), path);
    }
}

/// A request whose path is bound in the route table is answered by the
/// bound handler alone: its response is the only write, the filesystem
/// is never probed, and the log carries the handler's status.
pub proof fn lemma_routed_request(
    routes: Seq<RouteModel>,
    root: Seq<char>,
    ctx: CtxModel,
    answers: Seq<Option<Seq<u8>>>,
)
    requires
        ctx.status == 0,
        wf_routes(routes),
        route_lookup(routes, ctx.path) is Some,
    ensures
        ({
            let end = spec_run(standard_chain(routes, root), ctx, answers);
            let r = route_lookup(routes, ctx.path)->Some_0;
            &&& run_complete(standard_chain(routes, root), ctx, answers)
            &&& end.writes == seq![r]
            &&& end.reads == Seq::<Seq<char>>::empty()
            &&& end.ctx == (CtxModel { status: r.status, ..ctx })
            &&& end.logs == seq![log_of(CtxModel { status: r.status, ..ctx })]
        }),
{
    lemma_route_lookup_wf(routes, ctx.path);
    let chain = standard_chain(routes, root);
    assert(chain.len() == 3);
    assert(chain[0] == MwModel::Logging);
    assert(chain[1] == MwModel::Router(routes));
    assert(chain[2] == MwModel::StaticFile(root));
    let r = route_lookup(routes, ctx.path)->Some_0;
    let st1 = RunState {
        ctx: CtxModel { status: r.status, ..ctx },
        writes: seq![r],
        reads: Seq::empty(),
        logs: Seq::empty(),
    };
    assert(walk(chain, init_run(ctx), 0, answers) == walk(chain, init_run(ctx), 1, answers));
    assert(init_run(ctx).writes.push(r) =~= seq![r]);
    assert(walk(chain, init_run(ctx), 1, answers) == (WalkRes::Done { stop: 2, st: st1 }));
    let st2 = RunState { logs: seq![log_of(st1.ctx)], ..st1 };
    assert(st1.logs.push(log_of(st1.ctx)) =~= seq![log_of(st1.ctx)]);
    assert(unwind(chain, st1, 2) == unwind(chain, st1, 1));
    assert(unwind(chain, st1, 1) == unwind(chain, st2, 0));
    assert(spec_run(chain, ctx, answers) == st2);
}

/// With no route bound, a GET probes the filesystem under the root
/// before anything answers, and the probe decides the response: a file
/// with a supported extension is served whole with status 200 under its
/// MIME type; one with an unsupported extension is refused with status
/// 400 whether or not it exists as bytes; no file at all falls through
/// to the guaranteed default, status 404.
pub proof fn lemma_unrouted_get(
    routes: Seq<RouteModel>,
    root: Seq<char>,
    ctx: CtxModel,
    answers: Seq<Option<Seq<u8>>>,
)
    requires
        ctx.status == 0,
        ctx.verb == "GET"@,
        route_lookup(routes, ctx.path) is None,
        answers.len() >= 1,
    ensures
        ({
            let end = spec_run(standard_chain(routes, root), ctx, answers);
            &&& run_complete(standard_chain(routes, root), ctx, answers)
            &&& end.reads == seq![joined_fs_path(root, ctx.path)]
            &&& end.logs == seq![log_of(end.ctx)]
            &&& end.ctx == (CtxModel { status: end.ctx.status, ..ctx })
            &&& (match answers[0] {
                Some(bytes) => match content_type_for(ctx.path) {
                    Some(ct) => end.writes == seq![
                        RespModel { status: 200, reason: "OK"@, content_type: ct, body: bytes },
                    ] && end.ctx.status == 200,
                    None => end.writes == seq![
                        plain_response_model(400, "Bad Request"@, "file extension not supported!"@),
                    ] && end.ctx.status == 400,
                },
                None => end.writes == seq![
                    plain_response_model(404, "Not Found"@, "Resource Not Found"@),
                ] && end.ctx.status == 404,
            })
        }),
{
    let chain = standard_chain(routes, root);
    let st0 = init_run(ctx);
    assert(walk(chain, st0, 0, answers) == walk(chain, st0, 1, answers));
    assert(walk(chain, st0, 1, answers) == walk(chain, st0, 2, answers));
    let probed = RunState { reads: seq![joined_fs_path(root, ctx.path)], ..st0 };
    assert(st0.reads.push(joined_fs_path(root, ctx.path)) =~= seq![joined_fs_path(root, ctx.path)]);
    match answers[0] {
        Some(bytes) => {
            match content_type_for(ctx.path) {
                Some(ct) => {
                    let r = RespModel { status: 200, reason: "OK"@, content_type: ct, body: bytes };
                    let st1 = RunState {
                        ctx: CtxModel { status: 200, ..ctx },
                        writes: seq![r],
                        reads: probed.reads,
                        logs: Seq::empty(),
                    };
                    assert(probed.writes.push(r) =~= seq![r]);
                    assert(walk(chain, st0, 2, answers) == (WalkRes::Done { stop: 3, st: st1 }));
                    assert(st1.logs.push(log_of(st1.ctx)) =~= seq![log_of(st1.ctx)]);
                    let st2 = RunState { logs: seq![log_of(st1.ctx)], ..st1 };
                    assert(unwind(chain, st1, 3) == unwind(chain, st1, 2));
                    assert(unwind(chain, st1, 2) == unwind(chain, st1, 1));
                    assert(unwind(chain, st1, 1) == unwind(chain, st2, 0));
                    assert(spec_run(chain, ctx, answers) == st2);
                },
                None => {
                    let r = plain_response_model(
                        400,
                        "Bad Request"@,
                        "file extension not supported!"@,
                    );
                    let st1 = RunState {
                        ctx: CtxModel { status: 400, ..ctx },
                        writes: seq![r],
                        reads: probed.reads,
                        logs: Seq::empty(),
                    };
                    assert(probed.writes.push(r) =~= seq![r]);
                    assert(walk(chain, st0, 2, answers) == (WalkRes::Done { stop: 3, st: st1 }));
                    assert(st1.logs.push(log_of(st1.ctx)) =~= seq![log_of(st1.ctx)]);
                    let st2 = RunState { logs: seq![log_of(st1.ctx)], ..st1 };
                    assert(unwind(chain, st1, 3) == unwind(chain, st1, 2));
                    assert(unwind(chain, st1, 2) == unwind(chain, st1, 1));
                    assert(unwind(chain, st1, 1) == unwind(chain, st2, 0));
                    assert(spec_run(chain, ctx, answers) == st2);
                },
            }
        },
        None => {
            // nothing answered on the way forward; the walk runs off the end
            assert(walk(chain, probed, 3, answers.drop_first()) == (WalkRes::Done {
                stop: 3,
                st: probed,
            }));
            assert(walk(chain, st0, 2, answers) == (WalkRes::Done { stop: 3, st: probed }));
            let d = plain_response_model(404, "Not Found"@, "Resource Not Found"@);
            let st1 = RunState {
                ctx: CtxModel { status: 404, ..ctx },
                writes: seq![d],
                reads: probed.reads,
                logs: Seq::empty(),
            };
            assert(probed.writes.push(d) =~= seq![d]);
            assert(st1.logs.push(log_of(st1.ctx)) =~= seq![log_of(st1.ctx)]);
            let st2 = RunState { logs: seq![log_of(st1.ctx)], ..st1 };
            assert(unwind(chain, probed, 3) == unwind(chain, probed, 2));
            assert(unwind(chain, probed, 2) == unwind(chain, probed, 1));
            assert(default_response_model(probed.ctx.verb) == d);
            assert(apply_write(probed, d) == st1);
            assert(unwind(chain, probed, 1) == unwind(chain, st2, 0));
            assert(spec_run(chain, ctx, answers) == st2);
        },
    }
}

/// A non-GET verb with no matching route never touches the filesystem
/// and is answered Method Not Allowed by the guaranteed default.
pub proof fn lemma_non_get_default(
    routes: Seq<RouteModel>,
    root: Seq<char>,
    ctx: CtxModel,
    answers: Seq<Option<Seq<u8>>>,
)
    requires
        ctx.status == 0,
        ctx.verb != "GET"@,
        route_lookup(routes, ctx.path) is None,
    ensures
        ({
            let end = spec_run(standard_chain(routes, root), ctx, answers);
            let d = plain_response_model(405, "Method Not Allowed"@, "Method Not Allowed"@);
            &&& run_complete(standard_chain(routes, root), ctx, answers)
            &&& end.writes == seq![d]
            &&& end.reads == Seq::<Seq<char>>::empty()
            &&& end.ctx == (CtxModel { status: 405, ..ctx })
            &&& end.logs == seq![log_of(CtxModel { status: 405, ..ctx })]
        }),
{
    let chain = standard_chain(routes, root);
    let st0 = init_run(ctx);
    assert(walk(chain, st0, 0, answers) == walk(chain, st0, 1, answers));
    assert(walk(chain, st0, 1, answers) == walk(chain, st0, 2, answers));
    assert(walk(chain, st0, 2, answers) == walk(chain, st0, 3, answers));
    assert(walk(chain, st0, 3, answers) == (WalkRes::Done { stop: 3, st: st0 }));
    let d = plain_response_model(405, "Method Not Allowed"@, "Method Not Allowed"@);
    let st1 = RunState {
        ctx: CtxModel { status: 405, ..ctx },
        writes: seq![d],
        reads: Seq::empty(),
        logs: Seq::empty(),
    };
    assert(st0.writes.push(d) =~= seq![d]);
    assert(st1.logs.push(log_of(st1.ctx)) =~= seq![log_of(st1.ctx)]);
    let st2 = RunState { logs: seq![log_of(st1.ctx)], ..st1 };
    assert(unwind(chain, st0, 3) == unwind(chain, st0, 2));
    assert(unwind(chain, st0, 2) == unwind(chain, st0, 1));
    assert(default_response_model(st0.ctx.verb) == d);
    assert(apply_write(st0, d) == st1);
    assert(unwind(chain, st0, 1) == unwind(chain, st2, 0));
    assert(spec_run(chain, ctx, answers) == st2);
}

/// Every request the standard chain completes gets exactly one response
/// and exactly one log record; the logged status is the status of the
/// one response, it is never zero, and the record names the connection
/// and request the context came from.
pub proof fn lemma_single_response(
    routes: Seq<RouteModel>,
    root: Seq<char>,
    ctx: CtxModel,
    answers: Seq<Option<Seq<u8>>>,
)
    requires
        ctx.status == 0,
        wf_routes(routes),
        run_complete(standard_chain(routes, root), ctx, answers),
    ensures
        ({
            let end = spec_run(standard_chain(routes, root), ctx, answers);
            &&& end.writes.len() == 1
            &&& end.logs.len() == 1
            &&& end.logs[0] == log_of(end.ctx)
            &&& end.logs[0].status == end.writes[0].status
            &&& end.ctx.status == end.writes[0].status
            &&& end.ctx.status != 0
            &&& end.logs[0].client_id == ctx.client_id
            &&& end.logs[0].request_count == ctx.request_count
        }),
{
    let chain = standard_chain(routes, root);
    if route_lookup(routes, ctx.path) is Some {
        lemma_routed_request(routes, root, ctx, answers);
        lemma_route_lookup_wf(routes, ctx.path);
    } else if ctx.verb == "GET"@ {
        if answers.len() == 0 {
            let st0 = init_run(ctx);
            assert(walk(chain, st0, 0, answers) == walk(chain, st0, 1, answers));
            assert(walk(chain, st0, 1, answers) == walk(chain, st0, 2, answers));
            assert(walk(chain, st0, 2, answers) == (WalkRes::More { at: 2, st: st0 }));
            assert(false);
        } else {
            lemma_unrouted_get(routes, root, ctx, answers);
        }
    } else {
        lemma_non_get_default(routes, root, ctx, answers);
    }
}

/// Two sequential requests on one connection — the first carrying
/// request number 1, the second request number 2, as the connection's
/// counter hands them out — leave two log records numbered 1 and 2.
pub proof fn lemma_sequential_requests_numbered(
    routes: Seq<RouteModel>,
    root: Seq<char>,
    ctx1: CtxModel,
    ctx2: CtxModel,
    answers1: Seq<Option<Seq<u8>>>,
    answers2: Seq<Option<Seq<u8>>>,
)
    requires
        ctx1.status == 0,
        ctx2.status == 0,
        ctx1.request_count == 1,
        ctx2.request_count == 2,
        wf_routes(routes),
        run_complete(standard_chain(routes, root), ctx1, answers1),
        run_complete(standard_chain(routes, root), ctx2, answers2),
    ensures
        ({
            let end1 = spec_run(standard_chain(routes, root), ctx1, answers1);
            let end2 = spec_run(standard_chain(routes, root), ctx2, answers2);
            &&& end1.logs.len() == 1 && end1.logs[0].request_count == 1
            &&& end2.logs.len() == 1 && end2.logs[0].request_count == 2
        }),
{
    lemma_single_response(routes, root, ctx1, answers1);
    lemma_single_response(routes, root, ctx2, answers2);
}

} // verus!
