use webserver::chain::ChainRun;
use webserver::http::{send, Response};
use webserver::middleware::{
    Middleware, RequestLoggingMiddleware, Route, RouterMiddleware, StaticFileMiddlware,
};
use webserver::server::{handle_request, ClientConnection, HttpContext, Server};

fn standard_chain(routes: Vec<Route>, root: &str) -> Vec<Middleware> {
    vec![
        Middleware::Logging(RequestLoggingMiddleware::new()),
        Middleware::Router(RouterMiddleware::new(routes)),
        Middleware::StaticFile(StaticFileMiddlware::new(root)),
    ]
}

fn run_to_end(
    chain: &Vec<Middleware>,
    line: &str,
    mut files: Vec<Option<Vec<u8>>>,
) -> (Vec<Response>, Vec<String>, Vec<String>, u16) {
    let client = ClientConnection::new(0);
    let mut run = handle_request(chain, &client, line);
    let mut asked: Vec<String> = Vec::new();
    while let Some(path) = run.needs_file() {
        asked.push(path);
        assert!(!files.is_empty(), "no file answer prepared for this probe");
        run.provide_file(chain, files.remove(0));
    }
    let outcome = run.finish();
    let logs: Vec<String> = outcome.logs.iter().map(|l| l.render()).collect();
    (outcome.writes, logs, asked, outcome.context.status)
}

#[test]
fn served_file_scenario() {
    // root holds index.html of exactly 10 bytes
    let chain = standard_chain(Vec::new(), "root");
    let body = b"0123456789".to_vec();
    let (writes, logs, asked, status) = run_to_end(
        &chain,
        "GET /index.html HTTP/1.1\r\n",
        vec![Some(body.clone())],
    );
    assert_eq!(status, 200);
    assert_eq!(asked, vec!["root/index.html".to_string()]);
    assert_eq!(writes.len(), 1);
    assert_eq!(writes[0].status, 200);
    assert_eq!(writes[0].content_type, "text/html");
    assert_eq!(writes[0].body, body);
    assert_eq!(
        writes[0].header_string(),
        "HTTP/1.1 200 OK\r\nContent-Type: text/html\r\nContent-Length: 10\r\n\r\n"
    );
    assert_eq!(logs, vec!["0 0 200 GET /index.html".to_string()]);
}

#[test]
fn routed_request_scenario() {
    let routes = vec![Route {
        path: "/hello".to_string(),
        response: send(200, "Ok", "Hello, World!"),
    }];
    let chain = standard_chain(routes, "root");
    let (writes, logs, asked, status) = run_to_end(&chain, "GET /hello HTTP/1.1\r\n", Vec::new());
    assert_eq!(status, 200);
    assert!(asked.is_empty(), "static-file middleware must not be invoked");
    assert_eq!(writes.len(), 1);
    assert_eq!(writes[0].status, 200);
    assert_eq!(writes[0].body, b"Hello, World!".to_vec());
    assert_eq!(
        writes[0].header_string(),
        "HTTP/1.1 200 Ok\r\nContent-Type: text/html\r\nContent-Length: 13\r\n\r\n"
    );
    assert_eq!(logs, vec!["0 0 200 GET /hello".to_string()]);
}

#[test]
fn missing_file_scenario() {
    let chain = standard_chain(Vec::new(), "root");
    let (writes, _logs, asked, status) =
        run_to_end(&chain, "GET /missing.xyz HTTP/1.1\r\n", vec![None]);
    assert_eq!(status, 404);
    assert_eq!(asked, vec!["root/missing.xyz".to_string()]);
    assert_eq!(writes.len(), 1);
    assert_eq!(writes[0].status, 404);
    assert_eq!(writes[0].body, b"Resource Not Found".to_vec());
}

#[test]
fn unsupported_extension_is_bad_request() {
    let chain = standard_chain(Vec::new(), "root");
    let (writes, _logs, _asked, status) = run_to_end(
        &chain,
        "GET /data.xyz HTTP/1.1\r\n",
        vec![Some(b"anything".to_vec())],
    );
    assert_eq!(status, 400);
    assert_eq!(writes.len(), 1);
    assert_eq!(writes[0].status, 400);
    assert_eq!(writes[0].body, b"file extension not supported!".to_vec());
}

#[test]
fn non_get_without_route_is_method_not_allowed() {
    let chain = standard_chain(Vec::new(), "root");
    let (writes, _logs, asked, status) =
        run_to_end(&chain, "POST /anything HTTP/1.1\r\n", Vec::new());
    assert_eq!(status, 405);
    assert!(asked.is_empty(), "a non-GET verb must not probe the filesystem");
    assert_eq!(writes.len(), 1);
    assert_eq!(writes[0].status, 405);
    assert_eq!(writes[0].body, b"Method Not Allowed".to_vec());
}

#[test]
fn route_wins_over_static_for_non_get() {
    let routes = vec![Route {
        path: "/hello".to_string(),
        response: send(200, "Ok", "Hello, World!"),
    }];
    let chain = standard_chain(routes, "root");
    let (writes, _logs, asked, status) =
        run_to_end(&chain, "POST /hello HTTP/1.1\r\n", Vec::new());
    assert_eq!(status, 200);
    assert!(asked.is_empty());
    assert_eq!(writes.len(), 1);
}

#[test]
fn two_requests_get_sequence_numbers_one_and_two() {
    let chain = standard_chain(Vec::new(), "root");
    let mut client = ClientConnection::new(7);
    let mut logs: Vec<String> = Vec::new();
    for _ in 0..2 {
        client.begin_request();
        let mut run = handle_request(&chain, &client, "GET /a.html HTTP/1.1\r\n");
        while run.needs_file().is_some() {
            run.provide_file(&chain, Some(b"x".to_vec()));
        }
        for l in run.finish().logs.iter() {
            logs.push(l.render());
        }
    }
    assert_eq!(
        logs,
        vec!["7 1 200 GET /a.html".to_string(), "7 2 200 GET /a.html".to_string()]
    );
}

#[test]
fn logging_alone_defaults_every_request() {
    let chain = vec![Middleware::Logging(RequestLoggingMiddleware::new())];
    let (writes, logs, asked, status) = run_to_end(&chain, "GET /x HTTP/1.1\r\n", Vec::new());
    assert_eq!(status, 404);
    assert!(asked.is_empty());
    assert_eq!(writes.len(), 1);
    assert_eq!(writes[0].status, 404);
    assert_eq!(logs, vec!["0 0 404 GET /x".to_string()]);
}

#[test]
fn second_static_root_is_a_fallback() {
    let chain = vec![
        Middleware::Logging(RequestLoggingMiddleware::new()),
        Middleware::StaticFile(StaticFileMiddlware::new("first")),
        Middleware::StaticFile(StaticFileMiddlware::new("second")),
    ];
    let (writes, _logs, asked, status) = run_to_end(
        &chain,
        "GET /page.html HTTP/1.1\r\n",
        vec![None, Some(b"fallback".to_vec())],
    );
    assert_eq!(status, 200);
    assert_eq!(
        asked,
        vec!["first/page.html".to_string(), "second/page.html".to_string()]
    );
    assert_eq!(writes.len(), 1);
    assert_eq!(writes[0].body, b"fallback".to_vec());
}

#[test]
fn server_chain_keeps_insertion_order() {
    let mut server = Server::new();
    assert!(!server.can_start());
    server.add_middleware(Middleware::Logging(RequestLoggingMiddleware::new()));
    server.add_middleware(Middleware::Router(RouterMiddleware::new(Vec::new())));
    server.add_middleware(Middleware::StaticFile(StaticFileMiddlware::new("www")));
    assert!(server.can_start());
    let chain = server.chain();
    assert_eq!(chain.len(), 3);
    assert!(matches!(chain[0], Middleware::Logging(_)));
    assert!(matches!(chain[1], Middleware::Router(_)));
    assert!(matches!(chain[2], Middleware::StaticFile(_)));
    // the server's own chain serves a request end to end
    let client = ClientConnection::new(1);
    let mut run = handle_request(chain, &client, "GET /style.css HTTP/1.1\r\n");
    while let Some(path) = run.needs_file() {
        assert_eq!(path, "www/style.css");
        run.provide_file(chain, Some(b"body{}".to_vec()));
    }
    let outcome = run.finish();
    assert_eq!(outcome.writes.len(), 1);
    assert_eq!(outcome.writes[0].status, 200);
    assert_eq!(outcome.writes[0].content_type, "text/css");
}

#[test]
fn fresh_context_is_unanswered() {
    let client = ClientConnection::new(3);
    let req = webserver::request::parse_request_line("GET /x HTTP/1.1\r\n");
    let ctx = HttpContext::new(&client, req);
    assert_eq!(ctx.status, 0);
    assert_eq!(ctx.client_id, 3);
    assert_eq!(ctx.verb, "GET");
}
