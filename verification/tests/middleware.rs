use chttp::agent::Agent;
use chttp::client::Client;
use chttp::client::USER_AGENT;
use chttp::client::VERSION;
use chttp::middleware::apply_request;
use chttp::middleware::apply_response;
use chttp::middleware::Middleware;
use chttp::request::Body;
use chttp::request::Request;
use chttp::request::RequestView;
use chttp::response::Response;
use chttp::response::ResponseView;
use chttp::task::Poll;
use std::sync::Arc;
use std::sync::Mutex;

/// Leaves its mark on everything that passes.
struct Stamp(&'static str);

impl Middleware for Stamp {
    // The two descriptions exist for proofs only; nothing ever runs them.
    fn request_filter(&self, _: RequestView) -> RequestView {
        unreachable!()
    }

    fn response_filter(&self, _: ResponseView) -> ResponseView {
        unreachable!()
    }

    fn filter_request(&self, mut request: Request) -> Request {
        request.add_header("x-seen-by", self.0);
        request
    }

    fn filter_response(&self, mut response: Response) -> Response {
        response.headers.push((b"x-seen-by".to_vec(), self.0.as_bytes().to_vec()));
        response
    }
}

fn seen_by(headers: &[(String, String)]) -> Vec<&str> {
    headers.iter().filter(|h| h.0 == "x-seen-by").map(|h| h.1.as_str()).collect()
}

#[test]
fn requests_pass_from_the_outermost_layer_in() {
    let layers: Vec<Box<dyn Middleware>> =
        vec![Box::new(Stamp("inner")), Box::new(Stamp("middle")), Box::new(Stamp("outer"))];
    let request = Request::new("GET", "http://example.org/", Body::empty()).unwrap();
    let request = apply_request(&layers, request);
    assert_eq!(seen_by(&request.headers), vec!["outer", "middle", "inner"]);
    let untouched = Request::new("GET", "http://example.org/", Body::empty()).unwrap();
    assert!(apply_request(&vec![], untouched).headers.is_empty());
}

#[test]
fn responses_pass_from_the_innermost_layer_out() {
    let layers: Vec<Box<dyn Middleware>> =
        vec![Box::new(Stamp("inner")), Box::new(Stamp("middle")), Box::new(Stamp("outer"))];
    let response = apply_response(&layers, Response { status: 200, headers: vec![] });
    let marks: Vec<&[u8]> = response.headers.iter().map(|h| h.1.as_slice()).collect();
    assert_eq!(marks, vec![&b"inner"[..], &b"middle"[..], &b"outer"[..]]);
}

/// Notes the headers of every request that passes.
struct Spy(Arc<Mutex<Vec<(String, String)>>>);

impl Middleware for Spy {
    fn request_filter(&self, _: RequestView) -> RequestView {
        unreachable!()
    }

    fn response_filter(&self, _: ResponseView) -> ResponseView {
        unreachable!()
    }

    fn filter_request(&self, request: Request) -> Request {
        *self.0.lock().unwrap() = request.headers.clone();
        request
    }

    fn filter_response(&self, response: Response) -> Response {
        response
    }
}

/// The headers `request` has when a client for engine 7.64.1 has prepared
/// it, as the client's only layer sees them.
fn prepared_headers(request: Request) -> Vec<(String, String)> {
    let seen = Arc::new(Mutex::new(Vec::new()));
    let client = Client::builder().middleware(Box::new(Spy(seen.clone()))).build_for("7.64.1");
    let _future = client.send_async(request);
    let headers = seen.lock().unwrap().clone();
    headers
}

#[test]
fn the_client_passes_responses_through_its_layers() {
    let client = Client::builder()
        .middleware(Box::new(Stamp("first")))
        .middleware(Box::new(Stamp("second")))
        .build()
        .unwrap();
    let mut agent: Agent<curl::easy::Easy> = Agent::new();
    let mut future = client.get_async("http://localhost/");
    assert!(matches!(future.poll(&client, &mut agent), Poll::Pending));
    agent.next_submission().unwrap();
    assert!(future.on_header(b"HTTP/1.1 200 OK\r\n"));
    assert!(future.on_header(b"\r\n"));
    match future.poll(&client, &mut agent) {
        Poll::Ready(Ok(response)) => {
            assert_eq!(
                response.headers,
                vec![
                    (b"x-seen-by".to_vec(), b"first".to_vec()),
                    (b"x-seen-by".to_vec(), b"second".to_vec()),
                ]
            );
        },
        other => panic!("no response: {:?}", other),
    }
}

#[test]
fn the_client_passes_requests_through_its_layers() {
    let seen = Arc::new(Mutex::new(Vec::new()));
    let client = Client::builder()
        .middleware(Box::new(Stamp("inner")))
        .middleware(Box::new(Spy(seen.clone())))
        .middleware(Box::new(Stamp("outer")))
        .build_for("7.64.1");
    let _future = client.get_async("http://localhost/");
    // The spy sits between the two stamps: it sees the outer one only.
    let headers = seen.lock().unwrap().clone();
    assert_eq!(
        headers,
        vec![
            ("user-agent".to_string(), "curl/7.64.1 chttp/0.5.0".to_string()),
            ("x-seen-by".to_string(), "outer".to_string()),
        ]
    );
}

#[test]
fn the_product_token_is_a_default() {
    assert_eq!(USER_AGENT, "user-agent");
    assert_eq!(VERSION, "0.5.0");
    let plain = Request::new("GET", "http://localhost/", Body::empty()).unwrap();
    let mut named = Request::new("GET", "http://localhost/", Body::empty()).unwrap();
    named.add_header("User-Agent", "mine/1.0");
    assert_eq!(
        prepared_headers(plain),
        vec![("user-agent".to_string(), "curl/7.64.1 chttp/0.5.0".to_string())]
    );
    assert_eq!(
        prepared_headers(named),
        vec![("User-Agent".to_string(), "mine/1.0".to_string())]
    );
}

#[test]
fn a_version_that_cannot_stand_in_a_header_is_left_out() {
    let seen = Arc::new(Mutex::new(Vec::new()));
    let client = Client::builder().middleware(Box::new(Spy(seen.clone()))).build_for("8.\n0");
    let _future = client.get_async("http://localhost/");
    let headers = seen.lock().unwrap().clone();
    assert_eq!(headers, vec![("user-agent".to_string(), "curl/ chttp/0.5.0".to_string())]);
}

#[test]
fn the_engine_names_its_version() {
    // Whatever the engine's version is, the token has its two parts.
    let seen = Arc::new(Mutex::new(Vec::new()));
    let client = Client::builder().middleware(Box::new(Spy(seen.clone()))).build().unwrap();
    let _future = client.get_async("http://localhost/");
    let headers = seen.lock().unwrap().clone();
    assert_eq!(headers.len(), 1);
    assert_eq!(headers[0].0, "user-agent");
    assert!(headers[0].1.starts_with("curl/"));
    assert!(headers[0].1.ends_with(" chttp/0.5.0"));
    assert!(headers[0].1.len() > "curl/ chttp/0.5.0".len());
}
