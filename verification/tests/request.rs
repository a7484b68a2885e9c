use chttp::client::Client;
use chttp::client::State;
use chttp::agent::Agent;
use chttp::error::ClientError;
use chttp::error::ConfigurationError;
use chttp::handler::BodyPoll;
use chttp::handler::ReadOutcome;
use chttp::handler::WriteOutcome;
use chttp::handler::RequestHandler;
use chttp::request::Body;
use chttp::request::BodyRead;
use chttp::request::Request;
use chttp::task::Poll;

#[test]
fn bodies_are_read_from_the_front() {
    let mut body = Body::from_bytes(b"hello world".to_vec());
    assert!(!body.is_empty());
    assert_eq!(body.len(), Some(11));
    assert_eq!(body.read(5), BodyRead::Data(b"hello".to_vec()));
    assert_eq!(body.read(0), BodyRead::Wait);
    assert_eq!(body.read(100), BodyRead::Data(b" world".to_vec()));
    assert_eq!(body.read(100), BodyRead::End);
    assert_eq!(body.read(0), BodyRead::End);
    assert_eq!(body.len(), Some(11));
}

#[test]
fn empty_bodies() {
    let mut body = Body::empty();
    assert!(body.is_empty());
    assert_eq!(body.len(), Some(0));
    assert_eq!(body.read(10), BodyRead::End);
    body.supply(b"ignored");
    assert_eq!(body.read(10), BodyRead::End);
    assert!(Body::from_bytes(vec![]).is_empty());
    assert!(!Body::streaming(None).is_empty());
    assert!(Body::streaming(Some(0)).is_empty());
}

#[test]
fn streamed_bodies_wait_for_their_producer() {
    let mut body = Body::streaming(Some(6));
    assert_eq!(body.len(), Some(6));
    assert_eq!(body.read(4), BodyRead::Wait);
    body.supply(b"abc");
    body.supply(b"def");
    assert_eq!(body.read(4), BodyRead::Data(b"abcd".to_vec()));
    assert_eq!(body.read(4), BodyRead::Data(b"ef".to_vec()));
    assert_eq!(body.read(4), BodyRead::Wait);
    body.finish();
    assert_eq!(body.read(4), BodyRead::End);
    body.supply(b"too late");
    assert_eq!(body.read(4), BodyRead::End);
}

#[test]
fn the_engine_pauses_until_the_body_has_more() {
    let mut agent: Agent<curl::easy::Easy> = Agent::new();
    let client = Client::new();
    let mut future = client.post_async("http://localhost/upload", Body::streaming(None));
    assert!(matches!(future.poll(&client, &mut agent), Poll::Pending));
    let token = agent.next_submission().unwrap().token;
    assert_eq!(agent.wait_timeout(None), 0);

    assert_eq!(future.on_read(16), ReadOutcome::Pause);
    assert_eq!(agent.next_resume(), None);
    future.supply_body(&mut agent, b"part one, ");
    assert_eq!(agent.next_resume(), Some(token));
    assert_eq!(agent.wait_timeout(None), 0);
    assert_eq!(future.on_read(16), ReadOutcome::Data(b"part one, ".to_vec()));
    // Not paused: supplying more asks for nothing.
    future.supply_body(&mut agent, b"part two");
    assert_eq!(agent.next_resume(), None);
    assert_eq!(future.on_read(4), ReadOutcome::Data(b"part".to_vec()));
    assert_eq!(future.on_read(16), ReadOutcome::Data(b" two".to_vec()));
    assert_eq!(future.on_read(16), ReadOutcome::Pause);
    future.finish_body(&mut agent);
    assert_eq!(agent.next_resume(), Some(token));
    assert_eq!(future.on_read(16), ReadOutcome::End);

    future.cancel(&mut agent);
    assert_eq!(future.on_read(16), ReadOutcome::Abort);
    assert_eq!(future.state(), State::Cancelled);
}

#[test]
fn handler_reads_the_request_body() {
    let mut handler = RequestHandler::with_capacity(Body::from_bytes(b"abc".to_vec()), 0);
    assert_eq!(handler.on_read(2), ReadOutcome::Data(b"ab".to_vec()));
    assert_eq!(handler.on_read(2), ReadOutcome::Data(b"c".to_vec()));
    assert_eq!(handler.on_read(2), ReadOutcome::End);
    assert!(!handler.take_resume());
}

#[test]
fn uris_are_checked() {
    assert!(Request::new("GET", "http://example.org/path?query=1", Body::empty()).is_ok());
    assert!(Request::new("GET", "/relative", Body::empty()).is_ok());
    for bad in ["", "http://exa mple.org/", "http://[::1", "\u{0}"] {
        match Request::new("GET", bad, Body::empty()) {
            Err(error) => {
                assert_eq!(error, ClientError::Configuration(ConfigurationError::InvalidUri))
            },
            Ok(_) => panic!("{:?} was taken for a URI", bad),
        }
    }
    let request = Request::checked("GET", Some("anything".to_string()), Body::empty()).unwrap();
    assert_eq!(request.uri, "anything");
    assert_eq!(request.method, "GET");
    assert!(request.headers.is_empty());
    assert!(Request::checked("GET", None, Body::empty()).is_err());
    // A request keeps its URI as the parser prints it.
    assert_eq!(Request::new("GET", "http://example.org", Body::empty()).unwrap().uri, "http://example.org/");
    assert_eq!(
        Request::new("GET", "HTTP://EXAMPLE.org/Path", Body::empty()).unwrap().uri,
        "http://EXAMPLE.org/Path"
    );
}

#[test]
fn an_invalid_uri_fails_at_the_first_poll() {
    let client = Client::new();
    let mut agent: Agent<curl::easy::Easy> = Agent::new();
    let mut future = client.get_async("http://exa mple.org/");
    assert_eq!(future.state(), State::Unsubmitted);
    match future.poll(&client, &mut agent) {
        Poll::Ready(Err(error)) => {
            assert_eq!(error, ClientError::Configuration(ConfigurationError::InvalidUri))
        },
        other => panic!("expected a failure: {:?}", other),
    }
    assert_eq!(future.state(), State::Failed);
    assert_eq!(agent.queued_count(), 0);
    assert!(matches!(future.poll(&client, &mut agent), Poll::Pending));
    assert_eq!(future.token(), None);
}

#[test]
fn an_unreachable_agent_fails_the_first_poll() {
    let client = Client::new();
    let mut agent: Agent<curl::easy::Easy> = Agent::new();
    agent.shutdown();
    let mut future = client.delete_async("http://example.org/");
    match future.poll(&client, &mut agent) {
        Poll::Ready(Err(error)) => assert_eq!(error, ClientError::AgentUnreachable),
        other => panic!("expected a failure: {:?}", other),
    }
    assert_eq!(future.state(), State::Failed);
    assert_eq!(error_text(ClientError::AgentUnreachable), "the agent is no longer running");
}

fn error_text(error: ClientError) -> &'static str {
    error.describe()
}

#[test]
fn headers_of_a_request() {
    let mut request = Request::new("GET", "http://example.org/", Body::empty()).unwrap();
    assert!(!request.has_header("accept"));
    request.add_header("Accept", "text/html");
    assert!(request.has_header("accept"));
    assert!(request.has_header("ACCEPT"));
    assert!(!request.has_header("accept-encoding"));
    request.default_header("accept", "*/*");
    request.default_header("user-agent", "test/1");
    request.default_header("User-Agent", "test/2");
    assert_eq!(
        request.headers,
        vec![
            ("Accept".to_string(), "text/html".to_string()),
            ("user-agent".to_string(), "test/1".to_string()),
        ]
    );
}

#[test]
fn methods_of_the_client() {
    let client = Client::new();
    let mut agent: Agent<curl::easy::Easy> = Agent::new();
    let uri = "http://localhost/";
    let mut futures = vec![
        client.get_async(uri),
        client.head_async(uri),
        client.post_async(uri, Body::from_bytes(b"x".to_vec())),
        client.put_async(uri, Body::from_bytes(b"y".to_vec())),
        client.delete_async(uri),
    ];
    for (i, future) in futures.iter_mut().enumerate() {
        assert!(matches!(future.poll(&client, &mut agent), Poll::Pending));
        assert_eq!(future.token(), Some(i as u64));
        assert_eq!(future.state(), State::Submitted);
    }
    assert_eq!(agent.queued_count(), 5);
}

#[test]
fn the_engine_is_resumed_for_what_it_waited_for() {
    let mut handler = RequestHandler::with_capacity(Body::streaming(None), 1);
    assert!(handler.on_header(b"HTTP/1.1 200 OK\r\n"));
    assert!(handler.on_header(b"\r\n"));
    assert!(matches!(handler.poll_response(), Poll::Ready(Ok(_))));
    assert_eq!(handler.on_body(b"one"), WriteOutcome::Accepted(3));

    // Paused for want of bytes to send: making room does not resume.
    assert_eq!(handler.on_read(8), ReadOutcome::Pause);
    assert_eq!(handler.poll_body(), BodyPoll::Chunk(b"one".to_vec()));
    assert!(!handler.take_resume());
    handler.supply_body(b"up");
    assert!(handler.take_resume());
    assert!(!handler.take_resume());
    assert_eq!(handler.on_read(8), ReadOutcome::Data(b"up".to_vec()));

    // Paused for want of room: news from the request body does not resume.
    assert_eq!(handler.on_body(b"two"), WriteOutcome::Accepted(3));
    assert_eq!(handler.on_body(b"three"), WriteOutcome::Pause);
    handler.supply_body(b"more");
    handler.finish_body();
    assert!(!handler.take_resume());
    assert_eq!(handler.poll_body(), BodyPoll::Chunk(b"two".to_vec()));
    assert!(handler.take_resume());
    assert_eq!(handler.on_body(b"three"), WriteOutcome::Accepted(5));
}

#[test]
fn dns_servers_refused_at_the_first_poll_are_passed_over() {
    let client = Client::builder().dns_servers(vec!["9.9.9.9\0".to_string()]).build_for("8.0");
    let mut agent: Agent<curl::easy::Easy> = Agent::new();
    let mut future = client.get_async("http://localhost/");
    assert!(future.passed_over().is_empty());
    assert!(matches!(future.poll(&client, &mut agent), Poll::Pending));
    assert_eq!(future.state(), State::Submitted);
    assert_eq!(future.passed_over(), &vec![3]);
    assert_eq!(agent.queued_count(), 1);
}
