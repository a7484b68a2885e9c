use chttp::agent::Agent;
use chttp::client::Client;
use chttp::client::ResponseFuture;
use chttp::client::State;
use chttp::error::ClientError;
use chttp::error::TransportError;
use chttp::handler::BodyPoll;
use chttp::handler::RequestHandler;
use chttp::handler::WriteOutcome;
use chttp::request::Body;
use chttp::task::Poll;

type Worker = Agent<curl::easy::Easy>;

/// A small deterministic stand-in for a server's random delays.
struct Dice(u64);

impl Dice {
    fn roll(&mut self, sides: usize) -> usize {
        self.0 = self.0.wrapping_mul(6364136223846793005).wrapping_add(1442695040888963407);
        ((self.0 >> 33) % (sides as u64)) as usize
    }
}

fn submitted(client: &Client, agent: &mut Worker, uri: &str) -> (ResponseFuture, u64) {
    let mut future = client.get_async(uri);
    assert!(matches!(future.poll(client, agent), Poll::Pending));
    assert_eq!(future.state(), State::Submitted);
    let token = future.token().unwrap();
    (future, token)
}

fn head(future: &mut ResponseFuture) {
    assert!(future.on_header(b"HTTP/1.1 200 OK\r\n"));
    assert!(future.on_header(b"server: test\r\n"));
    assert!(future.on_header(b"\r\n"));
}

#[test]
fn fifty_concurrent_transfers_do_not_mix() {
    let client = Client::new();
    let mut agent = Worker::new();
    let mut dice = Dice(7);

    let bodies: Vec<Vec<u8>> = (0..50)
        .map(|i| format!("body of request {} ", i).repeat(20 + i).into_bytes())
        .collect();
    let mut futures = Vec::new();
    for i in 0..50 {
        let (future, token) = submitted(&client, &mut agent, &format!("http://localhost/{}", i));
        assert_eq!(token, i as u64);
        futures.push(future);
    }
    assert_eq!(agent.queued_count(), 50);
    while let Some(submission) = agent.next_submission() {
        assert!(agent.is_active(submission.token));
    }
    assert_eq!(agent.active_count(), 50);

    // How far each transfer has come: 0 before the head, then the number
    // of body bytes handed over plus one; and what each caller has read.
    let mut progress = vec![0usize; 50];
    let mut finished = vec![false; 50];
    let mut resolved = vec![false; 50];
    let mut read: Vec<Vec<u8>> = vec![Vec::new(); 50];
    let mut ended = 0;
    while ended < 50 {
        let i = dice.roll(50);
        if dice.roll(2) == 0 {
            // The engine works on transfer i.
            if finished[i] {
                continue;
            }
            if progress[i] == 0 {
                head(&mut futures[i]);
                progress[i] = 1;
            } else if progress[i] - 1 < bodies[i].len() {
                let from = progress[i] - 1;
                let to = usize::min(from + 1 + dice.roll(64), bodies[i].len());
                match futures[i].on_body(&bodies[i][from..to]) {
                    WriteOutcome::Accepted(n) => progress[i] += n,
                    WriteOutcome::Pause => {},
                    WriteOutcome::Abort => panic!("transfer {} was given up", i),
                }
            } else {
                futures[i].on_complete(Ok(()));
                assert!(agent.complete(i as u64, true));
                finished[i] = true;
            }
        } else {
            // The caller of transfer i polls.
            if !resolved[i] {
                match futures[i].poll(&client, &mut agent) {
                    Poll::Ready(Ok(response)) => {
                        assert_eq!(response.status, 200);
                        resolved[i] = true;
                    },
                    Poll::Ready(Err(error)) => panic!("transfer {} failed: {:?}", i, error),
                    Poll::Pending => assert_eq!(progress[i], 0),
                }
            } else if futures[i].state() != State::Complete {
                match futures[i].poll_body(&mut agent) {
                    BodyPoll::Chunk(piece) => read[i].extend_from_slice(&piece),
                    BodyPoll::Pending => {},
                    BodyPoll::End => ended += 1,
                    BodyPoll::Failed(error) => panic!("transfer {} failed: {:?}", i, error),
                }
            }
        }
    }
    for i in 0..50 {
        assert_eq!(read[i], bodies[i], "body of transfer {}", i);
        assert_eq!(futures[i].state(), State::Complete);
    }
    assert_eq!(agent.active_count(), 0);
    assert_eq!(agent.queued_count(), 0);
    assert_eq!(agent.ended_count(), 50);
}

#[test]
fn dropped_right_after_submission() {
    let client = Client::new();
    let mut agent = Worker::new();
    let (mut dropped, token) = submitted(&client, &mut agent, "http://localhost/a");
    let (mut kept, other) = submitted(&client, &mut agent, "http://localhost/b");
    while agent.next_submission().is_some() {}
    assert_eq!(agent.active_count(), 2);

    dropped.cancel(&mut agent);
    assert_eq!(dropped.state(), State::Cancelled);
    assert_eq!(agent.active_count(), 1);
    assert!(!agent.is_active(token));
    assert!(agent.is_active(other));
    // The worker is told to let go of the engine's side, once.
    assert_eq!(agent.next_removal(), Some(token));
    assert_eq!(agent.next_removal(), None);

    // Whatever the engine still has for the dropped transfer bounces off.
    assert!(!dropped.on_header(b"HTTP/1.1 200 OK\r\n"));
    assert_eq!(dropped.on_body(b"late"), WriteOutcome::Abort);
    dropped.on_complete(Err(ClientError::Cancellation));
    assert!(!agent.complete(token, false));
    assert_eq!(dropped.poll_body(&mut agent), BodyPoll::End);
    assert!(matches!(dropped.poll(&client, &mut agent), Poll::Pending));

    // The other transfer is not disturbed.
    head(&mut kept);
    assert_eq!(kept.on_body(b"still here"), WriteOutcome::Accepted(10));
    kept.on_complete(Ok(()));
    assert!(agent.complete(other, true));
    assert!(matches!(kept.poll(&client, &mut agent), Poll::Ready(Ok(_))));
    assert_eq!(kept.poll_body(&mut agent), BodyPoll::Chunk(b"still here".to_vec()));
    assert_eq!(kept.poll_body(&mut agent), BodyPoll::End);
    assert_eq!(agent.active_count(), 0);
    assert_eq!(agent.ended_count(), 2);
}

#[test]
fn every_transfer_reaches_an_end() {
    let client = Client::new();
    let mut agent = Worker::new();
    let mut futures = Vec::new();
    for i in 0..9 {
        futures.push(submitted(&client, &mut agent, &format!("http://localhost/{}", i)).0);
    }
    // Three are cancelled while queued, the rest is registered.
    for i in 0..3 {
        futures[i].cancel(&mut agent);
    }
    assert_eq!(agent.queued_count(), 6);
    while agent.next_submission().is_some() {}
    assert_eq!(agent.active_count(), 6);
    assert_eq!(agent.next_removal(), None);
    // Three succeed, three fail.
    for i in 3..6 {
        head(&mut futures[i]);
        futures[i].on_complete(Ok(()));
        assert!(agent.complete(i as u64, true));
    }
    for i in 6..9 {
        futures[i].on_complete(Err(ClientError::Transport(TransportError::Engine { code: 7 })));
        assert!(agent.complete(i as u64, false));
    }
    assert_eq!(agent.queued_count() + agent.active_count(), 0);
    assert_eq!(agent.ended_count(), 9);
    for i in 0..3 {
        assert_eq!(futures[i].state(), State::Cancelled);
    }
    for i in 3..6 {
        assert!(matches!(futures[i].poll(&client, &mut agent), Poll::Ready(Ok(_))));
        assert_eq!(futures[i].poll_body(&mut agent), BodyPoll::End);
        assert_eq!(futures[i].state(), State::Complete);
    }
    for i in 6..9 {
        match futures[i].poll(&client, &mut agent) {
            Poll::Ready(Err(error)) => {
                assert_eq!(error, ClientError::Transport(TransportError::Engine { code: 7 }))
            },
            other => panic!("expected a failure: {:?}", other),
        }
        assert_eq!(futures[i].state(), State::Failed);
    }
}

#[test]
fn head_is_complete_before_body_is_read() {
    let mut handler = RequestHandler::new(Body::empty());
    // Nothing can be read before the response was handed over.
    assert_eq!(handler.poll_body(), BodyPoll::Pending);
    assert!(handler.on_header(b"HTTP/1.1 200 OK\r\n"));
    assert!(handler.on_header(b"etag: \"x\"\r\n"));
    assert!(matches!(handler.poll_response(), Poll::Pending));
    // A piece of the body arrives although the empty line never did: the
    // head counts as complete with it.
    assert_eq!(handler.on_body(b"abc"), WriteOutcome::Accepted(3));
    assert_eq!(handler.poll_body(), BodyPoll::Pending);
    match handler.poll_response() {
        Poll::Ready(Ok(response)) => {
            assert_eq!(response.status, 200);
            assert_eq!(response.headers, vec![(b"etag".to_vec(), b"\"x\"".to_vec())]);
        },
        other => panic!("no response: {:?}", other),
    }
    assert_eq!(handler.poll_body(), BodyPoll::Chunk(b"abc".to_vec()));
}

#[test]
fn body_without_a_head_is_refused() {
    let mut handler = RequestHandler::new(Body::empty());
    assert_eq!(handler.on_body(b"abc"), WriteOutcome::Abort);
    handler.on_complete(Ok(()));
    match handler.poll_response() {
        Poll::Ready(Err(error)) => {
            assert_eq!(error, ClientError::Transport(TransportError::NoResponse))
        },
        other => panic!("expected a failure: {:?}", other),
    }
}

#[test]
fn cancel_before_headers() {
    let client = Client::new();
    let mut agent = Worker::new();
    let (mut future, token) = submitted(&client, &mut agent, "http://localhost/");
    let (_other, _) = submitted(&client, &mut agent, "http://localhost/other");
    while agent.next_submission().is_some() {}
    assert!(future.on_header(b"HTTP/1.1 200 OK\r\n"));
    let before = agent.active_count();

    future.cancel(&mut agent);
    assert_eq!(agent.active_count(), before - 1);
    assert!(!agent.is_active(token));
    // A second cancellation changes nothing.
    future.cancel(&mut agent);
    assert!(!agent.cancel(token));
    assert_eq!(agent.active_count(), before - 1);
    assert_eq!(agent.ended_count(), 1);

    assert!(!future.on_header(b"\r\n"));
    assert_eq!(future.on_body(b"never seen"), WriteOutcome::Abort);
    for _ in 0..3 {
        assert_eq!(future.poll_body(&mut agent), BodyPoll::End);
    }
}

#[test]
fn cancel_before_the_first_poll() {
    let client = Client::new();
    let mut agent = Worker::new();
    let mut future = client.get_async("http://localhost/");
    assert_eq!(future.state(), State::Unsubmitted);
    future.cancel(&mut agent);
    assert_eq!(future.state(), State::Cancelled);
    assert!(matches!(future.poll(&client, &mut agent), Poll::Pending));
    assert_eq!(agent.queued_count(), 0);
    assert_eq!(agent.ended_count(), 0);
}

#[test]
fn drained_body_stays_ended() {
    let client = Client::new();
    let mut agent = Worker::new();
    let (mut future, token) = submitted(&client, &mut agent, "http://localhost/");
    agent.next_submission().unwrap();
    head(&mut future);
    assert_eq!(future.on_body(b"one"), WriteOutcome::Accepted(3));
    assert_eq!(future.on_body(b"two"), WriteOutcome::Accepted(3));
    future.on_complete(Ok(()));
    assert!(matches!(future.poll(&client, &mut agent), Poll::Ready(Ok(_))));
    assert_eq!(future.poll_body(&mut agent), BodyPoll::Chunk(b"one".to_vec()));
    assert_eq!(future.state(), State::BodyInUse);
    assert_eq!(future.poll_body(&mut agent), BodyPoll::Chunk(b"two".to_vec()));
    for _ in 0..4 {
        assert_eq!(future.poll_body(&mut agent), BodyPoll::End);
        assert_eq!(future.state(), State::Complete);
    }
    // The transfer is released once.
    assert!(agent.complete(token, true));
    assert!(!agent.complete(token, true));
    assert!(!agent.cancel(token));
    future.cancel(&mut agent);
    assert_eq!(future.state(), State::Complete);
    assert_eq!(agent.ended_count(), 1);
}

#[test]
fn slow_consumer_pauses_only_itself() {
    let client = Client::new();
    let mut agent = Worker::new();
    let (mut slow, slow_token) = submitted(&client, &mut agent, "http://localhost/slow");
    let (mut fast, fast_token) = submitted(&client, &mut agent, "http://localhost/fast");
    while agent.next_submission().is_some() {}
    head(&mut slow);
    head(&mut fast);
    assert!(matches!(slow.poll(&client, &mut agent), Poll::Ready(Ok(_))));
    assert!(matches!(fast.poll(&client, &mut agent), Poll::Ready(Ok(_))));

    // The slow caller never reads: its queue fills up, then the engine is
    // told to pause, again and again.
    let mut taken = 0;
    loop {
        match slow.on_body(b"piece") {
            WriteOutcome::Accepted(5) => taken += 1,
            WriteOutcome::Pause => break,
            other => panic!("unexpected answer {:?}", other),
        }
    }
    assert_eq!(taken, chttp::handler::DEFAULT_CAPACITY);
    assert_eq!(slow.on_body(b"piece"), WriteOutcome::Pause);

    // Meanwhile the fast transfer runs to its end.
    let mut read = Vec::new();
    for round in 0..100 {
        assert_eq!(fast.on_body(&[round as u8; 10]), WriteOutcome::Accepted(10));
        match fast.poll_body(&mut agent) {
            BodyPoll::Chunk(piece) => read.extend_from_slice(&piece),
            other => panic!("unexpected answer {:?}", other),
        }
    }
    fast.on_complete(Ok(()));
    assert!(agent.complete(fast_token, true));
    assert_eq!(fast.poll_body(&mut agent), BodyPoll::End);
    assert_eq!(fast.state(), State::Complete);
    assert_eq!(read.len(), 1000);

    // The slow one is still pending, and nothing asked to resume it.
    assert!(agent.is_active(slow_token));
    assert_eq!(slow.state(), State::HeadersReady);
    assert_eq!(agent.next_resume(), None);
    assert_eq!(slow.on_body(b"piece"), WriteOutcome::Pause);

    // Once its caller reads, the engine is asked to resume, and the piece
    // that was refused is taken.
    assert_eq!(slow.poll_body(&mut agent), BodyPoll::Chunk(b"piece".to_vec()));
    assert_eq!(agent.next_resume(), Some(slow_token));
    assert_eq!(agent.next_resume(), None);
    assert_eq!(slow.on_body(b"piece"), WriteOutcome::Accepted(5));
}

#[test]
fn failure_in_the_middle_of_the_body() {
    let client = Client::new();
    let mut agent = Worker::new();
    let (mut future, token) = submitted(&client, &mut agent, "http://localhost/");
    agent.next_submission().unwrap();
    head(&mut future);
    assert_eq!(future.on_body(b"partial"), WriteOutcome::Accepted(7));
    assert!(matches!(future.poll(&client, &mut agent), Poll::Ready(Ok(_))));
    future.on_complete(Err(ClientError::Transport(TransportError::Engine { code: 56 })));
    assert!(agent.complete(token, false));
    // The failure comes with the next read, once.
    assert_eq!(
        future.poll_body(&mut agent),
        BodyPoll::Failed(ClientError::Transport(TransportError::Engine { code: 56 }))
    );
    assert_eq!(future.state(), State::Failed);
    assert_eq!(future.poll_body(&mut agent), BodyPoll::End);
    assert!(matches!(future.poll(&client, &mut agent), Poll::Pending));
}

#[test]
fn failure_before_the_head() {
    let client = Client::new();
    let mut agent = Worker::new();
    let (mut future, token) = submitted(&client, &mut agent, "http://localhost/");
    agent.next_submission().unwrap();
    future.on_complete(Err(ClientError::Transport(TransportError::Engine { code: 6 })));
    assert!(agent.complete(token, false));
    // The caller was suspended and is notified.
    assert!(future.take_wake());
    assert!(!future.take_wake());
    match future.poll(&client, &mut agent) {
        Poll::Ready(Err(error)) => {
            assert_eq!(error, ClientError::Transport(TransportError::Engine { code: 6 }))
        },
        other => panic!("expected a failure: {:?}", other),
    }
    assert_eq!(future.state(), State::Failed);
    assert!(matches!(future.poll(&client, &mut agent), Poll::Pending));
    assert_eq!(future.poll_body(&mut agent), BodyPoll::End);
}

#[test]
fn redirect_starts_the_head_over() {
    let mut handler = RequestHandler::new(Body::empty());
    assert!(handler.on_header(b"HTTP/1.1 302 Found\r\n"));
    assert!(handler.on_header(b"location: /next\r\n"));
    assert!(handler.on_header(b"HTTP/1.1 200 OK\r\n"));
    assert!(handler.on_header(b"content-length: 2\r\n"));
    assert!(handler.on_header(b"\r\n"));
    match handler.poll_response() {
        Poll::Ready(Ok(response)) => {
            assert_eq!(response.status, 200);
            assert_eq!(response.headers, vec![(b"content-length".to_vec(), b"2".to_vec())]);
        },
        other => panic!("no response: {:?}", other),
    }
    assert_eq!(handler.on_body(b"ok"), WriteOutcome::Accepted(2));
    // Lines after the body has begun are trailers; they are not kept.
    assert!(handler.on_header(b"HTTP/1.1 500 Oops\r\n"));
    assert!(handler.on_header(b"x-trailer: 1\r\n"));
    assert_eq!(handler.poll_body(), BodyPoll::Chunk(b"ok".to_vec()));
}

#[test]
fn empty_body_completes_at_once() {
    let mut handler = RequestHandler::new(Body::empty());
    assert!(handler.on_header(b"HTTP/1.1 204 No Content\r\n"));
    assert!(handler.on_header(b"\r\n"));
    assert_eq!(handler.on_body(b""), WriteOutcome::Accepted(0));
    handler.on_complete(Ok(()));
    match handler.poll_response() {
        Poll::Ready(Ok(response)) => assert_eq!(response.status, 204),
        other => panic!("no response: {:?}", other),
    }
    assert_eq!(handler.poll_body(), BodyPoll::End);
    assert_eq!(handler.poll_body(), BodyPoll::End);
}

#[test]
fn malformed_head_stops_the_engine() {
    let mut handler = RequestHandler::new(Body::empty());
    assert!(!handler.on_header(b"HTTP/1.1 2x0 OK\r\n"));
    assert!(!handler.on_header(b"no colon here\r\n"));
    assert!(matches!(handler.poll_response(), Poll::Pending));
}

#[test]
fn waiting_caller_is_notified() {
    let mut handler = RequestHandler::new(Body::empty());
    assert!(handler.on_header(b"HTTP/1.1 200 OK\r\n"));
    // Nobody waits yet: no notification.
    assert!(!handler.take_wake());
    assert!(matches!(handler.poll_response(), Poll::Pending));
    assert!(handler.on_header(b"\r\n"));
    assert!(handler.take_wake());
    assert!(matches!(handler.poll_response(), Poll::Ready(Ok(_))));
    assert_eq!(handler.poll_body(), BodyPoll::Pending);
    assert_eq!(handler.on_body(b"x"), WriteOutcome::Accepted(1));
    assert!(handler.take_wake());
    assert!(!handler.take_wake());
}

#[test]
fn a_terminated_worker_fails_what_was_in_flight() {
    let client = Client::new();
    let mut agent = Worker::new();
    let (mut active, first) = submitted(&client, &mut agent, "http://localhost/a");
    agent.next_submission().unwrap();
    let (mut queued, second) = submitted(&client, &mut agent, "http://localhost/b");
    head(&mut active);
    assert!(matches!(active.poll(&client, &mut agent), Poll::Ready(Ok(_))));

    assert_eq!(agent.shutdown(), vec![second, first]);
    active.on_complete(Err(ClientError::AgentUnreachable));
    queued.on_complete(Err(ClientError::AgentUnreachable));
    assert_eq!(agent.ended_count(), 2);

    assert_eq!(active.poll_body(&mut agent), BodyPoll::Failed(ClientError::AgentUnreachable));
    assert_eq!(active.state(), State::Failed);
    match queued.poll(&client, &mut agent) {
        Poll::Ready(Err(error)) => assert_eq!(error, ClientError::AgentUnreachable),
        other => panic!("expected a failure: {:?}", other),
    }
    assert_eq!(queued.state(), State::Failed);
    // Cancelling now reaches no worker and changes nothing.
    queued.cancel(&mut agent);
    assert_eq!(queued.state(), State::Failed);
    assert_eq!(agent.ended_count(), 2);
}

#[test]
fn a_transfer_let_go_behind_the_callers_back() {
    let client = Client::new();
    let mut agent = Worker::new();
    let (mut future, token) = submitted(&client, &mut agent, "http://localhost/");
    agent.next_submission().unwrap();
    // Somebody else cancels the transfer with the agent.
    assert!(agent.cancel(token));
    assert_eq!(agent.next_removal(), Some(token));
    future.on_complete(Err(ClientError::Cancellation));
    match future.poll(&client, &mut agent) {
        Poll::Ready(Err(error)) => {
            assert_eq!(error, ClientError::Cancellation);
            assert_eq!(error.describe(), "the transfer was cancelled");
        },
        other => panic!("expected a failure: {:?}", other),
    }
    assert_eq!(future.state(), State::Failed);
}

#[test]
fn nothing_is_taken_after_the_outcome() {
    let mut handler = RequestHandler::new(Body::empty());
    assert!(handler.on_header(b"HTTP/1.1 200 OK\r\n"));
    assert!(handler.on_header(b"\r\n"));
    assert_eq!(handler.on_body(b"in time"), WriteOutcome::Accepted(7));
    handler.on_complete(Ok(()));
    assert_eq!(handler.on_body(b"too late"), WriteOutcome::Abort);
    assert!(!handler.on_header(b"HTTP/1.1 500 Oops\r\n"));
    // A second report changes nothing.
    handler.on_complete(Err(ClientError::Transport(TransportError::Engine { code: 1 })));
    match handler.poll_response() {
        Poll::Ready(Ok(response)) => assert_eq!(response.status, 200),
        other => panic!("no response: {:?}", other),
    }
    assert_eq!(handler.poll_body(), BodyPoll::Chunk(b"in time".to_vec()));
    assert_eq!(handler.poll_body(), BodyPoll::End);
}
