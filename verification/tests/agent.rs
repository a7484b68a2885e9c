use chttp::agent::Action;
use chttp::agent::Agent;
use chttp::agent::Submission;
use chttp::agent::DEFAULT_MAX_WAIT;
use chttp::error::AgentError;

#[test]
fn wait_is_capped() {
    let mut agent: Agent<&str> = Agent::new();
    assert_eq!(DEFAULT_MAX_WAIT, 100);
    assert_eq!(agent.wait_timeout(Some(30)), 30);
    assert_eq!(agent.wait_timeout(Some(100)), 100);
    assert_eq!(agent.wait_timeout(Some(101)), 100);
    assert_eq!(agent.wait_timeout(Some(u64::MAX)), 100);
    assert_eq!(agent.wait_timeout(Some(0)), 0);
    assert_eq!(agent.wait_timeout(None), 100);

    let mut patient: Agent<&str> = Agent::with_max_wait(2500);
    assert_eq!(patient.wait_timeout(Some(2000)), 2000);
    assert_eq!(patient.wait_timeout(Some(3000)), 2500);
    assert_eq!(patient.wait_timeout(None), 2500);
}

#[test]
fn submit_and_cancel_wake_the_worker() {
    let mut agent: Agent<&str> = Agent::new();
    assert_eq!(agent.submit("a"), Ok(0));
    // The wake-up makes the next wait return at once, and is used up.
    assert_eq!(agent.wait_timeout(Some(50)), 0);
    assert_eq!(agent.wait_timeout(Some(50)), 50);
    agent.next_submission().unwrap();
    assert!(agent.cancel(0));
    assert_eq!(agent.wait_timeout(None), 0);
    assert_eq!(agent.wait_timeout(None), 100);
    // Cancelling what has ended wakes nobody.
    assert!(!agent.cancel(0));
    assert_eq!(agent.wait_timeout(None), 100);
}

#[test]
fn submissions_are_taken_in_order() {
    let mut agent: Agent<String> = Agent::new();
    for i in 0..5 {
        assert_eq!(agent.submit(format!("handle {}", i)), Ok(i));
    }
    assert_eq!(agent.queued_count(), 5);
    for i in 0..5 {
        let submission = agent.next_submission().unwrap();
        assert_eq!(submission.token, i);
        assert_eq!(submission.handle, format!("handle {}", i));
        assert!(agent.is_active(i));
    }
    assert!(agent.next_submission().is_none());
    assert_eq!(agent.active_count(), 5);
}

#[test]
fn cancelled_in_the_queue_never_reaches_the_engine() {
    let mut agent: Agent<&str> = Agent::new();
    assert_eq!(agent.submit("a"), Ok(0));
    assert_eq!(agent.submit("b"), Ok(1));
    assert_eq!(agent.submit("c"), Ok(2));
    assert!(agent.cancel(1));
    assert_eq!(agent.queued_count(), 2);
    assert_eq!(agent.next_submission().unwrap().handle, "a");
    assert_eq!(agent.next_submission().unwrap().handle, "c");
    assert!(agent.next_submission().is_none());
    assert_eq!(agent.next_removal(), None);
    assert_eq!(agent.ended_count(), 1);
    assert!(!agent.is_active(1));
}

#[test]
fn unknown_tokens_change_nothing() {
    let mut agent: Agent<&str> = Agent::new();
    assert_eq!(agent.submit("a"), Ok(0));
    assert!(!agent.cancel(17));
    assert!(!agent.complete(17, true));
    assert!(!agent.resume(17));
    // A queued transfer is not active yet: it cannot be retired or resumed.
    assert!(!agent.complete(0, true));
    assert!(!agent.resume(0));
    assert_eq!(agent.queued_count(), 1);
    assert_eq!(agent.active_count(), 0);
    assert_eq!(agent.ended_count(), 0);
    assert_eq!(agent.next_resume(), None);
}

#[test]
fn resume_requests_reach_the_worker() {
    let mut agent: Agent<&str> = Agent::new();
    assert_eq!(agent.submit("a"), Ok(0));
    assert_eq!(agent.submit("b"), Ok(1));
    while agent.next_submission().is_some() {}
    assert_eq!(agent.wait_timeout(None), 0);
    assert!(agent.resume(1));
    assert!(agent.resume(0));
    assert_eq!(agent.wait_timeout(None), 0);
    assert_eq!(agent.next_resume(), Some(1));
    assert_eq!(agent.next_resume(), Some(0));
    assert_eq!(agent.next_resume(), None);
}

#[test]
fn a_terminated_worker_is_unreachable() {
    let mut agent: Agent<&str> = Agent::new();
    assert!(agent.is_alive());
    assert_eq!(agent.submit("a"), Ok(0));
    assert_eq!(agent.submit("b"), Ok(1));
    assert_eq!(agent.submit("c"), Ok(2));
    agent.next_submission().unwrap();
    assert!(agent.complete(0, true));
    agent.next_submission().unwrap();

    let lost = agent.shutdown();
    assert_eq!(lost, vec![2, 1]);
    assert!(!agent.is_alive());
    assert_eq!(agent.queued_count(), 0);
    assert_eq!(agent.active_count(), 0);
    assert_eq!(agent.ended_count(), 3);
    assert_eq!(agent.submit("d"), Err(AgentError::AgentUnreachable));
    assert_eq!(agent.submit("e"), Err(AgentError::AgentUnreachable));
    assert_eq!(agent.queued_count(), 0);
}

#[test]
fn the_worker_goes_round() {
    let mut agent: Agent<&str> = Agent::new();
    // An idle round: perform, wait as long as allowed, retire.
    assert_eq!(agent.next_action(Some(5000)), Action::Perform);
    assert_eq!(agent.next_action(Some(5000)), Action::Wait(100));
    assert_eq!(agent.next_action(Some(5000)), Action::Retire);

    assert_eq!(agent.submit("a"), Ok(0));
    assert_eq!(agent.submit("b"), Ok(1));
    assert_eq!(agent.submit("c"), Ok(2));
    assert_eq!(agent.next_action(None), Action::Register(Submission { token: 0, handle: "a" }));
    assert_eq!(agent.next_action(None), Action::Register(Submission { token: 1, handle: "b" }));
    // What comes in during the intake is still taken in this round, and
    // what needs the engine's attention comes before new submissions.
    assert!(agent.cancel(0));
    assert!(agent.resume(1));
    assert_eq!(agent.next_action(None), Action::Remove(0));
    assert_eq!(agent.next_action(None), Action::Resume(1));
    assert_eq!(agent.next_action(None), Action::Register(Submission { token: 2, handle: "c" }));
    assert_eq!(agent.next_action(None), Action::Perform);
    // The wake-ups of this round make the wait return at once.
    assert_eq!(agent.next_action(Some(40)), Action::Wait(0));
    assert_eq!(agent.next_action(Some(40)), Action::Retire);
    assert!(agent.complete(1, true));
    assert_eq!(agent.next_action(Some(40)), Action::Perform);
    assert_eq!(agent.next_action(Some(40)), Action::Wait(40));
    // A submission during the wait wakes the worker; it is registered in
    // the next round.
    assert_eq!(agent.submit("d"), Ok(3));
    assert_eq!(agent.next_action(Some(40)), Action::Retire);
    assert_eq!(agent.next_action(Some(40)), Action::Register(Submission { token: 3, handle: "d" }));
    assert_eq!(agent.next_action(Some(40)), Action::Perform);
    assert_eq!(agent.next_action(Some(40)), Action::Wait(0));

    let lost = agent.shutdown();
    assert_eq!(lost, vec![2, 3]);
    assert_eq!(agent.next_action(Some(40)), Action::Stop);
    assert_eq!(agent.next_action(None), Action::Stop);
}
