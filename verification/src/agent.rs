//! The agent: the book of every transfer that was handed to the client's
//! single worker.
//!
//! Callers on any thread submit transfers, cancel them and ask for them to
//! be resumed; each of these is a note in the book and a wake-up for the
//! worker, nothing more. The worker alone talks to the engine. It goes
//! round a loop, doing each time what [`Agent::next_action`] says: let go
//! of what was cancelled, resume what was asked for, register what was
//! submitted, let the engine work, wait, retire what the engine reports
//! finished. Every transfer the agent accepted is, at any moment, queued,
//! active, or counted as ended.

use crate::error::AgentError;
use std::collections::VecDeque;
use vstd::prelude::*;

verus! {

/// The longest the worker waits before it looks at the queue again, in
/// milliseconds, unless the agent is made with another limit.
pub const DEFAULT_MAX_WAIT: u64 = 100;

/// A transfer that was submitted and is not registered with the engine yet.
#[derive(Debug, PartialEq, Eq)]
pub struct Submission<T> {
    /// The token the agent gave the transfer. No other transfer of this
    /// agent has or will have it.
    pub token: u64,
    /// The configured engine handle. The agent passes it on unopened.
    pub handle: T,
}

/// Where the worker stands in its round.
#[derive(Clone, Copy, Debug, PartialEq, Eq)]
pub enum Phase {
    /// Taking in what callers asked for since the last round.
    Intake,
    /// The engine has worked; the worker is about to wait.
    Wait,
    /// The wait is over; the worker is about to retire what has finished.
    Retire,
}

/// What the worker does next.
#[derive(Debug, PartialEq, Eq)]
pub enum Action<T> {
    /// Have the engine let go of the cancelled transfer with this token.
    Remove(u64),
    /// Have the engine resume the transfer with this token, if it still
    /// has it.
    Resume(u64),
    /// Register this submission with the engine.
    Register(Submission<T>),
    /// Let the engine do one step of work on all its transfers, without
    /// blocking.
    Perform,
    /// Wait until a socket is ready or a wake-up comes, but no longer than
    /// this many milliseconds.
    Wait(u64),
    /// Ask the engine which transfers have finished, and report each of
    /// them with [`Agent::complete`].
    Retire,
    /// Nothing: the worker has terminated.
    Stop,
}

/// The agent's book.
pub struct Agent<T> {
    queue: VecDeque<Submission<T>>,
    active: Vec<u64>,
    removals: VecDeque<u64>,
    resumes: VecDeque<u64>,
    next_token: u64,
    alive: bool,
    wake: bool,
    max_wait: u64,
    phase: Phase,
    completed: u64,
    failed: u64,
    cancelled: u64,
}

/// Mathematical value of an [`Agent`].
#[verifier::ext_equal]
pub struct AgentView<T> {
    /// The submissions that wait to be registered, oldest first.
    pub queue: Seq<Submission<T>>,
    /// The tokens of the transfers that are registered with the engine.
    pub active: Seq<u64>,
    /// The tokens of cancelled transfers that the engine still holds.
    pub removals: Seq<u64>,
    /// The tokens of transfers that the engine is to resume.
    pub resumes: Seq<u64>,
    /// The token that the next transfer gets; also the number of transfers
    /// accepted so far.
    pub next_token: u64,
    /// Whether the worker is running.
    pub alive: bool,
    /// Whether the worker has been asked to wake up.
    pub wake: bool,
    /// The longest the worker waits, in milliseconds.
    pub max_wait: u64,
    /// Where the worker stands in its round.
    pub phase: Phase,
    /// How many transfers the engine finished with success.
    pub completed: nat,
    /// How many transfers failed.
    pub failed: nat,
    /// How many transfers were cancelled.
    pub cancelled: nat,
}

/// The position of the first `token` in `tokens` at or after `from`; the
/// length of `tokens` if there is none.
pub open spec fn position(tokens: Seq<u64>, token: u64, from: int) -> int
    decreases tokens.len() - from,
{
    if from < 0 || from >= tokens.len() {
        tokens.len() as int
    } else if tokens[from] == token {
        from
    } else {
        position(tokens, token, from + 1)
    }
}

/// The tokens of a queue of submissions.
pub open spec fn tokens_of<T>(queue: Seq<Submission<T>>) -> Seq<u64> {
    queue.map_values(|s: Submission<T>| s.token)
}

/// The smaller of the engine's wish and the agent's limit; the limit if
/// the engine has no wish.
pub open spec fn capped(engine: Option<u64>, max_wait: u64) -> u64 {
    match engine {
        Some(ms) if ms <= max_wait => ms,
        _ => max_wait,
    }
}

impl<T> AgentView<T> {
    /// What holds of every agent.
    ///
    /// Tokens are given out in rising order and the queue keeps that order.
    /// No token stands twice among the queued and active transfers. And
    /// every transfer that was accepted is accounted for: it is queued, or
    /// active, or one of those that ended.
    pub open spec fn wf(self) -> bool {
        &&& forall|i: int, j: int|
            0 <= i < j < self.queue.len() ==> (#[trigger] self.queue[i]).token < (
            #[trigger] self.queue[j]).token
        &&& forall|i: int|
            0 <= i < self.queue.len() ==> (#[trigger] self.queue[i]).token < self.next_token
        &&& forall|i: int|
            0 <= i < self.active.len() ==> #[trigger] self.active[i] < self.next_token
        &&& forall|i: int, j: int|
            0 <= i < j < self.active.len() ==> #[trigger] self.active[i]
                != #[trigger] self.active[j]
        &&& forall|i: int, j: int|
            0 <= i < self.queue.len() && 0 <= j < self.active.len() ==> (
            #[trigger] self.queue[i]).token != #[trigger] self.active[j]
        &&& self.queue.len() + self.active.len() + self.ended() == self.next_token
    }

    /// The agent before anything was submitted.
    pub open spec fn fresh(max_wait: u64) -> AgentView<T> {
        AgentView {
            queue: Seq::empty(),
            active: Seq::empty(),
            removals: Seq::empty(),
            resumes: Seq::empty(),
            next_token: 0,
            alive: true,
            wake: false,
            max_wait,
            phase: Phase::Intake,
            completed: 0,
            failed: 0,
            cancelled: 0,
        }
    }

    /// How many transfers have ended: with success, with a failure, or
    /// cancelled.
    pub open spec fn ended(self) -> nat {
        self.completed + self.failed + self.cancelled
    }

    /// How many transfers have not ended yet.
    pub open spec fn pending(self) -> nat {
        self.queue.len() + self.active.len()
    }

    /// Whether `token` belongs to a transfer that is queued.
    pub open spec fn is_queued(self, token: u64) -> bool {
        position(tokens_of(self.queue), token, 0) < self.queue.len()
    }

    /// Whether `token` belongs to a transfer that is active.
    pub open spec fn is_active(self, token: u64) -> bool {
        position(self.active, token, 0) < self.active.len()
    }

    /// Whether the agent takes submissions: its worker runs, and a token
    /// is left to give.
    pub open spec fn accepting(self) -> bool {
        self.alive && self.next_token < u64::MAX
    }

    /// The agent after `handle` was submitted.
    pub open spec fn after_submit(self, handle: T) -> AgentView<T> {
        if self.accepting() {
            AgentView {
                queue: self.queue.push(Submission { token: self.next_token, handle }),
                next_token: (self.next_token + 1) as u64,
                wake: true,
                ..self
            }
        } else {
            self
        }
    }

    /// The agent after the transfer with `token` was cancelled.
    ///
    /// A queued transfer is taken out of the queue and never reaches the
    /// engine. An active transfer leaves the active set at once; the
    /// engine lets go of it when the worker comes round. A transfer that
    /// has ended, or a token that was never given, changes nothing.
    pub open spec fn after_cancel(self, token: u64) -> AgentView<T> {
        if self.is_queued(token) {
            AgentView {
                queue: self.queue.remove(position(tokens_of(self.queue), token, 0)),
                cancelled: self.cancelled + 1,
                ..self
            }
        } else if self.is_active(token) {
            AgentView {
                active: self.active.remove(position(self.active, token, 0)),
                removals: self.removals.push(token),
                cancelled: self.cancelled + 1,
                wake: true,
                ..self
            }
        } else {
            self
        }
    }

    /// The agent after it was asked to resume the transfer with `token`.
    /// Only an active transfer can be resumed.
    pub open spec fn after_resume(self, token: u64) -> AgentView<T> {
        if self.is_active(token) {
            AgentView { resumes: self.resumes.push(token), wake: true, ..self }
        } else {
            self
        }
    }

    /// The agent after the worker took the oldest submission to register
    /// it with the engine.
    pub open spec fn after_next_submission(self) -> AgentView<T> {
        if self.queue.len() > 0 {
            AgentView {
                queue: self.queue.subrange(1, self.queue.len() as int),
                active: self.active.push(self.queue[0].token),
                ..self
            }
        } else {
            self
        }
    }

    /// The agent after the engine reported the transfer with `token`
    /// finished, with success or not. Only an active transfer can be
    /// retired; any other report changes nothing.
    pub open spec fn after_complete(self, token: u64, success: bool) -> AgentView<T> {
        if self.is_active(token) {
            AgentView {
                active: self.active.remove(position(self.active, token, 0)),
                completed: if success {
                    self.completed + 1
                } else {
                    self.completed
                },
                failed: if success {
                    self.failed
                } else {
                    self.failed + 1
                },
                ..self
            }
        } else {
            self
        }
    }

    /// How long the worker waits, in milliseconds: not at all if it has
    /// been asked to wake up, else as in [`capped`].
    pub open spec fn wait(self, engine: Option<u64>) -> u64 {
        if self.wake {
            0
        } else {
            capped(engine, self.max_wait)
        }
    }

    /// What the worker does next, when the engine suggests to wait for
    /// `engine` milliseconds.
    ///
    /// A round begins with the intake: cancelled transfers are let go of,
    /// then paused ones are resumed, then submissions are registered, one
    /// per action and the oldest first. When nothing is left to take in,
    /// the engine performs. Then the worker waits (see
    /// [`AgentView::wait`]), then it retires what has finished, and the
    /// next round begins.
    pub open spec fn action(self, engine: Option<u64>) -> Action<T> {
        if !self.alive {
            Action::Stop
        } else {
            match self.phase {
                Phase::Intake => if self.removals.len() > 0 {
                    Action::Remove(self.removals[0])
                } else if self.resumes.len() > 0 {
                    Action::Resume(self.resumes[0])
                } else if self.queue.len() > 0 {
                    Action::Register(self.queue[0])
                } else {
                    Action::Perform
                },
                Phase::Wait => Action::Wait(self.wait(engine)),
                Phase::Retire => Action::Retire,
            }
        }
    }

    /// The agent after the worker was told what to do next.
    pub open spec fn after_action(self) -> AgentView<T> {
        if !self.alive {
            self
        } else {
            match self.phase {
                Phase::Intake => if self.removals.len() > 0 {
                    AgentView {
                        removals: self.removals.subrange(1, self.removals.len() as int),
                        ..self
                    }
                } else if self.resumes.len() > 0 {
                    AgentView {
                        resumes: self.resumes.subrange(1, self.resumes.len() as int),
                        ..self
                    }
                } else if self.queue.len() > 0 {
                    self.after_next_submission()
                } else {
                    AgentView { phase: Phase::Wait, ..self }
                },
                Phase::Wait => AgentView { wake: false, phase: Phase::Retire, ..self },
                Phase::Retire => AgentView { phase: Phase::Intake, ..self },
            }
        }
    }

    /// The agent after its worker terminated: nothing is queued or active
    /// any more, and what was counts as failed.
    pub open spec fn after_shutdown(self) -> AgentView<T> {
        AgentView {
            queue: Seq::empty(),
            active: Seq::empty(),
            failed: self.failed + self.queue.len() + self.active.len(),
            alive: false,
            ..self
        }
    }
}

/// Where [`position`] points: at the first occurrence, if there is one.
pub proof fn lemma_position(tokens: Seq<u64>, token: u64, from: int)
    requires
        0 <= from <= tokens.len(),
    ensures
        from <= position(tokens, token, from) <= tokens.len(),
        position(tokens, token, from) < tokens.len() ==> tokens[position(tokens, token, from)]
            == token,
        forall|j: int| from <= j < position(tokens, token, from) ==> tokens[j] != token,
    decreases tokens.len() - from,
{
    if from < tokens.len() && tokens[from] != token {
        lemma_position(tokens, token, from + 1);
    }
}

/// The agent after the worker took every queued submission.
pub open spec fn drained<T>(agent: AgentView<T>) -> AgentView<T>
    decreases agent.queue.len(),
{
    if agent.queue.len() == 0 {
        agent
    } else {
        drained(agent.after_next_submission())
    }
}

/// The agent after the engine's reports were taken in, the first one
/// first. A report is a token and whether that transfer succeeded.
pub open spec fn retired<T>(agent: AgentView<T>, reports: Seq<(u64, bool)>) -> AgentView<T>
    decreases reports.len(),
{
    if reports.len() == 0 {
        agent
    } else {
        retired(agent.after_complete(reports[0].0, reports[0].1), reports.skip(1))
    }
}

/// Whether there is a report for `token`.
pub open spec fn reported(reports: Seq<(u64, bool)>, token: u64) -> bool {
    exists|j: int| 0 <= j < reports.len() && (#[trigger] reports[j]).0 == token
}

/// Taking a submission keeps the agent well-formed and moves one transfer
/// from the queue to the active set.
pub proof fn lemma_next_submission<T>(agent: AgentView<T>)
    requires
        agent.wf(),
    ensures
        agent.after_next_submission().wf(),
        agent.after_next_submission().pending() == agent.pending(),
        agent.after_next_submission().ended() == agent.ended(),
        agent.after_next_submission().next_token == agent.next_token,
        agent.queue.len() > 0 ==> agent.after_next_submission().queue.len() == agent.queue.len()
            - 1,
{
}

/// Once the worker took every queued submission, nothing is queued and
/// everything that was pending is active.
pub proof fn lemma_drained<T>(agent: AgentView<T>)
    requires
        agent.wf(),
    ensures
        drained(agent).wf(),
        drained(agent).queue.len() == 0,
        drained(agent).active.len() == agent.pending(),
        drained(agent).ended() == agent.ended(),
        drained(agent).next_token == agent.next_token,
    decreases agent.queue.len(),
{
    if agent.queue.len() > 0 {
        lemma_next_submission(agent);
        lemma_drained(agent.after_next_submission());
    }
}

/// Retiring a transfer keeps the agent well-formed. An active transfer
/// leaves the active set and is counted as ended, once; the others stay.
pub proof fn lemma_complete<T>(agent: AgentView<T>, token: u64, success: bool)
    requires
        agent.wf(),
    ensures
        agent.after_complete(token, success).wf(),
        agent.after_complete(token, success).queue == agent.queue,
        agent.after_complete(token, success).next_token == agent.next_token,
        !agent.after_complete(token, success).is_active(token),
        agent.is_active(token) ==> agent.after_complete(token, success).active.len()
            == agent.active.len() - 1 && agent.after_complete(token, success).ended()
            == agent.ended() + 1,
        !agent.is_active(token) ==> agent.after_complete(token, success) == agent,
        forall|i: int|
            0 <= i < agent.after_complete(token, success).active.len() ==> exists|k: int|
                0 <= k < agent.active.len() && agent.active[k] == #[trigger] agent.after_complete(
                    token,
                    success,
                ).active[i] && agent.active[k] != token,
{
    let after = agent.after_complete(token, success);
    let p = position(agent.active, token, 0);
    lemma_position(agent.active, token, 0);
    lemma_position(after.active, token, 0);
    if agent.is_active(token) {
        // What stands at `i` afterwards stood at `i` before if that is in
        // front of the retired transfer, else one place further on.
        assert forall|i: int| 0 <= i < after.active.len() implies exists|k: int|
            0 <= k < agent.active.len() && agent.active[k] == #[trigger] after.active[i]
                && agent.active[k] != token by {
            let k = if i < p {
                i
            } else {
                i + 1
            };
            assert(agent.active[k] == after.active[i]);
        }
    }
}

/// Once the engine has reported every active transfer, none is active any
/// more, and each was counted as ended exactly once.
pub proof fn lemma_retired<T>(agent: AgentView<T>, reports: Seq<(u64, bool)>)
    requires
        agent.wf(),
        forall|i: int|
            0 <= i < agent.active.len() ==> reported(reports, #[trigger] agent.active[i]),
    ensures
        retired(agent, reports).wf(),
        retired(agent, reports).active.len() == 0,
        retired(agent, reports).queue == agent.queue,
        retired(agent, reports).next_token == agent.next_token,
        retired(agent, reports).ended() == agent.ended() + agent.active.len(),
    decreases reports.len(),
{
    if reports.len() == 0 {
        if agent.active.len() > 0 {
            assert(reported(reports, agent.active[0]));
        }
    } else {
        let token = reports[0].0;
        let next = agent.after_complete(token, reports[0].1);
        let rest = reports.skip(1);
        lemma_complete(agent, token, reports[0].1);
        // Whatever is still active was active before and is not the
        // transfer of the first report, so its report is among the rest.
        assert forall|i: int| 0 <= i < next.active.len() implies reported(
            rest,
            #[trigger] next.active[i],
        ) by {
            let k = choose|k: int|
                0 <= k < agent.active.len() && agent.active[k] == next.active[i] && agent.active[k]
                    != token;
            assert(reported(reports, agent.active[k]));
            let j = choose|j: int|
                0 <= j < reports.len() && (#[trigger] reports[j]).0 == agent.active[k];
            assert(rest[j - 1] == reports[j]);
        }
        lemma_retired(next, rest);
    }
}

/// Every transfer the agent accepted is queued, active, or has ended: none
/// is lost.
pub proof fn law_every_transfer_accounted<T>(agent: AgentView<T>)
    requires
        agent.wf(),
    ensures
        agent.next_token == agent.pending() + agent.ended(),
{
}

/// Every transfer reaches an end. Take any agent, let its worker register
/// all that is queued, and let the engine report every transfer that is
/// then active, in any order and with any outcome: after that nothing is
/// queued or active, and all transfers the agent ever accepted have ended.
pub proof fn law_all_transfers_end<T>(agent: AgentView<T>, reports: Seq<(u64, bool)>)
    requires
        agent.wf(),
        forall|i: int|
            0 <= i < drained(agent).active.len() ==> reported(
                reports,
                #[trigger] drained(agent).active[i],
            ),
    ensures
        retired(drained(agent), reports).wf(),
        retired(drained(agent), reports).pending() == 0,
        retired(drained(agent), reports).ended() == agent.ended() + agent.pending(),
        retired(drained(agent), reports).ended() == agent.next_token,
{
    lemma_drained(agent);
    lemma_retired(drained(agent), reports);
}

/// Cancelling keeps the agent well-formed. A transfer that is queued or
/// active is counted as ended, once, and is neither queued nor active
/// afterwards; cancelling an active transfer makes the active set smaller
/// by exactly one and leaves the queue alone. Any other token changes
/// nothing.
pub proof fn lemma_cancel<T>(agent: AgentView<T>, token: u64)
    requires
        agent.wf(),
    ensures
        agent.after_cancel(token).wf(),
        !agent.after_cancel(token).is_active(token),
        !agent.after_cancel(token).is_queued(token),
        agent.is_queued(token) || agent.is_active(token) ==> agent.after_cancel(token).ended()
            == agent.ended() + 1 && agent.after_cancel(token).pending() == agent.pending() - 1,
        agent.is_active(token) ==> agent.after_cancel(token).active.len() == agent.active.len() - 1
            && agent.after_cancel(token).queue == agent.queue,
        !agent.is_queued(token) && !agent.is_active(token) ==> agent.after_cancel(token) == agent,
{
    let after = agent.after_cancel(token);
    lemma_position(tokens_of(agent.queue), token, 0);
    lemma_position(agent.active, token, 0);
    lemma_position(tokens_of(after.queue), token, 0);
    lemma_position(after.active, token, 0);
}

/// Tokens are never used twice. The token the next transfer gets belongs
/// to no transfer that is queued or active, and is greater than every
/// token given before; so a token that comes late, after its transfer has
/// ended, can never hit another transfer.
pub proof fn law_tokens_are_fresh<T>(agent: AgentView<T>, handle: T, token: u64)
    requires
        agent.wf(),
        agent.accepting(),
    ensures
        !agent.is_queued(agent.next_token),
        !agent.is_active(agent.next_token),
        agent.after_submit(handle).is_queued(agent.next_token),
        agent.is_queued(token) || agent.is_active(token) ==> token < agent.next_token,
        agent.after_submit(handle).next_token > agent.next_token,
{
    let tokens = tokens_of(agent.queue);
    let after = tokens_of(agent.after_submit(handle).queue);
    lemma_position(tokens, agent.next_token, 0);
    lemma_position(agent.active, agent.next_token, 0);
    lemma_position(tokens, token, 0);
    lemma_position(agent.active, token, 0);
    lemma_position(after, agent.next_token, 0);
    assert(after[agent.queue.len() as int] == agent.next_token);
}

/// A transfer is released exactly once: after it was retired, a second
/// report and a late cancellation both change nothing.
pub proof fn law_released_once<T>(agent: AgentView<T>, token: u64, first: bool, second: bool)
    requires
        agent.wf(),
        agent.is_active(token),
    ensures
        agent.after_complete(token, first).ended() == agent.ended() + 1,
        agent.after_complete(token, first).after_complete(token, second) == agent.after_complete(
            token,
            first,
        ),
        agent.after_complete(token, first).after_cancel(token) == agent.after_complete(
            token,
            first,
        ),
{
    lemma_complete(agent, token, first);
    lemma_position(agent.active, token, 0);
    lemma_position(tokens_of(agent.queue), token, 0);
}

/// One round of the worker. When nothing is left to take in, the worker
/// lets the engine perform, waits no longer than the agent's limit and not
/// at all if it was asked to wake up, retires what has finished, and is
/// back at the intake; the book of transfers is not touched by this.
pub proof fn law_round<T>(agent: AgentView<T>, engine: Option<u64>)
    requires
        agent.wf(),
        agent.alive,
        agent.phase == Phase::Intake,
        agent.removals.len() == 0 && agent.resumes.len() == 0 && agent.queue.len() == 0,
    ensures
        agent.action(engine) == Action::<T>::Perform,
        agent.after_action().action(engine) == Action::<T>::Wait(agent.wait(engine)),
        agent.wait(engine) <= agent.max_wait,
        agent.wake ==> agent.wait(engine) == 0,
        engine matches Some(ms) ==> agent.wait(engine) <= ms,
        agent.after_action().after_action().action(engine) == Action::<T>::Retire,
        agent.after_action().after_action().after_action() == (AgentView { wake: false, ..agent }),
{
}

/// Submissions are registered in the order in which they were handed in.
pub proof fn law_first_in_first_out<T>(agent: AgentView<T>, first: T, second: T)
    requires
        agent.wf(),
        agent.alive,
        agent.next_token + 2 <= u64::MAX,
        agent.queue.len() == 0,
    ensures
        agent.after_submit(first).after_submit(second).queue.len() == 2,
        agent.after_submit(first).after_submit(second).queue[0].handle == first,
        agent.after_submit(first).after_submit(second).after_next_submission().queue[0].handle
            == second,
        agent.after_submit(first).after_submit(second).queue[0].token < agent.after_submit(
            first,
        ).after_submit(second).queue[1].token,
{
}

impl<T> View for Agent<T> {
    type V = AgentView<T>;

    closed spec fn view(&self) -> AgentView<T> {
        AgentView {
            queue: self.queue@,
            active: self.active@,
            removals: self.removals@,
            resumes: self.resumes@,
            next_token: self.next_token,
            alive: self.alive,
            wake: self.wake,
            max_wait: self.max_wait,
            phase: self.phase,
            completed: self.completed as nat,
            failed: self.failed as nat,
            cancelled: self.cancelled as nat,
        }
    }
}

/// Finds `token` among `tokens`.
fn find_token(tokens: &Vec<u64>, token: u64) -> (at: usize)
    ensures
        at == position(tokens@, token, 0),
        at <= tokens.len(),
{
    let mut i: usize = 0;
    while i < tokens.len()
        invariant
            i <= tokens.len(),
            position(tokens@, token, 0) == position(tokens@, token, i as int),
        decreases tokens.len() - i,
    {
        if tokens[i] == token {
            return i;
        }
        i = i + 1;
    }
    i
}

impl<T> Agent<T> {
    /// What holds of every agent (see [`AgentView::wf`]).
    pub open spec fn wf(&self) -> bool {
        self@.wf()
    }

    /// An agent that waits at most [`DEFAULT_MAX_WAIT`] milliseconds.
    pub fn new() -> (agent: Agent<T>)
        ensures
            agent.wf(),
            agent@ == AgentView::<T>::fresh(DEFAULT_MAX_WAIT),
    {
        Agent::with_max_wait(DEFAULT_MAX_WAIT)
    }

    /// An agent that waits at most `max_wait` milliseconds.
    pub fn with_max_wait(max_wait: u64) -> (agent: Agent<T>)
        ensures
            agent.wf(),
            agent@ == AgentView::<T>::fresh(max_wait),
    {
        Agent {
            queue: VecDeque::new(),
            active: Vec::new(),
            removals: VecDeque::new(),
            resumes: VecDeque::new(),
            next_token: 0,
            alive: true,
            wake: false,
            max_wait,
            phase: Phase::Intake,
            completed: 0,
            failed: 0,
            cancelled: 0,
        }
    }

    /// Finds `token` in the queue.
    fn find_queued(&self, token: u64) -> (at: usize)
        ensures
            at == position(tokens_of(self@.queue), token, 0),
            at <= self@.queue.len(),
    {
        let ghost tokens = tokens_of(self@.queue);
        let mut i: usize = 0;
        while i < self.queue.len()
            invariant
                i <= self.queue.len(),
                tokens == tokens_of(self@.queue),
                position(tokens, token, 0) == position(tokens, token, i as int),
            decreases self.queue.len() - i,
        {
            if self.queue[i].token == token {
                return i;
            }
            i = i + 1;
        }
        i
    }

    /// Hands a configured transfer to the agent and wakes the worker.
    ///
    /// Gives the transfer's token. Fails with `AgentUnreachable`, and lets
    /// go of the handle, when the worker has terminated or no token is
    /// left.
    pub fn submit(&mut self, handle: T) -> (out: Result<u64, AgentError>)
        requires
            old(self).wf(),
        ensures
            final(self).wf(),
            final(self)@ == old(self)@.after_submit(handle),
            out == (if old(self)@.accepting() {
                Ok::<u64, AgentError>(old(self)@.next_token)
            } else {
                Err::<u64, AgentError>(AgentError::AgentUnreachable)
            }),
    {
        if self.alive && self.next_token < u64::MAX {
            let token = self.next_token;
            self.queue.push_back(Submission { token, handle });
            self.next_token = token + 1;
            self.wake = true;
            Ok(token)
        } else {
            Err(AgentError::AgentUnreachable)
        }
    }

    /// Cancels the transfer with `token`, if it has not ended, and says
    /// whether it did.
    pub fn cancel(&mut self, token: u64) -> (cancelled: bool)
        requires
            old(self).wf(),
        ensures
            final(self).wf(),
            final(self)@ == old(self)@.after_cancel(token),
            cancelled == (old(self)@.is_queued(token) || old(self)@.is_active(token)),
    {
        proof {
            lemma_position(tokens_of(self@.queue), token, 0);
            lemma_position(self@.active, token, 0);
        }
        let q = self.find_queued(token);
        if q < self.queue.len() {
            let _ = self.queue.remove(q);
            self.cancelled = self.cancelled + 1;
            true
        } else {
            let a = find_token(&self.active, token);
            if a < self.active.len() {
                let _ = self.active.remove(a);
                self.removals.push_back(token);
                self.cancelled = self.cancelled + 1;
                self.wake = true;
                true
            } else {
                false
            }
        }
    }

    /// Asks the worker to resume the transfer with `token`, if it is
    /// active, and says whether it is.
    pub fn resume(&mut self, token: u64) -> (asked: bool)
        requires
            old(self).wf(),
        ensures
            final(self).wf(),
            final(self)@ == old(self)@.after_resume(token),
            asked == old(self)@.is_active(token),
    {
        let a = find_token(&self.active, token);
        if a < self.active.len() {
            self.resumes.push_back(token);
            self.wake = true;
            true
        } else {
            false
        }
    }

    /// The worker takes the oldest submission, to register it with the
    /// engine; from now on the transfer is active.
    pub fn next_submission(&mut self) -> (out: Option<Submission<T>>)
        requires
            old(self).wf(),
        ensures
            final(self).wf(),
            final(self)@ == old(self)@.after_next_submission(),
            out == (if old(self)@.queue.len() > 0 {
                Some(old(self)@.queue[0])
            } else {
                None
            }),
    {
        match self.queue.pop_front() {
            Some(submission) => {
                self.active.push(submission.token);
                Some(submission)
            },
            None => None,
        }
    }

    /// The worker takes the token of a cancelled transfer that the engine
    /// is to let go of.
    pub fn next_removal(&mut self) -> (out: Option<u64>)
        requires
            old(self).wf(),
        ensures
            final(self).wf(),
            out == (if old(self)@.removals.len() > 0 {
                Some(old(self)@.removals[0])
            } else {
                None
            }),
            final(self)@ == (AgentView {
                removals: if old(self)@.removals.len() > 0 {
                    old(self)@.removals.subrange(1, old(self)@.removals.len() as int)
                } else {
                    old(self)@.removals
                },
                ..old(self)@
            }),
    {
        self.removals.pop_front()
    }

    /// The worker takes the token of a transfer that the engine is to
    /// resume. The transfer may have ended since that was asked.
    pub fn next_resume(&mut self) -> (out: Option<u64>)
        requires
            old(self).wf(),
        ensures
            final(self).wf(),
            out == (if old(self)@.resumes.len() > 0 {
                Some(old(self)@.resumes[0])
            } else {
                None
            }),
            final(self)@ == (AgentView {
                resumes: if old(self)@.resumes.len() > 0 {
                    old(self)@.resumes.subrange(1, old(self)@.resumes.len() as int)
                } else {
                    old(self)@.resumes
                },
                ..old(self)@
            }),
    {
        self.resumes.pop_front()
    }

    /// The worker retires the transfer with `token`, which the engine
    /// reported finished, and says whether the transfer was active. It
    /// was not if it had been cancelled or retired before; then nothing
    /// changes.
    pub fn complete(&mut self, token: u64, success: bool) -> (retired: bool)
        requires
            old(self).wf(),
        ensures
            final(self).wf(),
            final(self)@ == old(self)@.after_complete(token, success),
            retired == old(self)@.is_active(token),
    {
        proof {
            lemma_position(self@.active, token, 0);
        }
        let a = find_token(&self.active, token);
        if a < self.active.len() {
            let _ = self.active.remove(a);
            if success {
                self.completed = self.completed + 1;
            } else {
                self.failed = self.failed + 1;
            }
            true
        } else {
            false
        }
    }

    /// How long the worker may wait before it goes round again, in
    /// milliseconds. `engine` is the wait the engine suggests. A pending
    /// wake-up is used up by this.
    pub fn wait_timeout(&mut self, engine: Option<u64>) -> (ms: u64)
        requires
            old(self).wf(),
        ensures
            final(self).wf(),
            ms == old(self)@.wait(engine),
            final(self)@ == (AgentView { wake: false, ..old(self)@ }),
    {
        if self.wake {
            self.wake = false;
            0
        } else {
            match engine {
                Some(ms) => if ms <= self.max_wait {
                    ms
                } else {
                    self.max_wait
                },
                None => self.max_wait,
            }
        }
    }

    /// Tells the worker what to do next (see [`AgentView::action`]).
    /// `engine` is the wait the engine suggests at this moment, in
    /// milliseconds.
    pub fn next_action(&mut self, engine: Option<u64>) -> (action: Action<T>)
        requires
            old(self).wf(),
        ensures
            final(self).wf(),
            action == old(self)@.action(engine),
            final(self)@ == old(self)@.after_action(),
    {
        if !self.alive {
            return Action::Stop;
        }
        match self.phase {
            Phase::Intake => {
                match self.next_removal() {
                    Some(token) => {
                        return Action::Remove(token);
                    },
                    None => {},
                }
                match self.next_resume() {
                    Some(token) => {
                        return Action::Resume(token);
                    },
                    None => {},
                }
                match self.next_submission() {
                    Some(submission) => {
                        return Action::Register(submission);
                    },
                    None => {},
                }
                self.phase = Phase::Wait;
                Action::Perform
            },
            Phase::Wait => {
                let ms = self.wait_timeout(engine);
                self.phase = Phase::Retire;
                Action::Wait(ms)
            },
            Phase::Retire => {
                self.phase = Phase::Intake;
                Action::Retire
            },
        }
    }

    /// The worker terminates. Gives the tokens of the transfers that were
    /// queued or active, queued ones first; they count as failed, so that
    /// their callers can be told, and nothing can be submitted any more.
    pub fn shutdown(&mut self) -> (lost: Vec<u64>)
        requires
            old(self).wf(),
        ensures
            final(self).wf(),
            final(self)@ == old(self)@.after_shutdown(),
            lost@ == tokens_of(old(self)@.queue) + old(self)@.active,
    {
        let mut lost: Vec<u64> = Vec::new();
        let ghost queued = tokens_of(self@.queue);
        let mut i: usize = 0;
        while i < self.queue.len()
            invariant
                i <= self.queue.len(),
                *self == *old(self),
                queued == tokens_of(self@.queue),
                lost@ == queued.take(i as int),
            decreases self.queue.len() - i,
        {
            lost.push(self.queue[i].token);
            i = i + 1;
        }
        let n: u64 = (self.queue.len() as u64) + (self.active.len() as u64);
        let mut active: Vec<u64> = Vec::new();
        std::mem::swap(&mut active, &mut self.active);
        lost.append(&mut active);
        self.queue.clear();
        self.failed = self.failed + n;
        self.alive = false;
        lost
    }

    /// How many transfers are queued.
    pub fn queued_count(&self) -> (n: usize)
        ensures
            n == self@.queue.len(),
    {
        self.queue.len()
    }

    /// How many transfers are active.
    pub fn active_count(&self) -> (n: usize)
        ensures
            n == self@.active.len(),
    {
        self.active.len()
    }

    /// How many transfers have ended.
    pub fn ended_count(&self) -> (n: u64)
        requires
            self.wf(),
        ensures
            n == self@.ended(),
    {
        self.completed + self.failed + self.cancelled
    }

    /// Whether the transfer with `token` is active.
    pub fn is_active(&self, token: u64) -> (active: bool)
        ensures
            active == self@.is_active(token),
    {
        find_token(&self.active, token) < self.active.len()
    }

    /// Whether the worker is running.
    pub fn is_alive(&self) -> (alive: bool)
        ensures
            alive == self@.alive,
    {
        self.alive
    }
}

} // verus!
