//! The bridge between the engine's callbacks and the caller of one
//! transfer.
//!
//! The engine calls in from the agent's worker: with each line of the
//! response's head, with each piece of the response's body, to ask for the
//! next piece of the request's body, and at last with the transfer's
//! outcome. The caller polls from wherever it runs: first for the response,
//! then for the body, piece by piece. A [`RequestHandler`] is the state
//! between the two: the head as far as it has arrived, a bounded queue of
//! body pieces, and a slot for the failure that is still to be reported.

use crate::error::ClientError;
use crate::error::TransportError;
use crate::request::Body;
use crate::request::BodyRead;
use crate::request::BodyView;
use crate::response::classify;
use crate::response::classify_spec;
use crate::response::fields_view;
use crate::response::HeaderLine;
use crate::response::HeaderLineView;
use crate::response::Response;
use crate::response::ResponseView;
use crate::task::Poll;
use std::collections::VecDeque;
use vstd::prelude::*;

verus! {

/// How many pieces of a response body are kept for a caller that has not
/// read them yet, unless the handler is made with another bound.
pub const DEFAULT_CAPACITY: usize = 16;

/// The answer to the engine when it hands over a piece of the body.
#[derive(Clone, Copy, Debug, PartialEq, Eq)]
pub enum WriteOutcome {
    /// The piece was taken; the number is its length.
    Accepted(usize),
    /// The queue is full. The engine keeps the piece and pauses this
    /// transfer until it is resumed.
    Pause,
    /// The transfer is to be given up.
    Abort,
}

/// The answer to the engine when it asks for a piece of the request body.
#[derive(Debug, PartialEq, Eq)]
pub enum ReadOutcome {
    /// The next bytes to send; never empty.
    Data(Vec<u8>),
    /// Nothing to send yet. The engine pauses this transfer until it is
    /// resumed.
    Pause,
    /// The request body is complete.
    End,
    /// The transfer is to be given up.
    Abort,
}

/// Mathematical value of a [`ReadOutcome`].
pub enum ReadOutcomeView {
    Data(Seq<u8>),
    Pause,
    End,
    Abort,
}

impl View for ReadOutcome {
    type V = ReadOutcomeView;

    open spec fn view(&self) -> ReadOutcomeView {
        match *self {
            ReadOutcome::Data(bytes) => ReadOutcomeView::Data(bytes@),
            ReadOutcome::Pause => ReadOutcomeView::Pause,
            ReadOutcome::End => ReadOutcomeView::End,
            ReadOutcome::Abort => ReadOutcomeView::Abort,
        }
    }
}

/// What polling the response body gave.
#[derive(Debug, PartialEq, Eq)]
pub enum BodyPoll {
    /// The next piece of the body.
    Chunk(Vec<u8>),
    /// Nothing has arrived that could be handed over.
    Pending,
    /// The body is over.
    End,
    /// The transfer failed while the body was being read.
    Failed(ClientError),
}

/// Mathematical value of a [`BodyPoll`].
pub enum BodyPollView {
    Chunk(Seq<u8>),
    Pending,
    End,
    Failed(ClientError),
}

impl View for BodyPoll {
    type V = BodyPollView;

    open spec fn view(&self) -> BodyPollView {
        match *self {
            BodyPoll::Chunk(bytes) => BodyPollView::Chunk(bytes@),
            BodyPoll::Pending => BodyPollView::Pending,
            BodyPoll::End => BodyPollView::End,
            BodyPoll::Failed(e) => BodyPollView::Failed(e),
        }
    }
}

/// The value of what polling for the response gave.
pub open spec fn response_poll_view(out: Poll<Result<Response, ClientError>>) -> Poll<
    Result<ResponseView, ClientError>,
> {
    match out {
        Poll::Ready(Ok(response)) => Poll::Ready(Ok(response@)),
        Poll::Ready(Err(e)) => Poll::Ready(Err(e)),
        Poll::Pending => Poll::Pending,
    }
}

/// The state of one transfer between the engine and the caller.
pub struct RequestHandler {
    request_body: Body,
    status: Option<u16>,
    headers: Vec<(Vec<u8>, Vec<u8>)>,
    headers_ready: bool,
    resolved: bool,
    body: VecDeque<Vec<u8>>,
    capacity: usize,
    body_started: bool,
    error: Option<ClientError>,
    finished: bool,
    closed: bool,
    write_paused: bool,
    read_paused: bool,
    resume: bool,
    waiting: bool,
    wake: bool,
}

/// Mathematical value of a [`RequestHandler`].
#[verifier::ext_equal]
pub struct HandlerView {
    /// The body of the request, as far as it is still to be sent.
    pub request_body: BodyView,
    /// The status code of the head that is arriving or has arrived.
    pub status: Option<u16>,
    /// The headers of that head, as far as they have arrived and were not
    /// handed to the caller.
    pub headers: Seq<(Seq<u8>, Seq<u8>)>,
    /// Whether that head is complete.
    pub headers_ready: bool,
    /// Whether the caller's wait for the response is over: it has been
    /// given the response, or the failure.
    pub resolved: bool,
    /// The pieces of the body that arrived and were not read, oldest first.
    pub body: Seq<Seq<u8>>,
    /// How many pieces the queue holds at most.
    pub capacity: nat,
    /// Whether any piece of the body has arrived.
    pub body_started: bool,
    /// The failure that is still to be reported to the caller.
    pub error: Option<ClientError>,
    /// Whether the engine has reported the transfer's outcome.
    pub finished: bool,
    /// Whether the caller has given the transfer up.
    pub closed: bool,
    /// Whether the engine was told to pause because the queue was full.
    pub write_paused: bool,
    /// Whether the engine was told to pause because the request body had
    /// nothing to send.
    pub read_paused: bool,
    /// Whether the engine is to be told to resume the transfer.
    pub resume: bool,
    /// Whether the caller is suspended and wants to be notified.
    pub waiting: bool,
    /// Whether a notification for the caller has been raised.
    pub wake: bool,
}

impl HandlerView {
    /// What holds of every handler.
    ///
    /// In particular: whenever a piece of the body is queued, the head is
    /// complete; so no byte of the body can be seen before the head. And
    /// once the outcome was reported, there is a response or a failure for
    /// the caller.
    pub open spec fn wf(self) -> bool {
        &&& self.capacity >= 1
        &&& self.body.len() <= self.capacity
        &&& (forall|i: int| 0 <= i < self.body.len() ==> (#[trigger] self.body[i]).len() > 0)
        &&& (self.body.len() > 0 ==> self.body_started)
        &&& (self.body_started ==> self.headers_ready)
        &&& (self.headers_ready ==> self.status is Some)
        &&& (self.error is Some ==> self.finished)
        &&& (self.finished && !self.resolved && !self.closed ==> self.headers_ready
            || self.error is Some)
        &&& (self.closed ==> self.body.len() == 0)
    }

    /// A handler for a transfer that has not begun.
    pub open spec fn fresh(request_body: BodyView, capacity: nat) -> HandlerView {
        HandlerView {
            request_body,
            status: None,
            headers: Seq::empty(),
            headers_ready: false,
            resolved: false,
            body: Seq::empty(),
            capacity,
            body_started: false,
            error: None,
            finished: false,
            closed: false,
            write_paused: false,
            read_paused: false,
            resume: false,
            waiting: false,
            wake: false,
        }
    }

    /// The handler after the caller, if it is suspended, was notified.
    pub open spec fn notified(self) -> HandlerView {
        if self.waiting {
            HandlerView { waiting: false, wake: true, ..self }
        } else {
            self
        }
    }

    /// The handler after there is room in the queue again: if the engine
    /// was paused for want of room, it is asked to resume.
    pub open spec fn resumed_for_room(self) -> HandlerView {
        if self.write_paused {
            HandlerView { write_paused: false, resume: true, ..self }
        } else {
            self
        }
    }

    /// The handler after the request body has news: if the engine was
    /// paused for want of bytes to send, it is asked to resume.
    pub open spec fn resumed_for_data(self) -> HandlerView {
        if self.read_paused {
            HandlerView { read_paused: false, resume: true, ..self }
        } else {
            self
        }
    }

    /// Whether the engine is told to go on after it handed over `line`.
    /// It is not when the caller has given the transfer up or the outcome
    /// was already reported, nor for a malformed line of the head.
    pub open spec fn header_accepted(self, line: Seq<u8>) -> bool {
        !self.closed && !self.finished && (self.body_started || !(classify_spec(line)
            is Malformed))
    }

    /// The handler after the engine handed over `line` of the head.
    ///
    /// A status line begins a head anew, whatever had arrived: the engine
    /// starts over for every response on the way, as when it follows a
    /// redirect. Headers are collected while the head is open. The empty
    /// line closes the head and notifies the caller. Once the body has
    /// begun, lines are trailers and are not kept. Nothing is kept after
    /// the outcome was reported.
    pub open spec fn after_header(self, line: Seq<u8>) -> HandlerView {
        if self.closed || self.finished || self.body_started {
            self
        } else {
            match classify_spec(line) {
                HeaderLineView::Status(code) => HandlerView {
                    status: Some(code),
                    headers: Seq::empty(),
                    headers_ready: false,
                    ..self
                },
                HeaderLineView::Field(name, value) => if self.status is Some
                    && !self.headers_ready {
                    HandlerView { headers: self.headers.push((name, value)), ..self }
                } else {
                    self
                },
                HeaderLineView::Blank => if self.status is Some && !self.headers_ready {
                    (HandlerView { headers_ready: true, ..self }).notified()
                } else {
                    self
                },
                HeaderLineView::Malformed => self,
            }
        }
    }

    /// The answer to the engine when it hands over the piece `data` of the
    /// body.
    pub open spec fn write_outcome(self, data: Seq<u8>) -> WriteOutcome {
        if self.closed || self.finished || self.status is None {
            WriteOutcome::Abort
        } else if data.len() == 0 {
            WriteOutcome::Accepted(0)
        } else if self.body.len() >= self.capacity {
            WriteOutcome::Pause
        } else {
            WriteOutcome::Accepted(data.len() as usize)
        }
    }

    /// The handler after the engine handed over the piece `data` of the
    /// body.
    ///
    /// A piece that is taken goes to the end of the queue; with it the
    /// head counts as complete, and the caller is notified. When the queue
    /// is full nothing changes but that the pause is noted.
    pub open spec fn after_write(self, data: Seq<u8>) -> HandlerView {
        match self.write_outcome(data) {
            WriteOutcome::Abort => self,
            WriteOutcome::Pause => HandlerView { write_paused: true, ..self },
            WriteOutcome::Accepted(_) => if data.len() == 0 {
                self
            } else {
                (HandlerView {
                    body: self.body.push(data),
                    body_started: true,
                    headers_ready: true,
                    ..self
                }).notified()
            },
        }
    }

    /// The answer to the engine when it asks for at most `max` bytes of
    /// the request body.
    pub open spec fn read_outcome(self, max: nat) -> ReadOutcomeView {
        if self.closed {
            ReadOutcomeView::Abort
        } else if self.request_body.take(max) > 0 {
            ReadOutcomeView::Data(
                self.request_body.ready.take(self.request_body.take(max) as int),
            )
        } else if self.request_body.ready.len() == 0 && self.request_body.ended {
            ReadOutcomeView::End
        } else {
            ReadOutcomeView::Pause
        }
    }

    /// The handler after the engine asked for at most `max` bytes of the
    /// request body.
    pub open spec fn after_read(self, max: nat) -> HandlerView {
        match self.read_outcome(max) {
            ReadOutcomeView::Data(_) => HandlerView {
                request_body: self.request_body.after_read(max),
                ..self
            },
            ReadOutcomeView::Pause => HandlerView { read_paused: true, ..self },
            _ => self,
        }
    }

    /// The handler after the engine reported the transfer's outcome.
    ///
    /// Only the first report counts. Success closes a head that is still
    /// open; success without any head is the failure `NoResponse`. A
    /// failure is kept until the caller is told: the engine's, or that
    /// the agent's worker terminated, or that the transfer was cancelled
    /// behind the caller's back. The caller is notified.
    pub open spec fn after_complete(self, result: Result<(), ClientError>) -> HandlerView {
        if self.finished {
            self
        } else {
            (match result {
                Ok(()) => if self.status is Some {
                    HandlerView { finished: true, headers_ready: true, ..self }
                } else {
                    HandlerView {
                        finished: true,
                        error: Some(ClientError::Transport(TransportError::NoResponse)),
                        ..self
                    }
                },
                Err(e) => HandlerView { finished: true, error: Some(e), ..self },
            }).notified()
        }
    }

    /// What the caller is given when it polls for the response.
    ///
    /// A failure that was not reported comes first; then the response, once
    /// its head is complete. After either, and after the caller gave the
    /// transfer up, there is nothing more to wait for here.
    pub open spec fn response_outcome(self) -> Poll<Result<ResponseView, ClientError>> {
        if self.closed || self.resolved {
            Poll::Pending
        } else if self.error is Some {
            Poll::Ready(Err(self.error->0))
        } else if self.headers_ready {
            Poll::Ready(Ok(ResponseView { status: self.status->0, headers: self.headers }))
        } else {
            Poll::Pending
        }
    }

    /// The handler after the caller polled for the response.
    pub open spec fn after_poll_response(self) -> HandlerView {
        if self.closed || self.resolved {
            self
        } else if self.error is Some {
            HandlerView { error: None, resolved: true, body: Seq::empty(), ..self }
        } else if self.headers_ready {
            HandlerView { resolved: true, headers: Seq::empty(), ..self }
        } else {
            HandlerView { waiting: true, ..self }
        }
    }

    /// What the caller is given when it polls the body.
    ///
    /// Nothing before the response was handed over. Then a failure that
    /// was not reported; then the oldest queued piece; then the end, once
    /// the engine has reported the outcome.
    pub open spec fn body_outcome(self) -> BodyPollView {
        if self.closed {
            BodyPollView::End
        } else if !self.resolved {
            BodyPollView::Pending
        } else if self.error is Some {
            BodyPollView::Failed(self.error->0)
        } else if self.body.len() > 0 {
            BodyPollView::Chunk(self.body[0])
        } else if self.finished {
            BodyPollView::End
        } else {
            BodyPollView::Pending
        }
    }

    /// The handler after the caller polled the body.
    ///
    /// Taking a piece makes room, so a paused engine is asked to resume.
    /// A failure is reported once and ends the body.
    pub open spec fn after_poll_body(self) -> HandlerView {
        match self.body_outcome() {
            BodyPollView::Failed(_) => HandlerView { error: None, body: Seq::empty(), ..self },
            BodyPollView::Chunk(_) => (HandlerView {
                body: self.body.skip(1),
                ..self
            }).resumed_for_room(),
            BodyPollView::Pending => if !self.closed && self.resolved {
                HandlerView { waiting: true, ..self }
            } else {
                self
            },
            BodyPollView::End => self,
        }
    }

    /// The handler after the caller gave the transfer up.
    pub open spec fn after_cancel(self) -> HandlerView {
        HandlerView { closed: true, body: Seq::empty(), error: None, waiting: false, ..self }
    }

    /// The handler after the producer of the request body supplied `bytes`.
    pub open spec fn after_supply(self, bytes: Seq<u8>) -> HandlerView {
        (HandlerView {
            request_body: self.request_body.after_supply(bytes),
            ..self
        }).resumed_for_data()
    }

    /// The handler after the producer of the request body said it is done.
    pub open spec fn after_finish(self) -> HandlerView {
        (HandlerView {
            request_body: BodyView { ended: true, ..self.request_body },
            ..self
        }).resumed_for_data()
    }
}

/// The head comes before the body. Whenever a poll of the body hands over
/// a piece, the caller's wait for the response is over and the head that
/// belongs to the piece is complete.
pub proof fn law_head_before_body(handler: HandlerView)
    requires
        handler.wf(),
    ensures
        handler.body_outcome() is Chunk ==> handler.resolved && handler.headers_ready
            && handler.status is Some,
        !handler.headers_ready ==> handler.body.len() == 0,
{
}

/// The pieces of the body come out in the order in which the engine
/// handed them over: a piece that is taken goes behind all that wait, and
/// a poll hands over the one that has waited longest.
pub proof fn law_body_in_order(handler: HandlerView, data: Seq<u8>)
    requires
        handler.wf(),
        handler.write_outcome(data) is Accepted,
        data.len() > 0,
    ensures
        handler.after_write(data).body == handler.body.push(data),
        handler.resolved && handler.error is None && handler.body.len() > 0
            ==> handler.after_write(data).body_outcome() == BodyPollView::Chunk(handler.body[0]),
        handler.resolved && handler.error is None && handler.body.len() == 0
            ==> handler.after_write(data).body_outcome() == BodyPollView::Chunk(data),
{
}

/// The end of the body is final. A poll that gives `End` changes nothing,
/// so the next poll gives `End` again.
pub proof fn law_end_is_final(handler: HandlerView)
    requires
        handler.wf(),
        handler.body_outcome() is End,
    ensures
        handler.after_poll_body() == handler,
        handler.after_poll_body().body_outcome() is End,
{
}

/// A failure is reported once. After a poll of the body reported it, the
/// next poll gives `End`; after a poll for the response reported it, a
/// poll of the body gives `End`.
pub proof fn law_failure_reported_once(handler: HandlerView)
    requires
        handler.wf(),
        !handler.closed,
        handler.error is Some,
    ensures
        handler.resolved ==> handler.body_outcome() == BodyPollView::Failed(handler.error->0)
            && handler.after_poll_body().body_outcome() is End,
        !handler.resolved ==> handler.response_outcome() == Poll::<
            Result<ResponseView, ClientError>,
        >::Ready(Err(handler.error->0))
            && handler.after_poll_response().body_outcome() is End
            && handler.after_poll_response().response_outcome() is Pending,
{
}

/// Backpressure. While the queue of `slow` is full, the engine is told to
/// pause that transfer, however often it offers the piece, and nothing of
/// `slow` changes but the note of the pause. Another transfer, `fast`, is
/// not touched by this and goes on taking pieces. As soon as the caller of
/// `slow` takes a piece, the engine is asked to resume.
pub proof fn law_backpressure(slow: HandlerView, fast: HandlerView, data: Seq<u8>)
    requires
        slow.wf(),
        fast.wf(),
        0 < data.len() <= usize::MAX,
        !slow.closed && !slow.finished && slow.status is Some && slow.body.len() == slow.capacity,
        !fast.closed && !fast.finished && fast.status is Some && fast.body.len() < fast.capacity,
    ensures
        slow.write_outcome(data) == WriteOutcome::Pause,
        slow.after_write(data) == (HandlerView { write_paused: true, ..slow }),
        slow.after_write(data).after_write(data) == slow.after_write(data),
        fast.write_outcome(data) == WriteOutcome::Accepted(data.len() as usize),
        fast.after_write(data).body == fast.body.push(data),
        slow.resolved && slow.error is None ==> slow.after_write(data).body_outcome()
            == BodyPollView::Chunk(slow.body[0]) && slow.after_write(
            data,
        ).after_poll_body().resume && slow.after_write(data).after_poll_body().write_outcome(data)
            == WriteOutcome::Accepted(data.len() as usize),
{
}

/// A transfer that the caller gave up stays given up. Nothing the engine
/// hands over afterwards is kept, the engine is told to stop, and no poll
/// of the body hands over a piece.
pub proof fn law_cancelled_is_closed(
    handler: HandlerView,
    line: Seq<u8>,
    data: Seq<u8>,
    max: nat,
    result: Result<(), ClientError>,
)
    requires
        handler.wf(),
    ensures
        handler.after_cancel().wf(),
        handler.after_cancel().closed,
        handler.after_cancel().body_outcome() is End,
        handler.after_cancel().after_poll_body() == handler.after_cancel(),
        handler.after_cancel().response_outcome() is Pending,
        !handler.after_cancel().header_accepted(line),
        handler.after_cancel().after_header(line) == handler.after_cancel(),
        handler.after_cancel().write_outcome(data) == WriteOutcome::Abort,
        handler.after_cancel().after_write(data) == handler.after_cancel(),
        handler.after_cancel().read_outcome(max) == ReadOutcomeView::Abort,
        handler.after_cancel().after_read(max) == handler.after_cancel(),
        handler.after_cancel().after_complete(result).closed,
        handler.after_cancel().after_complete(result).body_outcome() is End,
{
}

/// Something that happens to a transfer: a call of the engine, of the
/// caller, or of the producer of the request's body.
pub enum Event {
    /// The engine hands over a line of the head.
    Header(Seq<u8>),
    /// The engine hands over a piece of the body.
    Write(Seq<u8>),
    /// The engine asks for at most so many bytes of the request's body.
    Read(nat),
    /// The engine reports the outcome.
    Complete(Result<(), ClientError>),
    /// The caller polls for the response.
    PollResponse,
    /// The caller polls the body.
    PollBody,
    /// The caller gives the transfer up.
    Cancel,
    /// The producer supplies bytes of the request's body.
    Supply(Seq<u8>),
    /// The producer says the request's body is complete.
    Finish,
}

impl HandlerView {
    /// The handler after `event`.
    pub open spec fn after(self, event: Event) -> HandlerView {
        match event {
            Event::Header(line) => self.after_header(line),
            Event::Write(data) => self.after_write(data),
            Event::Read(max) => self.after_read(max),
            Event::Complete(result) => self.after_complete(result),
            Event::PollResponse => self.after_poll_response(),
            Event::PollBody => self.after_poll_body(),
            Event::Cancel => self.after_cancel(),
            Event::Supply(bytes) => self.after_supply(bytes),
            Event::Finish => self.after_finish(),
        }
    }

    /// The handler after all of `events`, the first one first.
    pub open spec fn after_all(self, events: Seq<Event>) -> HandlerView
        decreases events.len(),
    {
        if events.len() == 0 {
            self
        } else {
            self.after(events[0]).after_all(events.skip(1))
        }
    }

    /// The piece of the body that `event` adds to the queue, if it adds
    /// one: the piece the engine hands over, if it is taken.
    pub open spec fn taken_in(self, event: Event) -> Seq<Seq<u8>> {
        match event {
            Event::Write(data) => if data.len() > 0 && self.write_outcome(data) is Accepted {
                seq![data]
            } else {
                Seq::empty()
            },
            _ => Seq::empty(),
        }
    }

    /// The piece of the body that `event` hands to the caller, if it hands
    /// one over.
    pub open spec fn handed_in(self, event: Event) -> Seq<Seq<u8>> {
        match event {
            Event::PollBody => match self.body_outcome() {
                BodyPollView::Chunk(piece) => seq![piece],
                _ => Seq::empty(),
            },
            _ => Seq::empty(),
        }
    }

    /// The pieces of the body that the engine hands over during `events`
    /// and that are taken, in order.
    pub open spec fn written(self, events: Seq<Event>) -> Seq<Seq<u8>>
        decreases events.len(),
    {
        if events.len() == 0 {
            Seq::empty()
        } else {
            self.taken_in(events[0]) + self.after(events[0]).written(events.skip(1))
        }
    }

    /// The pieces of the body that the caller is handed during `events`,
    /// in order.
    pub open spec fn read(self, events: Seq<Event>) -> Seq<Seq<u8>>
        decreases events.len(),
    {
        if events.len() == 0 {
            Seq::empty()
        } else {
            self.handed_in(events[0]) + self.after(events[0]).read(events.skip(1))
        }
    }
}

/// Whether nothing in `events` lets go of pieces that were not read: the
/// caller does not give up, and the engine reports no failure.
pub open spec fn undisturbed(events: Seq<Event>) -> bool {
    forall|i: int|
        0 <= i < events.len() ==> !((#[trigger] events[i]) is Cancel) && !(events[i] matches Event::Complete(
            Err(_),
        ))
}

/// The transfers after the events of `trace`, the first one first. Each
/// entry of the trace names the transfer to which its event happens.
pub open spec fn after_trace(transfers: Seq<HandlerView>, trace: Seq<(int, Event)>) -> Seq<
    HandlerView,
>
    decreases trace.len(),
{
    if trace.len() == 0 {
        transfers
    } else {
        let at = trace[0].0;
        let next = if 0 <= at < transfers.len() {
            transfers.update(at, transfers[at].after(trace[0].1))
        } else {
            transfers
        };
        after_trace(next, trace.skip(1))
    }
}

/// The events of `trace` that happen to the transfer at `at`, in order.
pub open spec fn events_of(trace: Seq<(int, Event)>, at: int) -> Seq<Event>
    decreases trace.len(),
{
    if trace.len() == 0 {
        Seq::empty()
    } else if trace[0].0 == at {
        seq![trace[0].1] + events_of(trace.skip(1), at)
    } else {
        events_of(trace.skip(1), at)
    }
}

/// Every event leaves a handler well-formed.
pub proof fn lemma_event_keeps_wf(handler: HandlerView, event: Event)
    requires
        handler.wf(),
    ensures
        handler.after(event).wf(),
{
}

/// Running through events one by one: the first, then the rest.
pub proof fn lemma_first_then_rest(handler: HandlerView, first: Event, rest: Seq<Event>)
    ensures
        handler.after_all(seq![first] + rest) == handler.after(first).after_all(rest),
{
    let all = seq![first] + rest;
    assert(all[0] == first);
    assert(all.skip(1) =~= rest);
}

/// Transfers do not mix, however many there are and however their events
/// interleave. What becomes of a transfer depends on its own events alone,
/// in their order: no line, piece or outcome of one transfer ever shows in
/// another. And every transfer stays well-formed.
pub proof fn law_transfers_do_not_mix(
    transfers: Seq<HandlerView>,
    trace: Seq<(int, Event)>,
    at: int,
)
    requires
        0 <= at < transfers.len(),
    ensures
        after_trace(transfers, trace).len() == transfers.len(),
        after_trace(transfers, trace)[at] == transfers[at].after_all(events_of(trace, at)),
        transfers[at].wf() ==> after_trace(transfers, trace)[at].wf(),
    decreases trace.len(),
{
    if trace.len() > 0 {
        let to = trace[0].0;
        let event = trace[0].1;
        let next = if 0 <= to < transfers.len() {
            transfers.update(to, transfers[to].after(event))
        } else {
            transfers
        };
        law_transfers_do_not_mix(next, trace.skip(1), at);
        if to == at {
            lemma_first_then_rest(transfers[at], event, events_of(trace.skip(1), at));
            if transfers[at].wf() {
                lemma_event_keeps_wf(transfers[at], event);
            }
        }
    }
}

/// One event loses nothing and makes nothing up: what waited, followed by
/// what the event added, is what the event handed out, followed by what
/// waits now. This holds for every event but the two that let go of
/// pieces on purpose: the caller giving up, and a failure.
pub proof fn lemma_event_conserves(handler: HandlerView, event: Event)
    requires
        handler.wf(),
        handler.error is Some ==> handler.body.len() == 0 && handler.finished,
        !(event is Cancel),
        !(event matches Event::Complete(Err(_))),
    ensures
        handler.after(event).wf(),
        handler.after(event).error is Some ==> handler.after(event).body.len() == 0
            && handler.after(event).finished,
        handler.body + handler.taken_in(event) == handler.handed_in(event) + handler.after(
            event,
        ).body,
{
    assert(handler.body + handler.taken_in(event) =~= handler.handed_in(event) + handler.after(
        event,
    ).body);
}

/// Nothing of a body is lost or made up. As long as the caller does not
/// give up and the engine reports no failure, the pieces that waited at
/// first, followed by those the engine handed over and the handler took,
/// are exactly the pieces the caller was handed, followed by those that
/// still wait: the same pieces in the same order.
pub proof fn law_body_is_conserved(handler: HandlerView, events: Seq<Event>)
    requires
        handler.wf(),
        handler.error is Some ==> handler.body.len() == 0 && handler.finished,
        undisturbed(events),
    ensures
        handler.after_all(events).wf(),
        handler.body + handler.written(events) == handler.read(events) + handler.after_all(
            events,
        ).body,
    decreases events.len(),
{
    if events.len() == 0 {
        assert(handler.body + Seq::<Seq<u8>>::empty() =~= Seq::<Seq<u8>>::empty() + handler.body);
    } else {
        let first = events[0];
        let rest = events.skip(1);
        let next = handler.after(first);
        assert forall|i: int| 0 <= i < rest.len() implies !((#[trigger] rest[i]) is Cancel) && !(
        rest[i] matches Event::Complete(Err(_))) by {
            assert(rest[i] == events[i + 1]);
        }
        lemma_event_conserves(handler, first);
        law_body_is_conserved(next, rest);
        lemma_regroup(
            handler.body,
            handler.taken_in(first),
            next.written(rest),
            handler.handed_in(first),
            next.body,
            next.read(rest),
            next.after_all(rest).body,
        );
    }
}

/// If `a + b == d + e` and `e + c == f + g`, then
/// `a + (b + c) == (d + f) + g`.
proof fn lemma_regroup(
    a: Seq<Seq<u8>>,
    b: Seq<Seq<u8>>,
    c: Seq<Seq<u8>>,
    d: Seq<Seq<u8>>,
    e: Seq<Seq<u8>>,
    f: Seq<Seq<u8>>,
    g: Seq<Seq<u8>>,
)
    requires
        a + b == d + e,
        e + c == f + g,
    ensures
        a + (b + c) == (d + f) + g,
{
    assert(a + (b + c) =~= (a + b) + c);
    assert((d + e) + c =~= d + (e + c));
    assert(d + (f + g) =~= (d + f) + g);
}

/// What is read is what was sent. For a transfer that begins with nothing
/// queued, once every piece has been read, the caller has been handed
/// exactly the pieces the engine handed over, in order, as long as the
/// caller did not give up and the engine reported no failure.
pub proof fn law_read_is_what_was_written(handler: HandlerView, events: Seq<Event>)
    requires
        handler.wf(),
        handler.error is None,
        handler.body.len() == 0,
        undisturbed(events),
        handler.after_all(events).body.len() == 0,
    ensures
        handler.read(events) == handler.written(events),
{
    law_body_is_conserved(handler, events);
    assert(handler.body + handler.written(events) =~= handler.written(events));
    assert(handler.read(events) + handler.after_all(events).body =~= handler.read(events));
}

/// So many polls of the body, one after the other.
pub open spec fn polls(count: nat) -> Seq<Event> {
    Seq::new(count, |i: int| Event::PollBody)
}

/// No transfer hangs at its end. Once the engine has reported success and
/// the response was handed over, as many polls as pieces wait hand out
/// exactly those pieces, in order, and the poll after them gives `End`.
pub proof fn law_finished_body_drains(handler: HandlerView)
    requires
        handler.wf(),
        handler.resolved && handler.finished && !handler.closed && handler.error is None,
    ensures
        handler.read(polls(handler.body.len())) == handler.body,
        handler.after_all(polls(handler.body.len())).body_outcome() is End,
    decreases handler.body.len(),
{
    let count = handler.body.len();
    if count == 0 {
        assert(handler.read(polls(0)) =~= handler.body);
    } else {
        let next = handler.after(Event::PollBody);
        assert(polls(count)[0] == Event::PollBody);
        assert(polls(count).skip(1) =~= polls((count - 1) as nat));
        assert(next.body =~= handler.body.skip(1));
        law_finished_body_drains(next);
        assert(seq![handler.body[0]] + handler.body.skip(1) =~= handler.body);
    }
}

/// No transfer hangs at its head. Once the head is complete, or the
/// engine has reported the outcome, the caller's next poll for the
/// response gives the response or the failure.
pub proof fn law_response_is_ready(handler: HandlerView)
    requires
        handler.wf(),
        !handler.closed && !handler.resolved,
        handler.headers_ready || handler.finished,
    ensures
        handler.response_outcome() is Ready,
        handler.error is None ==> handler.response_outcome() == Poll::<
            Result<ResponseView, ClientError>,
        >::Ready(Ok(ResponseView { status: handler.status->0, headers: handler.headers })),
{
}

/// The values of queued pieces.
pub open spec fn chunks_view(chunks: Seq<Vec<u8>>) -> Seq<Seq<u8>> {
    chunks.map_values(|c: Vec<u8>| c@)
}

impl View for RequestHandler {
    type V = HandlerView;

    closed spec fn view(&self) -> HandlerView {
        HandlerView {
            request_body: self.request_body@,
            status: self.status,
            headers: fields_view(self.headers@),
            headers_ready: self.headers_ready,
            resolved: self.resolved,
            body: chunks_view(self.body@),
            capacity: self.capacity as nat,
            body_started: self.body_started,
            error: self.error,
            finished: self.finished,
            closed: self.closed,
            write_paused: self.write_paused,
            read_paused: self.read_paused,
            resume: self.resume,
            waiting: self.waiting,
            wake: self.wake,
        }
    }
}

/// Copies a slice.
fn to_vec(data: &[u8]) -> (out: Vec<u8>)
    ensures
        out@ == data@,
{
    let mut out: Vec<u8> = Vec::new();
    let mut i: usize = 0;
    while i < data.len()
        invariant
            i <= data.len(),
            out@ == data@.take(i as int),
        decreases data.len() - i,
    {
        out.push(data[i]);
        i = i + 1;
    }
    out
}

impl RequestHandler {
    /// What holds of every handler (see [`HandlerView::wf`]).
    pub open spec fn wf(&self) -> bool {
        self@.wf()
    }

    /// A handler for a transfer that sends `request_body`, with room for
    /// [`DEFAULT_CAPACITY`] unread pieces of the response body.
    pub fn new(request_body: Body) -> (handler: RequestHandler)
        ensures
            handler.wf(),
            handler@ == HandlerView::fresh(request_body@, DEFAULT_CAPACITY as nat),
    {
        RequestHandler::with_capacity(request_body, DEFAULT_CAPACITY)
    }

    /// A handler with room for `capacity` unread pieces of the response
    /// body, and for one if `capacity` is zero.
    pub fn with_capacity(request_body: Body, capacity: usize) -> (handler: RequestHandler)
        ensures
            handler.wf(),
            handler@ == HandlerView::fresh(
                request_body@,
                if capacity == 0 {
                    1nat
                } else {
                    capacity as nat
                },
            ),
    {
        RequestHandler {
            request_body,
            status: None,
            headers: Vec::new(),
            headers_ready: false,
            resolved: false,
            body: VecDeque::new(),
            capacity: if capacity == 0 {
                1
            } else {
                capacity
            },
            body_started: false,
            error: None,
            finished: false,
            closed: false,
            write_paused: false,
            read_paused: false,
            resume: false,
            waiting: false,
            wake: false,
        }
    }

    fn notify(&mut self)
        ensures
            final(self)@ == old(self)@.notified(),
    {
        if self.waiting {
            self.waiting = false;
            self.wake = true;
        }
    }

    fn resume_for_room(&mut self)
        ensures
            final(self)@ == old(self)@.resumed_for_room(),
    {
        if self.write_paused {
            self.write_paused = false;
            self.resume = true;
        }
    }

    fn resume_for_data(&mut self)
        ensures
            final(self)@ == old(self)@.resumed_for_data(),
    {
        if self.read_paused {
            self.read_paused = false;
            self.resume = true;
        }
    }

    /// The engine hands over one line of the response's head. The answer
    /// says whether the engine is to go on with the transfer.
    pub fn on_header(&mut self, line: &[u8]) -> (proceed: bool)
        requires
            old(self).wf(),
        ensures
            final(self).wf(),
            proceed == old(self)@.header_accepted(line@),
            final(self)@ == old(self)@.after_header(line@),
    {
        if self.closed || self.finished {
            return false;
        }
        if self.body_started {
            return true;
        }
        match classify(line) {
            HeaderLine::Status(code) => {
                self.status = Some(code);
                self.headers = Vec::new();
                self.headers_ready = false;
                true
            },
            HeaderLine::Field(name, value) => {
                if self.status.is_some() && !self.headers_ready {
                    self.headers.push((name, value));
                }
                true
            },
            HeaderLine::Blank => {
                if self.status.is_some() && !self.headers_ready {
                    self.headers_ready = true;
                    self.notify();
                }
                true
            },
            HeaderLine::Malformed => false,
        }
    }

    /// The engine hands over one piece of the response's body.
    ///
    /// When the queue is full the answer is `Pause` and the piece is not
    /// taken: the engine halts this transfer, and no other, until the
    /// caller has made room.
    pub fn on_body(&mut self, data: &[u8]) -> (outcome: WriteOutcome)
        requires
            old(self).wf(),
        ensures
            final(self).wf(),
            outcome == old(self)@.write_outcome(data@),
            final(self)@ == old(self)@.after_write(data@),
    {
        if self.closed || self.finished || self.status.is_none() {
            return WriteOutcome::Abort;
        }
        if data.len() == 0 {
            return WriteOutcome::Accepted(0);
        }
        if self.body.len() >= self.capacity {
            self.write_paused = true;
            return WriteOutcome::Pause;
        }
        let piece = to_vec(data);
        self.body.push_back(piece);
        self.body_started = true;
        self.headers_ready = true;
        proof {
            assert(chunks_view(self.body@) =~= chunks_view(old(self).body@).push(data@));
        }
        self.notify();
        WriteOutcome::Accepted(data.len())
    }

    /// The engine asks for at most `max` bytes of the request's body.
    pub fn on_read(&mut self, max: usize) -> (outcome: ReadOutcome)
        requires
            old(self).wf(),
        ensures
            final(self).wf(),
            outcome@ == old(self)@.read_outcome(max as nat),
            final(self)@ == old(self)@.after_read(max as nat),
    {
        if self.closed {
            return ReadOutcome::Abort;
        }
        match self.request_body.read(max) {
            BodyRead::Data(bytes) => ReadOutcome::Data(bytes),
            BodyRead::End => ReadOutcome::End,
            BodyRead::Wait => {
                self.read_paused = true;
                ReadOutcome::Pause
            },
        }
    }

    /// The engine reports how the transfer ended.
    pub fn on_complete(&mut self, result: Result<(), ClientError>)
        requires
            old(self).wf(),
        ensures
            final(self).wf(),
            final(self)@ == old(self)@.after_complete(result),
    {
        if self.finished {
            return ;
        }
        self.finished = true;
        match result {
            Ok(()) => {
                if self.status.is_some() {
                    self.headers_ready = true;
                } else {
                    self.error = Some(ClientError::Transport(TransportError::NoResponse));
                }
            },
            Err(e) => {
                self.error = Some(e);
            },
        }
        self.notify();
    }

    /// The caller polls for the response.
    pub fn poll_response(&mut self) -> (out: Poll<Result<Response, ClientError>>)
        requires
            old(self).wf(),
        ensures
            final(self).wf(),
            response_poll_view(out) == old(self)@.response_outcome(),
            final(self)@ == old(self)@.after_poll_response(),
    {
        if self.closed || self.resolved {
            return Poll::Pending;
        }
        match self.error {
            Some(e) => {
                self.error = None;
                self.resolved = true;
                self.body.clear();
                return Poll::Ready(Err(e));
            },
            None => {},
        }
        if self.headers_ready {
            self.resolved = true;
            let mut headers: Vec<(Vec<u8>, Vec<u8>)> = Vec::new();
            std::mem::swap(&mut headers, &mut self.headers);
            let status = match self.status {
                Some(code) => code,
                None => 0,
            };
            Poll::Ready(Ok(Response { status, headers }))
        } else {
            self.waiting = true;
            Poll::Pending
        }
    }

    /// The caller polls for the next piece of the response's body.
    pub fn poll_body(&mut self) -> (out: BodyPoll)
        requires
            old(self).wf(),
        ensures
            final(self).wf(),
            out@ == old(self)@.body_outcome(),
            final(self)@ == old(self)@.after_poll_body(),
    {
        if self.closed {
            return BodyPoll::End;
        }
        if !self.resolved {
            return BodyPoll::Pending;
        }
        match self.error {
            Some(e) => {
                self.error = None;
                self.body.clear();
                return BodyPoll::Failed(e);
            },
            None => {},
        }
        match self.body.pop_front() {
            Some(piece) => {
                proof {
                    assert(chunks_view(self.body@) =~= chunks_view(old(self).body@).skip(1));
                }
                self.resume_for_room();
                BodyPoll::Chunk(piece)
            },
            None => {
                if self.finished {
                    BodyPoll::End
                } else {
                    self.waiting = true;
                    BodyPoll::Pending
                }
            },
        }
    }

    /// The caller gives the transfer up. Whatever was queued is dropped,
    /// and nothing that arrives later is kept.
    pub fn cancel(&mut self)
        requires
            old(self).wf(),
        ensures
            final(self).wf(),
            final(self)@ == old(self)@.after_cancel(),
    {
        self.closed = true;
        self.body.clear();
        self.error = None;
        self.waiting = false;
    }

    /// The producer of the request's body supplies more bytes. A transfer
    /// that was paused is to be resumed.
    pub fn supply_body(&mut self, bytes: &[u8])
        requires
            old(self).wf(),
        ensures
            final(self).wf(),
            final(self)@ == old(self)@.after_supply(bytes@),
    {
        self.request_body.supply(bytes);
        self.resume_for_data();
    }

    /// The producer of the request's body says that it is done. A transfer
    /// that was paused is to be resumed.
    pub fn finish_body(&mut self)
        requires
            old(self).wf(),
        ensures
            final(self).wf(),
            final(self)@ == old(self)@.after_finish(),
    {
        self.request_body.finish();
        self.resume_for_data();
    }

    /// Takes the notification for the caller, if one was raised.
    pub fn take_wake(&mut self) -> (raised: bool)
        requires
            old(self).wf(),
        ensures
            final(self).wf(),
            raised == old(self)@.wake,
            final(self)@ == (HandlerView { wake: false, ..old(self)@ }),
    {
        let raised = self.wake;
        self.wake = false;
        raised
    }

    /// Takes the request to resume the engine, if there is one.
    pub fn take_resume(&mut self) -> (wanted: bool)
        requires
            old(self).wf(),
        ensures
            final(self).wf(),
            wanted == old(self)@.resume,
            final(self)@ == (HandlerView { resume: false, ..old(self)@ }),
    {
        let wanted = self.resume;
        self.resume = false;
        wanted
    }
}

} // verus!
