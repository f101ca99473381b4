use vstd::prelude::*;

use crate::api::{api_error_message, error_message, is_success_status};

verus! {

/// Where a streamed synthesis call stands.
pub enum RelayState {
    /// Nothing sent yet.
    Idle,
    /// The request is sent; the response headers are awaited.
    Requesting,
    /// The headers came with a success status; the body is being read.
    Streaming,
    /// The body is exhausted and every chunk was forwarded.
    Complete,
    /// The call failed, with this message.
    Failed(String),
}

/// What the transport reports to the relay.
pub enum RelayEvent {
    /// The request went out.
    Sent,
    /// The request could not be sent.
    SendFailed(String),
    /// The response headers arrived: the status code, its status line, and, for a status
    /// that is no success, the body text.
    Status { code: u16, status_line: String, body: String },
    /// One chunk of the body arrived.
    Chunk(Vec<u8>),
    /// Reading the next chunk failed.
    ReadFailed(String),
    /// Handing the last forwarded chunk to the UI failed.
    ForwardFailed(String),
    /// The body is exhausted.
    Ended,
}

/// What the relay asks its host to do next.
pub enum RelayAction {
    /// Nothing; wait for the next event.
    Wait,
    /// Hand this chunk to the UI now.
    Forward(Vec<u8>),
    /// Tell the caller that the call succeeded.
    Succeed,
    /// Tell the caller that the call failed, with this message.
    Fail(String),
}

pub ghost enum RelayStateView {
    Idle,
    Requesting,
    Streaming,
    Complete,
    Failed(Seq<char>),
}

pub ghost enum RelayEventView {
    Sent,
    SendFailed(Seq<char>),
    Status { code: u16, status_line: Seq<char>, body: Seq<char> },
    Chunk(Seq<u8>),
    ReadFailed(Seq<char>),
    ForwardFailed(Seq<char>),
    Ended,
}

pub ghost enum RelayActionView {
    Wait,
    Forward(Seq<u8>),
    Succeed,
    Fail(Seq<char>),
}

impl View for RelayState {
    type V = RelayStateView;

    open spec fn view(&self) -> RelayStateView {
        match self {
            RelayState::Idle => RelayStateView::Idle,
            RelayState::Requesting => RelayStateView::Requesting,
            RelayState::Streaming => RelayStateView::Streaming,
            RelayState::Complete => RelayStateView::Complete,
            RelayState::Failed(m) => RelayStateView::Failed(m@),
        }
    }
}

impl View for RelayEvent {
    type V = RelayEventView;

    open spec fn view(&self) -> RelayEventView {
        match self {
            RelayEvent::Sent => RelayEventView::Sent,
            RelayEvent::SendFailed(m) => RelayEventView::SendFailed(m@),
            RelayEvent::Status { code, status_line, body } => RelayEventView::Status {
                code: *code,
                status_line: status_line@,
                body: body@,
            },
            RelayEvent::Chunk(c) => RelayEventView::Chunk(c@),
            RelayEvent::ReadFailed(m) => RelayEventView::ReadFailed(m@),
            RelayEvent::ForwardFailed(m) => RelayEventView::ForwardFailed(m@),
            RelayEvent::Ended => RelayEventView::Ended,
        }
    }
}

impl View for RelayAction {
    type V = RelayActionView;

    open spec fn view(&self) -> RelayActionView {
        match self {
            RelayAction::Wait => RelayActionView::Wait,
            RelayAction::Forward(c) => RelayActionView::Forward(c@),
            RelayAction::Succeed => RelayActionView::Succeed,
            RelayAction::Fail(m) => RelayActionView::Fail(m@),
        }
    }
}

/// The state after event `e` in state `s`, and the action that goes with it. A success
/// status starts the body; every chunk is forwarded at once; any failure ends the call;
/// an event that does not fit the state changes nothing.
pub open spec fn step_spec(s: RelayStateView, e: RelayEventView) -> (RelayStateView, RelayActionView) {
    match s {
        RelayStateView::Idle => match e {
            RelayEventView::Sent => (RelayStateView::Requesting, RelayActionView::Wait),
            RelayEventView::SendFailed(m) => (RelayStateView::Failed(m), RelayActionView::Fail(m)),
            _ => (s, RelayActionView::Wait),
        },
        RelayStateView::Requesting => match e {
            RelayEventView::Status { code, status_line, body } => if 200 <= code && code < 300 {
                (RelayStateView::Streaming, RelayActionView::Wait)
            } else {
                let m = error_message(status_line, body);
                (RelayStateView::Failed(m), RelayActionView::Fail(m))
            },
            _ => (s, RelayActionView::Wait),
        },
        RelayStateView::Streaming => match e {
            RelayEventView::Chunk(c) => (RelayStateView::Streaming, RelayActionView::Forward(c)),
            RelayEventView::ReadFailed(m) => (RelayStateView::Failed(m), RelayActionView::Fail(m)),
            RelayEventView::ForwardFailed(m) => (
                RelayStateView::Failed(m),
                RelayActionView::Fail(m),
            ),
            RelayEventView::Ended => (RelayStateView::Complete, RelayActionView::Succeed),
            _ => (s, RelayActionView::Wait),
        },
        _ => (s, RelayActionView::Wait),
    }
}

/// A state that no event leaves.
pub open spec fn is_final(s: RelayStateView) -> bool {
    s is Complete || s is Failed
}

/// The chunks that action `a` hands to the UI.
pub open spec fn forwarded_by(a: RelayActionView) -> Seq<Seq<u8>> {
    match a {
        RelayActionView::Forward(c) => seq![c],
        _ => Seq::empty(),
    }
}

/// The state after `events` from state `s`, and every chunk forwarded on the way, in order.
pub open spec fn run(s: RelayStateView, events: Seq<RelayEventView>) -> (RelayStateView, Seq<Seq<u8>>)
    decreases events.len(),
{
    if events.len() == 0 {
        (s, Seq::empty())
    } else {
        let (before, chunks) = run(s, events.drop_last());
        let (after, a) = step_spec(before, events.last());
        (after, chunks + forwarded_by(a))
    }
}

/// The decisions of one streamed synthesis call; its host performs the actions and reports
/// the events.
pub struct Relay {
    state: RelayState,
}

impl View for Relay {
    type V = RelayStateView;

    closed spec fn view(&self) -> RelayStateView {
        self.state@
    }
}

impl Relay {
    /// A relay with nothing sent yet.
    pub fn new() -> (r: Relay)
        ensures
            r@ == RelayStateView::Idle,
    {
        Relay { state: RelayState::Idle }
    }

    /// Where the call stands.
    pub fn state(&self) -> (r: &RelayState)
        ensures
            r@ == self@,
    {
        &self.state
    }

    /// Takes in one event and gives the action it calls for.
    pub fn step(&mut self, event: RelayEvent) -> (r: RelayAction)
        ensures
            (final(self)@, r@) == step_spec(old(self)@, event@),
    {
        match (&self.state, event) {
            (RelayState::Idle, RelayEvent::Sent) => {
                self.state = RelayState::Requesting;
                RelayAction::Wait
            },
            (RelayState::Idle, RelayEvent::SendFailed(m)) => {
                self.state = RelayState::Failed(m.clone());
                RelayAction::Fail(m)
            },
            (RelayState::Requesting, RelayEvent::Status { code, status_line, body }) => {
                if is_success_status(code) {
                    self.state = RelayState::Streaming;
                    RelayAction::Wait
                } else {
                    let m = api_error_message(&status_line, &body);
                    self.state = RelayState::Failed(m.clone());
                    RelayAction::Fail(m)
                }
            },
            (RelayState::Streaming, RelayEvent::Chunk(c)) => RelayAction::Forward(c),
            (RelayState::Streaming, RelayEvent::ReadFailed(m)) => {
                self.state = RelayState::Failed(m.clone());
                RelayAction::Fail(m)
            },
            (RelayState::Streaming, RelayEvent::ForwardFailed(m)) => {
                self.state = RelayState::Failed(m.clone());
                RelayAction::Fail(m)
            },
            (RelayState::Streaming, RelayEvent::Ended) => {
                self.state = RelayState::Complete;
                RelayAction::Succeed
            },
            _ => RelayAction::Wait,
        }
    }
}

/// One more event takes one more step.
pub proof fn lemma_run_push(s: RelayStateView, events: Seq<RelayEventView>, e: RelayEventView)
    ensures
        run(s, events.push(e)) == (
            step_spec(run(s, events).0, e).0,
            run(s, events).1 + forwarded_by(step_spec(run(s, events).0, e).1),
        ),
{
    assert(events.push(e).drop_last() =~= events);
}

/// The state and the forwarded chunks once the request is out and its status is in.
pub proof fn lemma_run_head(code: u16, status_line: Seq<char>, body: Seq<char>)
    ensures
        run(
            RelayStateView::Idle,
            seq![RelayEventView::Sent, RelayEventView::Status { code, status_line, body }],
        ) == (
            step_spec(RelayStateView::Requesting, RelayEventView::Status { code, status_line, body }).0,
            forwarded_by(
                step_spec(
                    RelayStateView::Requesting,
                    RelayEventView::Status { code, status_line, body },
                ).1,
            ),
        ),
{
    let empty = Seq::<RelayEventView>::empty();
    let status = RelayEventView::Status { code, status_line, body };
    lemma_run_push(RelayStateView::Idle, empty, RelayEventView::Sent);
    lemma_run_push(RelayStateView::Idle, empty.push(RelayEventView::Sent), status);
    assert(empty.push(RelayEventView::Sent).push(status) =~= seq![RelayEventView::Sent, status]);
    assert(Seq::<Seq<u8>>::empty() + Seq::<Seq<u8>>::empty() =~= Seq::<Seq<u8>>::empty());
    let f = forwarded_by(step_spec(RelayStateView::Requesting, status).1);
    assert(Seq::<Seq<u8>>::empty() + f =~= f);
}

/// Running `events` and then `more` is running `more` from where `events` left off.
pub proof fn lemma_run_append(s: RelayStateView, events: Seq<RelayEventView>, more: Seq<RelayEventView>)
    ensures
        run(s, events + more).0 == run(run(s, events).0, more).0,
        run(s, events + more).1 == run(s, events).1 + run(run(s, events).0, more).1,
    decreases more.len(),
{
    if more.len() == 0 {
        assert(events + more =~= events);
        assert(run(s, events).1 + Seq::<Seq<u8>>::empty() =~= run(s, events).1);
    } else {
        lemma_run_append(s, events, more.drop_last());
        assert((events + more).drop_last() =~= events + more.drop_last());
        assert((events + more).last() == more.last());
        let mid = run(run(s, events).0, more.drop_last());
        let a = step_spec(mid.0, more.last()).1;
        assert(run(s, events).1 + mid.1 + forwarded_by(a) =~= run(s, events).1 + (mid.1
            + forwarded_by(a)));
    }
}

/// A finished call stays as it is and forwards nothing more, whatever happens next.
pub proof fn lemma_final_absorbs(s: RelayStateView, events: Seq<RelayEventView>)
    requires
        is_final(s),
    ensures
        run(s, events) == (s, Seq::<Seq<u8>>::empty()),
    decreases events.len(),
{
    if events.len() > 0 {
        lemma_final_absorbs(s, events.drop_last());
        assert(Seq::<Seq<u8>>::empty() + Seq::<Seq<u8>>::empty() =~= Seq::<Seq<u8>>::empty());
    }
}

/// While the body is read, each chunk is forwarded at once and in the order it came.
pub proof fn lemma_streaming_forwards(chunks: Seq<Seq<u8>>)
    ensures
        run(RelayStateView::Streaming, chunk_events(chunks)) == (RelayStateView::Streaming, chunks),
    decreases chunks.len(),
{
    if chunks.len() == 0 {
        assert(chunks =~= Seq::<Seq<u8>>::empty());
    } else {
        lemma_streaming_forwards(chunks.drop_last());
        assert(chunk_events(chunks).drop_last() =~= chunk_events(chunks.drop_last()));
        assert(chunks.drop_last() + seq![chunks.last()] =~= chunks);
    }
}

/// A chunk event for each of `chunks`, in order.
pub open spec fn chunk_events(chunks: Seq<Seq<u8>>) -> Seq<RelayEventView> {
    chunks.map_values(|c: Seq<u8>| RelayEventView::Chunk(c))
}

/// A call is a failure once it has failed: the state stays failed and nothing more is
/// forwarded, whatever happens next.
pub proof fn law_failure_is_final(s: RelayStateView, events: Seq<RelayEventView>, more: Seq<RelayEventView>)
    requires
        run(s, events).0 is Failed,
    ensures
        run(s, events + more) == run(s, events),
{
    lemma_run_append(s, events, more);
    lemma_final_absorbs(run(s, events).0, more);
    assert(run(s, events).1 + Seq::<Seq<u8>>::empty() =~= run(s, events).1);
}

/// Forwarded chunks are never taken back: what has been forwarded after `events` begins
/// what has been forwarded after any continuation of them, a failure included.
pub proof fn law_forwarded_never_retracted(
    s: RelayStateView,
    events: Seq<RelayEventView>,
    more: Seq<RelayEventView>,
)
    ensures
        run(s, events).1.len() <= run(s, events + more).1.len(),
        run(s, events + more).1.subrange(0, run(s, events).1.len() as int) == run(s, events).1,
{
    lemma_run_append(s, events, more);
    assert(run(s, events + more).1.subrange(0, run(s, events).1.len() as int) =~= run(s, events).1);
}

/// A response whose status is no success fails the call with the status line and the body
/// in its message, and forwards no chunk, whatever follows.
pub proof fn law_rejected_status_forwards_nothing(
    code: u16,
    status_line: Seq<char>,
    body: Seq<char>,
    rest: Seq<RelayEventView>,
)
    requires
        !(200 <= code && code < 300),
    ensures
        run(
            RelayStateView::Idle,
            seq![RelayEventView::Sent, RelayEventView::Status { code, status_line, body }] + rest,
        ) == (RelayStateView::Failed(error_message(status_line, body)), Seq::<Seq<u8>>::empty()),
{
    let head = seq![RelayEventView::Sent, RelayEventView::Status { code, status_line, body }];
    lemma_run_head(code, status_line, body);
    law_failure_is_final(RelayStateView::Idle, head, rest);
}

/// With a success status, chunks that arrive in order are forwarded exactly in that order,
/// each once, and the call is complete only after the body ends.
pub proof fn law_chunks_forwarded_in_order(
    code: u16,
    status_line: Seq<char>,
    body: Seq<char>,
    chunks: Seq<Seq<u8>>,
)
    requires
        200 <= code && code < 300,
    ensures
        run(
            RelayStateView::Idle,
            seq![RelayEventView::Sent, RelayEventView::Status { code, status_line, body }]
                + chunk_events(chunks) + seq![RelayEventView::Ended],
        ) == (RelayStateView::Complete, chunks),
        forall|k: int|
            0 <= k <= chunks.len() + 2 ==> run(
                RelayStateView::Idle,
                (seq![RelayEventView::Sent, RelayEventView::Status { code, status_line, body }]
                    + chunk_events(chunks) + seq![RelayEventView::Ended]).take(k),
            ).0 != RelayStateView::Complete,
{
    let head = seq![RelayEventView::Sent, RelayEventView::Status { code, status_line, body }];
    let events = head + chunk_events(chunks) + seq![RelayEventView::Ended];
    lemma_run_head(code, status_line, body);
    assert(run(RelayStateView::Idle, head) == (RelayStateView::Streaming, Seq::<Seq<u8>>::empty()));
    lemma_streaming_forwards(chunks);
    lemma_run_append(RelayStateView::Idle, head, chunk_events(chunks));
    assert(Seq::<Seq<u8>>::empty() + chunks =~= chunks);
    let body_events = head + chunk_events(chunks);
    assert(events.drop_last() =~= body_events);
    assert(chunks + Seq::<Seq<u8>>::empty() =~= chunks);
    assert forall|k: int| 0 <= k <= chunks.len() + 2 implies run(
        RelayStateView::Idle,
        events.take(k),
    ).0 != RelayStateView::Complete by {
        if k == 0 {
            assert(events.take(k) =~= Seq::<RelayEventView>::empty());
        } else if k == 1 {
            let empty = Seq::<RelayEventView>::empty();
            assert(events.take(k) =~= empty.push(RelayEventView::Sent));
            lemma_run_push(RelayStateView::Idle, empty, RelayEventView::Sent);
        } else {
            let part = chunks.take(k - 2);
            assert(events.take(k) =~= head + chunk_events(part));
            lemma_streaming_forwards(part);
            lemma_run_append(RelayStateView::Idle, head, chunk_events(part));
        }
    }
}

} // verus!
