use crate::error::{OpenAiError, OpenAiResult};
use crate::transcription::{StreamEvent, TranscriptionRequest, TranscriptionResponse};
use tokio::sync::mpsc::{UnboundedReceiver, UnboundedSender};
use vstd::prelude::*;
use vstd::string::*;

verus! {

// The bridge carries work items and replies over tokio's unbounded
// channels. The channel types are declared here so that they can stand in
// signatures and fields; their contents stay opaque, and the handful of
// methods the bridge calls are wrapped below with the contracts tokio's
// documentation gives them.

#[verifier::external_type_specification]
#[verifier::external_body]
#[verifier::reject_recursive_types(T)]
pub struct ExUnboundedSender<T>(UnboundedSender<T>);

#[verifier::external_type_specification]
#[verifier::external_body]
#[verifier::reject_recursive_types(T)]
pub struct ExUnboundedReceiver<T>(UnboundedReceiver<T>);

/// Relies on tokio's `impl Clone for UnboundedSender`: another sending
/// half of the same channel.
pub assume_specification<T>[ <UnboundedSender<T> as Clone>::clone ](
    s: &UnboundedSender<T>,
) -> UnboundedSender<T>;

/// Relies on tokio::sync::mpsc::unbounded_channel: a fresh unbounded
/// channel pair.
#[verifier::external_body]
fn unbounded_pair<T>() -> (UnboundedSender<T>, UnboundedReceiver<T>) {
    tokio::sync::mpsc::unbounded_channel()
}

/// Relies on tokio's UnboundedSender::send: it never blocks, and it fails
/// exactly when the receiving half was closed or dropped, handing the
/// value back inside the error.
#[verifier::external_body]
fn channel_send<T>(tx: &UnboundedSender<T>, value: T) -> (r: Result<(), T>)
    ensures
        r matches Err(v) ==> v == value,
{
    tx.send(value).map_err(|e| e.0)
}

/// Relies on tokio's UnboundedReceiver::blocking_recv: a value once one
/// is available, and None once the channel is closed and drained. tokio
/// panics when this is called inside an asynchronous context, so the
/// worker must run on a dedicated thread.
#[verifier::external_body]
fn channel_recv<T>(rx: &mut UnboundedReceiver<T>) -> Option<T> {
    rx.blocking_recv()
}

/// One value delivered over a reply channel.
#[derive(Clone, Debug)]
pub enum Reply {
    /// A terminal transcription value.
    Value(TranscriptionResponse),
    /// One streaming event.
    Event(StreamEvent),
    /// The handler failed on this request; the failure is delivered as a
    /// value, never a crash.
    Failure(OpenAiError),
}

/// A request paired with the sending half of its private reply channel,
/// as it travels over the work queue.
pub struct WorkItem {
    pub request: TranscriptionRequest,
    pub reply: UnboundedSender<Reply>,
}

/// What the inference handler makes of one request.
#[derive(Debug)]
pub enum HandlerOutcome {
    /// One terminal response.
    Complete(TranscriptionResponse),
    /// An ordered stream of events.
    Stream(Vec<StreamEvent>),
    /// A failure, described for the caller.
    Failure(String),
}

/// The foreign inference capability a worker drives: arbitrarily slow,
/// not assumed safe for concurrent invocation, and implemented outside
/// this library — by a production adapter or by a deterministic test
/// stub. Nothing is assumed of what it returns.
pub trait InferenceHandler {
    fn handle(&self, request: TranscriptionRequest) -> HandlerOutcome;
}

/// The replies a worker owes the caller for one handler outcome: the
/// terminal value, or every stream event in the order the handler
/// produced them, or the failure as a delivered value.
pub open spec fn spec_replies(outcome: HandlerOutcome) -> Seq<Reply> {
    match outcome {
        HandlerOutcome::Complete(r) => seq![Reply::Value(r)],
        HandlerOutcome::Stream(events) => events@.map_values(|e: StreamEvent| Reply::Event(e)),
        HandlerOutcome::Failure(m) => seq![Reply::Failure(OpenAiError::Handler(m))],
    }
}

/// Turns a handler outcome into the exact sequence of replies to send,
/// order kept.
pub fn replies_for(outcome: HandlerOutcome) -> (r: Vec<Reply>)
    ensures
        r@ == spec_replies(outcome),
{
    match outcome {
        HandlerOutcome::Complete(resp) => {
            let mut out: Vec<Reply> = Vec::new();
            out.push(Reply::Value(resp));
            proof {
                assert(out@ =~= spec_replies(outcome));
            }
            out
        },
        HandlerOutcome::Stream(events) => {
            let ghost all: Seq<StreamEvent> = events@;
            let mut events = events;
            let mut out: Vec<Reply> = Vec::new();
            while events.len() > 0
                invariant
                    all == all.subrange(0, all.len() - events@.len()) + events@,
                    out@ == all.subrange(0, all.len() - events@.len()).map_values(
                        |e: StreamEvent| Reply::Event(e),
                    ),
                decreases events.len(),
            {
                let ghost done_part: Seq<StreamEvent> = all.subrange(
                    0,
                    all.len() - events@.len(),
                );
                let ghost before: Seq<StreamEvent> = events@;
                let e = events.remove(0);
                out.push(Reply::Event(e));
                proof {
                    assert(before.remove(0) =~= before.drop_first());
                    assert(done_part.push(e) =~= all.subrange(0, all.len() - events@.len()));
                    assert(done_part.push(e).map_values(|ev: StreamEvent| Reply::Event(ev))
                        =~= done_part.map_values(|ev: StreamEvent| Reply::Event(ev)).push(
                        Reply::Event(e),
                    ));
                    assert(all =~= all.subrange(0, all.len() - events@.len()) + events@);
                }
            }
            proof {
                assert(all.subrange(0, all.len() as int) =~= all);
                assert(out@ =~= spec_replies(outcome));
            }
            out
        },
        HandlerOutcome::Failure(m) => {
            let mut out: Vec<Reply> = Vec::new();
            out.push(Reply::Failure(OpenAiError::Handler(m)));
            proof {
                assert(out@ =~= spec_replies(outcome));
            }
            out
        },
    }
}

/// The producer half of the scheduling bridge. Cloning it gives another
/// producer over the same queue; the consumer half is the queue receiver
/// a worker loop drives, and nothing here assumes how many workers drive
/// it.
#[derive(Clone)]
pub struct EndpointContext {
    queue: UnboundedSender<WorkItem>,
}

/// A fresh bridge: the producer context and the queue half a worker
/// consumes.
pub fn new_endpoint() -> (EndpointContext, UnboundedReceiver<WorkItem>) {
    let (tx, rx) = unbounded_pair();
    (EndpointContext::new(tx), rx)
}

pub open spec fn queue_closed_message() -> Seq<char> {
    "The work queue is closed"@
}

impl EndpointContext {
    /// Wraps the sending half of a work queue.
    pub fn new(queue: UnboundedSender<WorkItem>) -> EndpointContext {
        EndpointContext { queue }
    }

    /// Enqueues the request paired with a fresh private reply channel and
    /// hands the receiving half back at once; it never blocks, however
    /// many callers schedule concurrently. It fails exactly when the
    /// queue is closed — every worker gone — and then the request never
    /// entered processing.
    pub fn schedule(&self, request: TranscriptionRequest) -> (r: OpenAiResult<
        UnboundedReceiver<Reply>,
    >)
        ensures
            r matches Err(e) ==> (e matches OpenAiError::Scheduling(m) && m@
                == queue_closed_message()),
    {
        let (tx, rx) = unbounded_pair();
        match channel_send(&self.queue, WorkItem { request, reply: tx }) {
            Ok(_) => Ok(rx),
            Err(_) => Err(OpenAiError::Scheduling(String::from_str("The work queue is closed"))),
        }
    }
}

/// Processes one work item: invokes the handler, sends each owed reply in
/// order over the item's private channel, and drops the sending half,
/// which closes the channel. A send after the caller dropped its receiver
/// is a harmless no-op, so an abandoned request cannot stall the worker.
pub fn process_item<H: InferenceHandler>(handler: &H, item: WorkItem) {
    let WorkItem { request, reply } = item;
    let outcome = handler.handle(request);
    let mut replies = replies_for(outcome);
    while replies.len() > 0
        decreases replies.len(),
    {
        let r = replies.remove(0);
        let _ = channel_send(&reply, r);
    }
}

/// One turn of the worker loop: blocks for the next work item, processes
/// it, and says whether the queue is still open. The adapter repeats this
/// until it returns false — once the queue is closed and drained. A
/// failure of the handler on one item is delivered as a value over that
/// item's reply channel and never ends the turn, so no other in-flight or
/// future request is affected. Runs on a dedicated thread, never inside
/// an asynchronous context.
pub fn worker_step<H: InferenceHandler>(handler: &H, queue: &mut UnboundedReceiver<WorkItem>) -> (more: bool) {
    match channel_recv(queue) {
        Some(item) => {
            process_item(handler, item);
            true
        },
        None => false,
    }
}

/// What the caller does with one polled reply, given whether an
/// increment was already delivered.
#[derive(Debug)]
pub enum PollAction {
    /// Deliver this terminal value and stop polling.
    Deliver(TranscriptionResponse),
    /// Pass this increment on and keep polling.
    EmitDelta(String),
    /// The stream completed: deliver the full text and stop.
    CompleteText(String),
    /// Propagate this failure and stop.
    Fail(OpenAiError),
    /// The channel closed having delivered nothing.
    NoResponse,
    /// The channel closed after a partial stream.
    Interrupted,
}

/// The caller protocol for one polled value: an error propagates, a
/// terminal value or a completed stream delivers and stops, an increment
/// keeps the poll going, and a close maps to `NoResponse` exactly when
/// nothing was delivered before it.
pub open spec fn spec_poll_step(delivered: bool, item: Option<Reply>) -> PollAction {
    match item {
        Some(Reply::Value(r)) => PollAction::Deliver(r),
        Some(Reply::Event(StreamEvent::Delta(d))) => PollAction::EmitDelta(d.delta),
        Some(Reply::Event(StreamEvent::Done(d))) => PollAction::CompleteText(d.text),
        Some(Reply::Failure(e)) => PollAction::Fail(e),
        None => if delivered {
            PollAction::Interrupted
        } else {
            PollAction::NoResponse
        },
    }
}

/// One step of the caller's poll loop, exactly as `spec_poll_step` says.
pub fn reply_step(delivered: bool, item: Option<Reply>) -> (a: PollAction)
    ensures
        a == spec_poll_step(delivered, item),
{
    match item {
        Some(Reply::Value(r)) => PollAction::Deliver(r),
        Some(Reply::Event(StreamEvent::Delta(d))) => PollAction::EmitDelta(d.delta),
        Some(Reply::Event(StreamEvent::Done(d))) => PollAction::CompleteText(d.text),
        Some(Reply::Failure(e)) => PollAction::Fail(e),
        None => if delivered {
            PollAction::Interrupted
        } else {
            PollAction::NoResponse
        },
    }
}

/// The increments a protocol-following caller passes on over one reply
/// sequence: each leading delta's text, in order, up to the first value
/// that is not an increment.
pub open spec fn observed_increments(replies: Seq<Reply>) -> Seq<Seq<char>>
    decreases replies.len(),
{
    if replies.len() == 0 {
        Seq::empty()
    } else {
        match replies[0] {
            Reply::Event(StreamEvent::Delta(d)) => seq![d.delta@] + observed_increments(
                replies.drop_first(),
            ),
            _ => Seq::empty(),
        }
    }
}

/// Where a protocol-following caller stops over one reply sequence: the
/// first value that is not an increment decides, by `spec_poll_step`, and
/// a sequence of increments alone ends at the channel's close.
pub open spec fn observed_terminal(replies: Seq<Reply>, delivered: bool) -> PollAction
    decreases replies.len(),
{
    if replies.len() == 0 {
        spec_poll_step(delivered, None)
    } else {
        match replies[0] {
            Reply::Event(StreamEvent::Delta(d)) => observed_terminal(replies.drop_first(), true),
            _ => spec_poll_step(delivered, Some(replies[0])),
        }
    }
}

/// The text each delta of a stream carries, in emission order.
pub open spec fn delta_texts(events: Seq<StreamEvent>) -> Seq<Seq<char>>
    decreases events.len(),
{
    if events.len() == 0 {
        Seq::empty()
    } else {
        (match events[0] {
            StreamEvent::Delta(d) => seq![d.delta@],
            StreamEvent::Done(_) => Seq::empty(),
        }) + delta_texts(events.drop_first())
    }
}

/// A handler's stream is observed exactly as it was emitted: a caller
/// that follows the protocol over the replies the worker owes for a
/// stream of deltas closed by one completion passes on every delta's
/// text in emission order and stops at the completion, with its full
/// text — the completion is the unconditional end of the stream.
pub proof fn lemma_stream_observed_in_order(events: Seq<StreamEvent>, delivered: bool)
    requires
        events.len() > 0,
        forall|j: int| 0 <= j < events.len() - 1 ==> (#[trigger] events[j]) is Delta,
        events.last() is Done,
    ensures
        observed_increments(events.map_values(|e: StreamEvent| Reply::Event(e))) == delta_texts(
            events,
        ),
        observed_terminal(events.map_values(|e: StreamEvent| Reply::Event(e)), delivered)
            == PollAction::CompleteText(events.last()->Done_0.text),
    decreases events.len(),
{
    let replies = events.map_values(|e: StreamEvent| Reply::Event(e));
    assert(replies[0] == Reply::Event(events[0]));
    if events.len() == 1 {
        assert(events[0] is Done);
        assert(delta_texts(events.drop_first()) =~= Seq::<Seq<char>>::empty());
        assert(delta_texts(events) =~= Seq::<Seq<char>>::empty());
        assert(observed_increments(replies) =~= Seq::<Seq<char>>::empty());
    } else {
        assert(events[0] is Delta);
        let rest = events.drop_first();
        assert(rest.last() == events.last());
        assert(forall|j: int| 0 <= j < rest.len() - 1 ==> (#[trigger] rest[j]) == events[j + 1]);
        lemma_stream_observed_in_order(rest, true);
        assert(replies.drop_first() =~= rest.map_values(|e: StreamEvent| Reply::Event(e)));
    }
}

/// A unary outcome is observed as itself: the worker's one owed reply for
/// a terminal value delivers that value, and for a failure propagates it,
/// with no increment before either.
pub proof fn lemma_unary_observed(outcome: HandlerOutcome)
    requires
        !(outcome is Stream),
    ensures
        outcome matches HandlerOutcome::Complete(r) ==> observed_terminal(
            spec_replies(outcome),
            false,
        ) == PollAction::Deliver(r),
        outcome matches HandlerOutcome::Failure(m) ==> observed_terminal(
            spec_replies(outcome),
            false,
        ) == PollAction::Fail(OpenAiError::Handler(m)),
        observed_increments(spec_replies(outcome)) == Seq::<Seq<char>>::empty(),
{
    assert(observed_increments(spec_replies(outcome)) =~= Seq::<Seq<char>>::empty());
}

/// The unary caller protocol on the first polled value: the terminal
/// value or a completed stream's text delivers, a failure propagates, a
/// close before anything arrived is `NoResponse`, and an increment on a
/// channel polled as unary counts as no response either.
pub open spec fn spec_unary_outcome(first: Option<Reply>) -> Result<
    TranscriptionResponse,
    OpenAiError,
> {
    match first {
        Some(Reply::Value(r)) => Ok(r),
        Some(Reply::Event(StreamEvent::Done(d))) => Ok(TranscriptionResponse::Text(d.text)),
        Some(Reply::Event(StreamEvent::Delta(d))) => Err(OpenAiError::NoResponse),
        Some(Reply::Failure(e)) => Err(e),
        None => Err(OpenAiError::NoResponse),
    }
}

/// Classifies the first polled reply, exactly as `spec_unary_outcome`
/// says.
pub fn unary_outcome(first: Option<Reply>) -> (r: OpenAiResult<TranscriptionResponse>)
    ensures
        r == spec_unary_outcome(first),
{
    match first {
        Some(Reply::Value(resp)) => Ok(resp),
        Some(Reply::Event(StreamEvent::Done(d))) => Ok(TranscriptionResponse::Text(d.text)),
        Some(Reply::Event(StreamEvent::Delta(_))) => Err(OpenAiError::NoResponse),
        Some(Reply::Failure(e)) => Err(e),
        None => Err(OpenAiError::NoResponse),
    }
}

/// Blocks for the first reply and classifies it: the one poll the unary
/// route handler performs. A streaming caller instead polls repeatedly
/// and hands each value to `reply_step`. Runs outside asynchronous
/// contexts.
pub fn await_unary(rx: &mut UnboundedReceiver<Reply>) -> OpenAiResult<TranscriptionResponse> {
    let first = channel_recv(rx);
    unary_outcome(first)
}

} // verus!
