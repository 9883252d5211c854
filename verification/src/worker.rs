//! The dispatcher worker's decisions.
//!
//! The worker is a long-lived background task with two wake sources: the
//! cancellation latch and the request channel. What it does on each wake is a
//! decision on plain values and lives here; the waiting itself, the HTTP
//! exchange and the channel sends live outside the library. A trace model,
//! `performed`, says which queued requests a run of the loop carries out, and
//! the laws below pin the two guarantees the tool relies on: cancellation
//! stops the loop for good, and an undisturbed loop serves every request
//! exactly once, in arrival order.

use vstd::prelude::*;
use crate::errors::ErrorKind;
use crate::json::json_parse_of;
use crate::request::RequestSpec;

verus! {

/// The outcome of performing one request, success or classified error.
pub type DispatchResult = Result<serde_json::Value, ErrorKind>;

/// One wake of the worker loop.
pub enum WorkerEvent {
    /// The cancellation latch changed.
    CancelObserved,
    /// The request channel closed: every sender is gone.
    QueueClosed,
    /// The next queued request arrived.
    Arrived(RequestSpec),
}

/// What the worker does on one wake.
pub enum WorkerStep {
    /// Terminate the loop; queued requests that were not taken are dropped.
    Stop,
    /// Perform the HTTP exchange for this request, then wake again.
    Perform(RequestSpec),
}

/// A wake that terminates the loop.
pub open spec fn is_stop_event(ev: WorkerEvent) -> bool {
    ev is CancelObserved || ev is QueueClosed
}

/// The worker's decision on one wake.
pub open spec fn step_of(ev: WorkerEvent) -> WorkerStep {
    match ev {
        WorkerEvent::CancelObserved => WorkerStep::Stop,
        WorkerEvent::QueueClosed => WorkerStep::Stop,
        WorkerEvent::Arrived(r) => WorkerStep::Perform(r),
    }
}

/// Decide what the worker does on one wake: stop on cancellation or on a
/// closed queue, otherwise perform the arrived request.
pub fn worker_step(ev: WorkerEvent) -> (s: WorkerStep)
    ensures
        s == step_of(ev),
{
    match ev {
        WorkerEvent::CancelObserved => WorkerStep::Stop,
        WorkerEvent::QueueClosed => WorkerStep::Stop,
        WorkerEvent::Arrived(r) => WorkerStep::Perform(r),
    }
}

/// The requests a run of the worker loop performs, given its wakes in order:
/// those that arrive before the first stopping wake, in arrival order.
pub open spec fn performed(events: Seq<WorkerEvent>) -> Seq<RequestSpec>
    decreases events.len(),
{
    if events.len() == 0 {
        Seq::<RequestSpec>::empty()
    } else if is_stop_event(events.first()) {
        Seq::<RequestSpec>::empty()
    } else {
        seq![events.first()->Arrived_0] + performed(events.drop_first())
    }
}

/// Once the worker observes cancellation, the loop is over: what it performs
/// is already fixed by the wakes before the observation, so no request queued
/// at or after it is ever performed and no result is produced for one.
pub proof fn lemma_cancellation_halts_worker(events: Seq<WorkerEvent>, i: int)
    requires
        0 <= i < events.len(),
        is_stop_event(events[i]),
    ensures
        performed(events) == performed(events.take(i)),
    decreases i,
{
    if i == 0 {
        assert(events.take(0) =~= Seq::<WorkerEvent>::empty());
    } else if is_stop_event(events.first()) {
        assert(events.take(i).first() == events.first());
    } else {
        let rest = events.drop_first();
        lemma_cancellation_halts_worker(rest, i - 1);
        assert(events.take(i).drop_first() =~= rest.take(i - 1));
        assert(events.take(i).first() == events.first());
    }
}

/// An undisturbed worker loop serves every queued request exactly once, in
/// arrival order: with no stopping wake among the events, the performed
/// sequence is exactly the arrived requests, first in, first out.
pub proof fn lemma_fifo_exactly_once(events: Seq<WorkerEvent>)
    requires
        forall|j: int| 0 <= j < events.len() ==> !is_stop_event(events[j]),
    ensures
        performed(events) == events.map_values(|ev: WorkerEvent| ev->Arrived_0),
    decreases events.len(),
{
    let arrived = |ev: WorkerEvent| ev->Arrived_0;
    if events.len() == 0 {
        assert(performed(events) =~= events.map_values(arrived));
    } else {
        let rest = events.drop_first();
        assert(forall|j: int| 0 <= j < rest.len() ==> !is_stop_event(rest[j]));
        lemma_fifo_exactly_once(rest);
        assert(performed(events) =~= events.map_values(arrived));
    }
}

/// The outcome the worker can observe of one HTTP exchange, as plain values:
/// the exchange failed at the transport level, or it produced a response body.
pub enum ExchangeOutcome {
    /// Sending the request or reading the response failed; the message.
    TransportFailed(String),
    /// The full response body arrived as text.
    BodyText(String),
}

/// What classifying an exchange outcome returns.
pub open spec fn classified(out: ExchangeOutcome, r: DispatchResult) -> bool {
    match out {
        ExchangeOutcome::TransportFailed(m) => {
            &&& r matches Err(e)
            &&& e matches ErrorKind::Transport(detail)
            &&& detail@ == m@
        },
        ExchangeOutcome::BodyText(b) => match json_parse_of(b@) {
            Ok(v) => r matches Ok(w) && w == v,
            Err(m) => {
                &&& r matches Err(e)
                &&& e matches ErrorKind::ResponseParse(detail)
                &&& detail@ == m
            },
        },
    }
}

/// Turn the outcome of one HTTP exchange into exactly one dispatch result: a
/// transport failure as `Transport`, a body the JSON parser rejects as
/// `ResponseParse`, and a body that parses as the parsed value. Total: every
/// performed request yields one result, never none and never two.
pub fn classify_exchange(out: ExchangeOutcome) -> (r: DispatchResult)
    ensures
        classified(out, r),
{
    match out {
        ExchangeOutcome::TransportFailed(m) => Err(ErrorKind::Transport(m)),
        ExchangeOutcome::BodyText(b) => match crate::json::parse_json(b.as_str()) {
            Ok(v) => Ok(v),
            Err(m) => Err(ErrorKind::ResponseParse(m)),
        },
    }
}

} // verus!
