//! The decisions of the service loop, as a state machine: the caller does
//! the outside work that an action asks for (checking the shutdown channel,
//! polling the source, sleeping, decoding JSON, spawning a publish) and
//! hands the outcome back as the next event.
use vstd::prelude::*;

use crate::error::ServiceError;
use crate::message::ZMQSendSmsMessage;

verus! {

/// How long the loop waits when the source had nothing, in milliseconds.
pub const IDLE_WAIT_MILLIS: u64 = 10;

/// Where the loop stands: which outcome it waits for.
#[derive(Clone, Copy, Debug, PartialEq, Eq)]
pub enum ServicePhase {
    /// Waits to learn whether a shutdown signal arrived.
    CheckingShutdown,
    /// Waits for what the source yields.
    Polling,
    /// Waits for the decoded request.
    Decoding,
    /// Waits for the sleep, the dispatch or the error report to be done.
    Resuming,
    /// The loop has ended.
    Stopped,
}

/// The outcome of the work that the last action asked for.
pub enum ServiceEvent {
    /// Whether a shutdown signal had arrived.
    ShutdownChecked(bool),
    /// What the source yielded.
    Polled(Result<Option<Vec<u8>>, ServiceError>),
    /// The decoded request, or why the payload could not be decoded.
    Decoded(Result<ZMQSendSmsMessage, String>),
    /// The sleep, dispatch or report is done.
    Resumed,
}

/// The work the loop asks for next.
pub enum ServiceAction {
    /// Check the shutdown channel without waiting.
    CheckShutdown,
    /// Ask the source for the next payload without waiting.
    PollSource,
    /// Wait this many milliseconds.
    Sleep(u64),
    /// Decode this payload as a JSON request.
    Decode(Vec<u8>),
    /// Publish this request in the background, within the concurrency limit.
    Dispatch(ZMQSendSmsMessage),
    /// Log that a payload could not be decoded, for this reason.
    ReportDecodeError(String),
    /// End the loop with this result.
    Finish(Result<(), ServiceError>),
    /// The event was not one the loop waited for; nothing to do.
    Ignore,
}

/// The decision the loop takes in `phase` on `event`: its next phase and
/// the action to carry out.
pub open spec fn transition(phase: ServicePhase, event: ServiceEvent) -> (ServicePhase, ServiceAction) {
    match (phase, event) {
        (ServicePhase::CheckingShutdown, ServiceEvent::ShutdownChecked(signalled)) => if signalled {
            (ServicePhase::Stopped, ServiceAction::Finish(Ok(())))
        } else {
            (ServicePhase::Polling, ServiceAction::PollSource)
        },
        (ServicePhase::Polling, ServiceEvent::Polled(polled)) => match polled {
            Err(e) => (ServicePhase::Stopped, ServiceAction::Finish(Err(e))),
            Ok(None) => (ServicePhase::Resuming, ServiceAction::Sleep(IDLE_WAIT_MILLIS)),
            Ok(Some(payload)) => (ServicePhase::Decoding, ServiceAction::Decode(payload)),
        },
        (ServicePhase::Decoding, ServiceEvent::Decoded(decoded)) => match decoded {
            Ok(msg) => (ServicePhase::Resuming, ServiceAction::Dispatch(msg)),
            Err(reason) => (ServicePhase::Resuming, ServiceAction::ReportDecodeError(reason)),
        },
        (ServicePhase::Resuming, ServiceEvent::Resumed) => (ServicePhase::CheckingShutdown, ServiceAction::CheckShutdown),
        (p, _) => (p, ServiceAction::Ignore),
    }
}

/// The phase reached and the actions asked for when `events` are handed,
/// one after the other, to a loop in `phase`.
pub open spec fn run(phase: ServicePhase, events: Seq<ServiceEvent>) -> (ServicePhase, Seq<ServiceAction>)
    decreases events.len(),
{
    if events.len() == 0 {
        (phase, Seq::empty())
    } else {
        let (next, action) = transition(phase, events[0]);
        let (last, actions) = run(next, events.drop_first());
        (last, seq![action] + actions)
    }
}

/// A stopped loop stays stopped and does nothing, whatever happens.
pub proof fn lemma_stopped_is_final(event: ServiceEvent)
    ensures
        transition(ServicePhase::Stopped, event) == (ServicePhase::Stopped, ServiceAction::Ignore),
{
}

/// The source is polled only right after the shutdown channel was found
/// empty: never once a shutdown signal has been seen.
pub proof fn lemma_poll_follows_clear_check(phase: ServicePhase, event: ServiceEvent)
    requires
        transition(phase, event).1 is PollSource,
    ensures
        phase == ServicePhase::CheckingShutdown,
        event == ServiceEvent::ShutdownChecked(false),
{
}

/// A payload is decoded only when the source yielded it, and then as is.
pub proof fn lemma_decode_follows_poll(phase: ServicePhase, event: ServiceEvent)
    requires
        transition(phase, event).1 is Decode,
    ensures
        phase == ServicePhase::Polling,
        event == ServiceEvent::Polled(Ok(Some(transition(phase, event).1->Decode_0))),
{
}

/// Every payload the source yields is decoded, whatever it holds.
pub proof fn lemma_every_payload_is_decoded(payload: Vec<u8>)
    ensures
        transition(ServicePhase::Polling, ServiceEvent::Polled(Ok(Some(payload))))
            == (ServicePhase::Decoding, ServiceAction::Decode(payload)),
{
}

/// Every request that decodes is dispatched for publishing, unchanged,
/// whatever it holds.
pub proof fn lemma_every_decoded_request_is_dispatched(msg: ZMQSendSmsMessage)
    ensures
        transition(ServicePhase::Decoding, ServiceEvent::Decoded(Ok(msg)))
            == (ServicePhase::Resuming, ServiceAction::Dispatch(msg)),
{
}

/// A payload that does not decode is reported with its reason, and the
/// loop goes on.
pub proof fn lemma_undecodable_payload_is_reported(reason: String)
    ensures
        transition(ServicePhase::Decoding, ServiceEvent::Decoded(Err(reason)))
            == (ServicePhase::Resuming, ServiceAction::ReportDecodeError(reason)),
{
}

/// An empty source makes the loop wait ten milliseconds, then check for
/// shutdown again.
pub proof fn lemma_empty_source_waits()
    ensures
        transition(ServicePhase::Polling, ServiceEvent::Polled(Ok(None)))
            == (ServicePhase::Resuming, ServiceAction::Sleep(10)),
        transition(ServicePhase::Resuming, ServiceEvent::Resumed)
            == (ServicePhase::CheckingShutdown, ServiceAction::CheckShutdown),
{
}

/// A request is dispatched only when it was decoded, and then unchanged.
pub proof fn lemma_dispatch_follows_decode(phase: ServicePhase, event: ServiceEvent)
    requires
        transition(phase, event).1 is Dispatch,
    ensures
        phase == ServicePhase::Decoding,
        event == ServiceEvent::Decoded(Ok(transition(phase, event).1->Dispatch_0)),
{
}

/// The loop ends exactly when it sees a shutdown signal (with success) or
/// a source error (with that error).
pub proof fn lemma_finish_causes(phase: ServicePhase, event: ServiceEvent)
    requires
        phase != ServicePhase::Stopped,
    ensures
        transition(phase, event).0 == ServicePhase::Stopped <==> (
            (phase == ServicePhase::CheckingShutdown && event == ServiceEvent::ShutdownChecked(true))
            || (phase == ServicePhase::Polling && event is Polled && event->Polled_0 is Err)),
        transition(phase, event).0 == ServicePhase::Stopped ==> transition(phase, event).1 == ServiceAction::Finish(
            match event {
                ServiceEvent::Polled(Err(e)) => Err(e),
                _ => Ok(()),
            },
        ),
{
}

/// From a stopped loop, any run of events asks for nothing and stays stopped.
pub proof fn lemma_stopped_run(events: Seq<ServiceEvent>)
    ensures
        run(ServicePhase::Stopped, events).0 == ServicePhase::Stopped,
        run(ServicePhase::Stopped, events).1.len() == events.len(),
        forall|i: int| 0 <= i < events.len() ==> #[trigger] run(ServicePhase::Stopped, events).1[i] is Ignore,
    decreases events.len(),
{
    if events.len() > 0 {
        lemma_stopped_run(events.drop_first());
    }
}

/// A run asks for one action per event.
pub proof fn lemma_run_length(phase: ServicePhase, events: Seq<ServiceEvent>)
    ensures
        run(phase, events).1.len() == events.len(),
    decreases events.len(),
{
    if events.len() > 0 {
        lemma_run_length(transition(phase, events[0]).0, events.drop_first());
    }
}

/// Once a run has ended the loop, every later action is `Ignore`.
pub proof fn lemma_nothing_after_finish(phase: ServicePhase, events: Seq<ServiceEvent>, i: int, j: int)
    requires
        0 <= i < j < events.len(),
        run(phase, events).1[i] is Finish,
    ensures
        run(phase, events).1[j] is Ignore,
    decreases events.len(),
{
    let (next, action) = transition(phase, events[0]);
    let rest = events.drop_first();
    let actions = run(phase, events).1;
    lemma_run_length(next, rest);
    assert(actions == seq![action] + run(next, rest).1);
    assert(actions[j] == run(next, rest).1[j - 1]);
    if i == 0 {
        assert(next == ServicePhase::Stopped);
        lemma_stopped_run(rest);
    } else {
        assert(actions[i] == run(next, rest).1[i - 1]);
        lemma_nothing_after_finish(next, rest, i - 1, j - 1);
    }
}

/// Seen from a phase other than `CheckingShutdown`, a run polls the source
/// only after it has asked to check for shutdown.
proof fn lemma_check_before_poll(phase: ServicePhase, events: Seq<ServiceEvent>, j: int)
    requires
        phase != ServicePhase::CheckingShutdown,
        0 <= j < events.len(),
        run(phase, events).1[j] is PollSource,
    ensures
        exists|k: int| 0 <= k < j && #[trigger] run(phase, events).1[k] is CheckShutdown,
    decreases events.len(),
{
    let (next, action) = transition(phase, events[0]);
    let rest = events.drop_first();
    let actions = run(phase, events).1;
    lemma_run_length(next, rest);
    assert(actions == seq![action] + run(next, rest).1);
    if action is CheckShutdown {
        assert(actions[0] is CheckShutdown);
    } else {
        assert(j > 0);
        assert(actions[j] == run(next, rest).1[j - 1]);
        lemma_check_before_poll(next, rest, j - 1);
        let k = choose|k: int| 0 <= k < j - 1 && #[trigger] run(next, rest).1[k] is CheckShutdown;
        assert(actions[k + 1] == run(next, rest).1[k]);
    }
}

/// Between two polls of the source the loop always checks for shutdown
/// again: at most one poll follows each shutdown check.
pub proof fn lemma_one_poll_per_check(phase: ServicePhase, events: Seq<ServiceEvent>, i: int, j: int)
    requires
        0 <= i < j < events.len(),
        run(phase, events).1[i] is PollSource,
        run(phase, events).1[j] is PollSource,
    ensures
        exists|k: int| i < k < j && #[trigger] run(phase, events).1[k] is CheckShutdown,
    decreases events.len(),
{
    let (next, action) = transition(phase, events[0]);
    let rest = events.drop_first();
    let actions = run(phase, events).1;
    lemma_run_length(next, rest);
    assert(actions == seq![action] + run(next, rest).1);
    assert(actions[j] == run(next, rest).1[j - 1]);
    if i == 0 {
        assert(next == ServicePhase::Polling);
        lemma_check_before_poll(next, rest, j - 1);
        let k = choose|k: int| 0 <= k < j - 1 && #[trigger] run(next, rest).1[k] is CheckShutdown;
        assert(actions[k + 1] == run(next, rest).1[k]);
    } else {
        assert(actions[i] == run(next, rest).1[i - 1]);
        lemma_one_poll_per_check(next, rest, i - 1, j - 1);
        let k = choose|k: int| i - 1 < k < j - 1 && #[trigger] run(next, rest).1[k] is CheckShutdown;
        assert(actions[k + 1] == run(next, rest).1[k]);
    }
}

/// A loop that has not stopped asks to check for shutdown again within
/// four steps, as long as it is handed the outcomes it asks for (no step
/// is ignored) and it does not finish.
pub proof fn lemma_check_within_four_steps(phase: ServicePhase, events: Seq<ServiceEvent>)
    requires
        phase != ServicePhase::Stopped,
        events.len() >= 4,
        forall|i: int| 0 <= i < 4 ==> !(#[trigger] run(phase, events).1[i] is Ignore),
        forall|i: int| 0 <= i < 4 ==> !(#[trigger] run(phase, events).1[i] is Finish),
    ensures
        exists|k: int| 0 <= k < 4 && #[trigger] run(phase, events).1[k] is CheckShutdown,
{
    let e1 = events.drop_first();
    let e2 = e1.drop_first();
    let e3 = e2.drop_first();
    let (p1, a0) = transition(phase, events[0]);
    let (p2, a1) = transition(p1, e1[0]);
    let (p3, a2) = transition(p2, e2[0]);
    let (p4, a3) = transition(p3, e3[0]);
    let actions = run(phase, events).1;
    lemma_run_length(p4, e3.drop_first());
    assert(run(p3, e3).1 == seq![a3] + run(p4, e3.drop_first()).1);
    assert(run(p2, e2).1 == seq![a2] + run(p3, e3).1);
    assert(run(p1, e1).1 == seq![a1] + run(p2, e2).1);
    assert(actions == seq![a0] + run(p1, e1).1);
    assert(actions[0] == a0);
    assert(actions[1] == a1);
    assert(actions[2] == a2);
    assert(actions[3] == a3);
}

/// The loop that turns source payloads into publish tasks until a
/// shutdown signal arrives or the source fails.
pub struct ServiceLoop {
    phase: ServicePhase,
}

impl View for ServiceLoop {
    type V = ServicePhase;

    closed spec fn view(&self) -> ServicePhase {
        self.phase
    }
}

impl ServiceLoop {
    /// A loop about to start: its first action is to check for shutdown.
    pub fn new() -> (r: (ServiceLoop, ServiceAction))
        ensures
            r.0@ == ServicePhase::CheckingShutdown,
            r.1 is CheckShutdown,
    {
        (ServiceLoop { phase: ServicePhase::CheckingShutdown }, ServiceAction::CheckShutdown)
    }

    /// Where the loop stands.
    pub fn phase(&self) -> (p: ServicePhase)
        ensures
            p == self@,
    {
        self.phase
    }

    /// Whether the loop has ended.
    pub fn is_stopped(&self) -> (b: bool)
        ensures
            b == (self@ == ServicePhase::Stopped),
    {
        match self.phase {
            ServicePhase::Stopped => true,
            _ => false,
        }
    }

    /// Takes the decision for `event`.
    pub fn step(&mut self, event: ServiceEvent) -> (action: ServiceAction)
        ensures
            (final(self)@, action) == transition(old(self)@, event),
            event matches ServiceEvent::Polled(Ok(Some(b))) ==> (old(self)@ == ServicePhase::Polling
                ==> final(self)@ == ServicePhase::Decoding && action == ServiceAction::Decode(b)),
            event matches ServiceEvent::Decoded(Ok(m)) ==> (old(self)@ == ServicePhase::Decoding
                ==> final(self)@ == ServicePhase::Resuming && action == ServiceAction::Dispatch(m)),
    {
        let phase = self.phase;
        let (next, action) = match (phase, event) {
            (ServicePhase::CheckingShutdown, ServiceEvent::ShutdownChecked(signalled)) => if signalled {
                (ServicePhase::Stopped, ServiceAction::Finish(Ok(())))
            } else {
                (ServicePhase::Polling, ServiceAction::PollSource)
            },
            (ServicePhase::Polling, ServiceEvent::Polled(polled)) => match polled {
                Err(e) => (ServicePhase::Stopped, ServiceAction::Finish(Err(e))),
                Ok(None) => (ServicePhase::Resuming, ServiceAction::Sleep(IDLE_WAIT_MILLIS)),
                Ok(Some(payload)) => (ServicePhase::Decoding, ServiceAction::Decode(payload)),
            },
            (ServicePhase::Decoding, ServiceEvent::Decoded(decoded)) => match decoded {
                Ok(msg) => (ServicePhase::Resuming, ServiceAction::Dispatch(msg)),
                Err(reason) => (ServicePhase::Resuming, ServiceAction::ReportDecodeError(reason)),
            },
            (ServicePhase::Resuming, ServiceEvent::Resumed) => (ServicePhase::CheckingShutdown, ServiceAction::CheckShutdown),
            (p, _) => (p, ServiceAction::Ignore),
        };
        self.phase = next;
        action
    }
}

} // verus!
