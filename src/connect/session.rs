//! One logical connection's state, shared by the read loop and the callers:
//! the event bus and the pending-call table. Both outlive any one socket.
use vstd::prelude::*;
use crate::api::resp::{ApiResp, ApiRespBuilder, ApiRespData};
use crate::connect::bus::EventBus;
use crate::connect::pending::{accepts, after_resolve, CallMap, CallPoll, PendingCalls};
use crate::event::Event;

verus! {

/// How long a call waits for its response, in milliseconds.
pub const CALL_TIMEOUT_MS: u64 = 30000;

/// How many events the bus keeps for each subscriber.
pub const EVENT_WINDOW: usize = 100;

/// Why a call produced no result.
#[derive(Clone, Debug, PartialEq, Eq)]
pub enum CallError {
    /// No response arrived before the deadline.
    Timeout,
    /// The peer answered with `status: "failed"`.
    Failed { retcode: u32 },
    /// The response data did not have the shape of the call's result.
    Decode,
    /// The call could not be written to the socket.
    Send,
}

/// The result a call's caller receives for an envelope, given the envelope's
/// data decoded by the call's response kind (`None` when it did not decode).
pub open spec fn call_outcome(env: ApiRespBuilder, decoded: Option<ApiRespData>) -> Result<
    ApiResp,
    CallError,
> {
    if env.status@ == "failed"@ {
        Err(CallError::Failed { retcode: env.retcode })
    } else {
        match decoded {
            Some(data) => Ok(
                ApiResp { status: env.status, retcode: env.retcode, data, echo: env.echo },
            ),
            None => Err(CallError::Decode),
        }
    }
}

impl ApiRespBuilder {
    /// Whether the envelope reports a failed call.
    pub fn is_failed(&self) -> (r: bool)
        ensures
            r == (self.status@ == "failed"@),
    {
        crate::text::same_text(self.status.as_str(), "failed")
    }

    /// The typed response for this envelope, given its data decoded by the
    /// call's response kind (`None` when it did not decode).
    pub fn build(self, decoded: Option<ApiRespData>) -> (r: Result<ApiResp, CallError>)
        ensures
            r == call_outcome(self, decoded),
    {
        if self.is_failed() {
            return Err(CallError::Failed { retcode: self.retcode });
        }
        match decoded {
            Some(data) => Ok(
                ApiResp { status: self.status, retcode: self.retcode, data, echo: self.echo },
            ),
            None => Err(CallError::Decode),
        }
    }
}

/// Where the read loop put one inbound frame.
#[derive(Clone, Copy, Debug, PartialEq, Eq)]
pub enum Routed {
    /// An event, handed to every subscriber.
    Published,
    /// A response, handed to the call that waits for it.
    Resolved,
    /// A response that no outstanding call waits for.
    Discarded,
    /// A frame that could not be decoded.
    Dropped,
}

/// The bus history and call table after one frame (`None` for a frame that
/// could not be decoded).
pub open spec fn after_frame(events: Seq<Event>, calls: CallMap, frame: Option<Event>) -> (
    Seq<Event>,
    CallMap,
) {
    match frame {
        None => (events, calls),
        Some(Event::ApiRespBuilder(env)) => (events, after_resolve(calls, env)),
        Some(e) => (events.push(e), calls),
    }
}

pub open spec fn routed(calls: CallMap, frame: Option<Event>) -> Routed {
    match frame {
        None => Routed::Dropped,
        Some(Event::ApiRespBuilder(env)) => if accepts(calls, env) {
            Routed::Resolved
        } else {
            Routed::Discarded
        },
        Some(_) => Routed::Published,
    }
}

/// The state one logical connection keeps across reconnects.
pub struct Session {
    pub events: EventBus<Event>,
    pub calls: PendingCalls,
}

impl Session {
    pub open spec fn wf(&self) -> bool {
        self.events.wf() && self.calls.wf()
    }

    pub fn new() -> (r: Session)
        ensures
            r.wf(),
            r.events@ == Seq::<Event>::empty(),
            r.events.cap() == EVENT_WINDOW,
            r.calls@ == CallMap::empty(),
    {
        Session { events: EventBus::new(EVENT_WINDOW), calls: PendingCalls::new() }
    }

    /// Routes one inbound frame: events go to the bus, responses to the call
    /// bearing their echo, and a frame that could not be decoded is dropped
    /// with nothing changed.
    pub fn on_frame(&mut self, frame: Option<Event>) -> (r: Routed)
        requires
            old(self).wf(),
            old(self).events@.len() < u64::MAX,
        ensures
            final(self).wf(),
            final(self).events.cap() == old(self).events.cap(),
            (final(self).events@, final(self).calls@) == after_frame(
                old(self).events@,
                old(self).calls@,
                frame,
            ),
            r == routed(old(self).calls@, frame),
    {
        match frame {
            None => Routed::Dropped,
            Some(Event::ApiRespBuilder(env)) => {
                if self.calls.resolve(env) {
                    Routed::Resolved
                } else {
                    Routed::Discarded
                }
            },
            Some(event) => {
                self.events.publish(event);
                Routed::Published
            },
        }
    }

    /// Registers a call issued at `now` under `echo`; it times out
    /// `CALL_TIMEOUT_MS` later. Refused when the echo is already outstanding.
    pub fn begin_call(&mut self, echo: String, resp_type: u8, now: u64) -> (r: bool)
        requires
            old(self).wf(),
        ensures
            final(self).wf(),
            final(self).events == old(self).events,
            r == !old(self).calls@.contains_key(echo@),
            r ==> final(self).calls@.contains_key(echo@),
            r ==> final(self).calls@[echo@].resp_type == resp_type,
            r ==> final(self).calls@[echo@].deadline == deadline_after(now, CALL_TIMEOUT_MS),
            r ==> final(self).calls@[echo@].response.is_none(),
            r ==> final(self).calls@.remove(echo@) == old(self).calls@,
            !r ==> final(self).calls@ == old(self).calls@,
    {
        let ghost k = echo@;
        let deadline = deadline_at(now, CALL_TIMEOUT_MS);
        let r = self.calls.register(echo, resp_type, deadline);
        if r {
            assert(self.calls@.remove(k) =~= old(self).calls@);
        }
        r
    }

    /// Looks at the call with this echo at instant `now`.
    pub fn poll_call(&mut self, echo: &String, now: u64) -> (r: CallPoll)
        requires
            old(self).wf(),
        ensures
            final(self).wf(),
            final(self).events == old(self).events,
            r == crate::connect::pending::poll_result(old(self).calls@, echo@, now),
            final(self).calls@ == crate::connect::pending::after_poll(
                old(self).calls@,
                echo@,
                now,
            ),
    {
        self.calls.poll(echo, now)
    }
}

/// The instant `timeout` after `now`, saturating at the end of time.
pub open spec fn deadline_after(now: u64, timeout: u64) -> u64 {
    if now + timeout > u64::MAX {
        u64::MAX
    } else {
        (now + timeout) as u64
    }
}

pub fn deadline_at(now: u64, timeout: u64) -> (r: u64)
    ensures
        r == deadline_after(now, timeout),
{
    now.saturating_add(timeout)
}

/// A frame that could not be decoded changes nothing, so the frame after it
/// is routed exactly as if the bad one had never come.
pub proof fn lemma_malformed_frame_is_skipped(
    events: Seq<Event>,
    calls: CallMap,
    next: Option<Event>,
)
    ensures
        after_frame(events, calls, None) == (events, calls),
        routed(calls, None) == Routed::Dropped,
        ({
            let (e1, c1) = after_frame(events, calls, None);
            &&& after_frame(e1, c1, next) == after_frame(events, calls, next)
            &&& routed(c1, next) == routed(calls, next)
        }),
{
}

/// A response that no outstanding call waits for is discarded by the read
/// loop, which goes on with its state unchanged.
pub proof fn lemma_unmatched_response_leaves_state(
    events: Seq<Event>,
    calls: CallMap,
    env: ApiRespBuilder,
)
    requires
        env.echo.is_none() || !calls.contains_key(env.echo.unwrap()@),
    ensures
        routed(calls, Some(Event::ApiRespBuilder(env))) == Routed::Discarded,
        after_frame(events, calls, Some(Event::ApiRespBuilder(env))) == (events, calls),
{
}

} // verus!
