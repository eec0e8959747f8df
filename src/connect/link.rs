//! The connection supervisor's decisions: when to open or accept a socket,
//! when to start a read loop, and how to react when the stream ends. The
//! socket work itself is done by the caller, which reports back each outcome.
use vstd::prelude::*;
use crate::api::resp::ApiRespBuilder;
use crate::connect::pending::{
    after_poll, after_resolve, poll_result, CallMap, CallPoll, PendingCall,
};

verus! {

/// The pause between two failed attempts to open an outbound socket, in
/// milliseconds.
pub const RECONNECT_DELAY_MS: u64 = 3000;

/// Who opens the socket.
#[derive(Clone, Copy, Debug, PartialEq, Eq)]
pub enum LinkMode {
    /// This side connects to the peer.
    Outbound,
    /// This side listens and the peer connects (reverse mode).
    Reverse,
}

/// Where the supervisor stands. `generation` counts the sockets opened so
/// far; a read loop knows the generation of the socket it reads.
#[derive(Clone, Copy, Debug, PartialEq, Eq)]
pub enum LinkState {
    Connecting,
    Connected { generation: u64 },
}

/// What happened to the socket.
#[derive(Clone, Copy, Debug, PartialEq, Eq)]
pub enum LinkEvent {
    /// The socket was opened, or a peer was accepted and its handshake passed.
    Opened,
    /// Opening, accepting or the handshake failed.
    OpenFailed,
    /// The read loop of the given socket saw its stream end or fail.
    StreamEnded { generation: u64 },
}

/// What the supervisor asks the caller to do next.
#[derive(Clone, Copy, Debug, PartialEq, Eq)]
pub enum LinkAction {
    /// Install the new socket's halves and start one read loop for it.
    StartReadLoop { generation: u64 },
    /// Wait this long, then try to open or accept again.
    RetryAfter { delay_ms: u64 },
    /// Open or accept a new socket now.
    Reconnect,
    /// Nothing to do: the event does not concern the current socket.
    Ignore,
}

pub open spec fn retry_delay(mode: LinkMode) -> u64 {
    match mode {
        LinkMode::Outbound => RECONNECT_DELAY_MS,
        LinkMode::Reverse => 0,
    }
}

pub open spec fn next_generation(g: u64) -> u64 {
    if g == u64::MAX {
        0
    } else {
        (g + 1) as u64
    }
}

/// The transition table of the supervisor. It has no final state: failures
/// lead to another attempt, and the end of a stream to a new connection.
pub open spec fn link_step(mode: LinkMode, opened: u64, state: LinkState, event: LinkEvent) -> (
    LinkState,
    u64,
    LinkAction,
) {
    match (state, event) {
        (LinkState::Connecting, LinkEvent::Opened) => {
            let g = next_generation(opened);
            (LinkState::Connected { generation: g }, g, LinkAction::StartReadLoop { generation: g })
        },
        (LinkState::Connecting, LinkEvent::OpenFailed) => (
            LinkState::Connecting,
            opened,
            LinkAction::RetryAfter { delay_ms: retry_delay(mode) },
        ),
        (LinkState::Connected { generation }, LinkEvent::StreamEnded { generation: ended }) => {
            if generation == ended {
                (LinkState::Connecting, opened, LinkAction::Reconnect)
            } else {
                (state, opened, LinkAction::Ignore)
            }
        },
        _ => (state, opened, LinkAction::Ignore),
    }
}

/// The supervisor of one logical connection.
#[derive(Clone, Copy, Debug, PartialEq, Eq)]
pub struct Link {
    pub mode: LinkMode,
    pub state: LinkState,
    /// How many sockets were opened so far (wrapping).
    pub opened: u64,
}

impl Link {
    /// A supervisor about to open, or accept, its first socket.
    pub fn new(mode: LinkMode) -> (r: Link)
        ensures
            r.mode == mode,
            r.state == LinkState::Connecting,
            r.opened == 0,
    {
        Link { mode, state: LinkState::Connecting, opened: 0 }
    }

    /// Takes one event and says what to do about it.
    pub fn step(&mut self, event: LinkEvent) -> (r: LinkAction)
        ensures
            final(self).mode == old(self).mode,
            (final(self).state, final(self).opened, r) == link_step(
                old(self).mode,
                old(self).opened,
                old(self).state,
                event,
            ),
    {
        match (self.state, event) {
            (LinkState::Connecting, LinkEvent::Opened) => {
                let g = if self.opened == u64::MAX {
                    0
                } else {
                    self.opened + 1
                };
                self.state = LinkState::Connected { generation: g };
                self.opened = g;
                LinkAction::StartReadLoop { generation: g }
            },
            (LinkState::Connecting, LinkEvent::OpenFailed) => {
                let delay_ms = match self.mode {
                    LinkMode::Outbound => RECONNECT_DELAY_MS,
                    LinkMode::Reverse => 0,
                };
                LinkAction::RetryAfter { delay_ms }
            },
            (LinkState::Connected { generation }, LinkEvent::StreamEnded { generation: ended }) => {
                if generation == ended {
                    self.state = LinkState::Connecting;
                    LinkAction::Reconnect
                } else {
                    LinkAction::Ignore
                }
            },
            _ => LinkAction::Ignore,
        }
    }

    /// Whether calls can be written now.
    pub fn is_connected(&self) -> (r: bool)
        ensures
            r == (self.state is Connected),
    {
        match self.state {
            LinkState::Connected { .. } => true,
            LinkState::Connecting => false,
        }
    }
}

/// Reconnection. When the read loop of the current socket sees its stream
/// end, the supervisor goes straight back to connecting (or accepting), and
/// once a new socket is open it starts a read loop for it. The call table is
/// not touched by any of this: a call registered after the new socket is up
/// is settled by its envelope, while a call left waiting at the disconnect,
/// whose envelope never comes, times out at its deadline instead of hanging.
pub proof fn lemma_reconnect(
    mode: LinkMode,
    opened: u64,
    generation: u64,
    calls: CallMap,
    stale: Seq<char>,
    fresh: PendingCall,
    env: ApiRespBuilder,
    now: u64,
)
    requires
        calls.contains_key(stale),
        calls[stale].response.is_none(),
        now >= calls[stale].deadline,
        fresh.echo@ != stale,
        !calls.contains_key(fresh.echo@),
        fresh.response.is_none(),
        env.echo == Some(fresh.echo),
    ensures
        ({
            let (s1, o1, a1) = link_step(
                mode,
                opened,
                LinkState::Connected { generation },
                LinkEvent::StreamEnded { generation },
            );
            let (s2, o2, a2) = link_step(mode, o1, s1, LinkEvent::Opened);
            &&& s1 == LinkState::Connecting
            &&& a1 == LinkAction::Reconnect
            &&& s2 == LinkState::Connected { generation: next_generation(opened) }
            &&& a2 == LinkAction::StartReadLoop { generation: next_generation(opened) }
        }),
        ({
            let after = after_resolve(calls.insert(fresh.echo@, fresh), env);
            &&& poll_result(after, fresh.echo@, now) == (CallPoll::Ready {
                response: env,
                resp_type: fresh.resp_type,
            })
            &&& poll_result(after, stale, now) == CallPoll::TimedOut
            &&& !after_poll(after, stale, now).contains_key(stale)
        }),
{
}

} // verus!
