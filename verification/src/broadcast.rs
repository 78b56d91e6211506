//! Handing a transaction to a peer: what to do next, given how the last thing went. A peer has
//! the transaction once it answers a ping that was sent after it.
use crate::net;
use crate::net::{PeerAddr, SocketAddr};
use vstd::prelude::*;

verus! {

/// How long peers are tried, in nanoseconds.
pub const BROADCAST_TIMEOUT: u64 = 60_000_000_000;

/// How long one peer's answer is waited for, in nanoseconds.
pub const BROADCAST_PONG_TIMEOUT: u64 = 5_000_000_000;

/// Where a broadcast stands.
#[derive(Debug, Clone, Copy, PartialEq, Eq)]
pub enum BroadcastState {
    /// About to see whether there is time for another peer.
    CheckingTime,
    /// About to draw a peer.
    Drawing,
    /// About to connect.
    Connecting(SocketAddr),
    /// About to note that the peer cannot be reached.
    NotingFailure,
    /// About to send the transaction.
    Sending,
    /// About to send a ping.
    Pinging { nonce: u64 },
    /// About to see whether there is time left for the answer.
    AwaitingPong { nonce: u64, deadline: u128 },
    /// About to read a message.
    Reading { nonce: u64, deadline: u128 },
    /// About to note that the peer answered.
    NotingSuccess,
    /// Done.
    Finished { delivered: bool },
}

/// What is to be done in a state.
#[derive(Debug, Clone, Copy, PartialEq, Eq)]
pub enum BroadcastAction {
    ReadClock,
    DrawPeer,
    Connect(SocketAddr),
    MarkFailed,
    SendTransaction,
    SendPing(u64),
    ReadMessage,
    MarkSuccessful,
    Finish { delivered: bool },
}

/// What reading from a peer gave.
#[derive(Debug, Clone, Copy, PartialEq, Eq, Structural)]
pub enum ReadOutcome {
    Pong(u64),
    /// Another message, or none that is complete.
    Other,
    /// Nothing came in time.
    TimedOut,
    /// The connection is gone.
    Failed,
}

/// How what was to be done went. Times are nanoseconds from the start of the broadcast.
#[derive(Debug, Clone, Copy, PartialEq, Eq)]
pub enum BroadcastEvent {
    Clock(u64),
    Drawn(Option<(PeerAddr, u16)>),
    Connected(bool),
    TransactionSent(bool),
    /// The time where the ping went out, `None` where it did not.
    PingSent(Option<u64>),
    Read(ReadOutcome),
    Noted,
}

/// What a message means to one who waits for the answer to a ping.
#[derive(Debug, Clone, Copy, PartialEq, Eq, Structural)]
pub enum PongWait {
    Answered,
    KeepWaiting,
    GaveUp,
}

/// Only a pong with the ping's own nonce is its answer; a connection that is gone gives none.
pub open spec fn awaited(nonce: u64, outcome: ReadOutcome) -> PongWait {
    match outcome {
        ReadOutcome::Pong(received) => if received == nonce {
            PongWait::Answered
        } else {
            PongWait::KeepWaiting
        },
        ReadOutcome::Other => PongWait::KeepWaiting,
        ReadOutcome::TimedOut => PongWait::KeepWaiting,
        ReadOutcome::Failed => PongWait::GaveUp,
    }
}

pub fn wait_for_pong(nonce: u64, outcome: ReadOutcome) -> (res: PongWait)
    ensures
        res == awaited(nonce, outcome),
{
    match outcome {
        ReadOutcome::Pong(received) => {
            if received == nonce {
                PongWait::Answered
            } else {
                PongWait::KeepWaiting
            }
        },
        ReadOutcome::Other => PongWait::KeepWaiting,
        ReadOutcome::TimedOut => PongWait::KeepWaiting,
        ReadOutcome::Failed => PongWait::GaveUp,
    }
}

impl BroadcastState {
    /// What is to be done in this state.
    pub open spec fn calls_for(self) -> BroadcastAction {
        match self {
            BroadcastState::CheckingTime => BroadcastAction::ReadClock,
            BroadcastState::Drawing => BroadcastAction::DrawPeer,
            BroadcastState::Connecting(addr) => BroadcastAction::Connect(addr),
            BroadcastState::NotingFailure => BroadcastAction::MarkFailed,
            BroadcastState::Sending => BroadcastAction::SendTransaction,
            BroadcastState::Pinging { nonce } => BroadcastAction::SendPing(nonce),
            BroadcastState::AwaitingPong { .. } => BroadcastAction::ReadClock,
            BroadcastState::Reading { .. } => BroadcastAction::ReadMessage,
            BroadcastState::NotingSuccess => BroadcastAction::MarkSuccessful,
            BroadcastState::Finished { delivered } => BroadcastAction::Finish { delivered },
        }
    }

    /// The state that an event leads to. `nonce` is what a ping would carry. An event that does
    /// not tell how the thing to be done went changes nothing.
    pub open spec fn after(self, event: BroadcastEvent, nonce: u64) -> BroadcastState {
        match (self, event) {
            (BroadcastState::CheckingTime, BroadcastEvent::Clock(now)) => if now
                >= BROADCAST_TIMEOUT {
                BroadcastState::Finished { delivered: false }
            } else {
                BroadcastState::Drawing
            },
            (BroadcastState::Drawing, BroadcastEvent::Drawn(None)) => {
                BroadcastState::Finished { delivered: false }
            },
            (BroadcastState::Drawing, BroadcastEvent::Drawn(Some(drawn))) => {
                match net::dialable(drawn.0, drawn.1) {
                    Some(addr) => BroadcastState::Connecting(addr),
                    None => BroadcastState::CheckingTime,
                }
            },
            (BroadcastState::Connecting(_), BroadcastEvent::Connected(connected)) => if connected {
                BroadcastState::Sending
            } else {
                BroadcastState::NotingFailure
            },
            (BroadcastState::NotingFailure, BroadcastEvent::Noted) => BroadcastState::CheckingTime,
            (BroadcastState::Sending, BroadcastEvent::TransactionSent(sent)) => if sent {
                BroadcastState::Pinging { nonce }
            } else {
                BroadcastState::CheckingTime
            },
            (BroadcastState::Pinging { nonce }, BroadcastEvent::PingSent(Some(now))) => {
                BroadcastState::AwaitingPong {
                    nonce,
                    deadline: (now + BROADCAST_PONG_TIMEOUT) as u128,
                }
            },
            (BroadcastState::Pinging { .. }, BroadcastEvent::PingSent(None)) => {
                BroadcastState::CheckingTime
            },
            (BroadcastState::AwaitingPong { nonce, deadline }, BroadcastEvent::Clock(now)) => if now
                < deadline {
                BroadcastState::Reading { nonce, deadline }
            } else {
                BroadcastState::CheckingTime
            },
            (BroadcastState::Reading { nonce, deadline }, BroadcastEvent::Read(outcome)) => {
                match awaited(nonce, outcome) {
                    PongWait::Answered => BroadcastState::NotingSuccess,
                    PongWait::KeepWaiting => BroadcastState::AwaitingPong { nonce, deadline },
                    PongWait::GaveUp => BroadcastState::CheckingTime,
                }
            },
            (BroadcastState::NotingSuccess, BroadcastEvent::Noted) => {
                BroadcastState::Finished { delivered: true }
            },
            _ => self,
        }
    }

    pub fn action(&self) -> (res: BroadcastAction)
        ensures
            res == self.calls_for(),
    {
        match *self {
            BroadcastState::CheckingTime => BroadcastAction::ReadClock,
            BroadcastState::Drawing => BroadcastAction::DrawPeer,
            BroadcastState::Connecting(addr) => BroadcastAction::Connect(addr),
            BroadcastState::NotingFailure => BroadcastAction::MarkFailed,
            BroadcastState::Sending => BroadcastAction::SendTransaction,
            BroadcastState::Pinging { nonce } => BroadcastAction::SendPing(nonce),
            BroadcastState::AwaitingPong { .. } => BroadcastAction::ReadClock,
            BroadcastState::Reading { .. } => BroadcastAction::ReadMessage,
            BroadcastState::NotingSuccess => BroadcastAction::MarkSuccessful,
            BroadcastState::Finished { delivered } => BroadcastAction::Finish { delivered },
        }
    }

    /// Goes on from an event, with `nonce` for a ping that may come next.
    pub fn step(&self, event: BroadcastEvent, nonce: u64) -> (res: BroadcastState)
        ensures
            res == self.after(event, nonce),
    {
        match (*self, event) {
            (BroadcastState::CheckingTime, BroadcastEvent::Clock(now)) => {
                if now >= BROADCAST_TIMEOUT {
                    BroadcastState::Finished { delivered: false }
                } else {
                    BroadcastState::Drawing
                }
            },
            (BroadcastState::Drawing, BroadcastEvent::Drawn(drawn)) => match drawn {
                None => BroadcastState::Finished { delivered: false },
                Some((addr, port)) => match net::socket_address(addr, port) {
                    Some(addr) => BroadcastState::Connecting(addr),
                    None => BroadcastState::CheckingTime,
                },
            },
            (BroadcastState::Connecting(_), BroadcastEvent::Connected(connected)) => {
                if connected {
                    BroadcastState::Sending
                } else {
                    BroadcastState::NotingFailure
                }
            },
            (BroadcastState::NotingFailure, BroadcastEvent::Noted) => BroadcastState::CheckingTime,
            (BroadcastState::Sending, BroadcastEvent::TransactionSent(sent)) => {
                if sent {
                    BroadcastState::Pinging { nonce }
                } else {
                    BroadcastState::CheckingTime
                }
            },
            (BroadcastState::Pinging { nonce }, BroadcastEvent::PingSent(sent)) => match sent {
                Some(now) => {
                    let deadline: u128 = now as u128 + BROADCAST_PONG_TIMEOUT as u128;
                    BroadcastState::AwaitingPong { nonce, deadline }
                },
                None => BroadcastState::CheckingTime,
            },
            (BroadcastState::AwaitingPong { nonce, deadline }, BroadcastEvent::Clock(now)) => {
                if (now as u128) < deadline {
                    BroadcastState::Reading { nonce, deadline }
                } else {
                    BroadcastState::CheckingTime
                }
            },
            (BroadcastState::Reading { nonce, deadline }, BroadcastEvent::Read(outcome)) => {
                match wait_for_pong(nonce, outcome) {
                    PongWait::Answered => BroadcastState::NotingSuccess,
                    PongWait::KeepWaiting => BroadcastState::AwaitingPong { nonce, deadline },
                    PongWait::GaveUp => BroadcastState::CheckingTime,
                }
            },
            (BroadcastState::NotingSuccess, BroadcastEvent::Noted) => {
                BroadcastState::Finished { delivered: true }
            },
            _ => *self,
        }
    }

    /// Goes on from an event, with a fresh nonce for a ping that may come next.
    pub fn advance(&self, event: BroadcastEvent) -> (res: BroadcastState)
        ensures
            exists|nonce: u64| res == #[trigger] self.after(event, nonce),
    {
        let nonce: u64 = random_nonce();
        self.step(event, nonce)
    }
}

/// Calls `rand::random`. Any number can come out.
#[verifier::external_body]
fn random_nonce() -> u64 {
    bitcoin::secp256k1::rand::random()
}

/// Where a broadcast stands after events, each with the nonce that was at hand.
pub open spec fn broadcast_after(events: Seq<(BroadcastEvent, u64)>) -> BroadcastState
    decreases events.len(),
{
    if events.len() == 0 {
        BroadcastState::CheckingTime
    } else {
        broadcast_after(events.drop_last()).after(events.last().0, events.last().1)
    }
}

/// Where a broadcast stood after the first events of a list.
#[verifier::opaque]
pub open spec fn state_at(events: Seq<(BroadcastEvent, u64)>, n: int) -> BroadcastState {
    broadcast_after(events.take(n))
}

/// Where in a list of events a transaction was handed over: the peer, the nonce of the ping, and
/// the places at which the peer was drawn, the connection came about, the transaction went out,
/// the ping went out, and the pong came.
pub struct Delivery {
    pub addr: SocketAddr,
    pub nonce: u64,
    pub drawn: int,
    pub connected: int,
    pub sent: int,
    pub pinged: int,
    pub answered: int,
}

impl Delivery {
    /// The peer was drawn, it can be dialed, and no other was drawn since.
    pub open spec fn draws(self, events: Seq<(BroadcastEvent, u64)>) -> bool {
        &&& 0 <= self.drawn < events.len()
        &&& state_at(events, self.drawn) is Drawing
        &&& events[self.drawn].0 matches BroadcastEvent::Drawn(Some(drawn)) && net::dialable(
            drawn.0,
            drawn.1,
        ) == Some(self.addr)
        &&& forall|n: int|
            self.drawn < n <= events.len() ==> !(#[trigger] state_at(events, n) is Drawing)
    }

    /// After that, a connection to it came about.
    pub open spec fn connects(self, events: Seq<(BroadcastEvent, u64)>) -> bool {
        &&& self.draws(events)
        &&& self.drawn < self.connected < events.len()
        &&& state_at(events, self.connected) == BroadcastState::Connecting(self.addr)
        &&& events[self.connected].0 == BroadcastEvent::Connected(true)
    }

    /// After that, the transaction went out, with the nonce at hand.
    pub open spec fn sends(self, events: Seq<(BroadcastEvent, u64)>) -> bool {
        &&& self.connects(events)
        &&& self.connected < self.sent < events.len()
        &&& state_at(events, self.sent) is Sending
        &&& events[self.sent] == (BroadcastEvent::TransactionSent(true), self.nonce)
    }

    /// After that, a ping with the nonce went out.
    pub open spec fn pings(self, events: Seq<(BroadcastEvent, u64)>) -> bool {
        &&& self.sends(events)
        &&& self.sent < self.pinged < events.len()
        &&& state_at(events, self.pinged) == (BroadcastState::Pinging {
            nonce: self.nonce,
        })
        &&& events[self.pinged].0 matches BroadcastEvent::PingSent(Some(_))
    }

    /// After that, a pong with the nonce came.
    pub open spec fn completes(self, events: Seq<(BroadcastEvent, u64)>) -> bool {
        &&& self.pings(events)
        &&& self.pinged < self.answered < events.len()
        &&& state_at(events, self.answered) is Reading
        &&& events[self.answered].0 == BroadcastEvent::Read(ReadOutcome::Pong(self.nonce))
    }
}

/// What the events before a state hold.
spec fn traced(events: Seq<(BroadcastEvent, u64)>) -> bool {
    match broadcast_after(events) {
        BroadcastState::Connecting(addr) => exists|d: Delivery| #[trigger]
            d.draws(events) && d.addr == addr,
        BroadcastState::Sending => exists|d: Delivery| #[trigger] d.connects(events),
        BroadcastState::Pinging { nonce } => exists|d: Delivery| #[trigger]
            d.sends(events) && d.nonce == nonce,
        BroadcastState::AwaitingPong { nonce, .. } => exists|d: Delivery| #[trigger]
            d.pings(events) && d.nonce == nonce,
        BroadcastState::Reading { nonce, .. } => exists|d: Delivery| #[trigger]
            d.pings(events) && d.nonce == nonce,
        BroadcastState::NotingSuccess => exists|d: Delivery| #[trigger] d.completes(events),
        BroadcastState::Finished { delivered } => delivered ==> exists|d: Delivery| #[trigger]
            d.completes(events),
        _ => true,
    }
}

/// The states of events up to the last but one are those without the last.
proof fn states_before_last(events: Seq<(BroadcastEvent, u64)>)
    requires
        events.len() > 0,
    ensures
        forall|n: int|
            0 <= n < events.len() ==> #[trigger] state_at(events, n) == state_at(
                events.drop_last(),
                n,
            ),
        state_at(events, events.len() - 1) == broadcast_after(events.drop_last()),
        state_at(events, events.len() as int) == broadcast_after(events),
{
    reveal(state_at);
    let front = events.drop_last();
    assert forall|n: int| 0 <= n < events.len() implies #[trigger] state_at(events, n) == state_at(
        front,
        n,
    ) by {
        assert(events.take(n) =~= front.take(n));
    }
    assert(events.take(events.len() - 1) =~= front);
    assert(events.take(events.len() as int) =~= events);
}

/// What held of events holds of one more that draws no peer.
proof fn one_more_event(events: Seq<(BroadcastEvent, u64)>, d: Delivery)
    requires
        events.len() > 0,
        !(broadcast_after(events) is Drawing),
    ensures
        d.draws(events.drop_last()) ==> d.draws(events),
        d.connects(events.drop_last()) ==> d.connects(events),
        d.sends(events.drop_last()) ==> d.sends(events),
        d.pings(events.drop_last()) ==> d.pings(events),
        d.completes(events.drop_last()) ==> d.completes(events),
{
    states_before_last(events);
    let front = events.drop_last();
    assert forall|n: int| 0 <= n < front.len() implies #[trigger] events[n] == front[n] by {}
}

proof fn trace_holds(events: Seq<(BroadcastEvent, u64)>)
    ensures
        traced(events),
    decreases events.len(),
{
    if events.len() > 0 {
        let front = events.drop_last();
        let last = events.last();
        let n = events.len() - 1;
        trace_holds(front);
        assert(events[n] == last);
        states_before_last(events);
        let state = broadcast_after(front);
        let next = broadcast_after(events);
        match state {
            BroadcastState::Drawing => {
                if let BroadcastState::Connecting(addr) = next {
                    let d = Delivery {
                        addr,
                        nonce: 0,
                        drawn: n,
                        connected: 0,
                        sent: 0,
                        pinged: 0,
                        answered: 0,
                    };
                    assert(d.draws(events));
                }
            },
            BroadcastState::Connecting(addr) => {
                let d = choose|d: Delivery| #[trigger] d.draws(front) && d.addr == addr;
                one_more_event(events, d);
                if next is Sending {
                    assert(Delivery { connected: n, ..d }.draws(events));
                    assert(Delivery { connected: n, ..d }.connects(events));
                }
            },
            BroadcastState::Sending => {
                let d = choose|d: Delivery| #[trigger] d.connects(front);
                if !(next is Drawing) {
                    one_more_event(events, d);
                }
                if next is Pinging {
                    let sent = Delivery { sent: n, nonce: last.1, ..d };
                    assert(sent.draws(events));
                    assert(sent.connects(events));
                    assert(sent.sends(events));
                }
            },
            BroadcastState::Pinging { nonce } => {
                let d = choose|d: Delivery| #[trigger] d.sends(front) && d.nonce == nonce;
                one_more_event(events, d);
                if next is AwaitingPong {
                    let pinged = Delivery { pinged: n, ..d };
                    assert(pinged.draws(events));
                    assert(pinged.connects(events));
                    assert(pinged.sends(events));
                    assert(pinged.pings(events));
                }
            },
            BroadcastState::AwaitingPong { nonce, .. } => {
                let d = choose|d: Delivery| #[trigger] d.pings(front) && d.nonce == nonce;
                one_more_event(events, d);
            },
            BroadcastState::Reading { nonce, .. } => {
                let d = choose|d: Delivery| #[trigger] d.pings(front) && d.nonce == nonce;
                one_more_event(events, d);
                if next is NotingSuccess {
                    let answered = Delivery { answered: n, ..d };
                    assert(answered.draws(events));
                    assert(answered.connects(events));
                    assert(answered.sends(events));
                    assert(answered.pings(events));
                    assert(answered.completes(events));
                }
            },
            BroadcastState::NotingSuccess => {
                let d = choose|d: Delivery| #[trigger] d.completes(front);
                one_more_event(events, d);
            },
            BroadcastState::Finished { delivered } => {
                if delivered {
                    let d = choose|d: Delivery| #[trigger] d.completes(front);
                    one_more_event(events, d);
                }
            },
            _ => {},
        }
    }
}

/// A transaction counts as delivered only where one peer was drawn, a connection to it came
/// about, then the transaction and then a ping went out, and then a pong with the ping's own
/// nonce came back, with no other peer drawn since.
pub proof fn delivered_only_when_answered(events: Seq<(BroadcastEvent, u64)>)
    requires
        broadcast_after(events) == (BroadcastState::Finished { delivered: true }),
    ensures
        exists|d: Delivery| #[trigger] d.completes(events),
{
    trace_holds(events);
}

/// A broadcast is given up only for want of time or of peers.
pub proof fn given_up_for_time_or_peers(state: BroadcastState, event: BroadcastEvent, nonce: u64)
    requires
        state.after(event, nonce) == (BroadcastState::Finished { delivered: false }),
        state != (BroadcastState::Finished { delivered: false }),
    ensures
        (state is CheckingTime && (event matches BroadcastEvent::Clock(now) && now
            >= BROADCAST_TIMEOUT)) || (state is Drawing && event == BroadcastEvent::Drawn(None)),
{
}

/// A peer is noted as failed only where no connection came about, and as successful only where
/// it answered; what is done stays done.
pub proof fn peers_are_noted_by_outcome(state: BroadcastState, event: BroadcastEvent, nonce: u64)
    ensures
        state.after(event, nonce) is NotingFailure && !(state is NotingFailure) ==> state is Connecting
            && event == BroadcastEvent::Connected(false),
        state.after(event, nonce) is NotingSuccess && !(state is NotingSuccess) ==> (state matches
            BroadcastState::Reading { nonce: awaited, .. } && event == BroadcastEvent::Read(
            ReadOutcome::Pong(awaited),
        )),
        state is Finished ==> state.after(event, nonce) == state,
{
}

/// A peer has five seconds from its ping to answer. Within them its messages are read, and a
/// pong with the ping's nonce is a delivery; after them the next peer is tried.
pub proof fn pongs_are_read_for_five_seconds(nonce: u64, pinged: u64, now: u64, any: u64)
    ensures
        ({
            let waiting = (BroadcastState::Pinging { nonce }).after(
                BroadcastEvent::PingSent(Some(pinged)),
                any,
            );
            let next = waiting.after(BroadcastEvent::Clock(now), any);
            &&& waiting.calls_for() == BroadcastAction::ReadClock
            &&& now < pinged + 5_000_000_000 ==> next == (BroadcastState::Reading {
                nonce,
                deadline: (pinged + 5_000_000_000) as u128,
            }) && next.calls_for() == BroadcastAction::ReadMessage
            &&& now < pinged + 5_000_000_000 ==> next.after(
                BroadcastEvent::Read(ReadOutcome::Pong(nonce)),
                any,
            ).after(BroadcastEvent::Noted, any) == (BroadcastState::Finished { delivered: true })
            &&& now >= pinged + 5_000_000_000 ==> next == BroadcastState::CheckingTime
        }),
{
}

/// What is no answer is read past without losing or gaining time: a pong of another ping, other
/// messages and a silence lead back to waiting for the same nonce until the same time, and a look
/// at the clock to reading until the same time or, once it has come, to the next peer. Only a
/// connection that is gone ends the wait early.
pub proof fn waiting_goes_on(nonce: u64, other: u64, deadline: u128, now: u64, any: u64)
    requires
        other != nonce,
    ensures
        ({
            let reading = BroadcastState::Reading { nonce, deadline };
            let waiting = BroadcastState::AwaitingPong { nonce, deadline };
            &&& reading.after(BroadcastEvent::Read(ReadOutcome::Pong(other)), any) == waiting
            &&& reading.after(BroadcastEvent::Read(ReadOutcome::Other), any) == waiting
            &&& reading.after(BroadcastEvent::Read(ReadOutcome::TimedOut), any) == waiting
            &&& reading.after(BroadcastEvent::Read(ReadOutcome::Failed), any)
                == BroadcastState::CheckingTime
            &&& now < deadline ==> waiting.after(BroadcastEvent::Clock(now), any) == reading
            &&& now >= deadline ==> waiting.after(BroadcastEvent::Clock(now), any)
                == BroadcastState::CheckingTime
        }),
{
}

/// While the minute is not over and a peer can be dialed, it is: the node connects to the very
/// peer that was drawn, sends the transaction and then a ping with the nonce at hand.
pub proof fn drawn_peers_are_tried(
    v4: [u8; 4],
    v6: [u8; 16],
    port: u16,
    now: u64,
    nonce: u64,
    any: u64,
)
    ensures
        ({
            let start = BroadcastState::CheckingTime;
            let drawing = start.after(BroadcastEvent::Clock(now), any);
            let to_v4 = drawing.after(
                BroadcastEvent::Drawn(Some((PeerAddr::Ipv4(v4), port))),
                any,
            );
            let to_v6 = drawing.after(
                BroadcastEvent::Drawn(Some((PeerAddr::Ipv6(v6), port))),
                any,
            );
            &&& start.calls_for() == BroadcastAction::ReadClock
            &&& now >= 60_000_000_000 ==> drawing == (BroadcastState::Finished { delivered: false })
            &&& now < 60_000_000_000 ==> {
                &&& drawing.calls_for() == BroadcastAction::DrawPeer
                &&& to_v4.calls_for() == BroadcastAction::Connect(
                    SocketAddr { ip: net::IpAddr::V4(v4), port },
                )
                &&& to_v6.calls_for() == BroadcastAction::Connect(
                    SocketAddr { ip: net::IpAddr::V6(v6), port },
                )
                &&& to_v6.after(BroadcastEvent::Connected(true), any).calls_for()
                    == BroadcastAction::SendTransaction
                &&& to_v4.after(BroadcastEvent::Connected(true), any).calls_for()
                    == BroadcastAction::SendTransaction
                &&& to_v4.after(BroadcastEvent::Connected(true), any).after(
                    BroadcastEvent::TransactionSent(true),
                    nonce,
                ).calls_for() == BroadcastAction::SendPing(nonce)
                &&& drawing.after(BroadcastEvent::Drawn(Some((PeerAddr::Other, port))), any)
                    == start
                &&& drawing.after(BroadcastEvent::Drawn(None), any) == (BroadcastState::Finished {
                    delivered: false,
                })
            }
        }),
{
}

/// Whatever goes wrong with one peer, the next is tried: a connection that is refused, once it
/// is noted, a transaction or a ping that does not go out.
pub proof fn the_next_peer_is_tried(addr: SocketAddr, nonce: u64, any: u64)
    ensures
        BroadcastState::Connecting(addr).after(BroadcastEvent::Connected(false), any).calls_for()
            == BroadcastAction::MarkFailed,
        BroadcastState::Connecting(addr).after(BroadcastEvent::Connected(false), any).after(
            BroadcastEvent::Noted,
            any,
        ) == BroadcastState::CheckingTime,
        BroadcastState::Sending.after(BroadcastEvent::TransactionSent(false), any)
            == BroadcastState::CheckingTime,
        (BroadcastState::Pinging { nonce }).after(BroadcastEvent::PingSent(None), any)
            == BroadcastState::CheckingTime,
{
}

/// Only an event that tells how the thing to be done went changes anything.
pub proof fn other_events_change_nothing(state: BroadcastState, event: BroadcastEvent, any: u64)
    ensures
        ({
            let tells = match state.calls_for() {
                BroadcastAction::ReadClock => event is Clock,
                BroadcastAction::DrawPeer => event is Drawn,
                BroadcastAction::Connect(_) => event is Connected,
                BroadcastAction::MarkFailed => event is Noted,
                BroadcastAction::SendTransaction => event is TransactionSent,
                BroadcastAction::SendPing(_) => event is PingSent,
                BroadcastAction::ReadMessage => event is Read,
                BroadcastAction::MarkSuccessful => event is Noted,
                BroadcastAction::Finish { .. } => false,
            };
            !tells ==> state.after(event, any) == state
        }),
{
}

/// What each state calls for.
pub proof fn states_call_for_their_actions(
    addr: SocketAddr,
    nonce: u64,
    deadline: u128,
    delivered: bool,
)
    ensures
        BroadcastState::Connecting(addr).calls_for() == BroadcastAction::Connect(addr),
        BroadcastState::NotingFailure.calls_for() == BroadcastAction::MarkFailed,
        BroadcastState::Sending.calls_for() == BroadcastAction::SendTransaction,
        (BroadcastState::Pinging { nonce }).calls_for() == BroadcastAction::SendPing(nonce),
        (BroadcastState::AwaitingPong { nonce, deadline }).calls_for() == BroadcastAction::ReadClock,
        (BroadcastState::Reading { nonce, deadline }).calls_for() == BroadcastAction::ReadMessage,
        BroadcastState::NotingSuccess.calls_for() == BroadcastAction::MarkSuccessful,
        (BroadcastState::Finished { delivered }).calls_for() == (BroadcastAction::Finish {
            delivered,
        }),
{
}

} // verus!
