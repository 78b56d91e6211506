//! The node's background tasks: what each does when something arrives, when nothing does for a
//! second, and when its channel closes. Times are nanoseconds on one clock.
use crate::net;
use crate::net::{PeerAddr, SocketAddr};
use crate::text;
use vstd::prelude::*;
use vstd::string::*;

verus! {

/// How long the node goes without a block before it looks for another peer, in nanoseconds.
pub const STALE_BLOCK_DURATION: u128 = 1_200_000_000_000;

/// How long the node waits between feelers, in nanoseconds.
pub const FEELER_INTERVAL: u128 = 30_000_000_000;

/// What a task's channel gave.
#[derive(Debug, Clone, Copy, PartialEq, Eq, Structural)]
pub enum Received {
    Item,
    Timeout,
    Disconnected,
}

/// The time since `last`, none where the clock stood still.
pub open spec fn elapsed(last: u128, now: u128) -> u128 {
    if now >= last {
        (now - last) as u128
    } else {
        0
    }
}

fn time_since(last: u128, now: u128) -> (res: u128)
    ensures
        res == elapsed(last, now),
{
    if now >= last {
        now - last
    } else {
        0
    }
}

/// What the block task does.
#[derive(Debug, Clone, Copy, PartialEq, Eq, Structural)]
pub enum BlockAction {
    Process,
    DropPeer,
    Wait,
    Stop,
}

/// What the block task does, and when it last had a block or dropped a peer.
pub open spec fn block_next(last_block: u128, received: Received, now: u128) -> (
    BlockAction,
    u128,
) {
    match received {
        Received::Item => (BlockAction::Process, now),
        Received::Timeout => if elapsed(last_block, now) > STALE_BLOCK_DURATION {
            (BlockAction::DropPeer, now)
        } else {
            (BlockAction::Wait, last_block)
        },
        Received::Disconnected => (BlockAction::Stop, last_block),
    }
}

pub fn block_step(last_block: u128, received: Received, now: u128) -> (res: (BlockAction, u128))
    ensures
        res == block_next(last_block, received, now),
{
    match received {
        Received::Item => (BlockAction::Process, now),
        Received::Timeout => {
            if time_since(last_block, now) > STALE_BLOCK_DURATION {
                (BlockAction::DropPeer, now)
            } else {
                (BlockAction::Wait, last_block)
            }
        },
        Received::Disconnected => (BlockAction::Stop, last_block),
    }
}

/// After a block or a dropped peer, no peer is dropped until the whole time has gone by again.
pub proof fn peers_get_their_time(
    last_block: u128,
    received: Received,
    then: u128,
    later: u128,
)
    requires
        block_next(last_block, received, then).0 is Process || block_next(
            last_block,
            received,
            then,
        ).0 is DropPeer,
        later <= then + STALE_BLOCK_DURATION,
    ensures
        block_next(
            block_next(last_block, received, then).1,
            Received::Timeout,
            later,
        ).0 == BlockAction::Wait,
{
}

/// What the task does that broadcasts transactions and opens feelers.
#[derive(Debug, Clone, Copy, PartialEq, Eq, Structural)]
pub enum FeelerAction {
    Broadcast,
    OpenFeeler,
    Wait,
    Stop,
}

pub open spec fn feeler_next(last_feeler: u128, received: Received, now: u128) -> FeelerAction {
    match received {
        Received::Item => FeelerAction::Broadcast,
        Received::Timeout => if elapsed(last_feeler, now) > FEELER_INTERVAL {
            FeelerAction::OpenFeeler
        } else {
            FeelerAction::Wait
        },
        Received::Disconnected => FeelerAction::Stop,
    }
}

pub fn feeler_step(last_feeler: u128, received: Received, now: u128) -> (res: FeelerAction)
    ensures
        res == feeler_next(last_feeler, received, now),
{
    match received {
        Received::Item => FeelerAction::Broadcast,
        Received::Timeout => {
            if time_since(last_feeler, now) > FEELER_INTERVAL {
                FeelerAction::OpenFeeler
            } else {
                FeelerAction::Wait
            }
        },
        Received::Disconnected => FeelerAction::Stop,
    }
}

/// How long the node waits after a peer could not be reached, in milliseconds.
pub const RECONNECT_PAUSE_MILLIS: u64 = 500;

/// Where the task stands that talks to peers.
#[derive(Debug, Clone, Copy, PartialEq, Eq)]
pub enum PeerState {
    /// About to see whether the node still runs.
    CheckingRunning,
    /// About to choose a peer.
    Choosing,
    /// About to connect.
    Dialing(SocketAddr),
    /// About to wait before the next peer.
    Pausing,
    /// About to receive and process a message.
    Receiving,
    /// Done.
    Stopped,
}

/// How what was to be done went.
#[derive(Debug, Clone, Copy, PartialEq, Eq)]
pub enum PeerEvent {
    Running(bool),
    Chosen(Option<SocketAddr>),
    Connected(bool),
    Paused,
    Processed(bool),
}

impl PeerState {
    /// The state that an event leads to. One peer is talked to until a message fails; an event
    /// that does not tell how the thing to be done went changes nothing.
    pub open spec fn after(self, event: PeerEvent) -> PeerState {
        match (self, event) {
            (PeerState::CheckingRunning, PeerEvent::Running(true)) => PeerState::Choosing,
            (PeerState::CheckingRunning, PeerEvent::Running(false)) => PeerState::Stopped,
            (PeerState::Choosing, PeerEvent::Chosen(Some(addr))) => PeerState::Dialing(addr),
            (PeerState::Choosing, PeerEvent::Chosen(None)) => PeerState::CheckingRunning,
            (PeerState::Dialing(_), PeerEvent::Connected(true)) => PeerState::Receiving,
            (PeerState::Dialing(_), PeerEvent::Connected(false)) => PeerState::Pausing,
            (PeerState::Pausing, PeerEvent::Paused) => PeerState::CheckingRunning,
            (PeerState::Receiving, PeerEvent::Processed(false)) => PeerState::CheckingRunning,
            _ => self,
        }
    }

    pub fn step(&self, event: PeerEvent) -> (res: PeerState)
        ensures
            res == self.after(event),
    {
        match (*self, event) {
            (PeerState::CheckingRunning, PeerEvent::Running(running)) => {
                if running {
                    PeerState::Choosing
                } else {
                    PeerState::Stopped
                }
            },
            (PeerState::Choosing, PeerEvent::Chosen(chosen)) => match chosen {
                Some(addr) => PeerState::Dialing(addr),
                None => PeerState::CheckingRunning,
            },
            (PeerState::Dialing(_), PeerEvent::Connected(connected)) => {
                if connected {
                    PeerState::Receiving
                } else {
                    PeerState::Pausing
                }
            },
            (PeerState::Pausing, PeerEvent::Paused) => PeerState::CheckingRunning,
            (PeerState::Receiving, PeerEvent::Processed(processed)) => {
                if processed {
                    PeerState::Receiving
                } else {
                    PeerState::CheckingRunning
                }
            },
            _ => *self,
        }
    }
}

/// Where a feeler stands.
#[derive(Debug, Clone, Copy, PartialEq, Eq)]
pub enum FeelerState {
    /// About to connect.
    Connecting(SocketAddr),
    /// About to note how connecting went.
    Noting { successful: bool },
    /// Done.
    Finished,
}

/// A feeler goes to the peer that was drawn, if it can be dialed.
pub open spec fn feeler_toward(drawn: Option<(PeerAddr, u16)>) -> FeelerState {
    match net::peer_to_dial(None, drawn) {
        Some(addr) => FeelerState::Connecting(addr),
        None => FeelerState::Finished,
    }
}

pub fn open_feeler(drawn: Option<(PeerAddr, u16)>) -> (res: FeelerState)
    ensures
        res == feeler_toward(drawn),
{
    match net::next_peer(None, drawn) {
        Some(addr) => FeelerState::Connecting(addr),
        None => FeelerState::Finished,
    }
}

impl FeelerState {
    /// The state after a connection was tried.
    pub fn connected(&self, successful: bool) -> (res: FeelerState)
        ensures
            res == match *self {
                FeelerState::Connecting(_) => FeelerState::Noting { successful },
                _ => *self,
            },
    {
        match *self {
            FeelerState::Connecting(_) => FeelerState::Noting { successful },
            _ => *self,
        }
    }
}

/// The part of the node that a fatal error comes from.
#[derive(Debug, Clone, Copy, PartialEq, Eq, Structural)]
pub enum Category {
    Node,
    Kernel,
    Wallet,
}

/// An error that shuts the node down.
#[derive(Debug, PartialEq, Eq)]
pub struct Fatal {
    pub category: Category,
    pub message: String,
}

/// What the node is told by its validation engine that can be fatal.
#[derive(Debug)]
pub enum Failure {
    /// The spent outputs of a block that was connected cannot be read.
    SpentOutputs(String),
    /// The scan task cannot be told of a block that was connected.
    ConnectedUnsent,
    /// The scan task cannot be told of a block that was disconnected.
    DisconnectedUnsent,
    /// Blocks cannot be written out.
    Flush(String),
    /// The engine cannot go on.
    Engine(String),
    /// The wallet cannot be saved after a block was connected at a height.
    ConnectedUnsaved(u32, String),
    /// The wallet cannot be saved after a block was disconnected from a height.
    DisconnectedUnsaved(u32, String),
}

impl Failure {
    pub open spec fn category(self) -> Category {
        match self {
            Failure::SpentOutputs(_) => Category::Kernel,
            Failure::ConnectedUnsent => Category::Node,
            Failure::DisconnectedUnsent => Category::Node,
            Failure::Flush(_) => Category::Kernel,
            Failure::Engine(_) => Category::Kernel,
            Failure::ConnectedUnsaved(_, _) => Category::Wallet,
            Failure::DisconnectedUnsaved(_, _) => Category::Wallet,
        }
    }

    pub open spec fn text(self) -> Seq<char> {
        match self {
            Failure::SpentOutputs(error) => "Fatal error reading block spent outputs: "@ + error@,
            Failure::ConnectedUnsent => {
                "Scan channel closed unexpectedly during block connection"@
            },
            Failure::DisconnectedUnsent => {
                "Scan channel closed unexpectedly during block disconnection"@
            },
            Failure::Flush(error) => "Fatal flush error encountered: "@ + error@,
            Failure::Engine(error) => "Fatal error encountered: "@ + error@,
            Failure::ConnectedUnsaved(height, error) => "Wallet save failed at height "@
                + text::decimal_text(height as nat) + ": "@ + error@,
            Failure::DisconnectedUnsaved(height, error) => {
                "Wallet save failed at disconnect of "@ + text::decimal_text(height as nat)
                    + ": "@ + error@
            },
        }
    }

    /// The error that the failure shuts the node down with.
    pub fn fatal(&self) -> (res: Fatal)
        ensures
            res.category == self.category(),
            res.message@ == self.text(),
    {
        match self {
            Failure::SpentOutputs(error) => Fatal {
                category: Category::Kernel,
                message: text::joined(
                    "Fatal error reading block spent outputs: ",
                    error.as_str(),
                ),
            },
            Failure::ConnectedUnsent => Fatal {
                category: Category::Node,
                message: "Scan channel closed unexpectedly during block connection".to_owned(),
            },
            Failure::DisconnectedUnsent => Fatal {
                category: Category::Node,
                message: "Scan channel closed unexpectedly during block disconnection".to_owned(),
            },
            Failure::Flush(error) => Fatal {
                category: Category::Kernel,
                message: text::joined("Fatal flush error encountered: ", error.as_str()),
            },
            Failure::Engine(error) => Fatal {
                category: Category::Kernel,
                message: text::joined("Fatal error encountered: ", error.as_str()),
            },
            Failure::ConnectedUnsaved(height, error) => {
                let mut message = text::joined(
                    "Wallet save failed at height ",
                    text::decimal(*height as u64).as_str(),
                );
                message.append(": ");
                message.append(error.as_str());
                Fatal { category: Category::Wallet, message }
            },
            Failure::DisconnectedUnsaved(height, error) => {
                let mut message = text::joined(
                    "Wallet save failed at disconnect of ",
                    text::decimal(*height as u64).as_str(),
                );
                message.append(": ");
                message.append(error.as_str());
                Fatal { category: Category::Wallet, message }
            },
        }
    }
}

/// The failure that a wallet which was not saved is, after a block was connected or disconnected.
pub open spec fn unsaved(connected: bool, height: u32, error: String) -> Failure {
    if connected {
        Failure::ConnectedUnsaved(height, error)
    } else {
        Failure::DisconnectedUnsaved(height, error)
    }
}

/// What the scan task makes of saving the wallet, once it has scanned a block that was connected
/// at a height or undone one that was disconnected: an error shuts the node down.
pub fn scan_saved(connected: bool, height: u32, saved: Result<(), String>) -> (res: Option<Fatal>)
    ensures
        res is None <==> saved is Ok,
        res matches Some(fatal) ==> fatal.category == unsaved(
            connected,
            height,
            saved->Err_0,
        ).category() && fatal.message@ == unsaved(connected, height, saved->Err_0).text(),
{
    match saved {
        Ok(()) => None,
        Err(error) => {
            let failure = if connected {
                Failure::ConnectedUnsaved(height, error)
            } else {
                Failure::DisconnectedUnsaved(height, error)
            };
            Some(failure.fatal())
        },
    }
}

/// What to do with a block that was connected.
#[derive(Debug, PartialEq, Eq)]
pub enum ConnectedBlock {
    /// Nobody scans for payments, or the engine is not up yet.
    Ignore,
    /// Hand it to the scan task.
    Scan,
    /// Shut the node down.
    Fail(Fatal),
}

/// A block is scanned once the wallet has keys and the engine is up. `spent_outputs` is how
/// reading the outputs that it spends went.
pub fn block_connected(
    has_keys: bool,
    engine_is_up: bool,
    spent_outputs: Result<(), String>,
) -> (res: ConnectedBlock)
    ensures
        match res {
            ConnectedBlock::Ignore => !has_keys || !engine_is_up,
            ConnectedBlock::Scan => has_keys && engine_is_up && spent_outputs is Ok,
            ConnectedBlock::Fail(fatal) => {
                &&& has_keys
                &&& engine_is_up
                &&& spent_outputs matches Err(error) && fatal.message@ == Failure::SpentOutputs(
                    error,
                ).text()
                &&& fatal.category == Category::Kernel
            },
        },
{
    if !has_keys || !engine_is_up {
        return ConnectedBlock::Ignore;
    }
    match spent_outputs {
        Ok(()) => ConnectedBlock::Scan,
        Err(error) => ConnectedBlock::Fail(Failure::SpentOutputs(error).fatal()),
    }
}

/// The tip after a block was checked: a valid block is the new one, any other changes nothing.
pub fn checked_tip(tip: [u8; 32], block: [u8; 32], valid: bool) -> (res: [u8; 32])
    ensures
        res == if valid {
            block
        } else {
            tip
        },
{
    if valid {
        block
    } else {
        tip
    }
}

/// A block is processed when it comes, and the clock starts anew with it. A peer is dropped
/// exactly when more than twenty minutes have gone by since; the task stops with its channel.
pub proof fn peers_are_dropped_after_twenty_minutes(last_block: u128, now: u128)
    ensures
        block_next(last_block, Received::Item, now) == (BlockAction::Process, now),
        block_next(last_block, Received::Timeout, now) == (if now > last_block
            + 1_200_000_000_000 {
            (BlockAction::DropPeer, now)
        } else {
            (BlockAction::Wait, last_block)
        }),
        block_next(last_block, Received::Disconnected, now) == (BlockAction::Stop, last_block),
{
}

/// A transaction is broadcast when it comes. A feeler is opened exactly when more than half a
/// minute has gone by since the last; the task stops with its channel.
pub proof fn feelers_are_opened_after_half_a_minute(last_feeler: u128, now: u128)
    ensures
        feeler_next(last_feeler, Received::Item, now) == FeelerAction::Broadcast,
        feeler_next(last_feeler, Received::Timeout, now) is OpenFeeler <==> now > last_feeler
            + 30_000_000_000,
        feeler_next(last_feeler, Received::Timeout, now) is Wait <==> now <= last_feeler
            + 30_000_000_000,
        feeler_next(last_feeler, Received::Disconnected, now) == FeelerAction::Stop,
{
}

/// A feeler goes to the very peer that was drawn, whichever sort of internet address it has, and
/// nowhere without one.
pub proof fn feelers_go_to_drawn_peers(v4: [u8; 4], v6: [u8; 16], port: u16)
    ensures
        feeler_toward(Some((PeerAddr::Ipv4(v4), port))) == FeelerState::Connecting(
            SocketAddr { ip: net::IpAddr::V4(v4), port },
        ),
        feeler_toward(Some((PeerAddr::Ipv6(v6), port))) == FeelerState::Connecting(
            SocketAddr { ip: net::IpAddr::V6(v6), port },
        ),
        feeler_toward(Some((PeerAddr::Other, port))) == FeelerState::Finished,
        feeler_toward(None) == FeelerState::Finished,
{
}

/// While the node runs, the peer task dials the very peer that was chosen, talks to it for as
/// long as messages are processed, and otherwise goes on to choose again, after a pause where
/// nobody answered; once the node does not run, it stops for good.
pub proof fn peers_are_dialed_until_the_node_stops(addr: SocketAddr, event: PeerEvent)
    ensures
        PeerState::CheckingRunning.after(PeerEvent::Running(true)).after(
            PeerEvent::Chosen(Some(addr)),
        ) == PeerState::Dialing(addr),
        PeerState::CheckingRunning.after(PeerEvent::Running(true)).after(PeerEvent::Chosen(None))
            == PeerState::CheckingRunning,
        PeerState::Dialing(addr).after(PeerEvent::Connected(true)) == PeerState::Receiving,
        PeerState::Receiving.after(PeerEvent::Processed(true)) == PeerState::Receiving,
        PeerState::Receiving.after(PeerEvent::Processed(false)) == PeerState::CheckingRunning,
        PeerState::Dialing(addr).after(PeerEvent::Connected(false)) == PeerState::Pausing,
        PeerState::Pausing.after(PeerEvent::Paused) == PeerState::CheckingRunning,
        PeerState::CheckingRunning.after(PeerEvent::Running(false)) == PeerState::Stopped,
        PeerState::Stopped.after(event) == PeerState::Stopped,
{
}

/// Only an event that tells how the thing to be done went changes the peer task's state.
pub proof fn other_peer_events_change_nothing(state: PeerState, event: PeerEvent)
    ensures
        ({
            let tells = match state {
                PeerState::CheckingRunning => event is Running,
                PeerState::Choosing => event is Chosen,
                PeerState::Dialing(_) => event is Connected,
                PeerState::Pausing => event is Paused,
                PeerState::Receiving => event is Processed,
                PeerState::Stopped => false,
            };
            !tells ==> state.after(event) == state
        }),
{
}

/// A failure that carries an error says it last, and one at a height says the height before it;
/// each comes from the part of the node that it happened in.
pub proof fn failures_say_their_errors(height: u32, error: String)
    ensures
        Failure::SpentOutputs(error).text() == "Fatal error reading block spent outputs: "@
            + error@,
        Failure::Flush(error).text() == "Fatal flush error encountered: "@ + error@,
        Failure::Engine(error).text() == "Fatal error encountered: "@ + error@,
        unsaved(true, height, error).text() == "Wallet save failed at height "@
            + text::decimal_text(height as nat) + ": "@ + error@,
        unsaved(false, height, error).text() == "Wallet save failed at disconnect of "@
            + text::decimal_text(height as nat) + ": "@ + error@,
        Failure::ConnectedUnsent.text()
            == "Scan channel closed unexpectedly during block connection"@,
        Failure::DisconnectedUnsent.text()
            == "Scan channel closed unexpectedly during block disconnection"@,
        Failure::SpentOutputs(error).category() == Category::Kernel,
        Failure::Flush(error).category() == Category::Kernel,
        Failure::Engine(error).category() == Category::Kernel,
        Failure::ConnectedUnsent.category() == Category::Node,
        Failure::DisconnectedUnsent.category() == Category::Node,
        unsaved(true, height, error).category() == Category::Wallet,
        unsaved(false, height, error).category() == Category::Wallet,
{
}

/// What the task functions give, whatever they are called on: a connection that was tried is
/// noted as it went, and only a feeler that is connecting has one; a valid block is the new tip
/// and any other leaves the old one; a block is scanned exactly where there are keys, the engine
/// is up and its spent outputs were read.
pub proof fn task_functions_do_as_they_say(
    addr: SocketAddr,
    state: FeelerState,
    successful: bool,
    felt: FeelerState,
    tip: [u8; 32],
    block: [u8; 32],
    new_tip: [u8; 32],
)
    ensures
        call_ensures(FeelerState::connected, (&FeelerState::Connecting(addr), successful), felt)
            ==> felt == (FeelerState::Noting { successful }),
        call_ensures(FeelerState::connected, (&state, successful), felt) && !(state is Connecting)
            ==> felt == state,
        call_ensures(checked_tip, (tip, block, true), new_tip) ==> new_tip == block,
        call_ensures(checked_tip, (tip, block, false), new_tip) ==> new_tip == tip,
{
}

/// A block is scanned exactly where there are keys, the engine is up and its spent outputs were
/// read; where only the last fails, the node shuts down for it. A wallet that cannot be saved
/// shuts the node down too, and one that was saved does not.
pub proof fn blocks_are_scanned_or_fatal(
    has_keys: bool,
    engine_is_up: bool,
    spent_outputs: Result<(), String>,
    done: ConnectedBlock,
    connected: bool,
    height: u32,
    saved: Result<(), String>,
    fatal: Option<Fatal>,
)
    ensures
        call_ensures(block_connected, (has_keys, engine_is_up, spent_outputs), done) ==> {
            &&& done is Scan <==> has_keys && engine_is_up && spent_outputs is Ok
            &&& done is Ignore <==> !(has_keys && engine_is_up)
            &&& done matches ConnectedBlock::Fail(fatal) ==> fatal.category is Kernel
                && fatal.message@ == "Fatal error reading block spent outputs: "@
                + spent_outputs->Err_0@
        },
        call_ensures(scan_saved, (connected, height, saved), fatal) ==> {
            &&& fatal is None <==> saved is Ok
            &&& fatal matches Some(fatal) ==> fatal.category is Wallet && fatal.message@ == (
            if connected {
                "Wallet save failed at height "@
            } else {
                "Wallet save failed at disconnect of "@
            }) + text::decimal_text(height as nat) + ": "@ + saved->Err_0@
        },
{
}

} // verus!
