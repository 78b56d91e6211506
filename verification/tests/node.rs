use kernel_wallet::address::{BitcoinNetwork, Network};
use kernel_wallet::broadcast::{
    wait_for_pong, BroadcastAction, BroadcastEvent, BroadcastState, PongWait, ReadOutcome,
    BROADCAST_TIMEOUT,
};
use kernel_wallet::cli::{balance_line, history_text};
use kernel_wallet::ext::{
    blocks_dir, join_path, parse_network, socket_file, worker_threads, ChainExt, ChainType,
    ExpandTildeExt, NetworkExt,
};
use kernel_wallet::net::{next_peer, seed_records, socket_address, IpAddr, PeerAddr, SocketAddr};
use kernel_wallet::tasks::{
    block_connected, block_step, checked_tip, feeler_step, open_feeler, scan_saved,
    BlockAction, Category, ConnectedBlock, Failure, FeelerAction, FeelerState, PeerEvent,
    PeerState, Received, STALE_BLOCK_DURATION,
};
use kernel_wallet::text::{decimal, parse_hex, strip_line_ending, to_hex};

const V4: PeerAddr = PeerAddr::Ipv4([10, 0, 0, 1]);

fn v4_socket() -> SocketAddr {
    SocketAddr { ip: IpAddr::V4([10, 0, 0, 1]), port: 8333 }
}

fn drive(state: BroadcastState, events: &[BroadcastEvent]) -> BroadcastState {
    events.iter().fold(state, |state, event| state.step(*event, 77))
}

#[test]
fn a_transaction_is_delivered_when_the_pong_comes_back() {
    let mut state = BroadcastState::CheckingTime;
    assert_eq!(state.action(), BroadcastAction::ReadClock);
    state = state.step(BroadcastEvent::Clock(0), 77);
    assert_eq!(state.action(), BroadcastAction::DrawPeer);
    state = state.step(BroadcastEvent::Drawn(Some((V4, 8333))), 77);
    assert_eq!(state.action(), BroadcastAction::Connect(v4_socket()));
    state = state.step(BroadcastEvent::Connected(true), 77);
    assert_eq!(state.action(), BroadcastAction::SendTransaction);
    state = state.step(BroadcastEvent::TransactionSent(true), 77);
    assert_eq!(state.action(), BroadcastAction::SendPing(77));
    state = state.step(BroadcastEvent::PingSent(Some(1_000)), 5);
    assert_eq!(state, BroadcastState::AwaitingPong { nonce: 77, deadline: 5_000_001_000 });
    state = drive(
        state,
        &[
            BroadcastEvent::Clock(5_000_000_999),
            BroadcastEvent::Read(ReadOutcome::Pong(76)),
            BroadcastEvent::Clock(5_000_000_999),
        ],
    );
    assert_eq!(state.action(), BroadcastAction::ReadMessage);
    state = state.step(BroadcastEvent::Read(ReadOutcome::Pong(77)), 5);
    assert_eq!(state.action(), BroadcastAction::MarkSuccessful);
    state = state.step(BroadcastEvent::Noted, 5);
    assert_eq!(state.action(), BroadcastAction::Finish { delivered: true });
    assert_eq!(state.step(BroadcastEvent::Clock(0), 5), state);
}

#[test]
fn a_broadcast_goes_on_to_the_next_peer() {
    let start = BroadcastState::CheckingTime;
    let dialing = [BroadcastEvent::Clock(0), BroadcastEvent::Drawn(Some((V4, 8333)))];
    let refused = drive(start, &dialing).step(BroadcastEvent::Connected(false), 1);
    assert_eq!(refused.action(), BroadcastAction::MarkFailed);
    assert_eq!(refused.step(BroadcastEvent::Noted, 1), start);

    let connected = drive(start, &dialing).step(BroadcastEvent::Connected(true), 1);
    assert_eq!(connected.step(BroadcastEvent::TransactionSent(false), 1), start);
    let pinging = connected.step(BroadcastEvent::TransactionSent(true), 1);
    assert_eq!(pinging.step(BroadcastEvent::PingSent(None), 1), start);
    let waiting = pinging.step(BroadcastEvent::PingSent(Some(0)), 1);
    assert_eq!(waiting.step(BroadcastEvent::Clock(5_000_000_000), 1), start);
    let reading = waiting.step(BroadcastEvent::Clock(1), 1);
    assert_eq!(reading.step(BroadcastEvent::Read(ReadOutcome::Failed), 1), start);
    assert_eq!(reading.step(BroadcastEvent::Read(ReadOutcome::TimedOut), 1), waiting);

    let unreachable = [
        BroadcastEvent::Clock(0),
        BroadcastEvent::Drawn(Some((PeerAddr::Other, 8333))),
    ];
    assert_eq!(drive(start, &unreachable), start);
}

#[test]
fn a_broadcast_is_given_up_for_time_or_peers() {
    let start = BroadcastState::CheckingTime;
    let failed = BroadcastState::Finished { delivered: false };
    assert_eq!(start.step(BroadcastEvent::Clock(BROADCAST_TIMEOUT), 1), failed);
    assert_eq!(
        start.step(BroadcastEvent::Clock(BROADCAST_TIMEOUT - 1), 1),
        BroadcastState::Drawing
    );
    assert_eq!(drive(start, &[BroadcastEvent::Clock(0), BroadcastEvent::Drawn(None)]), failed);
}

#[test]
fn nonces_are_fresh() {
    let sending = BroadcastState::Sending;
    let first = sending.advance(BroadcastEvent::TransactionSent(true));
    let second = sending.advance(BroadcastEvent::TransactionSent(true));
    assert!(matches!(first.action(), BroadcastAction::SendPing(_)));
    assert_ne!(first, second);
}

#[test]
fn only_the_own_nonce_answers() {
    assert_eq!(wait_for_pong(3, ReadOutcome::Pong(3)), PongWait::Answered);
    assert_eq!(wait_for_pong(3, ReadOutcome::Pong(4)), PongWait::KeepWaiting);
    assert_eq!(wait_for_pong(3, ReadOutcome::Other), PongWait::KeepWaiting);
    assert_eq!(wait_for_pong(3, ReadOutcome::TimedOut), PongWait::KeepWaiting);
    assert_eq!(wait_for_pong(3, ReadOutcome::Failed), PongWait::GaveUp);
}

#[test]
fn first_peers_come_from_the_option_or_the_seeds() {
    let seeds = vec![IpAddr::V4([1, 2, 3, 4]), IpAddr::V6([9; 16])];
    let records = seed_records(None, &seeds, BitcoinNetwork::Signet);
    assert_eq!(records.len(), 2);
    assert_eq!(records[0].addr, PeerAddr::Ipv4([1, 2, 3, 4]));
    assert_eq!(records[1].addr, PeerAddr::Ipv6([9; 16]));
    assert!(records.iter().all(|r| r.port == 38333 && r.services == 1));
    assert!(records.iter().all(|r| r.source == IpAddr::V4([1, 1, 1, 1])));

    let told = seed_records(Some(v4_socket()), &seeds, BitcoinNetwork::Signet);
    assert_eq!(told.len(), 1);
    assert_eq!(socket_address(told[0].addr, told[0].port), Some(v4_socket()));
}

#[test]
fn peers_that_cannot_be_dialed_are_passed_over() {
    assert_eq!(next_peer(None, Some((V4, 8333))), Some(v4_socket()));
    assert_eq!(next_peer(None, Some((PeerAddr::Other, 8333))), None);
    assert_eq!(next_peer(Some(v4_socket()), None), Some(v4_socket()));
    assert_eq!(
        socket_address(PeerAddr::Ipv6([1; 16]), 5),
        Some(SocketAddr { ip: IpAddr::V6([1; 16]), port: 5 })
    );
}

#[test]
fn stale_chains_drop_the_peer_once() {
    let (action, last) = block_step(10, Received::Timeout, 10 + STALE_BLOCK_DURATION);
    assert_eq!((action, last), (BlockAction::Wait, 10));
    let now = 11 + STALE_BLOCK_DURATION;
    let (action, last) = block_step(10, Received::Timeout, now);
    assert_eq!((action, last), (BlockAction::DropPeer, now));
    assert_eq!(block_step(last, Received::Timeout, now + 1).0, BlockAction::Wait);
    assert_eq!(block_step(10, Received::Item, 99), (BlockAction::Process, 99));
    assert_eq!(block_step(10, Received::Disconnected, 99), (BlockAction::Stop, 10));
}

#[test]
fn feelers_open_every_half_minute() {
    let half_minute = 30_000_000_000u128;
    assert_eq!(feeler_step(0, Received::Timeout, half_minute), FeelerAction::Wait);
    assert_eq!(feeler_step(0, Received::Timeout, half_minute + 1), FeelerAction::OpenFeeler);
    assert_eq!(feeler_step(5, Received::Timeout, 0), FeelerAction::Wait);
    assert_eq!(feeler_step(0, Received::Item, half_minute + 1), FeelerAction::Broadcast);
    assert_eq!(feeler_step(0, Received::Disconnected, 0), FeelerAction::Stop);

    let feeler = open_feeler(Some((V4, 8333)));
    assert_eq!(feeler, FeelerState::Connecting(v4_socket()));
    assert_eq!(feeler.connected(true), FeelerState::Noting { successful: true });
    assert_eq!(feeler.connected(false), FeelerState::Noting { successful: false });
    assert_eq!(open_feeler(None), FeelerState::Finished);
    assert_eq!(open_feeler(Some((PeerAddr::Other, 1))), FeelerState::Finished);
}

#[test]
fn one_peer_is_talked_to_until_a_message_fails() {
    let state = PeerState::CheckingRunning;
    assert_eq!(state.step(PeerEvent::Running(false)), PeerState::Stopped);
    let choosing = state.step(PeerEvent::Running(true));
    assert_eq!(choosing.step(PeerEvent::Chosen(None)), state);
    let dialing = choosing.step(PeerEvent::Chosen(Some(v4_socket())));
    assert_eq!(dialing, PeerState::Dialing(v4_socket()));
    assert_eq!(dialing.step(PeerEvent::Connected(false)).step(PeerEvent::Paused), state);
    let receiving = dialing.step(PeerEvent::Connected(true));
    assert_eq!(receiving.step(PeerEvent::Processed(true)), receiving);
    assert_eq!(receiving.step(PeerEvent::Processed(false)), state);
}

#[test]
fn blocks_are_scanned_once_keys_and_engine_are_there() {
    assert_eq!(block_connected(false, true, Ok(())), ConnectedBlock::Ignore);
    assert_eq!(block_connected(true, false, Ok(())), ConnectedBlock::Ignore);
    assert_eq!(block_connected(true, true, Ok(())), ConnectedBlock::Scan);
    match block_connected(true, true, Err("gone".to_owned())) {
        ConnectedBlock::Fail(fatal) => {
            assert_eq!(fatal.category, Category::Kernel);
            assert_eq!(fatal.message, "Fatal error reading block spent outputs: gone");
        }
        other => panic!("unexpected {other:?}"),
    }
    assert_eq!(checked_tip([1; 32], [2; 32], true), [2; 32]);
    assert_eq!(checked_tip([1; 32], [2; 32], false), [1; 32]);
}

#[test]
fn a_wallet_that_is_not_saved_shuts_the_node_down() {
    assert_eq!(scan_saved(true, 5, Ok(())), None);
    assert_eq!(scan_saved(false, 5, Ok(())), None);
    let fatal = scan_saved(true, 5, Err("full".to_owned())).unwrap();
    assert_eq!(fatal.category, Category::Wallet);
    assert_eq!(fatal.message, "Wallet save failed at height 5: full");
    let fatal = scan_saved(false, 5, Err("full".to_owned())).unwrap();
    assert_eq!(fatal.category, Category::Wallet);
    assert_eq!(fatal.message, "Wallet save failed at disconnect of 5: full");
}

#[test]
fn fatal_errors_say_where_they_come_from() {
    let disk = || "disk".to_owned();
    let cases = [
        (
            Failure::ConnectedUnsent,
            Category::Node,
            "Scan channel closed unexpectedly during block connection",
        ),
        (
            Failure::DisconnectedUnsent,
            Category::Node,
            "Scan channel closed unexpectedly during block disconnection",
        ),
        (Failure::Flush(disk()), Category::Kernel, "Fatal flush error encountered: disk"),
        (Failure::Engine(disk()), Category::Kernel, "Fatal error encountered: disk"),
        (
            Failure::ConnectedUnsaved(12, disk()),
            Category::Wallet,
            "Wallet save failed at height 12: disk",
        ),
        (
            Failure::DisconnectedUnsaved(0, disk()),
            Category::Wallet,
            "Wallet save failed at disconnect of 0: disk",
        ),
    ];
    for (failure, category, message) in cases {
        let fatal = failure.fatal();
        assert_eq!(fatal.category, category);
        assert_eq!(fatal.message, message);
    }
}

#[test]
fn networks_have_names_chains_and_ports() {
    let cases = [
        ("bitcoin", BitcoinNetwork::Bitcoin, ChainType::Mainnet, 8333, Network::Mainnet),
        ("testnet", BitcoinNetwork::Testnet, ChainType::Testnet, 18333, Network::Testnet),
        ("testnet4", BitcoinNetwork::Testnet4, ChainType::Testnet4, 48333, Network::Testnet),
        ("signet", BitcoinNetwork::Signet, ChainType::Signet, 38333, Network::Testnet),
        ("regtest", BitcoinNetwork::Regtest, ChainType::Regtest, 18444, Network::Regtest),
    ];
    for (name, network, chain, port, wallet_network) in cases {
        assert_eq!(parse_network(name), Some(network));
        assert_eq!(network.chain_type(), chain);
        assert_eq!(network.default_p2p_port(), port);
        assert_eq!(network.wallet_network(), wallet_network);
    }
    assert_eq!(parse_network("main"), None);
    assert_eq!(parse_network("Signet"), None);
}

#[test]
fn tildes_stand_for_the_home_directory() {
    assert_eq!("~/.kernel-node/".expand_tilde("/home/me"), "/home/me/.kernel-node/");
    assert_eq!("~/".expand_tilde("/home/me"), "/home/me/");
    assert_eq!("~".expand_tilde("/home/me"), "~");
    assert_eq!("/var/~/x".expand_tilde("/home/me"), "/var/~/x");
    assert_eq!("~me/x".expand_tilde("/home/me"), "~me/x");
    assert_eq!("".expand_tilde("/home/me"), "");
    assert_eq!("~//etc".to_owned().expand_tilde("/home/me"), "/etc");
    assert_eq!("~/x".expand_tilde("/"), "/x");
}

#[test]
fn paths_join_as_in_the_standard_library() {
    for base in ["", "/", "/home", "/home/", "rel", "a/b"] {
        for rest in ["", "x", "/x", "x/y/", "//x", "é"] {
            let expected = std::path::Path::new(base).join(rest);
            assert_eq!(join_path(base, rest), expected.to_str().unwrap());
        }
    }
    assert_eq!(blocks_dir("/data"), "/data/blocks");
    assert_eq!(socket_file("/data"), "/data/node.sock");
    assert_eq!(worker_threads(1), 1);
    assert_eq!(worker_threads(8), 5);
}

#[test]
fn numbers_bytes_and_lines_read_well() {
    assert_eq!(decimal(0), "0");
    assert_eq!(decimal(1234567890), "1234567890");
    assert_eq!(decimal(u64::MAX), u64::MAX.to_string());
    assert_eq!(to_hex(&[0x00, 0xab, 0x1f]), "00ab1f");
    assert_eq!(parse_hex("00AB1f"), Some(vec![0x00, 0xab, 0x1f]));
    assert_eq!(parse_hex(""), Some(vec![]));
    assert_eq!(parse_hex("abc"), None);
    assert_eq!(parse_hex("zz"), None);
    assert_eq!(strip_line_ending("line\r\n"), "line");
    assert_eq!(strip_line_ending("line\n"), "line");
    assert_eq!(strip_line_ending("line\n\n"), "line\n");
    assert_eq!(strip_line_ending("line\r"), "line\r");
    assert_eq!(strip_line_ending("\r\n"), "");
    assert_eq!(strip_line_ending("é\n"), "é");
    assert_eq!(strip_line_ending(""), "");
    assert_eq!(
        balance_line(1500, 120, 2),
        "Balance: 1500 sats | scan height: 120 | UTXOs: 2"
    );
    assert_eq!(history_text(""), "No history yet.");
    assert_eq!(history_text("a\nb"), "a\nb");
}
