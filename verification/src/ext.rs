//! What the node makes of its configuration: networks, ports and paths.
use crate::address::{BitcoinNetwork, Network};
use crate::text;
use std::str::FromStr;
use vstd::prelude::*;
use vstd::string::*;

verus! {

/// The chains that the validation engine knows.
#[derive(Debug, Clone, Copy, PartialEq, Eq, Structural)]
pub enum ChainType {
    Mainnet,
    Signet,
    Testnet,
    Testnet4,
    Regtest,
}

pub trait ChainExt {
    spec fn chain(&self) -> ChainType;

    fn chain_type(&self) -> (res: ChainType)
        ensures
            res == self.chain(),
    ;
}

impl ChainExt for BitcoinNetwork {
    open spec fn chain(&self) -> ChainType {
        match *self {
            BitcoinNetwork::Bitcoin => ChainType::Mainnet,
            BitcoinNetwork::Signet => ChainType::Signet,
            BitcoinNetwork::Testnet => ChainType::Testnet,
            BitcoinNetwork::Testnet4 => ChainType::Testnet4,
            BitcoinNetwork::Regtest => ChainType::Regtest,
        }
    }

    fn chain_type(&self) -> (res: ChainType) {
        match self {
            BitcoinNetwork::Bitcoin => ChainType::Mainnet,
            BitcoinNetwork::Signet => ChainType::Signet,
            BitcoinNetwork::Testnet => ChainType::Testnet,
            BitcoinNetwork::Testnet4 => ChainType::Testnet4,
            BitcoinNetwork::Regtest => ChainType::Regtest,
        }
    }
}

/// The port that nodes of a network listen on.
pub open spec fn p2p_port(network: BitcoinNetwork) -> u16 {
    match network {
        BitcoinNetwork::Bitcoin => 8333,
        BitcoinNetwork::Signet => 38333,
        BitcoinNetwork::Testnet => 18333,
        BitcoinNetwork::Testnet4 => 48333,
        BitcoinNetwork::Regtest => 18444,
    }
}

/// The wallet's network for that of the node: the test networks are one to it.
pub open spec fn wallet_network_of(network: BitcoinNetwork) -> Network {
    match network {
        BitcoinNetwork::Bitcoin => Network::Mainnet,
        BitcoinNetwork::Regtest => Network::Regtest,
        _ => Network::Testnet,
    }
}

pub trait NetworkExt: Sized {
    spec fn p2p_port_spec(self) -> u16;

    spec fn wallet_network_spec(self) -> Network;

    /// The P2P port for a given network.
    fn default_p2p_port(self) -> (res: u16)
        ensures
            res == self.p2p_port_spec(),
    ;

    fn wallet_network(self) -> (res: Network)
        ensures
            res == self.wallet_network_spec(),
    ;
}

impl NetworkExt for BitcoinNetwork {
    open spec fn p2p_port_spec(self) -> u16 {
        p2p_port(self)
    }

    open spec fn wallet_network_spec(self) -> Network {
        wallet_network_of(self)
    }

    fn default_p2p_port(self) -> (res: u16) {
        match self {
            BitcoinNetwork::Bitcoin => 8333,
            BitcoinNetwork::Signet => 38333,
            BitcoinNetwork::Testnet => 18333,
            BitcoinNetwork::Testnet4 => 48333,
            BitcoinNetwork::Regtest => 18444,
        }
    }

    fn wallet_network(self) -> (res: Network) {
        match self {
            BitcoinNetwork::Bitcoin => Network::Mainnet,
            BitcoinNetwork::Regtest => Network::Regtest,
            BitcoinNetwork::Testnet => Network::Testnet,
            BitcoinNetwork::Testnet4 => Network::Testnet,
            BitcoinNetwork::Signet => Network::Testnet,
        }
    }
}

/// The network that a name in the configuration means.
pub open spec fn named_network(name: Seq<char>) -> Option<BitcoinNetwork> {
    if name == "bitcoin"@ {
        Some(BitcoinNetwork::Bitcoin)
    } else if name == "testnet"@ {
        Some(BitcoinNetwork::Testnet)
    } else if name == "testnet4"@ {
        Some(BitcoinNetwork::Testnet4)
    } else if name == "signet"@ {
        Some(BitcoinNetwork::Signet)
    } else if name == "regtest"@ {
        Some(BitcoinNetwork::Regtest)
    } else {
        None
    }
}

/// Calls `Network::from_str` of the `bitcoin` crate, which knows the five names and no other.
#[verifier::external_body]
fn network_from_str(name: &str) -> (res: Option<BitcoinNetwork>)
    ensures
        res == named_network(name@),
{
    bitcoin::Network::from_str(name).ok().map(|network| match network {
        bitcoin::Network::Bitcoin => BitcoinNetwork::Bitcoin,
        bitcoin::Network::Testnet => BitcoinNetwork::Testnet,
        bitcoin::Network::Testnet4 => BitcoinNetwork::Testnet4,
        bitcoin::Network::Signet => BitcoinNetwork::Signet,
        bitcoin::Network::Regtest => BitcoinNetwork::Regtest,
    })
}

/// The network that a name means; `None` where it means none.
pub fn parse_network(name: &str) -> (res: Option<BitcoinNetwork>)
    ensures
        res == named_network(name@),
{
    network_from_str(name)
}

/// A path below another. A path from the root stands for itself.
pub open spec fn joined_path(base: Seq<char>, rest: Seq<char>) -> Seq<char> {
    if rest.len() > 0 && rest[0] == '/' {
        rest
    } else if base.len() == 0 || base.last() == '/' {
        base + rest
    } else {
        base + seq!['/'] + rest
    }
}

/// A path with `home` in place of a tilde that stands for it at the start.
pub open spec fn tilde_expanded(path: Seq<char>, home: Seq<char>) -> Seq<char> {
    if path.len() >= 2 && path[0] == '~' && path[1] == '/' {
        joined_path(home, path.skip(2))
    } else {
        path
    }
}

pub fn join_path(base: &str, rest: &str) -> (res: String)
    ensures
        res@ == joined_path(base@, rest@),
{
    if rest.unicode_len() > 0 && rest.get_char(0) == '/' {
        return rest.to_owned();
    }
    let n: usize = base.unicode_len();
    if n == 0 || base.get_char(n - 1) == '/' {
        return text::joined(base, rest);
    }
    proof {
        reveal_strlit("/");
        assert("/"@ =~= seq!['/']);
    }
    text::joined(text::joined(base, "/").as_str(), rest)
}

pub trait ExpandTildeExt {
    spec fn path_text(&self) -> Seq<char>;

    /// The path with `home` in place of a leading tilde.
    fn expand_tilde(&self, home: &str) -> (res: String)
        ensures
            res@ == tilde_expanded(self.path_text(), home@),
    ;
}

impl ExpandTildeExt for str {
    open spec fn path_text(&self) -> Seq<char> {
        self@
    }

    fn expand_tilde(&self, home: &str) -> (res: String) {
        let n: usize = self.unicode_len();
        if n >= 2 && self.get_char(0) == '~' && self.get_char(1) == '/' {
            let rest = self.substring_char(2, n);
            assert(rest@ =~= self@.skip(2));
            return join_path(home, rest);
        }
        self.to_owned()
    }
}

impl ExpandTildeExt for String {
    open spec fn path_text(&self) -> Seq<char> {
        self@
    }

    fn expand_tilde(&self, home: &str) -> (res: String) {
        self.as_str().expand_tilde(home)
    }
}

/// The directory of the blocks in a data directory.
pub fn blocks_dir(data_dir: &str) -> (res: String)
    ensures
        res@ == data_dir@ + "/blocks"@,
{
    text::joined(data_dir, "/blocks")
}

/// The socket of the node in a data directory.
pub fn socket_file(data_dir: &str) -> (res: String)
    ensures
        res@ == data_dir@ + "/node.sock"@,
{
    text::joined(data_dir, "/node.sock")
}

/// The threads that validate blocks: one more than half of what the machine runs at a time.
pub fn worker_threads(parallelism: usize) -> (res: i32)
    requires
        parallelism / 2 + 1 <= i32::MAX,
    ensures
        res == parallelism / 2 + 1,
{
    (parallelism / 2 + 1) as i32
}

/// Each network has its chain, its port and its name, and to the wallet all test networks but the
/// local one are one.
pub proof fn networks_are_told_apart(network: BitcoinNetwork, other: BitcoinNetwork)
    ensures
        network != other ==> network.chain() != other.chain() && p2p_port(network) != p2p_port(
            other,
        ),
        network.chain() is Mainnet <==> network is Bitcoin,
        network.chain() is Signet <==> network is Signet,
        network.chain() is Testnet <==> network is Testnet,
        network.chain() is Testnet4 <==> network is Testnet4,
        network.chain() is Regtest <==> network is Regtest,
        p2p_port(network) == 8333 <==> network is Bitcoin,
        p2p_port(network) == 38333 <==> network is Signet,
        p2p_port(network) == 18333 <==> network is Testnet,
        p2p_port(network) == 48333 <==> network is Testnet4,
        p2p_port(network) == 18444 <==> network is Regtest,
        network.p2p_port_spec() == p2p_port(network),
        network.wallet_network_spec() is Mainnet <==> network is Bitcoin,
        network.wallet_network_spec() is Regtest <==> network is Regtest,
        network.wallet_network_spec() == wallet_network_of(network),
{
}

/// A name means a network exactly where it is that network's name.
pub proof fn networks_are_named(name: Seq<char>)
    ensures
        named_network(name) == Some(BitcoinNetwork::Bitcoin) <==> name == "bitcoin"@,
        named_network(name) == Some(BitcoinNetwork::Testnet) <==> name == "testnet"@,
        named_network(name) == Some(BitcoinNetwork::Testnet4) <==> name == "testnet4"@,
        named_network(name) == Some(BitcoinNetwork::Signet) <==> name == "signet"@,
        named_network(name) == Some(BitcoinNetwork::Regtest) <==> name == "regtest"@,
{
    reveal_strlit("bitcoin");
    reveal_strlit("testnet");
    reveal_strlit("testnet4");
    reveal_strlit("signet");
    reveal_strlit("regtest");
    assert("bitcoin"@[0] == 'b');
    assert("testnet"@[0] == 't' && "testnet"@.len() == 7);
    assert("testnet4"@[0] == 't' && "testnet4"@.len() == 8);
    assert("signet"@[0] == 's');
    assert("regtest"@[0] == 'r');
}

/// A joined path ends in what was joined on. Where that is not from the root, it starts with the
/// base, and one slash stands between the two where the base does not end in one.
pub proof fn joined_paths_hold_both(base: Seq<char>, rest: Seq<char>)
    ensures
        rest.len() > 0 && rest[0] == '/' ==> joined_path(base, rest) == rest,
        !(rest.len() > 0 && rest[0] == '/') ==> {
            let path = joined_path(base, rest);
            let gap: int = if base.len() > 0 && base.last() != '/' {
                1
            } else {
                0
            };
            &&& path.len() == base.len() + gap + rest.len()
            &&& path.take(base.len() as int) == base
            &&& path.skip(base.len() + gap) == rest
            &&& gap == 1 ==> path[base.len() as int] == '/'
        },
{
    let path = joined_path(base, rest);
    if !(rest.len() > 0 && rest[0] == '/') {
        let gap: int = if base.len() > 0 && base.last() != '/' {
            1
        } else {
            0
        };
        assert(path.take(base.len() as int) =~= base);
        assert(path.skip(base.len() + gap) =~= rest);
    }
}

/// A path that starts with a tilde and a slash lies below the home directory; every other path
/// stands as it is.
pub proof fn tildes_mean_home(rest: Seq<char>, home: Seq<char>, path: Seq<char>)
    ensures
        tilde_expanded(seq!['~', '/'] + rest, home) == joined_path(home, rest),
        !(path.len() >= 2 && path.take(2) == seq!['~', '/']) ==> tilde_expanded(path, home) == path,
{
    let tilde = seq!['~', '/'] + rest;
    assert(tilde.skip(2) =~= rest);
    if path.len() >= 2 && path[0] == '~' && path[1] == '/' {
        assert(path.take(2) =~= seq!['~', '/']);
    }
}

/// The node's files lie right below its data directory, and more than half of what the machine
/// runs at a time validates blocks.
pub proof fn files_and_threads(
    data_dir: &str,
    blocks: String,
    socket: String,
    parallelism: usize,
    threads: i32,
)
    ensures
        call_ensures(blocks_dir, (data_dir,), blocks) ==> blocks@ == data_dir@ + "/blocks"@,
        call_ensures(socket_file, (data_dir,), socket) ==> socket@ == data_dir@ + "/node.sock"@,
        call_ensures(worker_threads, (parallelism,), threads) ==> parallelism < 2 * threads
            <= parallelism + 2,
{
}

} // verus!
