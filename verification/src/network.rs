use vstd::prelude::*;
use vstd::string::*;
use crate::error::Error;
use crate::text::{owned, text_eq};
use kaspa_consensus_core::config::params::Params;
use kaspa_consensus_core::network::NetworkId as ConsensusNetworkId;
use kaspa_consensus_core::network::NetworkType as ConsensusNetworkType;

verus! {

/// Mass of a basic (one input, two outputs) transaction.
pub const BASIC_TRANSACTION_MASS: u64 = 2036;

/// The Kaspa networks the wallet can connect to.
#[derive(Clone, Copy, Debug, PartialEq, Eq, Structural, PartialOrd, Ord, Hash)]
pub enum Network {
    Mainnet,
    Testnet10,
}

/// Kinds of Kaspa networks (the network type of the consensus layer).
#[derive(Clone, Copy, Debug, PartialEq, Eq, Structural, PartialOrd, Ord, Hash)]
pub enum NetworkType {
    Mainnet,
    Testnet,
    Devnet,
    Simnet,
}

/// A network type together with its optional numeric suffix (`testnet-10`).
#[derive(Clone, Copy, Debug, PartialEq, Eq, Structural, Hash)]
pub struct NetworkId {
    pub network_type: NetworkType,
    pub suffix: Option<u32>,
}

/// Address prefixes: the part of a Kaspa address before the `:`.
#[derive(Clone, Copy, Debug, PartialEq, Eq, Structural, Hash)]
pub enum AddressPrefix {
    Mainnet,
    Testnet,
    Simnet,
    Devnet,
}

/// The text a network is written and parsed as.
pub open spec fn network_text(n: Network) -> Seq<char> {
    match n {
        Network::Mainnet => "mainnet"@,
        Network::Testnet10 => "testnet-10"@,
    }
}

/// The network a text names, if any.
pub open spec fn network_from_text(s: Seq<char>) -> Option<Network> {
    if s == network_text(Network::Mainnet) {
        Some(Network::Mainnet)
    } else if s == network_text(Network::Testnet10) {
        Some(Network::Testnet10)
    } else {
        None
    }
}

/// The title of a network.
pub open spec fn network_name(n: Network) -> Seq<char> {
    match n {
        Network::Mainnet => "Mainnet"@,
        Network::Testnet10 => "Testnet 10"@,
    }
}

/// The one-line description of a network.
pub open spec fn network_description(n: Network) -> Seq<char> {
    match n {
        Network::Mainnet => "Main Kaspa network"@,
        Network::Testnet10 => "10 BPS test network"@,
    }
}

/// The network type a network belongs to.
pub open spec fn type_of_network(n: Network) -> NetworkType {
    match n {
        Network::Mainnet => NetworkType::Mainnet,
        Network::Testnet10 => NetworkType::Testnet,
    }
}

/// The network id of a network.
pub open spec fn id_of_network(n: Network) -> NetworkId {
    match n {
        Network::Mainnet => NetworkId { network_type: NetworkType::Mainnet, suffix: None },
        Network::Testnet10 => NetworkId { network_type: NetworkType::Testnet, suffix: Some(10) },
    }
}

/// The network ids that name one of the wallet's networks: any mainnet id,
/// and the testnet id with suffix 10.
pub open spec fn names_wallet_network(id: NetworkId) -> bool {
    id.network_type == NetworkType::Mainnet
        || (id.network_type == NetworkType::Testnet && id.suffix == Some(10u32))
}

/// The wallet network a supported network id names.
pub open spec fn network_of_id(id: NetworkId) -> Network {
    if id.network_type == NetworkType::Mainnet { Network::Mainnet } else { Network::Testnet10 }
}

/// The address prefix of a network type.
pub open spec fn prefix_of_type(t: NetworkType) -> AddressPrefix {
    match t {
        NetworkType::Mainnet => AddressPrefix::Mainnet,
        NetworkType::Testnet => AddressPrefix::Testnet,
        NetworkType::Devnet => AddressPrefix::Devnet,
        NetworkType::Simnet => AddressPrefix::Simnet,
    }
}

/// The network type an address prefix stands for.
pub open spec fn type_of_prefix(p: AddressPrefix) -> NetworkType {
    match p {
        AddressPrefix::Mainnet => NetworkType::Mainnet,
        AddressPrefix::Testnet => NetworkType::Testnet,
        AddressPrefix::Devnet => NetworkType::Devnet,
        AddressPrefix::Simnet => NetworkType::Simnet,
    }
}

/// The text of a network type.
pub open spec fn network_type_text(t: NetworkType) -> Seq<char> {
    match t {
        NetworkType::Mainnet => "mainnet"@,
        NetworkType::Testnet => "testnet"@,
        NetworkType::Devnet => "devnet"@,
        NetworkType::Simnet => "simnet"@,
    }
}

/// The text of an address prefix.
pub open spec fn prefix_text(p: AddressPrefix) -> Seq<char> {
    match p {
        AddressPrefix::Mainnet => "kaspa"@,
        AddressPrefix::Testnet => "kaspatest"@,
        AddressPrefix::Simnet => "kaspasim"@,
        AddressPrefix::Devnet => "kaspadev"@,
    }
}

/// The currency symbol amounts carry on a network type.
pub open spec fn suffix_text(t: NetworkType) -> Seq<char> {
    match t {
        NetworkType::Mainnet => "KAS"@,
        NetworkType::Testnet => "TKAS"@,
        NetworkType::Simnet => "SKAS"@,
        NetworkType::Devnet => "DKAS"@,
    }
}

/// The network ids for which the consensus layer has parameters: every id
/// but a testnet id whose suffix is not 10.
pub open spec fn has_consensus_params(id: NetworkId) -> bool {
    id.network_type != NetworkType::Testnet || id.suffix == Some(10u32)
}

/// The block compute mass limit of every network's consensus parameters.
pub const BLOCK_COMPUTE_MASS_LIMIT: u64 = 500_000;
/// The blocks per second of every network's consensus parameters.
pub const BLOCKS_PER_SECOND: u64 = 10;

/// Reads the block compute mass limit and the blocks per second from
/// `kaspa_consensus_core`'s `Params::from(NetworkId)`.
/// Claimed: every network's parameters, as that crate defines them, have a
/// compute mass limit of 500,000 and a target time of 100 ms per block, so
/// `bps()` (`1000 / target_time_per_block`) is 10. `Params::from` panics on
/// a testnet id without suffix 10, which `requires` leaves out.
#[verifier::external_body]
fn consensus_block_capacity(id: NetworkId) -> (r: (u64, u64))
    requires
        has_consensus_params(id),
    ensures
        r == (BLOCK_COMPUTE_MASS_LIMIT, BLOCKS_PER_SECOND),
{
    let network_type = match id.network_type {
        NetworkType::Mainnet => ConsensusNetworkType::Mainnet,
        NetworkType::Testnet => ConsensusNetworkType::Testnet,
        NetworkType::Devnet => ConsensusNetworkType::Devnet,
        NetworkType::Simnet => ConsensusNetworkType::Simnet,
    };
    let params = Params::from(ConsensusNetworkId { network_type, suffix: id.suffix });
    (params.block_mass_limits.compute, params.bps())
}

/// Transactions per second that blocks of `block_mass` mass at `bps`
/// blocks per second can hold, counting basic transactions.
pub fn tps_for_capacity(block_mass: u64, bps: u64) -> (r: u64)
    requires
        bps <= 1000,
    ensures
        r == block_mass / BASIC_TRANSACTION_MASS * bps,
{
    let per_block = block_mass / BASIC_TRANSACTION_MASS;
    assert(per_block * bps <= u64::MAX) by (nonlinear_arith)
        requires
            per_block == block_mass / 2036,
            bps <= 1000,
    {
        assert(per_block <= 0xffff_ffff_ffff_ffffu64 / 2036);
        assert(per_block * bps <= (0xffff_ffff_ffff_ffffu64 / 2036) * 1000);
    }
    per_block * bps
}

impl Default for Network {
    fn default() -> (r: Self)
        ensures
            r == Network::Mainnet,
    {
        Network::Mainnet
    }
}

impl Network {
    /// All networks, in the order the wallet lists them.
    pub fn iter() -> (r: Vec<Network>)
        ensures
            r@ == seq![Network::Mainnet, Network::Testnet10],
    {
        let mut v = Vec::new();
        v.push(Network::Mainnet);
        v.push(Network::Testnet10);
        v
    }

    /// The title of the network.
    pub fn name(&self) -> (r: &'static str)
        ensures
            r@ == network_name(*self),
    {
        match self {
            Network::Mainnet => "Mainnet",
            Network::Testnet10 => "Testnet 10",
        }
    }

    /// The one-line description of the network.
    pub fn describe(&self) -> (r: &'static str)
        ensures
            r@ == network_description(*self),
    {
        match self {
            Network::Mainnet => "Main Kaspa network",
            Network::Testnet10 => "10 BPS test network",
        }
    }

    /// The text the network is written as (`mainnet`, `testnet-10`).
    pub fn to_string(&self) -> (r: String)
        ensures
            r@ == network_text(*self),
    {
        match self {
            Network::Mainnet => owned("mainnet"),
            Network::Testnet10 => owned("testnet-10"),
        }
    }

    /// Parses the text of a network; any other text is an `InvalidNetwork`
    /// error carrying that text.
    pub fn from_str(s: &str) -> (r: Result<Network, Error>)
        ensures
            match network_from_text(s@) {
                Some(n) => r == Ok::<Network, Error>(n),
                None => r matches Err(Error::InvalidNetwork(m)) && m@ == s@,
            },
    {
        if text_eq(s, "mainnet") {
            Ok(Network::Mainnet)
        } else if text_eq(s, "testnet-10") {
            Ok(Network::Testnet10)
        } else {
            Err(Error::InvalidNetwork(owned(s)))
        }
    }

    /// The network type of the network.
    pub fn network_type(&self) -> (r: NetworkType)
        ensures
            r == type_of_network(*self),
    {
        match self {
            Network::Mainnet => NetworkType::Mainnet,
            Network::Testnet10 => NetworkType::Testnet,
        }
    }

    /// The network id of the network (`mainnet`, `testnet` with suffix 10).
    pub fn network_id(&self) -> (r: NetworkId)
        ensures
            r == id_of_network(*self),
    {
        match self {
            Network::Mainnet => NetworkId { network_type: NetworkType::Mainnet, suffix: None },
            Network::Testnet10 => NetworkId { network_type: NetworkType::Testnet, suffix: Some(10) },
        }
    }

    /// The network a network id names. Only mainnet ids and the testnet id
    /// with suffix 10 name a wallet network.
    pub fn from_network_id(id: NetworkId) -> (r: Network)
        requires
            names_wallet_network(id),
        ensures
            r == network_of_id(id),
    {
        match id.network_type {
            NetworkType::Mainnet => Network::Mainnet,
            _ => Network::Testnet10,
        }
    }

    /// The prefix of the addresses of the network.
    pub fn address_prefix(&self) -> (r: AddressPrefix)
        ensures
            r == prefix_of_type(type_of_network(*self)),
    {
        self.network_type().address_prefix()
    }

    /// Transactions per second the network can carry: the number of basic
    /// transactions that fit the block mass limit, times the block rate.
    pub fn tps(&self) -> (r: u64)
        ensures
            r == BLOCK_COMPUTE_MASS_LIMIT / BASIC_TRANSACTION_MASS * BLOCKS_PER_SECOND,
    {
        let (block_mass, bps) = consensus_block_capacity(self.network_id());
        tps_for_capacity(block_mass, bps)
    }
}

impl NetworkType {
    /// The text of the network type.
    pub fn to_string(&self) -> (r: String)
        ensures
            r@ == network_type_text(*self),
    {
        match self {
            NetworkType::Mainnet => owned("mainnet"),
            NetworkType::Testnet => owned("testnet"),
            NetworkType::Devnet => owned("devnet"),
            NetworkType::Simnet => owned("simnet"),
        }
    }

    /// The address prefix of the network type.
    pub fn address_prefix(&self) -> (r: AddressPrefix)
        ensures
            r == prefix_of_type(*self),
    {
        match self {
            NetworkType::Mainnet => AddressPrefix::Mainnet,
            NetworkType::Testnet => AddressPrefix::Testnet,
            NetworkType::Devnet => AddressPrefix::Devnet,
            NetworkType::Simnet => AddressPrefix::Simnet,
        }
    }
}

impl AddressPrefix {
    /// The text of the prefix.
    pub fn as_str(&self) -> (r: &'static str)
        ensures
            r@ == prefix_text(*self),
    {
        match self {
            AddressPrefix::Mainnet => "kaspa",
            AddressPrefix::Testnet => "kaspatest",
            AddressPrefix::Simnet => "kaspasim",
            AddressPrefix::Devnet => "kaspadev",
        }
    }

    /// The network type the prefix stands for.
    pub fn network_type(&self) -> (r: NetworkType)
        ensures
            r == type_of_prefix(*self),
    {
        match self {
            AddressPrefix::Mainnet => NetworkType::Mainnet,
            AddressPrefix::Testnet => NetworkType::Testnet,
            AddressPrefix::Devnet => NetworkType::Devnet,
            AddressPrefix::Simnet => NetworkType::Simnet,
        }
    }
}

/// The currency symbol of amounts on a network type (`KAS`, `TKAS`, ...).
pub fn kaspa_suffix(network_type: &NetworkType) -> (r: &'static str)
    ensures
        r@ == suffix_text(*network_type),
{
    match network_type {
        NetworkType::Mainnet => "KAS",
        NetworkType::Testnet => "TKAS",
        NetworkType::Simnet => "SKAS",
        NetworkType::Devnet => "DKAS",
    }
}

/// How many pressure samples the network-pressure average is taken over.
pub const MAX_NETWORK_PRESSURE_SAMPLES: usize = 16;

/// The capacity use, in percent, above which the network counts as
/// congested.
pub const NETWORK_CAPACITY_THRESHOLD: usize = 90;

/// Whether the network pressure counts as high after a new average, with
/// hysteresis: once high it stays high while the average is above the low
/// threshold; once low it becomes high only above the high threshold.
pub open spec fn high_after(was_high: bool, above_low_threshold: bool, above_high_threshold: bool) -> bool {
    if was_high { above_low_threshold } else { above_high_threshold }
}

/// Whether the network pressure counts as high after a new average, given
/// how the average compares to the low and high thresholds.
pub fn pressure_is_high(was_high: bool, above_low_threshold: bool, above_high_threshold: bool) -> (r: bool)
    ensures
        r == high_after(was_high, above_low_threshold, above_high_threshold),
{
    if was_high { above_low_threshold } else { above_high_threshold }
}

/// Whether the network runs above its capacity threshold (capacity use in
/// percent).
pub fn above_capacity(capacity: usize) -> (r: bool)
    ensures
        r == (capacity > NETWORK_CAPACITY_THRESHOLD),
{
    capacity > NETWORK_CAPACITY_THRESHOLD
}

/// Whether the network runs at or below its capacity threshold.
pub fn below_capacity(capacity: usize) -> (r: bool)
    ensures
        r == (capacity <= NETWORK_CAPACITY_THRESHOLD),
{
    capacity <= NETWORK_CAPACITY_THRESHOLD
}

/// The pressure flag only changes when the average crosses the threshold
/// on the far side: a high flag needs the average at or below the low
/// threshold to drop, a low flag needs it above the high threshold to rise.
pub proof fn lemma_pressure_hysteresis(was_high: bool, above_low_threshold: bool, above_high_threshold: bool)
    requires
        above_high_threshold ==> above_low_threshold,
    ensures
        was_high && above_low_threshold ==> high_after(was_high, above_low_threshold, above_high_threshold),
        !was_high && !above_high_threshold ==> !high_after(was_high, above_low_threshold, above_high_threshold),
        above_high_threshold ==> high_after(was_high, above_low_threshold, above_high_threshold),
        !above_low_threshold ==> !high_after(was_high, above_low_threshold, above_high_threshold),
{
}

/// Parsing the text a network is written as gives back that network.
pub proof fn lemma_network_text_round_trip(n: Network)
    ensures
        network_from_text(network_text(n)) == Some(n),
{
    reveal_strlit("mainnet");
    reveal_strlit("testnet-10");
    assert(network_text(Network::Mainnet) != network_text(Network::Testnet10)) by {
        assert(network_text(Network::Mainnet).len() != network_text(Network::Testnet10).len());
    }
}

/// A network's id names that same network again.
pub proof fn lemma_network_id_round_trip(n: Network)
    ensures
        names_wallet_network(id_of_network(n)),
        network_of_id(id_of_network(n)) == n,
        id_of_network(n).network_type == type_of_network(n),
{
}

/// An address prefix and its network type determine each other.
pub proof fn lemma_prefix_round_trip(t: NetworkType, p: AddressPrefix)
    ensures
        type_of_prefix(prefix_of_type(t)) == t,
        prefix_of_type(type_of_prefix(p)) == p,
{
}

} // verus!
