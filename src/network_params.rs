//! Network constants of each variant: magic bytes, ports, genesis hashes,
//! DNS seeds and checkpoints.

use vstd::prelude::*;

use crate::{NetworkParameters, ProtocolError, ProtocolVersion};

verus! {

/// Network-specific constants.
#[derive(Debug, Clone, PartialEq, Eq)]
pub struct NetworkConstants {
    /// Network magic bytes for P2P protocol identification
    pub magic_bytes: [u8; 4],
    /// Default P2P port for this network
    pub default_port: u16,
    /// Genesis block hash for this network
    pub genesis_hash: [u8; 32],
    /// Maximum proof-of-work target
    pub max_target: u32,
    /// Block subsidy halving interval
    pub halving_interval: u64,
    /// Network name for identification
    pub network_name: String,
    /// Whether this is a test network
    pub is_testnet: bool,
    /// DNS seeds for peer discovery
    pub dns_seeds: Vec<String>,
    /// Checkpoint blocks for fast sync
    pub checkpoints: Vec<Checkpoint>,
}

/// Checkpoint block for fast synchronization.
#[derive(Debug, Clone, Copy, PartialEq, Eq)]
pub struct Checkpoint {
    /// Block height
    pub height: u64,
    /// Block hash
    pub hash: [u8; 32],
    /// Block timestamp
    pub timestamp: u64,
}

/// The plain values of a [`NetworkConstants`].
pub struct NetworkConstantsView {
    pub magic_bytes: Seq<u8>,
    pub default_port: u16,
    pub genesis_hash: Seq<u8>,
    pub max_target: u32,
    pub halving_interval: u64,
    pub network_name: Seq<char>,
    pub is_testnet: bool,
    pub dns_seeds: Seq<Seq<char>>,
    pub checkpoints: Seq<(u64, Seq<u8>, u64)>,
}

impl View for NetworkConstants {
    type V = NetworkConstantsView;

    open spec fn view(&self) -> NetworkConstantsView {
        NetworkConstantsView {
            magic_bytes: self.magic_bytes@,
            default_port: self.default_port,
            genesis_hash: self.genesis_hash@,
            max_target: self.max_target,
            halving_interval: self.halving_interval,
            network_name: self.network_name@,
            is_testnet: self.is_testnet,
            dns_seeds: self.dns_seeds@.map_values(|s: String| s@),
            checkpoints: checkpoints_view(self.checkpoints@),
        }
    }
}

/// A checkpoint as (height, hash, timestamp).
pub open spec fn checkpoint_view(c: Checkpoint) -> (u64, Seq<u8>, u64) {
    (c.height, c.hash@, c.timestamp)
}

/// A list of checkpoints as (height, hash, timestamp) triples.
pub open spec fn checkpoints_view(s: Seq<Checkpoint>) -> Seq<(u64, Seq<u8>, u64)> {
    s.map_values(|c: Checkpoint| checkpoint_view(c))
}

/// Magic bytes of each variant.
pub open spec fn magic_of(version: ProtocolVersion) -> Seq<u8> {
    match version {
        ProtocolVersion::BitcoinV1 => seq![0xf9u8, 0xbe, 0xb4, 0xd9],
        ProtocolVersion::Testnet3 => seq![0x0bu8, 0x11, 0x09, 0x07],
        ProtocolVersion::Regtest => seq![0xfau8, 0xbf, 0xb5, 0xda],
    }
}

/// Default port of each variant.
pub open spec fn port_of(version: ProtocolVersion) -> u16 {
    match version {
        ProtocolVersion::BitcoinV1 => 8333,
        ProtocolVersion::Testnet3 => 18333,
        ProtocolVersion::Regtest => 18444,
    }
}

/// Genesis block hash of each variant.
pub open spec fn genesis_hash_of(version: ProtocolVersion) -> Seq<u8> {
    match version {
        ProtocolVersion::BitcoinV1 => seq![
            0x6fu8, 0xe2, 0x8c, 0x0a, 0xb6, 0xf1, 0xb3, 0x72,
            0xc1, 0xa6, 0xa2, 0x46, 0xae, 0x63, 0xf7, 0x4f,
            0x93, 0x1e, 0x83, 0x65, 0xe1, 0x5a, 0x08, 0x9c,
            0x68, 0xd6, 0x19, 0x00, 0x00, 0x00, 0x00, 0x00,
        ],
        ProtocolVersion::Testnet3 => seq![
            0x43u8, 0x49, 0x7f, 0xd7, 0xf8, 0x26, 0x95, 0x71,
            0x08, 0xf4, 0xa3, 0x0f, 0xd9, 0xce, 0xc3, 0xae,
            0xba, 0x79, 0x97, 0x20, 0x84, 0xe9, 0x0e, 0xad,
            0x01, 0xea, 0x33, 0x09, 0x00, 0x00, 0x00, 0x00,
        ],
        ProtocolVersion::Regtest => seq![
            0x06u8, 0x22, 0x6e, 0x46, 0x11, 0x1a, 0x0b, 0x59,
            0xca, 0xaf, 0x12, 0x60, 0x43, 0xeb, 0x5b, 0xbf,
            0x28, 0xc3, 0x4f, 0x3a, 0x5e, 0x33, 0x2a, 0x1f,
            0xc7, 0xb2, 0xb7, 0x3c, 0xf1, 0x88, 0x91, 0x0f,
        ],
    }
}

/// Maximum proof-of-work target of each variant; regtest uses an easy one.
pub open spec fn max_target_of(version: ProtocolVersion) -> u32 {
    match version {
        ProtocolVersion::Regtest => 0x207fffff,
        _ => 0x1d00ffff,
    }
}

/// Halving interval of each variant; regtest halves much faster.
pub open spec fn halving_interval_of(version: ProtocolVersion) -> u64 {
    match version {
        ProtocolVersion::Regtest => 150,
        _ => 210000,
    }
}

/// Network name of each variant.
pub open spec fn network_name_of(version: ProtocolVersion) -> Seq<char> {
    match version {
        ProtocolVersion::BitcoinV1 => "mainnet"@,
        ProtocolVersion::Testnet3 => "testnet"@,
        ProtocolVersion::Regtest => "regtest"@,
    }
}

/// DNS seeds of each variant; regtest has none.
pub open spec fn dns_seeds_of(version: ProtocolVersion) -> Seq<Seq<char>> {
    match version {
        ProtocolVersion::BitcoinV1 => seq![
            "seed.bitcoin.sipa.be"@,
            "dnsseed.bluematt.me"@,
            "dnsseed.bitcoin.dashjr.org"@,
            "seed.bitcoinstats.com"@,
            "seed.bitcoin.jonasschnelli.ch"@,
            "seed.btc.petertodd.org"@,
        ],
        ProtocolVersion::Testnet3 => seq![
            "testnet-seed.bitcoin.jonasschnelli.ch"@,
            "seed.tbtc.petertodd.org"@,
            "seed.testnet.bitcoin.sprovoost.nl"@,
            "testnet-seed.bluematt.me"@,
        ],
        ProtocolVersion::Regtest => Seq::empty(),
    }
}

/// Checkpoints of each variant as (height, hash, timestamp); regtest has none.
pub open spec fn checkpoints_of(version: ProtocolVersion) -> Seq<(u64, Seq<u8>, u64)> {
    match version {
        ProtocolVersion::BitcoinV1 => seq![(11111u64, Seq::new(32, |i: int| 0u8), 1231006505u64)],
        ProtocolVersion::Testnet3 => seq![(11111u64, Seq::new(32, |i: int| 0u8), 1296688602u64)],
        ProtocolVersion::Regtest => Seq::empty(),
    }
}

/// The network constants of each variant.
pub open spec fn constants_table(version: ProtocolVersion) -> NetworkConstantsView {
    NetworkConstantsView {
        magic_bytes: magic_of(version),
        default_port: port_of(version),
        genesis_hash: genesis_hash_of(version),
        max_target: max_target_of(version),
        halving_interval: halving_interval_of(version),
        network_name: network_name_of(version),
        is_testnet: version != ProtocolVersion::BitcoinV1,
        dns_seeds: dns_seeds_of(version),
        checkpoints: checkpoints_of(version),
    }
}

impl NetworkConstants {
    /// Get constants for a specific protocol version.
    pub fn for_version(version: ProtocolVersion) -> (r: Result<Self, ProtocolError>)
        ensures
            r matches Ok(c) && c@ == constants_table(version),
    {
        match version {
            ProtocolVersion::BitcoinV1 => Self::mainnet(),
            ProtocolVersion::Testnet3 => Self::testnet(),
            ProtocolVersion::Regtest => Self::regtest(),
        }
    }

    /// Bitcoin mainnet constants.
    pub fn mainnet() -> (r: Result<Self, ProtocolError>)
        ensures
            r matches Ok(c) && c@ == constants_table(ProtocolVersion::BitcoinV1),
    {
        let dns_seeds = vec![
            "seed.bitcoin.sipa.be".to_owned(),
            "dnsseed.bluematt.me".to_owned(),
            "dnsseed.bitcoin.dashjr.org".to_owned(),
            "seed.bitcoinstats.com".to_owned(),
            "seed.bitcoin.jonasschnelli.ch".to_owned(),
            "seed.btc.petertodd.org".to_owned(),
        ];
        let c = Self {
            magic_bytes: [0xf9, 0xbe, 0xb4, 0xd9],
            default_port: 8333,
            genesis_hash: [
                0x6f, 0xe2, 0x8c, 0x0a, 0xb6, 0xf1, 0xb3, 0x72,
                0xc1, 0xa6, 0xa2, 0x46, 0xae, 0x63, 0xf7, 0x4f,
                0x93, 0x1e, 0x83, 0x65, 0xe1, 0x5a, 0x08, 0x9c,
                0x68, 0xd6, 0x19, 0x00, 0x00, 0x00, 0x00, 0x00,
            ],
            max_target: 0x1d00ffff,
            halving_interval: 210000,
            network_name: "mainnet".to_owned(),
            is_testnet: false,
            dns_seeds,
            checkpoints: Self::mainnet_checkpoints(),
        };
        assert(c@.magic_bytes =~= magic_of(ProtocolVersion::BitcoinV1));
        assert(c@.genesis_hash =~= genesis_hash_of(ProtocolVersion::BitcoinV1));
        assert(c@.dns_seeds =~= dns_seeds_of(ProtocolVersion::BitcoinV1));
        Ok(c)
    }

    /// Bitcoin testnet constants.
    pub fn testnet() -> (r: Result<Self, ProtocolError>)
        ensures
            r matches Ok(c) && c@ == constants_table(ProtocolVersion::Testnet3),
    {
        let dns_seeds = vec![
            "testnet-seed.bitcoin.jonasschnelli.ch".to_owned(),
            "seed.tbtc.petertodd.org".to_owned(),
            "seed.testnet.bitcoin.sprovoost.nl".to_owned(),
            "testnet-seed.bluematt.me".to_owned(),
        ];
        let c = Self {
            magic_bytes: [0x0b, 0x11, 0x09, 0x07],
            default_port: 18333,
            genesis_hash: [
                0x43, 0x49, 0x7f, 0xd7, 0xf8, 0x26, 0x95, 0x71,
                0x08, 0xf4, 0xa3, 0x0f, 0xd9, 0xce, 0xc3, 0xae,
                0xba, 0x79, 0x97, 0x20, 0x84, 0xe9, 0x0e, 0xad,
                0x01, 0xea, 0x33, 0x09, 0x00, 0x00, 0x00, 0x00,
            ],
            max_target: 0x1d00ffff,
            halving_interval: 210000,
            network_name: "testnet".to_owned(),
            is_testnet: true,
            dns_seeds,
            checkpoints: Self::testnet_checkpoints(),
        };
        assert(c@.magic_bytes =~= magic_of(ProtocolVersion::Testnet3));
        assert(c@.genesis_hash =~= genesis_hash_of(ProtocolVersion::Testnet3));
        assert(c@.dns_seeds =~= dns_seeds_of(ProtocolVersion::Testnet3));
        Ok(c)
    }

    /// Bitcoin regtest constants: easy target, fast halving, no seeds and
    /// no checkpoints.
    pub fn regtest() -> (r: Result<Self, ProtocolError>)
        ensures
            r matches Ok(c) && c@ == constants_table(ProtocolVersion::Regtest),
    {
        let c = Self {
            magic_bytes: [0xfa, 0xbf, 0xb5, 0xda],
            default_port: 18444,
            genesis_hash: [
                0x06, 0x22, 0x6e, 0x46, 0x11, 0x1a, 0x0b, 0x59,
                0xca, 0xaf, 0x12, 0x60, 0x43, 0xeb, 0x5b, 0xbf,
                0x28, 0xc3, 0x4f, 0x3a, 0x5e, 0x33, 0x2a, 0x1f,
                0xc7, 0xb2, 0xb7, 0x3c, 0xf1, 0x88, 0x91, 0x0f,
            ],
            max_target: 0x207fffff,
            halving_interval: 150,
            network_name: "regtest".to_owned(),
            is_testnet: true,
            dns_seeds: Vec::new(),
            checkpoints: Vec::new(),
        };
        assert(c@.magic_bytes =~= magic_of(ProtocolVersion::Regtest));
        assert(c@.genesis_hash =~= genesis_hash_of(ProtocolVersion::Regtest));
        assert(c@.dns_seeds =~= dns_seeds_of(ProtocolVersion::Regtest));
        assert(c@.checkpoints =~= checkpoints_of(ProtocolVersion::Regtest));
        Ok(c)
    }

    /// Mainnet checkpoints for fast sync.
    fn mainnet_checkpoints() -> (r: Vec<Checkpoint>)
        ensures
            checkpoints_view(r@) == checkpoints_of(ProtocolVersion::BitcoinV1),
    {
        let r = vec![Checkpoint { height: 11111, hash: [0u8; 32], timestamp: 1231006505 }];
        assert(r@[0].hash@ =~= Seq::new(32, |i: int| 0u8));
        assert(checkpoints_view(r@) =~= checkpoints_of(ProtocolVersion::BitcoinV1));
        r
    }

    /// Testnet checkpoints for fast sync.
    fn testnet_checkpoints() -> (r: Vec<Checkpoint>)
        ensures
            checkpoints_view(r@) == checkpoints_of(ProtocolVersion::Testnet3),
    {
        let r = vec![Checkpoint { height: 11111, hash: [0u8; 32], timestamp: 1296688602 }];
        assert(r@[0].hash@ =~= Seq::new(32, |i: int| 0u8));
        assert(checkpoints_view(r@) =~= checkpoints_of(ProtocolVersion::Testnet3));
        r
    }
}

impl NetworkParameters {
    /// Create network parameters from constants.
    pub fn from_constants(constants: &NetworkConstants) -> (r: Result<Self, ProtocolError>)
        ensures
            r matches Ok(p) && p@ == (crate::NetworkParametersView {
                magic_bytes: constants@.magic_bytes,
                default_port: constants.default_port,
                genesis_hash: constants@.genesis_hash,
                max_target: constants.max_target,
                halving_interval: constants.halving_interval,
                network_name: constants@.network_name,
                is_testnet: constants.is_testnet,
            }),
    {
        Ok(NetworkParameters {
            magic_bytes: constants.magic_bytes,
            default_port: constants.default_port,
            genesis_hash: constants.genesis_hash,
            max_target: constants.max_target,
            halving_interval: constants.halving_interval,
            network_name: constants.network_name.clone(),
            is_testnet: constants.is_testnet,
        })
    }
}

} // verus!
