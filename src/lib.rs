//! Protocol parameterization and feature activation for a Bitcoin-style
//! network: per-variant rule sets, the economic model, feature activation,
//! protocol-layer validation limits and the peer message state machine.

use vstd::prelude::*;

pub mod chain;
pub mod economic;
pub mod features;
pub mod network;
pub mod network_params;
pub mod validation;
pub mod variants;

pub use economic::EconomicParameters;
pub use features::{ActivationMethod, FeatureActivation, FeatureContext, FeatureRegistry};
pub use network_params::{Checkpoint, NetworkConstants};
pub use variants::{ProtocolEvolution, ProtocolVariant};

use features::{context_of, feature_active, registry_table};
use network_params::{
    genesis_hash_of, halving_interval_of, magic_of, max_target_of, network_name_of, port_of,
};

verus! {

/// The network variants the engine can be configured for.
#[derive(Debug, Clone, Copy, PartialEq, Eq, Structural, Hash)]
pub enum ProtocolVersion {
    /// Current Bitcoin mainnet protocol
    BitcoinV1,
    /// Bitcoin testnet protocol
    Testnet3,
    /// Regression test network protocol
    Regtest,
}

/// A protocol-layer policy violation. These are distinct from consensus
/// invalidity: the object may be valid by consensus yet exceed this
/// network's limits.
#[derive(Debug, Clone, Copy, PartialEq, Eq, Structural, Hash)]
pub enum ProtocolError {
    /// The estimated block size exceeds the maximum block size
    BlockTooLarge,
    /// The block holds more transactions than the fixed safety ceiling
    TooManyTransactions,
    /// The estimated transaction size exceeds the maximum transaction size
    TransactionTooLarge,
    /// An unlocking or locking script exceeds the maximum script size
    ScriptTooLarge,
}

/// The description of a protocol violation.
pub open spec fn error_text(e: ProtocolError) -> Seq<char> {
    match e {
        ProtocolError::BlockTooLarge => "Block size exceeds maximum"@,
        ProtocolError::TooManyTransactions => "Too many transactions in block"@,
        ProtocolError::TransactionTooLarge => "Transaction size exceeds maximum"@,
        ProtocolError::ScriptTooLarge => "Script size exceeds maximum"@,
    }
}

impl ProtocolError {
    /// A human-readable description of the violation.
    pub fn message(&self) -> (r: String)
        ensures
            r@ == error_text(*self),
    {
        match self {
            ProtocolError::BlockTooLarge => "Block size exceeds maximum".to_owned(),
            ProtocolError::TooManyTransactions => "Too many transactions in block".to_owned(),
            ProtocolError::TransactionTooLarge => "Transaction size exceeds maximum".to_owned(),
            ProtocolError::ScriptTooLarge => "Script size exceeds maximum".to_owned(),
        }
    }
}

/// Network parameters for the different variants.
#[derive(Debug, Clone, PartialEq, Eq)]
pub struct NetworkParameters {
    /// Network magic bytes for P2P protocol
    pub magic_bytes: [u8; 4],
    /// Default P2P port
    pub default_port: u16,
    /// Hash of the genesis block of this network
    pub genesis_hash: [u8; 32],
    /// Maximum proof-of-work target
    pub max_target: u32,
    /// Block subsidy halving interval
    pub halving_interval: u64,
    /// Network name for identification
    pub network_name: String,
    /// Whether this is a test network
    pub is_testnet: bool,
}

/// The plain values of a [`NetworkParameters`].
pub struct NetworkParametersView {
    pub magic_bytes: Seq<u8>,
    pub default_port: u16,
    pub genesis_hash: Seq<u8>,
    pub max_target: u32,
    pub halving_interval: u64,
    pub network_name: Seq<char>,
    pub is_testnet: bool,
}

impl View for NetworkParameters {
    type V = NetworkParametersView;

    open spec fn view(&self) -> NetworkParametersView {
        NetworkParametersView {
            magic_bytes: self.magic_bytes@,
            default_port: self.default_port,
            genesis_hash: self.genesis_hash@,
            max_target: self.max_target,
            halving_interval: self.halving_interval,
            network_name: self.network_name@,
            is_testnet: self.is_testnet,
        }
    }
}

/// The network parameters of each variant.
pub open spec fn network_table(version: ProtocolVersion) -> NetworkParametersView {
    NetworkParametersView {
        magic_bytes: magic_of(version),
        default_port: port_of(version),
        genesis_hash: genesis_hash_of(version),
        max_target: max_target_of(version),
        halving_interval: halving_interval_of(version),
        network_name: network_name_of(version),
        is_testnet: version != ProtocolVersion::BitcoinV1,
    }
}

impl NetworkParameters {
    /// Create network parameters for a specific protocol version.
    pub fn for_version(version: ProtocolVersion) -> (r: Result<Self, ProtocolError>)
        ensures
            r matches Ok(p) && p@ == network_table(version),
    {
        match version {
            ProtocolVersion::BitcoinV1 => Self::mainnet(),
            ProtocolVersion::Testnet3 => Self::testnet(),
            ProtocolVersion::Regtest => Self::regtest(),
        }
    }

    /// Bitcoin mainnet parameters.
    pub fn mainnet() -> (r: Result<Self, ProtocolError>)
        ensures
            r matches Ok(p) && p@ == network_table(ProtocolVersion::BitcoinV1),
    {
        let constants = NetworkConstants::mainnet()?;
        Self::from_constants(&constants)
    }

    /// Bitcoin testnet parameters.
    pub fn testnet() -> (r: Result<Self, ProtocolError>)
        ensures
            r matches Ok(p) && p@ == network_table(ProtocolVersion::Testnet3),
    {
        let constants = NetworkConstants::testnet()?;
        Self::from_constants(&constants)
    }

    /// Bitcoin regtest parameters: easy target and fast halving.
    pub fn regtest() -> (r: Result<Self, ProtocolError>)
        ensures
            r matches Ok(p) && p@ == network_table(ProtocolVersion::Regtest),
    {
        let constants = NetworkConstants::regtest()?;
        Self::from_constants(&constants)
    }
}

/// Whether a variant supports a named feature.
pub open spec fn variant_supports(version: ProtocolVersion, feature: Seq<char>) -> bool {
    ||| feature == "segwit"@
    ||| feature == "taproot"@
    ||| feature == "rbf"@
    ||| feature == "ctv"@
    ||| (version == ProtocolVersion::Regtest && feature == "fast_mining"@)
}

/// Protocol engine: a selected network variant and its parameters, the
/// source the validation and messaging layers pull their rules from.
#[derive(Debug)]
pub struct BitcoinProtocolEngine {
    protocol_version: ProtocolVersion,
    network_params: NetworkParameters,
}

impl BitcoinProtocolEngine {
    /// The engine's network parameters are those of its variant.
    #[verifier::type_invariant]
    spec fn params_match_variant(&self) -> bool {
        self.network_params@ == network_table(self.protocol_version)
    }

    /// The variant the engine was created for.
    pub closed spec fn version(&self) -> ProtocolVersion {
        self.protocol_version
    }

    /// Create a new protocol engine for the specified variant.
    pub fn new(version: ProtocolVersion) -> (r: Result<Self, ProtocolError>)
        ensures
            r matches Ok(e) && e.version() == version,
    {
        let network_params = NetworkParameters::for_version(version)?;
        Ok(BitcoinProtocolEngine { protocol_version: version, network_params })
    }

    /// Get the current protocol version.
    pub fn get_protocol_version(&self) -> (r: ProtocolVersion)
        ensures
            r == self.version(),
    {
        self.protocol_version
    }

    /// Get network parameters for this protocol.
    pub fn get_network_params(&self) -> (r: &NetworkParameters)
        ensures
            r@ == network_table(self.version()),
    {
        proof {
            use_type_invariant(self);
        }
        &self.network_params
    }

    /// Check if this protocol supports a specific feature.
    pub fn supports_feature(&self, feature: &str) -> (r: bool)
        ensures
            r == variant_supports(self.version(), feature@),
    {
        let common = same_text(feature, "segwit") || same_text(feature, "taproot") || same_text(
            feature,
            "rbf",
        ) || same_text(feature, "ctv");
        match self.protocol_version {
            ProtocolVersion::BitcoinV1 => common,
            ProtocolVersion::Testnet3 => common,
            ProtocolVersion::Regtest => common || same_text(feature, "fast_mining"),
        }
    }

    /// Check if a feature is active at a specific block height and timestamp.
    pub fn is_feature_active(&self, feature: &str, height: u64, timestamp: u64) -> (r: bool)
        ensures
            r == feature_active(registry_table(self.version()).features, feature@, height, timestamp),
    {
        let registry = FeatureRegistry::for_protocol(self.protocol_version);
        registry.is_feature_active(feature, height, timestamp)
    }

    /// Get economic parameters for this protocol.
    pub fn get_economic_parameters(&self) -> (r: EconomicParameters)
        ensures
            r@ == economic::economic_table(self.version()),
    {
        EconomicParameters::for_protocol(self.protocol_version)
    }

    /// Get the feature activation registry for this protocol.
    pub fn get_feature_registry(&self) -> (r: FeatureRegistry)
        ensures
            r@ == registry_table(self.version()),
    {
        FeatureRegistry::for_protocol(self.protocol_version)
    }

    /// Snapshot of the tracked features at a block height and timestamp.
    pub fn feature_context(&self, height: u64, timestamp: u64) -> (r: FeatureContext)
        ensures
            r == context_of(registry_table(self.version()), height, timestamp),
    {
        let registry = FeatureRegistry::for_protocol(self.protocol_version);
        registry.create_context(height, timestamp)
    }
}

/// Resolving a variant is stable: any two resolutions of the same variant
/// give equal network parameters, economic parameters, feature registries
/// and validation rules (equal values, not the same objects).
pub proof fn lemma_resolution_stable(
    version: ProtocolVersion,
    network_a: NetworkParameters,
    network_b: NetworkParameters,
    economics_a: EconomicParameters,
    economics_b: EconomicParameters,
    registry_a: FeatureRegistry,
    registry_b: FeatureRegistry,
    rules_a: validation::ProtocolValidationRules,
    rules_b: validation::ProtocolValidationRules,
)
    requires
        network_a@ == network_table(version),
        network_b@ == network_table(version),
        economics_a@ == economic::economic_table(version),
        economics_b@ == economic::economic_table(version),
        registry_a@ == registry_table(version),
        registry_b@ == registry_table(version),
        rules_a == validation::rules_table(version),
        rules_b == validation::rules_table(version),
    ensures
        network_a@ == network_b@,
        economics_a@ == economics_b@,
        registry_a@ == registry_b@,
        rules_a == rules_b,
{
}

/// Whether two strings hold the same characters.
pub(crate) fn same_text(a: &str, b: &str) -> (r: bool)
    ensures
        r == (a@ == b@),
{
    a.to_owned() == b.to_owned()
}

} // verus!
