//! Protocol variants (mainnet, testnet, regtest) and protocol evolution.

use vstd::prelude::*;

use crate::ProtocolVersion;

verus! {

/// Protocol variant configuration.
#[derive(Debug, Clone, PartialEq, Eq)]
pub struct ProtocolVariant {
    pub version: ProtocolVersion,
    pub name: String,
    pub description: String,
    pub is_production: bool,
    pub supports_mining: bool,
    pub supports_wallet: bool,
}

/// Name of each variant.
pub open spec fn variant_name(version: ProtocolVersion) -> Seq<char> {
    match version {
        ProtocolVersion::BitcoinV1 => "Bitcoin Mainnet"@,
        ProtocolVersion::Testnet3 => "Bitcoin Testnet"@,
        ProtocolVersion::Regtest => "Bitcoin Regtest"@,
    }
}

/// Description of each variant.
pub open spec fn variant_description(version: ProtocolVersion) -> Seq<char> {
    match version {
        ProtocolVersion::BitcoinV1 => "Production Bitcoin network with full consensus rules"@,
        ProtocolVersion::Testnet3 => "Bitcoin test network for development and testing"@,
        ProtocolVersion::Regtest => "Regression testing network with configurable difficulty"@,
    }
}

/// `v` is the catalog entry of `version`: only mainnet is production, and
/// every variant supports mining and wallets.
pub open spec fn describes(v: ProtocolVariant, version: ProtocolVersion) -> bool {
    &&& v.version == version
    &&& v.name@ == variant_name(version)
    &&& v.description@ == variant_description(version)
    &&& v.is_production == (version == ProtocolVersion::BitcoinV1)
    &&& v.supports_mining
    &&& v.supports_wallet
}

/// The catalog order of the variants.
pub open spec fn catalog_order() -> Seq<ProtocolVersion> {
    seq![ProtocolVersion::BitcoinV1, ProtocolVersion::Testnet3, ProtocolVersion::Regtest]
}

/// Builds the catalog entry of one variant.
fn new_variant(version: ProtocolVersion, name: &str, description: &str, is_production: bool) -> (r:
    ProtocolVariant)
    ensures
        r.version == version,
        r.name@ == name@,
        r.description@ == description@,
        r.is_production == is_production,
        r.supports_mining,
        r.supports_wallet,
{
    ProtocolVariant {
        version,
        name: name.to_owned(),
        description: description.to_owned(),
        is_production,
        supports_mining: true,
        supports_wallet: true,
    }
}

impl ProtocolVariant {
    /// Get all available protocol variants: mainnet, testnet and regtest,
    /// in that order.
    pub fn all_variants() -> (r: Vec<Self>)
        ensures
            r@.len() == 3,
            forall|i: int| 0 <= i < 3 ==> describes(#[trigger] r@[i], catalog_order()[i]),
    {
        vec![
            new_variant(
                ProtocolVersion::BitcoinV1,
                "Bitcoin Mainnet",
                "Production Bitcoin network with full consensus rules",
                true,
            ),
            new_variant(
                ProtocolVersion::Testnet3,
                "Bitcoin Testnet",
                "Bitcoin test network for development and testing",
                false,
            ),
            new_variant(
                ProtocolVersion::Regtest,
                "Bitcoin Regtest",
                "Regression testing network with configurable difficulty",
                false,
            ),
        ]
    }

    /// Get the variant of a protocol version; every version has one.
    pub fn for_version(version: ProtocolVersion) -> (r: Option<Self>)
        ensures
            r matches Some(v) && describes(v, version),
    {
        let mut all = Self::all_variants();
        let mut i: usize = 0;
        while i < all.len()
            invariant
                all@.len() == 3,
                i <= 3,
                forall|k: int| 0 <= k < 3 ==> describes(#[trigger] all@[k], catalog_order()[k]),
                forall|k: int| 0 <= k < i ==> #[trigger] catalog_order()[k] != version,
            decreases 3 - i,
        {
            if all[i].version == version {
                return Some(all.swap_remove(i));
            }
            i = i + 1;
        }
        assert(catalog_order()[0] != version && catalog_order()[1] != version
            && catalog_order()[2] != version);
        None
    }

    /// Check if this variant is suitable for production use.
    pub fn is_production_ready(&self) -> (r: bool)
        ensures
            r == self.is_production,
    {
        self.is_production
    }

    /// Check if this variant supports mining operations.
    pub fn supports_mining_operations(&self) -> (r: bool)
        ensures
            r == self.supports_mining,
    {
        self.supports_mining
    }

    /// Check if this variant supports wallet operations.
    pub fn supports_wallet_operations(&self) -> (r: bool)
        ensures
            r == self.supports_wallet,
    {
        self.supports_wallet
    }
}

/// Protocol evolution support.
#[derive(Debug, Clone, PartialEq, Eq)]
pub struct ProtocolEvolution {
    /// Protocol version number
    pub version: u32,
    /// Features enabled in this version
    pub enabled_features: Vec<String>,
    /// Features deprecated in this version
    pub deprecated_features: Vec<String>,
    /// Breaking changes from previous version
    pub breaking_changes: Vec<String>,
}

/// The characters of each string of a list.
pub open spec fn texts(s: Seq<String>) -> Seq<Seq<char>> {
    s.map_values(|x: String| x@)
}

/// The features enabled in protocol version 1.
pub open spec fn v1_features() -> Seq<Seq<char>> {
    seq!["basic_transactions"@, "proof_of_work"@, "economic_model"@, "p2p_networking"@]
}

/// Builds a list of owned strings.
fn owned_list(items: &[&str]) -> (r: Vec<String>)
    ensures
        r@.len() == items@.len(),
        forall|i: int| 0 <= i < items@.len() ==> #[trigger] r@[i]@ == items@[i]@,
{
    let mut r: Vec<String> = Vec::new();
    let mut i: usize = 0;
    while i < items.len()
        invariant
            i <= items@.len(),
            r@.len() == i,
            forall|k: int| 0 <= k < i ==> #[trigger] r@[k]@ == items@[k]@,
        decreases items@.len() - i,
    {
        r.push(items[i].to_owned());
        i = i + 1;
    }
    r
}

impl ProtocolEvolution {
    /// Bitcoin V1 (current).
    pub fn bitcoin_v1() -> (r: Self)
        ensures
            r.version == 1,
            texts(r.enabled_features@) == v1_features(),
            r.deprecated_features@.len() == 0,
            r.breaking_changes@.len() == 0,
    {
        let enabled = owned_list(
            &["basic_transactions", "proof_of_work", "economic_model", "p2p_networking"],
        );
        assert(texts(enabled@) =~= v1_features());
        Self {
            version: 1,
            enabled_features: enabled,
            deprecated_features: Vec::new(),
            breaking_changes: Vec::new(),
        }
    }

    /// Bitcoin V2 (future hypothetical): the V1 features plus advanced
    /// scripting and privacy features.
    pub fn bitcoin_v2() -> (r: Self)
        ensures
            r.version == 2,
            texts(r.enabled_features@) == v1_features() + seq![
                "advanced_scripting"@,
                "privacy_features"@,
            ],
            texts(r.deprecated_features@) == seq!["legacy_addresses"@],
            texts(r.breaking_changes@) == seq!["new_address_format"@, "enhanced_script_engine"@],
    {
        let enabled = owned_list(
            &[
                "basic_transactions",
                "proof_of_work",
                "economic_model",
                "p2p_networking",
                "advanced_scripting",
                "privacy_features",
            ],
        );
        let deprecated = owned_list(&["legacy_addresses"]);
        let breaking = owned_list(&["new_address_format", "enhanced_script_engine"]);
        assert(texts(enabled@) =~= v1_features() + seq![
            "advanced_scripting"@,
            "privacy_features"@,
        ]);
        assert(texts(deprecated@) =~= seq!["legacy_addresses"@]);
        assert(texts(breaking@) =~= seq!["new_address_format"@, "enhanced_script_engine"@]);
        Self {
            version: 2,
            enabled_features: enabled,
            deprecated_features: deprecated,
            breaking_changes: breaking,
        }
    }

    /// Check if a feature is enabled in this protocol version.
    pub fn has_feature(&self, feature: &str) -> (r: bool)
        ensures
            r == texts(self.enabled_features@).contains(feature@),
    {
        list_contains(&self.enabled_features, feature)
    }

    /// Check if a feature is deprecated in this protocol version.
    pub fn is_deprecated(&self, feature: &str) -> (r: bool)
        ensures
            r == texts(self.deprecated_features@).contains(feature@),
    {
        list_contains(&self.deprecated_features, feature)
    }
}

/// Whether `list` holds a string equal to `item`.
fn list_contains(list: &Vec<String>, item: &str) -> (r: bool)
    ensures
        r == texts(list@).contains(item@),
{
    let key = item.to_owned();
    let mut i: usize = 0;
    while i < list.len()
        invariant
            i <= list@.len(),
            key@ == item@,
            forall|k: int| 0 <= k < i ==> #[trigger] list@[k]@ != item@,
        decreases list@.len() - i,
    {
        if list[i] == key {
            assert(texts(list@)[i as int] == item@);
            return true;
        }
        i = i + 1;
    }
    assert(!texts(list@).contains(item@)) by {
        if texts(list@).contains(item@) {
            let k = choose|k: int| 0 <= k < texts(list@).len() && texts(list@)[k] == item@;
            assert(list@[k]@ == item@);
        }
    }
    false
}

} // verus!
