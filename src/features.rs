//! Feature activation tracking: when protocol features activate by block
//! height or timestamp, and a frozen snapshot of the tracked features.

use vstd::prelude::*;

use crate::{same_text, ProtocolVersion};

verus! {

/// Feature activation method.
#[derive(Debug, Clone, Copy, PartialEq, Eq, Structural, Hash)]
pub enum ActivationMethod {
    /// Version-bits style activation: active once either the height or the
    /// timestamp threshold is reached
    BIP9,
    /// Height-based activation
    HeightBased,
    /// Timestamp-based activation
    Timestamp,
    /// Hard fork - immediate activation at genesis
    HardFork,
    /// Always active from genesis
    AlwaysActive,
}

/// Feature activation information.
#[derive(Debug, Clone, PartialEq, Eq)]
pub struct FeatureActivation {
    /// Feature name
    pub feature_name: String,
    /// Activation block height (if height-based)
    pub activation_height: Option<u64>,
    /// Activation timestamp (Unix timestamp, if time-based)
    pub activation_timestamp: Option<u64>,
    /// Activation method
    pub activation_method: ActivationMethod,
    /// BIP number (if applicable)
    pub bip_number: Option<u32>,
}

/// The plain values of a [`FeatureActivation`].
pub struct FeatureActivationView {
    pub feature_name: Seq<char>,
    pub activation_height: Option<u64>,
    pub activation_timestamp: Option<u64>,
    pub activation_method: ActivationMethod,
    pub bip_number: Option<u32>,
}

impl View for FeatureActivation {
    type V = FeatureActivationView;

    open spec fn view(&self) -> FeatureActivationView {
        FeatureActivationView {
            feature_name: self.feature_name@,
            activation_height: self.activation_height,
            activation_timestamp: self.activation_timestamp,
            activation_method: self.activation_method,
            bip_number: self.bip_number,
        }
    }
}

/// A threshold that is set and reached.
pub open spec fn reached(threshold: Option<u64>, value: u64) -> bool {
    match threshold {
        Some(t) => value >= t,
        None => false,
    }
}

/// Whether a feature is active at the given height and timestamp.
pub open spec fn activation_holds(f: FeatureActivationView, height: u64, timestamp: u64) -> bool {
    match f.activation_method {
        ActivationMethod::AlwaysActive => true,
        ActivationMethod::HardFork => true,
        ActivationMethod::HeightBased => reached(f.activation_height, height),
        ActivationMethod::Timestamp => reached(f.activation_timestamp, timestamp),
        ActivationMethod::BIP9 => reached(f.activation_height, height) || reached(
            f.activation_timestamp,
            timestamp,
        ),
    }
}

/// `i` is the first position in `features` whose name is `name`.
pub open spec fn first_match(features: Seq<FeatureActivationView>, name: Seq<char>, i: int) -> bool {
    &&& 0 <= i < features.len()
    &&& features[i].feature_name == name
    &&& forall|j: int| 0 <= j < i ==> #[trigger] features[j].feature_name != name
}

/// Some entry of `features` is named `name`.
pub open spec fn registered(features: Seq<FeatureActivationView>, name: Seq<char>) -> bool {
    exists|i: int| 0 <= i < features.len() && #[trigger] features[i].feature_name == name
}

/// The first entry named `name` exists and is active at (height, timestamp).
pub open spec fn feature_active(
    features: Seq<FeatureActivationView>,
    name: Seq<char>,
    height: u64,
    timestamp: u64,
) -> bool {
    exists|i: int| #[trigger] first_match(features, name, i) && activation_holds(features[i], height, timestamp)
}

impl FeatureActivation {
    /// Check if feature is active at given height and timestamp.
    pub fn is_active_at(&self, height: u64, timestamp: u64) -> (r: bool)
        ensures
            r == activation_holds(self@, height, timestamp),
    {
        match self.activation_method {
            ActivationMethod::AlwaysActive => true,
            ActivationMethod::HardFork => true,
            ActivationMethod::HeightBased => {
                match self.activation_height {
                    Some(activation_height) => height >= activation_height,
                    None => false,
                }
            },
            ActivationMethod::Timestamp => {
                match self.activation_timestamp {
                    Some(activation_timestamp) => timestamp >= activation_timestamp,
                    None => false,
                }
            },
            ActivationMethod::BIP9 => {
                let height_active = match self.activation_height {
                    Some(h) => height >= h,
                    None => false,
                };
                let timestamp_active = match self.activation_timestamp {
                    Some(t) => timestamp >= t,
                    None => false,
                };
                height_active || timestamp_active
            },
        }
    }
}

/// Feature activation registry for a protocol version.
#[derive(Debug, Clone, PartialEq, Eq)]
pub struct FeatureRegistry {
    /// Protocol version
    pub protocol_version: ProtocolVersion,
    /// Feature activations, in insertion order
    pub features: Vec<FeatureActivation>,
}

/// The plain values of a [`FeatureRegistry`].
pub struct FeatureRegistryView {
    pub protocol_version: ProtocolVersion,
    pub features: Seq<FeatureActivationView>,
}

impl View for FeatureRegistry {
    type V = FeatureRegistryView;

    open spec fn view(&self) -> FeatureRegistryView {
        FeatureRegistryView {
            protocol_version: self.protocol_version,
            features: self.features@.map_values(|f: FeatureActivation| f@),
        }
    }
}

/// A registry entry with the given values.
pub open spec fn entry(
    name: Seq<char>,
    height: Option<u64>,
    timestamp: Option<u64>,
    method: ActivationMethod,
    bip: Option<u32>,
) -> FeatureActivationView {
    FeatureActivationView {
        feature_name: name,
        activation_height: height,
        activation_timestamp: timestamp,
        activation_method: method,
        bip_number: bip,
    }
}

/// An entry that is active from genesis.
pub open spec fn genesis_entry(name: Seq<char>, bip: Option<u32>) -> FeatureActivationView {
    entry(name, Some(0), None, ActivationMethod::AlwaysActive, bip)
}

/// The feature activations of each network variant.
pub open spec fn registry_table(version: ProtocolVersion) -> FeatureRegistryView {
    match version {
        ProtocolVersion::BitcoinV1 => FeatureRegistryView {
            protocol_version: version,
            features: seq![
                entry("segwit"@, Some(481_824), Some(1503539857), ActivationMethod::BIP9, Some(141)),
                entry("taproot"@, Some(709_632), Some(1636934400), ActivationMethod::BIP9, Some(341)),
                genesis_entry("rbf"@, Some(125)),
                entry("ctv"@, None, None, ActivationMethod::BIP9, Some(119)),
                genesis_entry("csv"@, Some(112)),
                genesis_entry("cltv"@, Some(65)),
            ],
        },
        ProtocolVersion::Testnet3 => FeatureRegistryView {
            protocol_version: version,
            features: seq![
                entry("segwit"@, Some(465_600), Some(1493596800), ActivationMethod::BIP9, Some(141)),
                entry("taproot"@, Some(2_016_000), Some(1628640000), ActivationMethod::BIP9, Some(341)),
                genesis_entry("rbf"@, Some(125)),
                genesis_entry("csv"@, Some(112)),
                genesis_entry("cltv"@, Some(65)),
            ],
        },
        ProtocolVersion::Regtest => FeatureRegistryView {
            protocol_version: version,
            features: seq![
                genesis_entry("segwit"@, Some(141)),
                genesis_entry("taproot"@, Some(341)),
                genesis_entry("rbf"@, Some(125)),
                genesis_entry("csv"@, Some(112)),
                genesis_entry("cltv"@, Some(65)),
                genesis_entry("ctv"@, Some(119)),
                genesis_entry("fast_mining"@, None),
            ],
        },
    }
}

/// Builds one registry entry.
fn new_entry(
    name: &str,
    height: Option<u64>,
    timestamp: Option<u64>,
    method: ActivationMethod,
    bip: Option<u32>,
) -> (r: FeatureActivation)
    ensures
        r@ == entry(name@, height, timestamp, method, bip),
{
    FeatureActivation {
        feature_name: name.to_owned(),
        activation_height: height,
        activation_timestamp: timestamp,
        activation_method: method,
        bip_number: bip,
    }
}

impl FeatureRegistry {
    /// Get feature activations for a protocol version.
    pub fn for_protocol(version: ProtocolVersion) -> (r: Self)
        ensures
            r@ == registry_table(version),
    {
        match version {
            ProtocolVersion::BitcoinV1 => Self::mainnet(),
            ProtocolVersion::Testnet3 => Self::testnet(),
            ProtocolVersion::Regtest => Self::regtest(),
        }
    }

    /// Mainnet feature activations.
    pub fn mainnet() -> (r: Self)
        ensures
            r@ == registry_table(ProtocolVersion::BitcoinV1),
    {
        let features = vec![
            new_entry("segwit", Some(481_824), Some(1503539857), ActivationMethod::BIP9, Some(141)),
            new_entry("taproot", Some(709_632), Some(1636934400), ActivationMethod::BIP9, Some(341)),
            new_entry("rbf", Some(0), None, ActivationMethod::AlwaysActive, Some(125)),
            new_entry("ctv", None, None, ActivationMethod::BIP9, Some(119)),
            new_entry("csv", Some(0), None, ActivationMethod::AlwaysActive, Some(112)),
            new_entry("cltv", Some(0), None, ActivationMethod::AlwaysActive, Some(65)),
        ];
        let r = Self { protocol_version: ProtocolVersion::BitcoinV1, features };
        assert(r@.features =~= registry_table(ProtocolVersion::BitcoinV1).features);
        r
    }

    /// Testnet feature activations (earlier activation heights).
    pub fn testnet() -> (r: Self)
        ensures
            r@ == registry_table(ProtocolVersion::Testnet3),
    {
        let features = vec![
            new_entry("segwit", Some(465_600), Some(1493596800), ActivationMethod::BIP9, Some(141)),
            new_entry("taproot", Some(2_016_000), Some(1628640000), ActivationMethod::BIP9, Some(341)),
            new_entry("rbf", Some(0), None, ActivationMethod::AlwaysActive, Some(125)),
            new_entry("csv", Some(0), None, ActivationMethod::AlwaysActive, Some(112)),
            new_entry("cltv", Some(0), None, ActivationMethod::AlwaysActive, Some(65)),
        ];
        let r = Self { protocol_version: ProtocolVersion::Testnet3, features };
        assert(r@.features =~= registry_table(ProtocolVersion::Testnet3).features);
        r
    }

    /// Regtest feature activations (all features active from genesis).
    pub fn regtest() -> (r: Self)
        ensures
            r@ == registry_table(ProtocolVersion::Regtest),
    {
        let features = vec![
            new_entry("segwit", Some(0), None, ActivationMethod::AlwaysActive, Some(141)),
            new_entry("taproot", Some(0), None, ActivationMethod::AlwaysActive, Some(341)),
            new_entry("rbf", Some(0), None, ActivationMethod::AlwaysActive, Some(125)),
            new_entry("csv", Some(0), None, ActivationMethod::AlwaysActive, Some(112)),
            new_entry("cltv", Some(0), None, ActivationMethod::AlwaysActive, Some(65)),
            new_entry("ctv", Some(0), None, ActivationMethod::AlwaysActive, Some(119)),
            new_entry("fast_mining", Some(0), None, ActivationMethod::AlwaysActive, None),
        ];
        let r = Self { protocol_version: ProtocolVersion::Regtest, features };
        assert(r@.features =~= registry_table(ProtocolVersion::Regtest).features);
        r
    }

    /// Position of the first entry named `feature_name`, if any.
    fn position_of(&self, feature_name: &str) -> (r: Option<usize>)
        ensures
            match r {
                Some(i) => first_match(self@.features, feature_name@, i as int),
                None => !registered(self@.features, feature_name@),
            },
    {
        let key = feature_name.to_owned();
        let n = self.features.len();
        let mut i: usize = 0;
        while i < n
            invariant
                n == self.features@.len(),
                i <= n,
                key@ == feature_name@,
                forall|j: int| 0 <= j < i ==> #[trigger] self@.features[j].feature_name != key@,
            decreases n - i,
        {
            if self.features[i].feature_name == key {
                return Some(i);
            }
            i = i + 1;
        }
        None
    }

    /// Check if a feature is active at a given height and timestamp; a name
    /// that is not registered is never active.
    pub fn is_feature_active(&self, feature_name: &str, height: u64, timestamp: u64) -> (r: bool)
        ensures
            r == feature_active(self@.features, feature_name@, height, timestamp),
    {
        match self.position_of(feature_name) {
            Some(i) => {
                let r = self.features[i].is_active_at(height, timestamp);
                proof {
                    lemma_first_match_unique(self@.features, feature_name@, i as int);
                }
                r
            },
            None => false,
        }
    }

    /// Get the first activation record named `feature_name`.
    pub fn get_feature(&self, feature_name: &str) -> (r: Option<&FeatureActivation>)
        ensures
            match r {
                Some(f) => exists|i: int|
                    #[trigger] first_match(self@.features, feature_name@, i) && f@ == self@.features[i],
                None => !registered(self@.features, feature_name@),
            },
    {
        match self.position_of(feature_name) {
            Some(i) => Some(&self.features[i]),
            None => None,
        }
    }

    /// The names of all features, in registry order.
    pub fn list_features(&self) -> (r: Vec<String>)
        ensures
            r@.len() == self@.features.len(),
            forall|i: int| 0 <= i < r@.len() ==> #[trigger] r@[i]@ == self@.features[i].feature_name,
    {
        let mut names: Vec<String> = Vec::new();
        let n = self.features.len();
        let mut i: usize = 0;
        while i < n
            invariant
                n == self.features@.len(),
                i <= n,
                names@.len() == i,
                forall|j: int| 0 <= j < i ==> #[trigger] names@[j]@ == self@.features[j].feature_name,
            decreases n - i,
        {
            names.push(self.features[i].feature_name.clone());
            i = i + 1;
        }
        names
    }

    /// Snapshot of the tracked features at a height and timestamp.
    pub fn create_context(&self, height: u64, timestamp: u64) -> (r: FeatureContext)
        ensures
            r == context_of(self@, height, timestamp),
    {
        FeatureContext {
            segwit: self.is_feature_active("segwit", height, timestamp),
            taproot: self.is_feature_active("taproot", height, timestamp),
            csv: self.is_feature_active("csv", height, timestamp),
            cltv: self.is_feature_active("cltv", height, timestamp),
            rbf: self.is_feature_active("rbf", height, timestamp),
            ctv: self.is_feature_active("ctv", height, timestamp),
            height,
            timestamp,
        }
    }
}

/// There is at most one first match for a name.
proof fn lemma_first_match_unique(features: Seq<FeatureActivationView>, name: Seq<char>, i: int)
    requires
        first_match(features, name, i),
    ensures
        forall|k: int| #[trigger] first_match(features, name, k) ==> k == i,
{
    assert forall|k: int| #[trigger] first_match(features, name, k) implies k == i by {
        if k < i {
            assert(features[k].feature_name != name);
        } else if k > i {
            assert(features[i].feature_name != name);
        }
    }
}

/// Feature context consolidating the tracked feature flags at a specific
/// height and timestamp.
#[derive(Debug, Clone, Copy, PartialEq, Eq, Structural)]
pub struct FeatureContext {
    /// SegWit (BIP141/143) activation state
    pub segwit: bool,
    /// Taproot (BIP341/342) activation state
    pub taproot: bool,
    /// CSV (BIP112) activation state
    pub csv: bool,
    /// CLTV (BIP65) activation state
    pub cltv: bool,
    /// RBF (BIP125) activation state (mempool policy)
    pub rbf: bool,
    /// CTV (BIP119) activation state
    pub ctv: bool,
    /// Block height at which this context is valid
    pub height: u64,
    /// Timestamp at which this context is valid
    pub timestamp: u64,
}

/// The snapshot of a registry's tracked features at (height, timestamp).
pub open spec fn context_of(registry: FeatureRegistryView, height: u64, timestamp: u64) -> FeatureContext {
    let fs = registry.features;
    FeatureContext {
        segwit: feature_active(fs, "segwit"@, height, timestamp),
        taproot: feature_active(fs, "taproot"@, height, timestamp),
        csv: feature_active(fs, "csv"@, height, timestamp),
        cltv: feature_active(fs, "cltv"@, height, timestamp),
        rbf: feature_active(fs, "rbf"@, height, timestamp),
        ctv: feature_active(fs, "ctv"@, height, timestamp),
        height,
        timestamp,
    }
}

/// The flag a context holds for a feature name; false for a name that is
/// not tracked.
pub open spec fn context_flag(ctx: FeatureContext, name: Seq<char>) -> bool {
    if name == "segwit"@ {
        ctx.segwit
    } else if name == "taproot"@ {
        ctx.taproot
    } else if name == "csv"@ {
        ctx.csv
    } else if name == "cltv"@ {
        ctx.cltv
    } else if name == "rbf"@ {
        ctx.rbf
    } else if name == "ctv"@ {
        ctx.ctv
    } else {
        false
    }
}

/// `name` as a one-element list when `flag` holds, else the empty list.
pub open spec fn listed_if(flag: bool, name: Seq<char>) -> Seq<Seq<char>> {
    if flag {
        seq![name]
    } else {
        Seq::empty()
    }
}

/// The names of the active features of a context, in the order segwit,
/// taproot, csv, cltv, rbf, ctv.
pub open spec fn active_names(ctx: FeatureContext) -> Seq<Seq<char>> {
    listed_if(ctx.segwit, "segwit"@) + listed_if(ctx.taproot, "taproot"@) + listed_if(ctx.csv, "csv"@)
        + listed_if(ctx.cltv, "cltv"@) + listed_if(ctx.rbf, "rbf"@) + listed_if(ctx.ctv, "ctv"@)
}

impl FeatureContext {
    /// Create a new feature context from a feature registry.
    pub fn from_registry(registry: &FeatureRegistry, height: u64, timestamp: u64) -> (r: Self)
        ensures
            r == context_of(registry@, height, timestamp),
    {
        registry.create_context(height, timestamp)
    }

    /// Check if a specific feature is active.
    pub fn is_active(&self, feature: &str) -> (r: bool)
        ensures
            r == context_flag(*self, feature@),
    {
        if same_text(feature, "segwit") {
            self.segwit
        } else if same_text(feature, "taproot") {
            self.taproot
        } else if same_text(feature, "csv") {
            self.csv
        } else if same_text(feature, "cltv") {
            self.cltv
        } else if same_text(feature, "rbf") {
            self.rbf
        } else if same_text(feature, "ctv") {
            self.ctv
        } else {
            false
        }
    }

    /// The names of all active features.
    pub fn active_features(&self) -> (r: Vec<&'static str>)
        ensures
            r@.map_values(|s: &str| s@) == active_names(*self),
    {
        let mut features: Vec<&'static str> = Vec::new();
        let ghost mut names: Seq<Seq<char>> = Seq::empty();
        if self.segwit {
            features.push("segwit");
        }
        proof { names = names + listed_if(self.segwit, "segwit"@); }
        assert(features@.map_values(|s: &str| s@) =~= names);
        if self.taproot {
            features.push("taproot");
        }
        proof { names = names + listed_if(self.taproot, "taproot"@); }
        assert(features@.map_values(|s: &str| s@) =~= names);
        if self.csv {
            features.push("csv");
        }
        proof { names = names + listed_if(self.csv, "csv"@); }
        assert(features@.map_values(|s: &str| s@) =~= names);
        if self.cltv {
            features.push("cltv");
        }
        proof { names = names + listed_if(self.cltv, "cltv"@); }
        assert(features@.map_values(|s: &str| s@) =~= names);
        if self.rbf {
            features.push("rbf");
        }
        proof { names = names + listed_if(self.rbf, "rbf"@); }
        assert(features@.map_values(|s: &str| s@) =~= names);
        if self.ctv {
            features.push("ctv");
        }
        proof { names = names + listed_if(self.ctv, "ctv"@); }
        assert(features@.map_values(|s: &str| s@) =~= names);
        features
    }
}

/// A dual-condition feature with activation height `h` and timestamp `t` is
/// active at (h, 0), at (0, t) and at (h, t), and inactive at (h - 1, t - 1).
pub proof fn lemma_dual_condition_activation(f: FeatureActivationView, h: u64, t: u64)
    requires
        f.activation_method == ActivationMethod::BIP9,
        f.activation_height == Some(h),
        f.activation_timestamp == Some(t),
        h > 0,
        t > 0,
    ensures
        activation_holds(f, h, 0),
        activation_holds(f, 0, t),
        !activation_holds(f, (h - 1) as u64, (t - 1) as u64),
        activation_holds(f, h, t),
{
}

/// A name that is not registered is never active, at any height and
/// timestamp.
pub proof fn lemma_unregistered_inactive(
    features: Seq<FeatureActivationView>,
    name: Seq<char>,
    height: u64,
    timestamp: u64,
)
    requires
        !registered(features, name),
    ensures
        !feature_active(features, name, height, timestamp),
{
    assert forall|i: int| !#[trigger] first_match(features, name, i) by {
        if first_match(features, name, i) {
            assert(features[i].feature_name == name);
        }
    }
}

/// At height 0 and the genesis timestamp, the regression-test registry has
/// every tracked feature active, while the production registry has only
/// rbf, csv and cltv active.
pub proof fn lemma_genesis_contexts()
    ensures
        ({
            let ctx = context_of(registry_table(ProtocolVersion::Regtest), 0, 1231006505);
            ctx.segwit && ctx.taproot && ctx.csv && ctx.cltv && ctx.rbf && ctx.ctv
        }),
        ({
            let ctx = context_of(registry_table(ProtocolVersion::BitcoinV1), 0, 1231006505);
            ctx.rbf && ctx.csv && ctx.cltv && !ctx.segwit && !ctx.taproot
        }),
{
    reveal_strlit("segwit");
    reveal_strlit("taproot");
    reveal_strlit("rbf");
    reveal_strlit("ctv");
    reveal_strlit("csv");
    reveal_strlit("cltv");
    reveal_strlit("fast_mining");
    let t: u64 = 1231006505;
    assert("segwit"@.len() == 6 && "taproot"@.len() == 7 && "cltv"@.len() == 4);
    assert("rbf"@[0] == 'r' && "ctv"@[0] == 'c' && "csv"@[1] == 's' && "ctv"@[1] == 't');
    let reg = registry_table(ProtocolVersion::Regtest).features;
    assert(first_match(reg, "segwit"@, 0));
    assert(first_match(reg, "taproot"@, 1));
    assert(first_match(reg, "rbf"@, 2));
    assert(first_match(reg, "csv"@, 3));
    assert(first_match(reg, "cltv"@, 4));
    assert(first_match(reg, "ctv"@, 5));
    let main = registry_table(ProtocolVersion::BitcoinV1).features;
    assert(first_match(main, "segwit"@, 0));
    assert(first_match(main, "taproot"@, 1));
    assert(first_match(main, "rbf"@, 2));
    assert(first_match(main, "csv"@, 4));
    assert(first_match(main, "cltv"@, 5));
    lemma_first_match_unique(main, "segwit"@, 0);
    lemma_first_match_unique(main, "taproot"@, 1);
}

} // verus!
