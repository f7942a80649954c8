//! Protocol-layer validation: per-variant policy limits layered on top of,
//! and independent from, consensus validity.

use std::collections::HashMap;

use vstd::prelude::*;

use crate::chain::{
    block_size, calculate_block_size, calculate_transaction_size, clamped, transaction_size, Block,
    Transaction, ValidationResult,
};
use crate::{
    network_table, same_text, BitcoinProtocolEngine, NetworkParameters, ProtocolError,
    ProtocolVersion,
};

verus! {

/// Fixed safety ceiling on the number of transactions in a block.
pub const MAX_BLOCK_TRANSACTIONS: usize = 10000;

/// Protocol-specific validation rules.
#[derive(Debug, Clone, Copy, PartialEq, Eq, Structural)]
pub struct ProtocolValidationRules {
    /// Maximum block size for this protocol
    pub max_block_size: u32,
    /// Maximum transaction size for this protocol
    pub max_tx_size: u32,
    /// Maximum script size for this protocol
    pub max_script_size: u32,
    /// Whether SegWit is enabled
    pub segwit_enabled: bool,
    /// Whether Taproot is enabled
    pub taproot_enabled: bool,
    /// Whether RBF (Replace-By-Fee) is enabled
    pub rbf_enabled: bool,
    /// Minimum transaction fee rate
    pub min_fee_rate: u64,
    /// Maximum transaction fee rate
    pub max_fee_rate: u64,
}

/// The validation rules of each variant: the same limits everywhere, and no
/// minimum fee rate on regtest.
pub open spec fn rules_table(version: ProtocolVersion) -> ProtocolValidationRules {
    ProtocolValidationRules {
        max_block_size: 4_000_000,
        max_tx_size: 1_000_000,
        max_script_size: 10_000,
        segwit_enabled: true,
        taproot_enabled: true,
        rbf_enabled: true,
        min_fee_rate: match version {
            ProtocolVersion::Regtest => 0,
            _ => 1,
        },
        max_fee_rate: 1_000_000,
    }
}

impl ProtocolValidationRules {
    /// Get validation rules for a specific protocol version.
    pub fn for_protocol(version: ProtocolVersion) -> (r: Self)
        ensures
            r == rules_table(version),
    {
        match version {
            ProtocolVersion::BitcoinV1 => Self::mainnet(),
            ProtocolVersion::Testnet3 => Self::testnet(),
            ProtocolVersion::Regtest => Self::regtest(),
        }
    }

    /// Mainnet validation rules (strict production rules).
    pub fn mainnet() -> (r: Self)
        ensures
            r == rules_table(ProtocolVersion::BitcoinV1),
    {
        Self {
            max_block_size: 4_000_000,
            max_tx_size: 1_000_000,
            max_script_size: 10_000,
            segwit_enabled: true,
            taproot_enabled: true,
            rbf_enabled: true,
            min_fee_rate: 1,
            max_fee_rate: 1_000_000,
        }
    }

    /// Testnet validation rules (same as mainnet).
    pub fn testnet() -> (r: Self)
        ensures
            r == rules_table(ProtocolVersion::Testnet3),
    {
        Self {
            max_block_size: 4_000_000,
            max_tx_size: 1_000_000,
            max_script_size: 10_000,
            segwit_enabled: true,
            taproot_enabled: true,
            rbf_enabled: true,
            min_fee_rate: 1,
            max_fee_rate: 1_000_000,
        }
    }

    /// Regtest validation rules (no minimum fee).
    pub fn regtest() -> (r: Self)
        ensures
            r == rules_table(ProtocolVersion::Regtest),
    {
        Self {
            max_block_size: 4_000_000,
            max_tx_size: 1_000_000,
            max_script_size: 10_000,
            segwit_enabled: true,
            taproot_enabled: true,
            rbf_enabled: true,
            min_fee_rate: 0,
            max_fee_rate: 1_000_000,
        }
    }
}

/// Protocol-specific validation context for one block height.
#[derive(Debug, Clone, PartialEq)]
pub struct ProtocolValidationContext {
    /// Current block height
    pub block_height: u64,
    /// Current network parameters
    pub network_params: NetworkParameters,
    /// Protocol validation rules
    pub validation_rules: ProtocolValidationRules,
    /// Additional context data
    pub context_data: HashMap<String, String>,
}

/// The flag a context gives a feature name: the variant's static toggle for
/// segwit, taproot and rbf, false for any other name.
pub open spec fn rule_enables(rules: ProtocolValidationRules, feature: Seq<char>) -> bool {
    if feature == "segwit"@ {
        rules.segwit_enabled
    } else if feature == "taproot"@ {
        rules.taproot_enabled
    } else if feature == "rbf"@ {
        rules.rbf_enabled
    } else {
        false
    }
}

/// The size limit a context gives a component name; 0 for an unknown one.
pub open spec fn rule_max_size(rules: ProtocolValidationRules, component: Seq<char>) -> u32 {
    if component == "block"@ {
        rules.max_block_size
    } else if component == "transaction"@ {
        rules.max_tx_size
    } else if component == "script"@ {
        rules.max_script_size
    } else {
        0
    }
}

impl ProtocolValidationContext {
    /// Create the validation context of a protocol version at a height.
    pub fn new(version: ProtocolVersion, block_height: u64) -> (r: Result<Self, ProtocolError>)
        ensures
            r matches Ok(c) && c.block_height == block_height && c.network_params@
                == network_table(version) && c.validation_rules == rules_table(version)
                && c.context_data@ == Map::<String, String>::empty(),
    {
        let network_params = NetworkParameters::for_version(version)?;
        let validation_rules = ProtocolValidationRules::for_protocol(version);
        Ok(Self { block_height, network_params, validation_rules, context_data: HashMap::new() })
    }

    /// Check if a feature is enabled by this variant's rules.
    pub fn is_feature_enabled(&self, feature: &str) -> (r: bool)
        ensures
            r == rule_enables(self.validation_rules, feature@),
    {
        if same_text(feature, "segwit") {
            self.validation_rules.segwit_enabled
        } else if same_text(feature, "taproot") {
            self.validation_rules.taproot_enabled
        } else if same_text(feature, "rbf") {
            self.validation_rules.rbf_enabled
        } else {
            false
        }
    }

    /// Get the maximum allowed size of a component.
    pub fn get_max_size(&self, component: &str) -> (r: u32)
        ensures
            r == rule_max_size(self.validation_rules, component@),
    {
        if same_text(component, "block") {
            self.validation_rules.max_block_size
        } else if same_text(component, "transaction") {
            self.validation_rules.max_tx_size
        } else if same_text(component, "script") {
            self.validation_rules.max_script_size
        } else {
            0
        }
    }
}

/// Some unlocking or locking script of `tx` is longer than `max`.
pub open spec fn has_oversized_script(tx: Transaction, max: u32) -> bool {
    ||| exists|i: int|
        0 <= i < tx.inputs@.len() && #[trigger] tx.inputs@[i].script_sig@.len() > max
    ||| exists|i: int|
        0 <= i < tx.outputs@.len() && #[trigger] tx.outputs@[i].script_pubkey@.len() > max
}

/// The protocol-layer violation of a transaction, if any: its size is
/// checked first, then its scripts.
pub open spec fn transaction_violation(tx: Transaction, rules: ProtocolValidationRules) -> Option<
    ProtocolError,
> {
    if transaction_size(tx) > rules.max_tx_size {
        Some(ProtocolError::TransactionTooLarge)
    } else if has_oversized_script(tx, rules.max_script_size) {
        Some(ProtocolError::ScriptTooLarge)
    } else {
        None
    }
}

/// The violation of the first transaction of `txs` that has one.
pub open spec fn first_transaction_violation(
    txs: Seq<Transaction>,
    rules: ProtocolValidationRules,
) -> Option<ProtocolError>
    decreases txs.len(),
{
    if txs.len() == 0 {
        None
    } else {
        match transaction_violation(txs[0], rules) {
            Some(e) => Some(e),
            None => first_transaction_violation(txs.drop_first(), rules),
        }
    }
}

/// The protocol-layer violation of a block, if any: its size, then its
/// transaction count, then its transactions in order.
pub open spec fn block_violation(block: Block, rules: ProtocolValidationRules) -> Option<
    ProtocolError,
> {
    if block_size(block) > rules.max_block_size {
        Some(ProtocolError::BlockTooLarge)
    } else if block.transactions@.len() > MAX_BLOCK_TRANSACTIONS {
        Some(ProtocolError::TooManyTransactions)
    } else {
        first_transaction_violation(block.transactions@, rules)
    }
}

/// A violation as the error of a check.
pub open spec fn as_check(violation: Option<ProtocolError>) -> Result<(), ProtocolError> {
    match violation {
        Some(e) => Err(e),
        None => Ok(()),
    }
}

/// Whether some unlocking script of `tx` is longer than `max`.
fn oversized_input_script(tx: &Transaction, max: u32) -> (r: bool)
    ensures
        r == exists|i: int|
            0 <= i < tx.inputs@.len() && #[trigger] tx.inputs@[i].script_sig@.len() > max,
{
    let mut i: usize = 0;
    while i < tx.inputs.len()
        invariant
            i <= tx.inputs@.len(),
            forall|k: int| 0 <= k < i ==> #[trigger] tx.inputs@[k].script_sig@.len() <= max,
        decreases tx.inputs@.len() - i,
    {
        if tx.inputs[i].script_sig.len() > max as usize {
            return true;
        }
        i = i + 1;
    }
    false
}

/// Whether some locking script of `tx` is longer than `max`.
fn oversized_output_script(tx: &Transaction, max: u32) -> (r: bool)
    ensures
        r == exists|i: int|
            0 <= i < tx.outputs@.len() && #[trigger] tx.outputs@[i].script_pubkey@.len() > max,
{
    let mut i: usize = 0;
    while i < tx.outputs.len()
        invariant
            i <= tx.outputs@.len(),
            forall|k: int| 0 <= k < i ==> #[trigger] tx.outputs@[k].script_pubkey@.len() <= max,
        decreases tx.outputs@.len() - i,
    {
        if tx.outputs[i].script_pubkey.len() > max as usize {
            return true;
        }
        i = i + 1;
    }
    false
}

impl BitcoinProtocolEngine {
    /// Protocol-layer checks of a transaction: its estimated size, then
    /// every unlocking and locking script length.
    pub fn apply_transaction_protocol_validation(
        &self,
        tx: &Transaction,
        context: &ProtocolValidationContext,
    ) -> (r: Result<(), ProtocolError>)
        ensures
            r == as_check(transaction_violation(*tx, context.validation_rules)),
    {
        let rules = &context.validation_rules;
        let tx_size = calculate_transaction_size(tx);
        if tx_size > rules.max_tx_size as u64 {
            return Err(ProtocolError::TransactionTooLarge);
        }
        if oversized_input_script(tx, rules.max_script_size) {
            return Err(ProtocolError::ScriptTooLarge);
        }
        if oversized_output_script(tx, rules.max_script_size) {
            return Err(ProtocolError::ScriptTooLarge);
        }
        Ok(())
    }

    /// Protocol-layer checks of a block: its estimated size, its
    /// transaction count, then each transaction in order.
    pub fn apply_protocol_validation(&self, block: &Block, context: &ProtocolValidationContext) -> (r:
        Result<(), ProtocolError>)
        ensures
            r == as_check(block_violation(*block, context.validation_rules)),
    {
        let block_size = calculate_block_size(block);
        if block_size > context.validation_rules.max_block_size as u64 {
            return Err(ProtocolError::BlockTooLarge);
        }
        let txs = &block.transactions;
        if txs.len() > MAX_BLOCK_TRANSACTIONS {
            return Err(ProtocolError::TooManyTransactions);
        }
        let mut i: usize = 0;
        assert(txs@.subrange(0, txs@.len() as int) =~= txs@);
        while i < txs.len()
            invariant
                i <= txs@.len(),
                txs@ == block.transactions@,
                block_violation(*block, context.validation_rules)
                    == first_transaction_violation(txs@, context.validation_rules),
                first_transaction_violation(txs@, context.validation_rules)
                    == first_transaction_violation(
                    txs@.subrange(i as int, txs@.len() as int),
                    context.validation_rules,
                ),
            decreases txs@.len() - i,
        {
            let ghost rest = txs@.subrange(i as int, txs@.len() as int);
            assert(rest.drop_first() =~= txs@.subrange(i + 1, txs@.len() as int));
            assert(rest[0] == txs@[i as int]);
            match self.apply_transaction_protocol_validation(&txs[i], context) {
                Err(e) => {
                    return Err(e);
                },
                Ok(()) => {},
            }
            i = i + 1;
        }
        assert(txs@.subrange(i as int, txs@.len() as int) =~= Seq::<Transaction>::empty());
        Ok(())
    }

    /// Validate a block with protocol-specific rules, given the verdict of
    /// consensus validation: a protocol violation is an error, otherwise the
    /// consensus verdict is returned unchanged.
    pub fn validate_block_with_protocol(
        &self,
        block: &Block,
        consensus_result: ValidationResult,
        context: &ProtocolValidationContext,
    ) -> (r: Result<ValidationResult, ProtocolError>)
        ensures
            r == match block_violation(*block, context.validation_rules) {
                Some(e) => Err(e),
                None => Ok(consensus_result),
            },
    {
        self.apply_protocol_validation(block, context)?;
        Ok(consensus_result)
    }

    /// Validate a transaction with protocol-specific rules, given the
    /// verdict of consensus validation.
    pub fn validate_transaction_with_protocol(
        &self,
        tx: &Transaction,
        consensus_result: ValidationResult,
        context: &ProtocolValidationContext,
    ) -> (r: Result<ValidationResult, ProtocolError>)
        ensures
            r == match transaction_violation(*tx, context.validation_rules) {
                Some(e) => Err(e),
                None => Ok(consensus_result),
            },
    {
        self.apply_transaction_protocol_validation(tx, context)?;
        Ok(consensus_result)
    }
}

} // verus!
