//! Blocks, transactions and the other chain objects that the protocol
//! layer reads and forwards, with their estimated serialized sizes.

use std::collections::HashMap;

use vstd::prelude::*;

verus! {

/// A 32-byte hash.
pub type Hash256 = [u8; 32];

/// Reference to an output of an earlier transaction.
#[derive(Debug, Clone, Copy, PartialEq, Eq, Hash)]
pub struct OutPoint {
    pub hash: Hash256,
    pub index: u32,
}

/// A transaction input: the output it spends and its unlocking script.
#[derive(Debug, Clone, PartialEq, Eq)]
pub struct TransactionInput {
    pub prevout: OutPoint,
    pub script_sig: Vec<u8>,
    pub sequence: u32,
}

/// A transaction output: a value and its locking script.
#[derive(Debug, Clone, PartialEq, Eq)]
pub struct TransactionOutput {
    pub value: u64,
    pub script_pubkey: Vec<u8>,
}

/// A transaction.
#[derive(Debug, Clone, PartialEq, Eq)]
pub struct Transaction {
    pub version: i32,
    pub inputs: Vec<TransactionInput>,
    pub outputs: Vec<TransactionOutput>,
    pub lock_time: u32,
}

/// A block header (80 bytes on the wire).
#[derive(Debug, Clone, Copy, PartialEq, Eq)]
pub struct BlockHeader {
    pub version: i32,
    pub prev_block_hash: Hash256,
    pub merkle_root: Hash256,
    pub timestamp: u32,
    pub bits: u32,
    pub nonce: u32,
}

/// A block: a header and its transactions.
#[derive(Debug, Clone, PartialEq, Eq)]
pub struct Block {
    pub header: BlockHeader,
    pub transactions: Vec<Transaction>,
}

/// An unspent output: its value, locking script and origin height.
#[derive(Debug, Clone, PartialEq, Eq)]
pub struct UTXO {
    pub value: u64,
    pub script_pubkey: Vec<u8>,
    pub height: u64,
}

/// Unspent outputs keyed by the outpoint that creates them.
pub type UtxoSet = HashMap<OutPoint, UTXO>;

/// The verdict of full consensus validation.
#[derive(Debug, Clone, PartialEq, Eq)]
pub enum ValidationResult {
    Valid,
    Invalid(String),
}

/// Estimated size of an input: 32-byte hash, 4-byte index, the script and
/// a 4-byte sequence.
pub open spec fn input_size(input: TransactionInput) -> nat {
    32 + 4 + input.script_sig@.len() + 4
}

/// Estimated size of an output: 8-byte value and the script.
pub open spec fn output_size(output: TransactionOutput) -> nat {
    8 + output.script_pubkey@.len()
}

/// Sum of the estimated sizes of a list of inputs.
pub open spec fn inputs_size(inputs: Seq<TransactionInput>) -> nat
    decreases inputs.len(),
{
    if inputs.len() == 0 {
        0
    } else {
        inputs_size(inputs.drop_last()) + input_size(inputs.last())
    }
}

/// Sum of the estimated sizes of a list of outputs.
pub open spec fn outputs_size(outputs: Seq<TransactionOutput>) -> nat
    decreases outputs.len(),
{
    if outputs.len() == 0 {
        0
    } else {
        outputs_size(outputs.drop_last()) + output_size(outputs.last())
    }
}

/// Estimated serialized size of a transaction: 4-byte version, 4-byte input
/// count, the inputs, 4-byte output count, the outputs, 4-byte lock time.
pub open spec fn transaction_size(tx: Transaction) -> nat {
    4 + 4 + inputs_size(tx.inputs@) + 4 + outputs_size(tx.outputs@) + 4
}

/// Sum of the estimated sizes of a list of transactions.
pub open spec fn transactions_size(txs: Seq<Transaction>) -> nat
    decreases txs.len(),
{
    if txs.len() == 0 {
        0
    } else {
        transactions_size(txs.drop_last()) + transaction_size(txs.last())
    }
}

/// Estimated serialized size of a block: 80-byte header, 4-byte transaction
/// count and the transactions.
pub open spec fn block_size(block: Block) -> nat {
    80 + 4 + transactions_size(block.transactions@)
}

/// A size as a `u64`, clamped at `u64::MAX`.
pub open spec fn clamped(size: nat) -> u64 {
    if size > u64::MAX {
        u64::MAX
    } else {
        size as u64
    }
}

/// Adding clamped sizes with saturation gives the clamped sum.
proof fn lemma_saturating_clamped(x: nat, y: nat)
    ensures
        clamped(x).saturating_add(clamped(y)) == clamped(x + y),
{
}

/// Adds a non-negative amount to a clamped running total.
fn add_size(total: u64, amount: u64) -> (r: u64)
    ensures
        forall|x: nat, y: nat|
            total == clamped(x) && amount == clamped(y) ==> #[trigger] clamped(x + y) == r,
{
    proof {
        assert forall|x: nat, y: nat|
            total == clamped(x) && amount == clamped(y) implies #[trigger] clamped(x + y)
            == total.saturating_add(amount) by {
            lemma_saturating_clamped(x, y);
        }
    }
    total.saturating_add(amount)
}

/// Estimated size of a transaction, saturating at `u64::MAX`.
pub fn calculate_transaction_size(tx: &Transaction) -> (r: u64)
    ensures
        r == clamped(transaction_size(*tx)),
{
    let mut input_sizes: u64 = 0;
    let mut i: usize = 0;
    while i < tx.inputs.len()
        invariant
            i <= tx.inputs@.len(),
            input_sizes == clamped(inputs_size(tx.inputs@.subrange(0, i as int))),
        decreases tx.inputs@.len() - i,
    {
        let script_len = tx.inputs[i].script_sig.len() as u64;
        let one = add_size(40, script_len);
        let ghost len = tx.inputs@[i as int].script_sig@.len();
        assert(clamped(40) == 40u64 && clamped(len) == script_len);
        assert(one == clamped(40 + len));
        input_sizes = add_size(input_sizes, one);
        assert(tx.inputs@.subrange(0, i + 1).drop_last() =~= tx.inputs@.subrange(0, i as int));
        i = i + 1;
    }
    assert(tx.inputs@.subrange(0, i as int) =~= tx.inputs@);
    let mut output_sizes: u64 = 0;
    let mut j: usize = 0;
    while j < tx.outputs.len()
        invariant
            j <= tx.outputs@.len(),
            output_sizes == clamped(outputs_size(tx.outputs@.subrange(0, j as int))),
        decreases tx.outputs@.len() - j,
    {
        let script_len = tx.outputs[j].script_pubkey.len() as u64;
        let one = add_size(8, script_len);
        let ghost len = tx.outputs@[j as int].script_pubkey@.len();
        assert(clamped(8) == 8u64 && clamped(len) == script_len);
        assert(one == clamped(8 + len));
        output_sizes = add_size(output_sizes, one);
        assert(tx.outputs@.subrange(0, j + 1).drop_last() =~= tx.outputs@.subrange(0, j as int));
        j = j + 1;
    }
    assert(tx.outputs@.subrange(0, j as int) =~= tx.outputs@);
    let total = add_size(8, input_sizes);
    let total = add_size(total, 4);
    let total = add_size(total, output_sizes);
    add_size(total, 4)
}

/// Estimated size of a block, saturating at `u64::MAX`.
pub fn calculate_block_size(block: &Block) -> (r: u64)
    ensures
        r == clamped(block_size(*block)),
{
    let txs = &block.transactions;
    let mut tx_sizes: u64 = 0;
    let mut i: usize = 0;
    while i < txs.len()
        invariant
            i <= txs@.len(),
            tx_sizes == clamped(transactions_size(txs@.subrange(0, i as int))),
        decreases txs@.len() - i,
    {
        let one = calculate_transaction_size(&txs[i]);
        tx_sizes = add_size(tx_sizes, one);
        assert(txs@.subrange(0, i + 1).drop_last() =~= txs@.subrange(0, i as int));
        i = i + 1;
    }
    assert(txs@.subrange(0, i as int) =~= txs@);
    add_size(84, tx_sizes)
}

} // verus!
