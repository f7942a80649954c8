use protocol_engine::chain::{
    Block, BlockHeader, Hash256, OutPoint, Transaction, TransactionInput, TransactionOutput, UtxoSet,
    ValidationResult,
};
use protocol_engine::network::{
    finish_block_message, finish_transaction_message, inventory_request, mempool_messages,
    process_network_message, reply_for_object, AddrMessage, ChainObject, ChainStateAccess,
    FeeFilterMessage, GetDataMessage, GetHeadersMessage, HeadersMessage, InvMessage,
    InventoryVector, NetworkAddress, NetworkMessage, NetworkResponse, PeerState, PingMessage,
    PongMessage, ProcessOutcome, VersionMessage,
};
use protocol_engine::validation::ProtocolValidationContext;
use protocol_engine::{BitcoinProtocolEngine, ProtocolError, ProtocolVersion};

struct MockChain {
    objects: Vec<(Hash256, ChainObject)>,
    mempool: Vec<Transaction>,
    headers: Vec<BlockHeader>,
}

impl ChainStateAccess for MockChain {
    fn holds(&self, hash: Hash256) -> bool {
        self.has_object(&hash)
    }

    fn object_at(&self, hash: Hash256) -> Option<ChainObject> {
        self.get_object(&hash)
    }

    fn headers_for(&self, _locator: vstd::seq::Seq<Hash256>, _stop: Hash256) -> Vec<BlockHeader> {
        self.headers.clone()
    }

    fn mempool(&self) -> Vec<Transaction> {
        self.mempool.clone()
    }

    fn has_object(&self, hash: &Hash256) -> bool {
        self.objects.iter().any(|(h, _)| h == hash)
    }

    fn get_object(&self, hash: &Hash256) -> Option<ChainObject> {
        self.objects.iter().find(|(h, _)| h == hash).map(|(_, o)| o.clone())
    }

    fn get_headers_for_locator(&self, _locator: &[Hash256], _stop: &Hash256) -> Vec<BlockHeader> {
        self.headers.clone()
    }

    fn get_mempool_transactions(&self) -> Vec<Transaction> {
        self.mempool.clone()
    }
}

/// No chain access.
const NO_CHAIN: Option<&MockChain> = None;

fn engine() -> BitcoinProtocolEngine {
    BitcoinProtocolEngine::new(ProtocolVersion::BitcoinV1).unwrap()
}

fn header() -> BlockHeader {
    BlockHeader {
        version: 1,
        prev_block_hash: [0u8; 32],
        merkle_root: [0u8; 32],
        timestamp: 1231006505,
        bits: 0x1d00ffff,
        nonce: 0,
    }
}

fn small_tx(marker: u8) -> Transaction {
    Transaction {
        version: 1,
        inputs: vec![TransactionInput {
            prevout: OutPoint { hash: [marker; 32], index: 0 },
            script_sig: vec![0x41, 0x04],
            sequence: 0xffffffff,
        }],
        outputs: vec![TransactionOutput { value: 50_0000_0000, script_pubkey: vec![0x76, 0xa9] }],
        lock_time: 0,
    }
}

fn empty_tx() -> Transaction {
    Transaction { version: 1, inputs: vec![], outputs: vec![], lock_time: 0 }
}

fn address(n: u8) -> NetworkAddress {
    NetworkAddress { services: 1, ip: [n; 16], port: 8333 }
}

fn chain_with(objects: Vec<(Hash256, ChainObject)>) -> MockChain {
    MockChain { objects, mempool: vec![], headers: vec![] }
}

fn respond(outcome: ProcessOutcome) -> NetworkResponse {
    match outcome {
        ProcessOutcome::Respond(r) => r,
        other => panic!("expected a response, got {:?}", other),
    }
}

fn reject_reason(r: &NetworkResponse) -> String {
    match r {
        NetworkResponse::Reject(s) => s.clone(),
        other => panic!("expected a reject, got {:?}", other),
    }
}

#[test]
fn inv_requests_only_unknown_items() {
    let chain = chain_with(vec![([1u8; 32], ChainObject::Transaction(small_tx(1)))]);
    let items = vec![
        InventoryVector { inv_type: 1, hash: [1u8; 32] },
        InventoryVector { inv_type: 1, hash: [2u8; 32] },
        InventoryVector { inv_type: 2, hash: [3u8; 32] },
    ];
    let msg = NetworkMessage::Inv(InvMessage { inventory: items.clone() });
    let mut peer = PeerState::new();
    let r = respond(process_network_message(
        &engine(),
        &msg,
        &mut peer,
        Some(&chain),
        None,
        None,
    ));
    assert_eq!(
        r,
        NetworkResponse::SendMessage(NetworkMessage::GetData(GetDataMessage {
            inventory: vec![items[1], items[2]],
        }))
    );
}

#[test]
fn inv_all_known_or_without_chain_is_accepted() {
    let chain = chain_with(vec![([1u8; 32], ChainObject::Transaction(small_tx(1)))]);
    let msg = NetworkMessage::Inv(InvMessage {
        inventory: vec![InventoryVector { inv_type: 1, hash: [1u8; 32] }],
    });
    let mut peer = PeerState::new();
    let with_chain = process_network_message(
        &engine(),
        &msg,
        &mut peer,
        Some(&chain),
        None,
        None,
    );
    assert_eq!(respond(with_chain), NetworkResponse::Accepted);
    let without = process_network_message(&engine(), &msg, &mut peer, NO_CHAIN, None, None);
    assert_eq!(respond(without), NetworkResponse::Accepted);
}

#[test]
fn inv_over_limit_is_rejected() {
    let items = vec![InventoryVector { inv_type: 1, hash: [0u8; 32] }; 50001];
    let msg = NetworkMessage::Inv(InvMessage { inventory: items });
    let mut peer = PeerState::new();
    let r = respond(process_network_message(&engine(), &msg, &mut peer, NO_CHAIN, None, None));
    assert_eq!(reject_reason(&r), "Too many inventory items");
}

#[test]
fn inventory_request_from_answers() {
    let items = vec![
        InventoryVector { inv_type: 1, hash: [1u8; 32] },
        InventoryVector { inv_type: 2, hash: [2u8; 32] },
    ];
    let r = inventory_request(&items, &vec![false, true]);
    assert_eq!(
        r,
        NetworkResponse::SendMessage(NetworkMessage::GetData(GetDataMessage {
            inventory: vec![items[0]],
        }))
    );
    assert_eq!(inventory_request(&items, &vec![true, true]), NetworkResponse::Accepted);
}

#[test]
fn getdata_sends_held_transaction() {
    let tx = small_tx(7);
    let chain = chain_with(vec![([7u8; 32], ChainObject::Transaction(tx.clone()))]);
    let msg = NetworkMessage::GetData(GetDataMessage {
        inventory: vec![InventoryVector { inv_type: 1, hash: [7u8; 32] }],
    });
    let mut peer = PeerState::new();
    let r = respond(process_network_message(
        &engine(),
        &msg,
        &mut peer,
        Some(&chain),
        None,
        None,
    ));
    assert_eq!(r, NetworkResponse::SendMessages(vec![NetworkMessage::Tx(tx)]));
}

#[test]
fn getdata_for_missing_hash_is_accepted() {
    let chain = chain_with(vec![([7u8; 32], ChainObject::Transaction(small_tx(7)))]);
    let msg = NetworkMessage::GetData(GetDataMessage {
        inventory: vec![InventoryVector { inv_type: 1, hash: [8u8; 32] }],
    });
    let mut peer = PeerState::new();
    let r = respond(process_network_message(
        &engine(),
        &msg,
        &mut peer,
        Some(&chain),
        None,
        None,
    ));
    assert_eq!(r, NetworkResponse::Accepted);
}

#[test]
fn getdata_skips_unknown_type_codes_and_kind_mismatches() {
    let block = Block { header: header(), transactions: vec![empty_tx()] };
    let chain = chain_with(vec![
        ([1u8; 32], ChainObject::Block(block.clone())),
        ([2u8; 32], ChainObject::Transaction(small_tx(2))),
    ]);
    let msg = NetworkMessage::GetData(GetDataMessage {
        inventory: vec![
            InventoryVector { inv_type: 1, hash: [1u8; 32] },
            InventoryVector { inv_type: 3, hash: [2u8; 32] },
            InventoryVector { inv_type: 2, hash: [1u8; 32] },
        ],
    });
    let mut peer = PeerState::new();
    let r = respond(process_network_message(
        &engine(),
        &msg,
        &mut peer,
        Some(&chain),
        None,
        None,
    ));
    assert_eq!(r, NetworkResponse::SendMessages(vec![NetworkMessage::Block(block)]));
}

#[test]
fn getdata_over_limit_is_rejected() {
    let items = vec![InventoryVector { inv_type: 1, hash: [0u8; 32] }; 50001];
    let msg = NetworkMessage::GetData(GetDataMessage { inventory: items });
    let mut peer = PeerState::new();
    let r = respond(process_network_message(&engine(), &msg, &mut peer, NO_CHAIN, None, None));
    assert_eq!(reject_reason(&r), "Too many getdata items");
}

#[test]
fn reply_for_object_by_type_code() {
    let tx = small_tx(3);
    let item_tx = InventoryVector { inv_type: 1, hash: [3u8; 32] };
    let item_block = InventoryVector { inv_type: 2, hash: [3u8; 32] };
    assert_eq!(
        reply_for_object(&item_tx, Some(ChainObject::Transaction(tx.clone()))),
        Some(NetworkMessage::Tx(tx.clone()))
    );
    assert_eq!(reply_for_object(&item_block, Some(ChainObject::Transaction(tx))), None);
    assert_eq!(reply_for_object(&item_tx, None), None);
}

#[test]
fn addr_over_limit_is_rejected() {
    let msg = NetworkMessage::Addr(AddrMessage { addresses: vec![address(1); 1001] });
    let mut peer = PeerState::new();
    let r = respond(process_network_message(&engine(), &msg, &mut peer, NO_CHAIN, None, None));
    assert_eq!(reject_reason(&r), "Too many addresses");
    assert!(peer.known_addresses.is_empty());
}

#[test]
fn addr_within_limit_is_stored() {
    let msg = NetworkMessage::Addr(AddrMessage { addresses: vec![address(2); 999] });
    let mut peer = PeerState::new();
    peer.known_addresses.push(address(9));
    let r = respond(process_network_message(&engine(), &msg, &mut peer, NO_CHAIN, None, None));
    assert_eq!(r, NetworkResponse::Accepted);
    assert_eq!(peer.known_addresses.len(), 1000);
    assert_eq!(peer.known_addresses[0], address(9));
    assert_eq!(peer.known_addresses[999], address(2));
    let exact = NetworkMessage::Addr(AddrMessage { addresses: vec![address(3); 1000] });
    let r = respond(process_network_message(&engine(), &exact, &mut peer, NO_CHAIN, None, None));
    assert_eq!(r, NetworkResponse::Accepted);
    assert_eq!(peer.known_addresses.len(), 2000);
}

#[test]
fn ping_is_answered_with_same_nonce() {
    let msg = NetworkMessage::Ping(PingMessage { nonce: 7 });
    let mut peer = PeerState::new();
    let r = respond(process_network_message(&engine(), &msg, &mut peer, NO_CHAIN, None, None));
    assert_eq!(r, NetworkResponse::SendMessage(NetworkMessage::Pong(PongMessage { nonce: 7 })));
}

#[test]
fn pong_matching_nonce_clears_ping_and_records_time() {
    let mut peer = PeerState::new();
    peer.ping_nonce = Some(42);
    let wrong = NetworkMessage::Pong(PongMessage { nonce: 41 });
    let r = respond(process_network_message(&engine(), &wrong, &mut peer, NO_CHAIN, None, None));
    assert_eq!(r, NetworkResponse::Accepted);
    assert_eq!(peer.ping_nonce, Some(42));
    assert!(peer.last_pong.is_none());
    let right = NetworkMessage::Pong(PongMessage { nonce: 42 });
    let r = respond(process_network_message(&engine(), &right, &mut peer, NO_CHAIN, None, None));
    assert_eq!(r, NetworkResponse::Accepted);
    assert_eq!(peer.ping_nonce, None);
    assert!(peer.last_pong.is_some());
}

#[test]
fn block_with_too_many_transactions_is_rejected() {
    let block = Block { header: header(), transactions: vec![empty_tx(); 10001] };
    let msg = NetworkMessage::Block(block);
    let mut peer = PeerState::new();
    let utxos = UtxoSet::new();
    let r = respond(process_network_message(&engine(), &msg, &mut peer, NO_CHAIN, Some(&utxos), Some(5)));
    assert_eq!(reject_reason(&r), "Too many transactions");
}

#[test]
fn block_without_context_is_rejected() {
    let block = Block { header: header(), transactions: vec![empty_tx()] };
    let msg = NetworkMessage::Block(block);
    let mut peer = PeerState::new();
    let utxos = UtxoSet::new();
    let r = respond(process_network_message(&engine(), &msg, &mut peer, NO_CHAIN, None, Some(5)));
    assert_eq!(reject_reason(&r), "missing validation context");
    let r = respond(process_network_message(&engine(), &msg, &mut peer, NO_CHAIN, Some(&utxos), None));
    assert_eq!(reject_reason(&r), "missing validation context");
}

#[test]
fn block_with_context_asks_for_validation() {
    let block = Block { header: header(), transactions: vec![empty_tx()] };
    let msg = NetworkMessage::Block(block.clone());
    let mut peer = PeerState::new();
    let utxos = UtxoSet::new();
    let outcome = process_network_message(&engine(), &msg, &mut peer, NO_CHAIN, Some(&utxos), Some(5));
    let context = match outcome {
        ProcessOutcome::ValidateBlock(c) => c,
        other => panic!("expected a validation request, got {:?}", other),
    };
    assert_eq!(context.block_height, 5);
    assert_eq!(context.validation_rules.max_block_size, 4_000_000);
    let valid = finish_block_message(&engine(), &block, &context, ValidationResult::Valid);
    assert_eq!(valid, NetworkResponse::Accepted);
    let invalid = finish_block_message(
        &engine(),
        &block,
        &context,
        ValidationResult::Invalid("bad merkle root".to_string()),
    );
    assert_eq!(invalid, NetworkResponse::Reject("Invalid block: bad merkle root".to_string()));
}

#[test]
fn tx_message_uses_height_zero_by_default() {
    let tx = small_tx(1);
    let msg = NetworkMessage::Tx(tx.clone());
    let mut peer = PeerState::new();
    let outcome = process_network_message(&engine(), &msg, &mut peer, NO_CHAIN, None, None);
    let context = match outcome {
        ProcessOutcome::ValidateTransaction(c) => c,
        other => panic!("expected a validation request, got {:?}", other),
    };
    assert_eq!(context.block_height, 0);
    let r = finish_transaction_message(
        &engine(),
        &tx,
        &context,
        ValidationResult::Invalid("missing inputs".to_string()),
    );
    assert_eq!(r, NetworkResponse::Reject("Invalid transaction: missing inputs".to_string()));
}

#[test]
fn tx_message_with_oversized_script_is_rejected() {
    let mut tx = small_tx(1);
    tx.outputs[0].script_pubkey = vec![0u8; 10_001];
    let context = ProtocolValidationContext::new(ProtocolVersion::BitcoinV1, 3).unwrap();
    let r = finish_transaction_message(&engine(), &tx, &context, ValidationResult::Valid);
    assert_eq!(r, NetworkResponse::Reject(ProtocolError::ScriptTooLarge.message()));
    assert_eq!(reject_reason(&r), "Script size exceeds maximum");
}

#[test]
fn block_message_over_a_limit_is_rejected_whatever_the_verdict() {
    let block = Block { header: header(), transactions: vec![empty_tx(), small_tx(1)] };
    let mut big = block.clone();
    big.transactions[1].inputs[0].script_sig = vec![0u8; 10_001];
    let context = ProtocolValidationContext::new(ProtocolVersion::BitcoinV1, 3).unwrap();
    let r = finish_block_message(&engine(), &big, &context, ValidationResult::Valid);
    assert_eq!(reject_reason(&r), "Script size exceeds maximum");
    let mut huge = block;
    huge.transactions[1].outputs[0].script_pubkey = vec![0u8; 4_000_000];
    let r = finish_block_message(
        &engine(),
        &huge,
        &context,
        ValidationResult::Invalid("bad".to_string()),
    );
    assert_eq!(reject_reason(&r), "Block size exceeds maximum");
}

#[test]
fn version_handshake() {
    let version = VersionMessage {
        version: 70015,
        services: 9,
        timestamp: 1_600_000_000,
        addr_recv: address(1),
        addr_from: address(2),
        nonce: 5,
        user_agent: "/test:1.0/".to_string(),
        start_height: 700_000,
        relay: true,
    };
    let mut peer = PeerState::new();
    let r = respond(process_network_message(
        &engine(),
        &NetworkMessage::Version(version.clone()),
        &mut peer,
        NO_CHAIN,
        None,
        None,
    ));
    assert_eq!(r, NetworkResponse::SendMessage(NetworkMessage::VerAck));
    assert_eq!(peer.version, 70015);
    assert_eq!(peer.services, 9);
    assert_eq!(peer.user_agent, "/test:1.0/");
    assert_eq!(peer.start_height, 700_000);
    assert!(!peer.handshake_complete);
    let r = respond(process_network_message(&engine(), &NetworkMessage::VerAck, &mut peer, NO_CHAIN, None, None));
    assert_eq!(r, NetworkResponse::Accepted);
    assert!(peer.handshake_complete);
}

#[test]
fn old_version_is_rejected() {
    let version = VersionMessage {
        version: 70000,
        services: 1,
        timestamp: 0,
        addr_recv: address(1),
        addr_from: address(2),
        nonce: 1,
        user_agent: "/old/".to_string(),
        start_height: 1,
        relay: false,
    };
    let mut peer = PeerState::new();
    let r = respond(process_network_message(
        &engine(),
        &NetworkMessage::Version(version),
        &mut peer,
        NO_CHAIN,
        None,
        None,
    ));
    assert_eq!(reject_reason(&r), "Version too old");
    assert_eq!(peer.version, 0);
    assert_eq!(peer.user_agent, "");
}

#[test]
fn getheaders_needs_chain_access() {
    let msg = NetworkMessage::GetHeaders(GetHeadersMessage {
        version: 70015,
        block_locator_hashes: vec![[1u8; 32]],
        hash_stop: [0u8; 32],
    });
    let mut peer = PeerState::new();
    let r = respond(process_network_message(&engine(), &msg, &mut peer, NO_CHAIN, None, None));
    assert_eq!(reject_reason(&r), "chain access not available");
    let chain = MockChain { objects: vec![], mempool: vec![], headers: vec![header()] };
    let r = respond(process_network_message(
        &engine(),
        &msg,
        &mut peer,
        Some(&chain),
        None,
        None,
    ));
    assert_eq!(
        r,
        NetworkResponse::SendMessage(NetworkMessage::Headers(HeadersMessage { headers: vec![header()] }))
    );
}

#[test]
fn headers_limit() {
    let mut peer = PeerState::new();
    let many = NetworkMessage::Headers(HeadersMessage { headers: vec![header(); 2001] });
    let r = respond(process_network_message(&engine(), &many, &mut peer, NO_CHAIN, None, None));
    assert_eq!(reject_reason(&r), "Too many headers");
    let ok = NetworkMessage::Headers(HeadersMessage { headers: vec![header(); 2000] });
    let r = respond(process_network_message(&engine(), &ok, &mut peer, NO_CHAIN, None, None));
    assert_eq!(r, NetworkResponse::Accepted);
}

#[test]
fn mempool_sends_every_transaction_in_order() {
    let chain = MockChain { objects: vec![], mempool: vec![small_tx(1), small_tx(2)], headers: vec![] };
    let mut peer = PeerState::new();
    let r = respond(process_network_message(
        &engine(),
        &NetworkMessage::MemPool,
        &mut peer,
        Some(&chain),
        None,
        None,
    ));
    assert_eq!(
        r,
        NetworkResponse::SendMessages(vec![NetworkMessage::Tx(small_tx(1)), NetworkMessage::Tx(small_tx(2))])
    );
    let empty = chain_with(vec![]);
    let r = respond(process_network_message(
        &engine(),
        &NetworkMessage::MemPool,
        &mut peer,
        Some(&empty),
        None,
        None,
    ));
    assert_eq!(r, NetworkResponse::Accepted);
    let r = respond(process_network_message(&engine(), &NetworkMessage::MemPool, &mut peer, NO_CHAIN, None, None));
    assert_eq!(r, NetworkResponse::Accepted);
}

#[test]
fn mempool_messages_keep_order() {
    let txs = vec![small_tx(3), small_tx(4), small_tx(5)];
    let out = mempool_messages(txs.clone());
    assert_eq!(out, txs.into_iter().map(NetworkMessage::Tx).collect::<Vec<_>>());
}

#[test]
fn feefilter_records_rate() {
    let mut peer = PeerState::new();
    let msg = NetworkMessage::FeeFilter(FeeFilterMessage { feerate: 1234 });
    let r = respond(process_network_message(&engine(), &msg, &mut peer, NO_CHAIN, None, None));
    assert_eq!(r, NetworkResponse::Accepted);
    assert_eq!(peer.min_fee_rate, Some(1234));
}

#[test]
fn chain_object_accessors() {
    let block = Block { header: header(), transactions: vec![] };
    let b = ChainObject::Block(block.clone());
    let t = ChainObject::Transaction(small_tx(1));
    assert_eq!(b.as_block(), Some(&block));
    assert!(b.as_transaction().is_none());
    assert_eq!(t.as_transaction(), Some(&small_tx(1)));
    assert!(t.as_block().is_none());
}

#[test]
fn default_peer_state_is_fresh() {
    let peer = PeerState::default();
    assert_eq!(peer.version, 0);
    assert_eq!(peer.services, 0);
    assert_eq!(peer.user_agent, "");
    assert_eq!(peer.start_height, 0);
    assert!(!peer.handshake_complete);
    assert!(peer.known_addresses.is_empty());
    assert!(peer.ping_nonce.is_none() && peer.last_pong.is_none() && peer.min_fee_rate.is_none());
}
