//! Peer-to-peer messages and the per-connection message processor.
//!
//! Processing is split in two steps wherever consensus validation is
//! needed: [`process_network_message`] applies the protocol limits and
//! either answers the message or asks for consensus validation of the block
//! or transaction it carries; the caller runs that validation and hands the
//! verdict to [`finish_block_message`] or [`finish_transaction_message`].

use std::time::SystemTime;

use vstd::prelude::*;

use crate::chain::{Block, BlockHeader, Hash256, Transaction, UtxoSet, ValidationResult};
use crate::validation::{
    block_violation, rules_table, transaction_violation, ProtocolValidationContext,
    MAX_BLOCK_TRANSACTIONS,
};
use crate::{error_text, network_table, BitcoinProtocolEngine, ProtocolError};

verus! {

/// The system clock's time type, held opaque in the peer state.
#[verifier::external_type_specification]
#[verifier::external_body]
pub struct ExSystemTime(SystemTime);

/// Relies on `SystemTime::now`: the current system time. Nothing is known
/// of the value.
pub assume_specification[ SystemTime::now ]() -> SystemTime;

/// Lowest protocol version a peer may announce.
pub const MIN_PROTOCOL_VERSION: u32 = 70001;

/// Most addresses one Addr message may carry.
pub const MAX_ADDR_ENTRIES: usize = 1000;

/// Most items one Inv or GetData message may carry.
pub const MAX_INVENTORY_ENTRIES: usize = 50000;

/// Most headers one Headers message may carry.
pub const MAX_HEADERS_ENTRIES: usize = 2000;

/// Inventory type code of a transaction.
pub const INV_TYPE_TX: u32 = 1;

/// Inventory type code of a block.
pub const INV_TYPE_BLOCK: u32 = 2;

/// Peer-to-peer protocol messages.
#[derive(Debug, Clone, PartialEq, Eq)]
pub enum NetworkMessage {
    Version(VersionMessage),
    VerAck,
    Addr(AddrMessage),
    Inv(InvMessage),
    GetData(GetDataMessage),
    GetHeaders(GetHeadersMessage),
    Headers(HeadersMessage),
    Block(Block),
    Tx(Transaction),
    Ping(PingMessage),
    Pong(PongMessage),
    MemPool,
    FeeFilter(FeeFilterMessage),
}

/// Version message for the initial handshake.
#[derive(Debug, Clone, PartialEq, Eq)]
pub struct VersionMessage {
    pub version: u32,
    pub services: u64,
    pub timestamp: i64,
    pub addr_recv: NetworkAddress,
    pub addr_from: NetworkAddress,
    pub nonce: u64,
    pub user_agent: String,
    pub start_height: i32,
    pub relay: bool,
}

/// Address message containing peer addresses.
#[derive(Debug, Clone, PartialEq, Eq)]
pub struct AddrMessage {
    pub addresses: Vec<NetworkAddress>,
}

/// Inventory message listing available objects.
#[derive(Debug, Clone, PartialEq, Eq)]
pub struct InvMessage {
    pub inventory: Vec<InventoryVector>,
}

/// GetData message requesting specific objects.
#[derive(Debug, Clone, PartialEq, Eq)]
pub struct GetDataMessage {
    pub inventory: Vec<InventoryVector>,
}

/// GetHeaders message requesting block headers.
#[derive(Debug, Clone, PartialEq, Eq)]
pub struct GetHeadersMessage {
    pub version: u32,
    pub block_locator_hashes: Vec<Hash256>,
    pub hash_stop: Hash256,
}

/// Headers message containing block headers.
#[derive(Debug, Clone, PartialEq, Eq)]
pub struct HeadersMessage {
    pub headers: Vec<BlockHeader>,
}

/// Ping message for connection keepalive.
#[derive(Debug, Clone, Copy, PartialEq, Eq)]
pub struct PingMessage {
    pub nonce: u64,
}

/// Pong message responding to a ping.
#[derive(Debug, Clone, Copy, PartialEq, Eq)]
pub struct PongMessage {
    pub nonce: u64,
}

/// FeeFilter message setting the minimum fee rate.
#[derive(Debug, Clone, Copy, PartialEq, Eq)]
pub struct FeeFilterMessage {
    pub feerate: u64,
}

/// Network address of a peer.
#[derive(Debug, Clone, Copy, PartialEq, Eq)]
pub struct NetworkAddress {
    pub services: u64,
    pub ip: [u8; 16],
    pub port: u16,
}

/// Inventory vector identifying an object by type code and hash.
#[derive(Debug, Clone, Copy, PartialEq, Eq)]
pub struct InventoryVector {
    pub inv_type: u32,
    pub hash: Hash256,
}

/// Response to a message.
#[derive(Debug, Clone, PartialEq, Eq)]
pub enum NetworkResponse {
    /// Handled, with no reply
    Accepted,
    SendMessage(NetworkMessage),
    SendMessages(Vec<NetworkMessage>),
    Reject(String),
}

/// Per-connection peer state.
#[derive(Debug, Clone)]
pub struct PeerState {
    pub version: u32,
    pub services: u64,
    pub user_agent: String,
    pub start_height: i32,
    pub handshake_complete: bool,
    pub known_addresses: Vec<NetworkAddress>,
    pub ping_nonce: Option<u64>,
    pub last_pong: Option<SystemTime>,
    pub min_fee_rate: Option<u64>,
}

impl PeerState {
    /// The state of a connection that has just begun.
    pub fn new() -> (r: Self)
        ensures
            r.version == 0,
            r.services == 0,
            r.user_agent@ == Seq::<char>::empty(),
            r.start_height == 0,
            !r.handshake_complete,
            r.known_addresses@ == Seq::<NetworkAddress>::empty(),
            r.ping_nonce is None,
            r.last_pong is None,
            r.min_fee_rate is None,
    {
        Self {
            version: 0,
            services: 0,
            user_agent: String::new(),
            start_height: 0,
            handshake_complete: false,
            known_addresses: Vec::new(),
            ping_nonce: None,
            last_pong: None,
            min_fee_rate: None,
        }
    }
}

impl Default for PeerState {
    fn default() -> (r: Self)
        ensures
            r.version == 0,
            r.services == 0,
            r.user_agent@ == Seq::<char>::empty(),
            r.start_height == 0,
            !r.handshake_complete,
            r.known_addresses@ == Seq::<NetworkAddress>::empty(),
            r.ping_nonce is None,
            r.last_pong is None,
            r.min_fee_rate is None,
    {
        Self::new()
    }
}

/// A block or a transaction held by the chain state.
#[derive(Debug, Clone, PartialEq, Eq)]
pub enum ChainObject {
    Block(Block),
    Transaction(Transaction),
}

impl ChainObject {
    /// The block, if this object is one.
    pub fn as_block(&self) -> (r: Option<&Block>)
        ensures
            match self {
                ChainObject::Block(b) => r == Some(b),
                ChainObject::Transaction(_) => r is None,
            },
    {
        match self {
            ChainObject::Block(block) => Some(block),
            _ => None,
        }
    }

    /// The transaction, if this object is one.
    pub fn as_transaction(&self) -> (r: Option<&Transaction>)
        ensures
            match self {
                ChainObject::Transaction(tx) => r == Some(tx),
                ChainObject::Block(_) => r is None,
            },
    {
        match self {
            ChainObject::Transaction(tx) => Some(tx),
            _ => None,
        }
    }
}

/// Read access to chain state, implemented by the node layer so that the
/// protocol layer can answer queries without owning storage. Each query
/// answers as the state it reads: the spec functions name those answers.
pub trait ChainStateAccess {
    /// Whether the state holds an object with this hash.
    spec fn holds(&self, hash: Hash256) -> bool;

    /// The object the state holds under this hash.
    spec fn object_at(&self, hash: Hash256) -> Option<ChainObject>;

    /// The headers the state gives for a locator and stop hash.
    spec fn headers_for(&self, locator: Seq<Hash256>, stop: Hash256) -> Vec<BlockHeader>;

    /// The transactions of the state's mempool.
    spec fn mempool(&self) -> Vec<Transaction>;

    /// Whether an object (block or transaction) with this hash is held.
    fn has_object(&self, hash: &Hash256) -> (r: bool)
        ensures
            r == self.holds(*hash),
    ;

    /// The object (block or transaction) with this hash, if held.
    fn get_object(&self, hash: &Hash256) -> (r: Option<ChainObject>)
        ensures
            r == self.object_at(*hash),
    ;

    /// Headers following the last common block of a block locator, up to
    /// the stop hash.
    fn get_headers_for_locator(&self, locator: &[Hash256], stop: &Hash256) -> (r: Vec<BlockHeader>)
        ensures
            r == self.headers_for(locator@, *stop),
    ;

    /// All transactions of the mempool.
    fn get_mempool_transactions(&self) -> (r: Vec<Transaction>)
        ensures
            r == self.mempool(),
    ;
}

/// What processing a message leads to.
#[derive(Debug, Clone, PartialEq)]
pub enum ProcessOutcome {
    /// The message is handled: send this response.
    Respond(NetworkResponse),
    /// The block of the message must pass consensus validation at the
    /// context's height against the UTXO set; hand the verdict to
    /// [`finish_block_message`] with this context.
    ValidateBlock(ProtocolValidationContext),
    /// The transaction of the message must pass consensus validation; hand
    /// the verdict to [`finish_transaction_message`] with this context.
    ValidateTransaction(ProtocolValidationContext),
}

/// `r` rejects with exactly this reason.
pub open spec fn rejects(r: NetworkResponse, reason: Seq<char>) -> bool {
    r matches NetworkResponse::Reject(s) && s@ == reason
}

/// The items of `items` whose entry in `held` is false, in order.
pub open spec fn unknown_items(items: Seq<InventoryVector>, held: Seq<bool>) -> Seq<InventoryVector>
    decreases items.len(),
{
    if items.len() == 0 {
        Seq::empty()
    } else {
        let rest = unknown_items(items.drop_last(), held);
        if held[items.len() - 1] {
            rest
        } else {
            rest.push(items.last())
        }
    }
}

/// `r` requests exactly `wanted` in one GetData message, or accepts when
/// nothing is wanted.
pub open spec fn requests(r: NetworkResponse, wanted: Seq<InventoryVector>) -> bool {
    if wanted.len() == 0 {
        r == NetworkResponse::Accepted
    } else {
        r matches NetworkResponse::SendMessage(NetworkMessage::GetData(g)) && g.inventory@ == wanted
    }
}

/// The reply to one requested item given what chain state returned for it:
/// a transaction for type code 1, a block for type code 2, nothing for any
/// other code or an object of the other kind.
pub open spec fn object_reply(item: InventoryVector, found: Option<ChainObject>) -> Option<NetworkMessage> {
    match found {
        Some(ChainObject::Transaction(tx)) => if item.inv_type == INV_TYPE_TX {
            Some(NetworkMessage::Tx(tx))
        } else {
            None
        },
        Some(ChainObject::Block(b)) => if item.inv_type == INV_TYPE_BLOCK {
            Some(NetworkMessage::Block(b))
        } else {
            None
        },
        None => None,
    }
}

/// The replies to requested items, in order, skipping items with none;
/// `found[i]` is what chain state returned for `items[i]`.
pub open spec fn object_replies(items: Seq<InventoryVector>, found: Seq<Option<ChainObject>>) -> Seq<
    NetworkMessage,
>
    decreases items.len(),
{
    if items.len() == 0 {
        Seq::empty()
    } else {
        let rest = object_replies(items.drop_last(), found);
        match object_reply(items.last(), found[items.len() - 1]) {
            Some(m) => rest.push(m),
            None => rest,
        }
    }
}

/// `r` sends `messages` as one batch, or accepts when there are none.
pub open spec fn sends_all(r: NetworkResponse, messages: Seq<NetworkMessage>) -> bool {
    if messages.len() == 0 {
        r == NetworkResponse::Accepted
    } else {
        r matches NetworkResponse::SendMessages(v) && v@ == messages
    }
}

/// Transactions as Tx messages.
pub open spec fn tx_messages(txs: Seq<Transaction>) -> Seq<NetworkMessage> {
    txs.map_values(|tx: Transaction| NetworkMessage::Tx(tx))
}

/// A reject response with the given reason.
fn reject(reason: &str) -> (r: NetworkResponse)
    ensures
        rejects(r, reason@),
{
    NetworkResponse::Reject(reason.to_owned())
}

/// The handshake details of two peer states agree.
pub open spec fn same_identity(a: PeerState, b: PeerState) -> bool {
    &&& a.version == b.version
    &&& a.services == b.services
    &&& a.user_agent@ == b.user_agent@
    &&& a.start_height == b.start_height
}

/// The session flags of two peer states agree: handshake completion, the
/// outstanding ping, the last pong and the announced fee rate.
pub open spec fn same_session(a: PeerState, b: PeerState) -> bool {
    &&& a.handshake_complete == b.handshake_complete
    &&& a.ping_nonce == b.ping_nonce
    &&& a.last_pong == b.last_pong
    &&& a.min_fee_rate == b.min_fee_rate
}

/// Handling a version message: too old a version is rejected and leaves
/// the state alone; otherwise the peer's details are recorded and answered
/// with a VerAck.
pub open spec fn version_handled(
    msg: VersionMessage,
    r: NetworkResponse,
    before: PeerState,
    after: PeerState,
) -> bool {
    if msg.version < MIN_PROTOCOL_VERSION {
        rejects(r, "Version too old"@) && after == before
    } else {
        &&& r == NetworkResponse::SendMessage(NetworkMessage::VerAck)
        &&& after.version == msg.version
        &&& after.services == msg.services
        &&& after.user_agent@ == msg.user_agent@
        &&& after.start_height == msg.start_height
        &&& after.known_addresses == before.known_addresses
        &&& same_session(after, before)
    }
}

/// Handling an addr message: more than 1000 addresses are rejected;
/// otherwise they are appended to the known addresses, in order.
pub open spec fn addr_handled(msg: AddrMessage, r: NetworkResponse, before: PeerState, after: PeerState) -> bool {
    if msg.addresses@.len() > MAX_ADDR_ENTRIES {
        rejects(r, "Too many addresses"@) && after == before
    } else {
        &&& r == NetworkResponse::Accepted
        &&& after.known_addresses@ == before.known_addresses@ + msg.addresses@
        &&& same_identity(after, before)
        &&& same_session(after, before)
    }
}

/// Process a version message.
fn process_version_message(version: &VersionMessage, peer_state: &mut PeerState) -> (r:
    NetworkResponse)
    ensures
        version_handled(*version, r, *old(peer_state), *final(peer_state)),
{
    if version.version < MIN_PROTOCOL_VERSION {
        return reject("Version too old");
    }
    peer_state.version = version.version;
    peer_state.services = version.services;
    peer_state.user_agent = version.user_agent.clone();
    peer_state.start_height = version.start_height;
    NetworkResponse::SendMessage(NetworkMessage::VerAck)
}

/// Process an addr message.
fn process_addr_message(addr: &AddrMessage, peer_state: &mut PeerState) -> (r: NetworkResponse)
    ensures
        addr_handled(*addr, r, *old(peer_state), *final(peer_state)),
{
    if addr.addresses.len() > MAX_ADDR_ENTRIES {
        return reject("Too many addresses");
    }
    let n = addr.addresses.len();
    let mut i: usize = 0;
    while i < n
        invariant
            n == addr.addresses@.len(),
            i <= n,
            peer_state.known_addresses@ == old(peer_state).known_addresses@
                + addr.addresses@.subrange(0, i as int),
            same_identity(*peer_state, *old(peer_state)),
            same_session(*peer_state, *old(peer_state)),
        decreases n - i,
    {
        peer_state.known_addresses.push(addr.addresses[i]);
        assert(addr.addresses@.subrange(0, i + 1) =~= addr.addresses@.subrange(0, i as int).push(
            addr.addresses@[i as int],
        ));
        i = i + 1;
    }
    assert(addr.addresses@.subrange(0, n as int) =~= addr.addresses@);
    NetworkResponse::Accepted
}

/// The answer to an inventory announcement given, for each item, whether
/// chain state already holds it: one GetData request for the items not
/// held, or no reply when all are held.
pub fn inventory_request(items: &Vec<InventoryVector>, held: &Vec<bool>) -> (r: NetworkResponse)
    requires
        held@.len() == items@.len(),
    ensures
        requests(r, unknown_items(items@, held@)),
{
    let mut needed: Vec<InventoryVector> = Vec::new();
    let n = items.len();
    let mut i: usize = 0;
    while i < n
        invariant
            n == items@.len(),
            held@.len() == n,
            i <= n,
            needed@ == unknown_items(items@.subrange(0, i as int), held@),
        decreases n - i,
    {
        assert(items@.subrange(0, i + 1).drop_last() =~= items@.subrange(0, i as int));
        if !held[i] {
            needed.push(items[i]);
        }
        i = i + 1;
    }
    assert(items@.subrange(0, n as int) =~= items@);
    if needed.len() == 0 {
        NetworkResponse::Accepted
    } else {
        NetworkResponse::SendMessage(NetworkMessage::GetData(GetDataMessage { inventory: needed }))
    }
}

/// Whether chain state holds each item, in order.
pub open spec fn held_flags<C: ChainStateAccess + ?Sized>(chain: &C, items: Seq<InventoryVector>) -> Seq<bool>
    decreases items.len(),
{
    if items.len() == 0 {
        Seq::empty()
    } else {
        held_flags(chain, items.drop_last()).push(chain.holds(items.last().hash))
    }
}

/// What chain state holds under each item's hash, in order.
pub open spec fn lookups<C: ChainStateAccess + ?Sized>(chain: &C, items: Seq<InventoryVector>) -> Seq<
    Option<ChainObject>,
>
    decreases items.len(),
{
    if items.len() == 0 {
        Seq::empty()
    } else {
        lookups(chain, items.drop_last()).push(chain.object_at(items.last().hash))
    }
}

/// Position by position, `held_flags` is the chain's answer for the item.
proof fn lemma_held_flags<C: ChainStateAccess + ?Sized>(chain: &C, items: Seq<InventoryVector>)
    ensures
        held_flags(chain, items).len() == items.len(),
        forall|k: int|
            0 <= k < items.len() ==> #[trigger] held_flags(chain, items)[k] == chain.holds(
                items[k].hash,
            ),
    decreases items.len(),
{
    if items.len() > 0 {
        lemma_held_flags(chain, items.drop_last());
    }
}

/// Position by position, `lookups` is the chain's answer for the item.
proof fn lemma_lookups<C: ChainStateAccess + ?Sized>(chain: &C, items: Seq<InventoryVector>)
    ensures
        lookups(chain, items).len() == items.len(),
        forall|k: int|
            0 <= k < items.len() ==> #[trigger] lookups(chain, items)[k] == chain.object_at(
                items[k].hash,
            ),
    decreases items.len(),
{
    if items.len() > 0 {
        lemma_lookups(chain, items.drop_last());
    }
}

/// Handling an inv message: more than 50000 items are rejected; without
/// chain access there is no reply; otherwise the items chain state does not
/// hold are requested.
pub open spec fn inv_handled<C: ChainStateAccess + ?Sized>(msg: InvMessage, chain: Option<&C>, r: NetworkResponse) -> bool {
    if msg.inventory@.len() > MAX_INVENTORY_ENTRIES {
        rejects(r, "Too many inventory items"@)
    } else {
        match chain {
            None => r == NetworkResponse::Accepted,
            Some(c) => requests(r, unknown_items(msg.inventory@, held_flags(c, msg.inventory@))),
        }
    }
}

/// Process an inv message: chain state is asked about each item's hash.
fn process_inv_message<C: ChainStateAccess + ?Sized>(inv: &InvMessage, chain_access: Option<&C>) -> (r:
    NetworkResponse)
    ensures
        inv_handled(*inv, chain_access, r),
{
    if inv.inventory.len() > MAX_INVENTORY_ENTRIES {
        return reject("Too many inventory items");
    }
    match chain_access {
        Some(chain) => {
            let mut held: Vec<bool> = Vec::new();
            let n = inv.inventory.len();
            let mut i: usize = 0;
            while i < n
                invariant
                    n == inv.inventory@.len(),
                    i <= n,
                    held@.len() == i,
                    forall|k: int| 0 <= k < i ==> #[trigger] held@[k] == chain.holds(inv.inventory@[k].hash),
                decreases n - i,
            {
                held.push(chain.has_object(&inv.inventory[i].hash));
                i = i + 1;
            }
            proof {
                lemma_held_flags(chain, inv.inventory@);
            }
            assert(held@ =~= held_flags(chain, inv.inventory@));
            inventory_request(&inv.inventory, &held)
        },
        None => NetworkResponse::Accepted,
    }
}

/// Handling a getdata message: more than 50000 items are rejected; without
/// chain access there is no reply; otherwise the replies to the items, given
/// what chain state holds under their hashes, are sent as one batch.
pub open spec fn getdata_handled<C: ChainStateAccess + ?Sized>(
    msg: GetDataMessage,
    chain: Option<&C>,
    r: NetworkResponse,
) -> bool {
    if msg.inventory@.len() > MAX_INVENTORY_ENTRIES {
        rejects(r, "Too many getdata items"@)
    } else {
        match chain {
            None => r == NetworkResponse::Accepted,
            Some(c) => sends_all(r, object_replies(msg.inventory@, lookups(c, msg.inventory@))),
        }
    }
}

/// The reply to one requested item, given what chain state returned for
/// its hash.
pub fn reply_for_object(item: &InventoryVector, found: Option<ChainObject>) -> (r: Option<
    NetworkMessage,
>)
    ensures
        r == object_reply(*item, found),
{
    match found {
        Some(ChainObject::Transaction(tx)) => {
            if item.inv_type == INV_TYPE_TX {
                Some(NetworkMessage::Tx(tx))
            } else {
                None
            }
        },
        Some(ChainObject::Block(block)) => {
            if item.inv_type == INV_TYPE_BLOCK {
                Some(NetworkMessage::Block(block))
            } else {
                None
            }
        },
        None => None,
    }
}

/// Process a getdata message: chain state is asked for each item's hash.
fn process_getdata_message<C: ChainStateAccess + ?Sized>(getdata: &GetDataMessage, chain_access: Option<&C>) -> (r:
    NetworkResponse)
    ensures
        getdata_handled(*getdata, chain_access, r),
{
    if getdata.inventory.len() > MAX_INVENTORY_ENTRIES {
        return reject("Too many getdata items");
    }
    match chain_access {
        Some(chain) => {
            let items = &getdata.inventory;
            let ghost found = lookups(chain, items@);
            proof {
                lemma_lookups(chain, items@);
            }
            let mut responses: Vec<NetworkMessage> = Vec::new();
            let n = items.len();
            let mut i: usize = 0;
            while i < n
                invariant
                    n == items@.len(),
                    i <= n,
                    found.len() == n,
                    forall|k: int| 0 <= k < n ==> #[trigger] found[k] == chain.object_at(items@[k].hash),
                    responses@ == object_replies(items@.subrange(0, i as int), found),
                decreases n - i,
            {
                let object = chain.get_object(&items[i].hash);
                let ghost prefix = items@.subrange(0, i + 1);
                assert(prefix.drop_last() =~= items@.subrange(0, i as int));
                assert(prefix.last() == items@[i as int]);
                assert(found[prefix.len() - 1] == object);
                match reply_for_object(&items[i], object) {
                    Some(message) => responses.push(message),
                    None => {},
                }
                i = i + 1;
            }
            assert(items@.subrange(0, n as int) =~= items@);
            if responses.len() == 0 {
                NetworkResponse::Accepted
            } else {
                NetworkResponse::SendMessages(responses)
            }
        },
        None => NetworkResponse::Accepted,
    }
}

/// Handling a getheaders message: without chain access it is rejected;
/// otherwise the headers chain state gives for the locator and stop hash are
/// sent in one Headers message.
pub open spec fn getheaders_handled<C: ChainStateAccess + ?Sized>(
    msg: GetHeadersMessage,
    chain: Option<&C>,
    r: NetworkResponse,
) -> bool {
    match chain {
        None => rejects(r, "chain access not available"@),
        Some(c) => r matches NetworkResponse::SendMessage(NetworkMessage::Headers(h))
            && h.headers == c.headers_for(msg.block_locator_hashes@, msg.hash_stop),
    }
}

/// Process a getheaders message.
fn process_getheaders_message<C: ChainStateAccess + ?Sized>(
    getheaders: &GetHeadersMessage,
    chain_access: Option<&C>,
) -> (r: NetworkResponse)
    ensures
        getheaders_handled(*getheaders, chain_access, r),
{
    match chain_access {
        Some(chain) => {
            let headers = chain.get_headers_for_locator(
                getheaders.block_locator_hashes.as_slice(),
                &getheaders.hash_stop,
            );
            NetworkResponse::SendMessage(NetworkMessage::Headers(HeadersMessage { headers }))
        },
        None => reject("chain access not available"),
    }
}

/// Handling a headers message: more than 2000 headers are rejected,
/// otherwise it is accepted with no further protocol-layer action.
pub open spec fn headers_handled(msg: HeadersMessage, r: NetworkResponse) -> bool {
    if msg.headers@.len() > MAX_HEADERS_ENTRIES {
        rejects(r, "Too many headers"@)
    } else {
        r == NetworkResponse::Accepted
    }
}

/// Process a headers message.
fn process_headers_message(headers: &HeadersMessage) -> (r: NetworkResponse)
    ensures
        headers_handled(*headers, r),
{
    if headers.headers.len() > MAX_HEADERS_ENTRIES {
        return reject("Too many headers");
    }
    NetworkResponse::Accepted
}

/// Transactions as Tx messages, in order.
pub fn mempool_messages(txs: Vec<Transaction>) -> (r: Vec<NetworkMessage>)
    ensures
        r@ == tx_messages(txs@),
{
    let ghost all = txs@;
    let n = txs.len();
    let mut rest = txs;
    let mut reversed: Vec<Transaction> = Vec::new();
    while rest.len() > 0
        invariant
            n == all.len(),
            rest@ == all.subrange(0, rest@.len() as int),
            reversed@.len() + rest@.len() == n,
            forall|j: int| 0 <= j < reversed@.len() ==> #[trigger] reversed@[j] == all[n - 1 - j],
        decreases rest@.len(),
    {
        let tx = rest.pop().unwrap();
        reversed.push(tx);
    }
    let mut out: Vec<NetworkMessage> = Vec::new();
    while reversed.len() > 0
        invariant
            n == all.len(),
            reversed@.len() + out@.len() == n,
            forall|j: int| 0 <= j < reversed@.len() ==> #[trigger] reversed@[j] == all[n - 1 - j],
            out@ == tx_messages(all.subrange(0, out@.len() as int)),
        decreases reversed@.len(),
    {
        let ghost k: int = out@.len() as int;
        let tx = reversed.pop().unwrap();
        out.push(NetworkMessage::Tx(tx));
        assert(tx_messages(all.subrange(0, k + 1)) =~= tx_messages(all.subrange(0, k)).push(
            NetworkMessage::Tx(all[k]),
        ));
    }
    assert(all.subrange(0, n as int) =~= all);
    out
}

/// Handling a mempool message: without chain access there is no reply;
/// otherwise each mempool transaction of chain state is sent as a Tx
/// message in one batch (no reply when there are none).
pub open spec fn mempool_handled<C: ChainStateAccess + ?Sized>(chain: Option<&C>, r: NetworkResponse) -> bool {
    match chain {
        None => r == NetworkResponse::Accepted,
        Some(c) => sends_all(r, tx_messages(c.mempool()@)),
    }
}

/// Process a mempool message.
fn process_mempool_message<C: ChainStateAccess + ?Sized>(chain_access: Option<&C>) -> (r: NetworkResponse)
    ensures
        mempool_handled(chain_access, r),
{
    match chain_access {
        Some(chain) => {
            let txs = chain.get_mempool_transactions();
            let responses = mempool_messages(txs);
            if responses.len() == 0 {
                NetworkResponse::Accepted
            } else {
                NetworkResponse::SendMessages(responses)
            }
        },
        None => NetworkResponse::Accepted,
    }
}

/// Handling a pong message: a nonce equal to the outstanding ping clears
/// it and records the time of the pong; any other nonce is ignored. There
/// is never a reply.
pub open spec fn pong_handled(msg: PongMessage, r: NetworkResponse, before: PeerState, after: PeerState) -> bool {
    &&& r == NetworkResponse::Accepted
    &&& if before.ping_nonce == Some(msg.nonce) {
        &&& after.ping_nonce is None
        &&& after.last_pong is Some
        &&& same_identity(after, before)
        &&& after.known_addresses == before.known_addresses
        &&& after.handshake_complete == before.handshake_complete
        &&& after.min_fee_rate == before.min_fee_rate
    } else {
        after == before
    }
}

/// Process a pong message.
fn process_pong_message(pong: &PongMessage, peer_state: &mut PeerState) -> (r: NetworkResponse)
    ensures
        pong_handled(*pong, r, *old(peer_state), *final(peer_state)),
{
    match peer_state.ping_nonce {
        Some(nonce) => {
            if nonce == pong.nonce {
                peer_state.ping_nonce = None;
                peer_state.last_pong = Some(SystemTime::now());
            }
        },
        None => {},
    }
    NetworkResponse::Accepted
}

/// The peer state with only the handshake marked complete.
pub open spec fn handshake_completed(before: PeerState, after: PeerState) -> bool {
    &&& after.handshake_complete
    &&& same_identity(after, before)
    &&& after.known_addresses == before.known_addresses
    &&& after.ping_nonce == before.ping_nonce
    &&& after.last_pong == before.last_pong
    &&& after.min_fee_rate == before.min_fee_rate
}

/// The peer state with only the announced minimum fee rate replaced.
pub open spec fn fee_rate_recorded(feerate: u64, before: PeerState, after: PeerState) -> bool {
    &&& after.min_fee_rate == Some(feerate)
    &&& same_identity(after, before)
    &&& after.known_addresses == before.known_addresses
    &&& after.handshake_complete == before.handshake_complete
    &&& after.ping_nonce == before.ping_nonce
    &&& after.last_pong == before.last_pong
}

/// The context of `engine`'s variant at `height`.
pub open spec fn context_for(engine: BitcoinProtocolEngine, height: u64, c: ProtocolValidationContext) -> bool {
    &&& c.block_height == height
    &&& c.network_params@ == network_table(engine.version())
    &&& c.validation_rules == rules_table(engine.version())
    &&& c.context_data@ == Map::<String, String>::empty()
}

/// Handling a block message: more than 10000 transactions are rejected
/// whatever the block's consensus validity; without both a UTXO set and a
/// height it is rejected as missing context; otherwise consensus validation
/// at that height is asked for.
pub open spec fn block_handled(
    engine: BitcoinProtocolEngine,
    block: Block,
    has_utxo_set: bool,
    height: Option<u64>,
    r: ProcessOutcome,
) -> bool {
    if block.transactions@.len() > MAX_BLOCK_TRANSACTIONS {
        r matches ProcessOutcome::Respond(resp) && rejects(resp, "Too many transactions"@)
    } else if !has_utxo_set || height is None {
        r matches ProcessOutcome::Respond(resp) && rejects(resp, "missing validation context"@)
    } else {
        r matches ProcessOutcome::ValidateBlock(c) && context_for(engine, height->0, c)
    }
}

/// Handling a transaction message: consensus validation is asked for, with
/// the context at the given height, or at 0 when none is given.
pub open spec fn tx_handled(engine: BitcoinProtocolEngine, height: Option<u64>, r: ProcessOutcome) -> bool {
    r matches ProcessOutcome::ValidateTransaction(c) && context_for(
        engine,
        match height {
            Some(h) => h,
            None => 0,
        },
        c,
    )
}

/// The response of a message that needs no outside work.
pub open spec fn responds(r: ProcessOutcome, resp: NetworkResponse) -> bool {
    r == ProcessOutcome::Respond(resp)
}

/// Process an incoming network message: apply the protocol limits and
/// update the peer state, and either answer the message or ask for
/// consensus validation of the block or transaction it carries.
pub fn process_network_message<C: ChainStateAccess + ?Sized>(
    engine: &BitcoinProtocolEngine,
    message: &NetworkMessage,
    peer_state: &mut PeerState,
    chain_access: Option<&C>,
    utxo_set: Option<&UtxoSet>,
    height: Option<u64>,
) -> (r: ProcessOutcome)
    ensures
        match *message {
            NetworkMessage::Version(v) => r matches ProcessOutcome::Respond(resp)
                && version_handled(v, resp, *old(peer_state), *final(peer_state)),
            NetworkMessage::VerAck => responds(r, NetworkResponse::Accepted)
                && handshake_completed(*old(peer_state), *final(peer_state)),
            NetworkMessage::Addr(a) => r matches ProcessOutcome::Respond(resp)
                && addr_handled(a, resp, *old(peer_state), *final(peer_state)),
            NetworkMessage::Inv(inv) => r matches ProcessOutcome::Respond(resp)
                && inv_handled(inv, chain_access, resp)
                && *final(peer_state) == *old(peer_state),
            NetworkMessage::GetData(g) => r matches ProcessOutcome::Respond(resp)
                && getdata_handled(g, chain_access, resp)
                && *final(peer_state) == *old(peer_state),
            NetworkMessage::GetHeaders(g) => r matches ProcessOutcome::Respond(resp)
                && getheaders_handled(g, chain_access, resp)
                && *final(peer_state) == *old(peer_state),
            NetworkMessage::Headers(h) => r matches ProcessOutcome::Respond(resp)
                && headers_handled(h, resp) && *final(peer_state) == *old(peer_state),
            NetworkMessage::Block(b) => block_handled(*engine, b, utxo_set is Some, height, r)
                && *final(peer_state) == *old(peer_state),
            NetworkMessage::Tx(_) => tx_handled(*engine, height, r)
                && *final(peer_state) == *old(peer_state),
            NetworkMessage::Ping(p) => responds(
                r,
                NetworkResponse::SendMessage(NetworkMessage::Pong(PongMessage { nonce: p.nonce })),
            ) && *final(peer_state) == *old(peer_state),
            NetworkMessage::Pong(p) => r matches ProcessOutcome::Respond(resp)
                && pong_handled(p, resp, *old(peer_state), *final(peer_state)),
            NetworkMessage::MemPool => r matches ProcessOutcome::Respond(resp)
                && mempool_handled(chain_access, resp)
                && *final(peer_state) == *old(peer_state),
            NetworkMessage::FeeFilter(f) => responds(r, NetworkResponse::Accepted)
                && fee_rate_recorded(f.feerate, *old(peer_state), *final(peer_state)),
        },
{
    match message {
        NetworkMessage::Version(version) => ProcessOutcome::Respond(
            process_version_message(version, peer_state),
        ),
        NetworkMessage::VerAck => {
            peer_state.handshake_complete = true;
            ProcessOutcome::Respond(NetworkResponse::Accepted)
        },
        NetworkMessage::Addr(addr) => ProcessOutcome::Respond(process_addr_message(addr, peer_state)),
        NetworkMessage::Inv(inv) => ProcessOutcome::Respond(process_inv_message(inv, chain_access)),
        NetworkMessage::GetData(getdata) => ProcessOutcome::Respond(
            process_getdata_message(getdata, chain_access),
        ),
        NetworkMessage::GetHeaders(getheaders) => ProcessOutcome::Respond(
            process_getheaders_message(getheaders, chain_access),
        ),
        NetworkMessage::Headers(headers) => ProcessOutcome::Respond(
            process_headers_message(headers),
        ),
        NetworkMessage::Block(block) => {
            if block.transactions.len() > MAX_BLOCK_TRANSACTIONS {
                return ProcessOutcome::Respond(reject("Too many transactions"));
            }
            match (utxo_set, height) {
                (Some(_), Some(h)) => {
                    let context = validation_context(engine, h);
                    ProcessOutcome::ValidateBlock(context)
                },
                _ => ProcessOutcome::Respond(reject("missing validation context")),
            }
        },
        NetworkMessage::Tx(_) => {
            let h = match height {
                Some(h) => h,
                None => 0,
            };
            ProcessOutcome::ValidateTransaction(validation_context(engine, h))
        },
        NetworkMessage::Ping(ping) => ProcessOutcome::Respond(
            NetworkResponse::SendMessage(NetworkMessage::Pong(PongMessage { nonce: ping.nonce })),
        ),
        NetworkMessage::Pong(pong) => ProcessOutcome::Respond(process_pong_message(pong, peer_state)),
        NetworkMessage::MemPool => ProcessOutcome::Respond(process_mempool_message(chain_access)),
        NetworkMessage::FeeFilter(feefilter) => {
            peer_state.min_fee_rate = Some(feefilter.feerate);
            ProcessOutcome::Respond(NetworkResponse::Accepted)
        },
    }
}

/// The validation context of the engine's variant at a height.
fn validation_context(engine: &BitcoinProtocolEngine, height: u64) -> (r: ProtocolValidationContext)
    ensures
        context_for(*engine, height, r),
{
    match ProtocolValidationContext::new(engine.get_protocol_version(), height) {
        Ok(context) => context,
        Err(_) => vstd::pervasive::unreached(),
    }
}

/// The response to a message whose block or transaction passed the
/// protocol checks. A valid object is accepted; an invalid one is rejected
/// with `prefix` followed by the reason.
pub open spec fn verdict_response(
    verdict: ValidationResult,
    prefix: Seq<char>,
    r: NetworkResponse,
) -> bool {
    match verdict {
        ValidationResult::Valid => r == NetworkResponse::Accepted,
        ValidationResult::Invalid(reason) => rejects(r, prefix + reason@),
    }
}

/// A reject response for an invalid object.
fn invalid_response(prefix: &str, reason: String) -> (r: NetworkResponse)
    ensures
        rejects(r, prefix@ + reason@),
{
    NetworkResponse::Reject(prefix.to_owned().concat(reason.as_str()))
}

/// The response to a message, from the protocol-layer violation of its
/// object, if any, and the consensus result. A violation is rejected with
/// its description; otherwise the consensus result decides.
pub open spec fn finished(
    violation: Option<ProtocolError>,
    verdict: ValidationResult,
    prefix: Seq<char>,
    r: NetworkResponse,
) -> bool {
    match violation {
        Some(e) => rejects(r, error_text(e)),
        None => verdict_response(verdict, prefix, r),
    }
}

/// The response to a protocol check's outcome and a consensus verdict.
fn response_for(checked: Result<ValidationResult, ProtocolError>, prefix: &str) -> (r:
    NetworkResponse)
    ensures
        match checked {
            Err(e) => rejects(r, error_text(e)),
            Ok(verdict) => verdict_response(verdict, prefix@, r),
        },
{
    match checked {
        Err(e) => NetworkResponse::Reject(e.message()),
        Ok(ValidationResult::Valid) => NetworkResponse::Accepted,
        Ok(ValidationResult::Invalid(reason)) => invalid_response(prefix, reason),
    }
}

/// Finish a block message with the result of consensus validation. A block
/// over a protocol limit is rejected with the description of the violation;
/// otherwise a valid block is accepted and an invalid one rejected with the
/// reason.
pub fn finish_block_message(
    engine: &BitcoinProtocolEngine,
    block: &Block,
    context: &ProtocolValidationContext,
    consensus_result: ValidationResult,
) -> (r: NetworkResponse)
    ensures
        finished(
            block_violation(*block, context.validation_rules),
            consensus_result,
            "Invalid block: "@,
            r,
        ),
{
    let checked = engine.validate_block_with_protocol(block, consensus_result, context);
    response_for(checked, "Invalid block: ")
}

/// Finish a transaction message with the result of consensus validation,
/// as for blocks.
pub fn finish_transaction_message(
    engine: &BitcoinProtocolEngine,
    tx: &Transaction,
    context: &ProtocolValidationContext,
    consensus_result: ValidationResult,
) -> (r: NetworkResponse)
    ensures
        finished(
            transaction_violation(*tx, context.validation_rules),
            consensus_result,
            "Invalid transaction: "@,
            r,
        ),
{
    let checked = engine.validate_transaction_with_protocol(tx, consensus_result, context);
    response_for(checked, "Invalid transaction: ")
}

} // verus!
