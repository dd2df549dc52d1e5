use vstd::prelude::*;

verus! {

// ---------------------------------------------------------------------------
// Plain value types carried by decoded transactions.
// ---------------------------------------------------------------------------

/// A 20-byte account address.
#[derive(Debug, Clone, PartialEq)]
pub struct Address {
    pub bytes: Vec<u8>,
}

impl Address {
    pub open spec fn wf(&self) -> bool {
        self.bytes@.len() == 20
    }
}

impl View for Address {
    type V = Seq<u8>;

    open spec fn view(&self) -> Seq<u8> {
        self.bytes@
    }
}

/// A 32-byte word, used for transaction hashes and storage keys.
#[derive(Debug, Clone, PartialEq)]
pub struct B256 {
    pub bytes: Vec<u8>,
}

impl B256 {
    pub open spec fn wf(&self) -> bool {
        self.bytes@.len() == 32
    }
}

impl View for B256 {
    type V = Seq<u8>;

    open spec fn view(&self) -> Seq<u8> {
        self.bytes@
    }
}

/// An unsigned 256-bit scalar, kept in canonical big-endian form:
/// at most 32 bytes and no leading zero byte (zero is the empty sequence).
#[derive(Debug, Clone, PartialEq)]
pub struct Uint256 {
    pub bytes: Vec<u8>,
}

impl Uint256 {
    pub open spec fn wf(&self) -> bool {
        &&& self.bytes@.len() <= 32
        &&& self.bytes@.len() > 0 ==> self.bytes@[0] != 0
    }
}

impl View for Uint256 {
    type V = Seq<u8>;

    open spec fn view(&self) -> Seq<u8> {
        self.bytes@
    }
}

/// A transaction's recipient: a call to an address, or contract creation
/// (no address on the wire: an empty byte string).
#[derive(Debug, Clone, PartialEq)]
pub enum TxKind {
    Create,
    Call(Address),
}

/// Ghost counterpart of `TxKind`.
pub enum GTxKind {
    Create,
    Call(Seq<u8>),
}

impl TxKind {
    pub open spec fn wf(&self) -> bool {
        match self {
            TxKind::Create => true,
            TxKind::Call(a) => a.wf(),
        }
    }
}

impl View for TxKind {
    type V = GTxKind;

    open spec fn view(&self) -> GTxKind {
        match self {
            TxKind::Create => GTxKind::Create,
            TxKind::Call(a) => GTxKind::Call(a@),
        }
    }
}

/// One access-list entry: an address and the storage keys it warms.
#[derive(Debug, Clone, PartialEq)]
pub struct AccessListItem {
    pub address: Address,
    pub storage_keys: Vec<B256>,
}

/// Ghost counterpart of `AccessListItem`.
pub struct GAccessItem {
    pub address: Seq<u8>,
    pub storage_keys: Seq<Seq<u8>>,
}

impl AccessListItem {
    pub open spec fn wf(&self) -> bool {
        &&& self.address.wf()
        &&& forall|k: int| 0 <= k < self.storage_keys@.len() ==> (#[trigger] self.storage_keys@[k]).wf()
    }
}

impl View for AccessListItem {
    type V = GAccessItem;

    open spec fn view(&self) -> GAccessItem {
        GAccessItem {
            address: self.address@,
            storage_keys: self.storage_keys@.map_values(|b: B256| b@),
        }
    }
}

/// An EIP-2930 access list.
#[derive(Debug, Clone, PartialEq)]
pub struct AccessList {
    pub items: Vec<AccessListItem>,
}

impl AccessList {
    pub open spec fn wf(&self) -> bool {
        forall|k: int| 0 <= k < self.items@.len() ==> (#[trigger] self.items@[k]).wf()
    }
}

impl View for AccessList {
    type V = Seq<GAccessItem>;

    open spec fn view(&self) -> Seq<GAccessItem> {
        self.items@.map_values(|it: AccessListItem| it@)
    }
}

// ---------------------------------------------------------------------------
// The three recognized transaction encodings.
// ---------------------------------------------------------------------------

/// A legacy (pre-typed-envelope) transaction.
#[derive(Debug, Clone, PartialEq)]
pub struct TxLegacy {
    pub nonce: u64,
    pub gas_price: u128,
    pub gas_limit: u64,
    pub to: TxKind,
    pub value: Uint256,
    pub data: Vec<u8>,
    pub v: u64,
    pub r: Uint256,
    pub s: Uint256,
    pub tx_hash: Option<B256>,
}

/// Ghost counterpart of `TxLegacy`.
pub struct GTxLegacy {
    pub nonce: nat,
    pub gas_price: nat,
    pub gas_limit: nat,
    pub to: GTxKind,
    pub value: Seq<u8>,
    pub data: Seq<u8>,
    pub v: nat,
    pub r: Seq<u8>,
    pub s: Seq<u8>,
    pub tx_hash: Option<Seq<u8>>,
}

impl TxLegacy {
    pub open spec fn wf(&self) -> bool {
        &&& self.to.wf()
        &&& self.value.wf()
        &&& self.r.wf()
        &&& self.s.wf()
        &&& match self.tx_hash {
            Option::Some(h) => h.wf(),
            Option::None => true,
        }
    }
}

impl View for TxLegacy {
    type V = GTxLegacy;

    open spec fn view(&self) -> GTxLegacy {
        GTxLegacy {
            nonce: self.nonce as nat,
            gas_price: self.gas_price as nat,
            gas_limit: self.gas_limit as nat,
            to: self.to@,
            value: self.value@,
            data: self.data@,
            v: self.v as nat,
            r: self.r@,
            s: self.s@,
            tx_hash: match self.tx_hash {
                Option::Some(h) => Option::Some(h@),
                Option::None => Option::None,
            },
        }
    }
}

/// An EIP-2930 (access-list) transaction.
#[derive(Debug, Clone, PartialEq)]
pub struct TxEip2930 {
    pub chain_id: u64,
    pub nonce: u64,
    pub gas_price: u128,
    pub gas: u64,
    pub to: TxKind,
    pub value: Uint256,
    pub data: Vec<u8>,
    pub access_list: AccessList,
    pub v: u64,
    pub r: Uint256,
    pub s: Uint256,
    pub tx_hash: Option<B256>,
}

/// Ghost counterpart of `TxEip2930`.
pub struct GTxEip2930 {
    pub chain_id: nat,
    pub nonce: nat,
    pub gas_price: nat,
    pub gas: nat,
    pub to: GTxKind,
    pub value: Seq<u8>,
    pub data: Seq<u8>,
    pub access_list: Seq<GAccessItem>,
    pub v: nat,
    pub r: Seq<u8>,
    pub s: Seq<u8>,
    pub tx_hash: Option<Seq<u8>>,
}

impl TxEip2930 {
    pub open spec fn wf(&self) -> bool {
        &&& self.to.wf()
        &&& self.value.wf()
        &&& self.access_list.wf()
        &&& self.r.wf()
        &&& self.s.wf()
        &&& match self.tx_hash {
            Option::Some(h) => h.wf(),
            Option::None => true,
        }
    }
}

impl View for TxEip2930 {
    type V = GTxEip2930;

    open spec fn view(&self) -> GTxEip2930 {
        GTxEip2930 {
            chain_id: self.chain_id as nat,
            nonce: self.nonce as nat,
            gas_price: self.gas_price as nat,
            gas: self.gas as nat,
            to: self.to@,
            value: self.value@,
            data: self.data@,
            access_list: self.access_list@,
            v: self.v as nat,
            r: self.r@,
            s: self.s@,
            tx_hash: match self.tx_hash {
                Option::Some(h) => Option::Some(h@),
                Option::None => Option::None,
            },
        }
    }
}

/// An EIP-1559 (dynamic-fee) transaction.
#[derive(Debug, Clone, PartialEq)]
pub struct TxEip1559 {
    pub chain_id: u64,
    pub nonce: u64,
    pub max_priority_fee_per_gas: u128,
    pub max_fee_per_gas: u128,
    pub gas: u64,
    pub to: TxKind,
    pub value: Uint256,
    pub data: Vec<u8>,
    pub access_list: AccessList,
    pub v: u64,
    pub r: Uint256,
    pub s: Uint256,
    pub tx_hash: Option<B256>,
}

/// Ghost counterpart of `TxEip1559`.
pub struct GTxEip1559 {
    pub chain_id: nat,
    pub nonce: nat,
    pub max_priority_fee_per_gas: nat,
    pub max_fee_per_gas: nat,
    pub gas: nat,
    pub to: GTxKind,
    pub value: Seq<u8>,
    pub data: Seq<u8>,
    pub access_list: Seq<GAccessItem>,
    pub v: nat,
    pub r: Seq<u8>,
    pub s: Seq<u8>,
    pub tx_hash: Option<Seq<u8>>,
}

impl TxEip1559 {
    pub open spec fn wf(&self) -> bool {
        &&& self.to.wf()
        &&& self.value.wf()
        &&& self.access_list.wf()
        &&& self.r.wf()
        &&& self.s.wf()
        &&& match self.tx_hash {
            Option::Some(h) => h.wf(),
            Option::None => true,
        }
    }
}

impl View for TxEip1559 {
    type V = GTxEip1559;

    open spec fn view(&self) -> GTxEip1559 {
        GTxEip1559 {
            chain_id: self.chain_id as nat,
            nonce: self.nonce as nat,
            max_priority_fee_per_gas: self.max_priority_fee_per_gas as nat,
            max_fee_per_gas: self.max_fee_per_gas as nat,
            gas: self.gas as nat,
            to: self.to@,
            value: self.value@,
            data: self.data@,
            access_list: self.access_list@,
            v: self.v as nat,
            r: self.r@,
            s: self.s@,
            tx_hash: match self.tx_hash {
                Option::Some(h) => Option::Some(h@),
                Option::None => Option::None,
            },
        }
    }
}

/// The tagged union over the three recognized transaction encodings.
#[derive(Debug, Clone, PartialEq)]
pub enum TypedTransaction {
    Legacy(TxLegacy),
    Eip2930(TxEip2930),
    Eip1559(TxEip1559),
}

/// Ghost counterpart of `TypedTransaction`.
pub enum GTypedTransaction {
    Legacy(GTxLegacy),
    Eip2930(GTxEip2930),
    Eip1559(GTxEip1559),
}

impl TypedTransaction {
    pub open spec fn wf(&self) -> bool {
        match self {
            TypedTransaction::Legacy(t) => t.wf(),
            TypedTransaction::Eip2930(t) => t.wf(),
            TypedTransaction::Eip1559(t) => t.wf(),
        }
    }

    /// True when the decoder has attached a canonical hash.
    pub open spec fn has_hash(&self) -> bool {
        match self {
            TypedTransaction::Legacy(t) => t.tx_hash is Some,
            TypedTransaction::Eip2930(t) => t.tx_hash is Some,
            TypedTransaction::Eip1559(t) => t.tx_hash is Some,
        }
    }
}

impl View for TypedTransaction {
    type V = GTypedTransaction;

    open spec fn view(&self) -> GTypedTransaction {
        match self {
            TypedTransaction::Legacy(t) => GTypedTransaction::Legacy(t@),
            TypedTransaction::Eip2930(t) => GTypedTransaction::Eip2930(t@),
            TypedTransaction::Eip1559(t) => GTypedTransaction::Eip1559(t@),
        }
    }
}

/// A variant-erased projection of a decoded transaction.
#[derive(Debug, Clone, PartialEq)]
pub struct TransactionInfo {
    pub to: TxKind,
    pub value: Uint256,
    pub data: Vec<u8>,
    pub tx_hash: B256,
}

impl TypedTransaction {
    /// Erases the variant, keeping recipient, value, payload data and hash.
    pub fn into_info(self) -> (r: TransactionInfo)
        requires
            self.has_hash(),
        ensures
            r@ == (match self@ {
                GTypedTransaction::Legacy(t) => GTxInfo {
                    to: t.to,
                    value: t.value,
                    data: t.data,
                    tx_hash: t.tx_hash->Some_0,
                },
                GTypedTransaction::Eip2930(t) => GTxInfo {
                    to: t.to,
                    value: t.value,
                    data: t.data,
                    tx_hash: t.tx_hash->Some_0,
                },
                GTypedTransaction::Eip1559(t) => GTxInfo {
                    to: t.to,
                    value: t.value,
                    data: t.data,
                    tx_hash: t.tx_hash->Some_0,
                },
            }),
    {
        match self {
            TypedTransaction::Legacy(t) => {
                let h = match t.tx_hash {
                    Option::Some(h) => h,
                    Option::None => unreached(),
                };
                TransactionInfo { to: t.to, value: t.value, data: t.data, tx_hash: h }
            },
            TypedTransaction::Eip2930(t) => {
                let h = match t.tx_hash {
                    Option::Some(h) => h,
                    Option::None => unreached(),
                };
                TransactionInfo { to: t.to, value: t.value, data: t.data, tx_hash: h }
            },
            TypedTransaction::Eip1559(t) => {
                let h = match t.tx_hash {
                    Option::Some(h) => h,
                    Option::None => unreached(),
                };
                TransactionInfo { to: t.to, value: t.value, data: t.data, tx_hash: h }
            },
        }
    }

    /// Returns the legacy record, or `None` for the other variants.
    pub fn into_legacy(self) -> (r: Option<TxLegacy>)
        ensures
            r == (match self {
                TypedTransaction::Legacy(t) => Option::Some(t),
                _ => Option::<TxLegacy>::None,
            }),
    {
        match self {
            TypedTransaction::Legacy(legacy) => Option::Some(legacy),
            _ => Option::None,
        }
    }

    /// Returns the EIP-2930 record, or `None` for the other variants.
    pub fn into_eip2930(self) -> (r: Option<TxEip2930>)
        ensures
            r == (match self {
                TypedTransaction::Eip2930(t) => Option::Some(t),
                _ => Option::<TxEip2930>::None,
            }),
    {
        match self {
            TypedTransaction::Eip2930(eip2930) => Option::Some(eip2930),
            _ => Option::None,
        }
    }

    /// Returns the EIP-1559 record, or `None` for the other variants.
    pub fn into_eip1559(self) -> (r: Option<TxEip1559>)
        ensures
            r == (match self {
                TypedTransaction::Eip1559(t) => Option::Some(t),
                _ => Option::<TxEip1559>::None,
            }),
    {
        match self {
            TypedTransaction::Eip1559(eip1559) => Option::Some(eip1559),
            _ => Option::None,
        }
    }
}

/// Ghost counterpart of `TransactionInfo`.
pub struct GTxInfo {
    pub to: GTxKind,
    pub value: Seq<u8>,
    pub data: Seq<u8>,
    pub tx_hash: Seq<u8>,
}

impl View for TransactionInfo {
    type V = GTxInfo;

    open spec fn view(&self) -> GTxInfo {
        GTxInfo { to: self.to@, value: self.value@, data: self.data@, tx_hash: self.tx_hash@ }
    }
}

// ---------------------------------------------------------------------------
// The feed's envelope types, one per inbound frame.
// ---------------------------------------------------------------------------

/// Message-header fields carried through the feed. Only `kind` gates decoding;
/// `request_id` and `base_fee_l1` are kept verbatim as raw JSON text.
#[derive(Debug, Clone, PartialEq)]
pub struct Header {
    pub kind: i64,
    pub sender: String,
    pub block_number: i64,
    pub timestamp: i64,
    pub request_id: String,
    pub base_fee_l1: String,
}

/// Ghost counterpart of `Header`.
pub struct GHeader {
    pub kind: int,
    pub sender: Seq<char>,
    pub block_number: int,
    pub timestamp: int,
    pub request_id: Seq<char>,
    pub base_fee_l1: Seq<char>,
}

impl View for Header {
    type V = GHeader;

    open spec fn view(&self) -> GHeader {
        GHeader {
            kind: self.kind as int,
            sender: self.sender@,
            block_number: self.block_number as int,
            timestamp: self.timestamp as int,
            request_id: self.request_id@,
            base_fee_l1: self.base_fee_l1@,
        }
    }
}

/// One incoming message: a header and an opaque base64-encoded payload.
#[derive(Debug, Clone, PartialEq)]
pub struct L1IncomingMessageHeader {
    pub header: Header,
    pub l2msg: String,
}

/// Ghost counterpart of `L1IncomingMessageHeader`.
pub struct GL1IncomingMessageHeader {
    pub header: GHeader,
    pub l2msg: Seq<char>,
}

impl View for L1IncomingMessageHeader {
    type V = GL1IncomingMessageHeader;

    open spec fn view(&self) -> GL1IncomingMessageHeader {
        GL1IncomingMessageHeader { header: self.header@, l2msg: self.l2msg@ }
    }
}

/// A message together with feed-level metadata.
#[derive(Debug, Clone, PartialEq)]
pub struct MessageWithMetadata {
    pub message: L1IncomingMessageHeader,
    pub delayed_messages_read: i64,
}

/// One feed entry: a position in the feed and its message.
#[derive(Debug, Clone, PartialEq)]
pub struct BroadcastFeedMessage {
    pub sequence_number: i64,
    pub message: MessageWithMetadata,
}

/// One feed update: a version tag and an ordered batch of messages.
#[derive(Debug, Clone, PartialEq)]
pub struct Root {
    pub version: i64,
    pub messages: Vec<BroadcastFeedMessage>,
}

} // verus!
