use crate::codec::{
    codec_spec, decode_transaction, enc_eip1559, enc_eip2930, enc_legacy, eip1559_encodable,
    eip2930_encodable, keccak_of, legacy_encodable, lemma_codec_roundtrip_eip1559,
    lemma_codec_roundtrip_eip2930, lemma_codec_roundtrip_legacy,
};
use crate::rlp::lemma_concat_parts;
use crate::types::{GTxEip1559, GTxEip2930, GTxLegacy};
use crate::rlp::copy_range;
use crate::types::{GL1IncomingMessageHeader, GTypedTransaction, L1IncomingMessageHeader,
    TypedTransaction};
use vstd::prelude::*;

verus! {

/// Largest permitted decoded payload size for an L2 message, in bytes
/// (256 KiB). Payloads whose decoded form is larger are dropped outright.
pub const MAX_L2_MESSAGE_SIZE: usize = 262144;

/// The header `kind` value that marks an L2 message, the only kind that
/// yields transactions.
pub const L1_MESSAGE_TYPE_L2_MESSAGE: i64 = 3;

/// The payload-level message kind for a single signed transaction, the only
/// payload kind that is decoded.
pub const L2_MESSAGE_KIND_SIGNED_TX: u8 = 4;

/// What base64 decoding (standard alphabet, padded) yields on a text, named
/// but not defined here: decoding is done by an outside library and depends
/// on the text alone.
pub uninterp spec fn base64_decode_spec(s: Seq<char>) -> Option<Seq<u8>>;

/// Relies on base64's `STANDARD` engine (standard alphabet, padded): decoding
/// is a pure function of the input text; malformed input yields an error,
/// mapped to `None` here.
#[verifier::external_body]
fn base64_decode(s: &String) -> (r: Option<Vec<u8>>)
    ensures
        match r {
            Some(v) => base64_decode_spec(s@) == Some(v@),
            None => base64_decode_spec(s@) is None,
        },
{
    base64::Engine::decode(&base64::engine::general_purpose::STANDARD, s.as_bytes()).ok()
}

/// What decoding a payload (after base64) yields: nothing unless the first
/// byte is the signed-transaction kind; otherwise the codec's single result
/// on the remaining bytes, as a one-element batch.
pub open spec fn l2_message_spec(data: Seq<u8>) -> Option<Seq<GTypedTransaction>> {
    if data.len() == 0 {
        None
    } else if data[0] != L2_MESSAGE_KIND_SIGNED_TX {
        None
    } else {
        match codec_spec(data.subrange(1, data.len() as int)) {
            None => None,
            Some(tx) => Some(seq![tx]),
        }
    }
}

/// What `L1IncomingMessageHeader::decode` yields: nothing unless the header
/// kind marks an L2 message, the payload base64-decodes, and the decoded
/// payload is within the size ceiling; otherwise the payload's transactions.
pub open spec fn decode_spec(h: GL1IncomingMessageHeader) -> Option<Seq<GTypedTransaction>> {
    if h.header.kind != L1_MESSAGE_TYPE_L2_MESSAGE {
        None
    } else {
        match base64_decode_spec(h.l2msg) {
            None => None,
            Some(d) => {
                if d.len() > MAX_L2_MESSAGE_SIZE {
                    None
                } else {
                    l2_message_spec(d)
                }
            },
        }
    }
}

impl L1IncomingMessageHeader {
    /// Turns one incoming message into its transactions: rejects any header
    /// kind other than the L2-message kind, base64-decodes the payload,
    /// rejects a decoded payload over 256 KiB, then decodes it.
    pub fn decode(&self) -> (r: Option<Vec<TypedTransaction>>)
        ensures
            match r {
                Some(v) => {
                    &&& decode_spec(self@) == Some(v@.map_values(|t: TypedTransaction| t@))
                    &&& forall|k: int| 0 <= k < v@.len() ==> (#[trigger] v@[k]).wf() && v@[k].has_hash()
                },
                None => decode_spec(self@) is None,
            },
    {
        if self.header.kind != L1_MESSAGE_TYPE_L2_MESSAGE {
            return None;
        }
        let decoded = match base64_decode(&self.l2msg) {
            Some(d) => d,
            None => {
                return None;
            },
        };
        if decoded.len() > MAX_L2_MESSAGE_SIZE {
            return None;
        }
        Self::parse_l2_message(decoded)
    }

    /// Decodes one base64-decoded payload: the first byte selects the payload
    /// kind, and only the signed-transaction kind yields a (one-element)
    /// batch.
    pub fn parse_l2_message(data: Vec<u8>) -> (r: Option<Vec<TypedTransaction>>)
        ensures
            match r {
                Some(v) => {
                    &&& l2_message_spec(data@) == Some(v@.map_values(|t: TypedTransaction| t@))
                    &&& forall|k: int| 0 <= k < v@.len() ==> (#[trigger] v@[k]).wf() && v@[k].has_hash()
                },
                None => l2_message_spec(data@) is None,
            },
    {
        if data.len() == 0 {
            return None;
        }
        let kind = data[0];
        if kind != L2_MESSAGE_KIND_SIGNED_TX {
            return None;
        }
        let rest = copy_range(&data, 1, data.len());
        match decode_transaction(&rest) {
            None => None,
            Some(tx) => {
                let batch = vec![tx];
                proof {
                    assert(batch@.map_values(|t: TypedTransaction| t@) =~= seq![batch@[0]@]);
                }
                Some(batch)
            },
        }
    }
}

// ---------------------------------------------------------------------------
// Decoder-level laws.
// ---------------------------------------------------------------------------

/// A message whose payload decodes to more than 256 KiB yields nothing,
/// regardless of its content.
pub proof fn lemma_oversize_rejected(h: GL1IncomingMessageHeader, d: Seq<u8>)
    requires
        base64_decode_spec(h.l2msg) == Some(d),
        d.len() > MAX_L2_MESSAGE_SIZE,
    ensures
        decode_spec(h) is None,
{
}

/// A message whose header kind is not the L2-message kind yields nothing.
pub proof fn lemma_wrong_kind_rejected(h: GL1IncomingMessageHeader)
    requires
        h.header.kind != L1_MESSAGE_TYPE_L2_MESSAGE,
    ensures
        decode_spec(h) is None,
{
}

/// A payload of at most 256 KiB decoded length is not rejected for size: on
/// an L2-message header the decoder's outcome is exactly the payload's.
pub proof fn lemma_within_ceiling_accepted(h: GL1IncomingMessageHeader, d: Seq<u8>)
    requires
        h.header.kind == L1_MESSAGE_TYPE_L2_MESSAGE,
        base64_decode_spec(h.l2msg) == Some(d),
        d.len() <= MAX_L2_MESSAGE_SIZE,
    ensures
        decode_spec(h) == l2_message_spec(d),
{
}

/// Decoding is deterministic: the decoder's outcome is a function of the
/// message alone, so two results for one message are equal.
pub proof fn lemma_decode_deterministic(
    h: GL1IncomingMessageHeader,
    r1: Option<Seq<GTypedTransaction>>,
    r2: Option<Seq<GTypedTransaction>>,
)
    requires
        r1 == decode_spec(h),
        r2 == decode_spec(h),
    ensures
        r1 == r2,
{
}

/// Round trip through the Message Decoder for a legacy transaction: a
/// payload of the signed-transaction kind byte, the standard encoding, and
/// any trailing bytes yields exactly that transaction, its hash the digest
/// of the bytes after the kind byte.
pub proof fn lemma_message_roundtrip_legacy(tx: GTxLegacy, tail: Seq<u8>)
    requires
        legacy_encodable(tx),
    ensures
        ({
            let rest = enc_legacy(tx) + tail;
            l2_message_spec(seq![L2_MESSAGE_KIND_SIGNED_TX] + rest) == Some(
                seq![
                    GTypedTransaction::Legacy(
                        GTxLegacy { tx_hash: Some(keccak_of(rest)), ..tx },
                    ),
                ],
            )
        }),
{
    let rest = enc_legacy(tx) + tail;
    let data = seq![L2_MESSAGE_KIND_SIGNED_TX] + rest;
    assert(data.subrange(0, data.len() as int) =~= data);
    lemma_concat_parts(data, 0, seq![L2_MESSAGE_KIND_SIGNED_TX], rest);
    assert(data[0] == L2_MESSAGE_KIND_SIGNED_TX);
    assert(data.subrange(1, data.len() as int) == rest);
    lemma_codec_roundtrip_legacy(tx, tail);
}

/// Round trip through the Message Decoder for an EIP-2930 transaction, the
/// payload carrying the kind byte, the discriminant 0x01, the standard
/// encoding, and any trailing bytes.
pub proof fn lemma_message_roundtrip_eip2930(tx: GTxEip2930, tail: Seq<u8>)
    requires
        eip2930_encodable(tx),
    ensures
        ({
            let rest = seq![1u8] + (enc_eip2930(tx) + tail);
            l2_message_spec(seq![L2_MESSAGE_KIND_SIGNED_TX] + rest) == Some(
                seq![
                    GTypedTransaction::Eip2930(
                        GTxEip2930 { tx_hash: Some(keccak_of(rest)), ..tx },
                    ),
                ],
            )
        }),
{
    let rest = seq![1u8] + (enc_eip2930(tx) + tail);
    let data = seq![L2_MESSAGE_KIND_SIGNED_TX] + rest;
    assert(data.subrange(0, data.len() as int) =~= data);
    lemma_concat_parts(data, 0, seq![L2_MESSAGE_KIND_SIGNED_TX], rest);
    assert(data[0] == L2_MESSAGE_KIND_SIGNED_TX);
    assert(data.subrange(1, data.len() as int) == rest);
    lemma_codec_roundtrip_eip2930(tx, tail);
}

/// Round trip through the Message Decoder for an EIP-1559 transaction, the
/// payload carrying the kind byte, the discriminant 0x02, the standard
/// encoding, and any trailing bytes.
pub proof fn lemma_message_roundtrip_eip1559(tx: GTxEip1559, tail: Seq<u8>)
    requires
        eip1559_encodable(tx),
    ensures
        ({
            let rest = seq![2u8] + (enc_eip1559(tx) + tail);
            l2_message_spec(seq![L2_MESSAGE_KIND_SIGNED_TX] + rest) == Some(
                seq![
                    GTypedTransaction::Eip1559(
                        GTxEip1559 { tx_hash: Some(keccak_of(rest)), ..tx },
                    ),
                ],
            )
        }),
{
    let rest = seq![2u8] + (enc_eip1559(tx) + tail);
    let data = seq![L2_MESSAGE_KIND_SIGNED_TX] + rest;
    assert(data.subrange(0, data.len() as int) =~= data);
    lemma_concat_parts(data, 0, seq![L2_MESSAGE_KIND_SIGNED_TX], rest);
    assert(data[0] == L2_MESSAGE_KIND_SIGNED_TX);
    assert(data.subrange(1, data.len() as int) == rest);
    lemma_codec_roundtrip_eip1559(tx, tail);
}

/// A payload whose first byte is not the signed-transaction kind yields
/// nothing; the disabled batch kind in particular.
pub proof fn lemma_other_payload_kinds_rejected(data: Seq<u8>)
    requires
        data.len() == 0 || data[0] != L2_MESSAGE_KIND_SIGNED_TX,
    ensures
        l2_message_spec(data) is None,
{
}

} // verus!
