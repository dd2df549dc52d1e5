use crate::rlp::{
    canon_u256, enc_access_item_payload, enc_access_items, enc_access_list, enc_list, enc_str,
    enc_txkind, enc_uint, gaccess_wf, gtxkind_wf, lemma_concat_parts, lemma_parse_access_list_enc,
    lemma_parse_bytes_enc, lemma_parse_hdr_enc, lemma_parse_txkind_enc, lemma_parse_u256_enc,
    lemma_parse_uint_enc, parse_access_list, parse_bytes, parse_hdr, parse_txkind, parse_u256,
    parse_uint, pow256, rlp_access_list, rlp_bytes, rlp_hdr, rlp_txkind, rlp_u128, rlp_u256,
    rlp_u64,
};
use crate::types::{
    AccessList, GTxEip1559, GTxEip2930, GTxLegacy, GTypedTransaction, TxEip1559, TxEip2930,
    TxKind, TxLegacy, TypedTransaction, Uint256, B256,
};
use vstd::prelude::*;

verus! {

// ---------------------------------------------------------------------------
// Transaction wire grammar: each variant is a list of typed fields in a fixed
// order. Trailing bytes inside the list after the last field, and bytes after
// the list, are tolerated for forward compatibility.
// ---------------------------------------------------------------------------

/// A legacy transaction parsed from the list starting at `s[i..]`:
/// nonce, gas price, gas limit, recipient, value, data, v, r, s.
pub open spec fn parse_legacy_at(s: Seq<u8>, i: int) -> Option<GTxLegacy> {
    match parse_hdr(s, i) {
        None => None,
        Some(h) => {
            if !h.is_list {
                None
            } else {
                let end = h.pstart + h.plen;
                match parse_uint(s, h.pstart, 8) {
                    None => None,
                    Some((nonce, i1)) => {
                        if i1 > end {
                            None
                        } else {
                            match parse_uint(s, i1, 16) {
                                None => None,
                                Some((gas_price, i2)) => {
                                    if i2 > end {
                                        None
                                    } else {
                                        parse_legacy_tail(s, end, nonce, gas_price, i2)
                                    }
                                },
                            }
                        }
                    },
                }
            }
        },
    }
}

/// The fields of a legacy transaction after the gas price.
pub open spec fn parse_legacy_tail(s: Seq<u8>, end: int, nonce: nat, gas_price: nat, i2: int) -> Option<
    GTxLegacy,
> {
    match parse_uint(s, i2, 8) {
        None => None,
        Some((gas_limit, i3)) => {
            if i3 > end {
                None
            } else {
                match parse_txkind(s, i3) {
                    None => None,
                    Some((to, i4)) => {
                        if i4 > end {
                            None
                        } else {
                            match parse_u256(s, i4) {
                                None => None,
                                Some((value, i5)) => {
                                    if i5 > end {
                                        None
                                    } else {
                                        match parse_bytes(s, i5) {
                                            None => None,
                                            Some((data, i6)) => {
                                                if i6 > end {
                                                    None
                                                } else {
                                                    match parse_sig(s, end, i6) {
                                                        None => None,
                                                        Some((v, r, sig_s)) => Some(
                                                            GTxLegacy {
                                                                nonce,
                                                                gas_price,
                                                                gas_limit,
                                                                to,
                                                                value,
                                                                data,
                                                                v,
                                                                r,
                                                                s: sig_s,
                                                                tx_hash: None,
                                                            },
                                                        ),
                                                    }
                                                }
                                            },
                                        }
                                    }
                                },
                            }
                        }
                    },
                }
            }
        },
    }
}

/// The signature triple `v, r, s` ending a transaction's field list.
pub open spec fn parse_sig(s: Seq<u8>, end: int, i: int) -> Option<(nat, Seq<u8>, Seq<u8>)> {
    match parse_uint(s, i, 8) {
        None => None,
        Some((v, j1)) => {
            if j1 > end {
                None
            } else {
                match parse_u256(s, j1) {
                    None => None,
                    Some((r, j2)) => {
                        if j2 > end {
                            None
                        } else {
                            match parse_u256(s, j2) {
                                None => None,
                                Some((sig_s, j3)) => {
                                    if j3 > end {
                                        None
                                    } else {
                                        Some((v, r, sig_s))
                                    }
                                },
                            }
                        }
                    },
                }
            }
        },
    }
}

/// An EIP-2930 transaction parsed from the list starting at `s[i..]`:
/// chain id, nonce, gas price, gas, recipient, value, data, access list,
/// v, r, s.
pub open spec fn parse_eip2930_at(s: Seq<u8>, i: int) -> Option<GTxEip2930> {
    match parse_hdr(s, i) {
        None => None,
        Some(h) => {
            if !h.is_list {
                None
            } else {
                let end = h.pstart + h.plen;
                match parse_uint(s, h.pstart, 8) {
                    None => None,
                    Some((chain_id, i1)) => {
                        if i1 > end {
                            None
                        } else {
                            match parse_uint(s, i1, 8) {
                                None => None,
                                Some((nonce, i2)) => {
                                    if i2 > end {
                                        None
                                    } else {
                                        match parse_uint(s, i2, 16) {
                                            None => None,
                                            Some((gas_price, i3)) => {
                                                if i3 > end {
                                                    None
                                                } else {
                                                    parse_eip2930_tail(
                                                        s,
                                                        end,
                                                        chain_id,
                                                        nonce,
                                                        gas_price,
                                                        i3,
                                                    )
                                                }
                                            },
                                        }
                                    }
                                },
                            }
                        }
                    },
                }
            }
        },
    }
}

/// The fields of an EIP-2930 transaction after the gas price.
pub open spec fn parse_eip2930_tail(
    s: Seq<u8>,
    end: int,
    chain_id: nat,
    nonce: nat,
    gas_price: nat,
    i3: int,
) -> Option<GTxEip2930> {
    match parse_uint(s, i3, 8) {
        None => None,
        Some((gas, i4)) => {
            if i4 > end {
                None
            } else {
                match parse_txkind(s, i4) {
                    None => None,
                    Some((to, i5)) => {
                        if i5 > end {
                            None
                        } else {
                            match parse_u256(s, i5) {
                                None => None,
                                Some((value, i6)) => {
                                    if i6 > end {
                                        None
                                    } else {
                                        match parse_bytes(s, i6) {
                                            None => None,
                                            Some((data, i7)) => {
                                                if i7 > end {
                                                    None
                                                } else {
                                                    match parse_access_list(s, i7) {
                                                        None => None,
                                                        Some((access_list, i8)) => {
                                                            if i8 > end {
                                                                None
                                                            } else {
                                                                match parse_sig(s, end, i8) {
                                                                    None => None,
                                                                    Some((v, r, sig_s)) => Some(
                                                                        GTxEip2930 {
                                                                            chain_id,
                                                                            nonce,
                                                                            gas_price,
                                                                            gas,
                                                                            to,
                                                                            value,
                                                                            data,
                                                                            access_list,
                                                                            v,
                                                                            r,
                                                                            s: sig_s,
                                                                            tx_hash: None,
                                                                        },
                                                                    ),
                                                                }
                                                            }
                                                        },
                                                    }
                                                }
                                            },
                                        }
                                    }
                                },
                            }
                        }
                    },
                }
            }
        },
    }
}

/// An EIP-1559 transaction parsed from the list starting at `s[i..]`:
/// chain id, nonce, max priority fee, max fee, gas, recipient, value, data,
/// access list, v, r, s.
pub open spec fn parse_eip1559_at(s: Seq<u8>, i: int) -> Option<GTxEip1559> {
    match parse_hdr(s, i) {
        None => None,
        Some(h) => {
            if !h.is_list {
                None
            } else {
                let end = h.pstart + h.plen;
                match parse_uint(s, h.pstart, 8) {
                    None => None,
                    Some((chain_id, i1)) => {
                        if i1 > end {
                            None
                        } else {
                            match parse_uint(s, i1, 8) {
                                None => None,
                                Some((nonce, i2)) => {
                                    if i2 > end {
                                        None
                                    } else {
                                        match parse_uint(s, i2, 16) {
                                            None => None,
                                            Some((max_priority, i3)) => {
                                                if i3 > end {
                                                    None
                                                } else {
                                                    match parse_uint(s, i3, 16) {
                                                        None => None,
                                                        Some((max_fee, i4)) => {
                                                            if i4 > end {
                                                                None
                                                            } else {
                                                                parse_eip1559_tail(
                                                                    s,
                                                                    end,
                                                                    chain_id,
                                                                    nonce,
                                                                    max_priority,
                                                                    max_fee,
                                                                    i4,
                                                                )
                                                            }
                                                        },
                                                    }
                                                }
                                            },
                                        }
                                    }
                                },
                            }
                        }
                    },
                }
            }
        },
    }
}

/// The fields of an EIP-1559 transaction after the fee parameters.
pub open spec fn parse_eip1559_tail(
    s: Seq<u8>,
    end: int,
    chain_id: nat,
    nonce: nat,
    max_priority: nat,
    max_fee: nat,
    i4: int,
) -> Option<GTxEip1559> {
    match parse_uint(s, i4, 8) {
        None => None,
        Some((gas, i5)) => {
            if i5 > end {
                None
            } else {
                match parse_txkind(s, i5) {
                    None => None,
                    Some((to, i6)) => {
                        if i6 > end {
                            None
                        } else {
                            match parse_u256(s, i6) {
                                None => None,
                                Some((value, i7)) => {
                                    if i7 > end {
                                        None
                                    } else {
                                        match parse_bytes(s, i7) {
                                            None => None,
                                            Some((data, i8)) => {
                                                if i8 > end {
                                                    None
                                                } else {
                                                    match parse_access_list(s, i8) {
                                                        None => None,
                                                        Some((access_list, i9)) => {
                                                            if i9 > end {
                                                                None
                                                            } else {
                                                                match parse_sig(s, end, i9) {
                                                                    None => None,
                                                                    Some((v, r, sig_s)) => Some(
                                                                        GTxEip1559 {
                                                                            chain_id,
                                                                            nonce,
                                                                            max_priority_fee_per_gas:
                                                                                max_priority,
                                                                            max_fee_per_gas: max_fee,
                                                                            gas,
                                                                            to,
                                                                            value,
                                                                            data,
                                                                            access_list,
                                                                            v,
                                                                            r,
                                                                            s: sig_s,
                                                                            tx_hash: None,
                                                                        },
                                                                    ),
                                                                }
                                                            }
                                                        },
                                                    }
                                                }
                                            },
                                        }
                                    }
                                },
                            }
                        }
                    },
                }
            }
        },
    }
}

// ---------------------------------------------------------------------------
// Canonical hash.
// ---------------------------------------------------------------------------

/// The Keccak-256 digest of a byte sequence, named but not defined here:
/// the digest is computed by an outside library and depends on the bytes
/// alone.
pub uninterp spec fn keccak_of(b: Seq<u8>) -> Seq<u8>;

/// Relies on alloy_primitives::keccak256: the Keccak-256 digest of the input
/// bytes, 32 bytes long, a pure function of the input alone.
#[verifier::external_body]
fn keccak256_vec(data: &Vec<u8>) -> (r: Vec<u8>)
    ensures
        r@ == keccak_of(data@),
        r@.len() == 32,
{
    alloy_primitives::keccak256(data.as_slice()).to_vec()
}

// ---------------------------------------------------------------------------
// The codec: dispatch on the leading discriminant byte, hash, then decode.
// ---------------------------------------------------------------------------

/// What the codec yields on a payload (the bytes after the message-kind
/// byte). The canonical hash is always taken over that whole payload, the
/// exact byte slice handed to the structural decoder.
pub open spec fn codec_spec(rest: Seq<u8>) -> Option<GTypedTransaction> {
    if rest.len() == 0 {
        None
    } else {
        let ptr = rest[0];
        if ptr > 0x7f {
            match parse_legacy_at(rest, 0) {
                None => None,
                Some(tx) => Some(
                    GTypedTransaction::Legacy(GTxLegacy { tx_hash: Some(keccak_of(rest)), ..tx }),
                ),
            }
        } else if ptr == 1 {
            match parse_eip2930_at(rest, 1) {
                None => None,
                Some(tx) => Some(
                    GTypedTransaction::Eip2930(
                        GTxEip2930 { tx_hash: Some(keccak_of(rest)), ..tx },
                    ),
                ),
            }
        } else if ptr == 2 {
            match parse_eip1559_at(rest, 1) {
                None => None,
                Some(tx) => Some(
                    GTypedTransaction::Eip1559(
                        GTxEip1559 { tx_hash: Some(keccak_of(rest)), ..tx },
                    ),
                ),
            }
        } else {
            None
        }
    }
}

/// Decodes a legacy transaction whose field list starts at `data[i..]`.
/// The hash is not attached here.
pub fn decode_legacy(data: &Vec<u8>, i: usize) -> (r: Option<TxLegacy>)
    ensures
        match r {
            Some(tx) => {
                &&& parse_legacy_at(data@, i as int) == Some(tx@)
                &&& tx.wf()
                &&& tx.tx_hash is None
            },
            None => parse_legacy_at(data@, i as int) is None,
        },
{
    let h = match rlp_hdr(data, i) {
        Some(h) => h,
        None => {
            return None;
        },
    };
    let (is_list, pstart, plen) = h;
    if !is_list {
        return None;
    }
    let end = pstart + plen;
    let (nonce, i1) = match rlp_u64(data, pstart) {
        Some(t) => t,
        None => {
            return None;
        },
    };
    if i1 > end {
        return None;
    }
    let (gas_price, i2) = match rlp_u128(data, i1) {
        Some(t) => t,
        None => {
            return None;
        },
    };
    if i2 > end {
        return None;
    }
    let (gas_limit, i3) = match rlp_u64(data, i2) {
        Some(t) => t,
        None => {
            return None;
        },
    };
    if i3 > end {
        return None;
    }
    let (to, i4) = match rlp_txkind(data, i3) {
        Some(t) => t,
        None => {
            return None;
        },
    };
    if i4 > end {
        return None;
    }
    let (value, i5) = match rlp_u256(data, i4) {
        Some(t) => t,
        None => {
            return None;
        },
    };
    if i5 > end {
        return None;
    }
    let (payload, i6) = match rlp_bytes(data, i5) {
        Some(t) => t,
        None => {
            return None;
        },
    };
    if i6 > end {
        return None;
    }
    let (v, i7) = match rlp_u64(data, i6) {
        Some(t) => t,
        None => {
            return None;
        },
    };
    if i7 > end {
        return None;
    }
    let (sig_r, i8) = match rlp_u256(data, i7) {
        Some(t) => t,
        None => {
            return None;
        },
    };
    if i8 > end {
        return None;
    }
    let (sig_s, i9) = match rlp_u256(data, i8) {
        Some(t) => t,
        None => {
            return None;
        },
    };
    if i9 > end {
        return None;
    }
    Some(
        TxLegacy {
            nonce,
            gas_price,
            gas_limit,
            to,
            value,
            data: payload,
            v,
            r: sig_r,
            s: sig_s,
            tx_hash: None,
        },
    )
}

/// Decodes an EIP-2930 transaction whose field list starts at `data[i..]`.
/// The hash is not attached here.
pub fn decode_eip2930(data: &Vec<u8>, i: usize) -> (r: Option<TxEip2930>)
    ensures
        match r {
            Some(tx) => {
                &&& parse_eip2930_at(data@, i as int) == Some(tx@)
                &&& tx.wf()
                &&& tx.tx_hash is None
            },
            None => parse_eip2930_at(data@, i as int) is None,
        },
{
    let h = match rlp_hdr(data, i) {
        Some(h) => h,
        None => {
            return None;
        },
    };
    let (is_list, pstart, plen) = h;
    if !is_list {
        return None;
    }
    let end = pstart + plen;
    let (chain_id, i1) = match rlp_u64(data, pstart) {
        Some(t) => t,
        None => {
            return None;
        },
    };
    if i1 > end {
        return None;
    }
    let (nonce, i2) = match rlp_u64(data, i1) {
        Some(t) => t,
        None => {
            return None;
        },
    };
    if i2 > end {
        return None;
    }
    let (gas_price, i3) = match rlp_u128(data, i2) {
        Some(t) => t,
        None => {
            return None;
        },
    };
    if i3 > end {
        return None;
    }
    let (gas, i4) = match rlp_u64(data, i3) {
        Some(t) => t,
        None => {
            return None;
        },
    };
    if i4 > end {
        return None;
    }
    let (to, i5) = match rlp_txkind(data, i4) {
        Some(t) => t,
        None => {
            return None;
        },
    };
    if i5 > end {
        return None;
    }
    let (value, i6) = match rlp_u256(data, i5) {
        Some(t) => t,
        None => {
            return None;
        },
    };
    if i6 > end {
        return None;
    }
    let (payload, i7) = match rlp_bytes(data, i6) {
        Some(t) => t,
        None => {
            return None;
        },
    };
    if i7 > end {
        return None;
    }
    let (access_list, i8) = match rlp_access_list(data, i7) {
        Some(t) => t,
        None => {
            return None;
        },
    };
    if i8 > end {
        return None;
    }
    let (v, i9) = match rlp_u64(data, i8) {
        Some(t) => t,
        None => {
            return None;
        },
    };
    if i9 > end {
        return None;
    }
    let (sig_r, i10) = match rlp_u256(data, i9) {
        Some(t) => t,
        None => {
            return None;
        },
    };
    if i10 > end {
        return None;
    }
    let (sig_s, i11) = match rlp_u256(data, i10) {
        Some(t) => t,
        None => {
            return None;
        },
    };
    if i11 > end {
        return None;
    }
    Some(
        TxEip2930 {
            chain_id,
            nonce,
            gas_price,
            gas,
            to,
            value,
            data: payload,
            access_list,
            v,
            r: sig_r,
            s: sig_s,
            tx_hash: None,
        },
    )
}

/// Decodes an EIP-1559 transaction whose field list starts at `data[i..]`.
/// The hash is not attached here.
pub fn decode_eip1559(data: &Vec<u8>, i: usize) -> (r: Option<TxEip1559>)
    ensures
        match r {
            Some(tx) => {
                &&& parse_eip1559_at(data@, i as int) == Some(tx@)
                &&& tx.wf()
                &&& tx.tx_hash is None
            },
            None => parse_eip1559_at(data@, i as int) is None,
        },
{
    let h = match rlp_hdr(data, i) {
        Some(h) => h,
        None => {
            return None;
        },
    };
    let (is_list, pstart, plen) = h;
    if !is_list {
        return None;
    }
    let end = pstart + plen;
    let (chain_id, i1) = match rlp_u64(data, pstart) {
        Some(t) => t,
        None => {
            return None;
        },
    };
    if i1 > end {
        return None;
    }
    let (nonce, i2) = match rlp_u64(data, i1) {
        Some(t) => t,
        None => {
            return None;
        },
    };
    if i2 > end {
        return None;
    }
    let (max_priority, i3) = match rlp_u128(data, i2) {
        Some(t) => t,
        None => {
            return None;
        },
    };
    if i3 > end {
        return None;
    }
    let (max_fee, i4) = match rlp_u128(data, i3) {
        Some(t) => t,
        None => {
            return None;
        },
    };
    if i4 > end {
        return None;
    }
    let (gas, i5) = match rlp_u64(data, i4) {
        Some(t) => t,
        None => {
            return None;
        },
    };
    if i5 > end {
        return None;
    }
    let (to, i6) = match rlp_txkind(data, i5) {
        Some(t) => t,
        None => {
            return None;
        },
    };
    if i6 > end {
        return None;
    }
    let (value, i7) = match rlp_u256(data, i6) {
        Some(t) => t,
        None => {
            return None;
        },
    };
    if i7 > end {
        return None;
    }
    let (payload, i8) = match rlp_bytes(data, i7) {
        Some(t) => t,
        None => {
            return None;
        },
    };
    if i8 > end {
        return None;
    }
    let (access_list, i9) = match rlp_access_list(data, i8) {
        Some(t) => t,
        None => {
            return None;
        },
    };
    if i9 > end {
        return None;
    }
    let (v, i10) = match rlp_u64(data, i9) {
        Some(t) => t,
        None => {
            return None;
        },
    };
    if i10 > end {
        return None;
    }
    let (sig_r, i11) = match rlp_u256(data, i10) {
        Some(t) => t,
        None => {
            return None;
        },
    };
    if i11 > end {
        return None;
    }
    let (sig_s, i12) = match rlp_u256(data, i11) {
        Some(t) => t,
        None => {
            return None;
        },
    };
    if i12 > end {
        return None;
    }
    Some(
        TxEip1559 {
            chain_id,
            nonce,
            max_priority_fee_per_gas: max_priority,
            max_fee_per_gas: max_fee,
            gas,
            to,
            value,
            data: payload,
            access_list,
            v,
            r: sig_r,
            s: sig_s,
            tx_hash: None,
        },
    )
}

/// Decodes one serialized transaction from the payload bytes that follow the
/// message-kind byte, and attaches the canonical hash: the Keccak-256 digest
/// of exactly those payload bytes.
pub fn decode_transaction(rest: &Vec<u8>) -> (r: Option<TypedTransaction>)
    ensures
        match r {
            Some(tx) => {
                &&& codec_spec(rest@) == Some(tx@)
                &&& tx.wf()
                &&& tx.has_hash()
            },
            None => codec_spec(rest@) is None,
        },
{
    if rest.len() == 0 {
        return None;
    }
    let ptr = rest[0];
    if ptr > 0x7f {
        let hash = keccak256_vec(rest);
        match decode_legacy(rest, 0) {
            None => None,
            Some(mut tx) => {
                tx.tx_hash = Some(B256 { bytes: hash });
                Some(TypedTransaction::Legacy(tx))
            },
        }
    } else if ptr == 1 {
        let hash = keccak256_vec(rest);
        match decode_eip2930(rest, 1) {
            None => None,
            Some(mut tx) => {
                tx.tx_hash = Some(B256 { bytes: hash });
                Some(TypedTransaction::Eip2930(tx))
            },
        }
    } else if ptr == 2 {
        let hash = keccak256_vec(rest);
        match decode_eip1559(rest, 1) {
            None => None,
            Some(mut tx) => {
                tx.tx_hash = Some(B256 { bytes: hash });
                Some(TypedTransaction::Eip1559(tx))
            },
        }
    } else {
        None
    }
}

// ---------------------------------------------------------------------------
// Round trip: decoding inverts the standard encoding of each variant.
// ---------------------------------------------------------------------------

/// The encoded signature triple.
pub open spec fn enc_sig(v: nat, r: Seq<u8>, sig_s: Seq<u8>) -> Seq<u8> {
    enc_uint(v) + (enc_str(r) + enc_str(sig_s))
}

/// The encoded field list of a legacy transaction (the list payload).
pub open spec fn legacy_fields(tx: GTxLegacy) -> Seq<u8> {
    enc_uint(tx.nonce) + (enc_uint(tx.gas_price) + (enc_uint(tx.gas_limit) + (enc_txkind(tx.to)
        + (enc_str(tx.value) + (enc_str(tx.data) + enc_sig(tx.v, tx.r, tx.s))))))
}

/// A whole encoded legacy transaction.
pub open spec fn enc_legacy(tx: GTxLegacy) -> Seq<u8> {
    enc_list(legacy_fields(tx))
}

/// A legacy transaction that the standard encoding can represent: scalars in
/// range, canonical 256-bit fields, and no hash attached yet.
pub open spec fn legacy_encodable(tx: GTxLegacy) -> bool {
    &&& tx.nonce < pow256(8)
    &&& tx.gas_price < pow256(16)
    &&& tx.gas_limit < pow256(8)
    &&& gtxkind_wf(tx.to)
    &&& canon_u256(tx.value)
    &&& tx.data.len() < pow256(8)
    &&& tx.v < pow256(8)
    &&& canon_u256(tx.r)
    &&& canon_u256(tx.s)
    &&& tx.tx_hash is None
    &&& legacy_fields(tx).len() < pow256(8)
}

/// Decoding inverts encoding for the signature triple.
pub proof fn lemma_parse_sig_enc(
    s: Seq<u8>,
    end: int,
    i: int,
    v: nat,
    r: Seq<u8>,
    sig_s: Seq<u8>,
)
    requires
        0 <= i,
        v < pow256(8),
        canon_u256(r),
        canon_u256(sig_s),
        i + enc_sig(v, r, sig_s).len() <= s.len(),
        s.subrange(i, i + enc_sig(v, r, sig_s).len()) == enc_sig(v, r, sig_s),
        i + enc_sig(v, r, sig_s).len() <= end,
    ensures
        parse_sig(s, end, i) == Some((v, r, sig_s)),
{
    let ev = enc_uint(v);
    let er = enc_str(r);
    let es = enc_str(sig_s);
    lemma_concat_parts(s, i, ev, er + es);
    lemma_parse_uint_enc(s, i, v, 8);
    let j1 = i + ev.len();
    lemma_concat_parts(s, j1, er, es);
    lemma_parse_u256_enc(s, j1, r);
    let j2 = j1 + er.len();
    lemma_parse_u256_enc(s, j2, sig_s);
}

/// Decoding inverts encoding for legacy transactions, wherever the encoding
/// stands in a longer sequence.
pub proof fn lemma_parse_legacy_enc(s: Seq<u8>, i: int, tx: GTxLegacy)
    requires
        0 <= i,
        legacy_encodable(tx),
        i + enc_legacy(tx).len() <= s.len(),
        s.subrange(i, i + enc_legacy(tx).len()) == enc_legacy(tx),
    ensures
        parse_legacy_at(s, i) == Some(tx),
{
    let fields = legacy_fields(tx);
    lemma_parse_hdr_enc(s, i, true, fields);
    let p = i + enc_legacy(tx).len() - fields.len();
    let end = p + fields.len();
    let e1 = enc_uint(tx.nonce);
    let e2 = enc_uint(tx.gas_price);
    let e3 = enc_uint(tx.gas_limit);
    let e4 = enc_txkind(tx.to);
    let e5 = enc_str(tx.value);
    let e6 = enc_str(tx.data);
    let e7 = enc_sig(tx.v, tx.r, tx.s);
    lemma_concat_parts(s, p, e1, e2 + (e3 + (e4 + (e5 + (e6 + e7)))));
    lemma_parse_uint_enc(s, p, tx.nonce, 8);
    let i1 = p + e1.len();
    lemma_concat_parts(s, i1, e2, e3 + (e4 + (e5 + (e6 + e7))));
    lemma_parse_uint_enc(s, i1, tx.gas_price, 16);
    let i2 = i1 + e2.len();
    lemma_concat_parts(s, i2, e3, e4 + (e5 + (e6 + e7)));
    lemma_parse_uint_enc(s, i2, tx.gas_limit, 8);
    let i3 = i2 + e3.len();
    lemma_concat_parts(s, i3, e4, e5 + (e6 + e7));
    lemma_parse_txkind_enc(s, i3, tx.to);
    let i4 = i3 + e4.len();
    lemma_concat_parts(s, i4, e5, e6 + e7);
    lemma_parse_u256_enc(s, i4, tx.value);
    let i5 = i4 + e5.len();
    lemma_concat_parts(s, i5, e6, e7);
    lemma_parse_bytes_enc(s, i5, tx.data);
    let i6 = i5 + e6.len();
    lemma_parse_sig_enc(s, end, i6, tx.v, tx.r, tx.s);
    assert(tx == GTxLegacy {
        nonce: tx.nonce,
        gas_price: tx.gas_price,
        gas_limit: tx.gas_limit,
        to: tx.to,
        value: tx.value,
        data: tx.data,
        v: tx.v,
        r: tx.r,
        s: tx.s,
        tx_hash: None,
    });
}

/// Round trip at the codec: the standard encoding of a legacy transaction,
/// with any trailing bytes, decodes to that transaction, and its hash is the
/// digest of the exact byte slice handed to the decoder.
#[verifier::rlimit(60)]
pub proof fn lemma_codec_roundtrip_legacy(tx: GTxLegacy, tail: Seq<u8>)
    requires
        legacy_encodable(tx),
    ensures
        ({
            let rest = enc_legacy(tx) + tail;
            codec_spec(rest) == Some(
                GTypedTransaction::Legacy(GTxLegacy { tx_hash: Some(keccak_of(rest)), ..tx }),
            )
        }),
{
    let e = enc_legacy(tx);
    let rest = e + tail;
    assert(rest.subrange(0, rest.len() as int) =~= rest);
    lemma_concat_parts(rest, 0, e, tail);
    assert(rest[0] == e[0]);
    assert(e[0] >= 0xc0) by {
        let l = legacy_fields(tx).len();
        if l <= 55 {
            assert(e[0] == (0xc0 + l) as u8);
        } else {
            crate::rlp::lemma_be_bytes_len(l, 8);
            assert(e[0] == (0xc0 + 55 + crate::rlp::be_bytes(l).len()) as u8);
        }
    }
    lemma_parse_legacy_enc(rest, 0, tx);
    assert(codec_spec(rest) == Some(
        GTypedTransaction::Legacy(GTxLegacy { tx_hash: Some(keccak_of(rest)), ..tx }),
    ));
}

/// An access list that the standard encoding can represent.
pub open spec fn access_list_encodable(items: Seq<crate::types::GAccessItem>) -> bool {
    &&& forall|k: int|
        0 <= k < items.len() ==> gaccess_wf(#[trigger] items[k]) && enc_access_item_payload(
            items[k],
        ).len() < pow256(8)
    &&& enc_access_items(items).len() < pow256(8)
}

/// The encoded field list of an EIP-2930 transaction (the list payload).
pub open spec fn eip2930_fields(tx: GTxEip2930) -> Seq<u8> {
    enc_uint(tx.chain_id) + (enc_uint(tx.nonce) + (enc_uint(tx.gas_price) + (enc_uint(tx.gas) + (
    enc_txkind(tx.to) + (enc_str(tx.value) + (enc_str(tx.data) + (enc_access_list(tx.access_list)
        + enc_sig(tx.v, tx.r, tx.s))))))))
}

/// A whole encoded EIP-2930 transaction, without its discriminant byte.
pub open spec fn enc_eip2930(tx: GTxEip2930) -> Seq<u8> {
    enc_list(eip2930_fields(tx))
}

/// An EIP-2930 transaction that the standard encoding can represent.
pub open spec fn eip2930_encodable(tx: GTxEip2930) -> bool {
    &&& tx.chain_id < pow256(8)
    &&& tx.nonce < pow256(8)
    &&& tx.gas_price < pow256(16)
    &&& tx.gas < pow256(8)
    &&& gtxkind_wf(tx.to)
    &&& canon_u256(tx.value)
    &&& tx.data.len() < pow256(8)
    &&& access_list_encodable(tx.access_list)
    &&& tx.v < pow256(8)
    &&& canon_u256(tx.r)
    &&& canon_u256(tx.s)
    &&& tx.tx_hash is None
    &&& eip2930_fields(tx).len() < pow256(8)
}

/// The encoded fields of an EIP-2930 transaction after the gas price.
pub open spec fn eip2930_tail_enc(tx: GTxEip2930) -> Seq<u8> {
    enc_uint(tx.gas) + (enc_txkind(tx.to) + (enc_str(tx.value) + (enc_str(tx.data) + (
    enc_access_list(tx.access_list) + enc_sig(tx.v, tx.r, tx.s)))))
}

/// Decoding inverts encoding for the tail of an EIP-2930 transaction.
pub proof fn lemma_parse_eip2930_tail_enc(s: Seq<u8>, end: int, tx: GTxEip2930, i3: int)
    requires
        0 <= i3,
        eip2930_encodable(tx),
        i3 + eip2930_tail_enc(tx).len() <= s.len(),
        s.subrange(i3, i3 + eip2930_tail_enc(tx).len()) == eip2930_tail_enc(tx),
        i3 + eip2930_tail_enc(tx).len() <= end,
    ensures
        parse_eip2930_tail(s, end, tx.chain_id, tx.nonce, tx.gas_price, i3) == Some(tx),
{
    let e4 = enc_uint(tx.gas);
    let e5 = enc_txkind(tx.to);
    let e6 = enc_str(tx.value);
    let e7 = enc_str(tx.data);
    let e8 = enc_access_list(tx.access_list);
    let e9 = enc_sig(tx.v, tx.r, tx.s);
    lemma_concat_parts(s, i3, e4, e5 + (e6 + (e7 + (e8 + e9))));
    lemma_parse_uint_enc(s, i3, tx.gas, 8);
    let i4 = i3 + e4.len();
    lemma_concat_parts(s, i4, e5, e6 + (e7 + (e8 + e9)));
    lemma_parse_txkind_enc(s, i4, tx.to);
    let i5 = i4 + e5.len();
    lemma_concat_parts(s, i5, e6, e7 + (e8 + e9));
    lemma_parse_u256_enc(s, i5, tx.value);
    let i6 = i5 + e6.len();
    lemma_concat_parts(s, i6, e7, e8 + e9);
    lemma_parse_bytes_enc(s, i6, tx.data);
    let i7 = i6 + e7.len();
    lemma_concat_parts(s, i7, e8, e9);
    lemma_parse_access_list_enc(s, i7, tx.access_list);
    let i8 = i7 + e8.len();
    lemma_parse_sig_enc(s, end, i8, tx.v, tx.r, tx.s);
    assert(tx == GTxEip2930 {
        chain_id: tx.chain_id,
        nonce: tx.nonce,
        gas_price: tx.gas_price,
        gas: tx.gas,
        to: tx.to,
        value: tx.value,
        data: tx.data,
        access_list: tx.access_list,
        v: tx.v,
        r: tx.r,
        s: tx.s,
        tx_hash: None,
    });
}

/// Decoding inverts encoding for EIP-2930 transactions.
#[verifier::rlimit(60)]
pub proof fn lemma_parse_eip2930_enc(s: Seq<u8>, i: int, tx: GTxEip2930)
    requires
        0 <= i,
        eip2930_encodable(tx),
        i + enc_eip2930(tx).len() <= s.len(),
        s.subrange(i, i + enc_eip2930(tx).len()) == enc_eip2930(tx),
    ensures
        parse_eip2930_at(s, i) == Some(tx),
{
    let fields = eip2930_fields(tx);
    lemma_parse_hdr_enc(s, i, true, fields);
    let p = i + enc_eip2930(tx).len() - fields.len();
    let end = p + fields.len();
    let e1 = enc_uint(tx.chain_id);
    let e2 = enc_uint(tx.nonce);
    let e3 = enc_uint(tx.gas_price);
    assert(eip2930_fields(tx) == e1 + (e2 + (e3 + eip2930_tail_enc(tx))));
    lemma_concat_parts(s, p, e1, e2 + (e3 + eip2930_tail_enc(tx)));
    lemma_parse_uint_enc(s, p, tx.chain_id, 8);
    let i1 = p + e1.len();
    lemma_concat_parts(s, i1, e2, e3 + eip2930_tail_enc(tx));
    lemma_parse_uint_enc(s, i1, tx.nonce, 8);
    let i2 = i1 + e2.len();
    lemma_concat_parts(s, i2, e3, eip2930_tail_enc(tx));
    lemma_parse_uint_enc(s, i2, tx.gas_price, 16);
    let i3 = i2 + e3.len();
    lemma_parse_eip2930_tail_enc(s, end, tx, i3);
}

/// The encoded field list of an EIP-1559 transaction (the list payload).
pub open spec fn eip1559_fields(tx: GTxEip1559) -> Seq<u8> {
    enc_uint(tx.chain_id) + (enc_uint(tx.nonce) + (enc_uint(tx.max_priority_fee_per_gas) + (
    enc_uint(tx.max_fee_per_gas) + (enc_uint(tx.gas) + (enc_txkind(tx.to) + (enc_str(tx.value) + (
    enc_str(tx.data) + (enc_access_list(tx.access_list) + enc_sig(tx.v, tx.r, tx.s)))))))))
}

/// A whole encoded EIP-1559 transaction, without its discriminant byte.
pub open spec fn enc_eip1559(tx: GTxEip1559) -> Seq<u8> {
    enc_list(eip1559_fields(tx))
}

/// An EIP-1559 transaction that the standard encoding can represent.
pub open spec fn eip1559_encodable(tx: GTxEip1559) -> bool {
    &&& tx.chain_id < pow256(8)
    &&& tx.nonce < pow256(8)
    &&& tx.max_priority_fee_per_gas < pow256(16)
    &&& tx.max_fee_per_gas < pow256(16)
    &&& tx.gas < pow256(8)
    &&& gtxkind_wf(tx.to)
    &&& canon_u256(tx.value)
    &&& tx.data.len() < pow256(8)
    &&& access_list_encodable(tx.access_list)
    &&& tx.v < pow256(8)
    &&& canon_u256(tx.r)
    &&& canon_u256(tx.s)
    &&& tx.tx_hash is None
    &&& eip1559_fields(tx).len() < pow256(8)
}

/// The encoded fields of an EIP-1559 transaction after the fee parameters.
pub open spec fn eip1559_tail_enc(tx: GTxEip1559) -> Seq<u8> {
    enc_uint(tx.gas) + (enc_txkind(tx.to) + (enc_str(tx.value) + (enc_str(tx.data) + (
    enc_access_list(tx.access_list) + enc_sig(tx.v, tx.r, tx.s)))))
}

/// Decoding inverts encoding for the tail of an EIP-1559 transaction.
pub proof fn lemma_parse_eip1559_tail_enc(s: Seq<u8>, end: int, tx: GTxEip1559, i4: int)
    requires
        0 <= i4,
        eip1559_encodable(tx),
        i4 + eip1559_tail_enc(tx).len() <= s.len(),
        s.subrange(i4, i4 + eip1559_tail_enc(tx).len()) == eip1559_tail_enc(tx),
        i4 + eip1559_tail_enc(tx).len() <= end,
    ensures
        parse_eip1559_tail(
            s,
            end,
            tx.chain_id,
            tx.nonce,
            tx.max_priority_fee_per_gas,
            tx.max_fee_per_gas,
            i4,
        ) == Some(tx),
{
    let e5 = enc_uint(tx.gas);
    let e6 = enc_txkind(tx.to);
    let e7 = enc_str(tx.value);
    let e8 = enc_str(tx.data);
    let e9 = enc_access_list(tx.access_list);
    let e10 = enc_sig(tx.v, tx.r, tx.s);
    lemma_concat_parts(s, i4, e5, e6 + (e7 + (e8 + (e9 + e10))));
    lemma_parse_uint_enc(s, i4, tx.gas, 8);
    let i5 = i4 + e5.len();
    lemma_concat_parts(s, i5, e6, e7 + (e8 + (e9 + e10)));
    lemma_parse_txkind_enc(s, i5, tx.to);
    let i6 = i5 + e6.len();
    lemma_concat_parts(s, i6, e7, e8 + (e9 + e10));
    lemma_parse_u256_enc(s, i6, tx.value);
    let i7 = i6 + e7.len();
    lemma_concat_parts(s, i7, e8, e9 + e10);
    lemma_parse_bytes_enc(s, i7, tx.data);
    let i8 = i7 + e8.len();
    lemma_concat_parts(s, i8, e9, e10);
    lemma_parse_access_list_enc(s, i8, tx.access_list);
    let i9 = i8 + e9.len();
    lemma_parse_sig_enc(s, end, i9, tx.v, tx.r, tx.s);
    assert(tx == GTxEip1559 {
        chain_id: tx.chain_id,
        nonce: tx.nonce,
        max_priority_fee_per_gas: tx.max_priority_fee_per_gas,
        max_fee_per_gas: tx.max_fee_per_gas,
        gas: tx.gas,
        to: tx.to,
        value: tx.value,
        data: tx.data,
        access_list: tx.access_list,
        v: tx.v,
        r: tx.r,
        s: tx.s,
        tx_hash: None,
    });
}

/// Decoding inverts encoding for EIP-1559 transactions.
#[verifier::rlimit(60)]
pub proof fn lemma_parse_eip1559_enc(s: Seq<u8>, i: int, tx: GTxEip1559)
    requires
        0 <= i,
        eip1559_encodable(tx),
        i + enc_eip1559(tx).len() <= s.len(),
        s.subrange(i, i + enc_eip1559(tx).len()) == enc_eip1559(tx),
    ensures
        parse_eip1559_at(s, i) == Some(tx),
{
    let fields = eip1559_fields(tx);
    lemma_parse_hdr_enc(s, i, true, fields);
    let p = i + enc_eip1559(tx).len() - fields.len();
    let end = p + fields.len();
    let e1 = enc_uint(tx.chain_id);
    let e2 = enc_uint(tx.nonce);
    let e3 = enc_uint(tx.max_priority_fee_per_gas);
    let e4 = enc_uint(tx.max_fee_per_gas);
    assert(eip1559_fields(tx) == e1 + (e2 + (e3 + (e4 + eip1559_tail_enc(tx)))));
    lemma_concat_parts(s, p, e1, e2 + (e3 + (e4 + eip1559_tail_enc(tx))));
    lemma_parse_uint_enc(s, p, tx.chain_id, 8);
    let i1 = p + e1.len();
    lemma_concat_parts(s, i1, e2, e3 + (e4 + eip1559_tail_enc(tx)));
    lemma_parse_uint_enc(s, i1, tx.nonce, 8);
    let i2 = i1 + e2.len();
    lemma_concat_parts(s, i2, e3, e4 + eip1559_tail_enc(tx));
    lemma_parse_uint_enc(s, i2, tx.max_priority_fee_per_gas, 16);
    let i3 = i2 + e3.len();
    lemma_concat_parts(s, i3, e4, eip1559_tail_enc(tx));
    lemma_parse_uint_enc(s, i3, tx.max_fee_per_gas, 16);
    let i4 = i3 + e4.len();
    lemma_parse_eip1559_tail_enc(s, end, tx, i4);
}

/// Round trip at the codec for EIP-2930: the discriminant byte 0x01 followed
/// by the standard encoding, with any trailing bytes, decodes to that
/// transaction, and its hash is the digest of the whole slice, discriminant
/// included.
#[verifier::rlimit(60)]
pub proof fn lemma_codec_roundtrip_eip2930(tx: GTxEip2930, tail: Seq<u8>)
    requires
        eip2930_encodable(tx),
    ensures
        ({
            let rest = seq![1u8] + (enc_eip2930(tx) + tail);
            codec_spec(rest) == Some(
                GTypedTransaction::Eip2930(GTxEip2930 { tx_hash: Some(keccak_of(rest)), ..tx }),
            )
        }),
{
    let e = enc_eip2930(tx);
    let rest = seq![1u8] + (e + tail);
    assert(rest.subrange(0, rest.len() as int) =~= rest);
    lemma_concat_parts(rest, 0, seq![1u8], e + tail);
    assert(rest[0] == 1);
    lemma_concat_parts(rest, 1, e, tail);
    lemma_parse_eip2930_enc(rest, 1, tx);
    assert(codec_spec(rest) == Some(
        GTypedTransaction::Eip2930(GTxEip2930 { tx_hash: Some(keccak_of(rest)), ..tx }),
    ));
}

/// Round trip at the codec for EIP-1559: the discriminant byte 0x02 followed
/// by the standard encoding, with any trailing bytes, decodes to that
/// transaction, and its hash is the digest of the whole slice, discriminant
/// included.
#[verifier::rlimit(60)]
pub proof fn lemma_codec_roundtrip_eip1559(tx: GTxEip1559, tail: Seq<u8>)
    requires
        eip1559_encodable(tx),
    ensures
        ({
            let rest = seq![2u8] + (enc_eip1559(tx) + tail);
            codec_spec(rest) == Some(
                GTypedTransaction::Eip1559(GTxEip1559 { tx_hash: Some(keccak_of(rest)), ..tx }),
            )
        }),
{
    let e = enc_eip1559(tx);
    let rest = seq![2u8] + (e + tail);
    assert(rest.subrange(0, rest.len() as int) =~= rest);
    lemma_concat_parts(rest, 0, seq![2u8], e + tail);
    assert(rest[0] == 2);
    lemma_concat_parts(rest, 1, e, tail);
    lemma_parse_eip1559_enc(rest, 1, tx);
    assert(codec_spec(rest) == Some(
        GTypedTransaction::Eip1559(GTxEip1559 { tx_hash: Some(keccak_of(rest)), ..tx }),
    ));
}

/// The dispatch table is closed: 0x01 yields at most an EIP-2930 result,
/// 0x02 at most an EIP-1559 one, a byte above 0x7f at most a legacy one, and
/// every other discriminant (0x00 included) yields nothing, as does an empty
/// payload.
pub proof fn lemma_codec_dispatch(rest: Seq<u8>)
    ensures
        rest.len() == 0 ==> codec_spec(rest) is None,
        rest.len() > 0 && rest[0] > 0x7f ==> (codec_spec(rest) matches Some(t) ==> t is Legacy),
        rest.len() > 0 && rest[0] == 1 ==> (codec_spec(rest) matches Some(t) ==> t is Eip2930),
        rest.len() > 0 && rest[0] == 2 ==> (codec_spec(rest) matches Some(t) ==> t is Eip1559),
        rest.len() > 0 && rest[0] != 1 && rest[0] != 2 && rest[0] <= 0x7f ==> codec_spec(rest)
            is None,
{
}

} // verus!
