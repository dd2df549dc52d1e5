use sequencer_feed::types::{
    Header, L1IncomingMessageHeader, TxKind, TypedTransaction,
};

fn keccak(bytes: &[u8]) -> Vec<u8> {
    alloy_primitives::keccak256(bytes).to_vec()
}

fn b64(bytes: &[u8]) -> String {
    base64::Engine::encode(&base64::engine::general_purpose::STANDARD, bytes)
}

fn header_with(kind: i64, l2msg: String) -> L1IncomingMessageHeader {
    L1IncomingMessageHeader {
        header: Header {
            kind,
            sender: String::from("0xsender"),
            block_number: 100,
            timestamp: 1_700_000_000,
            request_id: String::from("null"),
            base_fee_l1: String::from("null"),
        },
        l2msg,
    }
}

/// A 10-byte legacy transaction: nonce 1, gas price 2, gas limit 3, creation,
/// value 4, empty data, v 5, r 6, s 7.
fn legacy_tx_bytes() -> Vec<u8> {
    vec![0xc9, 0x01, 0x02, 0x03, 0x80, 0x04, 0x80, 0x05, 0x06, 0x07]
}

#[test]
fn legacy_roundtrip_fields_and_hash() {
    let tx_bytes = legacy_tx_bytes();
    let mut payload = vec![0x04u8];
    payload.extend_from_slice(&tx_bytes);
    let txs = L1IncomingMessageHeader::parse_l2_message(payload).expect("decodes");
    assert_eq!(txs.len(), 1);
    match &txs[0] {
        TypedTransaction::Legacy(tx) => {
            assert_eq!(tx.nonce, 1);
            assert_eq!(tx.gas_price, 2);
            assert_eq!(tx.gas_limit, 3);
            assert_eq!(tx.to, TxKind::Create);
            assert_eq!(tx.value.bytes, vec![0x04]);
            assert_eq!(tx.data, Vec::<u8>::new());
            assert_eq!(tx.v, 5);
            assert_eq!(tx.r.bytes, vec![0x06]);
            assert_eq!(tx.s.bytes, vec![0x07]);
            assert_eq!(tx.tx_hash.as_ref().unwrap().bytes, keccak(&tx_bytes));
        }
        other => panic!("wrong variant: {:?}", other),
    }
}

#[test]
fn legacy_with_address_and_long_data() {
    // nonce 1, gas price 2, gas limit 3, call to 0x11..11, value 4,
    // 60 bytes of data (long-string header), v 5, r 6, s 7.
    let mut fields = vec![0x01, 0x02, 0x03, 0x94];
    fields.extend_from_slice(&[0x11; 20]);
    fields.push(0x04);
    fields.push(0xb8);
    fields.push(60);
    fields.extend_from_slice(&[0x5a; 60]);
    fields.extend_from_slice(&[0x05, 0x06, 0x07]);
    let mut tx_bytes = vec![0xf8, fields.len() as u8];
    tx_bytes.extend_from_slice(&fields);
    let mut payload = vec![0x04u8];
    payload.extend_from_slice(&tx_bytes);
    let txs = L1IncomingMessageHeader::parse_l2_message(payload).expect("decodes");
    match &txs[0] {
        TypedTransaction::Legacy(tx) => {
            assert_eq!(tx.to, TxKind::Call(sequencer_feed::types::Address { bytes: vec![0x11; 20] }));
            assert_eq!(tx.data, vec![0x5a; 60]);
            assert_eq!(tx.tx_hash.as_ref().unwrap().bytes, keccak(&tx_bytes));
        }
        other => panic!("wrong variant: {:?}", other),
    }
}

#[test]
fn eip2930_roundtrip_fields_and_hash() {
    // chain id 9, nonce 1, gas price 2, gas 3, creation, value 4, empty data,
    // empty access list, v 5, r 6, s 7.
    let rlp = vec![0xcb, 0x09, 0x01, 0x02, 0x03, 0x80, 0x04, 0x80, 0xc0, 0x05, 0x06, 0x07];
    let mut rest = vec![0x01u8];
    rest.extend_from_slice(&rlp);
    let mut payload = vec![0x04u8];
    payload.extend_from_slice(&rest);
    let txs = L1IncomingMessageHeader::parse_l2_message(payload).expect("decodes");
    assert_eq!(txs.len(), 1);
    match &txs[0] {
        TypedTransaction::Eip2930(tx) => {
            assert_eq!(tx.chain_id, 9);
            assert_eq!(tx.nonce, 1);
            assert_eq!(tx.gas_price, 2);
            assert_eq!(tx.gas, 3);
            assert_eq!(tx.to, TxKind::Create);
            assert_eq!(tx.value.bytes, vec![0x04]);
            assert_eq!(tx.data, Vec::<u8>::new());
            assert_eq!(tx.access_list.items.len(), 0);
            assert_eq!(tx.v, 5);
            // The hash covers the discriminant byte and the list.
            assert_eq!(tx.tx_hash.as_ref().unwrap().bytes, keccak(&rest));
        }
        other => panic!("wrong variant: {:?}", other),
    }
}

#[test]
fn eip2930_with_access_list() {
    // One entry: address 0x22..22 with one storage key 0x33..33.
    let mut keys_list = vec![0xe1, 0xa0];
    keys_list.extend_from_slice(&[0x33; 32]);
    let mut item = vec![0xf7, 0x94];
    item.extend_from_slice(&[0x22; 20]);
    item.extend_from_slice(&keys_list);
    let mut al = vec![0xf8, item.len() as u8];
    al.extend_from_slice(&item);

    let mut fields = vec![0x0a, 0x0b, 0x0c, 0x0d, 0x80, 0x0e, 0x80];
    fields.extend_from_slice(&al);
    fields.extend_from_slice(&[0x0f, 0x10, 0x11]);
    let mut rest = vec![0x01, 0xf8, fields.len() as u8];
    rest.extend_from_slice(&fields);
    let mut payload = vec![0x04u8];
    payload.extend_from_slice(&rest);

    let txs = L1IncomingMessageHeader::parse_l2_message(payload).expect("decodes");
    match &txs[0] {
        TypedTransaction::Eip2930(tx) => {
            assert_eq!(tx.chain_id, 0x0a);
            assert_eq!(tx.access_list.items.len(), 1);
            let entry = &tx.access_list.items[0];
            assert_eq!(entry.address.bytes, vec![0x22; 20]);
            assert_eq!(entry.storage_keys.len(), 1);
            assert_eq!(entry.storage_keys[0].bytes, vec![0x33; 32]);
            assert_eq!(tx.tx_hash.as_ref().unwrap().bytes, keccak(&rest));
        }
        other => panic!("wrong variant: {:?}", other),
    }
}

#[test]
fn eip1559_roundtrip_fields_and_hash() {
    // chain id 9, nonce 1, max priority fee 2, max fee 3, gas 4, creation,
    // value 5, empty data, empty access list, v 6, r 7, s 8.
    let rlp = vec![
        0xcc, 0x09, 0x01, 0x02, 0x03, 0x04, 0x80, 0x05, 0x80, 0xc0, 0x06, 0x07, 0x08,
    ];
    let mut rest = vec![0x02u8];
    rest.extend_from_slice(&rlp);
    let mut payload = vec![0x04u8];
    payload.extend_from_slice(&rest);
    let txs = L1IncomingMessageHeader::parse_l2_message(payload).expect("decodes");
    match &txs[0] {
        TypedTransaction::Eip1559(tx) => {
            assert_eq!(tx.chain_id, 9);
            assert_eq!(tx.nonce, 1);
            assert_eq!(tx.max_priority_fee_per_gas, 2);
            assert_eq!(tx.max_fee_per_gas, 3);
            assert_eq!(tx.gas, 4);
            assert_eq!(tx.to, TxKind::Create);
            assert_eq!(tx.value.bytes, vec![0x05]);
            assert_eq!(tx.v, 6);
            assert_eq!(tx.tx_hash.as_ref().unwrap().bytes, keccak(&rest));
        }
        other => panic!("wrong variant: {:?}", other),
    }
}

#[test]
fn dispatch_unrecognized_discriminants_yield_nothing() {
    // 0x00, 0x03 and other bytes in 0x03..=0x7f are not recognized.
    for d in [0x00u8, 0x03, 0x10, 0x7f] {
        let payload = vec![0x04, d, 0xc9, 0x01, 0x02, 0x03, 0x80, 0x04, 0x80, 0x05, 0x06, 0x07];
        assert!(L1IncomingMessageHeader::parse_l2_message(payload).is_none());
    }
}

#[test]
fn dispatch_shape_must_match_discriminant() {
    // A 9-field legacy shape under discriminant 0x01 fails the EIP-2930 shape.
    let payload = vec![0x04, 0x01, 0xc9, 0x01, 0x02, 0x03, 0x80, 0x04, 0x80, 0x05, 0x06, 0x07];
    assert!(L1IncomingMessageHeader::parse_l2_message(payload).is_none());
}

#[test]
fn payload_kind_other_than_signed_tx_yields_nothing() {
    // Kind 3 (the disabled batch path) and other kinds are skipped.
    for kind in [0x00u8, 0x03, 0x05, 0xff] {
        let mut payload = vec![kind];
        payload.extend_from_slice(&legacy_tx_bytes());
        assert!(L1IncomingMessageHeader::parse_l2_message(payload).is_none());
    }
    assert!(L1IncomingMessageHeader::parse_l2_message(Vec::new()).is_none());
}

#[test]
fn malformed_rlp_yields_nothing() {
    // Truncated list.
    assert!(L1IncomingMessageHeader::parse_l2_message(vec![0x04, 0xc9, 0x01]).is_none());
    // A string item where the transaction list should stand.
    assert!(L1IncomingMessageHeader::parse_l2_message(vec![0x04, 0x85, 1, 2, 3, 4, 5]).is_none());
    // Non-canonical integer: leading zero in the nonce.
    assert!(L1IncomingMessageHeader::parse_l2_message(vec![
        0x04, 0xc9, 0x00, 0x02, 0x03, 0x80, 0x04, 0x80, 0x05, 0x06, 0x07
    ])
    .is_none());
}

#[test]
fn trailing_bytes_are_tolerated() {
    let tx_bytes = legacy_tx_bytes();
    let mut payload = vec![0x04u8];
    payload.extend_from_slice(&tx_bytes);
    payload.extend_from_slice(&[0xde, 0xad, 0xbe, 0xef]);
    let txs = L1IncomingMessageHeader::parse_l2_message(payload.clone()).expect("decodes");
    assert_eq!(txs.len(), 1);
    // The hash covers the trailing bytes: it is taken over the exact slice
    // handed to the decoder.
    match &txs[0] {
        TypedTransaction::Legacy(tx) => {
            assert_eq!(tx.tx_hash.as_ref().unwrap().bytes, keccak(&payload[1..]));
        }
        other => panic!("wrong variant: {:?}", other),
    }
}

#[test]
fn decode_requires_l2_message_kind() {
    let tx_bytes = legacy_tx_bytes();
    let mut payload = vec![0x04u8];
    payload.extend_from_slice(&tx_bytes);
    let encoded = b64(&payload);
    assert!(header_with(3, encoded.clone()).decode().is_some());
    for kind in [0i64, 1, 2, 4, 5, -1] {
        assert!(header_with(kind, encoded.clone()).decode().is_none());
    }
}

#[test]
fn decode_rejects_bad_base64() {
    assert!(header_with(3, String::from("!!!not base64!!!")).decode().is_none());
    // Empty text decodes to an empty payload, which carries no message kind.
    assert!(header_with(3, String::new()).decode().is_none());
}

#[test]
fn size_ceiling_is_on_decoded_length() {
    // Exactly 256 KiB decoded: accepted (trailing padding is tolerated).
    let tx_bytes = legacy_tx_bytes();
    let mut payload = vec![0x04u8];
    payload.extend_from_slice(&tx_bytes);
    payload.resize(262144, 0x00);
    let ok = header_with(3, b64(&payload)).decode();
    assert!(ok.is_some());
    assert_eq!(ok.unwrap().len(), 1);
    // One byte more: rejected outright.
    payload.resize(262145, 0x00);
    assert!(header_with(3, b64(&payload)).decode().is_none());
}

#[test]
fn decoding_is_idempotent() {
    let tx_bytes = legacy_tx_bytes();
    let mut payload = vec![0x04u8];
    payload.extend_from_slice(&tx_bytes);
    let h = header_with(3, b64(&payload));
    let first = h.decode();
    let second = h.decode();
    assert_eq!(first, second);
    assert!(first.is_some());
}

#[test]
fn into_info_projects_the_common_fields() {
    let tx_bytes = legacy_tx_bytes();
    let mut payload = vec![0x04u8];
    payload.extend_from_slice(&tx_bytes);
    let txs = L1IncomingMessageHeader::parse_l2_message(payload).expect("decodes");
    let info = txs.into_iter().next().unwrap().into_info();
    assert_eq!(info.to, TxKind::Create);
    assert_eq!(info.value.bytes, vec![0x04]);
    assert_eq!(info.data, Vec::<u8>::new());
    assert_eq!(info.tx_hash.bytes, keccak(&tx_bytes));
}

#[test]
fn variant_accessors_match_the_variant() {
    let tx_bytes = legacy_tx_bytes();
    let mut payload = vec![0x04u8];
    payload.extend_from_slice(&tx_bytes);
    let decode = || {
        L1IncomingMessageHeader::parse_l2_message(payload.clone())
            .unwrap()
            .into_iter()
            .next()
            .unwrap()
    };
    assert!(decode().into_legacy().is_some());
    assert!(decode().into_eip2930().is_none());
    assert!(decode().into_eip1559().is_none());
}

#[test]
fn scalar_decoding_matches_standard_rlp_encoder() {
    // Cross-check the handcrafted bytes against the standard RLP encoder:
    // the nonce 1000000 needs a multi-byte integer.
    let mut fields: Vec<u8> = Vec::new();
    fields.extend_from_slice(alloy_rlp::encode(1000000u64).as_slice());
    fields.extend_from_slice(alloy_rlp::encode(2u128).as_slice());
    fields.extend_from_slice(alloy_rlp::encode(3u64).as_slice());
    fields.push(0x80);
    fields.extend_from_slice(alloy_rlp::encode(4u64).as_slice());
    fields.push(0x80);
    fields.extend_from_slice(alloy_rlp::encode(5u64).as_slice());
    fields.extend_from_slice(alloy_rlp::encode(6u64).as_slice());
    fields.extend_from_slice(alloy_rlp::encode(7u64).as_slice());
    let mut payload = vec![0x04, 0xc0 + fields.len() as u8];
    payload.extend_from_slice(&fields);
    let txs = L1IncomingMessageHeader::parse_l2_message(payload).expect("decodes");
    match &txs[0] {
        TypedTransaction::Legacy(tx) => {
            assert_eq!(tx.nonce, 1000000);
            assert_eq!(tx.gas_price, 2);
            assert_eq!(tx.v, 5);
        }
        other => panic!("wrong variant: {:?}", other),
    }
}
