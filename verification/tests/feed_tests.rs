use sequencer_feed::feed_client::{
    loss_report, loss_report_outcome, next_action, continue_after_forward, header_connection,
    header_feed_client_version, header_requested_sequence, header_upgrade, ConnectionUpdate,
    FeedAction, FeedEvent, RelayError,
};
use sequencer_feed::types::{
    BroadcastFeedMessage, Header, L1IncomingMessageHeader, MessageWithMetadata, Root,
    TypedTransaction,
};

fn b64(bytes: &[u8]) -> String {
    base64::Engine::encode(&base64::engine::general_purpose::STANDARD, bytes)
}

/// Builds a library `Root` from one inbound JSON frame, the way the reading
/// side does: unknown JSON fields ignored, the opaque header values kept as
/// raw text.
fn root_from_json(frame: &str) -> Option<Root> {
    let v: serde_json::Value = serde_json::from_str(frame).ok()?;
    let mut messages = Vec::new();
    for m in v.get("messages")?.as_array()? {
        let msg = m.get("message")?;
        let inner = msg.get("message")?;
        let h = inner.get("header")?;
        messages.push(BroadcastFeedMessage {
            sequence_number: m.get("sequenceNumber")?.as_i64()?,
            message: MessageWithMetadata {
                message: L1IncomingMessageHeader {
                    header: Header {
                        kind: h.get("kind")?.as_i64()?,
                        sender: h.get("sender")?.as_str()?.to_string(),
                        block_number: h.get("blockNumber")?.as_i64()?,
                        timestamp: h.get("timestamp")?.as_i64()?,
                        request_id: h.get("requestId")?.to_string(),
                        base_fee_l1: h.get("baseFeeL1")?.to_string(),
                    },
                    l2msg: inner.get("l2Msg")?.as_str()?.to_string(),
                },
                delayed_messages_read: msg.get("delayedMessagesRead")?.as_i64()?,
            },
        });
    }
    Some(Root { version: v.get("version")?.as_i64()?, messages })
}

#[test]
fn end_to_end_frame_to_eip2930_transaction() {
    // One frame: version 1, one kind-3 message whose payload decodes to
    // [0x04, 0x01, <EIP-2930 list>].
    let rlp = vec![0xcb, 0x09, 0x01, 0x02, 0x03, 0x80, 0x04, 0x80, 0xc0, 0x05, 0x06, 0x07];
    let mut rest = vec![0x01u8];
    rest.extend_from_slice(&rlp);
    let mut payload = vec![0x04u8];
    payload.extend_from_slice(&rest);
    let frame = format!(
        "{{\"version\":1,\"messages\":[{{\"sequenceNumber\":42,\"message\":{{\"message\":{{\"header\":{{\"kind\":3,\"sender\":\"0xfeed\",\"blockNumber\":7,\"timestamp\":9,\"requestId\":null,\"baseFeeL1\":null,\"extraField\":true}},\"l2Msg\":\"{}\"}},\"delayedMessagesRead\":0}}}}]}}",
        b64(&payload)
    );
    let root = root_from_json(&frame).expect("frame parses");
    assert_eq!(root.version, 1);
    assert_eq!(root.messages.len(), 1);
    assert_eq!(root.messages[0].sequence_number, 42);

    // The reader forwards the parsed root unchanged.
    let action = next_action(FeedEvent::Frame(Some(root.clone())));
    assert_eq!(action, FeedAction::Forward(root.clone()));

    // The delivered message decodes to exactly one EIP-2930 transaction whose
    // hash is the digest of [0x01, <list>].
    let txs = root.messages[0].message.message.decode().expect("decodes");
    assert_eq!(txs.len(), 1);
    match &txs[0] {
        TypedTransaction::Eip2930(tx) => {
            assert_eq!(tx.chain_id, 9);
            assert_eq!(
                tx.tx_hash.as_ref().unwrap().bytes,
                alloy_primitives::keccak256(&rest).to_vec()
            );
        }
        other => panic!("wrong variant: {:?}", other),
    }
}

#[test]
fn malformed_frame_is_dropped_and_reading_goes_on() {
    assert_eq!(root_from_json("this is not json"), None);
    assert_eq!(next_action(FeedEvent::Frame(None)), FeedAction::DelayAndContinue);
}

#[test]
fn transport_error_reports_loss_once_and_stops() {
    // The one action on a transport error is the reporting, stopping one.
    assert_eq!(next_action(FeedEvent::TransportError), FeedAction::ReportLossAndStop);
    // The report carries the reader's client id.
    assert_eq!(loss_report(7), ConnectionUpdate::StoppedSendingFrames(7));
    // No other event produces that action, so the report happens exactly once.
    assert_ne!(next_action(FeedEvent::Frame(None)), FeedAction::ReportLossAndStop);
    assert_ne!(next_action(FeedEvent::StreamEnded), FeedAction::ReportLossAndStop);
    // An accepted report ends the loop cleanly; a dropped control receiver is
    // the one fatal outcome.
    assert_eq!(loss_report_outcome(true), Ok(()));
    assert_eq!(loss_report_outcome(false), Err(RelayError::ControlChannelClosed));
}

#[test]
fn receiver_drop_ends_the_loop_cleanly() {
    assert!(continue_after_forward(true));
    assert!(!continue_after_forward(false));
    assert_eq!(next_action(FeedEvent::StreamEnded), FeedAction::Stop);
}

#[test]
fn handshake_headers_are_fixed() {
    assert_eq!(header_connection(), ("Connection", "Upgrade"));
    assert_eq!(header_upgrade(), ("Upgrade", "websocket"));
    assert_eq!(header_feed_client_version(), ("Arbitrum-Feed-Client-Version", "2"));
    assert_eq!(header_requested_sequence(), ("Arbitrum-Requested-Sequence-number", "0"));
}
