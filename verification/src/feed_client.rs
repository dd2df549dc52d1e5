use crate::types::Root;
use vstd::prelude::*;

verus! {

/// A connection-lifecycle report, sent on the control channel. The payload is
/// the client-identifying integer of the reader whose connection ended.
#[derive(Debug, Clone, PartialEq)]
pub enum ConnectionUpdate {
    StoppedSendingFrames(u32),
}

/// A fatal feed-reader failure, surfaced to whoever drives the reader.
#[derive(Debug, Clone, PartialEq)]
pub enum RelayError {
    /// The endpoint address is malformed (no host, or unparsable).
    InvalidUrl,
    /// The transport handshake failed.
    Handshake,
    /// The control channel's receiver is gone, so a connection loss could not
    /// be reported.
    ControlChannelClosed,
}

/// One event observed by the read loop.
#[derive(Debug, Clone, PartialEq)]
pub enum FeedEvent {
    /// A frame arrived; `Some` carries the parsed root, `None` marks a frame
    /// that failed to parse.
    Frame(Option<Root>),
    /// The transport failed (socket closed, protocol violation).
    TransportError,
    /// The transport ended without an error.
    StreamEnded,
}

/// What the read loop does next in response to one event.
#[derive(Debug, Clone, PartialEq)]
pub enum FeedAction {
    /// Hand the parsed root to the delivery channel, in arrival order.
    Forward(Root),
    /// Discard the malformed frame, wait a short fixed delay, keep reading.
    DelayAndContinue,
    /// Report the connection loss on the control channel, then stop.
    ReportLossAndStop,
    /// Stop cleanly.
    Stop,
}

/// Whether the loop reads no further frame after the action.
pub open spec fn is_terminal(a: FeedAction) -> bool {
    match a {
        FeedAction::Forward(_) => false,
        FeedAction::DelayAndContinue => false,
        FeedAction::ReportLossAndStop => true,
        FeedAction::Stop => true,
    }
}

/// The read loop's full decision rule, one action per event.
pub open spec fn next_action_spec(event: FeedEvent) -> FeedAction {
    match event {
        FeedEvent::Frame(Some(root)) => FeedAction::Forward(root),
        FeedEvent::Frame(None) => FeedAction::DelayAndContinue,
        FeedEvent::TransportError => FeedAction::ReportLossAndStop,
        FeedEvent::StreamEnded => FeedAction::Stop,
    }
}

/// Decides what the read loop does with one event: a parsed frame is
/// forwarded, a malformed frame is dropped after a short delay, a transport
/// error is reported once and ends the loop, a clean stream end just ends it.
pub fn next_action(event: FeedEvent) -> (r: FeedAction)
    ensures
        r == next_action_spec(event),
{
    match event {
        FeedEvent::Frame(Some(root)) => FeedAction::Forward(root),
        FeedEvent::Frame(None) => FeedAction::DelayAndContinue,
        FeedEvent::TransportError => FeedAction::ReportLossAndStop,
        FeedEvent::StreamEnded => FeedAction::Stop,
    }
}

/// The report sent on the control channel when reader `id` loses its
/// connection.
pub fn loss_report(id: u32) -> (r: ConnectionUpdate)
    ensures
        r == ConnectionUpdate::StoppedSendingFrames(id),
{
    ConnectionUpdate::StoppedSendingFrames(id)
}

/// After forwarding a root: keep reading while the delivery channel accepted
/// it; a dropped receiver ends the loop cleanly (no error).
pub fn continue_after_forward(delivery_ok: bool) -> (r: bool)
    ensures
        r == delivery_ok,
{
    delivery_ok
}

/// The loop's result once it stops after a transport error: clean if the
/// loss report was accepted, fatal if the control channel's receiver is gone.
pub fn loss_report_outcome(control_ok: bool) -> (r: Result<(), RelayError>)
    ensures
        r == (if control_ok {
            Result::<(), RelayError>::Ok(())
        } else {
            Result::<(), RelayError>::Err(RelayError::ControlChannelClosed)
        }),
{
    if control_ok {
        Result::Ok(())
    } else {
        Result::Err(RelayError::ControlChannelClosed)
    }
}

/// A transport error is handled by exactly one loss report and no further
/// read: its action is the reporting one, and that action is terminal.
pub proof fn lemma_transport_error_reports_once()
    ensures
        next_action_spec(FeedEvent::TransportError) == FeedAction::ReportLossAndStop,
        is_terminal(next_action_spec(FeedEvent::TransportError)),
        forall|e: FeedEvent|
            next_action_spec(e) == FeedAction::ReportLossAndStop ==> e == FeedEvent::TransportError,
{
    assert forall|e: FeedEvent|
        next_action_spec(e) == FeedAction::ReportLossAndStop implies e
        == FeedEvent::TransportError by {
        match e {
            FeedEvent::Frame(Some(_)) => {},
            FeedEvent::Frame(None) => {},
            FeedEvent::TransportError => {},
            FeedEvent::StreamEnded => {},
        }
    }
}

/// A parsed frame is forwarded unchanged and in place: its action carries the
/// very root that arrived, and reading goes on.
pub proof fn lemma_frames_forwarded_in_order(root: Root)
    ensures
        next_action_spec(FeedEvent::Frame(Some(root))) == FeedAction::Forward(root),
        !is_terminal(next_action_spec(FeedEvent::Frame(Some(root)))),
{
}

// ---------------------------------------------------------------------------
// The fixed handshake headers of the feed protocol.
// ---------------------------------------------------------------------------

/// Name and value of the upgrade header.
pub fn header_connection() -> (r: (&'static str, &'static str))
    ensures
        r.0@ == "Connection"@,
        r.1@ == "Upgrade"@,
{
    ("Connection", "Upgrade")
}

/// Name and value of the protocol-token header.
pub fn header_upgrade() -> (r: (&'static str, &'static str))
    ensures
        r.0@ == "Upgrade"@,
        r.1@ == "websocket"@,
{
    ("Upgrade", "websocket")
}

/// Name and value of the feed-protocol version header, fixed at "2".
pub fn header_feed_client_version() -> (r: (&'static str, &'static str))
    ensures
        r.0@ == "Arbitrum-Feed-Client-Version"@,
        r.1@ == "2"@,
{
    ("Arbitrum-Feed-Client-Version", "2")
}

/// Name and value of the requested-starting-sequence header, fixed at "0":
/// replay from the beginning of the currently buffered feed.
pub fn header_requested_sequence() -> (r: (&'static str, &'static str))
    ensures
        r.0@ == "Arbitrum-Requested-Sequence-number"@,
        r.1@ == "0"@,
{
    ("Arbitrum-Requested-Sequence-number", "0")
}

} // verus!
