//! Best-effort publication of per-connection telemetry.
//!
//! The collector holds two independent bounded channels — one for transport
//! state snapshots, one for byte-traffic records — whose sender handles are
//! shared by arbitrarily many concurrent transport-handling tasks. A publish
//! call never waits: when a channel is at capacity or its receiver has shut
//! down, the record is dropped, the injected telemetry log is told which of
//! the two happened, and the call still returns normally. Telemetry loss is
//! strictly internal: it is never surfaced to the caller, nothing is retried
//! or buffered, and a closed channel is not cached — every later call
//! attempts delivery again.

use tokio::sync::mpsc::Sender;
use vstd::prelude::*;

verus! {

/// The transport entity as the snapshot constructor sees it: the state that
/// a point-in-time snapshot records. Connection orchestration around it is
/// out of scope here.
#[derive(Debug)]
pub struct Transport {
    pub id: String,
}

/// An opaque point-in-time state record of one transport. It is created by
/// the publishing call, handed off to the snapshot channel, and never
/// mutated afterward.
#[derive(Debug)]
pub struct TransportSnapshot {
    pub id: String,
}

impl TransportSnapshot {
    /// Takes a point-in-time snapshot of the given transport.
    pub fn take_snapshot(transport: &Transport) -> (r: TransportSnapshot)
        ensures
            r.id == transport.id,
    {
        TransportSnapshot { id: transport.id.clone() }
    }
}

/// The direction of a byte-traffic record.
#[derive(Clone, Copy, Debug, PartialEq, Eq, Structural)]
pub enum TransportTrafficType {
    Upload,
    Download,
}

/// A byte-traffic record of one transport: how many bytes moved in which
/// direction.
#[derive(Debug)]
pub struct TransportTraffic {
    pub transport_id: String,
    pub traffic_type: TransportTrafficType,
    pub bytes: usize,
}

impl TransportTraffic {
    /// Creates a new traffic record.
    pub fn new(transport_id: String, traffic_type: TransportTrafficType, bytes: usize) -> (r:
        TransportTraffic)
        ensures
            r.transport_id == transport_id,
            r.traffic_type == traffic_type,
            r.bytes == bytes,
    {
        TransportTraffic { transport_id, traffic_type, bytes }
    }
}

/// Why a record was dropped instead of enqueued.
#[derive(Clone, Copy, Debug, PartialEq, Eq, Structural)]
pub enum TelemetryLossKind {
    /// The channel already held its capacity's worth of records.
    ChannelFull,
    /// The channel's receiving side has been shut down.
    ChannelClosed,
}

/// The operator-facing telemetry log, injected into the collector.
///
/// It is told about every dropped record, with the record's contents for
/// diagnosability. Implementations are expected to be cheap and non-blocking:
/// these calls sit on the data path's hot path.
pub trait TelemetryLog {
    /// A snapshot could not be enqueued and was dropped.
    fn snapshot_dropped(&self, loss: TelemetryLossKind, snapshot: &TransportSnapshot);

    /// A traffic record could not be enqueued and was dropped.
    fn traffic_dropped(&self, loss: TelemetryLossKind, traffic: &TransportTraffic);
}

/// The immediate outcome of a non-blocking enqueue attempt. On `Full` and
/// `Closed` the record comes back to the caller, who drops it.
pub enum TrySendOutcome<T> {
    Sent,
    Full(T),
    Closed(T),
}

/// Declares tokio::sync::mpsc::Sender so that it can stand in fields and
/// signatures. Values of it are opaque here; everything known about the
/// channel comes from the contract of [`try_send_now`].
#[verifier::external_type_specification]
#[verifier::external_body]
#[verifier::reject_recursive_types(T)]
pub struct ExSender<T>(Sender<T>);

/// Relies on tokio::sync::mpsc::Sender::try_send: the enqueue attempt
/// returns immediately without waiting; on success the value is transferred
/// to the channel, and when the channel is at capacity or its receiver has
/// been dropped the value comes back unchanged in the corresponding variant.
#[verifier::external_body]
fn try_send_now<T>(sender: &Sender<T>, value: T) -> (r: TrySendOutcome<T>)
    ensures
        match r {
            TrySendOutcome::Sent => true,
            TrySendOutcome::Full(v) => v == value,
            TrySendOutcome::Closed(v) => v == value,
        },
{
    match sender.try_send(value) {
        Ok(()) => TrySendOutcome::Sent,
        Err(tokio::sync::mpsc::error::TrySendError::Full(v)) => TrySendOutcome::Full(v),
        Err(tokio::sync::mpsc::error::TrySendError::Closed(v)) => TrySendOutcome::Closed(v),
    }
}

/// Publishes transport telemetry over two bounded channels, without ever
/// blocking or failing the publishing task.
pub struct TransportInfoCollector<L: TelemetryLog> {
    transport_snapshot_sender: Sender<TransportSnapshot>,
    transport_traffic_sender: Sender<TransportTraffic>,
    logger: L,
}

impl<L: TelemetryLog> TransportInfoCollector<L> {
    /// Creates a collector over the two channel senders and the injected
    /// telemetry log.
    pub fn new(
        transport_snapshot_sender: Sender<TransportSnapshot>,
        transport_traffic_sender: Sender<TransportTraffic>,
        logger: L,
    ) -> TransportInfoCollector<L> {
        TransportInfoCollector { transport_snapshot_sender, transport_traffic_sender, logger }
    }

    /// Takes a snapshot of the transport and attempts a non-blocking enqueue
    /// on the snapshot channel.
    ///
    /// The call always returns normally. When the channel is full or closed
    /// the snapshot is dropped and the telemetry log is told which happened —
    /// a closed channel is not remembered, so the next call attempts
    /// delivery again.
    pub fn publish_transport_snapshot(&self, transport: &Transport) {
        let snapshot = TransportSnapshot::take_snapshot(transport);
        match try_send_now(&self.transport_snapshot_sender, snapshot) {
            TrySendOutcome::Sent => {},
            TrySendOutcome::Full(dropped) => {
                self.logger.snapshot_dropped(TelemetryLossKind::ChannelFull, &dropped);
            },
            TrySendOutcome::Closed(dropped) => {
                self.logger.snapshot_dropped(TelemetryLossKind::ChannelClosed, &dropped);
            },
        }
    }

    /// Builds a traffic record and attempts a non-blocking enqueue on the
    /// traffic channel.
    ///
    /// The call always returns normally. When the channel is full or closed
    /// the record is dropped and the telemetry log is told which happened —
    /// a closed channel is not remembered, so the next call attempts
    /// delivery again.
    pub fn publish_transport_traffic(
        &self,
        transport_id: String,
        traffic_type: TransportTrafficType,
        bytes: usize,
    ) {
        let traffic = TransportTraffic::new(transport_id, traffic_type, bytes);
        match try_send_now(&self.transport_traffic_sender, traffic) {
            TrySendOutcome::Sent => {},
            TrySendOutcome::Full(dropped) => {
                self.logger.traffic_dropped(TelemetryLossKind::ChannelFull, &dropped);
            },
            TrySendOutcome::Closed(dropped) => {
                self.logger.traffic_dropped(TelemetryLossKind::ChannelClosed, &dropped);
            },
        }
    }
}

} // verus!
