use std::sync::{Arc, Mutex};

use ppaass_core::collector::{
    TelemetryLog, TelemetryLossKind, TransportInfoCollector, TransportSnapshot, TransportTraffic,
    TransportTrafficType,
};

struct RecordingLog {
    events: Arc<Mutex<Vec<(TelemetryLossKind, String, usize)>>>,
}

impl TelemetryLog for RecordingLog {
    fn snapshot_dropped(&self, loss: TelemetryLossKind, snapshot: &TransportSnapshot) {
        self.events.lock().unwrap().push((loss, snapshot.id.clone(), 0));
    }

    fn traffic_dropped(&self, loss: TelemetryLossKind, traffic: &TransportTraffic) {
        self.events
            .lock()
            .unwrap()
            .push((loss, traffic.transport_id.clone(), traffic.bytes));
    }
}

#[test]
fn traffic_channel_closed_logs_every_attempt() {
    let (snapshot_tx, _snapshot_rx) = tokio::sync::mpsc::channel::<TransportSnapshot>(4);
    let (traffic_tx, traffic_rx) = tokio::sync::mpsc::channel::<TransportTraffic>(4);
    let events = Arc::new(Mutex::new(Vec::new()));
    let collector = TransportInfoCollector::new(
        snapshot_tx,
        traffic_tx,
        RecordingLog { events: events.clone() },
    );

    // Close the traffic channel's receiving side.
    drop(traffic_rx);

    // The publish call returns normally and logs a channel-closed event.
    collector.publish_transport_traffic(
        "transport-9".to_string(),
        TransportTrafficType::Upload,
        128,
    );
    {
        let logged = events.lock().unwrap();
        assert_eq!(logged.len(), 1);
        assert_eq!(logged[0].0, TelemetryLossKind::ChannelClosed);
        assert_eq!(logged[0].1, "transport-9");
        assert_eq!(logged[0].2, 128);
    }

    // The closed condition is not cached: a later call attempts delivery
    // again and produces another channel-closed event.
    collector.publish_transport_traffic(
        "transport-9".to_string(),
        TransportTrafficType::Download,
        256,
    );
    {
        let logged = events.lock().unwrap();
        assert_eq!(logged.len(), 2);
        assert_eq!(logged[1].0, TelemetryLossKind::ChannelClosed);
        assert_eq!(logged[1].2, 256);
    }
}
