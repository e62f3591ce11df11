use clip_worker::sink::{Sink, SinkAction, BUFFER_CAP};

#[test]
fn sink_flushes_as_soon_as_capacity_is_reached() {
    assert_eq!(BUFFER_CAP, 128);
    let mut sink: Sink<u32> = Sink::new(3);
    assert!(matches!(sink.on_received(1), SinkAction::Poll));
    assert!(matches!(sink.on_received(2), SinkAction::Poll));
    // more items are still pending in the channel, the full buffer goes out anyway
    match sink.on_received(3) {
        SinkAction::Flush(batch) => assert_eq!(batch, vec![1, 2, 3]),
        _ => panic!("expected a flush"),
    }
    assert_eq!(sink.len(), 0);
    assert!(matches!(sink.on_received(4), SinkAction::Poll));
    assert_eq!(sink.len(), 1);
}

#[test]
fn sink_flushes_on_quiet_channel_and_sleeps_when_empty() {
    let mut sink: Sink<u32> = Sink::new(BUFFER_CAP);
    assert!(matches!(sink.on_empty(), SinkAction::Sleep));
    assert!(matches!(sink.on_received(7), SinkAction::Poll));
    match sink.on_empty() {
        SinkAction::Flush(batch) => assert_eq!(batch, vec![7]),
        _ => panic!("expected a flush"),
    }
    assert!(matches!(sink.on_empty(), SinkAction::Sleep));
}

#[test]
fn sink_flushes_rest_when_closed() {
    let mut sink: Sink<u32> = Sink::new(BUFFER_CAP);
    assert!(matches!(sink.on_received(5), SinkAction::Poll));
    assert!(matches!(sink.on_received(6), SinkAction::Poll));
    match sink.on_closed() {
        SinkAction::FlushAndStop(batch) => assert_eq!(batch, vec![5, 6]),
        _ => panic!("expected a final flush"),
    }
    match sink.on_closed() {
        SinkAction::FlushAndStop(batch) => assert!(batch.is_empty()),
        _ => panic!("expected a final flush"),
    }
    assert_eq!(sink.cap(), BUFFER_CAP);
}

#[test]
fn sink_stops_and_drops_buffer_after_failed_write() {
    let mut sink: Sink<u32> = Sink::new(BUFFER_CAP);
    assert!(matches!(sink.on_received(1), SinkAction::Poll));
    assert!(matches!(sink.on_flush_failed(), SinkAction::Stop));
    assert_eq!(sink.len(), 0);
}
