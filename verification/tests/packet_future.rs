use pcap_async::{
    Config, Error, FuturePoll, Packet, PacketFuture, PacketIteratorItem, RecordHeader,
};

fn future(max_packets_read: usize, live_capture: bool) -> PacketFuture {
    let mut config = Config::default();
    config.with_max_packets_read(max_packets_read);
    PacketFuture::new(&config, live_capture)
}

fn packet(n: u8) -> Packet {
    let header = RecordHeader { ts_sec: 1, ts_usec: n as u64, caplen: 1, len: 1 };
    Packet::decode(Some(header), Some(vec![n])).unwrap()
}

#[test]
fn a_new_future_has_no_cycle_in_flight() {
    assert!(!future(10, true).is_outstanding());
}

#[test]
fn the_first_poll_schedules_a_fresh_engine() {
    let mut f = future(10, false);
    match f.poll() {
        FuturePoll::Schedule(engine) => {
            assert_eq!(engine.ceiling(), 10);
            assert_eq!(engine.room(), 10);
            assert_eq!(engine.pending_len(), 0);
            assert!(!engine.is_live_capture());
            assert!(!engine.is_complete());
        },
        FuturePoll::Check => panic!("nothing was in flight"),
    }
    assert!(f.is_outstanding());
}

#[test]
fn a_poll_with_a_cycle_in_flight_schedules_nothing() {
    let mut f = future(10, true);
    assert!(matches!(f.poll(), FuturePoll::Schedule(_)));
    for _ in 0..3 {
        assert!(matches!(f.poll(), FuturePoll::Check));
        assert!(f.is_outstanding());
    }
}

#[test]
fn a_finished_cycle_is_in_flight_no_longer() {
    let mut f = future(10, true);
    assert!(matches!(f.poll(), FuturePoll::Schedule(_)));
    assert_eq!(f.complete(PacketIteratorItem::NoPackets), None);
    assert!(!f.is_outstanding());
    assert!(matches!(f.poll(), FuturePoll::Schedule(_)));
    assert!(f.is_outstanding());
}

#[test]
fn outcomes_resolve_to_what_the_consumer_is_told() {
    let mut f = future(10, true);
    assert_eq!(f.complete(PacketIteratorItem::Complete), Some(Ok(None)));
    assert_eq!(f.complete(PacketIteratorItem::NoPackets), None);
    assert_eq!(
        f.complete(PacketIteratorItem::Packets(vec![packet(1), packet(2)])),
        Some(Ok(Some(vec![packet(1), packet(2)])))
    );
    let failure = Error::Dispatch { msg: "read failed".to_owned() };
    assert_eq!(f.complete(PacketIteratorItem::Failed(failure.clone())), Some(Err(failure)));
}

#[test]
fn a_batch_without_packets_resolves_to_nothing() {
    let mut f = future(10, true);
    assert!(matches!(f.poll(), FuturePoll::Schedule(_)));
    assert_eq!(f.complete(PacketIteratorItem::Packets(Vec::new())), None);
    assert!(!f.is_outstanding());
}
