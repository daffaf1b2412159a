use pcap_async::packet_iterator::{classify, Signal, LOOP_STOPPED};
use pcap_async::{Config, Error, NativeEvent, Packet, PacketIterator, PacketIteratorItem, RecordHeader, Step};

fn engine(max_packets_read: usize, live_capture: bool) -> PacketIterator {
    let mut config = Config::default();
    config.with_max_packets_read(max_packets_read);
    PacketIterator::new(&config, live_capture)
}

fn header(n: u64) -> RecordHeader {
    RecordHeader { ts_sec: 100 + n, ts_usec: n, caplen: 2, len: 60 }
}

fn bytes(n: u64) -> Vec<u8> {
    vec![n as u8, (n + 1) as u8]
}

fn packet(n: u64) -> Packet {
    Packet::decode(Some(header(n)), Some(bytes(n))).unwrap()
}

fn fetched(code: i32, n: u64) -> NativeEvent {
    NativeEvent::Fetched { code, header: Some(header(n)), data: Some(bytes(n)) }
}

fn delivered(n: u64) -> NativeEvent {
    NativeEvent::Delivered { header: Some(header(n)), data: Some(bytes(n)) }
}

fn finish(item: PacketIteratorItem, stop_native: bool) -> Step {
    Step::Finish { item, stop_native }
}

#[test]
fn return_codes_fall_into_four_classes() {
    assert_eq!(LOOP_STOPPED, -2);
    assert_eq!(classify(-2), Signal::LoopStopped);
    assert_eq!(classify(-1), Signal::Failure);
    assert_eq!(classify(-3), Signal::Failure);
    assert_eq!(classify(i32::MIN), Signal::Failure);
    assert_eq!(classify(0), Signal::NoData);
    assert_eq!(classify(1), Signal::Delivered);
    assert_eq!(classify(17), Signal::Delivered);
    assert_eq!(classify(i32::MAX), Signal::Delivered);
}

#[test]
fn terminal_items_are_complete_and_failed() {
    assert!(PacketIteratorItem::Complete.is_terminal());
    assert!(PacketIteratorItem::Failed(Error::Dispatch { msg: "x".to_owned() }).is_terminal());
    assert!(!PacketIteratorItem::NoPackets.is_terminal());
    assert!(!PacketIteratorItem::Packets(vec![packet(0)]).is_terminal());
}

#[test]
fn new_engine_has_gathered_nothing() {
    let e = engine(1000, true);
    assert!(!e.is_complete());
    assert!(e.is_live_capture());
    assert_eq!(e.pending_len(), 0);
    assert_eq!(e.room(), 1000);
    assert!(!engine(5, false).is_live_capture());
}

#[test]
fn room_is_what_the_batch_can_still_take() {
    let mut e = engine(3, true);
    assert_eq!(e.room(), 3);
    assert_eq!(e.step(delivered(0)), Step::Continue);
    assert_eq!(e.room(), 2);
    assert_eq!(e.step(delivered(1)), Step::Continue);
    assert_eq!(e.room(), 1);
    assert_eq!(e.step(delivered(2)), Step::Continue);
    assert_eq!(e.pending_len(), 3);
    assert_eq!(e.room(), 1);
}

#[test]
fn room_is_at_least_one_and_fits_the_native_count() {
    assert_eq!(engine(0, true).room(), 1);
    assert_eq!(engine(1, true).room(), 1);
    assert_eq!(engine(i32::MAX as usize, true).room(), i32::MAX);
    assert_eq!(engine(i32::MAX as usize + 1, true).room(), i32::MAX);
    assert_eq!(engine(usize::MAX, true).room(), i32::MAX);
}

#[test]
fn fetched_records_gather_until_the_ceiling() {
    let mut e = engine(3, true);
    assert_eq!(e.step(fetched(1, 0)), Step::Continue);
    assert_eq!(e.pending_len(), 1);
    assert_eq!(e.step(fetched(1, 1)), Step::Continue);
    assert_eq!(e.pending_len(), 2);
    assert_eq!(
        e.step(fetched(1, 2)),
        finish(PacketIteratorItem::Packets(vec![packet(0), packet(1), packet(2)]), false)
    );
    assert_eq!(e.pending_len(), 0);
    assert!(!e.is_complete());
    assert_eq!(e.step(fetched(1, 3)), Step::Continue);
    assert_eq!(e.pending_len(), 1);
}

#[test]
fn a_record_that_does_not_decode_is_dropped_and_the_cycle_goes_on() {
    let mut e = engine(2, true);
    assert_eq!(
        e.step(NativeEvent::Fetched { code: 1, header: None, data: Some(bytes(0)) }),
        Step::Continue
    );
    assert_eq!(
        e.step(NativeEvent::Fetched { code: 1, header: Some(header(0)), data: None }),
        Step::Continue
    );
    assert_eq!(
        e.step(NativeEvent::Fetched { code: 1, header: Some(header(0)), data: Some(vec![1]) }),
        Step::Continue
    );
    assert_eq!(e.step(NativeEvent::Delivered { header: None, data: None }), Step::Continue);
    assert_eq!(e.pending_len(), 0);
    assert_eq!(e.step(fetched(1, 5)), Step::Continue);
    assert_eq!(
        e.step(fetched(1, 6)),
        finish(PacketIteratorItem::Packets(vec![packet(5), packet(6)]), false)
    );
}

#[test]
fn the_record_of_a_fetch_counts_only_with_a_positive_code() {
    let mut e = engine(10, true);
    assert_eq!(e.step(fetched(0, 0)), finish(PacketIteratorItem::NoPackets, false));
    assert_eq!(e.pending_len(), 0);
    assert_eq!(e.step(fetched(1, 1)), Step::Continue);
    assert_eq!(e.step(fetched(0, 2)), finish(PacketIteratorItem::Packets(vec![packet(1)]), false));
    assert_eq!(e.step(fetched(-2, 3)), finish(PacketIteratorItem::Complete, false));
}

#[test]
fn no_data_yields_no_packets_or_what_was_gathered() {
    let mut live = engine(10, true);
    assert_eq!(
        live.step(NativeEvent::Returned { code: 0 }),
        finish(PacketIteratorItem::NoPackets, false)
    );
    assert!(!live.is_complete());
    assert_eq!(live.step(delivered(0)), Step::Continue);
    assert_eq!(live.step(delivered(1)), Step::Continue);
    assert_eq!(live.step(NativeEvent::Returned { code: 2 }), Step::Continue);
    assert_eq!(
        live.step(NativeEvent::Returned { code: 0 }),
        finish(PacketIteratorItem::Packets(vec![packet(0), packet(1)]), false)
    );
    assert_eq!(live.pending_len(), 0);
}

#[test]
fn no_data_on_a_replay_asks_for_the_loop_to_stop() {
    let mut file = engine(10, false);
    assert_eq!(
        file.step(NativeEvent::Returned { code: 0 }),
        finish(PacketIteratorItem::NoPackets, true)
    );
    assert_eq!(file.step(delivered(0)), Step::Continue);
    assert_eq!(file.step(NativeEvent::Returned { code: 1 }), Step::Continue);
    assert_eq!(
        file.step(NativeEvent::Returned { code: 0 }),
        finish(PacketIteratorItem::Packets(vec![packet(0)]), true)
    );
    assert_eq!(
        file.step(NativeEvent::Returned { code: -2 }),
        finish(PacketIteratorItem::Complete, false)
    );
    assert!(file.is_complete());
}

#[test]
fn a_stopped_loop_hands_out_the_batch_and_then_completes() {
    let mut e = engine(10, true);
    assert_eq!(e.step(fetched(1, 0)), Step::Continue);
    assert_eq!(e.step(fetched(1, 1)), Step::Continue);
    assert_eq!(
        e.step(fetched(-2, 9)),
        finish(PacketIteratorItem::Packets(vec![packet(0), packet(1)]), false)
    );
    assert!(!e.is_complete());
    assert_eq!(e.step(fetched(-2, 9)), finish(PacketIteratorItem::Complete, false));
    assert!(e.is_complete());
}

#[test]
fn a_stopped_bulk_dispatch_keeps_what_was_gathered() {
    let mut e = engine(10, true);
    assert_eq!(e.step(delivered(0)), Step::Continue);
    assert_eq!(e.step(NativeEvent::Returned { code: 1 }), Step::Continue);
    assert_eq!(
        e.step(NativeEvent::Returned { code: -2 }),
        finish(PacketIteratorItem::Packets(vec![packet(0)]), false)
    );
    assert_eq!(
        e.step(NativeEvent::Returned { code: -2 }),
        finish(PacketIteratorItem::Complete, false)
    );
}

#[test]
fn a_hard_failure_discards_the_batch_and_reports_the_diagnostic() {
    let mut e = engine(10, true);
    assert_eq!(e.step(fetched(1, 0)), Step::Continue);
    assert_eq!(e.step(fetched(1, 1)), Step::Continue);
    assert_eq!(e.step(fetched(-1, 2)), Step::Diagnose);
    assert_eq!(e.pending_len(), 0);
    assert_eq!(
        e.step(NativeEvent::Diagnostic { message: "read error".to_owned() }),
        finish(PacketIteratorItem::Failed(Error::Dispatch { msg: "read error".to_owned() }), false)
    );
    assert!(e.is_complete());
    assert_eq!(e.step(fetched(1, 3)), finish(PacketIteratorItem::Complete, false));
    assert_eq!(e.pending_len(), 0);
}

#[test]
fn any_other_negative_code_is_a_hard_failure() {
    let mut e = engine(10, false);
    assert_eq!(e.step(NativeEvent::Returned { code: -3 }), Step::Diagnose);
    let mut f = engine(10, false);
    assert_eq!(f.step(fetched(i32::MIN, 0)), Step::Diagnose);
    assert_eq!(
        f.step(NativeEvent::Diagnostic { message: String::new() }),
        finish(PacketIteratorItem::Failed(Error::Dispatch { msg: String::new() }), false)
    );
}

#[test]
fn a_diagnostic_ends_the_session_at_any_time() {
    let mut e = engine(10, true);
    assert_eq!(e.step(fetched(1, 0)), Step::Continue);
    assert_eq!(
        e.step(NativeEvent::Diagnostic { message: "gone".to_owned() }),
        finish(PacketIteratorItem::Failed(Error::Dispatch { msg: "gone".to_owned() }), false)
    );
    assert!(e.is_complete());
    assert_eq!(e.pending_len(), 0);
}

#[test]
fn an_interrupt_before_anything_completes_the_session() {
    let mut e = engine(10, true);
    assert_eq!(e.step(NativeEvent::Interrupted), finish(PacketIteratorItem::Complete, false));
    assert!(e.is_complete());
}

#[test]
fn an_interrupt_in_mid_cycle_hands_out_what_was_gathered() {
    let mut e = engine(10, true);
    assert_eq!(e.step(fetched(1, 0)), Step::Continue);
    assert_eq!(e.step(fetched(1, 1)), Step::Continue);
    assert_eq!(
        e.step(NativeEvent::Interrupted),
        finish(PacketIteratorItem::Packets(vec![packet(0), packet(1)]), false)
    );
    assert!(!e.is_complete());
    assert_eq!(e.step(NativeEvent::Interrupted), finish(PacketIteratorItem::Complete, false));
    assert!(e.is_complete());
}

#[test]
fn a_completed_engine_answers_complete() {
    let mut e = engine(10, true);
    assert_eq!(e.step(NativeEvent::Interrupted), finish(PacketIteratorItem::Complete, false));
    assert_eq!(e.step(fetched(1, 0)), finish(PacketIteratorItem::Complete, false));
    assert_eq!(e.step(delivered(1)), finish(PacketIteratorItem::Complete, false));
    assert_eq!(
        e.step(NativeEvent::Returned { code: 0 }),
        finish(PacketIteratorItem::Complete, false)
    );
    assert_eq!(e.step(NativeEvent::Interrupted), finish(PacketIteratorItem::Complete, false));
    assert_eq!(e.pending_len(), 0);
    assert!(e.is_complete());
}

#[test]
fn bulk_deliveries_gather_until_the_call_returns() {
    let mut e = engine(3, true);
    assert_eq!(e.step(delivered(0)), Step::Continue);
    assert_eq!(e.step(delivered(1)), Step::Continue);
    assert_eq!(e.step(NativeEvent::Returned { code: 2 }), Step::Continue);
    assert_eq!(e.room(), 1);
    assert_eq!(e.step(delivered(2)), Step::Continue);
    assert_eq!(
        e.step(NativeEvent::Returned { code: 1 }),
        finish(PacketIteratorItem::Packets(vec![packet(0), packet(1), packet(2)]), false)
    );
    assert_eq!(e.room(), 3);
}

#[test]
fn a_ceiling_of_one_gives_batches_of_one() {
    let mut e = engine(1, true);
    for n in 0..5 {
        assert_eq!(e.step(fetched(1, n)), finish(PacketIteratorItem::Packets(vec![packet(n)]), false));
    }
}

#[test]
fn a_ceiling_of_zero_counts_as_one() {
    let mut e = engine(0, true);
    assert_eq!(
        e.step(NativeEvent::Fetched { code: 1, header: None, data: None }),
        Step::Continue
    );
    assert_eq!(e.step(fetched(1, 0)), finish(PacketIteratorItem::Packets(vec![packet(0)]), false));
    assert_eq!(e.step(fetched(1, 1)), finish(PacketIteratorItem::Packets(vec![packet(1)]), false));
}

#[test]
fn batches_hold_well_formed_packets_in_order_of_capture() {
    let mut e = engine(4, false);
    for n in 0..3 {
        assert_eq!(e.step(fetched(1, n)), Step::Continue);
    }
    match e.step(fetched(1, 3)) {
        Step::Finish { item: PacketIteratorItem::Packets(batch), stop_native } => {
            assert!(!stop_native);
            assert_eq!(batch.len(), 4);
            for (n, p) in batch.iter().enumerate() {
                assert_eq!(p.data().len(), p.actual_length() as usize);
                assert_eq!(p.timestamp().as_micros(), (100 + n as u128) * 1_000_000 + n as u128);
                assert_eq!(p.original_length(), 60);
            }
        },
        other => panic!("unexpected step {:?}", other),
    }
}
