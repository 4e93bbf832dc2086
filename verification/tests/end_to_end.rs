use service_sender::dispatch::Dispatcher;
use service_sender::dispatch::WorkItem;
use service_sender::pending::AwaitingRequests;
use service_sender::request::RequestData;
use service_sender::response::MessageKind;
use service_sender::response::Receiver;
use service_sender::response::Outcome;

const SECOND: u128 = 1_000_000_000;
const RESPONSE: MessageKind = MessageKind::ValueMultiplicationResponse;

#[test]
fn response_within_the_interval_resolves_the_request_without_a_resend() {
    let x = 0x1111_2222_3333_4444_8555_6666_7777_8888u128;
    let mut table = AwaitingRequests::new();
    let mut dispatcher = Dispatcher::new(0);
    let mut receiver = Receiver::new();
    dispatcher.put_fresh(3, 4, x);
    dispatcher.finish_transmit_on(&mut table, true, 0);
    assert_eq!(dispatcher.begin_cycle_on(&mut table, 2 * SECOND), None);
    let handled = receiver.handle_on(&mut table, RESPONSE, x, Some(12));
    assert_eq!(handled.outcome, Outcome::Confirmed);
    assert!(!table.contains(x));
    assert_eq!(table.len(), 0);
    assert_eq!(receiver.total_received(), 1);
    assert_eq!(dispatcher.begin_cycle_on(&mut table, 6 * SECOND), Some(0));
    assert_eq!(dispatcher.take_pending(), None);
    assert_eq!(dispatcher.total_sent(), 1);
}

#[test]
fn request_without_a_response_for_six_seconds_is_resent_once() {
    let y = 42u128;
    let mut table = AwaitingRequests::new();
    let mut dispatcher = Dispatcher::new(0);
    dispatcher.put_fresh(9, 8, y);
    dispatcher.finish_transmit_on(&mut table, true, 0);
    assert_eq!(dispatcher.begin_cycle_on(&mut table, 6 * SECOND), Some(1));
    assert_eq!(
        dispatcher.take_pending(),
        Some(WorkItem { id: y, value: 9, multiplier: 8, is_resend: true })
    );
    dispatcher.finish_transmit_on(&mut table, true, 6 * SECOND);
    assert_eq!(dispatcher.take_pending(), None);
    assert_eq!(table.len(), 1);
    assert_eq!(table.get(y), Some(RequestData::new(9, 8, 6 * SECOND)));
    assert_eq!(dispatcher.total_sent(), 2);
    assert_eq!(dispatcher.begin_cycle_on(&mut table, 6 * SECOND + 1), None);
    assert_eq!(dispatcher.take_pending(), None);
}

#[test]
fn response_for_an_id_never_dispatched_changes_nothing() {
    let mut table = AwaitingRequests::new();
    table.insert(1, RequestData::new(3, 4, 0));
    let mut receiver = Receiver::new();
    let handled = receiver.handle_on(&mut table, RESPONSE, 2, Some(12));
    assert_eq!(handled.outcome, Outcome::Unexpected);
    assert_eq!(handled.report, None);
    assert_eq!(table.len(), 1);
    assert_eq!(table.get(1), Some(RequestData::new(3, 4, 0)));
    assert_eq!(receiver.total_received(), 0);
}

#[test]
fn response_with_another_result_removes_the_record_and_counts_nothing() {
    let mut table = AwaitingRequests::new();
    table.insert(1, RequestData::new(3, 4, 0));
    let mut receiver = Receiver::new();
    let handled = receiver.handle_on(&mut table, RESPONSE, 1, Some(13));
    assert_eq!(handled.outcome, Outcome::Mismatch);
    assert_eq!(handled.report, None);
    assert!(!table.contains(1));
    assert_eq!(receiver.total_received(), 0);
}

#[test]
fn resolved_request_is_not_entered_again_by_a_late_resend() {
    let mut table = AwaitingRequests::new();
    let mut dispatcher = Dispatcher::new(0);
    let mut receiver = Receiver::new();
    dispatcher.put_fresh(3, 4, 5);
    dispatcher.finish_transmit_on(&mut table, true, 0);
    assert_eq!(dispatcher.begin_cycle_on(&mut table, 6 * SECOND), Some(1));
    let item = dispatcher.take_pending().unwrap();
    assert!(item.is_resend);
    assert_eq!(receiver.handle_on(&mut table, RESPONSE, 5, Some(12)).outcome, Outcome::Confirmed);
    dispatcher.finish_transmit_on(&mut table, true, 6 * SECOND);
    assert!(!table.contains(5));
    assert_eq!(dispatcher.begin_cycle_on(&mut table, 20 * SECOND), Some(0));
    assert_eq!(table.len(), 0);
}

#[test]
fn resend_never_changes_the_number_of_records() {
    let mut table = AwaitingRequests::new();
    let mut dispatcher = Dispatcher::new(0);
    for id in 1..=10u128 {
        dispatcher.put_fresh(2, 2, id);
        dispatcher.finish_transmit_on(&mut table, true, 0);
    }
    assert_eq!(dispatcher.begin_cycle_on(&mut table, 7 * SECOND), Some(10));
    assert_eq!(table.len(), 10);
    let mut resent = Vec::new();
    while let Some(item) = dispatcher.take_pending() {
        assert!(item.is_resend);
        resent.push(item.id);
        dispatcher.finish_transmit_on(&mut table, true, 7 * SECOND);
        assert_eq!(table.len(), 10);
    }
    resent.sort();
    assert_eq!(resent, (1..=10u128).collect::<Vec<u128>>());
}
