use service_sender::pending::AwaitingRequests;
use service_sender::request::RequestData;
use service_sender::response::Handled;
use service_sender::response::MessageKind;
use service_sender::response::Receiver;
use service_sender::response::Outcome;
use service_sender::store::AwaitingRequestsStorage;

fn reading<R>(storage: &AwaitingRequestsStorage, f: impl FnOnce(&AwaitingRequests) -> R) -> R {
    storage.read(f).expect("the table is free")
}

fn writing<R>(storage: &AwaitingRequestsStorage, f: impl FnOnce(&mut AwaitingRequests) -> R) -> R {
    storage.write(f).expect("the table is free")
}

fn table_with(id: u128, value: i64, multiplier: i64) -> AwaitingRequests {
    let mut table = AwaitingRequests::new();
    table.insert(id, RequestData::new(value, multiplier, 0));
    table
}

#[test]
fn only_multiplication_responses_are_looked_at() {
    assert!(Receiver::accepts_kind(MessageKind::ValueMultiplicationResponse));
    assert!(!Receiver::accepts_kind(MessageKind::ValueMultiplicationRequest));
    assert!(!Receiver::accepts_kind(MessageKind::Other));
}

#[test]
fn new_receiver_has_confirmed_nothing() {
    assert_eq!(Receiver::new().total_received(), 0);
}

#[test]
fn equal_result_is_confirmed_and_counted() {
    let mut receiver = Receiver::new();
    let handled = receiver.judge(12, 12);
    assert_eq!(handled, Handled { outcome: Outcome::Confirmed, report: None });
    assert_eq!(receiver.total_received(), 1);
}

#[test]
fn result_off_by_one_is_a_mismatch_and_not_counted() {
    let mut receiver = Receiver::new();
    assert_eq!(receiver.judge(12, 13).outcome, Outcome::Mismatch);
    assert_eq!(receiver.judge(12, 11).outcome, Outcome::Mismatch);
    assert_eq!(receiver.judge(12, -12).outcome, Outcome::Mismatch);
    assert_eq!(receiver.judge(i64::MAX, i64::MIN).outcome, Outcome::Mismatch);
    assert_eq!(receiver.total_received(), 0);
}

#[test]
fn progress_is_reported_at_every_hundredth_confirmation() {
    let mut receiver = Receiver::new();
    for confirmed in 1..=300u64 {
        let handled = receiver.judge(7, 7);
        if confirmed % 100 == 0 {
            assert_eq!(handled.report, Some(confirmed));
        } else {
            assert_eq!(handled.report, None);
        }
        assert_eq!(receiver.judge(7, 8).report, None);
    }
    assert_eq!(receiver.total_received(), 300);
}

#[test]
fn mismatch_at_a_multiple_of_the_group_size_reports_nothing() {
    let mut receiver = Receiver::new();
    assert_eq!(receiver.judge(1, 2), Handled { outcome: Outcome::Mismatch, report: None });
    for _ in 0..100 {
        receiver.judge(1, 1);
    }
    assert_eq!(receiver.judge(1, 2), Handled { outcome: Outcome::Mismatch, report: None });
    assert_eq!(receiver.total_received(), 100);
}

#[test]
fn message_of_another_kind_changes_nothing() {
    let mut table = table_with(7, 3, 4);
    let mut receiver = Receiver::new();
    for kind in [MessageKind::ValueMultiplicationRequest, MessageKind::Other] {
        let handled = receiver.handle_on(&mut table, kind, 7, Some(12));
        assert_eq!(handled, Handled { outcome: Outcome::Ignored, report: None });
        let undecoded = receiver.handle_on(&mut table, kind, 8, None);
        assert_eq!(undecoded, Handled { outcome: Outcome::Ignored, report: None });
    }
    assert_eq!(table.len(), 1);
    assert_eq!(table.get(7), Some(RequestData::new(3, 4, 0)));
    assert_eq!(receiver.total_received(), 0);
}

#[test]
fn undecodable_payload_leaves_the_request_pending() {
    let mut table = table_with(7, 3, 4);
    let mut receiver = Receiver::new();
    let handled = receiver.handle_on(&mut table, MessageKind::ValueMultiplicationResponse, 7, None);
    assert_eq!(handled, Handled { outcome: Outcome::Undecodable, report: None });
    assert_eq!(table.get(7), Some(RequestData::new(3, 4, 0)));
    assert_eq!(receiver.total_received(), 0);
    let later = receiver.handle_on(&mut table, MessageKind::ValueMultiplicationResponse, 7, Some(12));
    assert_eq!(later.outcome, Outcome::Confirmed);
}

#[test]
fn undecodable_payload_for_an_unknown_id_is_unexpected() {
    let mut table = table_with(7, 3, 4);
    let mut receiver = Receiver::new();
    let handled = receiver.handle_on(&mut table, MessageKind::ValueMultiplicationResponse, 8, None);
    assert_eq!(handled.outcome, Outcome::Unexpected);
    assert_eq!(table.len(), 1);
}

#[test]
fn duplicate_response_is_unexpected_the_second_time() {
    let mut table = table_with(7, 3, 4);
    let mut receiver = Receiver::new();
    let kind = MessageKind::ValueMultiplicationResponse;
    assert_eq!(receiver.handle_on(&mut table, kind, 7, Some(12)).outcome, Outcome::Confirmed);
    assert_eq!(receiver.handle_on(&mut table, kind, 7, Some(12)).outcome, Outcome::Unexpected);
    assert_eq!(receiver.total_received(), 1);
    assert_eq!(table.len(), 0);
}

#[test]
fn hundredth_confirmed_response_reports_the_total() {
    let mut table = AwaitingRequests::new();
    let mut receiver = Receiver::new();
    let kind = MessageKind::ValueMultiplicationResponse;
    for id in 1..=100u128 {
        table.insert(id, RequestData::new(id as i64, 2, 0));
    }
    for id in 1..=100u128 {
        let handled = receiver.handle_on(&mut table, kind, id, Some(2 * id as i64));
        assert_eq!(handled.outcome, Outcome::Confirmed);
        assert_eq!(handled.report, if id == 100 { Some(100) } else { None });
    }
    assert_eq!(table.len(), 0);
}

#[test]
fn look_up_copies_the_expected_result_out_of_the_shared_table() {
    let storage = AwaitingRequestsStorage::new();
    writing(&storage, move |table: &mut AwaitingRequests| table.insert(7, RequestData::new(3, 4, 0)));
    assert_eq!(Receiver::look_up(&storage, 7), Some(Some(12)));
    assert_eq!(Receiver::look_up(&storage, 8), Some(None));
    assert_eq!(reading(&storage, move |table: &AwaitingRequests| table.len()), 1);
}

#[test]
fn resolve_removes_the_record_from_the_shared_table_on_a_match() {
    let storage = AwaitingRequestsStorage::new();
    writing(&storage, move |table: &mut AwaitingRequests| table.insert(7, RequestData::new(3, 4, 0)));
    writing(&storage, move |table: &mut AwaitingRequests| table.insert(8, RequestData::new(5, 6, 0)));
    let mut receiver = Receiver::new();
    let expected = Receiver::look_up(&storage, 7).unwrap().unwrap();
    let handled = receiver.resolve(&storage, 7, expected, 12);
    assert_eq!(handled, Some(Handled { outcome: Outcome::Confirmed, report: None }));
    assert_eq!(Receiver::look_up(&storage, 7), Some(None));
    assert_eq!(Receiver::look_up(&storage, 8), Some(Some(30)));
    assert_eq!(receiver.total_received(), 1);
}

#[test]
fn resolve_removes_the_record_from_the_shared_table_on_a_mismatch() {
    let storage = AwaitingRequestsStorage::new();
    writing(&storage, move |table: &mut AwaitingRequests| table.insert(7, RequestData::new(3, 4, 0)));
    let mut receiver = Receiver::new();
    let expected = Receiver::look_up(&storage, 7).unwrap().unwrap();
    let handled = receiver.resolve(&storage, 7, expected, 13);
    assert_eq!(handled, Some(Handled { outcome: Outcome::Mismatch, report: None }));
    assert_eq!(Receiver::look_up(&storage, 7), Some(None));
    assert_eq!(receiver.total_received(), 0);
}

#[test]
fn expected_of_is_the_product_awaited_under_the_id() {
    let table = table_with(7, 3, 4);
    assert_eq!(Receiver::expected_of(&table, 7), Some(12));
    assert_eq!(Receiver::expected_of(&table, 8), None);
}

#[test]
fn look_up_in_a_busy_table_finds_out_nothing() {
    let storage = AwaitingRequestsStorage::new();
    let busy = storage.write(|table: &mut AwaitingRequests| {
        table.insert(7, RequestData::new(3, 4, 0));
        Receiver::look_up(&storage, 7)
    });
    assert_eq!(busy, Some(None));
    assert_eq!(Receiver::look_up(&storage, 7), Some(Some(12)));
}

#[test]
fn resolve_on_a_busy_table_changes_nothing_and_can_be_asked_again() {
    let storage = AwaitingRequestsStorage::new();
    writing(&storage, move |table: &mut AwaitingRequests| table.insert(7, RequestData::new(3, 4, 0)));
    let mut receiver = Receiver::new();
    let busy = storage.read(|_table: &AwaitingRequests| receiver.resolve(&storage, 7, 12, 12));
    assert_eq!(busy, Some(None));
    assert_eq!(receiver.total_received(), 0);
    assert_eq!(Receiver::look_up(&storage, 7), Some(Some(12)));
    let handled = receiver.resolve(&storage, 7, 12, 12);
    assert_eq!(handled, Some(Handled { outcome: Outcome::Confirmed, report: None }));
    assert_eq!(receiver.total_received(), 1);
    assert_eq!(Receiver::look_up(&storage, 7), Some(None));
}
