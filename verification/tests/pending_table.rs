use service_sender::pending::AwaitingRequests;
use service_sender::request::RequestData;

const SECOND: u128 = 1_000_000_000;

#[test]
fn new_table_is_empty() {
    let table = AwaitingRequests::new();
    assert_eq!(table.len(), 0);
    assert!(!table.contains(1));
    assert_eq!(table.get(1), None);
    assert!(table.ids().is_empty());
}

#[test]
fn inserted_record_is_found_under_its_id() {
    let mut table = AwaitingRequests::new();
    let record = RequestData::new(3, 4, 10);
    assert_eq!(table.insert(7, record), None);
    assert_eq!(table.len(), 1);
    assert!(table.contains(7));
    assert_eq!(table.get(7), Some(record));
    assert_eq!(table.get(8), None);
    assert_eq!(table.ids(), vec![7]);
}

#[test]
fn inserting_under_a_pending_id_replaces_the_record() {
    let mut table = AwaitingRequests::new();
    let first = RequestData::new(3, 4, 10);
    let second = RequestData::new(5, 6, 20);
    assert_eq!(table.insert(7, first), None);
    assert_eq!(table.insert(7, second), Some(first));
    assert_eq!(table.len(), 1);
    assert_eq!(table.get(7), Some(second));
}

#[test]
fn removed_record_is_gone() {
    let mut table = AwaitingRequests::new();
    let record = RequestData::new(3, 4, 10);
    let other = RequestData::new(1, 2, 10);
    table.insert(7, record);
    table.insert(8, other);
    assert_eq!(table.remove(7), Some(record));
    assert_eq!(table.remove(7), None);
    assert_eq!(table.len(), 1);
    assert!(!table.contains(7));
    assert_eq!(table.get(8), Some(other));
}

#[test]
fn ids_lists_every_pending_id_once() {
    let mut table = AwaitingRequests::new();
    for id in [5u128, 3, 9, u128::MAX] {
        table.insert(id, RequestData::new(1, 1, 0));
    }
    let mut ids = table.ids();
    ids.sort();
    assert_eq!(ids, vec![3, 5, 9, u128::MAX]);
}

#[test]
fn scan_of_an_empty_table_stages_nothing() {
    let mut table = AwaitingRequests::new();
    assert!(table.claim_stale(100 * SECOND).is_empty());
    assert_eq!(table.len(), 0);
}

#[test]
fn scan_stages_exactly_the_records_that_are_due() {
    let mut table = AwaitingRequests::new();
    table.insert(1, RequestData::new(2, 3, 0));
    table.insert(2, RequestData::new(4, 5, SECOND));
    table.insert(3, RequestData::new(6, 7, SECOND + 1));
    table.insert(4, RequestData::new(8, 9, 5 * SECOND));
    let now = 6 * SECOND;
    let mut staged = table.claim_stale(now);
    staged.sort_by_key(|entry| entry.0);
    assert_eq!(staged.len(), 1);
    assert_eq!(staged[0].0, 1);
    assert_eq!(staged[0].1.value(), 2);
    assert_eq!(staged[0].1.multiplier(), 3);
    assert_eq!(staged[0].1.expected_result(), 6);
    assert_eq!(staged[0].1.last_send_attempt_time(), now);
    assert_eq!(table.get(1), Some(staged[0].1));
    assert_eq!(table.get(2), Some(RequestData::new(4, 5, SECOND)));
    assert_eq!(table.get(3), Some(RequestData::new(6, 7, SECOND + 1)));
    assert_eq!(table.get(4), Some(RequestData::new(8, 9, 5 * SECOND)));
}

#[test]
fn scan_stages_every_due_record_once_and_keeps_the_ids() {
    let mut table = AwaitingRequests::new();
    for id in 0..50u128 {
        let sent_at = if id % 2 == 0 { 0 } else { 10 * SECOND };
        table.insert(id, RequestData::new(id as i64, 2, sent_at));
    }
    let now = 10 * SECOND;
    let staged = table.claim_stale(now);
    let mut staged_ids: Vec<u128> = staged.iter().map(|entry| entry.0).collect();
    staged_ids.sort();
    let expected: Vec<u128> = (0..50u128).filter(|id| id % 2 == 0).collect();
    assert_eq!(staged_ids, expected);
    assert_eq!(table.len(), 50);
    for (id, record) in staged {
        assert_eq!(record.value(), id as i64);
        assert_eq!(record.expected_result(), 2 * id as i64);
        assert_eq!(record.last_send_attempt_time(), now);
        assert_eq!(table.get(id), Some(record));
    }
    for id in (0..50u128).filter(|id| id % 2 == 1) {
        assert_eq!(table.get(id), Some(RequestData::new(id as i64, 2, 10 * SECOND)));
    }
}

#[test]
fn record_claimed_by_a_scan_is_not_claimed_again_within_the_interval() {
    let mut table = AwaitingRequests::new();
    table.insert(1, RequestData::new(2, 3, 0));
    assert_eq!(table.claim_stale(6 * SECOND).len(), 1);
    assert!(table.claim_stale(6 * SECOND).is_empty());
    assert!(table.claim_stale(11 * SECOND).is_empty());
    let again = table.claim_stale(11 * SECOND + 1);
    assert_eq!(again.len(), 1);
    assert_eq!(again[0].0, 1);
    assert_eq!(again[0].1.last_send_attempt_time(), 11 * SECOND + 1);
    assert_eq!(table.len(), 1);
}

#[test]
fn record_at_exactly_the_interval_is_not_staged() {
    let mut table = AwaitingRequests::new();
    table.insert(1, RequestData::new(2, 3, SECOND));
    assert!(table.claim_stale(6 * SECOND).is_empty());
    assert_eq!(table.get(1), Some(RequestData::new(2, 3, SECOND)));
}
