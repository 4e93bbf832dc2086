//! What holds of the pending table over any run of the two sides: the events
//! that reach the table, and the laws they obey.
use crate::dispatch::Attempt;
use crate::dispatch::DispatcherView;
use crate::dispatch::WorkItem;
use crate::dispatch::REQUESTS_COUNT_INSIDE_ONE_GROUP;
use crate::pending::scanned;
use crate::pending::stages_stale;
use crate::request::RequestView;
use crate::request::RESEND_REQUESTS_EVERY_NANOS;
use crate::response::count_after;
use crate::response::is_terminal;
use crate::response::judged;
use crate::response::report_after;
use crate::response::table_after;
use crate::response::outcome_of;
use crate::response::MessageKind;
use crate::response::Outcome;
use vstd::prelude::*;

verus! {

/// One thing that happens to the pending table.
pub enum TableEvent {
    /// A new request went out at `now`; its record is entered under a new ID.
    Dispatched { id: u128, value: int, multiplier: int, now: nat },
    /// A transmit attempt that enters nothing: a resend, or a failure.
    Retried,
    /// The resend scan ran at `now`.
    Scanned { now: nat },
    /// An inbound message was handled.
    Received { kind: MessageKind, id: u128, payload: Option<i64> },
}

/// The table after one event.
pub open spec fn table_upon(table: Map<u128, RequestView>, event: TableEvent) -> Map<
    u128,
    RequestView,
> {
    match event {
        TableEvent::Dispatched { id, value, multiplier, now } => table.insert(
            id,
            RequestView::created(value, multiplier, now),
        ),
        TableEvent::Retried => table,
        TableEvent::Scanned { now } => scanned(table, now),
        TableEvent::Received { kind, id, payload } => table_after(
            table,
            id,
            outcome_of(table, kind, id, payload),
        ),
    }
}

/// The table after a run of events, first one first.
pub open spec fn table_after_all(table: Map<u128, RequestView>, events: Seq<TableEvent>) -> Map<
    u128,
    RequestView,
>
    decreases events.len(),
{
    if events.len() == 0 {
        table
    } else {
        table_upon(table_after_all(table, events.drop_last()), events.last())
    }
}

/// The event is the dispatch of a new request under `id`.
pub open spec fn dispatches(event: TableEvent, id: u128) -> bool {
    event matches TableEvent::Dispatched { id: entered, .. } && entered == id
}

/// The event that a finished transmit attempt is to the table.
pub open spec fn transmit_event(dispatcher: DispatcherView, delivered: bool, now: nat) -> TableEvent {
    match dispatcher.in_flight {
        Some(item) if delivered && !item.is_resend => TableEvent::Dispatched {
            id: item.id,
            value: item.value as int,
            multiplier: item.multiplier as int,
            now,
        },
        _ => TableEvent::Retried,
    }
}

/// A finished transmit attempt changes the table as its event says: where the
/// dispatcher hands a record over, the table gains it, and nothing else.
pub proof fn law_transmit_is_its_event(
    table: Map<u128, RequestView>,
    dispatcher: DispatcherView,
    delivered: bool,
    now: nat,
)
    ensures
        table_upon(table, transmit_event(dispatcher, delivered, now)) == match dispatcher.registers(
            delivered,
            now,
        ) {
            Some((id, record)) => table.insert(id, record),
            None => table,
        },
{
}

/// The expected result of a request is the product of its operands from the
/// moment the record is created, a refreshed timestamp leaves it alone, and a
/// response is confirmed exactly when it carries that product.
pub proof fn law_expected_result_is_the_product(
    value: int,
    multiplier: int,
    created_at: nat,
    refreshed_at: nat,
    result: int,
)
    ensures
        RequestView::created(value, multiplier, created_at).expected_result == value * multiplier,
        RequestView::created(value, multiplier, created_at).refreshed(
            refreshed_at,
        ).expected_result == value * multiplier,
        judged(RequestView::created(value, multiplier, created_at).expected_result, result)
            == Outcome::Confirmed <==> result == value * multiplier,
        RequestView::created(value, multiplier, created_at).accepts(result) <==> result == value
            * multiplier,
{
}

/// Every record in the table holds the product of its own operands as its
/// expected result, after any run of events on a table of which that was true.
pub proof fn law_every_record_holds_its_product(
    table: Map<u128, RequestView>,
    events: Seq<TableEvent>,
)
    requires
        forall|id: u128| table.contains_key(id) ==> (#[trigger] table[id]).consistent(),
    ensures
        forall|id: u128| #[trigger]
            table_after_all(table, events).contains_key(id) ==> table_after_all(
                table,
                events,
            )[id].consistent(),
    decreases events.len(),
{
    if events.len() > 0 {
        law_every_record_holds_its_product(table, events.drop_last());
        let before = table_after_all(table, events.drop_last());
        assert forall|id: u128| #[trigger]
            table_upon(before, events.last()).contains_key(id) implies table_upon(
            before,
            events.last(),
        )[id].consistent() by {
            if before.contains_key(id) {
                assert(before[id].consistent());
            }
        }
    }
}

/// No event changes the operands or the expected result of a record that it
/// leaves in the table, unless it is the dispatch of a new request under the
/// same ID.
pub proof fn law_record_is_fixed_at_creation(
    table: Map<u128, RequestView>,
    events: Seq<TableEvent>,
    id: u128,
)
    requires
        table.contains_key(id),
        table_after_all(table, events).contains_key(id),
        forall|i: int| 0 <= i < events.len() ==> !dispatches(#[trigger] events[i], id),
    ensures
        table_after_all(table, events)[id].value == table[id].value,
        table_after_all(table, events)[id].multiplier == table[id].multiplier,
        table_after_all(table, events)[id].expected_result == table[id].expected_result,
    decreases events.len(),
{
    if events.len() > 0 {
        let earlier = events.drop_last();
        let before = table_after_all(table, earlier);
        assert(!dispatches(events[events.len() - 1], id));
        assert forall|i: int| 0 <= i < earlier.len() implies !dispatches(
            #[trigger] earlier[i],
            id,
        ) by {
            assert(earlier[i] == events[i]);
        }
        law_absent_id_stays_absent_upon(before, events.last(), id);
        law_record_is_fixed_at_creation(table, earlier, id);
    }
}

/// An event other than the dispatch of a new request under `id` does not
/// bring `id` into the table.
pub proof fn law_absent_id_stays_absent_upon(
    table: Map<u128, RequestView>,
    event: TableEvent,
    id: u128,
)
    requires
        !dispatches(event, id),
    ensures
        table_upon(table, event).contains_key(id) ==> table.contains_key(id),
{
}

/// Once a correlation ID is out of the table it stays out, whatever happens,
/// as long as no new request is dispatched under that very ID: resends,
/// scans and inbound messages never enter a record.
pub proof fn law_resolved_id_is_not_reinserted(
    table: Map<u128, RequestView>,
    events: Seq<TableEvent>,
    id: u128,
)
    requires
        !table.contains_key(id),
        forall|i: int| 0 <= i < events.len() ==> !dispatches(#[trigger] events[i], id),
    ensures
        !table_after_all(table, events).contains_key(id),
    decreases events.len(),
{
    if events.len() > 0 {
        let earlier = events.drop_last();
        assert(!dispatches(events[events.len() - 1], id));
        assert forall|i: int| 0 <= i < earlier.len() implies !dispatches(
            #[trigger] earlier[i],
            id,
        ) by {
            assert(earlier[i] == events[i]);
        }
        law_resolved_id_is_not_reinserted(table, earlier, id);
        law_absent_id_stays_absent_upon(table_after_all(table, earlier), events.last(), id);
    }
}

/// A response to a pending request whose payload decodes takes the record out
/// of the table, whether the result is the expected one or not.
pub proof fn law_terminal_response_removes_the_record(
    table: Map<u128, RequestView>,
    id: u128,
    result: i64,
)
    requires
        table.contains_key(id),
    ensures
        is_terminal(outcome_of(table, MessageKind::ValueMultiplicationResponse, id, Some(result))),
        !table_upon(
            table,
            TableEvent::Received {
                kind: MessageKind::ValueMultiplicationResponse,
                id,
                payload: Some(result),
            },
        ).contains_key(id),
{
}

/// The table holds one record per correlation ID, and a resend changes
/// neither the IDs nor their number: the scan keeps the set of IDs, and a
/// resend that went out enters nothing.
pub proof fn law_resend_adds_no_record(table: Map<u128, RequestView>, now: nat)
    requires
        table.dom().finite(),
    ensures
        scanned(table, now).dom() == table.dom(),
        scanned(table, now).len() == table.len(),
        table_upon(table, TableEvent::Retried) == table,
{
    assert(scanned(table, now).dom() =~= table.dom());
}

/// A transmit attempt for a resend leaves the table as it is, delivered or not.
pub proof fn law_resend_enters_nothing(
    table: Map<u128, RequestView>,
    dispatcher: DispatcherView,
    delivered: bool,
    now: nat,
)
    requires
        dispatcher.in_flight matches Some(item) && item.is_resend,
    ensures
        dispatcher.registers(delivered, now) is None,
        table_upon(table, transmit_event(dispatcher, delivered, now)) == table,
{
}

/// The scan stages a record if and only if more than the resend interval
/// has passed since its last send attempt: every record that is due is staged
/// in the scan that finds it so, and none is staged before its time. A
/// record that the scan refreshed is not due again until another interval
/// has passed.
pub proof fn law_scan_stages_what_is_due(
    table: Map<u128, RequestView>,
    now: nat,
    staged: Seq<(u128, RequestView)>,
    id: u128,
    later: nat,
)
    requires
        stages_stale(table, now, staged),
        table.contains_key(id),
    ensures
        (exists|i: int| 0 <= i < staged.len() && #[trigger] staged[i].0 == id) <==> now
            - table[id].last_send_attempt_time > RESEND_REQUESTS_EVERY_NANOS,
        table[id].should_resend(now) ==> scanned(table, now)[id].last_send_attempt_time == now,
        table[id].should_resend(now) && later - now <= RESEND_REQUESTS_EVERY_NANOS ==> !scanned(
            table,
            now,
        )[id].should_resend(later),
        !table[id].should_resend(now) ==> scanned(table, now)[id] == table[id],
{
    if exists|i: int| 0 <= i < staged.len() && #[trigger] staged[i].0 == id {
        let i = choose|i: int| 0 <= i < staged.len() && #[trigger] staged[i].0 == id;
        assert(table[staged[i].0].should_resend(now));
    }
}

/// The staged resends go out before any new request: as long as something
/// is staged or in flight, the next item is that one.
pub proof fn law_staged_resends_go_first(dispatcher: DispatcherView)
    requires
        dispatcher.in_flight is None,
        dispatcher.staged.len() > 0,
    ensures
        dispatcher.pending_item() matches Some(item) && item.is_resend && item.id
            == dispatcher.staged[0].0,
        dispatcher.after_handing_out_pending().staged == dispatcher.staged.subrange(
            1,
            dispatcher.staged.len() as int,
        ),
{
}

/// A message of another kind, or a response to a correlation ID that is not
/// pending, changes neither the table nor the count of confirmed requests, and
/// calls for no progress report.
pub proof fn law_stray_message_changes_nothing(
    table: Map<u128, RequestView>,
    total: nat,
    kind: MessageKind,
    id: u128,
    payload: Option<i64>,
)
    requires
        kind != MessageKind::ValueMultiplicationResponse || !table.contains_key(id),
    ensures
        !is_terminal(outcome_of(table, kind, id, payload)),
        table_after(table, id, outcome_of(table, kind, id, payload)) == table,
        table_upon(table, TableEvent::Received { kind, id, payload }) == table,
        count_after(total, outcome_of(table, kind, id, payload)) == total,
        report_after(total, outcome_of(table, kind, id, payload)) is None,
{
}

/// The dispatcher after a run of transmit attempts, first one first.
pub open spec fn after_attempts(start: DispatcherView, attempts: Seq<Attempt>) -> DispatcherView
    decreases attempts.len(),
{
    if attempts.len() == 0 {
        start
    } else {
        after_attempts(start, attempts.drop_last()).after_attempt(attempts.last())
    }
}

/// The items that went out in a run of transmit attempts, in their order.
pub open spec fn sent_items(start: DispatcherView, attempts: Seq<Attempt>) -> Seq<WorkItem>
    decreases attempts.len(),
{
    if attempts.len() == 0 {
        Seq::empty()
    } else {
        let earlier = sent_items(start, attempts.drop_last());
        if attempts.last().delivered {
            earlier.push(
                after_attempts(start, attempts.drop_last()).handed_out(attempts.last().fresh),
            )
        } else {
            earlier
        }
    }
}

/// The resend that the `i`-th staged record of `start` goes out as.
pub open spec fn staged_resend(start: DispatcherView, i: int) -> WorkItem {
    WorkItem::resend_of(start.staged[i].0, start.staged[i].1)
}

/// `view` is where the dispatcher stands when `sent` went out since `start`:
/// the staged records went out first, in their order, each once; what is
/// still staged is what has not gone out; new requests came only after.
pub open spec fn drains(start: DispatcherView, view: DispatcherView, sent: Seq<WorkItem>) -> bool {
    let staged = start.staged;
    let gone = sent.len() as int;
    &&& view.sent_in_group == start.sent_in_group + gone
    &&& view.total_sent == start.total_sent + gone
    &&& view.last_resend_check == start.last_resend_check
    &&& gone < staged.len() ==> {
        ||| view.in_flight is None && view.staged == staged.subrange(gone, staged.len() as int)
        ||| view.in_flight == Some(staged_resend(start, gone)) && view.staged == staged.subrange(
            gone + 1,
            staged.len() as int,
        )
    }
    &&& gone >= staged.len() ==> {
        &&& view.staged.len() == 0
        &&& view.in_flight matches Some(item) ==> !item.is_resend
    }
    &&& forall|i: int|
        0 <= i < gone && i < staged.len() ==> #[trigger] sent[i] == staged_resend(start, i)
    &&& forall|i: int| staged.len() <= i < gone ==> !(#[trigger] sent[i]).is_resend
}

/// From a point where nothing is in flight, whatever attempts succeed or
/// fail: the staged records go out first, in the order in which they were
/// staged and each once, a failed attempt brings the same item again, and a
/// new request goes out only when nothing is staged any more.
pub proof fn law_staged_records_go_out_first(start: DispatcherView, attempts: Seq<Attempt>)
    requires
        start.in_flight is None,
        forall|i: int| 0 <= i < attempts.len() ==> !(#[trigger] attempts[i]).fresh.is_resend,
    ensures
        drains(start, after_attempts(start, attempts), sent_items(start, attempts)),
    decreases attempts.len(),
{
    let staged = start.staged;
    let total = staged.len() as int;
    if attempts.len() == 0 {
        assert(staged =~= staged.subrange(0, total));
    } else {
        let earlier = attempts.drop_last();
        let attempt = attempts.last();
        assert(!attempts[attempts.len() - 1].fresh.is_resend);
        assert forall|i: int| 0 <= i < earlier.len() implies !(#[trigger] earlier[i]).fresh.is_resend by {
            assert(earlier[i] == attempts[i]);
        }
        law_staged_records_go_out_first(start, earlier);
        let before = after_attempts(start, earlier);
        let sent_before = sent_items(start, earlier);
        let gone = sent_before.len() as int;
        let handed = before.after_handing_out(attempt.fresh);
        let item = before.handed_out(attempt.fresh);
        if gone < total {
            assert(item == staged_resend(start, gone) && handed.in_flight == Some(item)
                && handed.staged == staged.subrange(gone + 1, total)) by {
                if before.in_flight is None {
                    assert(before.staged[0] == staged[gone]);
                    assert(before.staged.subrange(1, before.staged.len() as int)
                        =~= staged.subrange(gone + 1, total));
                }
            }
            if attempt.delivered && gone + 1 >= total {
                assert(staged.subrange(gone + 1, total).len() == 0);
            }
        } else {
            assert(!item.is_resend && handed.in_flight == Some(item) && handed.staged.len() == 0);
        }
    }
}

/// Every record that a scan stages goes out within the cycle that the scan
/// began, as long as the scan stages no more than one group holds: when the
/// group is complete, each staged record went out once, in the order of
/// staging and before any new request, and nothing is left staged.
pub proof fn law_staged_records_go_out_within_the_cycle(
    start: DispatcherView,
    attempts: Seq<Attempt>,
)
    requires
        start.in_flight is None,
        start.sent_in_group == 0,
        start.staged.len() <= REQUESTS_COUNT_INSIDE_ONE_GROUP,
        forall|i: int| 0 <= i < attempts.len() ==> !(#[trigger] attempts[i]).fresh.is_resend,
        after_attempts(start, attempts).sent_in_group >= REQUESTS_COUNT_INSIDE_ONE_GROUP,
    ensures
        sent_items(start, attempts).len() >= start.staged.len(),
        forall|i: int|
            0 <= i < start.staged.len() ==> #[trigger] sent_items(start, attempts)[i]
                == staged_resend(start, i),
        forall|i: int|
            start.staged.len() <= i < sent_items(start, attempts).len() ==> !(
            #[trigger] sent_items(start, attempts)[i]).is_resend,
        after_attempts(start, attempts).staged.len() == 0,
{
    law_staged_records_go_out_first(start, attempts);
}

/// A request that is pending and due when the scan runs is resent exactly
/// once in the cycle that the scan began, with its correlation ID and its
/// operands, and its record stays in the table with the time of the scan as
/// its last send attempt. This holds for any table, as long as the scan
/// stages no more than one group holds.
pub proof fn law_due_request_is_resent_once(
    table: Map<u128, RequestView>,
    now: nat,
    start: DispatcherView,
    attempts: Seq<Attempt>,
    id: u128,
)
    requires
        table.contains_key(id),
        table[id].should_resend(now),
        stages_stale(table, now, start.staged),
        start.in_flight is None,
        start.sent_in_group == 0,
        start.staged.len() <= REQUESTS_COUNT_INSIDE_ONE_GROUP,
        forall|i: int| 0 <= i < attempts.len() ==> !(#[trigger] attempts[i]).fresh.is_resend,
        after_attempts(start, attempts).sent_in_group >= REQUESTS_COUNT_INSIDE_ONE_GROUP,
    ensures
        exists|j: int|
            {
                &&& 0 <= j < sent_items(start, attempts).len()
                &&& #[trigger] sent_items(start, attempts)[j] == WorkItem::resend_of(
                    id,
                    table[id].refreshed(now),
                )
                &&& forall|k: int|
                    0 <= k < sent_items(start, attempts).len() && k != j ==> !({
                        &&& (#[trigger] sent_items(start, attempts)[k]).is_resend
                        &&& sent_items(start, attempts)[k].id == id
                    })
            },
        scanned(table, now).contains_key(id),
        scanned(table, now)[id] == table[id].refreshed(now),
        table[id].refreshed(now).value == table[id].value,
        table[id].refreshed(now).multiplier == table[id].multiplier,
        table[id].refreshed(now).expected_result == table[id].expected_result,
{
    law_staged_records_go_out_within_the_cycle(start, attempts);
    let staged = start.staged;
    let sent = sent_items(start, attempts);
    let j = choose|j: int| 0 <= j < staged.len() && #[trigger] staged[j].0 == id;
    assert(table.contains_key(staged[j].0));
    assert(sent[j] == staged_resend(start, j));
    assert forall|k: int| 0 <= k < sent.len() && k != j implies !({
        &&& (#[trigger] sent[k]).is_resend
        &&& sent[k].id == id
    }) by {
        if k < staged.len() {
            assert(sent[k] == staged_resend(start, k));
            if k < j {
                assert(staged[k].0 != staged[j].0);
            } else {
                assert(staged[j].0 != staged[k].0);
            }
        }
    }
}

/// What the dispatcher has in flight cannot enter a record under `id`: it is
/// a resend, or a new request under another correlation ID.
pub open spec fn cannot_enter(dispatcher: DispatcherView, id: u128) -> bool {
    dispatcher.in_flight matches Some(item) ==> item.is_resend || item.id != id
}

/// Only a new request minted under `id` can enter a record under `id`. In
/// any run of attempts in which no new request is generated under `id`, no
/// transmit enters a record under it: not that of a resend of `id` that was
/// staged while its record was still pending, and not that of any other
/// item.
pub proof fn law_only_a_new_request_enters_its_id(
    start: DispatcherView,
    attempts: Seq<Attempt>,
    id: u128,
)
    requires
        cannot_enter(start, id),
        forall|i: int| 0 <= i < attempts.len() ==> (#[trigger] attempts[i]).fresh.id != id,
    ensures
        cannot_enter(after_attempts(start, attempts), id),
        forall|attempt: Attempt, now: nat|
            attempt.fresh.id != id ==> !dispatches(
                #[trigger] transmit_event(
                    after_attempts(start, attempts).after_handing_out(attempt.fresh),
                    attempt.delivered,
                    now,
                ),
                id,
            ),
    decreases attempts.len(),
{
    if attempts.len() > 0 {
        let earlier = attempts.drop_last();
        assert(attempts[attempts.len() - 1].fresh.id != id);
        assert forall|i: int| 0 <= i < earlier.len() implies (#[trigger] earlier[i]).fresh.id
            != id by {
            assert(earlier[i] == attempts[i]);
        }
        law_only_a_new_request_enters_its_id(start, earlier, id);
    }
}

} // verus!
