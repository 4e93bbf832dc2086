//! The receiving side: what an inbound message means for the pending
//! requests and for the count of confirmed ones.
use crate::dispatch::REQUESTS_COUNT_INSIDE_ONE_GROUP;
use crate::pending::AwaitingRequests;
use crate::request::RequestData;
use crate::request::RequestView;
use crate::store::AwaitingRequestsStorage;
use vstd::prelude::*;

verus! {

/// The kind tag at the head of a message on the bus.
#[derive(Clone, Copy, Debug, PartialEq, Eq)]
pub enum MessageKind {
    ValueMultiplicationRequest,
    ValueMultiplicationResponse,
    /// Any other traffic that the bus carries.
    Other,
}

/// What became of an inbound message.
#[derive(Clone, Copy, Debug, PartialEq, Eq)]
pub enum Outcome {
    /// Not a multiplication response: dropped without a word.
    Ignored,
    /// A response to a correlation ID that is not pending.
    Unexpected,
    /// The payload could not be decoded; the request stays pending.
    Undecodable,
    /// The response carries the expected result; the request is resolved.
    Confirmed,
    /// The response carries another result; the request is resolved all the same.
    Mismatch,
}

/// The outcome on a message, with the total to write to the progress log.
#[derive(Clone, Copy, Debug, PartialEq, Eq)]
pub struct Handled {
    pub outcome: Outcome,
    pub report: Option<u64>,
}

/// The outcome on a response that carries `result` where `expected` was awaited.
pub open spec fn judged(expected: int, result: int) -> Outcome {
    if result == expected {
        Outcome::Confirmed
    } else {
        Outcome::Mismatch
    }
}

/// The outcome on a message of kind `kind` for the correlation ID `id`, whose
/// payload decoded to `payload` or not at all, against the pending `table`.
pub open spec fn outcome_of(
    table: Map<u128, RequestView>,
    kind: MessageKind,
    id: u128,
    payload: Option<i64>,
) -> Outcome {
    if kind != MessageKind::ValueMultiplicationResponse {
        Outcome::Ignored
    } else if !table.contains_key(id) {
        Outcome::Unexpected
    } else {
        match payload {
            None => Outcome::Undecodable,
            Some(result) => judged(table[id].expected_result, result as int),
        }
    }
}

/// `expected` is what a lookup of `id` in `table` gives: the expected result of
/// the pending record, or nothing where none is pending.
pub open spec fn awaited_in(table: Map<u128, RequestView>, id: u128, expected: Option<i64>) -> bool {
    match expected {
        Some(result) => {
            &&& table.contains_key(id)
            &&& table[id].expected_result == result
            &&& table[id].consistent()
        },
        None => !table.contains_key(id),
    }
}

/// A outcome that ends the life of the record: the answer came, right or wrong.
pub open spec fn is_terminal(outcome: Outcome) -> bool {
    outcome == Outcome::Confirmed || outcome == Outcome::Mismatch
}

/// The table after a message with the given outcome for `id`.
pub open spec fn table_after(table: Map<u128, RequestView>, id: u128, outcome: Outcome) -> Map<
    u128,
    RequestView,
> {
    if is_terminal(outcome) {
        table.remove(id)
    } else {
        table
    }
}

/// The count of confirmed requests after a message with the given outcome.
pub open spec fn count_after(total: nat, outcome: Outcome) -> nat {
    if outcome == Outcome::Confirmed {
        total + 1
    } else {
        total
    }
}

/// The total to report after a message with the given outcome: the new count,
/// when a confirmation brings it to a multiple of the group size.
pub open spec fn report_after(total: nat, outcome: Outcome) -> Option<u64> {
    if outcome == Outcome::Confirmed && ((total + 1) as int) % (REQUESTS_COUNT_INSIDE_ONE_GROUP as int)
        == 0 {
        Some((total + 1) as u64)
    } else {
        None
    }
}

/// The state of the receiving side: the number of confirmed requests.
pub struct Receiver {
    total_received: u64,
}

impl View for Receiver {
    type V = nat;

    closed spec fn view(&self) -> nat {
        self.total_received as nat
    }
}

impl Receiver {
    /// A receiver that has confirmed nothing yet.
    pub fn new() -> (receiver: Self)
        ensures
            receiver@ == 0,
    {
        Self { total_received: 0 }
    }

    /// Number of requests confirmed so far.
    pub fn total_received(&self) -> (total: u64)
        ensures
            total == self@,
    {
        self.total_received
    }

    /// Whether a message of this kind is a response to look at.
    pub fn accepts_kind(kind: MessageKind) -> (accepted: bool)
        ensures
            accepted == (kind == MessageKind::ValueMultiplicationResponse),
    {
        match kind {
            MessageKind::ValueMultiplicationResponse => true,
            _ => false,
        }
    }

    /// Compares a decoded result with the expected one and counts a match.
    pub fn judge(&mut self, expected: i64, result: i64) -> (handled: Handled)
        requires
            old(self)@ < u64::MAX,
        ensures
            handled.outcome == judged(expected as int, result as int),
            handled.report == report_after(old(self)@, handled.outcome),
            final(self)@ == count_after(old(self)@, handled.outcome),
    {
        if result == expected {
            self.total_received = self.total_received + 1;
            let report = if self.total_received % REQUESTS_COUNT_INSIDE_ONE_GROUP == 0 {
                Some(self.total_received)
            } else {
                None
            };
            Handled { outcome: Outcome::Confirmed, report }
        } else {
            Handled { outcome: Outcome::Mismatch, report: None }
        }
    }

    /// The expected result of the request pending under `id`.
    pub fn expected_of(table: &AwaitingRequests, id: u128) -> (expected: Option<i64>)
        ensures
            awaited_in(table@, id, expected),
    {
        match table.get(id) {
            Some(record) => Some(record.expected_result()),
            None => None,
        }
    }

    /// Looks `id` up in the shared table, under the shared lock, and copies
    /// the expected result out, as [`Receiver::expected_of`] gives it on the
    /// table of that moment. The lookup changes nothing. Where the table is
    /// busy, `None` comes back: the caller asks again.
    pub fn look_up(storage: &AwaitingRequestsStorage, id: u128) -> (found: Option<Option<i64>>) {
        let find = move |table: &AwaitingRequests| -> (expected: Option<i64>)
            ensures
                awaited_in(table@, id, expected),
            { Self::expected_of(table, id) };
        storage.read(find)
    }

    /// Resolves the pending request of `id` with a decoded response: removes
    /// the record from the shared table in one exclusive pass, whatever the
    /// result, and judges the result. Where the table is busy, nothing is
    /// changed and `None` comes back: the caller asks again.
    pub fn resolve(
        &mut self,
        storage: &AwaitingRequestsStorage,
        id: u128,
        expected: i64,
        result: i64,
    ) -> (resolved: Option<Handled>)
        requires
            old(self)@ < u64::MAX,
        ensures
            resolved is None ==> final(self)@ == old(self)@,
            resolved matches Some(handled) ==> {
                &&& handled.outcome == judged(expected as int, result as int)
                &&& handled.report == report_after(old(self)@, handled.outcome)
                &&& final(self)@ == count_after(old(self)@, handled.outcome)
            },
    {
        let forget = move |table: &mut AwaitingRequests| -> (removed: Option<RequestData>)
            ensures
                final(table)@ == old(table)@.remove(id),
            { table.remove(id) };
        if storage.write(forget).is_none() {
            return None;
        }
        Some(self.judge(expected, result))
    }

    /// Handles one message against a table that nobody else holds.
    pub fn handle_on(
        &mut self,
        table: &mut AwaitingRequests,
        kind: MessageKind,
        id: u128,
        payload: Option<i64>,
    ) -> (handled: Handled)
        requires
            old(self)@ < u64::MAX,
        ensures
            handled.outcome == outcome_of(old(table)@, kind, id, payload),
            handled.report == report_after(old(self)@, handled.outcome),
            final(self)@ == count_after(old(self)@, handled.outcome),
            final(table)@ == table_after(old(table)@, id, handled.outcome),
    {
        if !Self::accepts_kind(kind) {
            return Handled { outcome: Outcome::Ignored, report: None };
        }
        let expected = match Self::expected_of(table, id) {
            Some(expected) => expected,
            None => {
                return Handled { outcome: Outcome::Unexpected, report: None };
            },
        };
        let result = match payload {
            Some(result) => result,
            None => {
                return Handled { outcome: Outcome::Undecodable, report: None };
            },
        };
        let handled = self.judge(expected, result);
        let _ = table.remove(id);
        handled
    }
}

} // verus!
