//! The dispatching side: which request goes out next, and what a finished
//! transmit attempt changes.
use crate::entropy::fresh_correlation_id;
use crate::entropy::is_random_uuid;
use crate::entropy::random_operand;
use crate::pending::scanned;
use crate::pending::staged_view;
use crate::pending::stages_stale;
use crate::pending::AwaitingRequests;
use crate::request::RequestData;
use crate::request::RequestView;
use crate::request::RESEND_REQUESTS_EVERY_NANOS;
use crate::store::AwaitingRequestsStorage;
use rand::rngs::ThreadRng;
use std::collections::VecDeque;
use vstd::prelude::*;

verus! {

/// Number of requests sent between two progress reports.
pub const REQUESTS_COUNT_INSIDE_ONE_GROUP: u64 = 100;

/// One request to put on the wire.
#[derive(Clone, Copy, Debug, PartialEq, Eq)]
pub struct WorkItem {
    pub id: u128,
    pub value: i64,
    pub multiplier: i64,
    /// The request was sent before and its record is already in the table.
    pub is_resend: bool,
}

impl WorkItem {
    /// The work item that sends the staged record `record` of `id` again.
    pub open spec fn resend_of(id: u128, record: RequestView) -> WorkItem
        recommends
            i64::MIN <= record.value <= i64::MAX,
            i64::MIN <= record.multiplier <= i64::MAX,
    {
        WorkItem {
            id,
            value: record.value as i64,
            multiplier: record.multiplier as i64,
            is_resend: true,
        }
    }

    /// The work item of a new request with the given operands.
    pub open spec fn fresh(value: u8, multiplier: u8, id: u128) -> WorkItem {
        WorkItem { id, value: value as i64, multiplier: multiplier as i64, is_resend: false }
    }

    /// The operands are such as a new request is generated with.
    pub open spec fn has_generated_operands(self) -> bool {
        0 <= self.value <= 255 && 0 <= self.multiplier <= 255
    }
}

/// One transmit attempt: whether the item went out, and the new request that
/// is generated for it when nothing is pending.
pub struct Attempt {
    pub delivered: bool,
    pub fresh: WorkItem,
}

/// Mathematical content of a [`Dispatcher`].
pub struct DispatcherView {
    pub last_resend_check: nat,
    /// Resends staged by the last scan and not yet handed out, first one first.
    pub staged: Seq<(u128, RequestView)>,
    /// The item handed out last, until its transmit succeeds.
    pub in_flight: Option<WorkItem>,
    pub sent_in_group: nat,
    pub total_sent: nat,
}

impl DispatcherView {
    /// A dispatcher that starts at `now` with nothing staged and nothing sent.
    pub open spec fn started(now: nat) -> DispatcherView {
        DispatcherView {
            last_resend_check: now,
            staged: Seq::empty(),
            in_flight: None,
            sent_in_group: 0,
            total_sent: 0,
        }
    }

    /// More than the resend interval has passed since the last resend scan.
    pub open spec fn scan_due(self, now: nat) -> bool {
        now - self.last_resend_check > RESEND_REQUESTS_EVERY_NANOS
    }

    /// The start of a cycle in which the scan at `now` staged `staged`.
    pub open spec fn cycle_with_scan(self, now: nat, staged: Seq<(u128, RequestView)>) -> DispatcherView {
        DispatcherView { last_resend_check: now, staged, sent_in_group: 0, ..self }
    }

    /// The start of a cycle in which no scan was due.
    pub open spec fn cycle_without_scan(self) -> DispatcherView {
        DispatcherView { staged: Seq::empty(), sent_in_group: 0, ..self }
    }

    /// The item to send next that needs no new request: the one whose transmit
    /// has not succeeded yet, else the first staged resend.
    pub open spec fn pending_item(self) -> Option<WorkItem> {
        if self.in_flight is Some {
            self.in_flight
        } else if self.staged.len() > 0 {
            Some(WorkItem::resend_of(self.staged[0].0, self.staged[0].1))
        } else {
            None
        }
    }

    /// The state after `pending_item` was handed out.
    pub open spec fn after_handing_out_pending(self) -> DispatcherView {
        if self.in_flight is Some {
            self
        } else if self.staged.len() > 0 {
            DispatcherView {
                staged: self.staged.subrange(1, self.staged.len() as int),
                in_flight: self.pending_item(),
                ..self
            }
        } else {
            self
        }
    }

    /// The item handed out next, where `fresh` is the new request that is
    /// generated when nothing is pending.
    pub open spec fn handed_out(self, fresh: WorkItem) -> WorkItem {
        match self.pending_item() {
            Some(item) => item,
            None => fresh,
        }
    }

    /// The state after `handed_out` was handed out.
    pub open spec fn after_handing_out(self, fresh: WorkItem) -> DispatcherView {
        if self.pending_item() is Some {
            self.after_handing_out_pending()
        } else {
            DispatcherView { in_flight: Some(fresh), ..self }
        }
    }

    /// The state after one attempt: an item is handed out, and its transmit
    /// succeeds or fails.
    pub open spec fn after_attempt(self, attempt: Attempt) -> DispatcherView {
        self.after_handing_out(attempt.fresh).after_transmit(attempt.delivered)
    }

    /// The state after a transmit attempt: a failed one changes nothing, a
    /// successful one counts the item in flight and lets the next one come.
    pub open spec fn after_transmit(self, delivered: bool) -> DispatcherView {
        if delivered && self.in_flight is Some {
            DispatcherView {
                in_flight: None,
                sent_in_group: self.sent_in_group + 1,
                total_sent: self.total_sent + 1,
                ..self
            }
        } else {
            self
        }
    }

    /// The record to enter in the table after a transmit attempt at `now`: that
    /// of a new request whose transmit succeeded, and none otherwise.
    pub open spec fn registers(self, delivered: bool, now: nat) -> Option<(u128, RequestView)> {
        match self.in_flight {
            Some(item) if delivered && !item.is_resend => Some(
                (item.id, RequestView::created(item.value as int, item.multiplier as int, now)),
            ),
            _ => None,
        }
    }

    /// The count to report after a transmit attempt: the total, when a
    /// successful transmit brings it to a multiple of the group size.
    pub open spec fn reports(self, delivered: bool) -> Option<u64> {
        if delivered && self.in_flight is Some && ((self.total_sent + 1) as int)
            % (REQUESTS_COUNT_INSIDE_ONE_GROUP as int) == 0 {
            Some((self.total_sent + 1) as u64)
        } else {
            None
        }
    }
}

/// What a finished transmit attempt asks of the caller.
#[derive(Clone, Copy, Debug, PartialEq, Eq)]
pub struct Settlement {
    /// The record to enter in the table, with its correlation ID.
    pub register: Option<(u128, RequestData)>,
    /// The total to write to the progress log.
    pub report: Option<u64>,
}

/// The item in flight and the counts of what was sent.
struct Flight {
    in_flight: Option<WorkItem>,
    sent_in_group: u64,
    total_sent: u64,
}

impl Flight {
    #[verifier::type_invariant]
    spec fn well_formed(self) -> bool {
        &&& self.sent_in_group <= self.total_sent
        &&& self.in_flight matches Some(item) ==> item.is_resend
            || item.has_generated_operands()
    }

    fn idle() -> (flight: Self)
        ensures
            flight.in_flight is None,
            flight.sent_in_group == 0,
            flight.total_sent == 0,
    {
        Self { in_flight: None, sent_in_group: 0, total_sent: 0 }
    }

    /// The item in flight.
    fn carried(&self) -> (item: Option<WorkItem>)
        ensures
            item == self.in_flight,
            item matches Some(carried) ==> carried.is_resend || carried.has_generated_operands(),
    {
        proof {
            use_type_invariant(self);
        }
        self.in_flight
    }

    fn carry(&mut self, item: WorkItem)
        requires
            item.is_resend || item.has_generated_operands(),
        ensures
            final(self).in_flight == Some(item),
            final(self).sent_in_group == old(self).sent_in_group,
            final(self).total_sent == old(self).total_sent,
    {
        proof {
            use_type_invariant(&*self);
        }
        self.in_flight = Some(item);
    }

    fn open_group(&mut self)
        ensures
            final(self).in_flight == old(self).in_flight,
            final(self).sent_in_group == 0,
            final(self).total_sent == old(self).total_sent,
    {
        proof {
            use_type_invariant(&*self);
        }
        self.sent_in_group = 0;
    }

    /// Counts the item in flight as sent and lets it go.
    fn land(&mut self) -> (item: WorkItem)
        requires
            old(self).in_flight is Some,
            old(self).total_sent < u64::MAX,
        ensures
            Some(item) == old(self).in_flight,
            item.is_resend || item.has_generated_operands(),
            final(self).in_flight is None,
            final(self).sent_in_group == old(self).sent_in_group + 1,
            final(self).total_sent == old(self).total_sent + 1,
    {
        proof {
            use_type_invariant(&*self);
        }
        let item = self.in_flight.unwrap();
        *self = Self {
            in_flight: None,
            sent_in_group: self.sent_in_group + 1,
            total_sent: self.total_sent + 1,
        };
        item
    }
}

/// The state of the dispatching side.
pub struct Dispatcher {
    last_resend_check: u128,
    resend_requests: VecDeque<(u128, RequestData)>,
    flight: Flight,
}

impl View for Dispatcher {
    type V = DispatcherView;

    closed spec fn view(&self) -> DispatcherView {
        DispatcherView {
            last_resend_check: self.last_resend_check as nat,
            staged: staged_view(self.resend_requests@),
            in_flight: self.flight.in_flight,
            sent_in_group: self.flight.sent_in_group as nat,
            total_sent: self.flight.total_sent as nat,
        }
    }
}

impl Dispatcher {
    /// A dispatcher that starts at `now`: the first resend scan is due one
    /// interval later.
    pub fn new(now: u128) -> (dispatcher: Self)
        ensures
            dispatcher@ == DispatcherView::started(now as nat),
    {
        let dispatcher = Self {
            last_resend_check: now,
            resend_requests: VecDeque::new(),
            flight: Flight::idle(),
        };
        assert(dispatcher@.staged =~= Seq::empty());
        dispatcher
    }

    /// Number of requests sent so far, resends included.
    pub fn total_sent(&self) -> (total: u64)
        ensures
            total == self@.total_sent,
    {
        self.flight.total_sent
    }

    /// Whether a resend scan is due at `now`.
    pub fn resend_check_due(&self, now: u128) -> (due: bool)
        ensures
            due == self@.scan_due(now as nat),
    {
        now > self.last_resend_check && now - self.last_resend_check
            > RESEND_REQUESTS_EVERY_NANOS
    }

    /// Hands out the item that needs no new request, if there is one: the item
    /// whose transmit has not succeeded yet, else the first staged resend.
    pub fn take_pending(&mut self) -> (item: Option<WorkItem>)
        ensures
            item == old(self)@.pending_item(),
            final(self)@ == old(self)@.after_handing_out_pending(),
    {
        if self.flight.in_flight.is_some() {
            return self.flight.in_flight;
        }
        let ghost before = self.resend_requests@;
        match self.resend_requests.pop_front() {
            Some((id, record)) => {
                let item = WorkItem {
                    id,
                    value: record.value(),
                    multiplier: record.multiplier(),
                    is_resend: true,
                };
                self.flight.carry(item);
                assert(staged_view(self.resend_requests@) =~= staged_view(before).subrange(
                    1,
                    before.len() as int,
                ));
                Some(item)
            },
            None => {
                assert(staged_view(self.resend_requests@) =~= staged_view(before));
                None
            },
        }
    }

    /// Makes a new request with the given operands and correlation ID the item
    /// in flight.
    pub fn put_fresh(&mut self, value: u8, multiplier: u8, id: u128) -> (item: WorkItem)
        ensures
            item == WorkItem::fresh(value, multiplier, id),
            final(self)@ == (DispatcherView { in_flight: Some(item), ..old(self)@ }),
    {
        let item = WorkItem { id, value: value as i64, multiplier: multiplier as i64, is_resend: false };
        self.flight.carry(item);
        item
    }

    /// The request to put on the wire next. An item whose transmit failed comes
    /// again; then the staged resends, in their order; a new request with
    /// random operands and a fresh correlation ID only when none is staged.
    pub fn next_work_item(&mut self, rng: &mut ThreadRng) -> (item: WorkItem)
        ensures
            item == old(self)@.handed_out(item),
            final(self)@ == old(self)@.after_handing_out(item),
            old(self)@.pending_item() is Some ==> {
                &&& Some(item) == old(self)@.pending_item()
                &&& final(self)@ == old(self)@.after_handing_out_pending()
            },
            old(self)@.pending_item() is None ==> {
                &&& !item.is_resend
                &&& item.has_generated_operands()
                &&& is_random_uuid(item.id)
                &&& final(self)@ == (DispatcherView { in_flight: Some(item), ..old(self)@ })
            },
    {
        match self.take_pending() {
            Some(item) => item,
            None => {
                let value = random_operand(rng);
                let multiplier = random_operand(rng);
                let id = fresh_correlation_id();
                self.put_fresh(value, multiplier, id)
            },
        }
    }

    /// Starts a cycle with the result of the resend scan made at `now`: the
    /// staged records replace what was staged before, and a new group begins.
    /// A record that was staged earlier and not handed out is dropped from
    /// the queue; it stays in the table with its refreshed timestamp and is
    /// staged again by the scan that next finds it due.
    pub fn stage(&mut self, staged: Vec<(u128, RequestData)>, now: u128)
        ensures
            final(self)@ == old(self)@.cycle_with_scan(now as nat, staged_view(staged@)),
    {
        let mut queue: VecDeque<(u128, RequestData)> = VecDeque::new();
        let mut i: usize = 0;
        while i < staged.len()
            invariant
                0 <= i <= staged.len(),
                queue@ == staged@.take(i as int),
            decreases staged.len() - i,
        {
            queue.push_back(staged[i]);
            assert(staged@.take(i as int).push(staged@[i as int]) =~= staged@.take(i + 1));
            i = i + 1;
        }
        assert(queue@ =~= staged@);
        self.resend_requests = queue;
        self.last_resend_check = now;
        self.flight.open_group();
    }

    /// Starts a cycle in which no resend scan is made: nothing is staged, and a
    /// new group begins. What was staged and not handed out is dropped, as in
    /// [`Dispatcher::stage`].
    pub fn skip_scan(&mut self)
        ensures
            final(self)@ == old(self)@.cycle_without_scan(),
    {
        self.resend_requests = VecDeque::new();
        self.flight.open_group();
        assert(staged_view(self.resend_requests@) =~= Seq::empty());
    }

    /// Starts a cycle on a table that nobody else holds. When a resend scan is
    /// due at `now`, the scan is made and its count returned.
    pub fn begin_cycle_on(&mut self, table: &mut AwaitingRequests, now: u128) -> (staged_count:
        Option<usize>)
        ensures
            old(self)@.scan_due(now as nat) ==> {
                &&& final(table)@ == scanned(old(table)@, now as nat)
                &&& stages_stale(old(table)@, now as nat, final(self)@.staged)
                &&& final(self)@ == old(self)@.cycle_with_scan(now as nat, final(self)@.staged)
                &&& staged_count == Some(final(self)@.staged.len() as usize)
            },
            !old(self)@.scan_due(now as nat) ==> {
                &&& final(table)@ == old(table)@
                &&& final(self)@ == old(self)@.cycle_without_scan()
                &&& staged_count is None
            },
    {
        if self.resend_check_due(now) {
            let staged = table.claim_stale(now);
            let count = staged.len();
            self.stage(staged, now);
            Some(count)
        } else {
            self.skip_scan();
            None
        }
    }

    /// Starts a cycle on the shared table. When a resend scan is due at `now`,
    /// the scan is made in one exclusive pass and its count returned; what is
    /// staged is then exactly what was due in the table at the time of the
    /// pass. Where the scan is due and the table is busy, nothing is changed
    /// and `None` comes back: the caller asks again.
    pub fn begin_cycle(&mut self, storage: &AwaitingRequestsStorage, now: u128) -> (started: Option<
        Option<usize>,
    >)
        ensures
            !old(self)@.scan_due(now as nat) ==> started is Some,
            started is None ==> final(self)@ == old(self)@,
            started matches Some(staged_count) ==> {
                &&& old(self)@.scan_due(now as nat) ==> {
                    &&& exists|table: Map<u128, RequestView>|
                        stages_stale(table, now as nat, final(self)@.staged)
                    &&& final(self)@ == old(self)@.cycle_with_scan(
                        now as nat,
                        final(self)@.staged,
                    )
                    &&& staged_count == Some(final(self)@.staged.len() as usize)
                }
                &&& !old(self)@.scan_due(now as nat) ==> {
                    &&& final(self)@ == old(self)@.cycle_without_scan()
                    &&& staged_count is None
                }
            },
    {
        if self.resend_check_due(now) {
            let scan = move |table: &mut AwaitingRequests| -> (staged: Vec<(u128, RequestData)>)
                ensures
                    final(table)@ == scanned(old(table)@, now as nat),
                    stages_stale(old(table)@, now as nat, staged_view(staged@)),
                { table.claim_stale(now) };
            match storage.write(scan) {
                Some(staged) => {
                    proof {
                        let table = choose|table: &mut AwaitingRequests|
                            call_ensures(scan, (table,), staged);
                        assert(stages_stale((*table)@, now as nat, staged_view(staged@)));
                    }
                    let count = staged.len();
                    self.stage(staged, now);
                    Some(Some(count))
                },
                None => None,
            }
        } else {
            self.skip_scan();
            Some(None)
        }
    }

    /// The record that a transmit attempt finished at `now` enters in the
    /// table: that of a new request that went out, and none otherwise.
    pub fn registration(&self, delivered: bool, now: u128) -> (register: Option<
        (u128, RequestData),
    >)
        ensures
            match register {
                Some((id, record)) => self@.registers(delivered, now as nat) == Some((id, record@)),
                None => self@.registers(delivered, now as nat) is None,
            },
    {
        match self.flight.carried() {
            Some(item) => {
                if delivered && !item.is_resend {
                    assert(i64::MIN <= item.value * item.multiplier <= i64::MAX)
                        by (nonlinear_arith)
                        requires
                            0 <= item.value <= 255,
                            0 <= item.multiplier <= 255,
                    ;
                    Some((item.id, RequestData::new(item.value, item.multiplier, now)))
                } else {
                    None
                }
            },
            None => None,
        }
    }

    /// Takes note of a transmit attempt that finished at `now`. A failed one
    /// changes nothing, so that the same item comes again. A successful one
    /// counts the item and lets it go; the record of a new request is handed
    /// back for the table, a resend has its record there already.
    pub fn settle(&mut self, delivered: bool, now: u128) -> (settlement: Settlement)
        requires
            old(self)@.total_sent < u64::MAX,
        ensures
            final(self)@ == old(self)@.after_transmit(delivered),
            settlement.report == old(self)@.reports(delivered),
            match settlement.register {
                Some((id, record)) => old(self)@.registers(delivered, now as nat) == Some(
                    (id, record@),
                ),
                None => old(self)@.registers(delivered, now as nat) is None,
            },
    {
        if !delivered || self.flight.in_flight.is_none() {
            return Settlement { register: None, report: None };
        }
        let item = self.flight.land();
        let register = if item.is_resend {
            None
        } else {
            assert(i64::MIN <= item.value * item.multiplier <= i64::MAX) by (nonlinear_arith)
                requires
                    0 <= item.value <= 255,
                    0 <= item.multiplier <= 255,
            ;
            Some((item.id, RequestData::new(item.value, item.multiplier, now)))
        };
        let total = self.flight.total_sent;
        let report = if total % REQUESTS_COUNT_INSIDE_ONE_GROUP == 0 {
            Some(total)
        } else {
            None
        };
        Settlement { register, report }
    }

    /// [`Dispatcher::settle`] on a table that nobody else holds: the record of
    /// a new request that was sent is entered, and nothing else changes there.
    pub fn finish_transmit_on(
        &mut self,
        table: &mut AwaitingRequests,
        delivered: bool,
        now: u128,
    ) -> (report: Option<u64>)
        requires
            old(self)@.total_sent < u64::MAX,
        ensures
            final(self)@ == old(self)@.after_transmit(delivered),
            report == old(self)@.reports(delivered),
            final(table)@ == match old(self)@.registers(delivered, now as nat) {
                Some((id, record)) => old(table)@.insert(id, record),
                None => old(table)@,
            },
    {
        let settlement = self.settle(delivered, now);
        match settlement.register {
            Some((id, record)) => {
                let _ = table.insert(id, record);
            },
            None => {},
        }
        settlement.report
    }

    /// [`Dispatcher::settle`] on the shared table: the record of a new request
    /// that was sent is entered in one exclusive pass; for a resend or a failed
    /// attempt the table is not touched. Where a record is to be entered and
    /// the table is busy, nothing is changed and `None` comes back: the caller
    /// asks again.
    pub fn finish_transmit(
        &mut self,
        storage: &AwaitingRequestsStorage,
        delivered: bool,
        now: u128,
    ) -> (finished: Option<Option<u64>>)
        requires
            old(self)@.total_sent < u64::MAX,
        ensures
            old(self)@.registers(delivered, now as nat) is None ==> finished is Some,
            finished is None ==> final(self)@ == old(self)@,
            finished matches Some(report) ==> {
                &&& final(self)@ == old(self)@.after_transmit(delivered)
                &&& report == old(self)@.reports(delivered)
            },
    {
        match self.registration(delivered, now) {
            Some((id, record)) => {
                let enter = move |table: &mut AwaitingRequests| -> (previous: Option<RequestData>)
                    ensures
                        final(table)@ == old(table)@.insert(id, record@),
                    { table.insert(id, record) };
                if storage.write(enter).is_none() {
                    return None;
                }
            },
            None => {},
        }
        let settlement = self.settle(delivered, now);
        Some(settlement.report)
    }

    /// Whether the current group has all its requests sent.
    pub fn group_complete(&self) -> (complete: bool)
        ensures
            complete == (self@.sent_in_group >= REQUESTS_COUNT_INSIDE_ONE_GROUP),
    {
        self.flight.sent_in_group >= REQUESTS_COUNT_INSIDE_ONE_GROUP
    }
}

} // verus!
