//! The record kept for every request that was sent and is not yet resolved.
use vstd::prelude::*;

verus! {

/// Time, in nanoseconds, after which an unanswered request is sent again.
pub const RESEND_REQUESTS_EVERY_NANOS: u128 = 5_000_000_000;

/// Mathematical content of a [`RequestData`].
pub struct RequestView {
    pub value: int,
    pub multiplier: int,
    pub expected_result: int,
    pub last_send_attempt_time: nat,
}

impl RequestView {
    /// The record of a request with the given operands, first sent at `now`.
    pub open spec fn created(value: int, multiplier: int, now: nat) -> RequestView {
        RequestView {
            value,
            multiplier,
            expected_result: value * multiplier,
            last_send_attempt_time: now,
        }
    }

    /// The expected result is the product of the operands.
    pub open spec fn consistent(self) -> bool {
        self.expected_result == self.value * self.multiplier
    }

    /// More than the resend interval has passed between the last send attempt and `now`.
    pub open spec fn should_resend(self, now: nat) -> bool {
        now - self.last_send_attempt_time > RESEND_REQUESTS_EVERY_NANOS
    }

    /// The same request, with `now` as the time of its last send attempt.
    pub open spec fn refreshed(self, now: nat) -> RequestView {
        RequestView { last_send_attempt_time: now, ..self }
    }

    /// A response carrying `result` reproduces the expected result exactly.
    pub open spec fn accepts(self, result: int) -> bool {
        result == self.expected_result
    }
}

/// A pending request: its operands, the product expected back, and the time of
/// the last attempt to send it, in nanoseconds on the sender's monotonic clock.
#[derive(Clone, Copy, Debug, PartialEq, Eq)]
pub struct RequestData {
    value: i64,
    multiplier: i64,
    expected_result: i64,
    last_send_attempt_time: u128,
}

impl View for RequestData {
    type V = RequestView;

    closed spec fn view(&self) -> RequestView {
        RequestView {
            value: self.value as int,
            multiplier: self.multiplier as int,
            expected_result: self.expected_result as int,
            last_send_attempt_time: self.last_send_attempt_time as nat,
        }
    }
}

impl RequestData {
    #[verifier::type_invariant]
    spec fn product_is_fixed(self) -> bool {
        self.expected_result == self.value * self.multiplier
    }

    /// Creates the record of a request sent at `now`; the expected result is
    /// computed here and never again.
    pub fn new(value: i64, multiplier: i64, now: u128) -> (record: Self)
        requires
            i64::MIN <= value * multiplier <= i64::MAX,
        ensures
            record@ == RequestView::created(value as int, multiplier as int, now as nat),
    {
        Self { value, multiplier, expected_result: value * multiplier, last_send_attempt_time: now }
    }

    /// Whether the request, unanswered at `now`, is due for another send attempt.
    pub fn should_resend_request(&self, now: u128) -> (due: bool)
        ensures
            due == self@.should_resend(now as nat),
    {
        now > self.last_send_attempt_time && now - self.last_send_attempt_time
            > RESEND_REQUESTS_EVERY_NANOS
    }

    /// Records `now` as the time of the last send attempt.
    pub fn update_last_send_attempt_time(&mut self, now: u128)
        ensures
            final(self)@ == old(self)@.refreshed(now as nat),
    {
        proof {
            use_type_invariant(&*self);
        }
        self.last_send_attempt_time = now;
    }

    /// The first operand.
    pub fn value(&self) -> (value: i64)
        ensures
            value == self@.value,
    {
        self.value
    }

    /// The second operand.
    pub fn multiplier(&self) -> (multiplier: i64)
        ensures
            multiplier == self@.multiplier,
    {
        self.multiplier
    }

    /// The product that a response has to carry.
    pub fn expected_result(&self) -> (expected_result: i64)
        ensures
            expected_result == self@.expected_result,
            self@.consistent(),
    {
        proof {
            use_type_invariant(self);
        }
        self.expected_result
    }

    /// The time of the last send attempt.
    pub fn last_send_attempt_time(&self) -> (time: u128)
        ensures
            time == self@.last_send_attempt_time,
    {
        self.last_send_attempt_time
    }
}

} // verus!
