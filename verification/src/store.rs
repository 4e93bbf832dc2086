//! The pending-request table shared between the dispatching and the receiving
//! side, reachable only through scoped callbacks.
use crate::pending::AwaitingRequests;
use crate::request::RequestView;
use std::sync::Arc;
use std::sync::RwLock;
use std::sync::TryLockError;
use vstd::prelude::*;

verus! {

/// `std::sync::RwLock`, carried as an opaque value.
#[verifier::external_type_specification]
#[verifier::external_body]
#[verifier::reject_recursive_types(T)]
pub struct ExRwLock<T: ?Sized>(RwLock<T>);

/// The table that a lock was created around.
pub uninterp spec fn created_around(lock: RwLock<AwaitingRequests>) -> Map<u128, RequestView>;

/// `std::sync::RwLock::new`: a new, unlocked lock around `table`. Claimed: the
/// lock was created around that table.
#[verifier::external_body]
fn new_lock(table: AwaitingRequests) -> (lock: RwLock<AwaitingRequests>)
    ensures
        created_around(lock) == table@,
{
    RwLock::new(table)
}

/// `outcome` is what `f` can return when it is run on some content of the table.
pub open spec fn read_yields<R, F: FnOnce(&AwaitingRequests) -> R>(f: F, outcome: R) -> bool {
    exists|table: AwaitingRequests| call_ensures(f, (&table,), outcome)
}

/// `outcome` is what `f` can return when it is run on some content of the table.
pub open spec fn write_yields<R, F: FnOnce(&mut AwaitingRequests) -> R>(f: F, outcome: R) -> bool {
    exists|table: &mut AwaitingRequests| call_ensures(f, (table,), outcome)
}

/// `std::sync::RwLock::try_read`: runs `f` on the table under the shared lock
/// if the lock can be had at once, and gives `None` if it cannot. The call
/// never waits, so it returns also where the calling thread holds the lock
/// itself. The lock is held while `f` runs and released when it returns or
/// unwinds; a lock poisoned by an earlier panic is entered all the same.
/// Claimed: a result that is there is one that `f` gives on some content of
/// the table.
#[verifier::external_body]
fn try_locked_read<R, F: FnOnce(&AwaitingRequests) -> R>(
    lock: &RwLock<AwaitingRequests>,
    f: F,
) -> (outcome: Option<R>)
    requires
        forall|table: AwaitingRequests| call_requires(f, (&table,)),
    ensures
        outcome matches Some(given) ==> read_yields(f, given),
{
    match lock.try_read() {
        Ok(guard) => Some(f(&guard)),
        Err(TryLockError::Poisoned(poisoned)) => Some(f(&poisoned.into_inner())),
        Err(TryLockError::WouldBlock) => None,
    }
}

/// `std::sync::RwLock::try_write`: runs `f` on the table under the exclusive
/// lock if the lock can be had at once, and gives `None` if it cannot. The
/// call never waits, so it returns also where the calling thread holds the
/// lock itself. The lock is held while `f` runs and released when it returns
/// or unwinds; a lock poisoned by an earlier panic is entered all the same.
/// Claimed: a result that is there is one that `f` gives on some content of
/// the table.
#[verifier::external_body]
fn try_locked_write<R, F: FnOnce(&mut AwaitingRequests) -> R>(
    lock: &RwLock<AwaitingRequests>,
    f: F,
) -> (outcome: Option<R>)
    requires
        forall|table: &mut AwaitingRequests| call_requires(f, (table,)),
    ensures
        outcome matches Some(given) ==> write_yields(f, given),
{
    match lock.try_write() {
        Ok(mut guard) => Some(f(&mut guard)),
        Err(TryLockError::Poisoned(poisoned)) => Some(f(&mut poisoned.into_inner())),
        Err(TryLockError::WouldBlock) => None,
    }
}

/// The pending-request table behind a reader/writer lock. Clones share one
/// table. The lock itself is never handed out: the table is reached only
/// inside a callback, and the lock is released when the callback ends.
/// Nobody ever waits for the lock: where it cannot be had at once, `read` and
/// `write` hand `None` back without running the callback, and the caller asks
/// again. So a callback that asks for the storage it runs under is told that
/// the table is busy, and a holder cannot block itself. A callback should
/// neither block nor do input or output.
#[derive(Clone)]
pub struct AwaitingRequestsStorage {
    shared: Arc<RwLock<AwaitingRequests>>,
}

impl AwaitingRequestsStorage {
    /// The table that the storage started with, before any callback ran.
    pub closed spec fn initial_table(&self) -> Map<u128, RequestView> {
        created_around(*self.shared)
    }

    /// A storage that starts with an empty table.
    pub fn new() -> (storage: Self)
        ensures
            storage.initial_table() == Map::<u128, RequestView>::empty(),
    {
        Self { shared: Arc::new(new_lock(AwaitingRequests::new())) }
    }

    /// Runs `f` on the table if no writer holds it; readers may overlap.
    /// Gives `None`, without running `f`, where the table is busy.
    pub fn read<R, F: FnOnce(&AwaitingRequests) -> R>(&self, f: F) -> (outcome: Option<R>)
        requires
            forall|table: AwaitingRequests| call_requires(f, (&table,)),
        ensures
            outcome matches Some(given) ==> read_yields(f, given),
    {
        try_locked_read(&*self.shared, f)
    }

    /// Runs `f` on the table if nobody else holds it. Gives `None`, without
    /// running `f`, where the table is busy.
    pub fn write<R, F: FnOnce(&mut AwaitingRequests) -> R>(&self, f: F) -> (outcome: Option<R>)
        requires
            forall|table: &mut AwaitingRequests| call_requires(f, (table,)),
        ensures
            outcome matches Some(given) ==> write_yields(f, given),
    {
        try_locked_write(&*self.shared, f)
    }
}

} // verus!
