//! The table of requests that were sent and are not yet resolved.
use crate::request::RequestData;
use crate::request::RequestView;
use std::collections::HashMap;
use vstd::prelude::*;
use vstd::std_specs::iter::IteratorSpec;

verus! {

broadcast use vstd::std_specs::hash::group_hash_axioms;

/// The table after one resend scan at `now`: every record that is due for a
/// resend has `now` as the time of its last send attempt, the others are left
/// as they were, and no correlation ID is added or removed.
pub open spec fn scanned(table: Map<u128, RequestView>, now: nat) -> Map<u128, RequestView> {
    Map::new(
        |id: u128| table.contains_key(id),
        |id: u128|
            if table[id].should_resend(now) {
                table[id].refreshed(now)
            } else {
                table[id]
            },
    )
}

/// `staged` holds the records of `table` that are due for a resend at `now`:
/// each of them once, none that is not due, each with its refreshed timestamp.
pub open spec fn stages_stale(
    table: Map<u128, RequestView>,
    now: nat,
    staged: Seq<(u128, RequestView)>,
) -> bool {
    &&& forall|i: int, j: int| 0 <= i < j < staged.len() ==> staged[i].0 != staged[j].0
    &&& forall|i: int|
        0 <= i < staged.len() ==> {
            &&& table.contains_key(#[trigger] staged[i].0)
            &&& table[staged[i].0].should_resend(now)
            &&& staged[i].1 == table[staged[i].0].refreshed(now)
        }
    &&& forall|id: u128|
        table.contains_key(id) && table[id].should_resend(now) ==> exists|i: int|
            0 <= i < staged.len() && #[trigger] staged[i].0 == id
}

/// Mathematical content of a list of staged resends.
pub open spec fn staged_view(staged: Seq<(u128, RequestData)>) -> Seq<(u128, RequestView)> {
    Seq::new(staged.len(), |i: int| (staged[i].0, staged[i].1@))
}

/// The pending requests by correlation ID: one record per ID.
pub struct AwaitingRequests {
    records: HashMap<u128, RequestData>,
}

impl View for AwaitingRequests {
    type V = Map<u128, RequestView>;

    closed spec fn view(&self) -> Map<u128, RequestView> {
        self.records@.map_values(|record: RequestData| record@)
    }
}

impl AwaitingRequests {
    /// An empty table.
    pub fn new() -> (table: Self)
        ensures
            table@ == Map::<u128, RequestView>::empty(),
    {
        let table = Self { records: HashMap::new() };
        assert(table@ =~= Map::<u128, RequestView>::empty());
        table
    }

    /// A copy of the record pending under `id`.
    pub fn get(&self, id: u128) -> (found: Option<RequestData>)
        ensures
            match found {
                Some(record) => self@.contains_key(id) && self@[id] == record@,
                None => !self@.contains_key(id),
            },
    {
        match self.records.get(&id) {
            Some(record) => Some(*record),
            None => None,
        }
    }

    /// Enters `record` under `id`, in place of the record that was pending
    /// there, which is returned.
    pub fn insert(&mut self, id: u128, record: RequestData) -> (previous: Option<RequestData>)
        ensures
            final(self)@ == old(self)@.insert(id, record@),
            match previous {
                Some(earlier) => old(self)@.contains_key(id) && old(self)@[id] == earlier@,
                None => !old(self)@.contains_key(id),
            },
    {
        let previous = self.records.insert(id, record);
        assert(self@ =~= old(self)@.insert(id, record@));
        previous
    }

    /// Takes the record pending under `id` out of the table.
    pub fn remove(&mut self, id: u128) -> (removed: Option<RequestData>)
        ensures
            final(self)@ == old(self)@.remove(id),
            match removed {
                Some(record) => old(self)@.contains_key(id) && old(self)@[id] == record@,
                None => !old(self)@.contains_key(id),
            },
    {
        let removed = self.records.remove(&id);
        assert(self@ =~= old(self)@.remove(id));
        removed
    }

    /// Number of pending requests.
    pub fn len(&self) -> (count: usize)
        ensures
            count == self@.len(),
            self@.dom().finite(),
    {
        assert(self@.dom() =~= self.records@.dom());
        self.records.len()
    }

    /// Whether a request is pending under `id`.
    pub fn contains(&self, id: u128) -> (present: bool)
        ensures
            present == self@.contains_key(id),
    {
        self.records.contains_key(&id)
    }

    /// One resend scan: refreshes every record that is due for a resend at
    /// `now` and returns those records, each once.
    pub fn claim_stale(&mut self, now: u128) -> (staged: Vec<(u128, RequestData)>)
        ensures
            final(self)@ == scanned(old(self)@, now as nat),
            stages_stale(old(self)@, now as nat, staged_view(staged@)),
    {
        let ids = self.ids();
        let mut staged: Vec<(u128, RequestData)> = Vec::new();
        let ghost before = self@;
        let ghost taken: Seq<int> = Seq::empty();
        let mut i: usize = 0;
        while i < ids.len()
            invariant
                0 <= i <= ids.len(),
                before == old(self)@,
                ids@.no_duplicates(),
                ids@.to_set() == before.dom(),
                self@.dom() == before.dom(),
                forall|k: int| 0 <= k < i ==> self@[ids@[k]] == scanned(before, now as nat)[ids@[k]],
                forall|k: int| i <= k < ids.len() ==> self@[ids@[k]] == before[ids@[k]],
                taken.len() == staged.len(),
                forall|j: int| 0 <= j < taken.len() ==> 0 <= #[trigger] taken[j] < i,
                forall|j: int, l: int| 0 <= j < l < taken.len() ==> taken[j] < taken[l],
                forall|j: int|
                    0 <= j < staged.len() ==> {
                        &&& (#[trigger] staged@[j]).0 == ids@[taken[j]]
                        &&& before[staged@[j].0].should_resend(now as nat)
                        &&& staged@[j].1@ == before[staged@[j].0].refreshed(now as nat)
                    },
                forall|k: int|
                    0 <= k < i && before[#[trigger] ids@[k]].should_resend(now as nat) ==> exists|
                        j: int,
                    | 0 <= j < taken.len() && #[trigger] taken[j] == k,
            decreases ids.len() - i,
        {
            let id = ids[i];
            assert(ids@.to_set().contains(ids@[i as int]));
            assert(self.records@.contains_key(id));
            let ghost entering = self@;
            match self.records.get(&id) {
                Some(record) => {
                    if record.should_resend_request(now) {
                        let mut claimed = *record;
                        claimed.update_last_send_attempt_time(now);
                        let _ = self.records.insert(id, claimed);
                        staged.push((id, claimed));
                        proof {
                            assert(self@ =~= entering.insert(id, claimed@));
                            let earlier = taken;
                            taken = taken.push(i as int);
                            assert forall|k: int|
                                0 <= k < i + 1 && before[#[trigger] ids@[k]].should_resend(
                                    now as nat,
                                ) implies exists|j: int|
                                0 <= j < taken.len() && #[trigger] taken[j] == k by {
                                if k < i {
                                    let j = choose|j: int|
                                        0 <= j < earlier.len() && #[trigger] earlier[j] == k;
                                    assert(taken[j] == k);
                                } else {
                                    assert(taken[earlier.len() as int] == k);
                                }
                            }
                        }
                    }
                },
                None => {
                    assert(false);
                },
            }
            i = i + 1;
        }
        proof {
            assert forall|id: u128| before.contains_key(id) implies self@[id] == scanned(
                before,
                now as nat,
            )[id] by {
                assert(ids@.to_set().contains(id));
                let k = choose|k: int| 0 <= k < ids@.len() && ids@[k] == id;
                assert(self@[ids@[k]] == scanned(before, now as nat)[ids@[k]]);
            }
            assert(self@ =~= scanned(before, now as nat));
            let listed = staged_view(staged@);
            assert forall|id: u128|
                before.contains_key(id) && before[id].should_resend(now as nat) implies exists|
                j: int,
            | 0 <= j < listed.len() && #[trigger] listed[j].0 == id by {
                assert(ids@.to_set().contains(id));
                let k = choose|k: int| 0 <= k < ids@.len() && ids@[k] == id;
                let j = choose|j: int| 0 <= j < taken.len() && taken[j] == k;
                assert(listed[j].0 == id);
            }
            assert forall|j: int| 0 <= j < listed.len() implies before.contains_key(
                #[trigger] listed[j].0,
            ) by {
                assert(ids@.to_set().contains(ids@[taken[j]]));
            }
        }
        staged
    }

    /// The correlation IDs of all pending requests, each once, in no
    /// particular order.
    pub fn ids(&self) -> (ids: Vec<u128>)
        ensures
            ids@.no_duplicates(),
            ids@.to_set() == self@.dom(),
    {
        let mut ids: Vec<u128> = Vec::new();
        let ghost walked = self.records.keys().remaining();
        for id in it: self.records.keys()
            invariant
                it.seq() == walked,
                ids@ == it.seq().take(it.index() as int).unref(),
        {
            ids.push(*id);
        }
        proof {
            assert(ids@ =~= walked.unref());
            assert(self@.dom() =~= self.records@.dom());
        }
        ids
    }
}

} // verus!
