//! The task allocator: the one piece of shared mutable state.
//!
//! The counter starts at zero and each allocation returns its new value,
//! so ids are 1, 2, 3, ... in allocation order. The transport wraps one
//! `TaskCounter` in a lock and holds it only across `next_id`, which
//! keeps the sequence contiguous under concurrent requests.

use vstd::prelude::*;

verus! {

/// The process-wide task id counter. The raw value stays private;
/// callers only ever see the ids `next_id` hands out.
pub struct TaskCounter {
    count: i32,
}

impl TaskCounter {
    /// The number of ids issued so far.
    pub closed spec fn spec_count(&self) -> int {
        self.count as int
    }

    pub fn new() -> (r: Self)
        ensures
            r.spec_count() == 0,
    {
        TaskCounter { count: 0 }
    }

    /// The current counter value, for callers that must make sure the
    /// next id still fits before asking for one.
    pub fn count(&self) -> (r: i32)
        ensures
            r == self.spec_count(),
    {
        self.count
    }

    /// Issues the next task id: one more than everything issued before.
    pub fn next_id(&mut self) -> (id: i32)
        requires
            old(self).spec_count() < i32::MAX,
        ensures
            final(self).spec_count() == old(self).spec_count() + 1,
            id == final(self).spec_count(),
    {
        self.count = self.count + 1;
        self.count
    }
}

/// Law: when each of `n` requests is handed the id one past its
/// predecessor's — which `next_id` guarantees under exclusion — the ids
/// are pairwise distinct and form exactly the set {1, ..., n}.
pub proof fn lemma_task_ids_exact_range(ids: Seq<i32>, n: nat)
    requires
        ids.len() == n,
        n <= i32::MAX,
        forall|k: int| 0 <= k < n ==> ids[k] == k + 1,
    ensures
        forall|k1: int, k2: int| 0 <= k1 < k2 < n ==> ids[k1] != ids[k2],
        forall|v: i32| ids.contains(v) <==> 1 <= v <= n,
{
    assert forall|v: i32| 1 <= v <= n implies ids.contains(v) by {
        assert(ids[v - 1] == v);
    }
}

} // verus!
