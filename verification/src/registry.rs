//! The ledger of per-payment resolution records.
//!
//! Records are looked up and stored by pay id.  A payment with no record yet
//! reads as the default record `{amount: 0, deadline: 0}`; records are
//! created on first resolution, updated in place afterwards and never
//! deleted by the resolution engine.

use vstd::prelude::*;

use crate::types::Digest;
use crate::types::PayResolutionRecord;
use crate::types::digest_eq;

verus! {

/// Map from pay id to resolution record, stored as an association list with
/// pairwise-distinct keys.
pub struct PayRegistry {
    entries: Vec<(Digest, PayResolutionRecord)>,
}

impl View for PayRegistry {
    type V = Map<Seq<u8>, PayResolutionRecord>;

    closed spec fn view(&self) -> Map<Seq<u8>, PayResolutionRecord> {
        Map::new(
            |k: Seq<u8>|
                exists|i: int|
                    0 <= i < self.entries@.len() && (#[trigger] self.entries@[i]).0@ == k,
            |k: Seq<u8>|
                {
                    let i = choose|i: int|
                        0 <= i < self.entries@.len() && (#[trigger] self.entries@[i]).0@ == k;
                    self.entries@[i].1
                },
        )
    }
}

impl PayRegistry {
    /// The stored keys are pairwise distinct.
    pub closed spec fn wf(&self) -> bool {
        forall|i: int, j: int|
            0 <= i < j < self.entries@.len() ==> (#[trigger] self.entries@[i]).0@ != (
            #[trigger] self.entries@[j]).0@
    }

    /// An empty registry.
    pub fn new() -> (r: Self)
        ensures
            r.wf(),
            r@ == Map::<Seq<u8>, PayResolutionRecord>::empty(),
    {
        let r = PayRegistry { entries: Vec::new() };
        proof {
            assert(r@ =~= Map::<Seq<u8>, PayResolutionRecord>::empty());
        }
        r
    }

    /// Looks a payment's record up; a payment never resolved reads as the
    /// default record with the zero-deadline sentinel.
    pub fn get_pay_info(&self, pay_id: &Digest) -> (r: PayResolutionRecord)
        requires
            self.wf(),
        ensures
            self@.contains_key(pay_id@) ==> r == self@[pay_id@],
            !self@.contains_key(pay_id@) ==> r == (PayResolutionRecord { amount: 0, deadline: 0 }),
    {
        let n = self.entries.len();
        let mut i: usize = 0;
        while i < n
            invariant
                n == self.entries@.len(),
                0 <= i <= n,
                self.wf(),
                forall|k: int| 0 <= k < i ==> (#[trigger] self.entries@[k]).0@ != pay_id@,
            decreases n - i,
        {
            if digest_eq(&self.entries[i].0, pay_id) {
                proof {
                    assert(self.entries@[i as int].0@ == pay_id@);
                    assert(self@.contains_key(pay_id@));
                    let j = choose|j: int|
                        0 <= j < self.entries@.len() && (#[trigger] self.entries@[j]).0@
                            == pay_id@;
                    assert(j == i as int);
                }
                return self.entries[i].1;
            }
            i += 1;
        }
        proof {
            assert(!self@.contains_key(pay_id@));
        }
        PayResolutionRecord { amount: 0, deadline: 0 }
    }

    /// Stores `(amount, deadline)` as the payment's record, creating or
    /// overwriting it.
    pub fn set_pay_info(&mut self, pay_id: &Digest, amount: u64, deadline: u64)
        requires
            old(self).wf(),
        ensures
            final(self).wf(),
            final(self)@ == old(self)@.insert(
                pay_id@,
                PayResolutionRecord { amount, deadline },
            ),
    {
        let rec = PayResolutionRecord { amount, deadline };
        let n = self.entries.len();
        let mut i: usize = 0;
        while i < n
            invariant
                n == self.entries@.len(),
                0 <= i <= n,
                self.wf(),
                self == old(self),
                rec == (PayResolutionRecord { amount, deadline }),
                forall|k: int| 0 <= k < i ==> (#[trigger] self.entries@[k]).0@ != pay_id@,
            decreases n - i,
        {
            if digest_eq(&self.entries[i].0, pay_id) {
                let ghost prev = self.entries@;
                self.entries[i] = (*pay_id, rec);
                proof {
                    assert(self.entries@ == prev.update(i as int, (*pay_id, rec)));
                    assert forall|p: int, q: int|
                        0 <= p < q < self.entries@.len() implies (
                    #[trigger] self.entries@[p]).0@ != (#[trigger] self.entries@[q]).0@ by {
                        assert(prev[p].0@ != prev[q].0@);
                    }
                    lemma_map_after_update(
                        prev,
                        self.entries@,
                        i as int,
                        pay_id@,
                        rec,
                        *old(self),
                        *self,
                    );
                }
                return ;
            }
            i += 1;
        }
        let ghost prev = self.entries@;
        self.entries.push((*pay_id, rec));
        proof {
            assert forall|p: int, q: int|
                0 <= p < q < self.entries@.len() implies (#[trigger] self.entries@[p]).0@ != (
            #[trigger] self.entries@[q]).0@ by {
                if q < prev.len() {
                    assert(prev[p].0@ != prev[q].0@);
                } else {
                    assert(self.entries@[q] == (*pay_id, rec));
                    assert(prev[p].0@ != pay_id@);
                }
            }
            lemma_map_after_push(prev, self.entries@, pay_id@, rec, *old(self), *self);
        }
    }

    /// Updates only the payment's amount, leaving its deadline as stored
    /// (or at the zero sentinel if the payment had no record).
    pub fn set_pay_amount(&mut self, pay_id: &Digest, amount: u64)
        requires
            old(self).wf(),
        ensures
            final(self).wf(),
            final(self)@ == old(self)@.insert(
                pay_id@,
                PayResolutionRecord {
                    amount,
                    deadline: if old(self)@.contains_key(pay_id@) {
                        old(self)@[pay_id@].deadline
                    } else {
                        0
                    },
                },
            ),
    {
        let current = self.get_pay_info(pay_id);
        self.set_pay_info(pay_id, amount, current.deadline);
    }
}

/// After overwriting the entry that already held `key`, the registry's map
/// is the old map with `key` bound to `rec`.
proof fn lemma_map_after_update(
    prev: Seq<(Digest, PayResolutionRecord)>,
    cur: Seq<(Digest, PayResolutionRecord)>,
    i: int,
    key: Seq<u8>,
    rec: PayResolutionRecord,
    old_reg: PayRegistry,
    new_reg: PayRegistry,
)
    requires
        old_reg.entries@ == prev,
        new_reg.entries@ == cur,
        0 <= i < prev.len(),
        prev[i].0@ == key,
        cur.len() == prev.len(),
        forall|k: int| 0 <= k < cur.len() && k != i ==> cur[k] == prev[k],
        cur[i].0@ == key && cur[i].1 == rec,
        old_reg.wf(),
        new_reg.wf(),
    ensures
        new_reg@ == old_reg@.insert(key, rec),
{
    assert forall|k: Seq<u8>| #[trigger]
        new_reg@.contains_key(k) == old_reg@.insert(key, rec).contains_key(k) by {
        if k == key {
            assert(cur[i].0@ == k);
            assert(new_reg@.contains_key(k));
        } else {
            if new_reg@.contains_key(k) {
                let j = choose|j: int| 0 <= j < cur.len() && (#[trigger] cur[j]).0@ == k;
                assert(j != i);
                assert(prev[j].0@ == k);
                assert(old_reg@.contains_key(k));
            }
            if old_reg@.contains_key(k) {
                let j = choose|j: int| 0 <= j < prev.len() && (#[trigger] prev[j]).0@ == k;
                assert(j != i);
                assert(cur[j].0@ == k);
                assert(new_reg@.contains_key(k));
            }
        }
    }
    assert forall|k: Seq<u8>| new_reg@.contains_key(k) implies #[trigger] new_reg@[k]
        == old_reg@.insert(key, rec)[k] by {
        let j = choose|j: int| 0 <= j < cur.len() && (#[trigger] cur[j]).0@ == k;
        if k == key {
            assert(j == i);
            assert(new_reg@[k] == rec);
        } else {
            assert(j != i);
            let j2 = choose|j2: int| 0 <= j2 < prev.len() && (#[trigger] prev[j2]).0@ == k;
            assert(j2 != i);
            assert(cur[j2].0@ == k);
            assert(j2 == j);
            assert(new_reg@[k] == cur[j].1);
            assert(old_reg@[k] == prev[j2].1);
        }
    }
    assert(new_reg@ =~= old_reg@.insert(key, rec));
}

/// After appending a fresh key, the registry's map is the old map with
/// `key` bound to `rec`.
proof fn lemma_map_after_push(
    prev: Seq<(Digest, PayResolutionRecord)>,
    cur: Seq<(Digest, PayResolutionRecord)>,
    key: Seq<u8>,
    rec: PayResolutionRecord,
    old_reg: PayRegistry,
    new_reg: PayRegistry,
)
    requires
        old_reg.entries@ == prev,
        new_reg.entries@ == cur,
        cur.len() == prev.len() + 1,
        forall|k: int| 0 <= k < prev.len() ==> cur[k] == prev[k],
        cur[prev.len() as int].0@ == key && cur[prev.len() as int].1 == rec,
        forall|k: int| 0 <= k < prev.len() ==> (#[trigger] prev[k]).0@ != key,
        old_reg.wf(),
        new_reg.wf(),
    ensures
        new_reg@ == old_reg@.insert(key, rec),
{
    let n = prev.len() as int;
    assert forall|k: Seq<u8>| #[trigger]
        new_reg@.contains_key(k) == old_reg@.insert(key, rec).contains_key(k) by {
        if k == key {
            assert(cur[n].0@ == k);
            assert(new_reg@.contains_key(k));
        } else {
            if new_reg@.contains_key(k) {
                let j = choose|j: int| 0 <= j < cur.len() && (#[trigger] cur[j]).0@ == k;
                assert(j != n);
                assert(prev[j].0@ == k);
                assert(old_reg@.contains_key(k));
            }
            if old_reg@.contains_key(k) {
                let j = choose|j: int| 0 <= j < prev.len() && (#[trigger] prev[j]).0@ == k;
                assert(cur[j].0@ == k);
                assert(new_reg@.contains_key(k));
            }
        }
    }
    assert forall|k: Seq<u8>| new_reg@.contains_key(k) implies #[trigger] new_reg@[k]
        == old_reg@.insert(key, rec)[k] by {
        let j = choose|j: int| 0 <= j < cur.len() && (#[trigger] cur[j]).0@ == k;
        if k == key {
            assert(j == n);
            assert(new_reg@[k] == rec);
        } else {
            assert(j != n);
            let j2 = choose|j2: int| 0 <= j2 < prev.len() && (#[trigger] prev[j2]).0@ == k;
            assert(cur[j2].0@ == k);
            assert(j2 == j);
            assert(new_reg@[k] == cur[j].1);
            assert(old_reg@[k] == prev[j2].1);
        }
    }
    assert(new_reg@ =~= old_reg@.insert(key, rec));
}

} // verus!
