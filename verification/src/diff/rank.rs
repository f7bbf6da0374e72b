use vstd::prelude::*;

use super::delta::{FunctionDelta, IoDelta, MemoryDelta};

verus! {

/// A diff entry ranked by the magnitude of its main delta.
pub trait Ranked: View + Sized {
    /// The magnitude the entry is ranked by.
    spec fn rank_spec(&self) -> nat;

    fn rank(&self) -> (r: u64)
        ensures
            r == self.rank_spec(),
    ;
}

/// The absolute value of an `i64`, as `i64::unsigned_abs` gives it.
pub open spec fn magnitude(x: i64) -> nat {
    if x < 0 {
        (-x) as nat
    } else {
        x as nat
    }
}

/// `i64::unsigned_abs`.
pub fn unsigned_abs(x: i64) -> (r: u64)
    ensures
        r == magnitude(x),
{
    if x >= 0 {
        x as u64
    } else if x == i64::MIN {
        0x8000_0000_0000_0000u64
    } else {
        (-x) as u64
    }
}

impl Ranked for FunctionDelta {
    /// Functions rank by their self-sample change.
    open spec fn rank_spec(&self) -> nat {
        magnitude(self.self_samples_delta)
    }

    fn rank(&self) -> (r: u64) {
        unsigned_abs(self.self_samples_delta)
    }
}

impl Ranked for IoDelta {
    /// Processes rank by their I/O byte change.
    open spec fn rank_spec(&self) -> nat {
        magnitude(self.io_bytes_delta)
    }

    fn rank(&self) -> (r: u64) {
        unsigned_abs(self.io_bytes_delta)
    }
}

impl Ranked for MemoryDelta {
    /// Processes rank by their net allocation change.
    open spec fn rank_spec(&self) -> nat {
        magnitude(self.net_alloc_delta)
    }

    fn rank(&self) -> (r: u64) {
        unsigned_abs(self.net_alloc_delta)
    }
}

/// Whether the entries run from the largest rank down.
pub open spec fn ranked_desc<T: Ranked>(s: Seq<T>) -> bool {
    forall|i: int, j: int| 0 <= i < j < s.len() ==> (#[trigger] s[i]).rank_spec() >= (#[trigger] s[j]).rank_spec()
}

/// The views of the entries, in order.
pub open spec fn views<T: View>(s: Seq<T>) -> Seq<T::V> {
    s.map_values(|x: T| x@)
}

/// The entries ordered from the largest rank down; the order among entries of
/// equal rank is not part of the contract.
pub fn sort_by_rank_desc<T: Ranked>(v: Vec<T>) -> (r: Vec<T>)
    ensures
        ranked_desc(r@),
        views(r@).to_multiset() == views(v@).to_multiset(),
{
    broadcast use vstd::seq_lib::group_to_multiset_ensures;

    let ghost v0 = v@;
    let mut v = v;
    let mut r: Vec<T> = Vec::new();
    assert(views(r@) =~= Seq::<T::V>::empty());
    assert(views(v@).to_multiset().add(views(r@).to_multiset()) =~= views(v0).to_multiset());
    while v.len() > 0
        invariant
            ranked_desc(r@),
            views(v@).to_multiset().add(views(r@).to_multiset()) == views(v0).to_multiset(),
        decreases v@.len(),
    {
        let ghost old_v = v@;
        let ghost old_r = r@;
        let x = v.pop().unwrap();
        assert(old_v =~= v@.push(x));
        assert(views(old_v) =~= views(v@).push(x@));
        let key = x.rank();
        let mut j: usize = 0;
        while j < r.len() && r[j].rank() >= key
            invariant
                0 <= j <= r@.len(),
                r@ == old_r,
                key == x.rank_spec(),
                forall|m: int| 0 <= m < j ==> (#[trigger] r@[m]).rank_spec() >= x.rank_spec(),
            decreases r@.len() - j,
        {
            j = j + 1;
        }
        r.insert(j, x);
        assert(views(r@) =~= views(old_r).insert(j as int, x@));
        proof {
            vstd::seq_lib::to_multiset_insert(views(old_r), j as int, x@);
            vstd::seq_lib::to_multiset_build(views(v@), x@);
            assert(views(v@).to_multiset().add(views(r@).to_multiset()) =~= views(v0).to_multiset());
        }
        assert forall|a: int, b: int| 0 <= a < b < r@.len() implies (#[trigger] r@[a]).rank_spec() >= (#[trigger] r@[b]).rank_spec() by {
            if j < old_r.len() {
                assert(old_r[j as int].rank_spec() < x.rank_spec());
            }
            if a < j && b < j {
                assert(r@[a] == old_r[a] && r@[b] == old_r[b]);
            } else if a < j && b == j {
                assert(r@[a] == old_r[a]);
            } else if a < j {
                assert(r@[a] == old_r[a] && r@[b] == old_r[b - 1]);
            } else if a == j {
                assert(r@[b] == old_r[b - 1]);
                assert(old_r[j as int].rank_spec() >= old_r[b - 1].rank_spec() || b - 1 == j);
            } else {
                assert(r@[a] == old_r[a - 1] && r@[b] == old_r[b - 1]);
            }
        }
    }
    assert(v@ =~= Seq::<T>::empty());
    assert(views(v@) =~= Seq::<T::V>::empty());
    assert(views(v@).to_multiset().add(views(r@).to_multiset()) =~= views(r@).to_multiset());
    r
}

} // verus!
