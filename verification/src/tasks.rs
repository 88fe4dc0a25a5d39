//! Task bookkeeping tied to an entity's lifetime: every held task gets an index one past the last
//! held one, and a finished task removes its own entry, found by binary search.
use vstd::prelude::*;

verus! {

/// Strictly increasing.
pub open spec fn strictly_increasing(s: Seq<usize>) -> bool {
    forall|i: int, j: int| 0 <= i < j < s.len() ==> s[i] < s[j]
}

/// The indices of the tasks an entity holds, in the order they were held.
pub struct TaskIndices {
    indices: Vec<usize>,
}

impl View for TaskIndices {
    type V = Seq<usize>;

    closed spec fn view(&self) -> Seq<usize> {
        self.indices@
    }
}

impl TaskIndices {
    /// The indices are strictly increasing.
    pub open spec fn wf(&self) -> bool {
        strictly_increasing(self@)
    }

    /// No task held.
    pub fn new() -> (r: Self)
        ensures
            r@ == Seq::<usize>::empty(),
            r.wf(),
    {
        TaskIndices { indices: Vec::new() }
    }

    /// The held indices.
    pub fn indices(&self) -> (r: &Vec<usize>)
        ensures
            r@ == self@,
    {
        &self.indices
    }

    /// Hold a new task; its index is one past the last held index, or zero if none is held.
    pub fn hold(&mut self) -> (r: usize)
        requires
            old(self).wf(),
            old(self)@.len() > 0 ==> old(self)@.last() < usize::MAX,
        ensures
            r == if old(self)@.len() > 0 {
                old(self)@.last() + 1
            } else {
                0
            },
            final(self)@ == old(self)@.push(r),
            final(self).wf(),
            !old(self)@.contains(r),
    {
        let len = self.indices.len();
        let i = if len > 0 {
            self.indices[len - 1] + 1
        } else {
            0
        };
        self.indices.push(i);
        proof {
            assert forall|k: int| 0 <= k < old(self)@.len() implies old(self)@[k] < i by {
                if k < old(self)@.len() - 1 {
                    assert(old(self)@[k] < old(self)@[old(self)@.len() - 1]);
                }
            }
        }
        i
    }

    /// A task finished: remove its index if held. Returns whether it was held.
    pub fn complete(&mut self, index: usize) -> (r: bool)
        requires
            old(self).wf(),
        ensures
            r == old(self)@.contains(index),
            final(self).wf(),
            r ==> exists|p: int| 0 <= p < old(self)@.len() && old(self)@[p] == index && final(self)@ == old(self)@.remove(p),
            !r ==> final(self)@ == old(self)@,
            !final(self)@.contains(index),
    {
        match binary_search(&self.indices, index) {
            Some(p) => {
                self.indices.remove(p);
                proof {
                    let s = old(self)@;
                    assert(s.contains(index));
                    assert forall|i: int, j: int| 0 <= i < j < self@.len() implies self@[i] < self@[j] by {
                        let si = if i < p { i } else { i + 1 };
                        let sj = if j < p { j } else { j + 1 };
                        assert(self@[i] == s[si]);
                        assert(self@[j] == s[sj]);
                    }
                    assert forall|k: int| 0 <= k < self@.len() implies self@[k] != index by {
                        let sk = if k < p { k } else { k + 1 };
                        assert(self@[k] == s[sk]);
                        assert(sk != p);
                    }
                }
                true
            },
            None => false,
        }
    }
}

/// Binary search for `key` in a strictly increasing vector.
pub fn binary_search(v: &Vec<usize>, key: usize) -> (r: Option<usize>)
    requires
        strictly_increasing(v@),
    ensures
        match r {
            Some(p) => p < v@.len() && v@[p as int] == key,
            None => !v@.contains(key),
        },
{
    let mut lo: usize = 0;
    let mut hi: usize = v.len();
    while lo < hi
        invariant
            strictly_increasing(v@),
            0 <= lo <= hi <= v@.len(),
            forall|k: int| 0 <= k < lo ==> v@[k] < key,
            forall|k: int| hi <= k < v@.len() ==> v@[k] > key,
        decreases hi - lo,
    {
        let mid = lo + (hi - lo) / 2;
        let x = v[mid];
        if x == key {
            return Some(mid);
        } else if x < key {
            lo = mid + 1;
        } else {
            hi = mid;
        }
    }
    None
}

/// Holding then completing a task returns the held indices to what they were.
pub proof fn lemma_hold_then_complete(indices: Seq<usize>, fresh: usize)
    requires
        strictly_increasing(indices),
        forall|k: int| 0 <= k < indices.len() ==> indices[k] < fresh,
    ensures
        strictly_increasing(indices.push(fresh)),
        indices.push(fresh).remove(indices.len() as int) == indices,
        indices.push(fresh)[indices.len() as int] == fresh,
{
    assert(indices.push(fresh).remove(indices.len() as int) =~= indices);
}

/// Over any run of holds and completions, the held indices are those held and not yet
/// completed: holding adds its fresh index, completing an index removes exactly that index.
pub proof fn lemma_held_indices_track_tasks(indices: Seq<usize>, fresh: usize, p: int)
    requires
        strictly_increasing(indices),
        0 <= p < indices.len(),
    ensures
        indices.push(fresh).to_set() == indices.to_set().insert(fresh),
        indices.remove(p).to_set() == indices.to_set().remove(indices[p]),
{
    let r = indices.remove(p);
    assert forall|x: usize| #[trigger] r.to_set().contains(x) <==> indices.to_set().remove(indices[p]).contains(x) by {
        if r.contains(x) {
            let i = choose|i: int| 0 <= i < r.len() && r[i] == x;
            let si = if i < p { i } else { i + 1 };
            assert(indices[si] == x);
        }
        if indices.contains(x) && x != indices[p] {
            let i = choose|i: int| 0 <= i < indices.len() && indices[i] == x;
            if i < p {
                assert(r[i] == x);
            } else {
                assert(r[i - 1] == x);
            }
        }
    }
    assert(r.to_set() =~= indices.to_set().remove(indices[p]));
    let q = indices.push(fresh);
    assert forall|x: usize| #[trigger] q.to_set().contains(x) <==> indices.to_set().insert(fresh).contains(x) by {
        if q.contains(x) {
            let i = choose|i: int| 0 <= i < q.len() && q[i] == x;
            if i < indices.len() {
                assert(indices[i] == x);
            }
        }
        if indices.contains(x) {
            let i = choose|i: int| 0 <= i < indices.len() && indices[i] == x;
            assert(q[i] == x);
        }
        if x == fresh {
            assert(q[indices.len() as int] == x);
        }
    }
    assert(q.to_set() =~= indices.to_set().insert(fresh));
}

} // verus!
