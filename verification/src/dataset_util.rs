use vstd::prelude::*;
use vstd::seq_lib::{to_multiset_contains, to_multiset_update};

verus! {

/// Swapping two positions of a sequence leaves its multiset of elements
/// unchanged.
proof fn lemma_swap_to_multiset<A>(s: Seq<A>, i: int, j: int)
    requires
        0 <= i < s.len(),
        0 <= j < s.len(),
    ensures
        s.update(i, s[j]).update(j, s[i]).to_multiset() == s.to_multiset(),
{
    if i == j {
        assert(s.update(i, s[j]).update(j, s[i]) =~= s);
    } else {
        let s1 = s.update(i, s[j]);
        to_multiset_update(s, i, s[j]);
        to_multiset_update(s1, j, s[i]);
        assert(s.contains(s[i]));
        to_multiset_contains(s, s[i]);
        assert(s1[j] == s[j]);
        assert(s1.to_multiset().count(s[j]) > 0) by {
            assert(s1.contains(s[j]));
            to_multiset_contains(s1, s[j]);
        }
        assert(s1.update(j, s[i]).to_multiset() =~= s.to_multiset());
    }
}

/// A deterministic permutation of `0 .. n`, driven by a linear
/// congruential generator over the given seed: the Fisher-Yates shuffle
/// of the identity order.  The result holds each index below `n`
/// exactly once.
pub fn shuffle_indices(n: usize, seed: u64) -> (r: Vec<usize>)
    ensures
        r@.len() == n,
        r@.to_multiset() == Seq::new(n as nat, |i: int| i as usize).to_multiset(),
{
    let mut idx: Vec<usize> = Vec::new();
    for i in 0..n
        invariant
            idx@.len() == i,
            forall|j: int| 0 <= j < i ==> idx@[j] == j,
    {
        idx.push(i);
    }
    assert(idx@ =~= Seq::new(n as nat, |i: int| i as usize));
    let ghost ident = idx@;
    if n == 0 {
        return idx;
    }
    let mut s = seed;
    let mut i: usize = n - 1;
    while i >= 1
        invariant
            i <= n - 1,
            idx@.len() == n,
            idx@.to_multiset() == ident.to_multiset(),
        decreases i,
    {
        s = s.wrapping_mul(6364136223846793005u64).wrapping_add(1u64);
        let modulus = (i as u64) + 1;
        let j64 = s % modulus;
        proof {
            assert(j64 <= i as u64);
        }
        let j = j64 as usize;
        let ghost pre = idx@;
        let a = idx[i];
        let b = idx[j];
        idx.set(i, b);
        idx.set(j, a);
        proof {
            lemma_swap_to_multiset(pre, i as int, j as int);
        }
        i = i - 1;
    }
    idx
}

/// Ascending order over a sequence of indices.
pub open spec fn sorted(s: Seq<usize>) -> bool {
    forall|p: int, q: int| 0 <= p < q < s.len() ==> s[p] <= s[q]
}

/// Sorts the indices ascending in place (selection sort), keeping
/// exactly the same multiset of elements.
pub fn sort_indices(v: &mut Vec<usize>)
    ensures
        final(v)@.len() == old(v)@.len(),
        sorted(final(v)@),
        final(v)@.to_multiset() == old(v)@.to_multiset(),
{
    let ghost v0 = v@;
    let n = v.len();
    for i in 0..n
        invariant
            v@.len() == n,
            v@.to_multiset() == v0.to_multiset(),
            forall|p: int, q: int| 0 <= p < q < i ==> v@[p] <= v@[q],
            forall|p: int, q: int| 0 <= p < i <= q < n ==> v@[p] <= v@[q],
    {
        let mut mi = i;
        for k in (i + 1)..n
            invariant
                i <= mi < n,
                i < n,
                v@.len() == n,
                forall|t: int| i <= t < k ==> v@[mi as int] <= v@[t],
        {
            if v[k] < v[mi] {
                mi = k;
            }
        }
        let ghost pre = v@;
        let a = v[i];
        let b = v[mi];
        v.set(i, b);
        v.set(mi, a);
        proof {
            lemma_swap_to_multiset(pre, i as int, mi as int);
        }
    }
}

/// The window `indices[cursor .. min(cursor + batch_size, len)]` of a
/// (typically shuffled) index order, sorted ascending, together with
/// the cursor for the following batch.  Sorting the window lets a
/// sequential reader visit its records in file order.
pub fn next_batch_indices(indices: &Vec<usize>, cursor: usize, batch_size: usize) -> (r: (
    Vec<usize>,
    usize,
))
    requires
        batch_size >= 1,
        cursor <= indices@.len(),
    ensures
        r.1 as int == if cursor + batch_size <= indices@.len() {
            cursor + batch_size
        } else {
            indices@.len() as int
        },
        sorted(r.0@),
        r.0@.to_multiset() == indices@.subrange(cursor as int, r.1 as int).to_multiset(),
{
    let len = indices.len();
    let rem = len - cursor;
    let end = if batch_size < rem {
        cursor + batch_size
    } else {
        len
    };
    let mut batch: Vec<usize> = Vec::new();
    for t in cursor..end
        invariant
            end <= len,
            indices@.len() == len,
            batch@ == indices@.subrange(cursor as int, t as int),
    {
        batch.push(indices[t]);
        proof {
            assert(indices@.subrange(cursor as int, t as int).push(indices@[t as int])
                =~= indices@.subrange(cursor as int, t as int + 1));
        }
    }
    sort_indices(&mut batch);
    (batch, end)
}

/// Groups an owned list of items into consecutive batches.  `next`
/// hands the items out in order, `batch_size` at a time; an optional
/// limit stops the iteration once that many items have been offered.
pub struct BatchIter<T> {
    items: Vec<T>,
    batch_size: usize,
    index: usize,
    max_size: Option<usize>,
}

impl<T> BatchIter<T> {
    /// The items not yet handed out, in order.
    pub closed spec fn remaining(self) -> Seq<T> {
        self.items@
    }

    /// The number of items a batch holds (the last one may be shorter).
    pub closed spec fn batch_len(self) -> nat {
        self.batch_size as nat
    }

    /// How many items the iteration has offered so far (whole batches,
    /// whether or not the source could fill them).
    pub closed spec fn position(self) -> nat {
        self.index as nat
    }

    /// The optional cap on how many items the iteration offers.
    pub closed spec fn limit(self) -> Option<usize> {
        self.max_size
    }

    /// A batch iteration over `items`, with no limit.
    pub fn new(items: Vec<T>, batch_size: usize) -> (r: BatchIter<T>)
        ensures
            r.remaining() == items@,
            r.batch_len() == batch_size,
            r.position() == 0,
            r.limit() is None,
    {
        BatchIter { items, batch_size, index: 0, max_size: None }
    }

    /// The same iteration, capped at `max_size` offered items.
    pub fn set_max_size(self, max_size: usize) -> (r: BatchIter<T>)
        ensures
            r.remaining() == self.remaining(),
            r.batch_len() == self.batch_len(),
            r.position() == self.position(),
            r.limit() == Some(max_size),
    {
        BatchIter { max_size: Some(max_size), ..self }
    }

    /// Drops the next `u` items (or all of them, if fewer remain) from
    /// the front without offering them as a batch.
    pub fn take_skipping(&mut self, u: usize)
        ensures
            final(self).remaining() == old(self).remaining().skip(
                if u <= old(self).remaining().len() {
                    u as int
                } else {
                    old(self).remaining().len() as int
                },
            ),
            final(self).batch_len() == old(self).batch_len(),
            final(self).position() == old(self).position(),
            final(self).limit() == old(self).limit(),
    {
        let ghost r0 = self.items@;
        let ghost b0 = self.batch_size;
        let ghost i0 = self.index;
        let ghost m0 = self.max_size;
        let k = if u < self.items.len() {
            u
        } else {
            self.items.len()
        };
        for c in 0..k
            invariant
                k <= r0.len(),
                self.items@ == r0.skip(c as int),
                self.batch_size == b0,
                self.index == i0,
                self.max_size == m0,
        {
            self.items.remove(0);
            proof {
                assert(r0.skip(c as int).remove(0) =~= r0.skip(c as int + 1));
            }
        }
    }

    /// The next batch: `None` once the limit is reached or the items
    /// are exhausted, otherwise the next `batch_size` items (fewer in
    /// the final batch).  The offered-item count advances by a whole
    /// `batch_size` either way, saturating at the machine limit.
    pub fn next(&mut self) -> (r: Option<Vec<T>>)
        ensures
            ({
                let stopped = old(self).limit() matches Some(m) && m <= old(self).position();
                let k = if old(self).batch_len() <= old(self).remaining().len() {
                    old(self).batch_len() as int
                } else {
                    old(self).remaining().len() as int
                };
                &&& (stopped ==> r is None && *final(self) == *old(self))
                &&& (!stopped ==> {
                    &&& final(self).remaining() == old(self).remaining().skip(k)
                    &&& final(self).batch_len() == old(self).batch_len()
                    &&& final(self).limit() == old(self).limit()
                    &&& final(self).position() as int == (if old(self).position() + old(
                        self,
                    ).batch_len() <= usize::MAX {
                        (old(self).position() + old(self).batch_len()) as int
                    } else {
                        usize::MAX as int
                    })
                    &&& (k == 0 ==> r is None)
                    &&& (k > 0 ==> (r matches Some(b) && b@ == old(self).remaining().take(k)))
                })
            }),
    {
        match self.max_size {
            Some(m) => {
                if m <= self.index {
                    return None;
                }
            },
            None => {},
        }
        if self.index <= usize::MAX - self.batch_size {
            self.index = self.index + self.batch_size;
        } else {
            self.index = usize::MAX;
        }
        let ghost r0 = self.items@;
        let ghost b0 = self.batch_size;
        let ghost i0 = self.index;
        let ghost m0 = self.max_size;
        let k = if self.batch_size < self.items.len() {
            self.batch_size
        } else {
            self.items.len()
        };
        let mut batch: Vec<T> = Vec::new();
        for c in 0..k
            invariant
                k <= r0.len(),
                self.items@ == r0.skip(c as int),
                batch@ == r0.take(c as int),
                self.batch_size == b0,
                self.index == i0,
                self.max_size == m0,
        {
            let x = self.items.remove(0);
            batch.push(x);
            proof {
                assert(r0.skip(c as int).remove(0) =~= r0.skip(c as int + 1));
                assert(r0.take(c as int).push(r0.skip(c as int)[0]) =~= r0.take(c as int + 1));
            }
        }
        if batch.len() == 0 {
            None
        } else {
            Some(batch)
        }
    }
}

} // verus!
