use vstd::arithmetic::mul::lemma_mul_is_distributive_add;
use vstd::prelude::*;

verus! {

// The engine's executable layers work on opaque scalars, so the
// algebraic facts behind their rules are recorded here over the exact
// integer model: the rectifier's value rule and the affine layer's dot
// product, with the laws that hold of them.

/// The rectifier's value rule: `max(0, x)`.
pub open spec fn relu_val(x: int) -> int {
    if x > 0 {
        x
    } else {
        0
    }
}

/// The rectifier applied elementwise.
pub open spec fn relu_seq(s: Seq<int>) -> Seq<int> {
    s.map_values(|x: int| relu_val(x))
}

/// Rectifier idempotence: applying the rectifier twice is the same as
/// applying it once — its outputs are non-negative, and non-negative
/// values are its fixed points.
pub proof fn lemma_rectifier_idempotent(s: Seq<int>)
    ensures
        relu_seq(relu_seq(s)) == relu_seq(s),
{
    assert(relu_seq(relu_seq(s)) =~= relu_seq(s));
}

/// The dot product of a weight row and a dense input of equal length.
pub open spec fn dot(w: Seq<int>, x: Seq<int>) -> int
    decreases x.len(),
{
    if x.len() == 0 || w.len() == 0 {
        0
    } else {
        w[0] * x[0] + dot(w.skip(1), x.skip(1))
    }
}

/// The sparse accumulation rule: `sum_{(i, v) in pairs} w[i] * v`.
pub open spec fn sparse_dot(w: Seq<int>, pairs: Seq<(nat, int)>) -> int
    decreases pairs.len(),
{
    if pairs.len() == 0 {
        0
    } else {
        w[pairs[0].0 as int] * pairs[0].1 + sparse_dot(w, pairs.skip(1))
    }
}

/// The dense vector a sparse buffer stands for: zero everywhere, with
/// each stored pair's value added at its index (so duplicate indices
/// accumulate).
pub open spec fn materialize(pairs: Seq<(nat, int)>, width: nat) -> Seq<int>
    decreases pairs.len(),
{
    if pairs.len() == 0 {
        Seq::new(width, |i: int| 0)
    } else {
        let rest = materialize(pairs.skip(1), width);
        rest.update(pairs[0].0 as int, rest[pairs[0].0 as int] + pairs[0].1)
    }
}

/// Materialization keeps the declared width (for in-range pairs).
pub proof fn lemma_materialize_len(pairs: Seq<(nat, int)>, width: nat)
    requires
        forall|k: int| 0 <= k < pairs.len() ==> (#[trigger] pairs[k]).0 < width,
    ensures
        materialize(pairs, width).len() == width,
    decreases pairs.len(),
{
    if pairs.len() > 0 {
        assert(forall|k: int|
            0 <= k < pairs.skip(1).len() ==> (#[trigger] pairs.skip(1)[k]).0 < width) by {
            assert(forall|k: int|
                0 <= k < pairs.skip(1).len() ==> pairs.skip(1)[k] == pairs[k + 1]);
        }
        lemma_materialize_len(pairs.skip(1), width);
        assert(pairs[0].0 < width);
    }
}

/// A dot product with the all-zero vector is zero.
proof fn lemma_dot_zero(w: Seq<int>, x: Seq<int>)
    requires
        forall|i: int| 0 <= i < x.len() ==> x[i] == 0,
    ensures
        dot(w, x) == 0,
    decreases x.len(),
{
    if x.len() > 0 && w.len() > 0 {
        lemma_dot_zero(w.skip(1), x.skip(1));
    }
}

/// Adding `v` at position `i` of the dense input adds exactly
/// `w[i] * v` to the dot product.
proof fn lemma_dot_update(w: Seq<int>, x: Seq<int>, i: int, v: int)
    requires
        w.len() == x.len(),
        0 <= i < x.len(),
    ensures
        dot(w, x.update(i, x[i] + v)) == dot(w, x) + w[i] * v,
    decreases x.len(),
{
    if i == 0 {
        assert(x.update(0, x[0] + v).skip(1) =~= x.skip(1));
        lemma_mul_is_distributive_add(w[0], x[0], v);
    } else {
        assert(x.update(i, x[i] + v).skip(1) =~= x.skip(1).update(i - 1, x.skip(1)[i - 1] + v));
        lemma_dot_update(w.skip(1), x.skip(1), i - 1, v);
    }
}

/// Sparse/dense equivalence: accumulating `w[i] * v` over a sparse
/// buffer's stored pairs equals the full dot product of `w` with the
/// dense vector the buffer stands for.  This is why the sparse affine
/// stage may skip the implicit zeros.
pub proof fn lemma_sparse_dense_dot(w: Seq<int>, pairs: Seq<(nat, int)>)
    requires
        forall|k: int| 0 <= k < pairs.len() ==> (#[trigger] pairs[k]).0 < w.len(),
    ensures
        dot(w, materialize(pairs, w.len())) == sparse_dot(w, pairs),
    decreases pairs.len(),
{
    lemma_materialize_len(pairs, w.len());
    if pairs.len() == 0 {
        lemma_dot_zero(w, materialize(pairs, w.len()));
    } else {
        assert(forall|k: int|
            0 <= k < pairs.skip(1).len() ==> (#[trigger] pairs.skip(1)[k]).0 < w.len()) by {
            assert(forall|k: int|
                0 <= k < pairs.skip(1).len() ==> pairs.skip(1)[k] == pairs[k + 1]);
        }
        let rest = materialize(pairs.skip(1), w.len());
        lemma_materialize_len(pairs.skip(1), w.len());
        lemma_sparse_dense_dot(w, pairs.skip(1));
        assert(pairs[0].0 < w.len());
        lemma_dot_update(w, rest, pairs[0].0 as int, pairs[0].1);
    }
}

} // verus!
