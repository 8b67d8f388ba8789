use crate::scalar::Scalar;
use vstd::prelude::*;

verus! {

/// The two value representations that flow between layers.
#[derive(Clone, Copy, PartialEq, Eq, Structural, Debug)]
pub enum BufferKind {
    /// An ordered sequence of values, one per unit; index is position.
    Dense,
    /// A list of (index, value) pairs; every other index holds zero.
    Sparse,
}

/// A pipeline input: either a dense vector or a sparse list of
/// (index, value) pairs.  Layers themselves only ever produce dense
/// output, so sparse buffers appear only at the front of a pipeline.
pub enum Buffer<S> {
    Dense(Vec<S>),
    Sparse(Vec<(usize, S)>),
}

impl<S> Buffer<S> {
    /// The representation this buffer uses.
    pub open spec fn kind(self) -> BufferKind {
        match self {
            Buffer::Dense(_) => BufferKind::Dense,
            Buffer::Sparse(_) => BufferKind::Sparse,
        }
    }

    /// Whether the buffer is a legal input for a layer boundary of the
    /// given kind and width: a dense buffer must have exactly that
    /// length, a sparse buffer must keep every index inside the width.
    pub open spec fn fits(self, kind: BufferKind, width: int) -> bool {
        match self {
            Buffer::Dense(v) => kind == BufferKind::Dense && v@.len() == width,
            Buffer::Sparse(pairs) => kind == BufferKind::Sparse && forall|k: int|
                0 <= k < pairs@.len() ==> (#[trigger] pairs@[k]).0 < width,
        }
    }
}

impl<S: Scalar> Buffer<S> {
    /// Run-time counterpart of [`Buffer::fits`], so that unverified
    /// callers can establish the precondition of the pipeline entry
    /// points before calling them.
    pub fn check_fits(&self, kind: BufferKind, width: usize) -> (r: bool)
        ensures
            r == self.fits(kind, width as int),
    {
        match self {
            Buffer::Dense(v) => kind == BufferKind::Dense && v.len() == width,
            Buffer::Sparse(pairs) => {
                if kind != BufferKind::Sparse {
                    return false;
                }
                let mut ok = true;
                for k in 0..pairs.len()
                    invariant
                        ok == (forall|j: int| 0 <= j < k ==> (#[trigger] pairs@[j]).0 < width),
                {
                    if pairs[k].0 >= width {
                        ok = false;
                    }
                }
                ok
            },
        }
    }
}

/// An owned copy of a dense buffer, value for value.
pub fn copy_dense<S: Scalar>(src: &Vec<S>) -> (r: Vec<S>)
    ensures
        r@ == src@,
{
    let mut r: Vec<S> = Vec::new();
    for i in 0..src.len()
        invariant
            r@.len() == i,
            forall|j: int| 0 <= j < i ==> r@[j] == src@[j],
    {
        r.push(src[i]);
    }
    assert(r@ =~= src@);
    r
}

/// A dense buffer of the given width filled with the additive identity.
/// Both fresh activations and gradient seeds start from this shape.
pub fn zeros<S: Scalar>(n: usize) -> (v: Vec<S>)
    ensures
        v@.len() == n,
{
    let mut v: Vec<S> = Vec::new();
    for i in 0..n
        invariant
            v@.len() == i,
    {
        v.push(S::zero());
    }
    v
}

} // verus!
