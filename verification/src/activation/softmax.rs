use crate::nn::Module;
use crate::scalar::Scalar;
use vstd::prelude::*;

verus! {

/// The normalized-exponential nonlinearity.  Forward is stabilized by
/// subtracting the maximum entry before exponentiating, so finite input
/// never overflows the exponential.
pub struct Softmax {
    size: usize,
}

impl Softmax {
    /// The width of the buffers this stage consumes and produces.
    pub closed spec fn width(self) -> nat {
        self.size as nat
    }

    /// A normalizer over buffers of the given width.  The width must be
    /// at least one: the maximum of an empty buffer is undefined.
    pub fn new(size: usize) -> (r: Softmax)
        requires
            size >= 1,
        ensures
            r.width() == size,
    {
        Softmax { size }
    }

    /// The declared width (input and output agree for this stage).
    pub fn output_size(&self) -> (r: usize)
        ensures
            r == self.width(),
    {
        self.size
    }

    /// Writes `exp(input[i] - m) / sum_j exp(input[j] - m)` into
    /// `output[i]`, where `m` is the maximum entry of `input`.
    pub fn forward<S: Scalar>(&self, input: &Vec<S>, output: &mut Vec<S>)
        requires
            self.width() >= 1,
            input@.len() == self.width(),
            old(output)@.len() == self.width(),
        ensures
            final(output)@.len() == self.width(),
    {
        let mut m = input[0];
        for j in 1..self.size
            invariant
                input@.len() == self.size,
        {
            if m.less_than(input[j]) {
                m = input[j];
            }
        }
        let mut total = S::zero();
        for j in 0..self.size
            invariant
                input@.len() == self.size,
                output@.len() == self.size,
        {
            let e = input[j].minus(m).exp();
            output.set(j, e);
            total = total.plus(e);
        }
        for j in 0..self.size
            invariant
                output@.len() == self.size,
        {
            output.set(j, output[j].div_by(total));
        }
    }

    /// Forwards the upstream gradient unchanged.  This collapsed rule is
    /// correct only when the stage is immediately followed by the
    /// cross-entropy loss, whose seed gradient already folds in the
    /// normalizer's Jacobian; no other consumer may follow this stage.
    pub fn backward<S: Scalar>(&self, grad_output: &Vec<S>, grad_input: &mut Vec<S>)
        requires
            grad_output@.len() == self.width(),
            old(grad_input)@.len() == self.width(),
        ensures
            final(grad_input)@ == grad_output@,
    {
        for i in 0..self.size
            invariant
                grad_output@.len() == self.size,
                grad_input@.len() == self.size,
                forall|j: int| 0 <= j < i ==> grad_input@[j] == grad_output@[j],
        {
            grad_input.set(i, grad_output[i]);
        }
        assert(grad_input@ =~= grad_output@);
    }
}

impl<S: Scalar> Module<S> for Softmax {
    open spec fn inv(&self) -> bool {
        self.width() >= 1
    }

    open spec fn in_len(&self) -> nat {
        self.width()
    }

    open spec fn out_len(&self) -> nat {
        self.width()
    }

    fn output_size(&self) -> usize {
        self.size
    }

    fn forward(&mut self, input: &Vec<S>, output: &mut Vec<S>) {
        Softmax::forward(self, input, output);
    }

    fn backward(&mut self, grad_output: &Vec<S>, _input: &Vec<S>, grad_input: &mut Vec<S>) {
        Softmax::backward(self, grad_output, grad_input);
    }

    fn step(&mut self, _lr: S, _batch_size: usize) {
    }
}

} // verus!
