use crate::nn::Module;
use crate::scalar::Scalar;
use vstd::prelude::*;

verus! {

/// The rectifying nonlinearity: elementwise `max(0, x)`, shape
/// preserving, with no learnable state.
pub struct ReLU {
    size: usize,
}

impl ReLU {
    /// The width of the buffers this stage consumes and produces.
    pub closed spec fn width(self) -> nat {
        self.size as nat
    }

    /// A rectifier over buffers of the given width.
    pub fn new(size: usize) -> (r: ReLU)
        ensures
            r.width() == size,
    {
        ReLU { size }
    }

    /// The declared width (input and output agree for this stage).
    pub fn output_size(&self) -> (r: usize)
        ensures
            r == self.width(),
    {
        self.size
    }

    /// Writes `max(0, input[i])` into `output[i]` for every unit.
    pub fn forward<S: Scalar>(&self, input: &Vec<S>, output: &mut Vec<S>)
        requires
            input@.len() == self.width(),
            old(output)@.len() == self.width(),
        ensures
            final(output)@.len() == self.width(),
    {
        for i in 0..self.size
            invariant
                input@.len() == self.size,
                output@.len() == self.size,
        {
            let x = input[i];
            if x.is_positive() {
                output.set(i, x);
            } else {
                output.set(i, S::zero());
            }
        }
    }

    /// Passes `grad_output[i]` through exactly where the matching
    /// forward call saw a strictly positive input; a unit clipped to
    /// zero (including an input of exactly zero) gets gradient zero.
    pub fn backward<S: Scalar>(&self, grad_output: &Vec<S>, input: &Vec<S>, grad_input: &mut Vec<S>)
        requires
            grad_output@.len() == self.width(),
            input@.len() == self.width(),
            old(grad_input)@.len() == self.width(),
        ensures
            final(grad_input)@.len() == self.width(),
    {
        for i in 0..self.size
            invariant
                grad_output@.len() == self.size,
                input@.len() == self.size,
                grad_input@.len() == self.size,
        {
            if input[i].is_positive() {
                grad_input.set(i, grad_output[i]);
            } else {
                grad_input.set(i, S::zero());
            }
        }
    }
}

impl<S: Scalar> Module<S> for ReLU {
    open spec fn inv(&self) -> bool {
        true
    }

    open spec fn in_len(&self) -> nat {
        self.width()
    }

    open spec fn out_len(&self) -> nat {
        self.width()
    }

    fn output_size(&self) -> usize {
        self.size
    }

    fn forward(&mut self, input: &Vec<S>, output: &mut Vec<S>) {
        ReLU::forward(self, input, output);
    }

    fn backward(&mut self, grad_output: &Vec<S>, input: &Vec<S>, grad_input: &mut Vec<S>) {
        ReLU::backward(self, grad_output, input, grad_input);
    }

    fn step(&mut self, _lr: S, _batch_size: usize) {
    }
}

} // verus!
