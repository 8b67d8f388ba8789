use crate::buffer::zeros;
use crate::nn::{init_weight, lcg_iter, Module, WeightRng};
use crate::scalar::Scalar;
use vstd::prelude::*;

verus! {

/// A row-major flat index into an `rows x cols` matrix stays inside the
/// matrix, whichever way round the matrix's size is written.
pub(crate) proof fn lemma_flat_index(o: int, i: int, rows: int, cols: int)
    by (nonlinear_arith)
    requires
        0 <= o < rows,
        0 <= i < cols,
    ensures
        0 <= o * cols + i < rows * cols,
        rows * cols == cols * rows,
{
}

/// The affine transform over dense input: `output[o] = bias[o] +
/// sum_i weight[o, i] * input[i]`, with the weight matrix stored
/// row-major by output unit, and gradient accumulators of matching
/// shape that sum contributions across a batch until the next update.
pub struct Linear<S> {
    w: Vec<S>,
    b: Vec<S>,
    grad_w: Vec<S>,
    grad_b: Vec<S>,
    in_size: usize,
    out_size: usize,
}

impl<S: Scalar> Linear<S> {
    /// The width of the input the layer consumes.
    pub closed spec fn input_width(self) -> nat {
        self.in_size as nat
    }

    /// The width of the output the layer produces.
    pub closed spec fn output_width(self) -> nat {
        self.out_size as nat
    }

    /// The weight matrix, flattened row-major by output unit.
    pub closed spec fn weights(self) -> Seq<S> {
        self.w@
    }

    /// The bias vector.
    pub closed spec fn biases(self) -> Seq<S> {
        self.b@
    }

    /// The weight-gradient accumulator, flattened like the weights.
    pub closed spec fn weight_grads(self) -> Seq<S> {
        self.grad_w@
    }

    /// The bias-gradient accumulator.
    pub closed spec fn bias_grads(self) -> Seq<S> {
        self.grad_b@
    }

    /// Well-formedness: parameters and accumulators have the shape the
    /// declared dimensions prescribe.
    pub closed spec fn wf(self) -> bool {
        &&& self.w@.len() == self.in_size * self.out_size
        &&& self.grad_w@.len() == self.in_size * self.out_size
        &&& self.b@.len() == self.out_size
        &&& self.grad_b@.len() == self.out_size
    }

    /// A fresh layer: weights drawn from `rng` (exactly
    /// `in_size * out_size` draws, in row-major order), biases and both
    /// gradient accumulators zeroed.
    pub fn new(in_size: usize, out_size: usize, rng: &mut WeightRng) -> (r: Linear<S>)
        requires
            in_size * out_size <= usize::MAX,
        ensures
            r.wf(),
            r.input_width() == in_size,
            r.output_width() == out_size,
            final(rng).current() == lcg_iter(old(rng).current(), (in_size * out_size) as nat),
    {
        let ghost s0 = rng.current();
        let total = in_size * out_size;
        let mut w: Vec<S> = Vec::new();
        for k in 0..total
            invariant
                w@.len() == k,
                rng.current() == lcg_iter(s0, k as nat),
        {
            let wt: S = init_weight(rng);
            w.push(wt);
        }
        let grad_w: Vec<S> = zeros(total);
        let b: Vec<S> = zeros(out_size);
        let grad_b: Vec<S> = zeros(out_size);
        Linear { w, b, grad_w, grad_b, in_size, out_size }
    }

    /// A layer with explicitly given parameters (for example loaded
    /// from persisted state, or fixed by a test): `w` flattened
    /// row-major by output unit, `b` the biases.  Returns `None` when
    /// the buffer lengths do not match the declared dimensions.  Both
    /// gradient accumulators start zeroed.
    pub fn with_params(in_size: usize, out_size: usize, w: Vec<S>, b: Vec<S>) -> (r: Option<
        Linear<S>,
    >)
        ensures
            r is Some <==> (w@.len() == in_size * out_size && b@.len() == out_size),
            r matches Some(l) ==> l.wf() && l.input_width() == in_size && l.output_width()
                == out_size && l.weights() == w@ && l.biases() == b@,
    {
        let wl: usize = w.len();
        match in_size.checked_mul(out_size) {
            Some(total) => {
                if wl == total && b.len() == out_size {
                    let grad_w: Vec<S> = zeros(total);
                    let grad_b: Vec<S> = zeros(out_size);
                    Some(Linear { w, b, grad_w, grad_b, in_size, out_size })
                } else {
                    None
                }
            },
            None => {
                proof {
                    assert(w@.len() == wl);
                }
                None
            },
        }
    }

    /// The weight at output unit `o` and input unit `i`.
    pub fn weight_at(&self, o: usize, i: usize) -> (r: S)
        requires
            self.wf(),
            o < self.output_width(),
            i < self.input_width(),
        ensures
            r == self.weights()[o as int * self.input_width() as int + i as int],
    {
        let wl: usize = self.w.len();
        proof {
            lemma_flat_index(o as int, i as int, self.out_size as int, self.in_size as int);
        }
        self.w[o * self.in_size + i]
    }

    /// The bias at output unit `o`.
    pub fn bias_at(&self, o: usize) -> (r: S)
        requires
            self.wf(),
            o < self.output_width(),
        ensures
            r == self.biases()[o as int],
    {
        self.b[o]
    }

    /// The accumulated weight gradient at output unit `o`, input unit
    /// `i`: the sum of the contributions of the samples seen since the
    /// last update.
    pub fn grad_weight_at(&self, o: usize, i: usize) -> (r: S)
        requires
            self.wf(),
            o < self.output_width(),
            i < self.input_width(),
        ensures
            r == self.weight_grads()[o as int * self.input_width() as int + i as int],
    {
        let wl: usize = self.grad_w.len();
        proof {
            lemma_flat_index(o as int, i as int, self.out_size as int, self.in_size as int);
        }
        self.grad_w[o * self.in_size + i]
    }

    /// The accumulated bias gradient at output unit `o`.
    pub fn grad_bias_at(&self, o: usize) -> (r: S)
        requires
            self.wf(),
            o < self.output_width(),
        ensures
            r == self.bias_grads()[o as int],
    {
        self.grad_b[o]
    }

    /// The declared input width.
    pub fn input_size(&self) -> (r: usize)
        ensures
            r == self.input_width(),
    {
        self.in_size
    }

    /// The declared output width.
    pub fn output_size(&self) -> (r: usize)
        ensures
            r == self.output_width(),
    {
        self.out_size
    }

    /// Whether the parameter and accumulator buffers have the shape the
    /// declared dimensions prescribe, so that unverified callers can
    /// establish well-formedness at run time.
    pub fn check_wf(&self) -> (r: bool)
        ensures
            r == self.wf(),
    {
        match self.in_size.checked_mul(self.out_size) {
            Some(total) => self.w.len() == total && self.grad_w.len() == total && self.b.len()
                == self.out_size && self.grad_b.len() == self.out_size,
            None => {
                let wl: usize = self.w.len();
                proof {
                    assert(self.w@.len() == wl);
                }
                false
            },
        }
    }

    /// For each output unit `o`, writes
    /// `bias[o] + sum_i weight[o, i] * input[i]` into `output[o]`.
    /// Parameters and accumulators are read, never written.
    pub fn forward(&self, input: &Vec<S>, output: &mut Vec<S>)
        requires
            self.wf(),
            input@.len() == self.input_width(),
            old(output)@.len() == self.output_width(),
        ensures
            final(output)@.len() == self.output_width(),
    {
        let wl: usize = self.w.len();
        for o in 0..self.out_size
            invariant
                self.wf(),
                self.w@.len() == wl,
                input@.len() == self.in_size,
                output@.len() == self.out_size,
        {
            let mut sum = self.b[o];
            for i in 0..self.in_size
                invariant
                    self.wf(),
                    self.w@.len() == wl,
                    o < self.out_size,
                    input@.len() == self.in_size,
            {
                proof {
                    lemma_flat_index(o as int, i as int, self.out_size as int, self.in_size as int);
                }
                let idx = o * self.in_size + i;
                sum = sum.plus(self.w[idx].times(input[i]));
            }
            output.set(o, sum);
        }
    }

    /// Accumulates this sample's parameter gradients and writes the
    /// input gradient:
    /// `grad_input[i] = sum_o weight[o, i] * grad_output[o]`,
    /// `grad_weight[o, i] += grad_output[o] * input[i]`,
    /// `grad_bias[o] += grad_output[o]`.
    /// `input` must be the value the matching forward call consumed.
    /// The parameters themselves are left untouched.
    pub fn backward(&mut self, grad_output: &Vec<S>, input: &Vec<S>, grad_input: &mut Vec<S>)
        requires
            old(self).wf(),
            grad_output@.len() == old(self).output_width(),
            input@.len() == old(self).input_width(),
            old(grad_input)@.len() == old(self).input_width(),
        ensures
            final(self).wf(),
            final(self).input_width() == old(self).input_width(),
            final(self).output_width() == old(self).output_width(),
            final(self).weights() == old(self).weights(),
            final(self).biases() == old(self).biases(),
            final(grad_input)@.len() == old(self).input_width(),
    {
        let ghost w0 = self.w@;
        let ghost b0 = self.b@;
        let in_size = self.in_size;
        let out_size = self.out_size;
        let wl: usize = self.w.len();
        for i in 0..in_size
            invariant
                grad_input@.len() == in_size,
        {
            grad_input.set(i, S::zero());
        }
        for o in 0..out_size
            invariant
                self.wf(),
                self.in_size == in_size,
                self.out_size == out_size,
                self.w@ == w0,
                self.b@ == b0,
                self.w@.len() == wl,
                grad_output@.len() == out_size,
                input@.len() == in_size,
                grad_input@.len() == in_size,
        {
            let go = grad_output[o];
            self.grad_b.set(o, self.grad_b[o].plus(go));
            for i in 0..in_size
                invariant
                    self.wf(),
                    self.in_size == in_size,
                    self.out_size == out_size,
                    self.w@ == w0,
                    self.b@ == b0,
                    self.w@.len() == wl,
                    o < out_size,
                    grad_output@.len() == out_size,
                    input@.len() == in_size,
                    grad_input@.len() == in_size,
            {
                proof {
                    lemma_flat_index(o as int, i as int, out_size as int, in_size as int);
                }
                let idx = o * in_size + i;
                self.grad_w.set(idx, self.grad_w[idx].plus(go.times(input[i])));
                grad_input.set(i, grad_input[i].plus(self.w[idx].times(go)));
            }
        }
    }

    /// One mini-batch update: subtracts `(lr / batch_size) * accumulator`
    /// from every weight and bias, then zeroes both accumulators, so the
    /// next batch starts accumulating from zero.
    pub fn step(&mut self, lr: S, batch_size: usize)
        requires
            old(self).wf(),
            batch_size >= 1,
        ensures
            final(self).wf(),
            final(self).input_width() == old(self).input_width(),
            final(self).output_width() == old(self).output_width(),
    {
        let in_size = self.in_size;
        let out_size = self.out_size;
        let scale = lr.div_by(S::from_count(batch_size));
        let total = self.w.len();
        for k in 0..total
            invariant
                self.wf(),
                self.in_size == in_size,
                self.out_size == out_size,
                self.w@.len() == total,
        {
            self.w.set(k, self.w[k].minus(scale.times(self.grad_w[k])));
            self.grad_w.set(k, S::zero());
        }
        for o in 0..out_size
            invariant
                self.wf(),
                self.in_size == in_size,
                self.out_size == out_size,
        {
            self.b.set(o, self.b[o].minus(scale.times(self.grad_b[o])));
            self.grad_b.set(o, S::zero());
        }
    }
}

impl<S: Scalar> Module<S> for Linear<S> {
    open spec fn inv(&self) -> bool {
        self.wf()
    }

    open spec fn in_len(&self) -> nat {
        self.input_width()
    }

    open spec fn out_len(&self) -> nat {
        self.output_width()
    }

    fn output_size(&self) -> usize {
        self.out_size
    }

    fn forward(&mut self, input: &Vec<S>, output: &mut Vec<S>) {
        Linear::forward(self, input, output);
    }

    fn backward(&mut self, grad_output: &Vec<S>, input: &Vec<S>, grad_input: &mut Vec<S>) {
        Linear::backward(self, grad_output, input, grad_input);
    }

    fn step(&mut self, lr: S, batch_size: usize) {
        Linear::step(self, lr, batch_size);
    }
}

} // verus!
