use crate::activation::relu::ReLU;
use crate::activation::softmax::Softmax;
use crate::buffer::{copy_dense, zeros, Buffer, BufferKind};
use crate::linear::linear::Linear;
use crate::linear::sparselinear::SparseLinear;
use crate::scalar::Scalar;
use vstd::prelude::*;

verus! {

/// The capability set every dense pipeline stage implements: shape
/// reporting, forward evaluation, gradient back-propagation, and the
/// per-batch parameter update.
///
/// `inv` is the stage's own well-formedness condition (for a parametric
/// layer, that its parameter and accumulator buffers have the declared
/// shape); every operation preserves it together with the declared
/// widths.  Forward and backward must be called with the exact input of
/// the matching forward pass; the layer may cache transient state, which
/// is why the receivers are mutable.
pub trait Module<S: Scalar> {
    /// Well-formedness of the stage's internal state.
    spec fn inv(&self) -> bool;

    /// The width of the input the stage consumes.
    spec fn in_len(&self) -> nat;

    /// The width of the output the stage produces.
    spec fn out_len(&self) -> nat;

    /// The declared output width, for sizing the next buffer.
    fn output_size(&self) -> (r: usize)
        requires
            self.inv(),
        ensures
            r == self.out_len(),
    ;

    /// Evaluates the stage on `input`, writing into `output`.
    fn forward(&mut self, input: &Vec<S>, output: &mut Vec<S>)
        requires
            old(self).inv(),
            input@.len() == old(self).in_len(),
            old(output)@.len() == old(self).out_len(),
        ensures
            final(self).inv(),
            final(self).in_len() == old(self).in_len(),
            final(self).out_len() == old(self).out_len(),
            final(output)@.len() == old(self).out_len(),
    ;

    /// Propagates `grad_output` backwards through the stage, writing the
    /// input gradient and accumulating any parameter gradients.  `input`
    /// must be the value the matching forward call consumed.
    fn backward(&mut self, grad_output: &Vec<S>, input: &Vec<S>, grad_input: &mut Vec<S>)
        requires
            old(self).inv(),
            grad_output@.len() == old(self).out_len(),
            input@.len() == old(self).in_len(),
            old(grad_input)@.len() == old(self).in_len(),
        ensures
            final(self).inv(),
            final(self).in_len() == old(self).in_len(),
            final(self).out_len() == old(self).out_len(),
            final(grad_input)@.len() == old(self).in_len(),
    ;

    /// Applies one mini-batch update scaled by `lr / batch_size` and
    /// clears the gradient accumulators.
    fn step(&mut self, lr: S, batch_size: usize)
        requires
            old(self).inv(),
            batch_size >= 1,
        ensures
            final(self).inv(),
            final(self).in_len() == old(self).in_len(),
            final(self).out_len() == old(self).out_len(),
    ;
}

/// A loss function over a dense prediction and an integer target class.
pub trait Loss<S: Scalar> {
    /// Computes the loss value (for evaluation).
    fn forward(&mut self, prediction: &Vec<S>, target: usize, loss_value: &mut S)
        requires
            target < prediction@.len(),
    ;

    /// Computes the gradient of the loss with respect to the prediction:
    /// the seed gradient for a pipeline's backward pass.
    fn backward(&mut self, prediction: &Vec<S>, target: usize, grad_prediction: &mut Vec<S>)
        requires
            target < prediction@.len(),
            old(grad_prediction)@.len() == prediction@.len(),
        ensures
            final(grad_prediction)@.len() == prediction@.len(),
    ;
}

/// One step of the linear-congruential generator that drives weight
/// initialization.
pub open spec fn lcg_next(s: u32) -> u32 {
    vstd::wrapping::u32_specs::wrapping_add(
        vstd::wrapping::u32_specs::wrapping_mul(s, 1103515245u32),
        12345u32,
    )
}

/// The generator state after `n` steps from `s`.
pub open spec fn lcg_iter(s: u32, n: nat) -> u32
    decreases n,
{
    if n == 0 {
        s
    } else {
        lcg_next(lcg_iter(s, (n - 1) as nat))
    }
}

/// The pseudo-random state that weight initialization draws from.  The
/// caller seeds it explicitly, so initialization is reproducible and
/// test-isolated; the sequence of drawn words is pinned exactly by
/// [`lcg_next`].
pub struct WeightRng {
    state: u32,
}

impl WeightRng {
    /// The current generator state.
    pub closed spec fn current(self) -> u32 {
        self.state
    }

    /// A generator starting at `seed`.
    pub fn new(seed: u32) -> (r: WeightRng)
        ensures
            r.current() == seed,
    {
        WeightRng { state: seed }
    }
}

/// Draws one initialization value: advances the generator by exactly one
/// step and embeds the new word through [`Scalar::from_unit`], which
/// chooses the zero-mean range.
pub fn init_weight<S: Scalar>(rng: &mut WeightRng) -> (w: S)
    ensures
        final(rng).current() == lcg_next(old(rng).current()),
{
    let next = rng.state.wrapping_mul(1103515245u32).wrapping_add(12345u32);
    rng.state = next;
    S::from_unit(next)
}

/// One pipeline stage, as a tagged union over the concrete layer
/// implementations, so that heterogeneous stages can stand in one
/// ordered list.
pub enum Layer<S> {
    Linear(Linear<S>),
    SparseLinear(SparseLinear<S>),
    ReLU(ReLU),
    Softmax(Softmax),
}

impl<S: Scalar> Layer<S> {
    /// Well-formedness of the stage's internal state.
    pub open spec fn wf(self) -> bool {
        match self {
            Layer::Linear(l) => l.wf(),
            Layer::SparseLinear(l) => l.wf(),
            Layer::ReLU(_) => true,
            Layer::Softmax(s) => s.width() >= 1,
        }
    }

    /// The buffer representation the stage consumes.  Only the sparse
    /// affine layer takes sparse input, and no stage produces sparse
    /// output, so a sparse stage can only ever stand first.
    pub open spec fn in_kind(self) -> BufferKind {
        match self {
            Layer::SparseLinear(_) => BufferKind::Sparse,
            _ => BufferKind::Dense,
        }
    }

    /// The width of the input the stage consumes.
    pub open spec fn in_width(self) -> nat {
        match self {
            Layer::Linear(l) => l.input_width(),
            Layer::SparseLinear(l) => l.input_width(),
            Layer::ReLU(r) => r.width(),
            Layer::Softmax(s) => s.width(),
        }
    }

    /// The width of the output the stage produces.
    pub open spec fn out_width(self) -> nat {
        match self {
            Layer::Linear(l) => l.output_width(),
            Layer::SparseLinear(l) => l.output_width(),
            Layer::ReLU(r) => r.width(),
            Layer::Softmax(s) => s.width(),
        }
    }

    /// The stage's learnable state: its weights and biases, or empty
    /// sequences for a stage without parameters.
    pub open spec fn params(self) -> (Seq<S>, Seq<S>) {
        match self {
            Layer::Linear(l) => (l.weights(), l.biases()),
            Layer::SparseLinear(l) => (l.weights(), l.biases()),
            Layer::ReLU(_) => (Seq::empty(), Seq::empty()),
            Layer::Softmax(_) => (Seq::empty(), Seq::empty()),
        }
    }

    /// Whether two stages agree in kind and in both widths.
    pub open spec fn shape_eq(self, other: Layer<S>) -> bool {
        &&& self.in_kind() == other.in_kind()
        &&& self.in_width() == other.in_width()
        &&& self.out_width() == other.out_width()
    }

    /// The declared input width.
    pub fn input_size(&self) -> (r: usize)
        ensures
            r == self.in_width(),
    {
        match self {
            Layer::Linear(l) => l.input_size(),
            Layer::SparseLinear(l) => l.input_size(),
            Layer::ReLU(r) => r.output_size(),
            Layer::Softmax(s) => s.output_size(),
        }
    }

    /// The declared output width.
    pub fn output_size(&self) -> (r: usize)
        ensures
            r == self.out_width(),
    {
        match self {
            Layer::Linear(l) => l.output_size(),
            Layer::SparseLinear(l) => l.output_size(),
            Layer::ReLU(r) => r.output_size(),
            Layer::Softmax(s) => s.output_size(),
        }
    }

    /// The buffer representation the stage consumes.
    pub fn input_kind(&self) -> (r: BufferKind)
        ensures
            r == self.in_kind(),
    {
        match self {
            Layer::SparseLinear(_) => BufferKind::Sparse,
            _ => BufferKind::Dense,
        }
    }

    /// Run-time counterpart of [`Layer::wf`].
    pub fn check_wf(&self) -> (r: bool)
        ensures
            r == self.wf(),
    {
        match self {
            Layer::Linear(l) => l.check_wf(),
            Layer::SparseLinear(l) => l.check_wf(),
            Layer::ReLU(_) => true,
            Layer::Softmax(s) => s.output_size() >= 1,
        }
    }

    /// Evaluates a dense-input stage on `input`, writing into `output`.
    /// Parameters are read, never written.
    pub fn forward_dense(&self, input: &Vec<S>, output: &mut Vec<S>)
        requires
            self.wf(),
            self.in_kind() == BufferKind::Dense,
            input@.len() == self.in_width(),
            old(output)@.len() == self.out_width(),
        ensures
            final(output)@.len() == self.out_width(),
    {
        match self {
            Layer::Linear(l) => l.forward(input, output),
            Layer::SparseLinear(_) => {
                proof {
                    assert(false);
                }
            },
            Layer::ReLU(r) => r.forward(input, output),
            Layer::Softmax(s) => s.forward(input, output),
        }
    }

    /// Propagates `grad_output` backwards through a dense-input stage:
    /// writes the input gradient and accumulates any parameter
    /// gradients, while the parameters themselves stay untouched.
    /// `input` must be the value the matching forward call consumed.
    pub fn backward_dense(&mut self, grad_output: &Vec<S>, input: &Vec<S>, grad_input: &mut Vec<S>)
        requires
            old(self).wf(),
            old(self).in_kind() == BufferKind::Dense,
            grad_output@.len() == old(self).out_width(),
            input@.len() == old(self).in_width(),
            old(grad_input)@.len() == old(self).in_width(),
        ensures
            final(self).wf(),
            final(self).shape_eq(*old(self)),
            final(self).params() == old(self).params(),
            final(grad_input)@.len() == old(self).in_width(),
    {
        match self {
            Layer::Linear(l) => l.backward(grad_output, input, grad_input),
            Layer::SparseLinear(_) => {
                proof {
                    assert(false);
                }
            },
            Layer::ReLU(r) => r.backward(grad_output, input, grad_input),
            Layer::Softmax(s) => Softmax::backward(s, grad_output, grad_input),
        }
    }

    /// Accumulates gradients through a sparse-input stage.  The input
    /// gradient is not computed (a sparse stage stands first, so no
    /// upstream stage needs it).
    pub fn backward_sparse(&mut self, grad_output: &Vec<S>, input: &Vec<(usize, S)>)
        requires
            old(self).wf(),
            old(self).in_kind() == BufferKind::Sparse,
            grad_output@.len() == old(self).out_width(),
            forall|k: int| 0 <= k < input@.len() ==> (#[trigger] input@[k]).0 < old(
                self,
            ).in_width(),
        ensures
            final(self).wf(),
            final(self).shape_eq(*old(self)),
            final(self).params() == old(self).params(),
    {
        let mut discard: Vec<(usize, S)> = Vec::new();
        match self {
            Layer::SparseLinear(l) => l.backward(grad_output, input, &mut discard),
            _ => {
                proof {
                    assert(false);
                }
            },
        }
    }

    /// Applies one mini-batch update to the stage and clears its
    /// accumulators; a stage without parameters does nothing.
    pub fn step_layer(&mut self, lr: S, batch_size: usize)
        requires
            old(self).wf(),
            batch_size >= 1,
        ensures
            final(self).wf(),
            final(self).shape_eq(*old(self)),
    {
        match self {
            Layer::Linear(l) => l.step(lr, batch_size),
            Layer::SparseLinear(l) => l.step(lr, batch_size),
            Layer::ReLU(_) => {},
            Layer::Softmax(_) => {},
        }
    }
}

/// A legal pipeline: at least one stage, every stage well-formed, and
/// each stage after the first consuming exactly the dense output of its
/// predecessor (which also keeps sparse input confined to the first
/// stage, since no stage produces sparse output).
pub open spec fn pipeline_ok<S: Scalar>(layers: Seq<Layer<S>>) -> bool {
    &&& layers.len() >= 1
    &&& forall|i: int| 0 <= i < layers.len() ==> (#[trigger] layers[i]).wf()
    &&& forall|i: int|
        1 <= i < layers.len() ==> (#[trigger] layers[i]).in_kind() == BufferKind::Dense
    &&& forall|i: int|
        1 <= i < layers.len() ==> (#[trigger] layers[i]).in_width() == layers[i - 1].out_width()
}

/// Why a pipeline was rejected at construction.
#[derive(Clone, Copy, PartialEq, Eq, Structural, Debug)]
pub enum PipelineError {
    /// The stage list was empty.
    Empty,
    /// The stage at this position is not internally well-formed.
    Malformed(usize),
    /// The stage at this position consumes sparse input but does not
    /// stand first.
    KindMismatch(usize),
    /// The stage at this position declares an input width different
    /// from its predecessor's output width.
    WidthMismatch(usize),
}

/// An ordered, shape-checked composition of stages: forward applies
/// them in order, backward threads the gradient through them in
/// reverse, and the update call is forwarded to every stage once per
/// batch.
pub struct Model<S> {
    layers: Vec<Layer<S>>,
}

/// The per-sample scratch a pipeline works in: slot 0 holds a copy of a
/// dense input, slot `i + 1` the output of stage `i`; the gradient
/// buffers mirror the activation shapes.
pub struct ModelBuffers<S> {
    pub activations: Vec<Vec<S>>,
    pub gradients: Vec<Vec<S>>,
}

impl<S: Scalar> Model<S> {
    /// The stages, in pipeline order.
    pub closed spec fn layer_seq(self) -> Seq<Layer<S>> {
        self.layers@
    }

    /// The number of stages.
    pub open spec fn depth(self) -> nat {
        self.layer_seq().len()
    }

    /// Well-formedness: the stage list passes [`pipeline_ok`].
    pub open spec fn wf(self) -> bool {
        pipeline_ok(self.layer_seq())
    }

    /// The buffer representation the pipeline consumes.
    pub open spec fn in_kind(self) -> BufferKind {
        self.layer_seq()[0].in_kind()
    }

    /// The width of the pipeline's input.
    pub open spec fn in_width(self) -> nat {
        self.layer_seq()[0].in_width()
    }

    /// The width of the pipeline's output.
    pub open spec fn out_width(self) -> nat {
        self.layer_seq()[self.depth() - 1].out_width()
    }

    /// The width buffer slot `i` must have: slot 0 mirrors the input,
    /// slot `i >= 1` the output of stage `i - 1`.
    pub open spec fn slot_width(self, i: int) -> nat {
        if i == 0 {
            self.in_width()
        } else {
            self.layer_seq()[i - 1].out_width()
        }
    }

    /// Whether a buffer list has exactly the shape the pipeline's slots
    /// prescribe.
    pub open spec fn slots_ok(self, bufs: Seq<Vec<S>>) -> bool {
        &&& bufs.len() == self.depth() + 1
        &&& forall|i: int| 0 <= i < bufs.len() ==> (#[trigger] bufs[i])@.len() == self.slot_width(i)
    }

    /// Whether two pipelines have the same stage shapes (parameters may
    /// differ).
    pub open spec fn shape_eq(self, other: Model<S>) -> bool {
        &&& self.depth() == other.depth()
        &&& forall|i: int|
            0 <= i < self.depth() ==> (#[trigger] self.layer_seq()[i]).shape_eq(
                other.layer_seq()[i],
            )
    }

    /// Composes a pipeline, rejecting at construction any stage list
    /// that is empty, holds a malformed stage, puts a sparse-input
    /// stage anywhere but first, or chains two stages whose widths
    /// disagree.
    pub fn new(layers: Vec<Layer<S>>) -> (r: Result<Model<S>, PipelineError>)
        ensures
            r is Ok <==> pipeline_ok(layers@),
            r matches Ok(m) ==> m.layer_seq() == layers@,
            r == Result::<Model<S>, PipelineError>::Err(PipelineError::Empty) <==> layers@.len()
                == 0,
            r matches Err(e) ==> !pipeline_ok(layers@),
            r matches Err(PipelineError::Malformed(i)) ==> i < layers@.len()
                && !layers@[i as int].wf(),
            r matches Err(PipelineError::KindMismatch(i)) ==> 1 <= i < layers@.len()
                && layers@[i as int].in_kind() == BufferKind::Sparse,
            r matches Err(PipelineError::WidthMismatch(i)) ==> 1 <= i < layers@.len()
                && layers@[i as int].in_width() != layers@[i as int - 1].out_width(),
    {
        let n = layers.len();
        if n == 0 {
            return Err(PipelineError::Empty);
        }
        for i in 0..n
            invariant
                layers@.len() == n,
                n >= 1,
                forall|j: int| 0 <= j < i ==> (#[trigger] layers@[j]).wf(),
                forall|j: int| 1 <= j < i ==> (#[trigger] layers@[j]).in_kind() == BufferKind::Dense,
                forall|j: int|
                    1 <= j < i ==> (#[trigger] layers@[j]).in_width() == layers@[j
                        - 1].out_width(),
        {
            if !layers[i].check_wf() {
                return Err(PipelineError::Malformed(i));
            }
            if i >= 1 {
                if layers[i].input_kind() != BufferKind::Dense {
                    return Err(PipelineError::KindMismatch(i));
                }
                if layers[i].input_size() != layers[i - 1].output_size() {
                    return Err(PipelineError::WidthMismatch(i));
                }
            }
        }
        Ok(Model { layers })
    }

    /// The stages, in pipeline order (read-only: parameters are
    /// inspected through the concrete layers' getters).
    pub fn stages(&self) -> (r: &Vec<Layer<S>>)
        ensures
            r@ == self.layer_seq(),
    {
        &self.layers
    }

    /// The declared input width.
    pub fn input_size(&self) -> (r: usize)
        requires
            self.wf(),
        ensures
            r == self.in_width(),
    {
        self.layers[0].input_size()
    }

    /// The declared output width.
    pub fn output_size(&self) -> (r: usize)
        requires
            self.wf(),
        ensures
            r == self.out_width(),
    {
        self.layers[self.layers.len() - 1].output_size()
    }

    /// The buffer representation the pipeline consumes.
    pub fn input_kind(&self) -> (r: BufferKind)
        requires
            self.wf(),
        ensures
            r == self.in_kind(),
    {
        self.layers[0].input_kind()
    }

    /// Allocates one activation buffer and one gradient buffer per
    /// slot, each filled with the additive identity and sized to its
    /// slot's width.  `input_size` must match the pipeline's declared
    /// input width.
    pub fn create_buffers(&self, input_size: usize) -> (r: ModelBuffers<S>)
        requires
            self.wf(),
            input_size == self.in_width(),
        ensures
            self.slots_ok(r.activations@),
            self.slots_ok(r.gradients@),
    {
        let n = self.layers.len();
        let mut activations: Vec<Vec<S>> = Vec::new();
        let mut gradients: Vec<Vec<S>> = Vec::new();
        activations.push(zeros(input_size));
        gradients.push(zeros(input_size));
        for i in 0..n
            invariant
                self.wf(),
                self.layers@.len() == n,
                input_size == self.in_width(),
                activations@.len() == i + 1,
                gradients@.len() == i + 1,
                forall|j: int|
                    0 <= j <= i ==> (#[trigger] activations@[j])@.len() == self.slot_width(j),
                forall|j: int|
                    0 <= j <= i ==> (#[trigger] gradients@[j])@.len() == self.slot_width(j),
        {
            let sz = self.layers[i].output_size();
            activations.push(zeros(sz));
            gradients.push(zeros(sz));
        }
        ModelBuffers { activations, gradients }
    }

    /// Runs the pipeline on `input`: slot 0 receives a copy of a dense
    /// input (and is left untouched for a sparse input), and each stage
    /// `i` reads slot `i` (stage 0 reads `input` itself) and writes
    /// slot `i + 1`.  The stages' state, parameters included, is only
    /// read.
    pub fn forward(&self, input: &Buffer<S>, acts: &mut Vec<Vec<S>>)
        requires
            self.wf(),
            input.fits(self.in_kind(), self.in_width() as int),
            self.slots_ok(old(acts)@),
        ensures
            self.slots_ok(final(acts)@),
            (*input) matches Buffer::Dense(v) ==> (final(acts)@[0])@ == v@,
            (*input) matches Buffer::Sparse(p) ==> final(acts)@[0] == old(acts)@[0],
    {
        let n = self.layers.len();
        let l0 = &self.layers[0];
        let osz0 = l0.output_size();
        let mut out0 = zeros(osz0);
        match input {
            Buffer::Dense(v) => {
                acts.set(0, copy_dense(v));
                l0.forward_dense(v, &mut out0);
            },
            Buffer::Sparse(pairs) => {
                match l0 {
                    Layer::SparseLinear(sl) => sl.forward(pairs, &mut out0),
                    _ => {
                        proof {
                            assert(false);
                        }
                    },
                }
            },
        }
        acts.set(1, out0);
        let ghost g0 = acts@[0];
        for i in 1..n
            invariant
                self.wf(),
                self.layers@.len() == n,
                acts@.len() == n + 1,
                forall|j: int|
                    0 <= j < acts@.len() ==> (#[trigger] acts@[j])@.len() == self.slot_width(j),
                acts@[0] == g0,
        {
            let li = &self.layers[i];
            let mut out = zeros(li.output_size());
            li.forward_dense(&acts[i], &mut out);
            acts.set(i + 1, out);
        }
    }

    /// Propagates a seed gradient backwards: stage `i` reads the
    /// gradient in slot `i + 1` together with the input it saw during
    /// the matching forward pass (slot `i`, or `input` itself for
    /// stage 0) and writes its input gradient into slot `i` while
    /// accumulating its parameter gradients.  A sparse first stage
    /// computes no input gradient.  The parameters themselves are left
    /// untouched: only the update call writes them.
    pub fn backward(&mut self, input: &Buffer<S>, acts: &Vec<Vec<S>>, grads: &mut Vec<Vec<S>>)
        requires
            old(self).wf(),
            input.fits(old(self).in_kind(), old(self).in_width() as int),
            old(self).slots_ok(acts@),
            old(self).slots_ok(old(grads)@),
        ensures
            final(self).wf(),
            final(self).shape_eq(*old(self)),
            forall|i: int|
                0 <= i < old(self).depth() ==> (#[trigger] final(self).layer_seq()[i]).params()
                    == old(self).layer_seq()[i].params(),
            final(self).slots_ok(final(grads)@),
    {
        let ghost l0seq = self.layers@;
        let n = self.layers.len();
        let mut i = n;
        while i > 1
            invariant
                1 <= i <= n,
                self.layers@.len() == n,
                l0seq.len() == n,
                pipeline_ok(l0seq),
                forall|j: int| 0 <= j < n ==> (#[trigger] self.layers@[j]).wf(),
                forall|j: int| 0 <= j < n ==> (#[trigger] self.layers@[j]).shape_eq(l0seq[j]),
                forall|j: int|
                    0 <= j < n ==> (#[trigger] self.layers@[j]).params() == l0seq[j].params(),
                self.slots_ok(acts@),
                self.slots_ok(grads@),
            decreases i,
        {
            i -= 1;
            let gi_len = self.layers[i].input_size();
            let mut gi = zeros(gi_len);
            proof {
                assert(self.layers@[i as int].in_width() == l0seq[i as int].in_width());
                assert(l0seq[i as int].in_width() == l0seq[i as int - 1].out_width());
                assert(self.layers@[i as int - 1].out_width() == l0seq[i as int - 1].out_width());
            }
            let go = &grads[i + 1];
            let inp = &acts[i];
            let li = &mut self.layers[i];
            li.backward_dense(go, inp, &mut gi);
            grads.set(i, gi);
        }
        let g0_len = self.layers[0].input_size();
        match input {
            Buffer::Dense(v) => {
                let mut g0 = zeros(g0_len);
                let go = &grads[1];
                let l0 = &mut self.layers[0];
                l0.backward_dense(go, v, &mut g0);
                grads.set(0, g0);
            },
            Buffer::Sparse(pairs) => {
                let go = &grads[1];
                let l0 = &mut self.layers[0];
                l0.backward_sparse(go, pairs);
            },
        }
    }

    /// Applies one update to every stage, scaled by `lr / batch_size`,
    /// and clears every gradient accumulator.  Stage shapes are
    /// unchanged, so the pipeline stays well-formed.
    pub fn step(&mut self, lr: S, batch_size: usize)
        requires
            old(self).wf(),
            batch_size >= 1,
        ensures
            final(self).wf(),
            final(self).shape_eq(*old(self)),
    {
        let ghost l0seq = self.layers@;
        let n = self.layers.len();
        for i in 0..n
            invariant
                self.layers@.len() == n,
                l0seq.len() == n,
                pipeline_ok(l0seq),
                batch_size >= 1,
                forall|j: int| 0 <= j < n ==> (#[trigger] self.layers@[j]).wf(),
                forall|j: int| 0 <= j < n ==> (#[trigger] self.layers@[j]).shape_eq(l0seq[j]),
        {
            let li = &mut self.layers[i];
            li.step_layer(lr, batch_size);
        }
    }

    /// One mini-batch step: for each sample in order, runs forward,
    /// seeds the gradient with the loss's backward rule at the final
    /// slot, and propagates it backwards, accumulating parameter
    /// gradients; after all samples, applies one update scaled by
    /// `lr / batch_size`.  No sample's passes observe a partially
    /// updated parameter set: parameters change only in that final
    /// update.
    pub fn train_batch<L: Loss<S>>(
        &mut self,
        batch_x: &Vec<Buffer<S>>,
        batch_y: &Vec<usize>,
        loss: &mut L,
        lr: S,
    )
        requires
            old(self).wf(),
            batch_x@.len() == batch_y@.len(),
            batch_x@.len() >= 1,
            forall|s: int|
                0 <= s < batch_x@.len() ==> (#[trigger] batch_x@[s]).fits(
                    old(self).in_kind(),
                    old(self).in_width() as int,
                ),
            forall|s: int|
                0 <= s < batch_y@.len() ==> (#[trigger] batch_y@[s]) < old(self).out_width(),
        ensures
            final(self).wf(),
            final(self).shape_eq(*old(self)),
    {
        let ghost m0 = *self;
        let n = self.layers.len();
        let in_w = self.input_size();
        let batch_size = batch_x.len();
        let mut bufs = self.create_buffers(in_w);
        for s in 0..batch_size
            invariant
                self.wf(),
                self.layers@.len() == n,
                self.shape_eq(m0),
                m0.wf(),
                batch_x@.len() == batch_size,
                batch_y@.len() == batch_size,
                forall|t: int|
                    0 <= t < batch_size ==> (#[trigger] batch_x@[t]).fits(
                        m0.in_kind(),
                        m0.in_width() as int,
                    ),
                forall|t: int| 0 <= t < batch_size ==> (#[trigger] batch_y@[t]) < m0.out_width(),
                self.slots_ok(bufs.activations@),
                self.slots_ok(bufs.gradients@),
        {
            let x = &batch_x[s];
            proof {
                assert(self.layer_seq()[0].shape_eq(m0.layer_seq()[0]));
                assert(self.layer_seq()[n - 1].shape_eq(m0.layer_seq()[n - 1]));
            }
            Model::forward(self, x, &mut bufs.activations);
            let yi = batch_y[s];
            let pred = &bufs.activations[n];
            let mut g = zeros(pred.len());
            loss.backward(pred, yi, &mut g);
            bufs.gradients.set(n, g);
            Model::backward(self, x, &bufs.activations, &mut bufs.gradients);
        }
        Model::step(self, lr, batch_size);
    }

    /// Runs the pipeline on one input and returns the final stage's
    /// output.  The model is not mutated.
    pub fn predict(&self, input: &Buffer<S>) -> (r: Vec<S>)
        requires
            self.wf(),
            input.fits(self.in_kind(), self.in_width() as int),
        ensures
            r@.len() == self.out_width(),
    {
        let in_w = self.input_size();
        let mut bufs = self.create_buffers(in_w);
        Model::forward(self, input, &mut bufs.activations);
        match bufs.activations.pop() {
            Some(v) => v,
            None => {
                proof {
                    assert(false);
                }
                zeros(0)
            },
        }
    }
}

/// A pipeline is itself a stage: composition is closed.  The stage
/// contract is dense-to-dense, so this holds for pipelines whose first
/// layer consumes dense input.  Backward recomputes the forward pass to
/// recover the intermediate activations the stages saw (the alternative
/// to caching them; both observe identical values for a given input).
impl<S: Scalar> Module<S> for Model<S> {
    open spec fn inv(&self) -> bool {
        self.wf() && self.in_kind() == BufferKind::Dense
    }

    open spec fn in_len(&self) -> nat {
        self.in_width()
    }

    open spec fn out_len(&self) -> nat {
        self.out_width()
    }

    fn output_size(&self) -> usize {
        Model::output_size(self)
    }

    fn forward(&mut self, input: &Vec<S>, output: &mut Vec<S>) {
        let buf = Buffer::Dense(copy_dense(input));
        let r = self.predict(&buf);
        for i in 0..r.len()
            invariant
                output@.len() == r@.len(),
        {
            output.set(i, r[i]);
        }
    }

    fn backward(&mut self, grad_output: &Vec<S>, input: &Vec<S>, grad_input: &mut Vec<S>) {
        let n = self.layers.len();
        let in_w = self.input_size();
        let mut bufs = self.create_buffers(in_w);
        let buf = Buffer::Dense(copy_dense(input));
        Model::forward(self, &buf, &mut bufs.activations);
        bufs.gradients.set(n, copy_dense(grad_output));
        Model::backward(self, &buf, &bufs.activations, &mut bufs.gradients);
        let g0 = &bufs.gradients[0];
        for i in 0..g0.len()
            invariant
                grad_input@.len() == g0@.len(),
        {
            grad_input.set(i, g0[i]);
        }
    }

    fn step(&mut self, lr: S, batch_size: usize) {
        Model::step(self, lr, batch_size);
    }
}

} // verus!
