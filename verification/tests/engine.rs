use nn_engine::activation::relu::ReLU;
use nn_engine::activation::softmax::Softmax;
use nn_engine::buffer::{Buffer, BufferKind};
use nn_engine::linear::linear::Linear;
use nn_engine::linear::sparselinear::SparseLinear;
use nn_engine::loss::crossentropy::CrossEntropyLoss;
use nn_engine::nn::{init_weight, Layer, Model, Module, PipelineError, WeightRng};
use nn_engine::scalar::Scalar;

/// 32-bit floating point as the engine's scalar.
#[derive(Clone, Copy, Debug, PartialEq)]
struct F(f32);

impl Scalar for F {
    fn zero() -> F {
        F(0.0)
    }
    fn one() -> F {
        F(1.0)
    }
    fn from_count(n: usize) -> F {
        F(n as f32)
    }
    fn from_unit(bits: u32) -> F {
        F((bits as f32 / u32::MAX as f32 - 0.5) * 0.1)
    }
    fn plus(self, other: F) -> F {
        F(self.0 + other.0)
    }
    fn minus(self, other: F) -> F {
        F(self.0 - other.0)
    }
    fn times(self, other: F) -> F {
        F(self.0 * other.0)
    }
    fn div_by(self, other: F) -> F {
        F(self.0 / other.0)
    }
    fn exp(self) -> F {
        F(self.0.exp())
    }
    fn ln(self) -> F {
        F(self.0.ln())
    }
    fn is_positive(self) -> bool {
        self.0 > 0.0
    }
    fn less_than(self, other: F) -> bool {
        self.0 < other.0
    }
}

fn dense(xs: &[f32]) -> Vec<F> {
    xs.iter().map(|&x| F(x)).collect()
}

fn raw(xs: &[F]) -> Vec<f32> {
    xs.iter().map(|x| x.0).collect()
}

fn close(a: f32, b: f32, tol: f32) -> bool {
    (a - b).abs() <= tol
}

fn linear_with(in_size: usize, out_size: usize, w: &[f32], b: &[f32]) -> Linear<F> {
    Linear::with_params(in_size, out_size, dense(w), dense(b)).unwrap()
}

fn sparse_linear_with(in_size: usize, out_size: usize, w: &[f32], b: &[f32]) -> SparseLinear<F> {
    SparseLinear::with_params(in_size, out_size, dense(w), dense(b)).unwrap()
}

/// Reference softmax, for checking the engine's numbers.
fn softmax_ref(xs: &[f32]) -> Vec<f32> {
    let m = xs.iter().cloned().fold(f32::NEG_INFINITY, f32::max);
    let exps: Vec<f32> = xs.iter().map(|&x| (x - m).exp()).collect();
    let total: f32 = exps.iter().sum();
    exps.iter().map(|&e| e / total).collect()
}

// Shape contracts: an affine layer's forward fills `out_size` entries
// and its backward input gradient has `in_size` entries.
#[test]
fn affine_dense_shapes() {
    let l = linear_with(3, 2, &[0.1, 0.2, 0.3, -0.1, -0.2, -0.3], &[0.5, -0.5]);
    let x = dense(&[1.0, 2.0, 3.0]);
    let mut out = dense(&[0.0, 0.0]);
    l.forward(&x, &mut out);
    assert_eq!(out.len(), 2);

    let mut l = l;
    let go = dense(&[1.0, 1.0]);
    let mut gi = dense(&[0.0, 0.0, 0.0]);
    l.backward(&go, &x, &mut gi);
    assert_eq!(gi.len(), 3);
}

#[test]
fn affine_dense_forward_values() {
    // output[o] = b[o] + sum_i w[o, i] * x[i]
    let l = linear_with(3, 2, &[1.0, 0.0, 2.0, -1.0, 1.0, 0.5], &[0.5, -0.5]);
    let x = dense(&[1.0, 2.0, 3.0]);
    let mut out = dense(&[0.0, 0.0]);
    l.forward(&x, &mut out);
    assert_eq!(raw(&out), vec![0.5 + 1.0 + 0.0 + 6.0, -0.5 - 1.0 + 2.0 + 1.5]);
}

// Rectifier idempotence: forward(forward(x)) == forward(x), elementwise.
#[test]
fn rectifier_idempotent() {
    let r = ReLU::new(6);
    let x = dense(&[-3.5, 0.0, 2.25, -0.0, 1e30, -1e30]);
    let mut once = dense(&[0.0; 6]);
    r.forward(&x, &mut once);
    let mut twice = dense(&[0.0; 6]);
    r.forward(&once, &mut twice);
    assert_eq!(raw(&once), raw(&twice));
    // and the zero boundary maps to zero
    assert_eq!(once[1].0, 0.0);
    assert_eq!(once[3].0, 0.0);
}

// Softmax output is non-negative and sums to 1 for finite input,
// including extreme magnitudes (the max-subtraction stabilization).
#[test]
fn softmax_normalizes() {
    let cases: Vec<Vec<f32>> = vec![
        vec![0.0, 0.0, 0.0],
        vec![1.0, 2.0, 3.0],
        vec![1.0e38, 1.0e38, -1.0e38],
        vec![-3.0e38, -3.0e38, -3.0e38],
        vec![88.0, 89.0, 90.0],
        vec![-1000.0, 0.0, 1000.0],
    ];
    for xs in cases {
        let s = Softmax::new(xs.len());
        let x = dense(&xs);
        let mut out = dense(&vec![0.0; xs.len()]);
        s.forward(&x, &mut out);
        let mut total = 0.0f32;
        for v in raw(&out) {
            assert!(v >= 0.0, "negative softmax entry {v} for {xs:?}");
            assert!(v.is_finite(), "non-finite softmax entry for {xs:?}");
            total += v;
        }
        assert!(close(total, 1.0, 1e-5), "softmax sum {total} for {xs:?}");
    }
    // a uniform input normalizes to exactly equal shares
    let s = Softmax::new(3);
    let mut out = dense(&[0.0, 0.0, 0.0]);
    s.forward(&dense(&[7.5, 7.5, 7.5]), &mut out);
    for v in raw(&out) {
        assert!(close(v, 1.0 / 3.0, 1e-6));
    }
}

// Softmax backward is the identity (valid because the engine pairs it
// with the cross-entropy loss).
#[test]
fn softmax_backward_is_identity() {
    let s = Softmax::new(3);
    let g = dense(&[0.25, -1.0, 0.75]);
    let mut gi = dense(&[0.0, 0.0, 0.0]);
    s.backward(&g, &mut gi);
    assert_eq!(raw(&gi), raw(&g));
}

// Cross-entropy is non-negative and equals -log(softmax(logits)[target]).
#[test]
fn cross_entropy_matches_log_softmax() {
    let cases: Vec<(Vec<f32>, usize)> = vec![
        (vec![0.0, 0.0], 0),
        (vec![1.0, -2.0, 0.5], 2),
        (vec![10.0, 0.0, -10.0], 1),
        (vec![100.0, 101.0], 0),
    ];
    let loss = CrossEntropyLoss;
    for (xs, target) in cases {
        let x = dense(&xs);
        let mut lv = F(0.0);
        loss.forward(&x, target, &mut lv);
        assert!(lv.0 >= 0.0, "negative loss {} for {xs:?}", lv.0);
        let expected = -softmax_ref(&xs)[target].ln();
        assert!(close(lv.0, expected, 1e-5), "loss {} vs {} for {xs:?}", lv.0, expected);
    }
}

// Cross-entropy backward: softmax(logits) with 1 subtracted at the target.
#[test]
fn cross_entropy_backward_values() {
    let loss = CrossEntropyLoss;
    let xs = vec![1.0f32, 0.0, -1.0];
    let x = dense(&xs);
    let mut g = dense(&[0.0, 0.0, 0.0]);
    loss.backward(&x, 0, &mut g);
    let sm = softmax_ref(&xs);
    assert!(close(g[0].0, sm[0] - 1.0, 1e-6));
    assert!(close(g[1].0, sm[1], 1e-6));
    assert!(close(g[2].0, sm[2], 1e-6));
}

// Gradient check: the analytic weight gradient of forward + loss
// matches a numerical finite difference.
#[test]
fn affine_gradient_check() {
    let w = [1.0f32, 0.0, 0.0, 1.0];
    let b = [0.0f32, 0.0];
    let x = dense(&[1.0, 2.0]);
    let target = 0usize;
    let loss = CrossEntropyLoss;

    // analytic gradient via backward
    let mut l = linear_with(2, 2, &w, &b);
    let mut out = dense(&[0.0, 0.0]);
    l.forward(&x, &mut out);
    let mut g = dense(&[0.0, 0.0]);
    loss.backward(&out, target, &mut g);
    let mut gi = dense(&[0.0, 0.0]);
    l.backward(&g, &x, &mut gi);

    let eps = 1e-3f32;
    for o in 0..2 {
        for i in 0..2 {
            let analytic = l.grad_weight_at(o, i).0;
            let mut w_pert = w;
            w_pert[o * 2 + i] += eps;
            let lp = linear_with(2, 2, &w_pert, &b);
            let mut out_p = dense(&[0.0, 0.0]);
            lp.forward(&x, &mut out_p);
            let mut loss_p = F(0.0);
            loss.forward(&out_p, target, &mut loss_p);
            let mut loss_0 = F(0.0);
            loss.forward(&out, target, &mut loss_0);
            let numeric = (loss_p.0 - loss_0.0) / eps;
            assert!(
                close(analytic, numeric, 1e-2),
                "grad w[{o},{i}]: analytic {analytic} vs numeric {numeric}"
            );
        }
    }
}

fn single_affine_model(w: &[f32], b: &[f32], in_size: usize, out_size: usize) -> Model<F> {
    Model::new(vec![Layer::Linear(linear_with(in_size, out_size, w, b))]).unwrap()
}

fn model_weight(m: &Model<F>, stage: usize, o: usize, i: usize) -> f32 {
    match &m.stages()[stage] {
        Layer::Linear(l) => l.weight_at(o, i).0,
        _ => panic!("stage {stage} is not an affine layer"),
    }
}

fn model_bias(m: &Model<F>, stage: usize, o: usize) -> f32 {
    match &m.stages()[stage] {
        Layer::Linear(l) => l.bias_at(o).0,
        _ => panic!("stage {stage} is not an affine layer"),
    }
}

// Accumulation: train_batch over B samples changes the weights exactly
// as summing the B individual sample gradients and applying one update
// scaled by lr / B.
#[test]
fn batch_update_accumulates_sample_gradients() {
    let w = [0.4f32, -0.2, 0.1, 0.0, 0.3, -0.5];
    let b = [0.05f32, -0.05];
    let samples = [[1.0f32, 0.0, -1.0], [0.5, 2.0, 1.0], [-1.5, 0.25, 0.75]];
    let targets = [0usize, 1, 1];
    let lr = 0.3f32;

    // sum the individual sample gradients, each on a fresh layer
    let mut sum_gw = [0.0f32; 6];
    let mut sum_gb = [0.0f32; 2];
    for s in 0..3 {
        let mut l = linear_with(3, 2, &w, &b);
        let x = dense(&samples[s]);
        let mut out = dense(&[0.0, 0.0]);
        l.forward(&x, &mut out);
        let mut g = dense(&[0.0, 0.0]);
        CrossEntropyLoss.backward(&out, targets[s], &mut g);
        let mut gi = dense(&[0.0, 0.0, 0.0]);
        l.backward(&g, &x, &mut gi);
        for o in 0..2 {
            for i in 0..3 {
                sum_gw[o * 3 + i] += l.grad_weight_at(o, i).0;
            }
            sum_gb[o] += l.grad_bias_at(o).0;
        }
    }

    // one batched step over the same three samples
    let mut m = single_affine_model(&w, &b, 3, 2);
    let batch_x: Vec<Buffer<F>> = samples.iter().map(|s| Buffer::Dense(dense(s))).collect();
    let batch_y = targets.to_vec();
    let mut loss = CrossEntropyLoss;
    m.train_batch(&batch_x, &batch_y, &mut loss, F(lr));

    let scale = lr / 3.0;
    for o in 0..2 {
        for i in 0..3 {
            let expected = w[o * 3 + i] - scale * sum_gw[o * 3 + i];
            let got = model_weight(&m, 0, o, i);
            assert!(close(got, expected, 1e-6), "w[{o},{i}]: {got} vs {expected}");
        }
        let expected_b = b[o] - scale * sum_gb[o];
        let got_b = model_bias(&m, 0, o);
        assert!(close(got_b, expected_b, 1e-6), "b[{o}]: {got_b} vs {expected_b}");
    }
}

// Sparse/dense equivalence: the sparse affine layer on a sparse buffer
// matches the dense affine layer on the materialized input.
#[test]
fn sparse_dense_forward_agree() {
    let w = [
        0.5f32, -1.0, 0.25, 2.0, 0.0, 1.5, 0.5, -0.25, 1.0, -2.0, 0.75, 0.0, -0.5, 0.125, 1.0,
    ];
    let b = [0.1f32, -0.2, 0.3];
    let sparse = sparse_linear_with(5, 3, &w, &b);
    let linear = linear_with(5, 3, &w, &b);

    let pairs: Vec<(usize, F)> = vec![(0, F(2.0)), (3, F(-1.5))];
    let materialized = dense(&[2.0, 0.0, 0.0, -1.5, 0.0]);

    let mut out_sparse = dense(&[0.0, 0.0, 0.0]);
    sparse.forward(&pairs, &mut out_sparse);
    let mut out_dense = dense(&[0.0, 0.0, 0.0]);
    linear.forward(&materialized, &mut out_dense);
    assert_eq!(raw(&out_sparse), raw(&out_dense));
}

// The equivalence extends through backward and update: accumulating
// over the stored pairs and stepping moves the parameters exactly as
// the dense layer does on the materialized input.
#[test]
fn sparse_dense_update_agree() {
    let w = [0.5f32, -1.0, 0.25, 2.0, 0.0, 1.5, 0.5, -0.25];
    let b = [0.1f32, -0.2];
    let mut sparse = sparse_linear_with(4, 2, &w, &b);
    let mut linear = linear_with(4, 2, &w, &b);

    let pairs: Vec<(usize, F)> = vec![(1, F(3.0)), (3, F(-0.5))];
    let materialized = dense(&[0.0, 3.0, 0.0, -0.5]);
    let go = dense(&[0.75, -1.25]);

    let mut discard: Vec<(usize, F)> = Vec::new();
    sparse.backward(&go, &pairs, &mut discard);
    assert!(discard.is_empty());
    let mut gi = dense(&[0.0; 4]);
    linear.backward(&go, &materialized, &mut gi);

    let lr = F(0.2);
    sparse.step(lr, 1);
    linear.step(lr, 1);
    for o in 0..2 {
        for i in 0..4 {
            assert_eq!(sparse.weight_at(o, i).0, linear.weight_at(o, i).0, "w[{o},{i}]");
        }
        assert_eq!(sparse.bias_at(o).0, linear.bias_at(o).0, "b[{o}]");
    }
}

// The same equivalence through a whole pipeline entry: a sparse-first
// model and a dense-first model with identical parameters predict the
// same scores.
#[test]
fn sparse_dense_predict_agree() {
    let w = [0.5f32, -1.0, 0.25, 2.0, 0.0, 1.5, 0.5, -0.25];
    let b = [0.0f32, 0.125];
    let m_sparse = Model::new(vec![Layer::SparseLinear(sparse_linear_with(4, 2, &w, &b))]).unwrap();
    let m_dense = Model::new(vec![Layer::Linear(linear_with(4, 2, &w, &b))]).unwrap();

    let pairs: Vec<(usize, F)> = vec![(1, F(3.0)), (2, F(-0.5))];
    let out_sparse = m_sparse.predict(&Buffer::Sparse(pairs));
    let out_dense = m_dense.predict(&Buffer::Dense(dense(&[0.0, 3.0, -0.5, 0.0])));
    assert_eq!(raw(&out_sparse), raw(&out_dense));
}

// End-to-end: a three-stage pipeline, one single-sample batch; the
// parameters must move by exactly the analytically computed gradient
// step, and prediction must change.
#[test]
fn end_to_end_training_step() {
    let w1 = [0.1f32, 0.2, -0.1, 0.0, 0.0, -0.2, 0.3, 0.1, 0.2, 0.1, 0.0, -0.3];
    let b1 = [0.01f32, -0.02, 0.0];
    let w2 = [0.5f32, -0.4, 0.1, -0.3, 0.2, 0.4];
    let b2 = [0.0f32, 0.05];
    let x = [1.0f32, -1.0, 2.0, 0.0];
    let target = 1usize;
    let lr = 0.1f32;

    let mut m = Model::new(vec![
        Layer::Linear(linear_with(4, 3, &w1, &b1)),
        Layer::ReLU(ReLU::new(3)),
        Layer::Linear(linear_with(3, 2, &w2, &b2)),
    ])
    .unwrap();

    let before = raw(&m.predict(&Buffer::Dense(dense(&x))));

    let batch_x = vec![Buffer::Dense(dense(&x))];
    let batch_y = vec![target];
    let mut loss = CrossEntropyLoss;
    m.train_batch(&batch_x, &batch_y, &mut loss, F(lr));

    // the same gradient step, computed analytically
    let mut z1 = [0.0f32; 3];
    for o in 0..3 {
        let mut sum = b1[o];
        for i in 0..4 {
            sum += w1[o * 4 + i] * x[i];
        }
        z1[o] = sum;
    }
    let a1: Vec<f32> = z1.iter().map(|&v| v.max(0.0)).collect();
    let mut z2 = [0.0f32; 2];
    for o in 0..2 {
        let mut sum = b2[o];
        for i in 0..3 {
            sum += w2[o * 3 + i] * a1[i];
        }
        z2[o] = sum;
    }
    let mut g2 = softmax_ref(&z2);
    g2[target] -= 1.0;
    // gradients for stage 2
    let mut gw2 = [0.0f32; 6];
    let mut gin2 = [0.0f32; 3];
    for o in 0..2 {
        for i in 0..3 {
            gw2[o * 3 + i] = g2[o] * a1[i];
            gin2[i] += w2[o * 3 + i] * g2[o];
        }
    }
    // through the rectifier (z1 > 0 passes, else 0)
    let g1: Vec<f32> = (0..3).map(|i| if z1[i] > 0.0 { gin2[i] } else { 0.0 }).collect();
    let mut gw1 = [0.0f32; 12];
    for o in 0..3 {
        for i in 0..4 {
            gw1[o * 4 + i] = g1[o] * x[i];
        }
    }

    for o in 0..3 {
        for i in 0..4 {
            let expected = w1[o * 4 + i] - lr * gw1[o * 4 + i];
            let got = model_weight(&m, 0, o, i);
            assert!(close(got, expected, 1e-6), "w1[{o},{i}]: {got} vs {expected}");
        }
        let expected_b = b1[o] - lr * g1[o];
        let got_b = model_bias(&m, 0, o);
        assert!(close(got_b, expected_b, 1e-6), "b1[{o}]: {got_b} vs {expected_b}");
    }
    for o in 0..2 {
        for i in 0..3 {
            let expected = w2[o * 3 + i] - lr * gw2[o * 3 + i];
            let got = model_weight(&m, 2, o, i);
            assert!(close(got, expected, 1e-6), "w2[{o},{i}]: {got} vs {expected}");
        }
        let expected_b = b2[o] - lr * g2[o];
        let got_b = model_bias(&m, 2, o);
        assert!(close(got_b, expected_b, 1e-6), "b2[{o}]: {got_b} vs {expected_b}");
    }

    let after = raw(&m.predict(&Buffer::Dense(dense(&x))));
    assert_ne!(before, after, "prediction unchanged by the training step");
}

// A pipeline is itself a stage: driving a model through the common
// stage interface gives the same numbers as predict.
#[test]
fn model_composes_as_a_stage() {
    let w = [0.25f32, -0.5, 1.0, 0.75, 0.0, -1.25];
    let b = [0.1f32, -0.1];
    let mut m = single_affine_model(&w, &b, 3, 2);
    let x = dense(&[1.0, -2.0, 0.5]);
    let expected = raw(&m.predict(&Buffer::Dense(x.clone())));
    let mut out = dense(&[0.0, 0.0]);
    Module::forward(&mut m, &x, &mut out);
    assert_eq!(raw(&out), expected);
    assert_eq!(Module::output_size(&m), 2);
}

// Construction-time rejection of malformed pipelines.
#[test]
fn pipeline_rejects_empty() {
    assert_eq!(Model::<F>::new(vec![]).err().unwrap(), PipelineError::Empty);
}

#[test]
fn pipeline_rejects_width_mismatch() {
    let r = Model::new(vec![
        Layer::Linear(linear_with(4, 3, &[0.0; 12], &[0.0; 3])),
        Layer::ReLU(ReLU::new(2)),
    ]);
    assert_eq!(r.err().unwrap(), PipelineError::WidthMismatch(1));
}

#[test]
fn pipeline_rejects_sparse_after_first() {
    let r = Model::new(vec![
        Layer::Linear(linear_with(4, 3, &[0.0; 12], &[0.0; 3])),
        Layer::SparseLinear(sparse_linear_with(3, 2, &[0.0; 6], &[0.0; 2])),
    ]);
    assert_eq!(r.err().unwrap(), PipelineError::KindMismatch(1));
}

#[test]
fn pipeline_accepts_matching_chain() {
    let r = Model::new(vec![
        Layer::SparseLinear(sparse_linear_with(5, 3, &[0.1; 15], &[0.0; 3])),
        Layer::ReLU(ReLU::new(3)),
        Layer::Linear(linear_with(3, 2, &[0.1; 6], &[0.0; 2])),
        Layer::Softmax(Softmax::new(2)),
    ]);
    assert!(r.is_ok());
}

// Input validation helper used before calling the pipeline.
#[test]
fn buffer_check_fits() {
    let d: Buffer<F> = Buffer::Dense(dense(&[1.0, 2.0]));
    assert!(d.check_fits(BufferKind::Dense, 2));
    assert!(!d.check_fits(BufferKind::Dense, 3));
    assert!(!d.check_fits(BufferKind::Sparse, 2));
    let s: Buffer<F> = Buffer::Sparse(vec![(0, F(1.0)), (4, F(2.0))]);
    assert!(s.check_fits(BufferKind::Sparse, 5));
    assert!(!s.check_fits(BufferKind::Sparse, 4));
    assert!(!s.check_fits(BufferKind::Dense, 5));
}

// Weight initialization is deterministic given the seed, and the layer
// draws exactly in_size * out_size words.
#[test]
fn weight_init_reproducible() {
    let mut rng_a = WeightRng::new(123456789);
    let mut rng_b = WeightRng::new(123456789);
    let la: Linear<F> = Linear::new(3, 2, &mut rng_a);
    let lb: Linear<F> = Linear::new(3, 2, &mut rng_b);
    for o in 0..2 {
        for i in 0..3 {
            assert_eq!(la.weight_at(o, i).0, lb.weight_at(o, i).0);
        }
        // biases start at zero
        assert_eq!(la.bias_at(o).0, 0.0);
    }
    // both generators advanced identically: the next draw agrees too
    let wa: F = init_weight(&mut rng_a);
    let wb: F = init_weight(&mut rng_b);
    assert_eq!(wa.0, wb.0);
    // a different seed gives a different first weight
    let mut rng_c = WeightRng::new(42);
    let lc: Linear<F> = Linear::new(3, 2, &mut rng_c);
    assert_ne!(la.weight_at(0, 0).0, lc.weight_at(0, 0).0);
    // the drawn values lie in the zero-centered range the test scalar picks
    for o in 0..2 {
        for i in 0..3 {
            assert!(la.weight_at(o, i).0.abs() <= 0.05 + 1e-6);
        }
    }
}

// The generator draws exactly the linear-congruential sequence.
#[test]
fn weight_rng_draws_the_lcg_sequence() {
    let seed = 123456789u32;
    let mut rng = WeightRng::new(seed);
    let drawn: F = init_weight(&mut rng);
    let word = seed.wrapping_mul(1103515245).wrapping_add(12345);
    let expected = (word as f32 / u32::MAX as f32 - 0.5) * 0.1;
    assert_eq!(drawn.0, expected);
    // and the second draw continues from the advanced state
    let drawn2: F = init_weight(&mut rng);
    let word2 = word.wrapping_mul(1103515245).wrapping_add(12345);
    let expected2 = (word2 as f32 / u32::MAX as f32 - 0.5) * 0.1;
    assert_eq!(drawn2.0, expected2);
}
