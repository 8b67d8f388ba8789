use crate::nn::Loss;
use crate::scalar::Scalar;
use vstd::prelude::*;

verus! {

/// Cross-entropy over normalized-exponential logits, computed in the
/// numerically stable form that subtracts the maximum logit before
/// exponentiating: finite input never overflows the exponential.
pub struct CrossEntropyLoss;

impl CrossEntropyLoss {
    /// Writes `log(sum_j exp(logits[j] - m)) + m - logits[target]` into
    /// `loss_value`, where `m` is the maximum logit.  The target must be
    /// a valid class index; with at least one class the maximum is
    /// defined.
    pub fn forward<S: Scalar>(&self, logits: &Vec<S>, target: usize, loss_value: &mut S)
        requires
            target < logits@.len(),
    {
        let n = logits.len();
        let mut m = logits[0];
        for j in 1..n
            invariant
                logits@.len() == n,
        {
            if m.less_than(logits[j]) {
                m = logits[j];
            }
        }
        let mut total = S::zero();
        for j in 0..n
            invariant
                logits@.len() == n,
        {
            total = total.plus(logits[j].minus(m).exp());
        }
        *loss_value = total.ln().plus(m).minus(logits[target]);
    }

    /// Writes the seed gradient for a pipeline's backward pass:
    /// `grad[i] = exp(logits[i] - m) / sum_j exp(logits[j] - m)` for all
    /// `i`, then `grad[target] -= 1`.  This is the exact gradient of the
    /// composed softmax-plus-cross-entropy, which is why the normalizer
    /// stage may treat its own backward as the identity when this loss
    /// follows it.
    pub fn backward<S: Scalar>(&self, logits: &Vec<S>, target: usize, grad: &mut Vec<S>)
        requires
            target < logits@.len(),
            old(grad)@.len() == logits@.len(),
        ensures
            final(grad)@.len() == logits@.len(),
    {
        let n = logits.len();
        let mut m = logits[0];
        for j in 1..n
            invariant
                logits@.len() == n,
        {
            if m.less_than(logits[j]) {
                m = logits[j];
            }
        }
        let mut total = S::zero();
        for j in 0..n
            invariant
                logits@.len() == n,
        {
            total = total.plus(logits[j].minus(m).exp());
        }
        for i in 0..n
            invariant
                logits@.len() == n,
                grad@.len() == n,
        {
            grad.set(i, logits[i].minus(m).exp().div_by(total));
        }
        grad.set(target, grad[target].minus(S::one()));
    }
}

impl<S: Scalar> Loss<S> for CrossEntropyLoss {
    fn forward(&mut self, prediction: &Vec<S>, target: usize, loss_value: &mut S) {
        CrossEntropyLoss::forward(self, prediction, target, loss_value);
    }

    fn backward(&mut self, prediction: &Vec<S>, target: usize, grad_prediction: &mut Vec<S>) {
        CrossEntropyLoss::backward(self, prediction, target, grad_prediction);
    }
}

} // verus!
