//! A minimal training engine for feed-forward neural networks.
//!
//! The engine composes layers into a linear pipeline, runs forward
//! inference, propagates gradients backwards by hand-written rules, and
//! applies mini-batch parameter updates.  All engine code is generic over
//! the [`scalar::Scalar`] arithmetic interface, so the verified core deals
//! only with shapes, indices and buffer lifecycles; a caller instantiates
//! the scalar type with its own numeric representation.

pub mod activation;
pub mod buffer;
pub mod dataset_util;
pub mod laws;
pub mod linear;
pub mod loss;
pub mod nn;
pub mod scalar;
