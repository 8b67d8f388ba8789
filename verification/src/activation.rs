pub mod relu;
pub mod softmax;
