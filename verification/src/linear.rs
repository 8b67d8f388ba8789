pub mod linear;
pub mod sparselinear;
