pub mod approx;
pub mod vector;
pub mod matrix;
