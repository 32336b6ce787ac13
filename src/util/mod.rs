pub mod bits;
pub mod math;
