pub mod arith;
pub mod bitwise;
pub mod rational;
pub mod stats;
pub mod temperature;
