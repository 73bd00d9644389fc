//! A factorial scalar function packaged as a plugin for a columnar query
//! engine: a declared signature with return-type resolution, a vectorized
//! evaluator over arrow integer columns with null propagation and overflow
//! detection, and a precomputed lookup table as the numeric kernel.

pub mod column;
pub mod descriptor;
pub mod kernel;
pub mod signature;
pub mod types;
