//! The selection of a template for each family of operators.

pub mod elementwise;
pub mod pool;
pub mod reduce;
pub mod index;
pub mod normalize;
pub mod layout;
pub mod gemm;
pub mod resize;
