//! Forward inference and loss set-up for small dense neural networks.
//!
//! The crate holds the parts of a feed-forward network that are decided
//! without arithmetic on real numbers: the shapes that layers accept, how
//! weights are stored, which activation or loss rule applies, rectification
//! and clipping (which only compare), and the selection of confidences.
//! Real values travel through it as IEEE 754 binary64 bit patterns.

pub mod binary64;
pub mod matrix;
pub mod activation_function;
pub mod decimal;
pub mod layer;
pub mod loss_function;
