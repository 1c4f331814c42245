//! Per-op code emitters for the x86_64 profile.

pub mod add;
pub mod dropout;
pub mod exp;
pub mod flow;
pub mod layernorm;
pub mod linear;
pub mod loops;
pub mod matmul;
pub mod mulscalar;
pub mod relu;
pub mod softmax;
pub mod softmax_flow;
