//! Verified assembly emitters for the NeuralForge scalar code-generation
//! profiles: AArch64 (Mach-O) and x86_64 (SysV, AT&T syntax).

pub mod text;
pub mod types;
pub mod uir;
pub mod f32bits;
pub mod exp_pool;
pub mod layout;
pub mod lowering;
pub mod arm64;
pub mod x86_64;
