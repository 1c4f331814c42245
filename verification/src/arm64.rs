//! The AArch64 profile, for Mach-O (Apple Silicon) and AAPCS64 hosts:
//! `_`-prefixed symbols, scalar FP, `fmadd` accumulation, and an inline
//! `exp` in place of libm's `expf`.

pub mod abi;
pub mod arg_writes;
pub mod buffer;
pub mod codegen;
pub mod dataflow;
pub mod frame;
pub mod ops;

use vstd::prelude::*;
use crate::types::{Asm, LowerError};
use crate::uir::Uir;
use crate::arm64::codegen::{walk_uir, lowered, uir_lowerable};

verus! {

/// The arm64 profile: lowers an IR to AArch64 Mach-O assembly.
pub struct Arm64Profile;

impl Arm64Profile {
    /// The prefix Mach-O puts before every C symbol.
    pub fn sym_prefix(&self) -> (p: &'static str)
        ensures
            p@ == "_"@,
    {
        "_"
    }

    /// Lowers every model of the IR to one function of the file.
    pub fn lower(&self, uir: &Uir) -> (r: Result<Asm, LowerError>)
        requires
            uir_lowerable(*uir),
        ensures
            lowered(*uir, "_"@, r),
    {
        walk_uir(uir, self.sym_prefix())
    }
}

/// Same as `Arm64Profile.lower(uir)`.
pub fn lower(uir: &Uir) -> (r: Result<Asm, LowerError>)
    requires
        uir_lowerable(*uir),
    ensures
        lowered(*uir, "_"@, r),
{
    Arm64Profile.lower(uir)
}

} // verus!
