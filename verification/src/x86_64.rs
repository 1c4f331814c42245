//! The x86_64 (SysV AMD64, AT&T syntax, scalar SSE2) profile, for Linux
//! ELF: unprefixed symbols, and an inline `exp` in place of libm's `expf`.

pub mod abi;
pub mod arg_writes;
pub mod buffer;
pub mod codegen;
pub mod dataflow;
pub mod frame;
pub mod ops;

use vstd::prelude::*;
use crate::types::{Asm, LowerError};
use crate::uir::Uir;
use crate::x86_64::codegen::{walk_uir, lowered, uir_lowerable};

verus! {

/// The x86_64 profile: lowers an IR to x86_64 Linux ELF assembly.
pub struct X86_64Profile;

impl X86_64Profile {
    /// The prefix of every external symbol: none on ELF.
    pub fn sym_prefix(&self) -> (p: &'static str)
        ensures
            p@ == ""@,
    {
        ""
    }

    /// Lowers every model of the IR to one function of the file.
    pub fn lower(&self, uir: &Uir) -> (r: Result<Asm, LowerError>)
        requires
            uir_lowerable(*uir),
        ensures
            lowered(*uir, ""@, r),
    {
        walk_uir(uir, self.sym_prefix())
    }
}

/// Same as `X86_64Profile.lower(uir)`.
pub fn lower(uir: &Uir) -> (r: Result<Asm, LowerError>)
    requires
        uir_lowerable(*uir),
    ensures
        lowered(*uir, ""@, r),
{
    X86_64Profile.lower(uir)
}

} // verus!
