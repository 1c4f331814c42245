// The arm64 op emitters called directly: no argument register in use is
// ever the first (destination) operand of an instruction.

use nfl_profiles::arm64::abi::AbiContext;
use nfl_profiles::arm64::ops::add::emit_add;
use nfl_profiles::arm64::ops::dropout::emit_dropout_copy;
use nfl_profiles::arm64::ops::layernorm::emit_layernorm;
use nfl_profiles::arm64::ops::matmul::emit_matmul;
use nfl_profiles::arm64::ops::mulscalar::emit_mulscalar;
use nfl_profiles::arm64::ops::relu::emit_relu;
use nfl_profiles::types::{BufferLoc, Span};

/// Whether `text` puts one of the argument registers in use, in either
/// width, in first-operand position.
fn names_arg_reg_as_destination(text: &str, abi: &AbiContext) -> bool {
    (0..abi.n_inputs + 2).any(|r| text.contains(&format!("  x{r},")) || text.contains(&format!("  w{r},")))
}

#[test]
fn arm64_elementwise_emitters_keep_argument_registers_at_every_arity() {
    for n_inputs in 1..=4usize {
        let abi = AbiContext { n_inputs };
        let relu = emit_relu(&abi, 70_000, 0, 0, BufferLoc::InputReg(0), BufferLoc::OutputReg);
        assert!(!names_arg_reg_as_destination(&relu, &abi), "relu at N={n_inputs}:\n{relu}");
        let copy = emit_dropout_copy(&abi, 8, 0, 0, BufferLoc::StackOffset(5000), BufferLoc::OutputReg);
        assert!(!names_arg_reg_as_destination(&copy, &abi), "copy at N={n_inputs}:\n{copy}");
        let add = emit_add(&abi, 8, 0, 0, BufferLoc::InputReg(0), BufferLoc::StackOffset(16), BufferLoc::OutputReg);
        assert!(!names_arg_reg_as_destination(&add, &abi), "add at N={n_inputs}:\n{add}");
        let ln = emit_layernorm(
            &abi,
            2,
            4,
            0,
            0,
            BufferLoc::InputReg(0),
            BufferLoc::OutputReg,
            Some(0),
            Some(4),
            Span::new(1, 1),
        )
        .expect("layernorm");
        assert!(!names_arg_reg_as_destination(&ln, &abi), "layernorm at N={n_inputs}:\n{ln}");
        let mm = emit_matmul(
            &abi,
            3,
            2,
            3,
            4,
            true,
            0,
            0,
            BufferLoc::InputReg(0),
            BufferLoc::StackOffset(8192),
            BufferLoc::OutputReg,
            Span::new(1, 1),
        )
        .expect("matmul");
        assert!(!names_arg_reg_as_destination(&mm, &abi), "matmul at N={n_inputs}:\n{mm}");
    }
}

#[test]
fn arm64_mulscalar_keeps_argument_registers_at_every_arity() {
    for n_inputs in 1..=4usize {
        let abi = AbiContext { n_inputs };
        let s = emit_mulscalar(&abi, 8, 0x4000_0000, 0, 0, BufferLoc::InputReg(0), BufferLoc::OutputReg);
        assert!(!names_arg_reg_as_destination(&s, &abi), "mul_scalar at N={n_inputs}:\n{s}");
        assert!(s.contains("    mov     x13, #0\n"), "{s}");
    }
}
