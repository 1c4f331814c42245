// The x86_64 op emitters called directly: argument-register hygiene at
// every supported arity, and the op-local register plans.

use nfl_profiles::types::{BufferLoc, Span};
use nfl_profiles::uir::PostOp;
use nfl_profiles::x86_64::abi::AbiContext;
use nfl_profiles::x86_64::ops::add::emit_add;
use nfl_profiles::x86_64::ops::dropout::emit_dropout_copy;
use nfl_profiles::x86_64::ops::layernorm::emit_layernorm;
use nfl_profiles::x86_64::ops::linear::emit_linear;
use nfl_profiles::x86_64::ops::matmul::emit_matmul;
use nfl_profiles::x86_64::ops::mulscalar::emit_mulscalar;
use nfl_profiles::x86_64::ops::relu::emit_relu;
use nfl_profiles::x86_64::ops::softmax::emit_softmax;

/// No argument register of the function appears as a write destination.
fn assert_emit_abi_clean(emitter: &str, text: &str, abi: &AbiContext) {
    for reg in abi.ffi_save_set() {
        assert!(
            !text.contains(&format!(", {reg}\n")),
            "{emitter} at N={n} writes to ABI register {reg}; got:\n{text}",
            n = abi.n_inputs,
        );
    }
}

fn emit_relu_at(n_inputs: usize) -> String {
    let abi = AbiContext { n_inputs };
    emit_relu(&abi, 8, 0, 0, BufferLoc::StackOffset(0), BufferLoc::OutputReg)
}

#[test]
fn emit_relu_abi_clean_at_n1() {
    let abi = AbiContext { n_inputs: 1 };
    assert_emit_abi_clean("emit_relu", &emit_relu_at(1), &abi);
}
#[test]
fn emit_relu_abi_clean_at_n2() {
    let abi = AbiContext { n_inputs: 2 };
    assert_emit_abi_clean("emit_relu", &emit_relu_at(2), &abi);
}
#[test]
fn emit_relu_abi_clean_at_n3() {
    let abi = AbiContext { n_inputs: 3 };
    assert_emit_abi_clean("emit_relu", &emit_relu_at(3), &abi);
}
#[test]
fn emit_relu_abi_clean_at_n4() {
    let abi = AbiContext { n_inputs: 4 };
    assert_emit_abi_clean("emit_relu", &emit_relu_at(4), &abi);
}

fn emit_dropout_copy_at(n_inputs: usize) -> String {
    let abi = AbiContext { n_inputs };
    emit_dropout_copy(&abi, 8, 0, 0, BufferLoc::StackOffset(0), BufferLoc::OutputReg)
}

#[test]
fn emit_dropout_copy_abi_clean_at_n1() {
    let abi = AbiContext { n_inputs: 1 };
    assert_emit_abi_clean("emit_dropout_copy", &emit_dropout_copy_at(1), &abi);
}
#[test]
fn emit_dropout_copy_abi_clean_at_n2() {
    let abi = AbiContext { n_inputs: 2 };
    assert_emit_abi_clean("emit_dropout_copy", &emit_dropout_copy_at(2), &abi);
}
#[test]
fn emit_dropout_copy_abi_clean_at_n3() {
    let abi = AbiContext { n_inputs: 3 };
    assert_emit_abi_clean("emit_dropout_copy", &emit_dropout_copy_at(3), &abi);
}
#[test]
fn emit_dropout_copy_abi_clean_at_n4() {
    let abi = AbiContext { n_inputs: 4 };
    assert_emit_abi_clean("emit_dropout_copy", &emit_dropout_copy_at(4), &abi);
}

fn emit_mulscalar_at(n_inputs: usize) -> String {
    let abi = AbiContext { n_inputs };
    emit_mulscalar(&abi, 8, 0, 0, 0, BufferLoc::StackOffset(0), BufferLoc::OutputReg)
}

#[test]
fn emit_mulscalar_abi_clean_at_n1() {
    let abi = AbiContext { n_inputs: 1 };
    assert_emit_abi_clean("emit_mulscalar", &emit_mulscalar_at(1), &abi);
}
#[test]
fn emit_mulscalar_abi_clean_at_n2() {
    let abi = AbiContext { n_inputs: 2 };
    assert_emit_abi_clean("emit_mulscalar", &emit_mulscalar_at(2), &abi);
}
#[test]
fn emit_mulscalar_abi_clean_at_n3() {
    let abi = AbiContext { n_inputs: 3 };
    assert_emit_abi_clean("emit_mulscalar", &emit_mulscalar_at(3), &abi);
}
#[test]
fn emit_mulscalar_abi_clean_at_n4() {
    let abi = AbiContext { n_inputs: 4 };
    assert_emit_abi_clean("emit_mulscalar", &emit_mulscalar_at(4), &abi);
}

fn emit_add_at(n_inputs: usize) -> String {
    let abi = AbiContext { n_inputs };
    emit_add(&abi, 8, 0, 0, BufferLoc::StackOffset(0), BufferLoc::InputReg(0), BufferLoc::OutputReg)
}

#[test]
fn emit_add_abi_clean_at_n1() {
    let abi = AbiContext { n_inputs: 1 };
    assert_emit_abi_clean("emit_add", &emit_add_at(1), &abi);
}
#[test]
fn emit_add_abi_clean_at_n2() {
    let abi = AbiContext { n_inputs: 2 };
    assert_emit_abi_clean("emit_add", &emit_add_at(2), &abi);
}
#[test]
fn emit_add_abi_clean_at_n3() {
    let abi = AbiContext { n_inputs: 3 };
    assert_emit_abi_clean("emit_add", &emit_add_at(3), &abi);
}
#[test]
fn emit_add_abi_clean_at_n4() {
    let abi = AbiContext { n_inputs: 4 };
    assert_emit_abi_clean("emit_add", &emit_add_at(4), &abi);
}

fn emit_linear_at(n_inputs: usize, bias: bool) -> String {
    let abi = AbiContext { n_inputs };
    let post: Vec<PostOp> = vec![];
    emit_linear(
        &abi,
        2,
        2,
        2,
        0,
        0,
        BufferLoc::InputReg(0),
        BufferLoc::OutputReg,
        0,
        if bias { Some(0) } else { None },
        Span::new(1, 1),
        &post,
        "",
    )
    .expect("emit_linear must succeed")
}

/// The text between the outer loop label and its end label.
fn extract_linear_matmul_body(text: &str) -> &str {
    let start_label = ".Lmm_i_0_0:";
    let end_label = ".Lmm_i_end_0_0:";
    let start = text.find(start_label).expect("matmul body start label not found") + start_label.len();
    let end = text.find(end_label).expect("matmul body end label not found");
    &text[start..end]
}

#[test]
fn emit_linear_n2_with_bias_does_not_alias_output_reg_in_body() {
    let text = emit_linear_at(2, true);
    let body = extract_linear_matmul_body(&text);
    assert!(
        !body.contains("xorq    %rcx, %rcx"),
        "j-counter init must not be %rcx (would alias output_reg at N=2). Body:\n{body}"
    );
    assert!(!body.contains("(%rcx, %rcx,"), "bias-add base must not alias offset. Body:\n{body}");
    assert!(body.contains("xorq    %rbp, %rbp"), "j-counter should be %rbp. Body:\n{body}");
    assert!(
        body.contains("(%rcx, %rbp, 4), %xmm5"),
        "bias-add should read from (output_reg=%rcx, j=%rbp). Body:\n{body}"
    );
}

#[test]
fn emit_linear_n3_does_not_clobber_output_reg() {
    let text = emit_linear_at(3, false);
    let body = extract_linear_matmul_body(&text);
    assert!(
        !body.contains(", %r8\n") && !body.contains("(%r8,"),
        "src ptr scratch must not use %r8 at N=3 (output_reg alias). Body:\n{body}"
    );
    assert!(body.contains("(%r14,"), "src ptr should be %r14 (indexed load). Body:\n{body}");
    assert!(text.contains("    pushq   %r14\n"), "op-local pushq %r14 must appear. Text:\n{text}");
    assert!(text.contains("    popq    %r14\n"), "op-local popq %r14 must appear. Text:\n{text}");
    assert!(text.contains(", %r14\n"), "src ptr materialise must write to %r14. Text:\n{text}");
}

#[test]
fn emit_linear_n4_does_not_clobber_output_reg() {
    let text = emit_linear_at(4, false);
    let body = extract_linear_matmul_body(&text);
    assert!(!body.contains(", %r9\n"), "weight ptr scratch must not write to %r9 at N=4. Body:\n{body}");
    assert!(
        body.contains("(%r15, ") || body.contains(", %r15\n"),
        "weight ptr should be relocated to %r15. Body:\n{body}"
    );
    assert!(
        text.contains("    pushq   %r15\n") && text.contains("    popq    %r15\n"),
        "op-local pushq/popq %r15 must bracket the body. Text:\n{text}"
    );
}

fn emit_layernorm_x86_64_at(n_inputs: usize, has_affine: bool) -> String {
    let abi = AbiContext { n_inputs };
    let (gamma_offset, beta_offset) = if has_affine { (Some(0usize), Some(32usize)) } else { (None, None) };
    emit_layernorm(
        &abi,
        8,
        32,
        0,
        0,
        BufferLoc::InputReg(0),
        BufferLoc::OutputReg,
        gamma_offset,
        beta_offset,
        Span::new(1, 1),
    )
    .expect("emit succeeds")
}

#[test]
fn emit_layernorm_x86_64_abi_clean_at_n1_no_affine() {
    let abi = AbiContext { n_inputs: 1 };
    assert_emit_abi_clean("emit_layernorm", &emit_layernorm_x86_64_at(1, false), &abi);
}

#[test]
fn emit_layernorm_x86_64_abi_clean_at_n1_with_affine() {
    let abi = AbiContext { n_inputs: 1 };
    assert_emit_abi_clean("emit_layernorm", &emit_layernorm_x86_64_at(1, true), &abi);
}

#[test]
fn emit_layernorm_x86_64_abi_clean_at_n2_no_affine() {
    let abi = AbiContext { n_inputs: 2 };
    assert_emit_abi_clean("emit_layernorm", &emit_layernorm_x86_64_at(2, false), &abi);
}

#[test]
fn emit_layernorm_x86_64_abi_clean_at_n2_with_affine() {
    let abi = AbiContext { n_inputs: 2 };
    assert_emit_abi_clean("emit_layernorm", &emit_layernorm_x86_64_at(2, true), &abi);
}

#[test]
fn emit_layernorm_n2_does_not_clobber_output_reg() {
    let abi = AbiContext { n_inputs: 2 };
    assert_emit_abi_clean("emit_layernorm", &emit_layernorm_x86_64_at(2, false), &abi);
}

#[test]
fn emit_layernorm_n3_does_not_clobber_output_reg() {
    let text = emit_layernorm_x86_64_at(3, false);
    assert!(!text.contains(", %r8\n"), "src ptr scratch must not write to %r8 at N=3. Text:\n{text}");
    assert!(!text.contains("(%r8,"), "src ptr scratch must not be used as base at N=3. Text:\n{text}");
    assert!(!text.contains(", %r9\n"), "dst ptr scratch must not write to %r9 at N=3. Text:\n{text}");
    assert!(!text.contains("(%r9,"), "dst ptr scratch must not be used as base at N=3. Text:\n{text}");
    assert!(text.contains("    pushq   %r15\n"), "op-local pushq %r15 must appear. Text:\n{text}");
    assert!(text.contains("    popq    %r15\n"), "op-local popq %r15 must appear. Text:\n{text}");
    assert!(text.contains("(%r15,"), "src ptr should be %r15. Text:\n{text}");
    assert!(text.contains("(%rbp,"), "dst ptr should be %rbp. Text:\n{text}");
    let pushq_count = text.matches("    pushq   ").count();
    let popq_count = text.matches("    popq    ").count();
    assert!(pushq_count >= 3, "expected at least 3 op-local pushq, got {pushq_count}. Text:\n{text}");
    assert_eq!(pushq_count, popq_count, "push/pop count mismatch. Text:\n{text}");
}

#[test]
fn emit_layernorm_n4_does_not_clobber_output_reg() {
    let text = emit_layernorm_x86_64_at(4, true);
    assert!(!text.contains(", %r8\n"), "no scratch may write to %r8 at N=4. Text:\n{text}");
    assert!(!text.contains("(%r8,"), "no scratch may use %r8 as base at N=4. Text:\n{text}");
    assert!(!text.contains(", %r9\n"), "no scratch may write to %r9 at N=4. Text:\n{text}");
    assert!(!text.contains("(%r9,"), "no scratch may use %r9 as base at N=4. Text:\n{text}");
    assert!(
        text.contains("    pushq   %r15\n") && text.contains("    popq    %r15\n"),
        "op-local pushq/popq %r15 must bracket affine body. Text:\n{text}"
    );
    assert!(text.contains("(%r15,") && text.contains("(%rbp,"), "src/dst ptrs should be %r15/%rbp. Text:\n{text}");
    let pushq_count = text.matches("    pushq   ").count();
    let popq_count = text.matches("    popq    ").count();
    assert!(pushq_count >= 5, "expected at least 5 op-local pushq, got {pushq_count}. Text:\n{text}");
    assert_eq!(pushq_count, popq_count, "push/pop LIFO. Text:\n{text}");
}

#[test]
fn emit_layernorm_embeds_the_reciprocal_of_the_row_width() {
    let text = emit_layernorm_x86_64_at(1, false);
    // 1/32 = 2^-5: exponent field 122, empty significand.
    assert!(text.contains("inv_d=0x3d000000, eps=0x3727c5ac, one=0x3f800000"), "{text}");
    assert!(text.contains(".Lln_inv_d_0_0: .long 0x3d000000\n"), "{text}");
    assert!(text.contains("sqrtss  %xmm0, %xmm0"), "{text}");
}

#[test]
fn emit_layernorm_stack_source_is_biased_by_the_pushes() {
    let abi = AbiContext { n_inputs: 1 };
    let no_affine = emit_layernorm(&abi, 2, 4, 0, 0, BufferLoc::StackOffset(16), BufferLoc::OutputReg, None, None, Span::new(1, 1)).unwrap();
    assert!(no_affine.contains("    leaq    40(%rsp), %rbx\n"), "{no_affine}");
    let affine = emit_layernorm(&abi, 2, 4, 0, 0, BufferLoc::StackOffset(16), BufferLoc::OutputReg, Some(0), Some(4), Span::new(1, 1)).unwrap();
    assert!(affine.contains("    leaq    56(%rsp), %rbx\n"), "{affine}");
    assert!(affine.contains("    movq    %rsi, %r12\n    leaq    16(%rsi), %r13\n"), "{affine}");
}

#[test]
fn emit_matmul_body_contains_zero_pushq() {
    let abi = AbiContext { n_inputs: 2 };
    let result = emit_matmul(&abi, 1, 4, 8, 4, false, 0, 0, BufferLoc::InputReg(0), BufferLoc::InputReg(1), BufferLoc::OutputReg, Span::new(0, 0))
        .expect("emit_matmul should succeed");
    assert_eq!(result.matches("pushq").count(), 0, "{result}");
}

#[test]
fn emit_matmul_accepts_n4_with_rbp_j_counter() {
    let abi = AbiContext { n_inputs: 4 };
    let text = emit_matmul(&abi, 1, 2, 3, 4, true, 0, 0, BufferLoc::InputReg(0), BufferLoc::InputReg(1), BufferLoc::OutputReg, Span::new(0, 0)).unwrap();
    assert!(text.contains("movq    $0, %rbp\n"), "{text}");
    assert!(!text.contains("movq    $0, %r9\n"), "{text}");
    assert!(!text.contains(", %r9\n"), "{text}");
    assert!(text.contains("movq    %rbp, %rax"), "transposed B indexes by j:\n{text}");
    assert!(text.contains("transpose_b=true"), "{text}");
}

#[test]
fn emit_mulscalar_loads_scalar_bits() {
    let abi = AbiContext { n_inputs: 1 };
    let text = emit_mulscalar(&abi, 4, 0x3e80_0000, 0, 0, BufferLoc::InputReg(0), BufferLoc::OutputReg);
    assert!(text.contains("scalar_bits=0x3e800000\n"), "{text}");
    assert!(text.contains("    movl    $0x3e800000, %r10d\n    movd    %r10d, %xmm4\n"), "{text}");
    let small = emit_mulscalar(&abi, 4, 0x5, 0, 1, BufferLoc::InputReg(0), BufferLoc::OutputReg);
    assert!(small.contains("scalar_bits=0x00000005\n    movl    $0x5, %r10d\n"), "{small}");
    assert!(small.contains(".Lms_0_1:"), "{small}");
}

#[test]
fn emit_softmax_spill_slots_follow_the_arity() {
    for (n, slot) in [(1usize, 32usize), (2, 32), (3, 48), (4, 48)] {
        let abi = AbiContext { n_inputs: n };
        let text = emit_softmax(&abi, 2, 4, 0, 0, BufferLoc::InputReg(0), BufferLoc::OutputReg, "");
        assert!(text.contains(&format!("movss   %xmm8, {slot}(%rsp)")), "n={n}:\n{text}");
        assert!(text.contains(&format!("movl    $0, {}(%rsp)", slot + 8)), "n={n}:\n{text}");
    }
}

#[test]
fn emit_matmul_writes_no_argument_register_at_every_arity() {
    for n_inputs in 1..=4usize {
        let abi = AbiContext { n_inputs };
        let text = emit_matmul(
            &abi,
            2,
            3,
            5,
            2,
            false,
            0,
            1,
            BufferLoc::InputReg(0),
            BufferLoc::StackOffset(64),
            BufferLoc::OutputReg,
            Span::new(0, 0),
        )
        .unwrap();
        assert_emit_abi_clean("emit_matmul", &text, &abi);
    }
}
