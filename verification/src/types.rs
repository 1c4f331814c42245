//! Types shared by both profiles: buffer placement, function signatures,
//! the assembled output and the lowering errors.

use vstd::prelude::*;
use crate::text::{push_str, push_decimal, decimal};

verus! {

/// A source position (line and column) carried for error reporting.
#[derive(Debug, Clone, Copy, PartialEq, Eq, Structural)]
pub struct Span {
    pub line: usize,
    pub col: usize,
}

impl Span {
    pub fn new(line: usize, col: usize) -> (s: Span)
        ensures
            s.line == line,
            s.col == col,
    {
        Span { line, col }
    }
}

/// Where an op node's output buffer lives at run time.
#[derive(Debug, Clone, Copy, PartialEq, Eq, Structural)]
pub enum BufferLoc {
    /// The `i`-th input pointer argument.
    InputReg(usize),
    /// The caller's output pointer argument.
    OutputReg,
    /// A stack buffer at this byte offset from the frame's stack pointer.
    StackOffset(usize),
    /// Shares the buffer of the given (earlier) node.
    Alias(usize),
}

/// Type tag of a slot in the packed params buffer.
#[derive(Debug, Clone, Copy, PartialEq, Eq, Structural)]
pub enum ParamKind {
    LinearWeight,
    LinearBias,
    LayerNormScale,
    LayerNormBias,
}

/// One slot within the packed `params` buffer (offset and size in floats).
#[derive(Debug, Clone, Copy, PartialEq, Eq, Structural)]
pub struct ParamSlot {
    pub kind: ParamKind,
    pub origin_node: usize,
    pub offset: usize,
    pub size: usize,
}

/// ABI metadata for one generated function.
#[derive(Debug, Clone)]
pub struct FnSig {
    /// External symbol name without any platform prefix, e.g. `nfl_forward_M`.
    pub name: String,
    /// Model name as written in the IR.
    pub model: String,
    /// Number of f32 elements of each input buffer, in declaration order.
    pub inputs_floats: Vec<usize>,
    /// Number of f32 elements in the output buffer.
    pub output_floats: usize,
    /// Total number of f32 elements in the packed params buffer.
    pub params_floats: usize,
    /// Layout of the packed params buffer, one entry per slot in node order.
    pub params_layout: Vec<ParamSlot>,
}

/// Generated assembly source plus per-function metadata.
#[derive(Debug, Clone)]
pub struct Asm {
    pub source: String,
    /// One entry per model of the input, in declaration order.
    pub functions: Vec<FnSig>,
}

/// Errors that can occur during lowering.
#[derive(Debug, Clone)]
pub enum LowerError {
    /// An operation the profile cannot lower.
    UnsupportedOp { op: String, span: Span },
    /// A fused post-op the profile cannot lower.
    UnsupportedPostOp { op: String, span: Span },
    /// The IR contained a shape that was not fully resolved.
    ShapeNotConcrete { span: Span },
    /// The model has more inputs than the argument registers allow.
    TooManyInputs { n: usize, max: usize, span: Span },
}

/// The human-readable message of an error.
pub open spec fn lower_error_message(e: LowerError) -> Seq<char> {
    match e {
        LowerError::UnsupportedOp { op, .. } =>
            "operation '"@ + op@ + "' is not supported by this profile"@,
        LowerError::UnsupportedPostOp { op, .. } =>
            "fused post-op '"@ + op@ + "' is not supported by this profile"@,
        LowerError::ShapeNotConcrete { .. } =>
            "internal: UIR shape was not fully resolved before lowering"@,
        LowerError::TooManyInputs { n, max, .. } =>
            "model has "@ + decimal(n as nat) + " inputs; at most "@ + decimal(max as nat)
                + " are supported"@,
    }
}

impl LowerError {
    /// The source span associated with the error.
    pub fn span(&self) -> (s: Span)
        ensures
            s == match *self {
                LowerError::UnsupportedOp { span, .. } => span,
                LowerError::UnsupportedPostOp { span, .. } => span,
                LowerError::ShapeNotConcrete { span } => span,
                LowerError::TooManyInputs { span, .. } => span,
            },
    {
        match self {
            LowerError::UnsupportedOp { span, .. } => *span,
            LowerError::UnsupportedPostOp { span, .. } => *span,
            LowerError::ShapeNotConcrete { span } => *span,
            LowerError::TooManyInputs { span, .. } => *span,
        }
    }

    /// The error message, as the profile's error display renders it.
    pub fn to_string(&self) -> (m: String)
        ensures
            m@ == lower_error_message(*self),
    {
        let mut m = String::new();
        match self {
            LowerError::UnsupportedOp { op, .. } => {
                push_str(&mut m, "operation '");
                push_str(&mut m, op.as_str());
                push_str(&mut m, "' is not supported by this profile");
            },
            LowerError::UnsupportedPostOp { op, .. } => {
                push_str(&mut m, "fused post-op '");
                push_str(&mut m, op.as_str());
                push_str(&mut m, "' is not supported by this profile");
            },
            LowerError::ShapeNotConcrete { .. } => {
                push_str(&mut m, "internal: UIR shape was not fully resolved before lowering");
            },
            LowerError::TooManyInputs { n, max, .. } => {
                push_str(&mut m, "model has ");
                push_decimal(&mut m, *n as u64);
                push_str(&mut m, " inputs; at most ");
                push_decimal(&mut m, *max as u64);
                push_str(&mut m, " are supported");
            },
        }
        proof {
            assert(m@ =~= lower_error_message(*self));
        }
        m
    }
}

} // verus!
