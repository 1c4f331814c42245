//! The hardware-agnostic IR that the profiles lower: a list of models,
//! each a list of nodes in topological order. Operands of an op always
//! name earlier nodes; each node carries its concrete output shape.

use vstd::prelude::*;
use crate::types::Span;

verus! {

/// Standard operations, with the attributes the profiles read.
#[derive(Debug, Clone, Copy, PartialEq, Eq, Structural)]
pub enum StdOp {
    Linear { bias: bool },
    Relu,
    Dropout,
    Softmax,
    Matmul { transpose_b: bool },
    /// Multiply by a scalar, given as the bit pattern of an f32.
    MulScalar { scalar_bits: u32 },
    Add,
    LayerNorm { affine: bool },
}

/// Operations fused into the tail of a `Linear` by the optimisation passes.
#[derive(Debug, Clone, Copy, PartialEq, Eq, Structural)]
pub enum PostOp {
    Relu,
    SoftmaxRow,
}

#[derive(Debug, Clone)]
pub enum NodeKind {
    Input,
    Op { op: StdOp, operands: Vec<usize>, fused_post_ops: Vec<PostOp> },
}

#[derive(Debug, Clone)]
pub struct Node {
    pub kind: NodeKind,
    /// Concrete output shape.
    pub shape: Vec<u64>,
    pub source_span: Span,
}

#[derive(Debug, Clone)]
pub struct UirModel {
    pub name: String,
    pub nodes: Vec<Node>,
    /// Input node ids, in declaration order.
    pub inputs: Vec<usize>,
    /// The node whose value is the model's output.
    pub output: usize,
    pub source_span: Span,
}

#[derive(Debug, Clone)]
pub struct Uir {
    pub models: Vec<UirModel>,
}

/// Product of the dimensions of a shape.
pub open spec fn product(s: Seq<u64>) -> int
    decreases s.len(),
{
    if s.len() == 0 {
        1
    } else {
        product(s.drop_last()) * s.last()
    }
}

pub proof fn lemma_product_nonneg(s: Seq<u64>)
    ensures
        product(s) >= 0,
    decreases s.len(),
{
    if s.len() > 0 {
        lemma_product_nonneg(s.drop_last());
        let p = product(s.drop_last());
        let l = s.last() as int;
        assert(p * l >= 0) by (nonlinear_arith)
            requires
                p >= 0,
                l >= 0,
        ;
    }
}

/// Every prefix product of the shape fits in a `u64`.
pub open spec fn product_fits(s: Seq<u64>) -> bool {
    forall|k: int| 0 <= k <= s.len() ==> #[trigger] product(s.take(k)) <= u64::MAX
}

/// True iff the node runs a softmax: a standalone one, or one fused into a
/// `Linear` as a row-wise post-op.
pub open spec fn node_has_softmax(n: Node) -> bool {
    match n.kind {
        NodeKind::Op { op, fused_post_ops, .. } =>
            op == StdOp::Softmax || fused_post_ops@.contains(PostOp::SoftmaxRow),
        NodeKind::Input => false,
    }
}

pub open spec fn model_has_softmax(m: UirModel) -> bool {
    exists|i: int| 0 <= i < m.nodes@.len() && #[trigger] node_has_softmax(m.nodes@[i])
}

/// Product of the first `k` dimensions of a shape.
pub fn shape_prefix_elements(shape: &Vec<u64>, k: usize) -> (r: u64)
    requires
        k <= shape@.len(),
        product_fits(shape@),
    ensures
        r == product(shape@.take(k as int)),
{
    let mut acc: u64 = 1;
    let mut i: usize = 0;
    assert(shape@.take(0) =~= Seq::<u64>::empty());
    while i < k
        invariant
            i <= k <= shape@.len(),
            product_fits(shape@),
            acc == product(shape@.take(i as int)),
        decreases k - i,
    {
        assert(shape@.take(i + 1).drop_last() =~= shape@.take(i as int));
        assert(product(shape@.take(i + 1)) <= u64::MAX);
        acc = acc * shape[i];
        i = i + 1;
    }
    acc
}

/// Number of elements of a shape (`shape.iter().product::<u64>()`).
pub fn shape_elements(shape: &Vec<u64>) -> (r: u64)
    requires
        product_fits(shape@),
    ensures
        r == product(shape@),
{
    let r = shape_prefix_elements(shape, shape.len());
    assert(shape@.take(shape@.len() as int) =~= shape@);
    r
}

fn post_ops_have_softmax_row(ops: &Vec<PostOp>) -> (r: bool)
    ensures
        r == ops@.contains(PostOp::SoftmaxRow),
{
    let mut i: usize = 0;
    while i < ops.len()
        invariant
            i <= ops@.len(),
            forall|j: int| 0 <= j < i ==> ops@[j] != PostOp::SoftmaxRow,
        decreases ops@.len() - i,
    {
        if ops[i] == PostOp::SoftmaxRow {
            assert(ops@[i as int] == PostOp::SoftmaxRow);
            return true;
        }
        i = i + 1;
    }
    false
}

impl UirModel {
    /// True iff some node of the model runs a softmax (standalone or fused).
    pub fn has_softmax(&self) -> (r: bool)
        ensures
            r == model_has_softmax(*self),
    {
        let mut i: usize = 0;
        while i < self.nodes.len()
            invariant
                i <= self.nodes@.len(),
                forall|j: int| 0 <= j < i ==> !node_has_softmax(#[trigger] self.nodes@[j]),
            decreases self.nodes@.len() - i,
        {
            let found = match &self.nodes[i].kind {
                NodeKind::Op { op, fused_post_ops, .. } =>
                    *op == StdOp::Softmax || post_ops_have_softmax_row(fused_post_ops),
                NodeKind::Input => false,
            };
            if found {
                assert(node_has_softmax(self.nodes@[i as int]));
                return true;
            }
            i = i + 1;
        }
        false
    }
}

pub open spec fn uir_has_softmax(u: Uir) -> bool {
    exists|i: int| 0 <= i < u.models@.len() && #[trigger] model_has_softmax(u.models@[i])
}

impl Uir {
    /// True iff some model of the IR runs a softmax.
    pub fn has_softmax(&self) -> (r: bool)
        ensures
            r == uir_has_softmax(*self),
    {
        let mut i: usize = 0;
        while i < self.models.len()
            invariant
                i <= self.models@.len(),
                forall|j: int| 0 <= j < i ==> !model_has_softmax(#[trigger] self.models@[j]),
            decreases self.models@.len() - i,
        {
            if self.models[i].has_softmax() {
                return true;
            }
            i = i + 1;
        }
        false
    }
}

} // verus!
