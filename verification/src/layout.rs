//! Buffer placement shared by both profiles. Every op node gets a place
//! for its output: the caller's output buffer for the model output, its
//! operand's buffer for the in-place ops (ReLU, dropout, scalar multiply),
//! a fresh stack buffer otherwise. Stack buffers are laid out one after
//! another from a profile-chosen start offset.

use vstd::prelude::*;
use crate::types::BufferLoc;
use crate::uir::{NodeKind, StdOp, UirModel, product, product_fits, shape_elements, lemma_product_nonneg};

verus! {

/// `x` rounded up to a multiple of 16.
pub open spec fn round_up16(x: int) -> int {
    ((x + 15) / 16) * 16
}


/// Bytes per f32 element.
pub const BYTES_PER_ELEMENT: usize = 4;

/// Result of buffer assignment.
#[derive(Debug, Clone)]
pub struct BufferAssignment {
    /// Placement of each node, indexed by node id.
    pub locs: Vec<BufferLoc>,
    /// Stack bytes of the frame (spill reserve and buffers), rounded up to 16.
    pub stack_bytes: usize,
}

/// Ops whose output is written in place over their first operand.
pub open spec fn is_alias_op(op: StdOp) -> bool {
    match op {
        StdOp::Relu | StdOp::Dropout | StdOp::MulScalar { .. } => true,
        _ => false,
    }
}

/// The first position of `id` in `inputs`, or `inputs.len()` if absent.
pub open spec fn input_position(inputs: Seq<usize>, id: usize) -> nat
    decreases inputs.len(),
{
    if inputs.len() == 0 {
        0
    } else if inputs[0] == id {
        0
    } else {
        1 + input_position(inputs.drop_first(), id)
    }
}

/// True iff node `i` gets a fresh stack buffer.
pub open spec fn node_allocates(m: UirModel, i: int) -> bool {
    match m.nodes@[i].kind {
        NodeKind::Op { op, .. } => i != m.output && !is_alias_op(op),
        NodeKind::Input => false,
    }
}

/// Size in bytes of node `i`'s output.
pub open spec fn node_bytes(m: UirModel, i: int) -> int {
    product(m.nodes@[i].shape@) * 4
}

/// The stack offset of the next buffer after nodes `0..i` are placed, the
/// first buffer at `start`.
pub open spec fn offset_from(m: UirModel, start: nat, i: nat) -> int
    decreases i,
{
    if i == 0 {
        start as int
    } else {
        offset_from(m, start, (i - 1) as nat) + if node_allocates(m, i - 1) {
            node_bytes(m, i - 1)
        } else {
            0
        }
    }
}

/// The placement buffer assignment gives node `i`.
pub open spec fn placement(m: UirModel, start: nat, i: int) -> BufferLoc {
    match m.nodes@[i].kind {
        NodeKind::Input => BufferLoc::InputReg(input_position(m.inputs@, i as usize) as usize),
        NodeKind::Op { op, operands, .. } => if i == m.output {
            BufferLoc::OutputReg
        } else if is_alias_op(op) {
            BufferLoc::Alias(operands@[0])
        } else {
            BufferLoc::StackOffset(offset_from(m, start, i as nat) as usize)
        },
    }
}

/// The frame's stack bytes: the end of the last buffer, rounded up to 16.
pub open spec fn stack_bytes_from(m: UirModel, start: nat) -> int {
    round_up16(offset_from(m, start, m.nodes@.len()))
}

/// What buffer assignment needs of a model: input nodes are listed as
/// inputs, in-place ops have an operand, and every size and offset fits.
pub open spec fn assignable_from(m: UirModel, start: nat) -> bool {
    &&& forall|i: int| 0 <= i < m.nodes@.len() ==> #[trigger] node_assignable(m, i)
    &&& offset_from(m, start, m.nodes@.len()) + 15 <= usize::MAX
}

pub open spec fn node_assignable(m: UirModel, i: int) -> bool {
    match m.nodes@[i].kind {
        NodeKind::Input => m.inputs@.contains(i as usize),
        NodeKind::Op { op, operands, .. } => {
            &&& (is_alias_op(op) ==> operands@.len() >= 1)
            &&& (node_allocates(m, i) ==> product_fits(m.nodes@[i].shape@)
                && node_bytes(m, i) <= usize::MAX)
        },
    }
}

pub proof fn lemma_offset_monotone(m: UirModel, start: nat, i: nat, j: nat)
    requires
        i <= j <= m.nodes@.len(),
        forall|k: int| 0 <= k < m.nodes@.len() ==> #[trigger] node_assignable(m, k),
    ensures
        offset_from(m, start, i) <= offset_from(m, start, j),
    decreases j - i,
{
    if i < j {
        lemma_offset_monotone(m, start, i, (j - 1) as nat);
        lemma_product_nonneg(m.nodes@[j - 1].shape@);
    }
}

fn input_position_exec(inputs: &Vec<usize>, id: usize) -> (p: usize)
    requires
        inputs@.contains(id),
    ensures
        p == input_position(inputs@, id),
        p < inputs@.len(),
        inputs@[p as int] == id,
{
    let mut i: usize = 0;
    assert(inputs@.skip(0) =~= inputs@);
    while i < inputs.len()
        invariant
            i <= inputs@.len(),
            inputs@.contains(id),
            forall|j: int| 0 <= j < i ==> inputs@[j] != id,
            input_position(inputs@, id) == i + input_position(inputs@.skip(i as int), id),
        decreases inputs@.len() - i,
    {
        assert(inputs@.skip(i as int).drop_first() =~= inputs@.skip(i + 1));
        if inputs[i] == id {
            return i;
        }
        i = i + 1;
    }
    assert(false);
    0
}

/// Assigns a placement to every node, stack buffers from offset `start`
/// on, and computes the frame's stack bytes.
pub fn assign_buffers_from(model: &UirModel, start: usize) -> (a: BufferAssignment)
    requires
        assignable_from(*model, start as nat),
    ensures
        a.locs@.len() == model.nodes@.len(),
        forall|i: int| 0 <= i < model.nodes@.len() ==> #[trigger] a.locs@[i] == placement(*model, start as nat, i),
        a.stack_bytes == stack_bytes_from(*model, start as nat),
{
    let n = model.nodes.len();
    let mut locs: Vec<BufferLoc> = Vec::new();
    let mut stack_offset: usize = start;
    let mut id: usize = 0;
    while id < n
        invariant
            n == model.nodes@.len(),
            assignable_from(*model, start as nat),
            id <= n,
            locs@.len() == id,
            forall|i: int| 0 <= i < id ==> #[trigger] locs@[i] == placement(*model, start as nat, i),
            stack_offset == offset_from(*model, start as nat, id as nat),
        decreases n - id,
    {
        let node = &model.nodes[id];
        assert(node_assignable(*model, id as int));
        proof {
            lemma_offset_monotone(*model, start as nat, (id + 1) as nat, n as nat);
        }
        let loc = match &node.kind {
            NodeKind::Input => BufferLoc::InputReg(input_position_exec(&model.inputs, id)),
            NodeKind::Op { op, operands, .. } => {
                if id == model.output {
                    BufferLoc::OutputReg
                } else {
                    match op {
                        StdOp::Relu | StdOp::Dropout | StdOp::MulScalar { .. } => BufferLoc::Alias(operands[0]),
                        _ => {
                            let elements = shape_elements(&node.shape);
                            let size_bytes = (elements as usize) * BYTES_PER_ELEMENT;
                            let loc = BufferLoc::StackOffset(stack_offset);
                            stack_offset = stack_offset + size_bytes;
                            loc
                        },
                    }
                }
            },
        };
        locs.push(loc);
        id = id + 1;
    }
    let t = stack_offset + 15;
    let stack_bytes = t & !15usize;
    assert(stack_bytes == t - t % 16) by (bit_vector)
        requires
            stack_bytes == t & !15usize,
    ;
    BufferAssignment { locs, stack_bytes }
}

/// An input node's position is within the input list.
pub proof fn lemma_input_position(inputs: Seq<usize>, id: usize)
    requires
        inputs.contains(id),
    ensures
        input_position(inputs, id) < inputs.len(),
    decreases inputs.len(),
{
    if inputs[0] != id {
        let k = choose|k: int| 0 <= k < inputs.len() && inputs[k] == id;
        assert(inputs.drop_first()[k - 1] == id);
        lemma_input_position(inputs.drop_first(), id);
    }
}

/// Stack buffers never overlap and lie within the frame: an earlier
/// buffer ends before a later one begins, every buffer starts at or above
/// `start`, the last ends within the frame's stack bytes, and those are a
/// multiple of 16.
pub proof fn lemma_stack_buffers_disjoint(m: UirModel, start: nat, i: int, j: int)
    requires
        assignable_from(m, start),
        0 <= i < j < m.nodes@.len(),
        node_allocates(m, i),
        node_allocates(m, j),
    ensures
        placement(m, start, i) matches BufferLoc::StackOffset(oi) && placement(m, start, j) matches BufferLoc::StackOffset(oj)
            && start <= oi && oi + node_bytes(m, i) <= oj && oj + node_bytes(m, j) <= stack_bytes_from(m, start),
        stack_bytes_from(m, start) % 16 == 0,
{
    let n = m.nodes@.len() as nat;
    lemma_offset_monotone(m, start, 0, i as nat);
    lemma_offset_monotone(m, start, (i + 1) as nat, j as nat);
    lemma_offset_monotone(m, start, (j + 1) as nat, n);
    lemma_offset_monotone(m, start, 0, n);
    lemma_product_nonneg(m.nodes@[i].shape@);
    lemma_product_nonneg(m.nodes@[j].shape@);
    let oi = offset_from(m, start, i as nat);
    let oj = offset_from(m, start, j as nat);
    assert(offset_from(m, start, (i + 1) as nat) == oi + node_bytes(m, i));
    assert(offset_from(m, start, (j + 1) as nat) == oj + node_bytes(m, j));
    assert(placement(m, start, i) == BufferLoc::StackOffset(oi as usize));
    assert(placement(m, start, j) == BufferLoc::StackOffset(oj as usize));
    let x = offset_from(m, start, n);
    assert(start <= oi && oi + node_bytes(m, i) <= oj && oj + node_bytes(m, j) <= x <= usize::MAX);
    lemma_round_up16(x);
}

pub proof fn lemma_round_up16(x: int)
    requires
        x >= 0,
    ensures
        x <= round_up16(x),
        round_up16(x) % 16 == 0,
{
    let q = (x + 15) / 16;
    assert(q * 16 <= x + 15 < q * 16 + 16) by (nonlinear_arith)
        requires
            q == (x + 15) / 16,
            x >= 0,
    ;
    assert((q * 16) % 16 == 0) by (nonlinear_arith);
}

} // verus!
