//! Loop scaffolding shared by the emitters: a labelled head that loads the
//! bound into a register, compares and exits, and the matching tail.

use vstd::prelude::*;
use crate::text::push_str;
use crate::arm64::frame::{movz_movk_text, push_movz_movk};

verus! {

/// `<label>:`, bound into `bound_reg`, `cmp <counter>, <bound_reg>`, exit.
pub open spec fn loop_head(
    label: Seq<char>,
    exit_jump: Seq<char>,
    counter: Seq<char>,
    bound_reg: Seq<char>,
    bound: nat,
    id: Seq<char>,
) -> Seq<char> {
    label + id + ":\n"@ + movz_movk_text(bound_reg, bound) + "    cmp     "@ + counter + ", "@ + bound_reg
        + "\n"@ + exit_jump + id + "\n"@
}

/// Counter step, back-edge branch, exit label.
pub open spec fn loop_tail(step: Seq<char>, back_jump: Seq<char>, exit_label: Seq<char>, id: Seq<char>) -> Seq<char> {
    step + back_jump + id + "\n"@ + exit_label + id + ":\n"@
}

pub fn push_loop_head(
    s: &mut String,
    label: &str,
    exit_jump: &str,
    counter: &str,
    bound_reg: &str,
    bound: u64,
    id: &str,
)
    requires
        bound <= u32::MAX,
    ensures
        final(s)@ == old(s)@ + loop_head(label@, exit_jump@, counter@, bound_reg@, bound as nat, id@),
{
    let mut t = label.to_owned();
    push_str(&mut t, id);
    push_str(&mut t, ":\n");
    push_movz_movk(&mut t, bound_reg, bound);
    push_str(&mut t, "    cmp     ");
    push_str(&mut t, counter);
    push_str(&mut t, ", ");
    push_str(&mut t, bound_reg);
    push_str(&mut t, "\n");
    push_str(&mut t, exit_jump);
    push_str(&mut t, id);
    push_str(&mut t, "\n");
    push_str(s, t.as_str());
}

pub fn push_loop_tail(s: &mut String, step: &str, back_jump: &str, exit_label: &str, id: &str)
    ensures
        final(s)@ == old(s)@ + loop_tail(step@, back_jump@, exit_label@, id@),
{
    let mut t = step.to_owned();
    push_str(&mut t, back_jump);
    push_str(&mut t, id);
    push_str(&mut t, "\n");
    push_str(&mut t, exit_label);
    push_str(&mut t, id);
    push_str(&mut t, ":\n");
    push_str(s, t.as_str());
}

} // verus!
