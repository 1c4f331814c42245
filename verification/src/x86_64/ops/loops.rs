//! Loop scaffolding shared by the emitters: a labelled head that loads the
//! bound into `%r10`, compares and exits, and the matching tail.

use vstd::prelude::*;
use crate::text::push_str;
use crate::x86_64::frame::{push_imm32_to_r10, imm32_to_r10_text};

verus! {

/// `<label>:`, bound into `%r10`, `cmpq %r10, <counter>`, exit branch.
pub open spec fn loop_head(
    label: Seq<char>,
    exit_jump: Seq<char>,
    counter: Seq<char>,
    bound: nat,
    id: Seq<char>,
) -> Seq<char> {
    label + id + ":\n"@ + imm32_to_r10_text(bound) + "    cmpq    %r10, "@ + counter + "\n"@
        + exit_jump + id + "\n"@
}

/// Counter step, back-edge jump, exit label.
pub open spec fn loop_tail(
    step: Seq<char>,
    back_jump: Seq<char>,
    exit_label: Seq<char>,
    id: Seq<char>,
) -> Seq<char> {
    step + back_jump + id + "\n"@ + exit_label + id + ":\n"@
}

pub fn push_loop_head(
    s: &mut String,
    label: &str,
    exit_jump: &str,
    counter: &str,
    bound: u32,
    id: &str,
)
    ensures
        final(s)@ == old(s)@ + loop_head(label@, exit_jump@, counter@, bound as nat, id@),
{
    let mut t = label.to_owned();
    push_str(&mut t, id);
    push_str(&mut t, ":\n");
    push_imm32_to_r10(&mut t, bound);
    push_str(&mut t, "    cmpq    %r10, ");
    push_str(&mut t, counter);
    push_str(&mut t, "\n");
    push_str(&mut t, exit_jump);
    push_str(&mut t, id);
    push_str(&mut t, "\n");
    push_str(s, t.as_str());
}

pub fn push_loop_tail(
    s: &mut String,
    step: &str,
    back_jump: &str,
    exit_label: &str,
    id: &str,
)
    ensures
        final(s)@ == old(s)@ + loop_tail(step@, back_jump@, exit_label@, id@),
{
    let mut t = step.to_owned();
    push_str(&mut t, back_jump);
    push_str(&mut t, id);
    push_str(&mut t, "\n");
    push_str(&mut t, exit_label);
    push_str(&mut t, id);
    push_str(&mut t, ":\n");
    push_str(s, t.as_str());
}

} // verus!
