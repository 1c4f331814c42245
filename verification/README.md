# nfl_profiles

Verified code generators for NeuralForge's Universal IR: the `x86_64`
profile (Linux ELF, SysV AMD64, AT&T syntax, scalar SSE2) and the `arm64`
profile (Mach-O, AAPCS64, scalar FP). Each lowers every model of an IR to
one assembly function `nfl_forward_<model>` and reports its signature and
packed params layout.

Every emitter is specified by the exact text it appends, as a spec
function over `Seq<char>`, and proved against it with Verus. On top of the
texts the library proves laws such as:

- stack buffers never overlap and the frame stays 16-byte aligned;
- the params layout tiles the params buffer in node order;
- save and restore blocks around the softmax loops mirror each other, and
  every epilogue undoes its prologue;
- a prologue saves the callee-saved registers (`%rbx`, `%r12`..`%r15`;
  `d8`/`d9`) exactly when the register-set flag asks for them;
- the element-wise loops, layernorm and matmul never write an argument
  register in use, at any number of inputs (`*/arg_writes.rs`);
- the reciprocal bits embedded for layernorm are IEEE round-to-nearest-even.

Layout:

- `src/text.rs`, `types.rs`, `uir.rs`: text rendering, result types, the IR.
- `src/layout.rs`, `lowering.rs`: placement, validation, signatures.
- `src/f32bits.rs`, `exp_pool.rs`: constants computed or embedded.
- `src/x86_64/`, `src/arm64/`: ABI, buffers, frames, emitters, the
  per-model walk.
- `tests/`: concrete scenarios, run against the compiled library.
- `app/`: what stays outside the verified library (`Display`, `f64` scalars).
