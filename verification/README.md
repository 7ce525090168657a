# v86_jit

The instruction generators of an x86 emulator's just-in-time compiler, which compiles
x86 instructions to WebAssembly, written in Verus.

A generator does not emit WebAssembly bytes itself. It records, in order, each call it
makes into the WebAssembly builder, into the code-generation helpers and into the
instruction-stream reader, as a value of `op::Op`. The recorded operations are then
replayed against the emulator (see `app/`). This makes what a generator produces an
ordinary value that contracts can speak about.

## What is proved

* Every generator states, in its `ensures`, the exact sequence of operations it appends
  and how many temporaries it numbers (`builder::emits`, `builder::builder_emits`).
* Every generator leaves the WebAssembly operand stack at the height it found it (or
  changes it by the stated amount), closes every block it opens, and releases every
  temporary it allocates, unless the code ends by leaving the generated function
  (`builder::restores_by`, `builder::balanced_by`, checked by the validator in `frame`).
* For the instructions whose code stays within plain WebAssembly arithmetic on the
  registers and the flag cells, `laws` proves what the code computes on the abstract
  machine of `semantics` (for example that `add` leaves the sum modulo 2^32 in the
  destination, that `xchg` swaps, that `cdq` copies the sign bit, that `bt` copies the
  selected bit into the carry flag). `memory_laws` does the same for the 32-bit
  read-modify-write forms, the moves and the exchange with guest memory (for example
  that a doubleword stored by `mov r/m32, r32` is read back by `mov r32, r/m32`).
  The machine also gives meaning to byte and word accesses (little-endian,
  with faults that stop the code), the stack pointer and `pop`, segment selectors,
  offsets and override prefixes, 64-bit values, the
  general-protection exception, and `if` blocks (through `run_blocks`), and reads the
  carry and zero flags through the runtime's computation, which it takes as given:
  `flag_laws` states `inc` and `dec`; `wide_laws` states `mul`, `cmpxchg`, the
  alignment check of the aligned SSE moves, and that `sub` undoes `add`.
  `interp` runs recorded code on concrete values with the same result as that machine.

## Layout

* `op`: the recorded operations; `consts`: register numbers, flags, sizes, prefixes.
* `frame`: the validator; `builder`: the recorder and the generation context.
* `operand`, `alu`: the shared arithmetic and logic generators.
* `templates`: the bodies shared by families of instructions.
* `decode`, `ops_alu`, `ops_stack`, `ops_group`, `ops_move`, `ops_control`, `fpu`,
  `ops_0f`, `sse`, `strings`: the instruction generators, by opcode.
* `semantics`, `laws`, `memory_laws`, `flag_laws`, `wide_laws`, `interp`: what the
  generated code computes.
