# embive

A small RISC-V (RV32IMAC) virtual machine for embedded hosts, written in
Verus. Guest code is executed one instruction at a time against a memory
interface supplied by the host; every instruction's effect on the
registers, the program counter, the control/status registers and memory is
stated as a contract and proved.

## Layout

- `src/format.rs`, `src/format/` — the compact Embive instruction formats,
  with proofs that converting from RISC-V and back is lossless.
- `src/instruction.rs`, `src/instruction/` — plain RISC-V instruction
  formats and one executor per opcode group, plus the Embive instruction
  encodings (`instruction/embive.rs`).
- `src/engine.rs`, `src/engine/` — a RISC-V engine with a host system-call
  hook, step/run loop and interrupts.
- `src/interpreter.rs`, `src/interpreter/` — the Embive interpreter:
  memory model (`memory`), registers (`registers`), one `execute` per
  instruction (`decode_execute`), the run loop, interrupts, system calls and
  the debugger logic (`debugger`).
- `app/` — unverified glue: displayable error types and a GDB remote-stub
  target built on `gdbstub`, which drives the verified debugger logic.
- `tests/` — executable tests.

Each module states its laws as public proof functions (names starting with
`lemma_`), e.g. that a store followed by a load returns the stored value,
that an interrupt followed by `mret` restores the machine's control state,
and that format conversions round-trip.
