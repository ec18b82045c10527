# cpu6502

A verified core of a 6502 processor, written in Verus.

- `src/instructions.rs` — addressing modes and the instruction table.
- `src/cpu.rs` — the processor: its mathematical model (`CpuState`), the
  specification of every instruction and of one fetch-and-execute cycle
  (`step_spec`), and the executable `CPU` whose methods are proved against it.
- `src/laws.rs` — properties that span several operations: read-after-write,
  word round trips, load-then-reset, the ADC carry and overflow rules, flag
  preservation, and determinism of a run.
- `tests/` — executable tests; `app/` — a small program that runs the core.
