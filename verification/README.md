# fc_core

The core of an NES/Famicom emulator as a Verus library: cartridge loading
and the cartridge-side buses, well over a hundred mapper boards, the 2A03
CPU's arithmetic and interrupt bookkeeping, the APU's channels and frame
sequencer, the DMA arbiter, controllers, cheats, a disassembler, a
breakpoint-condition language, an event log and an execution heatmap. Every
function in `src/` carries a contract that Verus proves, with one
exception: `crc::crc32` calls `crc32fast::hash`, and its contract (the
result is the IEEE CRC-32 that `crc32_of` defines bit by bit) is trusted,
not proved.

Layout:

- `src/lib.rs` — module list.
- `src/types.rs` — mirroring, regions, buttons.
- `src/cartridge.rs` — iNES / NES 2.0 header parsing, PRG/CHR/PRG-RAM
  resolution, CPU and PPU access through the board, Game Genie patches.
- `src/mapper.rs`, `src/mapper/` — the boards, one module per family, and
  `kind.rs`, the `Mapper` enum that dispatches to them and builds a board
  from a mapper number.
- `src/cpu.rs`, `src/cpu/step.rs` — the 2A03: registers, ALU and
  interrupt polling, and the instruction executor (official and common
  unofficial opcodes, cycle by cycle with the dummy accesses and the
  cycles stolen by OAM DMA) on a flat 64 KiB bus, against the instruction
  semantics `step_spec`.
- `src/apu.rs`, `src/blip.rs`, `src/dma.rs`, `src/clock.rs`, `src/input.rs`
  — console parts that do not depend on the picture unit (`blip.rs` is the
  band-limited output buffer; its rate factor is computed by the caller).
- `src/cheat.rs`, `src/disasm.rs`, `src/expr.rs`, `src/debug.rs`,
  `src/event.rs`, `src/heatmap.rs`, `src/script.rs` — debugging and
  scripting helpers.
- `tests/` — executable tests against the compiled library.
- `app/main.rs` — a small command-line front end (ROM info, disassembly,
  scripted input checks).

Boards not in this library: mapper 4 (MMC3) and the other boards built on
the MMC1–MMC5, VRC4 and RAMBO-1 families, and mappers 35, 43 and 106, which
rest on a shared CPU-cycle IRQ counter and PPU A12 edge filter; their
implementations are not part of this code base, so `Mapper::new` reports
these numbers as unsupported. For the same reason the PPU-bus capability
cache is exercised with a mapper 117 board (which also hooks the PPU bus)
rather than with an MMC3 image. The picture unit, the system bus that ties
it to the CPU, and save states are not here either; the CPU executor runs
on `FlatBus`: a plain memory with NMI and IRQ lines, sprite memory, and
the DMA arbiter, to which the CPU yields its halt-able cycles while an OAM
transfer (requested by a write to $4014) runs.
