# parastation_core

A PlayStation (PS1) emulator core written in Verus: the CPU interpreter, the system bus
and its devices, each with contracts that Verus proves.

## Layout

- `src/lib.rs`: `Ps1`, the machine (CPU, bus, instruction backend), PS-X EXE loading and
  the run loops.
- `src/cpu/`: the R3000A register file and load delays, instruction decoding (`ir.rs`),
  COP0 and the GTE geometry coprocessor (`gte.rs`, with its UNR division in `gte_div.rs`).
- `src/interpreter.rs`: what each instruction does, as one effect per instruction.
- `src/system_bus.rs`: address decoding, memory, DMA transfers and the event loop that
  services scheduled device events (`scheduler.rs`).
- Devices: `dma.rs`, `timers.rs`, `interrupt_controller.rs`, `cd_rom.rs` (with CUE sheet
  parsing and XA-ADPCM in `xadpcm.rs`), `mdec.rs`, `gpu/`, `spu/`, `sio0/` (joypad and
  memory card).
- `tests/`: tests of the library on concrete values.
- `app/`: the program around the library: argument handling, files, a headless or
  software-rendered display and WAV output.

Verification runs on `src/` only; `app/` is ordinary Rust.
