# chemboy

A Game Boy emulator core whose behaviour is stated in contracts and proved
with Verus.

- `src/gameboy/cpu/` — the processor. `semantics.rs` states what every
  instruction does to the registers and the bus, when it can run, and what a
  step, interrupt handling and a frame of steps do; `instructions.rs` holds
  one function per instruction, `alu.rs` the arithmetic and bit operations
  they share, `dispatch.rs` the decoding by opcode, `check.rs` the run-time
  checks that `cycle` makes before each step, and `laws.rs` the properties
  that relate several instructions (push and pop, call and return,
  interrupt servicing, inverse operations).
- `src/gameboy/interconnect.rs` — the memory bus, with its address map,
  DMA, and the checks of which accesses can be made.
- `src/gameboy/gfx/` — the picture processing unit and its frames.
- `src/gameboy/mbc/`, `cartridge.rs` — cartridges and bank controllers.
- `src/gameboy/timer.rs`, `joypad.rs`, `irq.rs`, `serial.rs` — the other
  parts behind the bus.
- `src/gameboy/opcodes.rs`, `disassembler.rs` — the instruction table and
  the disassembler.
- `app/` — a command-line front end that loads a ROM, runs frames and can
  save the last one as a PNG image.
