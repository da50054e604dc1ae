# emulateme

A NES emulator core whose logic is verified with Verus, and a TCP server
around it.

- `src/` — the verified library: the iNES cartridge format (`rom`), the
  6502 CPU (`cpu`, `decoder`, `interpreter`), the memory map (`memory`), the
  PPU's registers and memories (`ppu`), joypads (`controller`), the software
  renderer (`renderer`, `software`), save states (`state`), the
  disassembler, the stream framing and protocol messages (`delimiter`,
  `messages`), the data a GPU renderer uploads, its beam timing and
  the square a window shows the picture in (`hardware`), and one running
  machine as the server drives it (`instance`).
- `tests/` — tests of the library on concrete values.
- `app/` — the server: reads a ROM, listens on 127.0.0.1:9013, and serves one
  machine per connection, with the protocol's wire encoding (prost) and the
  save-state encoding (postcard).

Run the server with the path of a ROM as its one argument.
