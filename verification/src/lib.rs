pub mod hex;
pub mod rom;
pub mod controller;
pub mod ppu;
pub mod memory;
pub mod cpu;
pub mod decoder;
pub mod disassembler;
pub mod interpreter;
pub mod state;
pub mod renderer;
pub mod software;
pub mod delimiter;
pub mod messages;
pub mod hardware;
pub mod instance;
