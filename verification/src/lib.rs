//! fc_core: the verified logic of a Famicom / NES emulator core — cartridge
//! (iNES / NES 2.0) parsing, mapper bank translation, the Ricoh 2A03 CPU
//! (official and common unofficial opcodes, cycle-accurate bus accesses,
//! interrupt polling) on a flat memory bus, the APU, DMA arbitration,
//! cheats, debugger breakpoints and condition expressions, event logging,
//! the access heatmap and controller ports.

pub mod types;

pub use types::{Button, Mirroring, Region};
pub mod mapper;
pub mod cpu;
pub mod apu;
pub mod bytes;
pub mod cartridge;
pub mod cheat;
pub mod crc;
pub mod input;
pub mod event;
pub mod text;
pub mod disasm;
pub mod heatmap;
pub mod expr;
pub mod debug;
pub mod script;
pub mod dma;
pub mod clock;
pub mod blip;
