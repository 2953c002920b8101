pub mod util;
pub mod rom;
pub mod ppu;
pub mod apu;
pub mod pad;
pub mod bus;
pub mod cpu;
pub mod nes;
