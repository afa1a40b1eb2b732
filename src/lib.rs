//! A cycle-stepped emulator core for the DMG/CGB handheld: SM83 CPU, memory bus,
//! cartridge bank controllers, timer, joypad, serial stub, PPU and APU.
pub mod alu;
pub mod registers;
pub mod interrupts;
pub mod timer;
pub mod header;
pub mod mbc;
pub mod ram;
pub mod serial;
pub mod joypad;
pub mod ppu;
pub mod apu;
pub mod bus;
pub mod cpu;
pub mod gbc;
