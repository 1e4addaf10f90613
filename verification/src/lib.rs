pub mod bit_utils;
pub mod controller;
pub mod apu;
pub mod mapper;
pub mod mappers;
pub mod cartridge;
pub mod ppu;
pub mod memory_bus;
pub mod cpu;
pub mod instructions;
pub mod nes;
