pub mod cpu;
pub mod instructions;
pub mod mapper;
pub mod memory;
pub mod nesfile;
pub mod nrom;
pub mod rom;
