//! The CPU core of an 8-bit home console: register file, memory bus,
//! opcode table, addressing-mode resolver and instruction engine, with the
//! few picture-unit registers that the CPU writes through.
//!
//! Two choices of timing and addressing are fixed here:
//! - `JMP` through a pointer at the end of a page takes the pointer's high
//!   byte from the start of that page, as the original silicon does.
//! - A step costs the base cycle count of its opcode; taken branches and
//!   page-crossing indexed reads add nothing.
pub mod bus;
pub mod calculator;
pub mod controller;
pub mod oam;
pub mod opecode;
pub mod ppu_addr;
pub mod ppu_status;
pub mod registers;
pub mod semantics;
pub mod sprite_with_ctx;

pub use bus::{CpuBus, Ram};
pub use calculator::Calculator;
pub use controller::Controller;
pub use oam::Oam;
pub use opecode::{AddressingMode, Command, Opecode};
pub use ppu_addr::PpuAddr;
pub use ppu_status::PpuStatus;
pub use registers::{Registers, Status};
pub use semantics::ExecError;
pub use sprite_with_ctx::{Sprite, SpriteWithCtx, SpritesWithCtx};
