//! A model of a handheld console built around an ARM7TDMI-class processor:
//! the instruction engine for both instruction sets, the memory bus with its
//! mirrored regions, the interrupt controller, and the peripherals that are
//! stepped with the cycle counts the processor reports.

pub mod bits;
pub mod alu;
pub mod interrupt;
pub mod mem;
pub mod cpu;
pub mod swi;
pub mod arm;
pub mod thumb;
pub mod step;
pub mod laws;
pub mod timer;
pub mod dma;
pub mod input;
pub mod apu;
pub mod ppu;
pub mod gba;

pub use alu::AluOut;
pub use interrupt::{Interrupt, InterruptController};
pub use mem::Memory;
pub use cpu::{Cpu, CpsrFlags, Mode};
pub use timer::Timer;
pub use dma::{Dma, DmaTransferMode, DmaTransferType};
pub use input::{Input, KeyState};
pub use gba::Gba;
pub use ppu::{DisplayControl, Ppu, Sprite};
pub use apu::{Apu, DirectSoundChannel, NoiseChannel, SquareChannel, WaveChannel};
