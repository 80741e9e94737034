//! A CHIP-8 virtual machine: memory, registers, call stack, framebuffer,
//! timers and keyboard latch, advanced one instruction at a time.

pub mod font;
pub mod screen;
pub mod machine;
pub mod instruction;
pub mod draw;
pub mod engine;
pub mod laws;
