//! Verified driver logic for a dual-channel PWM peripheral with dead-band
//! generation, modelled on a memory-mapped register block.

pub mod bits;
pub mod calls;
pub mod config;
pub mod controller;
pub mod registers;
pub mod system;
