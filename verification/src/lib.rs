//! Core of an instruction-set emulator for the ppcpu, a 16-bit processor
//! with paged memory, privileged supervisor registers, vectored interrupts
//! and a Wishbone-style peripheral bus.
//!
//! The crate models the machine deterministically: every component carries a
//! mathematical view, and each executable step is specified against a spec
//! function over those views.

pub mod bus;
pub mod cpu;
pub mod debugger;
pub mod instr;
pub mod irqc;
pub mod laws;
pub mod ops;
pub mod ram;
pub mod rom;
pub mod sd;
pub mod sreg;
pub mod system;
pub mod uart;
