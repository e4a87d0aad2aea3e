//! A model of a deterministic, interrupt-free cooperative kernel for a
//! single-core microcontroller: a fixed-timing round-robin task scheduler,
//! a stack-based context-switch bookkeeping model with a table of
//! long-running cooperative processes, and a count-based software-timer
//! service, together with the register-image abstractions (clock control,
//! GPIO) that the kernel's demo workload drives.
//!
//! All hardware side effects are represented as plain data: peripheral
//! register blocks are structs of `u32` register images, and the free-running
//! hardware counter that paces the scheduler is read by the surrounding
//! program, which hands its readings in as arguments.

pub mod gpio;
pub mod ledm;
pub mod rcc;
pub mod regs;
pub mod rte;
pub mod sched;
pub mod swtimer;
