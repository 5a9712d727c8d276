//! Verified core of a hardware-abstraction layer for the ATSAMD family of
//! microcontrollers: the channels of the DMA controller and the clock sources
//! of the clock tree.
//!
//! The registers of a peripheral have rules of use that only the datasheet
//! states: a channel is reset before it is configured, a clock is not stopped
//! while something runs on it, a write to an oscillator is waited for before
//! the next. Here the rules are types and contracts. A handle stands for a
//! peripheral and there is one of each; an operation that the state of the
//! peripheral does not allow is not a method of its handle, or asks in its
//! `requires` for what makes it allowed.
//!
//! The drivers work on models of the registers ([`dmac::registers`],
//! [`clock::dfll`]) that keep a journal of every access, in order. A contract
//! says what the registers hold after an operation and which accesses it made.
//! What the hardware clears by itself reads as set for a number of reads that
//! the model is given, so that every wait of a driver ends.

pub mod clock;
pub mod dmac;
pub mod pac;
pub mod time;
mod typelevel;
pub mod wifi;
