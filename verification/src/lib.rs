//! Driver logic for the DMA controller of SAM D microcontrollers, with the
//! register-level helpers that surround it.
//!
//! Nothing in this crate touches hardware.  Every function computes, from
//! plain values, the state to keep and the register accesses to perform; the
//! caller carries them out.

pub mod dma;
pub mod gpio;
pub mod nvmctrl;
pub mod qspi;
