//! Readers for registers of the non-volatile memory controller.

pub mod param;
