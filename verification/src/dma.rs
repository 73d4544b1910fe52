//! The DMA controller driver: channel allocation, transfer descriptors,
//! channel configuration and the dispatch of completion interrupts.

pub mod bits;
pub mod channel;
pub mod config;
pub mod descriptor;
pub mod store;
pub mod registers;
pub mod resource;
pub mod engine;
pub mod controller;
