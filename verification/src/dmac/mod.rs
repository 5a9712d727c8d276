//! The DMA controller: its register model, and the channels that work on it.

pub mod channel;
pub mod dma_controller;
pub mod registers;
