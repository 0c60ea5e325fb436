//! Hardware abstraction layer for an STM32F411-class microcontroller.
//!
//! The heart of the crate is the DMA subsystem: a shared buffer that may be
//! handed to the DMA engine for the duration of a transfer (`dma2::Buffer`),
//! a double-buffered circular capture mode (`dma2::CircBuffer`), and an owned
//! transfer handle (`dma::Transfer`). All hardware state is modelled as plain
//! register values (`dma2::DmaRegisters` and friends); the binary that runs on
//! the device mirrors those values into the memory-mapped registers and feeds
//! status flags back, while the state machines themselves are verified here.

pub mod delay;
pub mod dma;
pub mod dma2;
pub mod gpio;
pub mod led;
pub mod pwm;
pub mod pwm2;
pub mod rcc;
pub mod serial;
pub mod spi;
pub mod spi2;
pub mod time;
pub mod timer;
pub mod tlc5955;
pub mod usart;
