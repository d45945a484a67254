//! A verified driver for an SPI master peripheral.

pub mod clock;
pub mod gpio;
pub mod outside;
pub mod peripheral;
pub mod pins;
pub mod rcc;
pub mod registers;
pub mod spi;
