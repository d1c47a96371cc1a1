//! Analog comparator driver: input routing, configuration and window mode
//! over a model of the comparator control/status registers.

pub mod comparator;
pub mod dac;
pub mod gpio;
pub mod rcc;
pub mod registers;
