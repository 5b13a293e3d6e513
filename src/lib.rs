//! Flash access protocol for an SPI NOR device with erase-before-write
//! semantics, and the decisions of the firmware's cyclic control loop.

pub mod model;
pub mod device;
pub mod store;
pub mod laws;
pub mod control;
