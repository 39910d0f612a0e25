//! Board support.

pub mod raspberrypi;

pub use raspberrypi::board_name;
