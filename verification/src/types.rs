//! The data that describes one logical connection.

pub mod address;
pub mod state;
