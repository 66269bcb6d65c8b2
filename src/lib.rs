//! Host-side boundary layer between a plugin and an embedded cell-based
//! bytecode machine: guest memory access, string cells, argument marshalling,
//! and calls in both directions.

pub mod cells;
pub mod cp1251;
pub mod error;
pub mod types;
pub mod image;
pub mod amx;
pub mod exports;
pub mod natives;
