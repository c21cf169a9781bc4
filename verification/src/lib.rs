//! Fatal-error reporting for a bare-metal runtime.
//!
//! This crate implements the single code path taken when a program detects an
//! unrecoverable internal fault: it materializes a human-readable diagnostic
//! from a format template and a source location, renders a structured banner
//! to two output surfaces, and moves into a terminal halt state from which no
//! transition leads back. The banner text, the order of the device writes and
//! the finality of the halt state are all stated as contracts and verified.

pub mod laws;
pub mod report;
pub mod text;

pub use crate::report::{begin_panic, begin_panic_fmt};
