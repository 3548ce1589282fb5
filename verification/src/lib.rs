//! Why is this function unsafe?
//!
//! The engine answers that question for one function of a compiled unit. It
//! classifies the operations in the function's typed body that need an
//! unsafe context, and where the only such operation is a call to another
//! unsafe function of the unit, it goes on in the callee, until it finds a
//! cause that is no such call.
//!
//! - [`unit`] and [`thir`] hold what the engine reads of a compilation: the
//!   definitions with their paths, and their typed bodies.
//! - [`selector`] reads the path by which the user names the function.
//! - [`safe`] finds the function, classifies bodies, searches for the cause
//!   and makes the report.
//! - [`handoff`] reads what the outer tool hands to the analysis.
//! - [`opts`] and [`error`] hold the options and the failures.

pub mod error;
pub mod handoff;
pub mod opts;
pub mod safe;
pub mod selector;
pub mod text;
pub mod thir;
pub mod unit;

pub use handoff::{
    ENV_VAR_WHYNOT_COLORING, ENV_VAR_WHYNOT_MODE, ENV_VAR_WHYNOT_SELECTOR,
    WHYNOT_RUSTC_WRAPPER_ERROR,
};
pub use selector::parse_selector;
