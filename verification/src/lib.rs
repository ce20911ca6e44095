//! The host side of a bridge to a BQN runtime: how the tag of a foreign value
//! is read, which conversions to host values it admits, and the order in which
//! the runtime is questioned so that nothing is read from a value of the wrong
//! shape.
//!
//! The runtime itself is reached by a driver outside this library.  The driver
//! puts each question that a [`convert::Conversion`] asks to the runtime and
//! hands back the answer; this library decides what is asked next and what the
//! conversion yields.

pub mod convert;
pub mod error;
pub mod model;
pub mod tag;
pub mod text;
