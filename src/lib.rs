//! Checked hand-over of an owned value across a boundary that only understands raw addresses.
//!
//! A [`PassableContainer`] owns a [`Passable`] value. Passing it turns the value into a raw
//! address and a [`PassableGuard`] stamped with that same address; the guard is the only way
//! back to an owned value, and it accepts nothing but the address it was stamped with.

pub mod container;
pub mod error;
pub mod passable;

pub use container::{PassableContainer, PassableGuard};
pub use error::ReconstituteError;
pub use passable::Passable;

