//! Syntax-tree model shared by a compiler front end: source spans, the
//! phase-generic tree shapes, operator precedence, bit-segment options,
//! backend-conditional statement groups and node lookup by offset.

pub mod span;
pub mod ops;
pub mod bits;
pub mod types;
pub mod pattern;
pub mod guard;
pub mod located;
pub mod expr;
pub mod module;
