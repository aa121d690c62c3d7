//! An arena-managed store of symbolic expressions: atoms and cons cells that
//! refer to one another through copyable handles.
//!
//! The [`arena`] owns every node and issues the handles; [`exp`] holds the
//! node model and [`graph`] the operations that build, read, change, walk
//! and render expressions. [`bounds`] and [`laws`] state and prove what
//! holds of the store as a whole. [`list`] is a linked stack of strings and
//! [`args`] a helper for argument lists.

pub mod args;
pub mod arena;
pub mod atom;
pub mod bounds;
pub mod convert;
pub mod equality;
pub mod exp;
pub mod graph;
pub mod laws;
pub mod list;
