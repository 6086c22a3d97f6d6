//! The checks that only warn: the types of assignments and returns, and
//! variables that nothing uses.
pub mod typeck;
pub mod unused_variable;
