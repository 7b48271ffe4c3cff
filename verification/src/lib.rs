//! Unary natural numbers and heterogeneous lists whose shape is part of the type.

pub mod append_laws;
pub mod hlist;
pub mod peano;
