//! Labelled buffers of 32-bit integers and a small cache of integer
//! sequences, with every operation verified against a mathematical model.

pub mod buffer;
pub mod cache;
pub mod sequence;
