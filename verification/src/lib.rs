//! Small lessons in Rust, with their logic verified.
//!
//! The main one is `stack`: a last-in-first-out container whose capacity is
//! fixed in its type. `model` holds the mathematics that its contracts are
//! stated in, and `laws` what follows for whole runs of pushes and pops.
//! `structs` and `ownership` are lessons on the language itself.

pub mod model;
pub mod stack;
pub mod laws;
pub mod structs;
pub mod ownership;
