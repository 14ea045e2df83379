//! Lesson: ownership.
//!
//! Each value has one owner at a time, and is dropped when its owner goes out
//! of scope. A reference borrows a value without taking it over.

use vstd::prelude::*;

verus! {

/// A reference cannot outlive the value it points to. A function that hands
/// out a reference to one of its own locals is refused when it is compiled,
/// so there is no dangling reference to show, and nothing is left to do when
/// the lesson runs.
pub fn dangling_reference() {
}

} // verus!
