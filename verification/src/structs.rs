//! Lesson: the three flavors of struct, and a method on one of them.
//!
//! A struct packages related values under one name. Its definition holds
//! fields only; what it can do is added in an `impl` block.

use vstd::prelude::*;

verus! {

/// The standard flavor: every field has a name.
pub struct Rectangle {
    pub width: u32,
    pub height: u32,
}

/// A tuple struct: the fields have positions and no names.
pub struct Color(pub u32, pub u32, pub u32);

/// A unit-like struct: no fields at all. It serves where a trait needs a
/// type to stand on and there is nothing to store.
pub struct UnitLike;

impl Rectangle {
    /// The area, width times height. The product must fit in a `u32`.
    pub fn area(&self) -> (area: u32)
        requires
            self.width * self.height <= u32::MAX,
        ensures
            area == self.width * self.height,
    {
        self.width * self.height
    }
}

/// The lesson of the three flavors is in the declarations above, `Rectangle`,
/// `Color` and `UnitLike`: that they are accepted is all there is to see, so
/// nothing is left to do when the lesson runs.
pub fn structs_flavors() {
}

} // verus!
