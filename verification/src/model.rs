//! The mathematical model of a bounded stack: what a stack holds and whether
//! it still has its block, and what each operation makes of that.

use vstd::prelude::*;

verus! {

/// The state of a stack, as its contracts see it.
pub struct StackState<T> {
    /// The items in the filled slots, bottom first.
    pub items: Seq<T>,
    /// Whether the block of slots has been given back.
    pub released: bool,
}

impl<T> StackState<T> {
    /// Whether a stack of `capacity` slots can be in this state: it fills no
    /// more slots than it has, and none at all once its block is gone.
    pub open spec fn wf(self, capacity: nat) -> bool {
        &&& self.items.len() <= capacity
        &&& self.released ==> self.items.len() == 0
    }

    /// The state of a stack that has just been made: empty, with its block.
    pub open spec fn fresh() -> Self {
        StackState { items: Seq::empty(), released: false }
    }

    /// The number of filled slots.
    pub open spec fn size(self) -> nat {
        self.items.len()
    }

    /// The state after an attempt to push `value` onto a stack of `capacity`
    /// slots: the value goes on top while a slot is free, and a full stack is
    /// left as it was.
    pub open spec fn push(self, capacity: nat, value: T) -> Self {
        if self.items.len() < capacity {
            StackState { items: self.items.push(value), released: self.released }
        } else {
            self
        }
    }

    /// The item that a pop hands out: the one pushed last, if there is any.
    pub open spec fn top(self) -> Option<T> {
        if self.items.len() > 0 {
            Some(self.items.last())
        } else {
            None
        }
    }

    /// The state after a pop: all items but the one pushed last. An empty
    /// stack stays as it is.
    pub open spec fn pop(self) -> Self {
        if self.items.len() > 0 {
            StackState { items: self.items.drop_last(), released: self.released }
        } else {
            self
        }
    }

    /// The state after a release: no items, and no block.
    pub open spec fn release(self) -> Self {
        StackState { items: Seq::empty(), released: true }
    }

    /// The state after pushing each of `values` in turn, first to last.
    pub open spec fn push_each(self, capacity: nat, values: Seq<T>) -> Self
        decreases values.len(),
    {
        if values.len() == 0 {
            self
        } else {
            self.push_each(capacity, values.drop_last()).push(capacity, values.last())
        }
    }

    /// What `count` pops in a row hand out, in the order in which they come.
    pub open spec fn pop_each(self, count: nat) -> Seq<Option<T>>
        decreases count,
    {
        if count == 0 {
            Seq::empty()
        } else {
            seq![self.top()] + self.pop().pop_each((count - 1) as nat)
        }
    }

    /// The state after `count` pops in a row.
    pub open spec fn after_pops(self, count: nat) -> Self
        decreases count,
    {
        if count == 0 {
            self
        } else {
            self.pop().after_pops((count - 1) as nat)
        }
    }
}

} // verus!
