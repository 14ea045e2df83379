//! The stack itself: a block of `N` slots, reserved once, filled and emptied
//! at its top, and given back to the allocator at most once.
//!
//! Items are moved in by `push` and moved out by `pop`. A move carries the
//! item's bytes over as they are, whatever its type: the stack asks for no
//! `Copy` or `Clone` and never makes a deep copy.
//!
//! A stack is owned by one caller at a time and does no locking of its own:
//! to share it between threads, put the whole stack behind a lock.

use vstd::prelude::*;
use std::collections::TryReserveError;
use crate::model::StackState;

verus! {

/// What can go wrong with a stack.
#[derive(Clone, Copy, Debug, PartialEq, Eq, Structural)]
pub enum StackError {
    /// A push found every slot taken.
    CapacityExceeded,
    /// The block of slots could not be reserved.
    AllocationFailure,
}

/// A stack of at most `N` items of type `T`.
///
/// The block is given back when `release` is called or when the stack goes
/// out of scope, whichever comes first, and never twice: once released, the
/// stack holds no block that a second release could reach.
pub struct FixedCapacityStack<T, const N: usize> {
    /// The block of slots, bottom first; `None` once it has been released.
    block: Option<Vec<T>>,
}

impl<T, const N: usize> View for FixedCapacityStack<T, N> {
    type V = StackState<T>;

    /// The items on the stack, bottom first, and whether the block is gone.
    /// A released stack holds no items.
    closed spec fn view(&self) -> StackState<T> {
        match self.block {
            Some(slots) => StackState { items: slots@, released: false },
            None => StackState { items: Seq::empty(), released: true },
        }
    }
}

impl<T, const N: usize> FixedCapacityStack<T, N> {
    /// No more slots are filled than the block has, and none once the block
    /// is gone.
    #[verifier::type_invariant]
    spec fn within_capacity(self) -> bool {
        self@.wf(N as nat)
    }

    /// Builds the stack around `block` once the outcome of reserving its
    /// slots is known.
    fn from_reservation(block: Vec<T>, outcome: Result<(), TryReserveError>) -> (made: Result<
        Self,
        StackError,
    >)
        requires
            block@.len() == 0,
        ensures
            outcome is Ok ==> made is Ok,
            outcome is Err ==> made is Err,
            made matches Ok(stack) ==> stack@ == StackState::<T>::fresh(),
            made matches Err(error) ==> error == StackError::AllocationFailure,
    {
        assert(block@ =~= Seq::<T>::empty());
        match outcome {
            Ok(_) => Ok(FixedCapacityStack { block: Some(block) }),
            Err(_) => Err(StackError::AllocationFailure),
        }
    }

    /// Takes the block out of the stack, which is left released until the
    /// caller puts a block back.
    fn detach(&mut self) -> (block: Option<Vec<T>>)
        ensures
            block == old(self).block,
            final(self).block is None,
        opens_invariants none
        no_unwind
    {
        let mut block: Option<Vec<T>> = None;
        std::mem::swap(&mut block, &mut self.block);
        block
    }

    /// Reserves a block with room for `N` items and returns the empty stack
    /// over it.
    ///
    /// Whether the block can be had is the allocator's decision. Where it
    /// cannot, no stack comes into being and `AllocationFailure` is returned.
    /// A stack without slots needs no block, so making one cannot fail.
    /// A new stack is empty whatever earlier stacks held.
    pub fn new() -> (made: Result<Self, StackError>)
        ensures
            made matches Ok(stack) ==> stack@ == StackState::<T>::fresh(),
            made matches Err(error) ==> error == StackError::AllocationFailure,
            N == 0 ==> made is Ok,
    {
        let mut block: Vec<T> = Vec::new();
        let outcome = if N == 0 {
            Ok(())
        } else {
            block.try_reserve(N)
        };
        Self::from_reservation(block, outcome)
    }

    /// The number of slots, filled or free.
    pub fn capacity(&self) -> (slots: usize)
        ensures
            slots == N,
    {
        N
    }

    /// The number of filled slots, which never exceeds `N`.
    pub fn size(&self) -> (filled: usize)
        ensures
            filled == self@.size(),
            filled <= N,
            self@.wf(N as nat),
    {
        proof {
            use_type_invariant(self);
        }
        match &self.block {
            Some(slots) => slots.len(),
            None => 0,
        }
    }

    /// Whether no slot is filled.
    pub fn is_empty(&self) -> (empty: bool)
        ensures
            empty == (self@.size() == 0),
    {
        self.size() == 0
    }

    /// Whether the block of slots has been given back.
    pub fn is_released(&self) -> (released: bool)
        ensures
            released == self@.released,
            released ==> self@.size() == 0,
    {
        self.block.is_none()
    }

    /// Puts `value` on top of the stack if a slot is free.
    ///
    /// A full stack refuses the value with `CapacityExceeded` and stays as
    /// it was; the refused value is dropped. The stack must still hold its
    /// block: after a release nothing can be pushed.
    pub fn push(&mut self, value: T) -> (pushed: Result<(), StackError>)
        requires
            !old(self)@.released,
        ensures
            final(self)@ == old(self)@.push(N as nat, value),
            final(self)@.wf(N as nat),
            final(self)@.size() <= N,
            old(self)@.size() < N ==> pushed is Ok,
            old(self)@.size() >= N ==> final(self)@ == old(self)@ && pushed == Err::<(), StackError>(
                StackError::CapacityExceeded,
            ),
    {
        proof {
            use_type_invariant(&*self);
        }
        match self.detach() {
            Some(mut slots) => {
                let pushed = if slots.len() >= N {
                    Err(StackError::CapacityExceeded)
                } else {
                    slots.push(value);
                    Ok(())
                };
                self.block = Some(slots);
                pushed
            },
            None => Err(StackError::CapacityExceeded),
        }
    }

    /// Takes the item pushed last off the stack and hands it to the caller.
    ///
    /// An empty stack, a released one included, hands out nothing and stays
    /// empty.
    pub fn pop(&mut self) -> (popped: Option<T>)
        ensures
            popped == old(self)@.top(),
            final(self)@ == old(self)@.pop(),
            final(self)@.wf(N as nat),
            old(self)@.size() == 0 ==> popped is None && final(self)@ == old(self)@,
            old(self)@.size() > 0 ==> popped is Some && final(self)@.size() == old(self)@.size() - 1,
    {
        proof {
            use_type_invariant(&*self);
        }
        match self.detach() {
            Some(mut slots) => {
                let popped = slots.pop();
                self.block = Some(slots);
                popped
            },
            None => None,
        }
    }

    /// The item pushed last, left where it is; nothing if the stack is empty.
    pub fn peek(&self) -> (top: Option<&T>)
        ensures
            self@.size() == 0 ==> top is None,
            self@.size() > 0 ==> top == Some(&self@.items.last()),
    {
        match &self.block {
            Some(slots) => {
                let filled: usize = slots.len();
                if filled == 0 {
                    None
                } else {
                    Some(&slots[filled - 1])
                }
            },
            None => None,
        }
    }

    /// Gives the block of slots back, with whatever items it still holds.
    ///
    /// Returns whether there was a block to give back. On a stack that was
    /// released before, nothing happens.
    pub fn release(&mut self) -> (freed: bool)
        ensures
            final(self)@ == old(self)@.release(),
            final(self)@.size() == 0,
            freed == !old(self)@.released,
        opens_invariants none
        no_unwind
    {
        match self.detach() {
            Some(_) => true,
            None => false,
        }
    }
}

impl<T, const N: usize> Drop for FixedCapacityStack<T, N> {
    /// A stack that goes out of scope is released: it gives its block back
    /// with whatever items it still holds, unless it was released before, in
    /// which case nothing happens.
    fn drop(&mut self)
        ensures
            final(self)@ == old(self)@.release(),
            final(self)@.released,
            final(self)@.size() == 0,
        opens_invariants none
        no_unwind
    {
        self.release();
    }
}

} // verus!
