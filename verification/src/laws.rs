//! What holds of every stack and of every run of operations on one, proved
//! over the model that the contracts of the stack are stated in.

use vstd::prelude::*;
use crate::model::StackState;

verus! {

/// A stack never fills more slots than it has: a new stack fills none, and
/// no operation leads from a state within the capacity to one beyond it.
pub proof fn lemma_size_stays_within_capacity<T>(state: StackState<T>, capacity: nat, value: T)
    requires
        state.wf(capacity),
    ensures
        StackState::<T>::fresh().wf(capacity),
        !state.released ==> state.push(capacity, value).wf(capacity),
        state.pop().wf(capacity),
        state.release().wf(capacity),
{
}

/// A push onto a full stack changes nothing, however often it is tried.
pub proof fn lemma_full_stack_refuses<T>(state: StackState<T>, capacity: nat, values: Seq<T>)
    requires
        state.size() >= capacity,
    ensures
        state.push_each(capacity, values) == state,
    decreases values.len(),
{
    if values.len() > 0 {
        lemma_full_stack_refuses(state, capacity, values.drop_last());
    }
}

/// A run of pushes fills the free slots in order and drops the rest: the
/// stack ends with its old items below as many of the new values as fit, so
/// it never holds more than its capacity.
pub proof fn lemma_pushes_fill_free_slots<T>(state: StackState<T>, capacity: nat, values: Seq<T>)
    requires
        state.size() <= capacity,
    ensures
        values.len() <= capacity - state.size() ==> state.push_each(capacity, values).items
            == state.items + values,
        values.len() > capacity - state.size() ==> state.push_each(capacity, values).items
            == state.items + values.take(capacity - state.size()),
        state.push_each(capacity, values).size() <= capacity,
        state.push_each(capacity, values).released == state.released,
    decreases values.len(),
{
    let free = capacity - state.size();
    if values.len() == 0 {
        assert(state.items + values =~= state.items);
    } else {
        let earlier = values.drop_last();
        lemma_pushes_fill_free_slots(state, capacity, earlier);
        if values.len() <= free {
            assert((state.items + earlier).push(values.last()) =~= state.items + values);
        } else if earlier.len() <= free {
            assert(earlier =~= values.take(free));
        } else {
            assert(earlier.take(free) =~= values.take(free));
        }
    }
}

/// Last in, first out: after pushing `values` onto a stack with room for all
/// of them, as many pops hand them back in reverse, the value pushed last
/// first, and leave the stack as it was before the pushes.
pub proof fn lemma_pops_reverse_pushes<T>(state: StackState<T>, capacity: nat, values: Seq<T>)
    requires
        state.size() + values.len() <= capacity,
    ensures
        state.push_each(capacity, values).pop_each(values.len()).len() == values.len(),
        forall|i: int|
            0 <= i < values.len() ==> #[trigger] state.push_each(capacity, values).pop_each(
                values.len(),
            )[i] == Some(values[values.len() - 1 - i]),
        state.push_each(capacity, values).after_pops(values.len()) == state,
    decreases values.len(),
{
    if values.len() > 0 {
        let earlier = values.drop_last();
        let below = state.push_each(capacity, earlier);
        let filled = state.push_each(capacity, values);
        lemma_pushes_fill_free_slots(state, capacity, earlier);
        lemma_pops_reverse_pushes(state, capacity, earlier);
        assert(filled.pop().items =~= below.items);
        let pops = filled.pop_each(values.len());
        assert(pops == seq![filled.top()] + below.pop_each(earlier.len()));
        assert forall|i: int| 0 <= i < values.len() implies #[trigger] pops[i] == Some(
            values[values.len() - 1 - i],
        ) by {
            if i > 0 {
                assert(pops[i] == below.pop_each(earlier.len())[i - 1]);
            }
        }
    }
}

/// Pops on an empty stack hand out nothing, however many there are, and the
/// stack stays as it is: its size does not go below zero.
pub proof fn lemma_pops_on_empty<T>(state: StackState<T>, count: nat)
    requires
        state.size() == 0,
    ensures
        state.pop_each(count).len() == count,
        forall|i: int| 0 <= i < count ==> #[trigger] state.pop_each(count)[i] is None,
        state.after_pops(count) == state,
    decreases count,
{
    if count > 0 {
        lemma_pops_on_empty(state, (count - 1) as nat);
        let pops = state.pop_each(count);
        assert forall|i: int| 0 <= i < count implies #[trigger] pops[i] is None by {
            if i > 0 {
                assert(pops[i] == state.pop_each((count - 1) as nat)[i - 1]);
            }
        }
    }
}

/// A release leaves the stack empty and without its block, whatever it held,
/// and a second release right after the first changes nothing.
pub proof fn lemma_release_is_idempotent<T>(state: StackState<T>)
    ensures
        state.release().size() == 0,
        state.release().released,
        state.release().release() == state.release(),
{
}

/// A stack made anew is empty and has its block, whatever an earlier stack
/// held before it was released: nothing of `values` comes back.
pub proof fn lemma_fresh_after_release<T>(capacity: nat, values: Seq<T>)
    ensures
        StackState::<T>::fresh().push_each(capacity, values).release().size() == 0,
        StackState::<T>::fresh().size() == 0,
        !StackState::<T>::fresh().released,
        StackState::<T>::fresh().top() is None,
{
}

} // verus!
