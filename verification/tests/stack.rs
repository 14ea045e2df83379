use rust_lessons::stack::{FixedCapacityStack, StackError};

const HUGE: usize = usize::MAX;

#[test]
fn new_stack_is_empty_and_holds_its_block() {
    let stack = FixedCapacityStack::<u32, 4>::new().unwrap();
    assert!(stack.is_empty());
    assert!(!stack.is_released());
    assert_eq!(stack.size(), 0);
    assert_eq!(stack.capacity(), 4);
    assert_eq!(stack.peek(), None);
}

#[test]
fn capacity_three_scenario() {
    let mut stack = FixedCapacityStack::<i32, 3>::new().unwrap();
    assert_eq!(stack.push(1), Ok(()));
    assert_eq!(stack.push(2), Ok(()));
    assert_eq!(stack.push(3), Ok(()));
    assert_eq!(stack.push(4), Err(StackError::CapacityExceeded));
    assert_eq!(stack.pop(), Some(3));
    assert_eq!(stack.pop(), Some(2));
    assert_eq!(stack.pop(), Some(1));
    assert_eq!(stack.pop(), None);
}

#[test]
fn capacity_ten_pops_in_reverse() {
    let mut stack = FixedCapacityStack::<usize, 10>::new().unwrap();
    let mut value: usize = 1;
    while value <= 10 {
        assert_eq!(stack.push(value), Ok(()));
        value += 1;
    }
    let mut popped: Vec<usize> = Vec::new();
    while let Some(item) = stack.pop() {
        popped.push(item);
    }
    assert_eq!(popped, vec![10, 9, 8, 7, 6, 5, 4, 3, 2, 1]);
    assert!(stack.is_empty());
}

#[test]
fn pops_after_each_push_show_the_new_top() {
    let mut stack = FixedCapacityStack::<usize, 10>::new().unwrap();
    let mut value: usize = 1;
    while value <= 10 {
        assert_eq!(stack.push(value), Ok(()));
        assert_eq!(stack.peek(), Some(&value));
        assert_eq!(stack.size(), value);
        value += 1;
    }
    let mut expected: usize = 10;
    while !stack.is_empty() {
        assert_eq!(stack.pop(), Some(expected));
        expected -= 1;
        if stack.is_empty() {
            assert_eq!(stack.peek(), None);
        } else {
            assert_eq!(stack.peek(), Some(&expected));
        }
    }
    assert_eq!(expected, 0);
}

#[test]
fn partly_filled_stack_pops_in_reverse() {
    let mut stack = FixedCapacityStack::<char, 5>::new().unwrap();
    assert_eq!(stack.push('a'), Ok(()));
    assert_eq!(stack.push('b'), Ok(()));
    assert_eq!(stack.pop(), Some('b'));
    assert_eq!(stack.push('c'), Ok(()));
    assert_eq!(stack.push('d'), Ok(()));
    assert_eq!(stack.pop(), Some('d'));
    assert_eq!(stack.pop(), Some('c'));
    assert_eq!(stack.pop(), Some('a'));
    assert_eq!(stack.pop(), None);
}

#[test]
fn push_on_full_stack_changes_nothing() {
    let mut stack = FixedCapacityStack::<u8, 2>::new().unwrap();
    assert_eq!(stack.push(7), Ok(()));
    assert_eq!(stack.push(8), Ok(()));
    let mut attempt: u8 = 0;
    while attempt < 5 {
        assert_eq!(stack.push(100 + attempt), Err(StackError::CapacityExceeded));
        assert_eq!(stack.size(), 2);
        assert_eq!(stack.peek(), Some(&8));
        attempt += 1;
    }
    assert_eq!(stack.pop(), Some(8));
    assert_eq!(stack.pop(), Some(7));
    assert_eq!(stack.pop(), None);
}

#[test]
fn push_succeeds_again_after_a_pop_made_room() {
    let mut stack = FixedCapacityStack::<u8, 1>::new().unwrap();
    assert_eq!(stack.push(1), Ok(()));
    assert_eq!(stack.push(2), Err(StackError::CapacityExceeded));
    assert_eq!(stack.pop(), Some(1));
    assert_eq!(stack.push(2), Ok(()));
    assert_eq!(stack.pop(), Some(2));
}

#[test]
fn stack_without_slots_refuses_every_push() {
    let mut stack = FixedCapacityStack::<u32, 0>::new().unwrap();
    assert_eq!(stack.capacity(), 0);
    assert_eq!(stack.push(1), Err(StackError::CapacityExceeded));
    assert!(stack.is_empty());
    assert_eq!(stack.pop(), None);
}

#[test]
fn pop_on_empty_stack_returns_nothing() {
    let mut stack = FixedCapacityStack::<u32, 3>::new().unwrap();
    assert_eq!(stack.pop(), None);
    assert_eq!(stack.pop(), None);
    assert_eq!(stack.size(), 0);
    assert!(!stack.is_released());
    assert_eq!(stack.push(5), Ok(()));
    assert_eq!(stack.pop(), Some(5));
    assert_eq!(stack.pop(), None);
    assert_eq!(stack.size(), 0);
}

#[test]
fn peek_leaves_the_stack_as_it_is() {
    let mut stack = FixedCapacityStack::<u32, 3>::new().unwrap();
    assert_eq!(stack.push(11), Ok(()));
    assert_eq!(stack.push(22), Ok(()));
    assert_eq!(stack.peek(), Some(&22));
    assert_eq!(stack.peek(), Some(&22));
    assert_eq!(stack.size(), 2);
    assert_eq!(stack.pop(), Some(22));
    assert_eq!(stack.peek(), Some(&11));
}

#[test]
fn release_twice_is_harmless() {
    let mut stack = FixedCapacityStack::<u32, 3>::new().unwrap();
    assert_eq!(stack.push(1), Ok(()));
    assert_eq!(stack.push(2), Ok(()));
    assert!(stack.release());
    assert_eq!(stack.size(), 0);
    assert!(stack.is_released());
    assert!(!stack.release());
    assert_eq!(stack.size(), 0);
    assert!(stack.is_released());
}

#[test]
fn released_stack_is_empty() {
    let mut stack = FixedCapacityStack::<u32, 3>::new().unwrap();
    assert_eq!(stack.push(9), Ok(()));
    assert!(stack.release());
    assert!(stack.is_empty());
    assert_eq!(stack.peek(), None);
    assert_eq!(stack.pop(), None);
    assert_eq!(stack.capacity(), 3);
}

#[test]
fn release_of_an_empty_stack_gives_the_block_back() {
    let mut stack = FixedCapacityStack::<u32, 3>::new().unwrap();
    assert!(stack.release());
    assert!(!stack.release());
}

#[test]
fn new_stack_after_release_holds_nothing_of_the_old() {
    let mut filled: usize = 0;
    while filled <= 4 {
        let mut first = FixedCapacityStack::<usize, 4>::new().unwrap();
        let mut value: usize = 0;
        while value < filled {
            assert_eq!(first.push(1000 + value), Ok(()));
            value += 1;
        }
        assert_eq!(first.size(), filled);
        assert!(first.release());
        let mut second = FixedCapacityStack::<usize, 4>::new().unwrap();
        assert_eq!(second.size(), 0);
        assert!(second.is_empty());
        assert_eq!(second.pop(), None);
        filled += 1;
    }
}

#[test]
fn block_that_cannot_be_reserved_is_an_allocation_failure() {
    let made = FixedCapacityStack::<u64, HUGE>::new();
    assert!(matches!(made, Err(StackError::AllocationFailure)));
}

#[test]
fn items_are_moved_in_and_out() {
    let mut stack = FixedCapacityStack::<String, 2>::new().unwrap();
    assert_eq!(stack.push(String::from("hello")), Ok(()));
    assert_eq!(stack.push(String::from("world")), Ok(()));
    assert_eq!(stack.push(String::from("!")), Err(StackError::CapacityExceeded));
    assert_eq!(stack.peek(), Some(&String::from("world")));
    assert_eq!(stack.pop(), Some(String::from("world")));
    assert_eq!(stack.pop(), Some(String::from("hello")));
    assert_eq!(stack.pop(), None);
}

#[test]
fn stack_with_items_can_go_out_of_scope() {
    let mut stack = FixedCapacityStack::<String, 3>::new().unwrap();
    assert_eq!(stack.push(String::from("left behind")), Ok(()));
    assert_eq!(stack.size(), 1);
}
