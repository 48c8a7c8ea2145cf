use pen::stack::Stack;

#[test]
fn push_and_pop_in_reverse_order() {
    let mut stack: Stack<u64> = Stack::new(2);

    stack.push(1);
    stack.push(2);
    stack.push(3);

    assert_eq!(stack.pop(), 3);
    assert_eq!(stack.pop(), 2);
    assert_eq!(stack.pop(), 1);
}

#[test]
fn grow_past_reserved_capacity() {
    let mut stack: Stack<u64> = Stack::new(1);

    stack.push(1);
    stack.push(2);
    stack.push(3);
    stack.push(4);

    assert_eq!(stack.len(), 4);
}

#[test]
fn empty_stack_has_no_values() {
    let stack: Stack<u64> = Stack::new(8);

    assert!(stack.is_empty());
    assert_eq!(stack.len(), 0);
}
