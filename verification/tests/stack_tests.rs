use evm_core::stack::Stack;
use evm_core::word::Word;

#[test]
fn test_swap() {
    let mut stack = Stack::new();
    stack.push(Word::from_u64(1u64));
    stack.push(Word::from_u64(2u64));
    stack.swap(1);
    assert_eq!(stack.stack[0], Word::from_u64(2u64));
    assert_eq!(stack.stack[1], Word::from_u64(1u64));
}

#[test]
fn test_dup() {
    let mut stack = Stack::new();
    stack.push(Word::from_u64(1u64));
    stack.dup(1);
    assert_eq!(stack.stack[0], Word::from_u64(1u64));
    assert_eq!(stack.stack[1], Word::from_u64(1u64));
}

#[test]
fn push_then_pop_restores_the_stack() {
    let mut stack = Stack::new();
    stack.push(Word::from_u64(5));
    let before = stack.len();
    stack.push(Word::from_u64(9));
    assert_eq!(stack.peek(), Word::from_u64(9));
    assert_eq!(stack.pop(), Word::from_u64(9));
    assert_eq!(stack.len(), before);
    assert_eq!(stack.peek(), Word::from_u64(5));
}

#[test]
fn dup_then_pop_restores_the_stack() {
    let mut stack = Stack::new();
    stack.push(Word::from_u64(1));
    stack.push(Word::from_u64(2));
    stack.push(Word::from_u64(3));
    stack.dup(3);
    assert_eq!(stack.len(), 4);
    assert_eq!(stack.pop(), Word::from_u64(1));
    assert_eq!(stack.stack, vec![Word::from_u64(1), Word::from_u64(2), Word::from_u64(3)]);
}

#[test]
fn pop_n_returns_the_top_first() {
    let mut stack = Stack::new();
    stack.push(Word::from_u64(1));
    stack.push(Word::from_u64(2));
    stack.push(Word::from_u64(3));
    let [a, b] = stack.pop_n::<2>();
    assert_eq!(a, Word::from_u64(3));
    assert_eq!(b, Word::from_u64(2));
    assert_eq!(stack.len(), 1);
    let [] = stack.pop_n::<0>();
    assert_eq!(stack.len(), 1);
}

#[test]
fn swap_reaches_deep() {
    let mut stack = Stack::new();
    for i in 0..17u64 {
        stack.push(Word::from_u64(i));
    }
    stack.swap(16);
    assert_eq!(stack.stack[0], Word::from_u64(16));
    assert_eq!(stack.stack[16], Word::from_u64(0));
    assert_eq!(stack.stack[8], Word::from_u64(8));
}
