use constack::ConStack;

#[test]
fn it_works() {
    let mut stack = ConStack::default();
    stack.push(1);
    assert_eq!(stack.pop(), Some(1));
    assert_eq!(stack.pop(), None);
}

#[test]
fn lifo_order() {
    let mut stack = ConStack::new();
    stack.push(1);
    stack.push(2);
    stack.push(3);
    assert_eq!(stack.pop(), Some(3));
    assert_eq!(stack.pop(), Some(2));
    assert_eq!(stack.pop(), Some(1));
    assert_eq!(stack.pop(), None);
}

#[test]
fn round_trip_string() {
    let mut stack = ConStack::new();
    stack.push(String::from("hello"));
    assert_eq!(stack.pop(), Some(String::from("hello")));
    assert_eq!(stack.pop(), None);
}

#[test]
fn pop_empty_idempotent() {
    let mut stack: ConStack<u64> = ConStack::new();
    assert_eq!(stack.pop(), None);
    assert_eq!(stack.pop(), None);
    assert_eq!(stack.pop(), None);
    stack.push(5);
    assert_eq!(stack.pop(), Some(5));
    assert_eq!(stack.pop(), None);
    assert_eq!(stack.pop(), None);
}

#[test]
fn conservation_sequential() {
    let mut stack = ConStack::new();
    let count: u64 = 1000;
    let mut i: u64 = 0;
    while i < count {
        stack.push(i);
        i += 1;
    }
    let mut popped: Vec<u64> = Vec::new();
    while let Some(v) = stack.pop() {
        popped.push(v);
    }
    assert_eq!(popped.len(), count as usize);
    let mut expected: u64 = count;
    for v in popped {
        expected -= 1;
        assert_eq!(v, expected);
    }
    assert_eq!(expected, 0);
    assert_eq!(stack.pop(), None);
}

#[test]
fn interleaved_push_pop() {
    let mut stack = ConStack::new();
    stack.push(10);
    stack.push(20);
    assert_eq!(stack.pop(), Some(20));
    stack.push(30);
    stack.push(40);
    assert_eq!(stack.pop(), Some(40));
    assert_eq!(stack.pop(), Some(30));
    assert_eq!(stack.pop(), Some(10));
    assert_eq!(stack.pop(), None);
}
