use linked_stack::Stack;

#[test]
fn init() {
    let mut stack = Stack::new(Some(45));

    assert_eq!(stack.pop(), Some(45));
}

#[test]
fn push_length() {
    let mut stack = Stack::new(Some(45));
    stack.push(46);
    stack.push(48);

    assert_eq!(stack.length(), 3)
}

#[test]
fn pop_length() {
    let mut stack = Stack::new(Some(45));
    stack.push(46);
    stack.push(48);

    assert_eq!(stack.length(), 3);
    stack.pop();
    stack.pop();
    assert_eq!(stack.length(), 1);
}

#[test]
fn pop_value() {
    let mut stack = Stack::new(Some(45));
    stack.push(46);
    stack.push(48);
    stack.pop();
    stack.push(53);
    stack.pop();
    let last_value = stack.pop();

    assert_eq!(last_value, Some(46));
}

#[test]
fn peek() {
    let mut stack = Stack::new(Some(45));
    stack.push(46);
    stack.push(48);

    assert_eq!(stack.peek(), Some(&48));
}

#[test]
fn init_then_empty() {
    let mut stack = Stack::new(Some(45));

    assert_eq!(stack.length(), 1);
    assert_eq!(stack.pop(), Some(45));
    assert_eq!(stack.pop(), None);
    assert_eq!(stack.length(), 0);
}

#[test]
fn new_without_value_is_empty() {
    let mut stack: Stack<i32> = Stack::new(None);

    assert_eq!(stack.length(), 0);
    assert_eq!(stack.peek(), None);
    assert_eq!(stack.pop(), None);
}

#[test]
fn peek_keeps_length() {
    let mut stack = Stack::new(Some(45));
    stack.push(46);
    stack.push(48);

    assert_eq!(stack.peek(), Some(&48));
    assert_eq!(stack.length(), 3);
}

#[test]
fn pops_come_in_reverse_order() {
    let mut stack = Stack::new(None);
    for v in 1..=100u32 {
        stack.push(v);
    }
    assert_eq!(stack.length(), 100);

    for v in (1..=100u32).rev() {
        assert_eq!(stack.pop(), Some(v));
    }
    assert_eq!(stack.length(), 0);
    assert_eq!(stack.pop(), None);
}

#[test]
fn pushes_onto_a_filled_stack_come_off_first() {
    let mut stack = Stack::new(Some('a'));
    stack.push('b');
    stack.push('c');
    stack.push('d');

    assert_eq!(stack.pop(), Some('d'));
    assert_eq!(stack.pop(), Some('c'));
    assert_eq!(stack.pop(), Some('b'));
    assert_eq!(stack.length(), 1);
    assert_eq!(stack.peek(), Some(&'a'));
}

#[test]
fn length_follows_pushes_and_successful_pops() {
    let mut stack = Stack::new(Some(1u8));
    let mut pushes = 0usize;
    let mut taken = 0usize;

    for round in 0..6u8 {
        stack.push(round);
        pushes += 1;
        stack.push(round + 10);
        pushes += 1;
        for _ in 0..3 {
            if stack.pop().is_some() {
                taken += 1;
            }
        }
        assert_eq!(stack.length(), 1 + pushes - taken);
    }

    assert_eq!(pushes, 12);
    assert_eq!(taken, 13);
    assert_eq!(stack.length(), 0);
}

#[test]
fn pop_of_empty_stays_empty() {
    let mut stack: Stack<u64> = Stack::new(None);

    for _ in 0..10 {
        assert_eq!(stack.pop(), None);
        assert_eq!(stack.length(), 0);
    }

    stack.push(9);
    assert_eq!(stack.pop(), Some(9));
    for _ in 0..10 {
        assert_eq!(stack.pop(), None);
        assert_eq!(stack.length(), 0);
    }
}

#[test]
fn repeated_peeks_change_nothing() {
    let mut stack = Stack::new(Some(45));
    stack.push(46);

    for _ in 0..5 {
        assert_eq!(stack.peek(), Some(&46));
        assert_eq!(stack.length(), 2);
    }
    assert_eq!(stack.pop(), Some(46));

    for _ in 0..5 {
        assert_eq!(stack.peek(), Some(&45));
        assert_eq!(stack.length(), 1);
    }
    assert_eq!(stack.pop(), Some(45));
    assert_eq!(stack.peek(), None);
    assert_eq!(stack.length(), 0);
}

#[test]
fn push_returns_the_stack() {
    let mut stack = Stack::new(None);

    let same = stack.push(7);
    assert_eq!(same.length(), 1);
    assert_eq!(same.peek(), Some(&7));

    assert_eq!(stack.push(8).peek(), Some(&8));
    assert_eq!(stack.length(), 2);
}

#[test]
fn holds_owned_values() {
    let mut stack = Stack::new(Some(String::from("first")));
    stack.push(String::from("second"));

    assert_eq!(stack.peek().map(|s| s.as_str()), Some("second"));
    assert_eq!(stack.pop(), Some(String::from("second")));
    assert_eq!(stack.pop(), Some(String::from("first")));
    assert_eq!(stack.pop(), None);
}

#[test]
fn long_chain_is_released() {
    let mut stack = Stack::new(None);
    for v in 0..10_000u32 {
        stack.push(v);
    }

    assert_eq!(stack.length(), 10_000);
    assert_eq!(stack.peek(), Some(&9_999));
}
