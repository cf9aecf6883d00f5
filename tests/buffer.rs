use bounded_buffer::BoundedBuffer;

#[test]
fn new_buffer_is_empty() {
    let b = BoundedBuffer::<2>::new();
    assert!(b.empty());
    assert!(!b.full());
    assert_eq!(b.len(), 0);
    assert_eq!(b.to_string(), "[]");
}

#[test]
fn default_buffer_is_empty() {
    let b: BoundedBuffer<4> = Default::default();
    assert!(b.empty());
    assert_eq!(b.to_string(), "[]");
}

#[test]
fn two_pushes_fill_capacity_two() {
    let mut b = BoundedBuffer::<2>::new();
    b.push(1);
    assert!(!b.empty());
    assert!(!b.full());
    b.push(2);
    assert!(b.full());
    assert_eq!(b.len(), 2);
}

#[test]
fn pop_returns_last_pushed() {
    let mut b = BoundedBuffer::<3>::new();
    b.push(1);
    b.push(2);
    b.push(3);
    assert_eq!(b.pop(), 3);
    assert_eq!(b.pop(), 2);
    b.push(7);
    assert_eq!(b.pop(), 7);
    assert_eq!(b.pop(), 1);
    assert!(b.empty());
}

#[test]
fn zero_capacity_is_empty_and_full() {
    let b = BoundedBuffer::<0>::new();
    assert!(b.empty());
    assert!(b.full());
}

#[test]
fn renders_items_in_storage_order() {
    let mut b = BoundedBuffer::<3>::new();
    b.push(1);
    b.push(2);
    b.push(3);
    assert_eq!(b.to_string(), "[1, 2, 3]");
}

#[test]
fn renders_single_item_and_zero() {
    let mut b = BoundedBuffer::<3>::new();
    b.push(0);
    assert_eq!(b.to_string(), "[0]");
}

#[test]
fn renders_negative_and_extreme_items() {
    let mut b = BoundedBuffer::<3>::new();
    b.push(-7);
    b.push(isize::MIN);
    b.push(isize::MAX);
    let expected = format!("[-7, {}, {}]", isize::MIN, isize::MAX);
    assert_eq!(b.to_string(), expected);
    b.pop();
    b.pop();
    assert_eq!(b.to_string(), "[-7]");
}

#[test]
fn renders_after_pop() {
    let mut b = BoundedBuffer::<4>::new();
    b.push(10);
    b.push(200);
    b.push(3000);
    b.pop();
    assert_eq!(b.to_string(), "[10, 200]");
}
