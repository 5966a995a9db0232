use emma65::ring::Ring;

#[test]
fn new_ring_is_empty() {
    let ring = Ring::new(0);
    assert!(ring.is_empty(), "expected new ring to be empty");
}

#[test]
fn not_empty_after_put() {
    let mut ring = Ring::new(0);
    assert!(ring.put(42), "expected ring to accept offered value");
    assert!(!ring.is_empty(), "expected non-empty ring after put");
}

#[test]
fn get_put_value() {
    let mut ring = Ring::new(0);
    ring.put(42);
    assert!(matches!(ring.get(), Some(42)), "expected to get the value put");
}

#[test]
fn get_in_order_of_put() {
    let mut ring = Ring::new(0);
    assert!(ring.put(42), "expected ring to accept offered value");
    assert!(ring.put(43), "expected ring to accept offered value");
    assert!(matches!(ring.get(), Some(42)), "expected to get the first value put");
    assert!(matches!(ring.get(), Some(43)), "expected to get the next value put");
}

#[test]
fn peek_does_not_remove_value() {
    let mut ring = Ring::new(0);
    assert!(ring.put(42), "expected ring to accept offered value");
    assert!(ring.put(43), "expected ring to accept offered value");
    assert!(matches!(ring.peek(), Some(42)), "expected to get the first value put");
    assert!(matches!(ring.peek(), Some(42)), "expected same value");
}

#[test]
fn empty_after_clear() {
    let mut ring = Ring::new(0);
    assert!(ring.put(42), "expected ring to accept offered value");
    ring.clear();
    assert!(ring.is_empty(), "expected empty ring");
}
