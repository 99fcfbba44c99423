use smart_pointers::my_vec::MyVec;

#[test]
fn my_vec_simple_test() {
    let mut v = MyVec::new();

    v.push(String::from("hello"));
    assert_eq!(*v.get(0).unwrap(), "hello");

    v.push(String::from("world"));
    assert_eq!(*v.get(0).unwrap(), "hello");
    assert_eq!(*v.get(1).unwrap(), "world");

    v.push(String::from("foo"));
    assert_eq!(*v.get(0).unwrap(), "hello");
    assert_eq!(*v.get(1).unwrap(), "world");
    assert_eq!(*v.get(2).unwrap(), "foo");

    assert_eq!(v.len(), 3);
}

#[test]
fn with_capacity_test() {
    let v = MyVec::<String>::with_capacity(10);
    assert!(v.can_insert_without_reallocating());
}

#[test]
fn new_vector_is_empty_and_full() {
    let v = MyVec::<u8>::new();
    assert_eq!(v.len(), 0);
    assert!(v.get(0).is_none());
    assert!(!v.can_insert_without_reallocating());
}

#[test]
fn zero_capacity_is_full() {
    let v = MyVec::<u8>::with_capacity(0);
    assert!(!v.can_insert_without_reallocating());
}

#[test]
fn capacity_grows_to_eight_then_doubles() {
    let mut v = MyVec::new();
    v.push(0u32);
    // room for 8 after the first push
    for i in 1..8u32 {
        assert!(v.can_insert_without_reallocating());
        v.push(i);
    }
    assert_eq!(v.len(), 8);
    assert!(!v.can_insert_without_reallocating());
    v.push(8);
    // room for 16 now
    for i in 9..16u32 {
        assert!(v.can_insert_without_reallocating());
        v.push(i);
    }
    assert!(!v.can_insert_without_reallocating());
    for i in 0..16usize {
        assert_eq!(*v.get(i).unwrap(), i as u32);
    }
    assert!(v.get(16).is_none());
}

#[test]
fn with_capacity_fills_before_growing() {
    let mut v = MyVec::with_capacity(3);
    v.push('a');
    v.push('b');
    assert!(v.can_insert_without_reallocating());
    v.push('c');
    assert!(!v.can_insert_without_reallocating());
    // full at 3: the next push doubles to 6
    v.push('d');
    v.push('e');
    v.push('f');
    assert!(!v.can_insert_without_reallocating());
    assert_eq!(v.len(), 6);
    assert_eq!(*v.get(3).unwrap(), 'd');
}
