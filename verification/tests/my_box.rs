use core::mem::size_of;
use smart_pointers::my_box::MyBox;

#[test]
fn my_box_simple_test() {
    let mut my_box = MyBox::new(vec![1, 2, 3]);
    let get = &*my_box;
    assert_eq!(get.clone(), vec![1, 2, 3]);

    *my_box = vec![1, 2, 3, 4];
    assert_eq!(my_box.len(), 4);
}

#[test]
fn size_correct() {
    assert_eq!(size_of::<MyBox<i32>>(), size_of::<usize>());
    assert_eq!(size_of::<Option<MyBox<i32>>>(), size_of::<usize>());
}

#[test]
fn my_box_reads_back_what_was_written() {
    let mut b = MyBox::new(7u64);
    assert_eq!(*b, 7);
    *b += 5;
    assert_eq!(*b, 12);
    *b = 0;
    assert_eq!(*b, 0);
}
