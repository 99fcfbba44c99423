use smart_pointers::my_rc::MyRc;
use std::cell::RefCell;
use std::rc::{Rc, Weak};

#[test]
fn foo() {
    let x = MyRc::new(String::from("hello"));
    assert_eq!(x.len(), 5);

    let y = MyRc::clone(&x);
    assert_eq!(y.len(), 5);

    let y_ref: &MyRc<String> = &y;
    let y_inner: &String = y_ref;

    let _z = MyRc::clone(y_ref);

    assert_eq!(y_inner.len(), 5);
}

#[test]
fn they_really_are_pointing_to_the_same_string() {
    let x = MyRc::new(RefCell::new(String::from("hello")));
    assert_eq!(x.borrow().len(), 5);

    let y = MyRc::clone(&x);
    assert_eq!(y.borrow().len(), 5);

    x.borrow_mut().push_str(" world");

    assert_eq!(x.borrow().len(), 11);
    assert_eq!(y.borrow().len(), 11);
}

#[test]
fn strong_weak() {
    struct Person {
        #[allow(dead_code)]
        name: String,
        #[allow(dead_code)]
        best_friend: Option<Weak<RefCell<Person>>>,
    }

    let a = Rc::new(RefCell::new(Person {
        name: "a".into(),
        best_friend: None,
    }));

    let b = Rc::new(RefCell::new(Person {
        name: "b".into(),
        best_friend: Some(Rc::downgrade(&a)),
    }));

    a.borrow_mut().best_friend = Some(Rc::downgrade(&b));

    drop(a);
    drop(b);
}

#[test]
fn clone_outlives_the_original() {
    let x = MyRc::new(vec![1, 2, 3]);
    let y = x.clone();
    drop(x);
    assert_eq!(*y, vec![1, 2, 3]);
}
