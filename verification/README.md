# smart_pointers

Hand-written owning pointers and growable arrays, verified with Verus.

- `my_box`: `MyBox<T>`, an owning pointer with `Deref`/`DerefMut`;
  `my_box::safety::MyBoxI32`, the same for one `i32`.
- `my_box_raina`: `MyBoxRaina<T>`, an owning pointer that can hand its value back.
- `my_rc`: `MyRc<T>`, a reference-counted shared pointer.
- `my_vec`: `MyVec<T>`, a growable array with its own capacity policy
  (8 on the first growth, then doubling).
- `my_vec_raina`: `MyVecRaina<T>`, the same policy plus insertion at any position.

`app/` holds what stays outside the verified library: handing out a raw
`NonNull` pointer to a box's value.
