pub mod my_box;
pub mod my_box_raina;
pub mod my_rc;
pub mod my_vec;
pub mod my_vec_raina;
