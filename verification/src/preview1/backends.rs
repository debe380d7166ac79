//! Memory backends.

mod vec_mem;
