//! A function whose body runs at most once: the first call computes the
//! value and stores it, every call hands out the stored value.
//!
//! `shape` holds the rules on which functions may be made lazy; `once`
//! holds the exactly-once cache that such a function is built on.
pub mod shape;
pub mod once;
