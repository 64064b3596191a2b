//! A verified bridge between native code and a garbage-collected host heap.
pub mod layout;
pub mod gc;
pub mod roots;
pub mod value;
pub mod staging;
pub mod exports;
pub mod types;
pub mod laws;
