//! The library of the language: the functions that programs call by name.
pub mod array;
pub mod base;
pub mod str;
