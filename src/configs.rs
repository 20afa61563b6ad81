//! Configuration shapes of common kinds, each written out as the loading code that a
//! derive would produce for it.
pub mod basic;
pub mod defaults;
pub mod nested;
pub mod plain;
pub mod prefix;
pub mod rename;
pub mod separator;
