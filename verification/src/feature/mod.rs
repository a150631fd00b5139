//! What chord mode does with the keys typed in it.
pub mod chorder;
pub mod handler;
