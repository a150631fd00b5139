//! Keys and key events.
pub mod key;
pub mod key_event;
pub mod key_conv;
