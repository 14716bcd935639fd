//! Handles and helpers that sit directly on top of the native library.

pub mod avahi_util;
pub mod client;
pub mod poll;
