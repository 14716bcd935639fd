//! Lifecycle bridge between a host program and the Avahi event loop.
//!
//! The native library is never called from here. Every operation receives
//! what the native call returned, or a closure that makes the call, and
//! decides what the caller gets back and what state the handle is left in.

pub mod avahi;
pub mod decimal;
pub mod error;
pub mod network_interface;
pub mod service_type;

pub use error::Error;
pub use network_interface::NetworkInterface;
pub use service_type::ServiceType;
