//! The network interface that a service is bound to.

use vstd::prelude::*;

verus! {

/// A network interface: a given one, by its index, or none in particular.
#[derive(Debug, Clone, Copy, PartialEq, Eq)]
pub enum NetworkInterface {
    /// No interface in particular.
    Unspec,
    /// The interface with this index.
    AtIndex(u32),
}

} // verus!
