//! Byte lengths fixed by the packet format.

use vstd::prelude::*;

verus! {

/// Length of a relay address.
pub const NODE_ADDRESS_LENGTH: usize = 32;

/// Length of the address of a packet's final recipient.
pub const DESTINATION_ADDRESS_LENGTH: usize = 32;

/// Length of the identifier of a single-use reply block.
pub const IDENTIFIER_LENGTH: usize = 16;

} // verus!
