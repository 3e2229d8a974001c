//! Interrupt-driven relay between a GPS serial link and a host serial link.
//!
//! Bytes received on the GPS link are filtered (null padding dropped),
//! buffered in a bounded single-producer/single-consumer queue, and drained
//! to the host link whenever its transmit register is free.  Single-byte
//! commands arriving on the host link drive a digital output pin that powers
//! the GPS module on or off.  The transmit-interrupt enable flag is the sole
//! flow-control device between the two interrupt handlers.

use vstd::prelude::*;

pub mod laws;
pub mod model;
pub mod queue;
pub mod relay;

verus! {

/// Number of bytes the bounded queue can hold at once.
///
/// The backing ring buffer is created with 64 slots and keeps one slot free
/// to distinguish full from empty, so 63 bytes can be pending at a time.
pub const QUEUE_CAPACITY: usize = 63;

} // verus!
