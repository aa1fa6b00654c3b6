//! Egress packet classifier with a verified decision path.
//!
//! The library has three parts: a bounded configuration store shared between
//! a startup control plane and the per-packet hot path (`store`), a byte-level
//! view of one outbound packet (`packet`), and the classification decision
//! itself (`classifier`), which maps a packet buffer, its mark and the store
//! to exactly one of `Pass` or `Redirect`. The startup sequence that fills the
//! store and attaches the classifier to interfaces is modelled as a state
//! machine in `loader`; the surrounding process (argument handling, kernel
//! hook calls, signal wait) lives outside the library.

use vstd::prelude::*;

pub mod classifier;
pub mod loader;
pub mod packet;
pub mod store;

verus! {

/// Key under which the tunnel interface index is kept in the params table.
pub const TUN_INDEX_KEY: u32 = 0;

/// Default sentinel destination address (1.1.1.1 as a big-endian integer):
/// traffic addressed to it is the traffic selected for redirection.
pub const DEFAULT_SENTINEL: u32 = 0x0101_0101;

} // verus!
