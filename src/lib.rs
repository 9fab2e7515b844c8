//! An in-memory duplex byte stream, a bounded byte pipe, and the decision
//! step of a busy-polling single-task executor, for driving protocol code
//! without real I/O.

use vstd::prelude::*;

pub mod executor;
pub mod laws;
pub mod pipe;
pub mod stream;

verus! {

} // verus!
