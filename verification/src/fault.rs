//! The two unrecoverable conditions of the scheduler.

use vstd::prelude::*;

verus! {

/// A fatal condition. Neither is retried: the caller stops driving the line.
#[derive(Clone, Copy, Debug, PartialEq, Eq, Structural)]
pub enum Fault {
    /// A request asked the arena for more bytes than it had left.
    AllocatorExhausted,
    /// The output device refused to take a level.
    DeviceFault,
}

} // verus!
