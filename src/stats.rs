//! Statistics about a lavalink node.
use vstd::prelude::*;

verus! {

/// Averages of audio frames on the node, per minute.
#[derive(Clone, Copy, Debug, Default, PartialEq, Eq, Structural)]
pub struct FrameStats {
    /// Average number of frames sent per minute.
    pub sent: i32,
    /// Average number of frames nulled per minute.
    pub nulled: i32,
    /// Average number of frames deficit per minute.
    pub deficit: i32,
}

/// The memory usage of a device.
#[derive(Clone, Copy, Debug, Default, PartialEq, Eq, Structural)]
pub struct MemoryStats {
    /// The amount of free memory that is not allocated.
    pub free: i64,
    /// The amount of memory that is used (without cache and buffers).
    pub used: i64,
    /// The amount of memory that is allocated (used, cached, buffered).
    pub allocated: i64,
    /// The amount of memory that is reservable.
    pub reservable: i64,
}

} // verus!
