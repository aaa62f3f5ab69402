//! Asynchronous readback state machines.
//!
//! Two independent three-state machines move data from GPU storage to host
//! memory without blocking: one for the statistics block, one for point
//! picks. Each allows at most one outstanding map request; a staging
//! buffer is either writable by the GPU or mapped for the host, never
//! both, which the state transitions enforce.

use vstd::prelude::*;

verus! {

/// Where a readback stands: no work outstanding, a copy into the staging
/// buffer recorded, or a map of the staging buffer requested.
#[derive(Debug, Clone, Copy, PartialEq, Eq, Structural)]
pub enum ReadbackState {
    Idle,
    CopyIssued,
    MapRequested,
}

/// How many ticks pass between statistics readbacks.
pub const STATS_READBACK_INTERVAL: u32 = 10;

/// The statistics readback machine: the stats buffer is copied to staging
/// every tick, and every ten ticks the machine maps the staging buffer and
/// publishes a snapshot.
#[derive(Debug, Clone, Copy, PartialEq, Eq, Structural)]
pub struct StatsReadback {
    pub state: ReadbackState,
    pub tick_counter: u32,
}

impl StatsReadback {
    pub fn new() -> (r: Self)
        ensures
            r.state == ReadbackState::Idle,
            r.tick_counter == 0,
    {
        StatsReadback { state: ReadbackState::Idle, tick_counter: 0 }
    }

    /// Record that `n` ticks ran this frame; the counter saturates rather
    /// than wraps.
    pub fn record_ticks(&mut self, n: u32)
        ensures
            final(self).state == old(self).state,
            final(self).tick_counter == if old(self).tick_counter + n <= u32::MAX {
                (old(self).tick_counter + n) as u32
            } else {
                u32::MAX
            },
    {
        if n <= u32::MAX - self.tick_counter {
            self.tick_counter = self.tick_counter + n;
        } else {
            self.tick_counter = u32::MAX;
        }
    }

    /// Whether a map of the stats staging buffer should be requested now:
    /// the machine is idle and ten or more ticks have run since the last
    /// snapshot.
    pub fn wants_map(&self) -> (r: bool)
        ensures
            r == (self.state == ReadbackState::Idle
                && self.tick_counter >= STATS_READBACK_INTERVAL),
    {
        matches!(self.state, ReadbackState::Idle)
            && self.tick_counter >= STATS_READBACK_INTERVAL
    }

    /// Request the map: only an idle machine may, so at most one map is
    /// ever outstanding.
    pub fn begin_map(&mut self)
        requires
            old(self).state == ReadbackState::Idle,
        ensures
            final(self).state == ReadbackState::MapRequested,
            final(self).tick_counter == 0,
    {
        self.tick_counter = 0;
        self.state = ReadbackState::MapRequested;
    }

    /// The map callback fired and the snapshot was read and unmapped: the
    /// machine returns to idle and the staging buffer is writable again.
    pub fn finish_map(&mut self)
        requires
            old(self).state == ReadbackState::MapRequested,
        ensures
            final(self).state == ReadbackState::Idle,
            final(self).tick_counter == old(self).tick_counter,
    {
        self.state = ReadbackState::Idle;
    }
}

/// The pick readback machine: on an explicit host request the target
/// voxel is copied to staging, mapped, parsed and published.
#[derive(Debug, Clone, Copy, PartialEq, Eq)]
pub struct PickReadback {
    pub state: ReadbackState,
    pub requested: bool,
    pub target: (u32, u32, u32),
}

impl PickReadback {
    pub fn new() -> (r: Self)
        ensures
            r.state == ReadbackState::Idle,
            !r.requested,
    {
        PickReadback { state: ReadbackState::Idle, requested: false, target: (0, 0, 0) }
    }

    /// The host asks for the voxel at `(x, y, z)`.
    pub fn request(&mut self, x: u32, y: u32, z: u32)
        ensures
            final(self).state == old(self).state,
            final(self).requested,
            final(self).target == (x, y, z),
    {
        self.requested = true;
        self.target = (x, y, z);
    }

    /// Whether a copy to the pick staging buffer should be recorded now:
    /// a request is pending and the machine is idle, so the staging buffer
    /// is unmapped and writable.
    pub fn wants_copy(&self) -> (r: bool)
        ensures
            r == (self.requested && self.state == ReadbackState::Idle),
    {
        self.requested && matches!(self.state, ReadbackState::Idle)
    }

    /// The copy was recorded into this frame's command stream.
    pub fn begin_copy(&mut self)
        requires
            old(self).state == ReadbackState::Idle,
        ensures
            final(self).state == ReadbackState::CopyIssued,
            final(self).requested == old(self).requested,
            final(self).target == old(self).target,
    {
        self.state = ReadbackState::CopyIssued;
    }

    /// The map of the staging buffer was requested: only after the copy,
    /// so at most one map is ever outstanding.
    pub fn begin_map(&mut self)
        requires
            old(self).state == ReadbackState::CopyIssued,
        ensures
            final(self).state == ReadbackState::MapRequested,
            final(self).requested == old(self).requested,
            final(self).target == old(self).target,
    {
        self.state = ReadbackState::MapRequested;
    }

    /// The callback fired and the voxel was read, parsed and unmapped: the
    /// machine returns to idle and the request is consumed. Returns the
    /// requested coordinates.
    pub fn finish_map(&mut self) -> (r: (u32, u32, u32))
        requires
            old(self).state == ReadbackState::MapRequested,
        ensures
            final(self).state == ReadbackState::Idle,
            !final(self).requested,
            r == old(self).target,
    {
        self.state = ReadbackState::Idle;
        self.requested = false;
        self.target
    }
}

} // verus!
