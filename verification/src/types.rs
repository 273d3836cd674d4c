//! The record of a crash.

use crate::buffer;
use crate::fuzz::stats::Stats;
use crate::fuzz::stats::StatsView;
use vstd::prelude::*;

verus! {

/// This represents a crash: the buffer that is held to have triggered it,
/// the buffers that were sent before the health check failed, most recent
/// first, and the statistics at that time.
#[derive(Clone, Debug)]
pub struct Crash {
    /// The triggering buffer.
    pub buffer: Vec<u8>,
    /// The recently sent buffers, most recent first.
    pub last_send_buffers: Vec<Vec<u8>>,
    /// The statistics when the crash was found.
    pub stats: Stats,
}

/// The record of a crash as a mathematical value.
pub struct CrashView {
    /// The triggering buffer.
    pub buffer: Seq<u8>,
    /// The recently sent buffers, most recent first.
    pub window: Seq<Seq<u8>>,
    /// The statistics when the crash was found.
    pub stats: StatsView,
}

impl CrashView {
    /// The record of a crash of the engine: the window is not empty and
    /// ends with the triggering buffer.
    pub open spec fn well_formed(self) -> bool {
        self.window.len() > 0 && self.window.last() == self.buffer
    }
}

impl View for Crash {
    type V = CrashView;

    open spec fn view(&self) -> CrashView {
        CrashView { buffer: self.buffer@, window: self.window(), stats: self.stats@ }
    }
}

impl Crash {
    /// The recently sent buffers as sequences of bytes.
    pub open spec fn window(&self) -> Seq<Seq<u8>> {
        buffer::buffers_view(self.last_send_buffers@)
    }

    /// The record of a crash of the engine: the window is not empty and
    /// ends with the triggering buffer.
    pub open spec fn well_formed(&self) -> bool {
        self@.well_formed()
    }
}

} // verus!
