//! The animation runner: a state machine that hands frames to an external
//! sink one at a time and stops for good on the first delivery failure.
//!
//! The loop that actually mutates the sink and sleeps between frames lives
//! outside the library; it asks the runner for the next frame, delivers it,
//! and reports back whether the delivery succeeded.
use vstd::prelude::*;

use crate::cycle::{cycle_frame, window_generator, WindowCycle};
use crate::errors::WindowError;
use crate::frames::frames_seq;
use crate::options::TextWindowOptions;

verus! {

/// Where a run stands: ready to hand out the next frame, waiting to hear
/// how its delivery went, or aborted after a failed delivery.
#[derive(Clone, Copy, Debug, PartialEq, Eq, Structural)]
pub enum RunStatus {
    Ready,
    Awaiting,
    Aborted,
}

/// One animation run over one sink.
pub struct Runner {
    cycle: WindowCycle,
    delay: u64,
    issued: u64,
    status: RunStatus,
}

impl Runner {
    /// The frame sequence this run repeats.
    pub closed spec fn model(&self) -> Seq<Seq<char>> {
        self.cycle.model()
    }

    /// Milliseconds the caller is to wait between two frames.
    pub closed spec fn delay_spec(&self) -> u64 {
        self.delay
    }

    /// How many frames have been handed out so far.
    pub closed spec fn issued_spec(&self) -> u64 {
        self.issued
    }

    /// Where the run stands.
    pub closed spec fn status_spec(&self) -> RunStatus {
        self.status
    }

    /// The run repeats a non-empty frame sequence and its cycle stands at
    /// the frame that comes after the ones already handed out.
    pub closed spec fn wf(&self) -> bool {
        &&& self.cycle.wf()
        &&& self.cycle.taken() == self.issued as int
    }

    /// Starts a run for validated options; fails with `InvalidWindowSize`
    /// when the window is narrower than the text.
    pub fn new(options: &TextWindowOptions) -> (r: Result<Runner, WindowError>)
        ensures
            match r {
                Ok(run) => {
                    &&& options.text@.len() <= options.window_size
                    &&& run.wf()
                    &&& run.model() == frames_seq(
                        options.text@,
                        options.background,
                        options.window_size as int,
                        options.style,
                    )
                    &&& run.issued_spec() == 0
                    &&& run.status_spec() == RunStatus::Ready
                    &&& run.delay_spec() == options.delay
                },
                Err(e) => e == WindowError::InvalidWindowSize && options.text@.len()
                    > options.window_size,
            },
    {
        let cycle = match window_generator(
            options.text.as_str(),
            options.background,
            options.window_size,
            options.style,
        ) {
            Ok(c) => c,
            Err(e) => {
                return Err(e);
            },
        };
        Ok(Runner { cycle, delay: options.delay, issued: 0, status: RunStatus::Ready })
    }

    /// Milliseconds the caller is to wait between two frames.
    pub fn delay_ms(&self) -> (r: u64)
        ensures
            r == self.delay_spec(),
    {
        self.delay
    }

    /// How many frames have been handed out so far.
    pub fn frames_issued(&self) -> (r: u64)
        ensures
            r == self.issued_spec(),
    {
        self.issued
    }

    /// Whether the run has aborted after a failed delivery.
    pub fn is_aborted(&self) -> (r: bool)
        ensures
            r == (self.status_spec() == RunStatus::Aborted),
    {
        match self.status {
            RunStatus::Aborted => true,
            _ => false,
        }
    }

    /// Hands out the next frame to deliver: the frame at the logical
    /// position equal to the count of frames already handed out.  The run
    /// then waits to hear how the delivery went.
    pub fn take_frame(&mut self) -> (frame: String)
        requires
            old(self).wf(),
            old(self).status_spec() == RunStatus::Ready,
            old(self).issued_spec() < u64::MAX,
        ensures
            final(self).wf(),
            final(self).model() == old(self).model(),
            final(self).delay_spec() == old(self).delay_spec(),
            final(self).issued_spec() == old(self).issued_spec() + 1,
            final(self).status_spec() == RunStatus::Awaiting,
            frame@ == cycle_frame(old(self).model(), old(self).issued_spec() as int),
    {
        let frame = self.cycle.next_frame();
        self.issued = self.issued + 1;
        self.status = RunStatus::Awaiting;
        frame
    }

    /// Records how the delivery of the last handed-out frame went.  On
    /// success the run is ready for the next frame; on failure it aborts,
    /// and no further frame can be taken from it.
    pub fn record_delivery(&mut self, delivered: bool)
        requires
            old(self).wf(),
            old(self).status_spec() == RunStatus::Awaiting,
        ensures
            final(self).wf(),
            final(self).model() == old(self).model(),
            final(self).delay_spec() == old(self).delay_spec(),
            final(self).issued_spec() == old(self).issued_spec(),
            final(self).status_spec() == if delivered {
                RunStatus::Ready
            } else {
                RunStatus::Aborted
            },
    {
        self.status = if delivered {
            RunStatus::Ready
        } else {
            RunStatus::Aborted
        };
    }
}

} // verus!
