//! A window without a screen: its size, the pacing of its frames, and what a
//! frame tells it to do.

use vstd::prelude::*;
use crate::camera::Viewport;

verus! {

/// What the host asks of a window.
#[derive(Debug)]
pub struct WindowSettings {
    pub title: String,
    /// The smallest size in logical pixels.
    pub min_size: (u32, u32),
    /// The largest size in logical pixels, if there is one.
    pub max_size: Option<(u32, u32)>,
}

/// A window of a fixed size.
#[derive(Debug)]
pub struct Window {
    width: u32,
    height: u32,
}

impl Window {
    /// The size of the window.
    pub closed spec fn spec_size(&self) -> (u32, u32) {
        (self.width, self.height)
    }

    /// A window of the largest size that the settings allow, or of the
    /// smallest where they name no largest.
    pub fn new(window_settings: WindowSettings) -> (w: Window)
        ensures
            w.spec_size() == (match window_settings.max_size {
                Some(size) => size,
                None => window_settings.min_size,
            }),
    {
        match window_settings.max_size {
            Some(size) => Window { width: size.0, height: size.1 },
            None => Window {
                width: window_settings.min_size.0,
                height: window_settings.min_size.1,
            },
        }
    }

    /// The logical size of the window.
    pub fn size(&self) -> (s: (u32, u32))
        ensures
            s == self.spec_size(),
    {
        (self.width, self.height)
    }

    /// The viewport of the window in physical pixels: the whole window,
    /// from the origin.
    pub fn viewport(&self) -> (v: Viewport)
        ensures
            v == (Viewport {
                x: 0,
                y: 0,
                width: self.spec_size().0,
                height: self.spec_size().1,
            }),
    {
        Viewport::new_at_origo(self.width, self.height)
    }
}

/// What a frame tells the window to do next.
#[derive(Clone, Copy, Debug, PartialEq, Eq, Structural)]
pub struct FrameOutput {
    /// Close the window and stop the render loop.
    pub exit: bool,
    /// Swap the back and the front buffer.
    pub swap_buffers: bool,
    /// Stop the render loop until the next event.
    pub wait_next_event: bool,
}

impl Default for FrameOutput {
    /// Keep running, show what was rendered, and do not wait.
    fn default() -> (out: FrameOutput)
        ensures
            out == (FrameOutput { exit: false, swap_buffers: true, wait_next_event: false }),
    {
        FrameOutput { exit: false, swap_buffers: true, wait_next_event: false }
    }
}

/// The shortest time between two frames, in nanoseconds: a frame is due
/// once more than 30 whole milliseconds have passed.
pub const FRAME_INTERVAL_NANOS: u64 = 31_000_000;

/// The time of a frame.
#[derive(Clone, Copy, Debug, PartialEq, Eq, Structural)]
pub struct FrameTime {
    /// Nanoseconds since the last frame.
    pub elapsed: u64,
    /// Nanoseconds of all frames so far, this one included.
    pub accumulated: u64,
    /// Whether this is the first frame.
    pub first_frame: bool,
}

/// Paces the frames of a render loop that runs for a set time.
#[derive(Clone, Copy, Debug, PartialEq, Eq, Structural)]
pub struct FrameClock {
    /// The loop ends once the accumulated time reaches this.
    pub exit_time: u64,
    pub accumulated: u64,
    pub first_frame: bool,
}

impl FrameClock {
    /// A clock that has seen no frame yet.
    pub fn new(exit_time: u64) -> (c: FrameClock)
        ensures
            c == (FrameClock { exit_time, accumulated: 0, first_frame: true }),
    {
        FrameClock { exit_time, accumulated: 0, first_frame: true }
    }

    /// Whether the loop goes on.
    pub fn running(&self) -> (b: bool)
        ensures
            b == (self.exit_time > self.accumulated),
    {
        self.exit_time > self.accumulated
    }

    /// Looks at the time since the last frame. If a frame is due, the time
    /// is added to the accumulated time, which stops at the largest value
    /// it can hold, and the frame's time is returned; else nothing changes.
    pub fn tick(&mut self, since_last_frame: u64) -> (frame: Option<FrameTime>)
        ensures
            since_last_frame < FRAME_INTERVAL_NANOS ==> frame is None && *final(self) == *old(self),
            since_last_frame >= FRAME_INTERVAL_NANOS ==> {
                let total = if old(self).accumulated + since_last_frame > u64::MAX {
                    u64::MAX
                } else {
                    (old(self).accumulated + since_last_frame) as u64
                };
                &&& frame == Some(
                    FrameTime {
                        elapsed: since_last_frame,
                        accumulated: total,
                        first_frame: old(self).first_frame,
                    },
                )
                &&& *final(self) == (FrameClock {
                    exit_time: old(self).exit_time,
                    accumulated: total,
                    first_frame: false,
                })
            },
    {
        if since_last_frame < FRAME_INTERVAL_NANOS {
            return None;
        }
        let total: u64 = if since_last_frame > u64::MAX - self.accumulated {
            u64::MAX
        } else {
            self.accumulated + since_last_frame
        };
        let frame: FrameTime = FrameTime {
            elapsed: since_last_frame,
            accumulated: total,
            first_frame: self.first_frame,
        };
        self.accumulated = total;
        self.first_frame = false;
        Some(frame)
    }
}

} // verus!
