use vstd::prelude::*;

verus! {

/// The timing strategy used on every frame advance. Frame-rate limits are
/// whole frames per second; a limit must be at least 1.
#[derive(Clone, Copy, Debug, PartialEq, Eq, Structural, Default)]
pub enum Timing {
    /// Frame timing is driven by the display: the present call blocks until
    /// the next vertical sync. Smoothest option; elapsed time is quantized so
    /// that delta timing sees stable, display-shaped intervals.
    #[default]
    Vsync,
    /// Draw as fast as possible; elapsed time is reported raw.
    Immediate,
    /// Like `Vsync`, but additionally keeps the frame rate from going past
    /// the given limit by idling at the end of each frame.
    VsyncLimitFPS(u32),
    /// Limits the frame rate by idling, without attempting vsync.
    ImmediateLimitFPS(u32),
}

impl Timing {
    /// The configured frame-rate cap, if any.
    pub open spec fn fps_limit(self) -> Option<u32> {
        match self {
            Timing::Vsync => None,
            Timing::Immediate => None,
            Timing::VsyncLimitFPS(f) => Some(f),
            Timing::ImmediateLimitFPS(f) => Some(f),
        }
    }

    /// Whether this mode idles at the end of a frame to cap the frame rate.
    pub open spec fn has_limit(self) -> bool {
        self.fps_limit() is Some
    }

    /// Whether this mode aligns with the display's vertical sync, which is
    /// when elapsed time is quantized.
    pub open spec fn is_vsync_family(self) -> bool {
        self is Vsync || self is VsyncLimitFPS
    }

    /// A frame-rate limit of zero would make the target frame duration
    /// undefined; configurations must keep limits positive.
    pub open spec fn wf(self) -> bool {
        self.fps_limit() matches Some(f) ==> f >= 1
    }
}

} // verus!
