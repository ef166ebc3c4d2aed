use vstd::prelude::*;

verus! {

/// The scaling strategy used when presenting the fixed-resolution render
/// target or pixel buffer inside the window.
#[derive(Clone, Copy, Debug, PartialEq, Eq, Structural, Default)]
pub enum Scaling {
    /// Fits the render target to the window while preserving the aspect
    /// ratio, with black bars on the sides that do not fit.
    #[default]
    PreserveAspect,
    /// Like `PreserveAspect`, but the scale factor is a whole number, for
    /// crisp pixel art; usually increases the black bars.
    Integer,
    /// Stretches the render target to the whole window, disregarding the
    /// aspect ratio.
    StretchToWindow,
}

} // verus!
