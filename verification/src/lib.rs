//! Frame pacing and audio ring buffering for a small SDL-style multimedia
//! layer. The window, canvas, audio device and input plumbing live outside
//! this crate; what lives here is the logic that is worth reasoning about:
//! measuring and smoothing per-frame elapsed time, deciding how long to idle
//! to hit a frame-rate cap, sizing each frame's audio synthesis so the ring
//! buffer neither starves nor grows without bound, and tracking virtual
//! gamepad state. All durations are integer nanoseconds.

use vstd::prelude::*;

pub mod audio;
pub mod clock;
pub mod gamepad;
pub mod scaling;
pub mod timing;
pub mod window;

pub use audio::AudioInput;
pub use audio::StereoFrame;
pub use clock::FrameClock;
pub use clock::IdleAction;
pub use gamepad::Button;
pub use gamepad::GamePad;
pub use scaling::Scaling;
pub use timing::Timing;

verus! {

/// Nanoseconds per second.
pub const NANOS_PER_SEC: u64 = 1_000_000_000;

/// Quantization step for smoothed elapsed time: 1/1440 s, a common divisor of
/// typical display intervals (6x 60 Hz, 3x 120 Hz), rounded down to whole
/// nanoseconds.
pub const ELAPSED_QUANT_NANOS: u64 = 694_444;

/// The multiple of `size` nearest to `value` (ties round up), except that a
/// nearest multiple of zero falls back to `value` itself.
pub open spec fn quantize_spec(value: int, size: int) -> int
    recommends
        0 <= value,
        0 < size,
{
    let rounded = ((value + size / 2) / size) * size;
    if rounded == 0 {
        value
    } else {
        rounded
    }
}

/// Rounds a duration to the nearest multiple of a quantization step. When the
/// nearest multiple is zero (the duration is shorter than half a step), the
/// duration is returned unchanged instead, so that a positive measurement is
/// never quantized away to nothing.
pub fn quantize(value: u64, size: u64) -> (r: u64)
    requires
        size > 0,
        value + size / 2 <= u64::MAX,
    ensures
        r == quantize_spec(value as int, size as int),
        r % size == 0 || r == value,
        -(size as int / 2) <= r - value <= size as int / 2,
{
    let half = size / 2;
    let steps = (value + half) / size;
    proof {
        let v = (value + half) as int;
        let s = size as int;
        vstd::arithmetic::div_mod::lemma_fundamental_div_mod(v, s);
        vstd::arithmetic::div_mod::lemma_mod_bound(v, s);
        assert(steps as int * s == s * (v / s)) by (nonlinear_arith)
            requires
                steps == v / s,
        ;
        vstd::arithmetic::div_mod::lemma_mod_multiples_basic(steps as int, s);
    }
    let rounded = steps * size;
    if rounded == 0 {
        value
    } else {
        rounded
    }
}

/// A value with exactly one bit set, i.e. a power of two.
pub open spec fn is_power_of_two_u32(x: u32) -> bool {
    x >= 1 && (x & ((x - 1) as u32)) == 0
}

/// The smallest power of two that is at least `n`; used to pick a square
/// texture size that can hold a glyph atlas.
pub fn next_power_of_two(n: u32) -> (r: u32)
    requires
        1 <= n <= 0x8000_0000,
    ensures
        is_power_of_two_u32(r),
        n <= r,
        r < 2 * n,
{
    if n & (n - 1) == 0 {
        return n;
    }
    let m0 = n - 1;
    let m1 = m0 | (m0 >> 1);
    let m2 = m1 | (m1 >> 2);
    let m3 = m2 | (m2 >> 4);
    let m4 = m3 | (m3 >> 8);
    let m5 = m4 | (m4 >> 16);
    proof {
        assert(m5 <= 0x7fff_ffffu32 && (((m5 + 1) as u32) & m5) == 0 && m5 + 1 >= n && m5 + 1 < 2
            * n) by (bit_vector)
            requires
                1 <= n <= 0x8000_0000u32,
                n & ((n - 1) as u32) != 0,
                m0 == (n - 1) as u32,
                m1 == m0 | (m0 >> 1u32),
                m2 == m1 | (m1 >> 2u32),
                m3 == m2 | (m2 >> 4u32),
                m4 == m3 | (m3 >> 8u32),
                m5 == m4 | (m4 >> 16u32),
        ;
    }
    m5 + 1
}

} // verus!
