use vstd::prelude::*;
use smooth_buffer::SmoothBuffer;

verus! {

/// Upper bound on any value stored in the update-time window. It keeps the
/// window's running sum of 60 values far inside `i64`; a single frame taking
/// longer than this (eleven days) is beyond any real frame loop.
pub const MAX_UPDATE_SAMPLE_NANOS: u64 = 1_000_000_000_000_000;

/// A fixed window of the last 60 update times, held in an outside ring
/// buffer that keeps a running sum so its average costs nothing to read.
/// Opaque here; everything known about it is said over `window_of`.
#[verifier::external_body]
pub struct UpdateWindow {
    inner: SmoothBuffer<60, i64>,
}

/// The values held by an update-time window, oldest first.
pub uninterp spec fn window_of(b: UpdateWindow) -> Seq<i64>;

/// The sum of the values in a window.
pub open spec fn window_sum(s: Seq<i64>) -> int
    decreases s.len(),
{
    if s.len() == 0 {
        0
    } else {
        window_sum(s.drop_last()) + s.last()
    }
}

/// All values in a window are plausible update times: non-negative and small
/// enough that a full window's sum stays inside `i64`.
pub open spec fn window_bounded(s: Seq<i64>) -> bool {
    forall|i: int| 0 <= i < s.len() ==> 0 <= #[trigger] s[i] <= MAX_UPDATE_SAMPLE_NANOS
}

pub proof fn lemma_window_sum_bounds(s: Seq<i64>)
    requires
        window_bounded(s),
    ensures
        0 <= window_sum(s) <= s.len() * MAX_UPDATE_SAMPLE_NANOS,
    decreases s.len(),
{
    if s.len() > 0 {
        assert(window_bounded(s.drop_last()));
        lemma_window_sum_bounds(s.drop_last());
    }
}

/// Relies on smooth_buffer::SmoothBuffer::pre_filled: builds a buffer filled
/// to capacity with `value`, whose running sum is `value` times the capacity
/// (the bound on `value` keeps that product inside `i64`).
#[verifier::external_body]
pub(crate) fn window_pre_filled(value: i64) -> (r: UpdateWindow)
    requires
        0 <= value <= MAX_UPDATE_SAMPLE_NANOS,
    ensures
        window_of(r) == Seq::new(60, |i: int| value),
{
    UpdateWindow { inner: SmoothBuffer::pre_filled(value) }
}

/// Relies on smooth_buffer::SmoothBuffer::push: pushing into a full buffer
/// overwrites the oldest value with the new one and adjusts the running sum
/// by their difference (the bounds keep that arithmetic inside `i64`).
#[verifier::external_body]
pub(crate) fn window_push(b: &mut UpdateWindow, value: i64)
    requires
        0 <= value <= MAX_UPDATE_SAMPLE_NANOS,
        window_of(*old(b)).len() == 60,
        window_bounded(window_of(*old(b))),
    ensures
        window_of(*final(b)) == window_of(*old(b)).subrange(1, 60).push(value),
{
    b.inner.push(value);
}

/// Relies on smooth_buffer::SmoothBuffer::average: the running sum divided by
/// the value count, here always a full 60 (truncating division, which equals
/// Euclidean division because the bounded values keep the sum non-negative).
#[verifier::external_body]
pub(crate) fn window_average(b: &UpdateWindow) -> (r: i64)
    requires
        window_of(*b).len() == 60,
        window_bounded(window_of(*b)),
    ensures
        r == window_sum(window_of(*b)) / 60,
{
    b.inner.average()
}

} // verus!
