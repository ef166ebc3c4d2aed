use vstd::prelude::*;

verus! {

/// A single audio sample: one left and one right channel value.
#[derive(Clone, Copy, Debug, PartialEq, Eq, Structural)]
pub struct StereoFrame {
    pub left: i16,
    pub right: i16,
}

/// The scalar samples of `frames` in interleaved playback order:
/// left, right, left, right, ...
pub open spec fn interleaved(frames: Seq<StereoFrame>) -> Seq<i16>
    decreases frames.len(),
{
    if frames.len() == 0 {
        Seq::empty()
    } else {
        interleaved(frames.drop_last()).push(frames.last().left).push(frames.last().right)
    }
}

pub proof fn lemma_interleaved_len(frames: Seq<StereoFrame>)
    ensures
        interleaved(frames).len() == 2 * frames.len(),
    decreases frames.len(),
{
    if frames.len() > 0 {
        lemma_interleaved_len(frames.drop_last());
    }
}

/// The ideal number of stereo frames for one application frame: elapsed time
/// times the device sample rate, rounded to the nearest whole frame.
pub open spec fn ideal_frames(rate: int, elapsed_nanos: int) -> int {
    (rate * elapsed_nanos + 500_000_000) / 1_000_000_000
}

/// The queued stereo frames to aim for: 20 ms of audio at the device rate,
/// enough slack to absorb frame-time jitter without audible latency.
pub open spec fn target_frames(rate: int) -> int {
    rate / 50
}

/// The sizing policy: emit the ideal count, reduced by however far the queue
/// is already past the target, and nothing at all (`None`) when that excess
/// covers the whole ideal count.
pub open spec fn sizing(rate: int, elapsed_nanos: int, queued: int) -> Option<int> {
    let ideal = ideal_frames(rate, elapsed_nanos);
    let target = target_frames(rate);
    if queued > target {
        let overflow = queued - target;
        if overflow >= ideal {
            None
        } else {
            Some(ideal - overflow)
        }
    } else {
        Some(ideal)
    }
}

/// The scalar samples left in a queue after draining `requested` of them from
/// the head.
pub open spec fn drained(samples: Seq<i16>, requested: int) -> Seq<i16> {
    if requested >= samples.len() {
        Seq::empty()
    } else {
        samples.subrange(requested, samples.len() as int)
    }
}

/// How many real (queued, not padding) samples a drain of `requested` yields:
/// `requested` itself, or the whole queue when that is shorter.
pub open spec fn real_drain_count(samples: Seq<i16>, requested: int) -> int {
    if requested <= samples.len() {
        requested
    } else {
        samples.len() as int
    }
}

/// A queue of interleaved stereo samples waiting for the audio device, plus
/// the device sample rate once audio has been opened. The application thread
/// pushes once per frame; the audio backend's callback drains on its own
/// thread (the surrounding program serializes the two sides).
pub struct AudioInput {
    buffer: Vec<i16>,
    sample_rate: Option<u32>,
}

impl AudioInput {
    /// The queued scalar samples, in playback order, oldest first.
    pub closed spec fn samples(self) -> Seq<i16> {
        self.buffer@
    }

    /// The device sample rate, or `None` while audio is unavailable.
    pub closed spec fn spec_rate(self) -> Option<u32> {
        self.sample_rate
    }

    /// Queued stereo frames: two scalar samples each.
    pub open spec fn queued_frames(self) -> int {
        self.samples().len() as int / 2
    }

    /// A sample rate of zero would make every sizing quantity undefined;
    /// configurations must keep it positive.
    pub open spec fn wf(self) -> bool {
        self.spec_rate() matches Some(r) ==> r >= 1
    }

    /// What the sizing query answers on this state: `None` while audio is
    /// unavailable or while the queue is far enough ahead, otherwise the
    /// count of stereo frames to synthesize.
    pub open spec fn spec_samples_per_frame(self, elapsed_nanos: u64) -> Option<int> {
        match self.spec_rate() {
            Option::None => Option::None,
            Option::Some(rate) => sizing(rate as int, elapsed_nanos as int, self.queued_frames()),
        }
    }

    /// An empty queue with no audio device opened yet.
    pub fn new() -> (r: Self)
        ensures
            r.samples() =~= Seq::<i16>::empty(),
            r.spec_rate() is None,
            r.wf(),
    {
        AudioInput { buffer: Vec::new(), sample_rate: Option::None }
    }

    /// Records the sample rate of the opened audio device.
    pub fn set_sample_rate(&mut self, rate: u32)
        requires
            rate >= 1,
        ensures
            final(self).spec_rate() == Some(rate),
            final(self).samples() == old(self).samples(),
            final(self).wf(),
    {
        self.sample_rate = Option::Some(rate);
    }

    /// The device sample rate, if audio was opened.
    pub fn mixrate(&self) -> (r: Option<u32>)
        ensures
            r == self.spec_rate(),
    {
        self.sample_rate
    }

    /// The length of the queue in scalar samples.
    pub fn buffer_len(&self) -> (r: usize)
        ensures
            r == self.samples().len(),
    {
        self.buffer.len()
    }

    /// Appends a single stereo frame to the tail of the queue.
    pub fn push_sample(&mut self, frame: StereoFrame)
        ensures
            final(self).samples() == old(self).samples().push(frame.left).push(frame.right),
            final(self).spec_rate() == old(self).spec_rate(),
    {
        self.buffer.push(frame.left);
        self.buffer.push(frame.right);
    }

    /// Appends a slice of stereo frames to the tail of the queue, in order.
    pub fn push_samples(&mut self, frames: &[StereoFrame])
        ensures
            final(self).samples() == old(self).samples() + interleaved(frames@),
            final(self).spec_rate() == old(self).spec_rate(),
    {
        let ghost orig = self.buffer@;
        let n = frames.len();
        let mut i: usize = 0;
        while i < n
            invariant
                i <= n,
                n == frames@.len(),
                self.buffer@ == orig + interleaved(frames@.subrange(0, i as int)),
                self.sample_rate == old(self).spec_rate(),
            decreases n - i,
        {
            let f = frames[i];
            self.buffer.push(f.left);
            self.buffer.push(f.right);
            proof {
                let pre = frames@.subrange(0, i as int);
                let post = frames@.subrange(0, i + 1);
                assert(post.drop_last() =~= pre);
                assert(post.last() == frames@[i as int]);
                assert(orig + interleaved(post) =~= (orig + interleaved(pre)).push(
                    frames@[i as int].left,
                ).push(frames@[i as int].right));
            }
            i += 1;
        }
        proof {
            assert(frames@.subrange(0, n as int) =~= frames@);
        }
    }

    /// Removes up to `requested` scalar samples from the head of the queue,
    /// in playback order, and returns exactly `requested` samples; whatever
    /// the queue cannot supply is padded with zero-valued (silent) samples,
    /// so an underrun plays as silence rather than as garbage.
    pub fn drain_for_device(&mut self, requested: usize) -> (out: Vec<i16>)
        ensures
            out@.len() == requested,
            forall|j: int|
                0 <= j < real_drain_count(old(self).samples(), requested as int) ==> out@[j] == old(
                    self,
                ).samples()[j],
            forall|j: int|
                real_drain_count(old(self).samples(), requested as int) <= j < requested
                    ==> out@[j] == 0i16,
            final(self).samples() == drained(old(self).samples(), requested as int),
            final(self).spec_rate() == old(self).spec_rate(),
    {
        let len = self.buffer.len();
        let take = if requested < len {
            requested
        } else {
            len
        };
        let mut out: Vec<i16> = Vec::new();
        let mut j: usize = 0;
        while j < take
            invariant
                j <= take,
                take <= len,
                take <= requested,
                len == self.buffer@.len(),
                out@ =~= self.buffer@.subrange(0, j as int),
            decreases take - j,
        {
            let s = self.buffer[j];
            out.push(s);
            j += 1;
        }
        proof {
            assert(out@.subrange(0, take as int) =~= self.buffer@.subrange(0, take as int));
        }
        while j < requested
            invariant
                take <= j <= requested,
                take <= len,
                len == self.buffer@.len(),
                out@.len() == j,
                out@.subrange(0, take as int) =~= self.buffer@.subrange(0, take as int),
                forall|k: int| take <= k < j ==> out@[k] == 0i16,
            decreases requested - j,
        {
            out.push(0);
            j += 1;
        }
        let mut rest: Vec<i16> = Vec::new();
        let mut k: usize = take;
        while k < len
            invariant
                take <= k <= len,
                len == self.buffer@.len(),
                rest@ =~= self.buffer@.subrange(take as int, k as int),
            decreases len - k,
        {
            let s = self.buffer[k];
            rest.push(s);
            k += 1;
        }
        proof {
            assert(rest@ =~= drained(self.buffer@, requested as int));
            assert forall|jj: int| 0 <= jj < take implies out@[jj] == self.buffer@[jj] by {
                assert(out@.subrange(0, take as int)[jj] == out@[jj]);
                assert(self.buffer@.subrange(0, take as int)[jj] == self.buffer@[jj]);
            }
        }
        self.buffer = rest;
        out
    }

    /// The advisory count of stereo frames the caller should synthesize this
    /// application frame, sized from the frame's elapsed time; `None` while
    /// audio is unavailable, and also once the queue is far enough ahead of
    /// the device that synthesizing anything would only add latency. The
    /// bound on the ideal count is a machine limit: the answer must fit in
    /// `usize`.
    pub fn samples_per_frame(&self, elapsed_nanos: u64) -> (r: Option<usize>)
        requires
            self.wf(),
            self.spec_rate() matches Some(rate) ==> ideal_frames(
                rate as int,
                elapsed_nanos as int,
            ) <= usize::MAX,
        ensures
            r is Some <==> self.spec_samples_per_frame(elapsed_nanos) is Some,
            r matches Some(v) ==> self.spec_samples_per_frame(elapsed_nanos) == Some(v as int),
    {
        let rate: u32 = match self.sample_rate {
            Option::Some(r) => r,
            Option::None => {
                return Option::None;
            },
        };
        let queued: usize = self.buffer.len() / 2;
        let prod: u128 = (rate as u128) * (elapsed_nanos as u128);
        let ideal128: u128 = (prod + 500_000_000) / 1_000_000_000;
        proof {
            assert(ideal128 == ideal_frames(rate as int, elapsed_nanos as int));
        }
        let ideal: usize = ideal128 as usize;
        let target: usize = (rate / 50) as usize;
        if queued > target {
            let overflow = queued - target;
            if overflow >= ideal {
                Option::None
            } else {
                Option::Some(ideal - overflow)
            }
        } else {
            Option::Some(ideal)
        }
    }
}

/// The sizing query reads nothing but the sample rate and the length of the
/// queue: two states that agree on those (for instance, the same feeder asked
/// twice with no intervening push, drain, or frame start) answer the same.
pub proof fn lemma_samples_per_frame_idempotent(a: AudioInput, b: AudioInput, elapsed_nanos: u64)
    requires
        a.spec_rate() == b.spec_rate(),
        a.samples().len() == b.samples().len(),
    ensures
        a.spec_samples_per_frame(elapsed_nanos) == b.spec_samples_per_frame(elapsed_nanos),
{
}

/// Round-trip accounting: pushing some stereo frames and then draining twice
/// as many scalar samples returns the queue to its pre-push length.
pub proof fn lemma_push_drain_round_trip(samples: Seq<i16>, frames: Seq<StereoFrame>)
    ensures
        drained(samples + interleaved(frames), 2 * frames.len() as int).len() == samples.len(),
{
    lemma_interleaved_len(frames);
}

} // verus!
