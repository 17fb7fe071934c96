use vstd::prelude::*;
use vstd::arithmetic::div_mod::{
    lemma_add_mod_noop_right,
    lemma_mod_sub_multiples_vanish,
    lemma_small_mod,
};

verus! {

/// Sample rate used when the host cannot report a usable one.
pub const DEFAULT_SAMPLE_RATE: u32 = 44100;

/// The sample counter is a `u64`: it counts modulo this span and wraps
/// around to zero past `u64::MAX`.
pub open spec fn counter_span() -> nat {
    0x1_0000_0000_0000_0000nat
}

/// The sample rate an instance runs at, given what the host reported:
/// the host's rate, unless it is missing or zero.
pub open spec fn effective_rate(host_rate: Option<u32>) -> nat {
    match host_rate {
        Some(r) => if r > 0 { r as nat } else { DEFAULT_SAMPLE_RATE as nat },
        None => DEFAULT_SAMPLE_RATE as nat,
    }
}

/// Abstract state of the clock: a fixed sample rate and the number of
/// frames rendered so far (modulo `counter_span()`).
pub struct ClockView {
    pub sample_rate: nat,
    pub elapsed: nat,
}

/// A position of the oscillator: `samples` frames into the session at
/// `rate` frames per second, that is `samples / rate` seconds.
#[derive(Clone, Copy, Debug, PartialEq, Eq, Structural)]
pub struct Phase {
    pub samples: u64,
    pub rate: u32,
}

/// A running clock has a positive sample rate that fits a `u32`, and a
/// counter within the span of a `u64`.
pub open spec fn is_running(s: ClockView) -> bool {
    &&& 0 < s.sample_rate <= u32::MAX
    &&& s.elapsed < counter_span()
}

/// The clock after `frames` more frames have been rendered.
pub open spec fn advanced(s: ClockView, frames: nat) -> ClockView {
    ClockView { sample_rate: s.sample_rate, elapsed: (s.elapsed + frames) % counter_span() }
}

/// The phase of frame `i` of a block that starts when the clock is at `s`.
pub open spec fn frame_phase(s: ClockView, i: nat) -> Phase {
    Phase { samples: ((s.elapsed + i) % counter_span()) as u64, rate: s.sample_rate as u32 }
}

/// Total number of frames in a sequence of blocks.
pub open spec fn total_frames(blocks: Seq<nat>) -> nat
    decreases blocks.len(),
{
    if blocks.len() == 0 {
        0
    } else {
        blocks[0] + total_frames(blocks.drop_first())
    }
}

/// The clock after rendering each block of `blocks` in turn.
pub open spec fn after_blocks(s: ClockView, blocks: Seq<nat>) -> ClockView
    decreases blocks.len(),
{
    if blocks.len() == 0 {
        s
    } else {
        after_blocks(advanced(s, blocks[0]), blocks.drop_first())
    }
}

/// Picks the sample rate an instance runs at: the host's, unless it is
/// missing or zero.
pub fn resolve_sample_rate(host_rate: Option<u32>) -> (r: u32)
    ensures
        r as nat == effective_rate(host_rate),
        r > 0,
{
    match host_rate {
        Some(r) if r > 0 => r,
        _ => DEFAULT_SAMPLE_RATE,
    }
}

/// Tracks the frames rendered over a session at a fixed sample rate, and
/// turns that count into the oscillator's phase.
pub struct Clock {
    sample_rate: u32,
    elapsed: u64,
}

impl View for Clock {
    type V = ClockView;

    closed spec fn view(&self) -> ClockView {
        ClockView { sample_rate: self.sample_rate as nat, elapsed: self.elapsed as nat }
    }
}

impl Clock {
    pub open spec fn wf(&self) -> bool {
        is_running(self@)
    }

    /// Starts a session at zero frames, at the host's sample rate or at
    /// `DEFAULT_SAMPLE_RATE` where the host gave none.
    pub fn new(host_rate: Option<u32>) -> (r: Clock)
        ensures
            r.wf(),
            r@.sample_rate == effective_rate(host_rate),
            r@.elapsed == 0,
    {
        Clock { sample_rate: resolve_sample_rate(host_rate), elapsed: 0 }
    }

    pub fn sample_rate(&self) -> (r: u32)
        ensures
            r as nat == self@.sample_rate,
    {
        self.sample_rate
    }

    pub fn elapsed_samples(&self) -> (r: u64)
        ensures
            r as nat == self@.elapsed,
    {
        self.elapsed
    }

    /// The phase of the next frame to be rendered.
    pub fn current_phase(&self) -> (r: Phase)
        ensures
            r == frame_phase(self@, 0),
    {
        proof {
            lemma_small_mod(self.elapsed as nat, counter_span());
        }
        Phase { samples: self.elapsed, rate: self.sample_rate }
    }

    /// The phase of frame `i` of the block that starts now.
    pub fn phase_at(&self, i: u64) -> (r: Phase)
        ensures
            r == frame_phase(self@, i as nat),
    {
        let samples = self.elapsed.wrapping_add(i);
        proof {
            lemma_wrapping_sum(self.elapsed, i);
        }
        Phase { samples, rate: self.sample_rate }
    }

    /// Counts `frames` more frames as rendered.
    pub fn advance(&mut self, frames: u64)
        requires
            old(self).wf(),
        ensures
            final(self).wf(),
            final(self)@ == advanced(old(self)@, frames as nat),
    {
        let elapsed = self.elapsed.wrapping_add(frames);
        proof {
            lemma_wrapping_sum(self.elapsed, frames);
        }
        self.elapsed = elapsed;
    }
}

/// `wrapping_add` on `u64` is addition modulo `counter_span()`.
proof fn lemma_wrapping_sum(x: u64, y: u64)
    ensures
        x.wrapping_add(y) as nat == (x as nat + y as nat) % counter_span(),
{
    let s = x as nat + y as nat;
    if s < counter_span() {
        lemma_small_mod(s, counter_span());
    } else {
        lemma_mod_sub_multiples_vanish(s as int, counter_span() as int);
        lemma_small_mod((s - counter_span()) as nat, counter_span());
    }
}

/// Rendering `a + b` frames as one block or as a block of `a` frames
/// followed by a block of `b` frames gives the same phases frame for frame,
/// and leaves the clock in the same state: phase depends only on the
/// cumulative frame count.
pub proof fn lemma_split_blocks(s: ClockView, a: nat, b: nat)
    ensures
        forall|j: nat|
            j < b ==> #[trigger] frame_phase(advanced(s, a), j) == frame_phase(s, a + j),
        advanced(advanced(s, a), b) == advanced(s, a + b),
{
    assert forall|j: nat| j < b implies #[trigger] frame_phase(advanced(s, a), j)
        == frame_phase(s, a + j) by {
        lemma_mod_shift(s.elapsed, a, j);
    }
    lemma_mod_shift(s.elapsed, a, b);
}

/// `((e + a) % span + b) % span == (e + a + b) % span`.
proof fn lemma_mod_shift(e: nat, a: nat, b: nat)
    ensures
        ((e + a) % counter_span() + b) % counter_span() == (e + (a + b)) % counter_span(),
{
    lemma_add_mod_noop_right(b as int, (e + a) as int, counter_span() as int);
    assert((e + a) % counter_span() + b == b + (e + a) % counter_span());
    assert(b + (e + a) == e + (a + b));
}

/// However a run of frames is cut into blocks, the clock ends where one
/// block of the total length would leave it; short of wrapping around,
/// the counter has then moved on by exactly the total number of frames.
pub proof fn lemma_blocks_total(s: ClockView, blocks: Seq<nat>)
    requires
        s.elapsed < counter_span(),
    ensures
        after_blocks(s, blocks) == advanced(s, total_frames(blocks)),
        after_blocks(s, blocks).sample_rate == s.sample_rate,
        s.elapsed + total_frames(blocks) < counter_span() ==> after_blocks(s, blocks).elapsed
            == s.elapsed + total_frames(blocks),
    decreases blocks.len(),
{
    if blocks.len() == 0 {
        lemma_small_mod(s.elapsed, counter_span());
    } else {
        let next = advanced(s, blocks[0]);
        lemma_blocks_total(next, blocks.drop_first());
        lemma_mod_shift(s.elapsed, blocks[0], total_frames(blocks.drop_first()));
    }
    if s.elapsed + total_frames(blocks) < counter_span() {
        lemma_small_mod(s.elapsed + total_frames(blocks), counter_span());
    }
}

} // verus!
