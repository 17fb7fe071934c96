use vstd::prelude::*;
use crate::clock::{advanced, effective_rate, frame_phase, is_running, Clock, ClockView, Phase};

verus! {

/// The kind of plugin, as a host groups them.
#[derive(Clone, Copy, Debug, PartialEq, Eq, Structural)]
pub enum Category {
    Effect,
    Synth,
}

/// What the plugin says of itself to a host.
pub struct PluginInfo {
    pub name: String,
    pub unique_id: i32,
    pub inputs: i32,
    pub outputs: i32,
    pub category: Category,
}

/// A single-voice tone generator: every output channel receives the same
/// tone, whose phase follows the frames rendered since construction.
pub struct Whisper {
    clock: Clock,
}

impl View for Whisper {
    type V = ClockView;

    closed spec fn view(&self) -> ClockView {
        self.clock@
    }
}

/// Every channel of `channels` holds `frames` samples.
pub open spec fn block_shaped<T>(channels: Seq<Vec<T>>, frames: nat) -> bool {
    forall|c: int| 0 <= c < channels.len() ==> (#[trigger] channels[c])@.len() == frames
}

impl Whisper {
    pub open spec fn wf(&self) -> bool {
        is_running(self@)
    }

    /// Starts an instance at zero frames. `host_rate` is the sample rate the
    /// host reported, if it reported one; without one, or with zero, the
    /// instance runs at `DEFAULT_SAMPLE_RATE`.
    pub fn new(host_rate: Option<u32>) -> (r: Whisper)
        ensures
            r.wf(),
            r@.sample_rate == effective_rate(host_rate),
            r@.elapsed == 0,
    {
        Whisper { clock: Clock::new(host_rate) }
    }

    pub fn sample_rate(&self) -> (r: u32)
        ensures
            r as nat == self@.sample_rate,
    {
        self.clock.sample_rate()
    }

    pub fn elapsed_samples(&self) -> (r: u64)
        ensures
            r as nat == self@.elapsed,
    {
        self.clock.elapsed_samples()
    }

    /// The phase of the next frame to be rendered.
    pub fn current_phase(&self) -> (r: Phase)
        ensures
            r == frame_phase(self@, 0),
    {
        self.clock.current_phase()
    }

    /// Describes the plugin: a synthesizer with no inputs and two outputs.
    pub fn get_info(&self) -> (r: PluginInfo)
        ensures
            r.name@ == "Whisper"@,
            r.unique_id == 1337,
            r.inputs == 0,
            r.outputs == 2,
            r.category == Category::Synth,
    {
        PluginInfo {
            name: String::from_str("Whisper"),
            unique_id: 1337,
            inputs: 0,
            outputs: 2,
            category: Category::Synth,
        }
    }

    /// Renders one block of `frames` frames. Frame `i` gets the value of
    /// `tone` at the phase `i` frames past the current one, and that one
    /// value is written to every channel. The clock then moves on by
    /// `frames`, whether or not there were channels to write to.
    pub fn process<T: Copy, F: Fn(Phase) -> T>(
        &mut self,
        frames: usize,
        channels: &mut Vec<Vec<T>>,
        tone: F,
    )
        requires
            old(self).wf(),
            block_shaped(old(channels)@, frames as nat),
            forall|p: Phase| tone.requires((p,)),
        ensures
            final(self).wf(),
            final(self)@ == advanced(old(self)@, frames as nat),
            final(channels)@.len() == old(channels)@.len(),
            block_shaped(final(channels)@, frames as nat),
            forall|c: int, i: int|
                0 <= c < final(channels)@.len() && 0 <= i < frames ==> tone.ensures(
                    (frame_phase(old(self)@, i as nat),),
                    #[trigger] final(channels)@[c]@[i],
                ),
            forall|c: int, i: int|
                0 <= c < final(channels)@.len() && 0 <= i < frames
                    ==> #[trigger] final(channels)@[c]@[i] == final(channels)@[0]@[i],
            old(channels)@.len() == 0 ==> final(channels)@ == old(channels)@,
    {
        let ghost start = self@;
        let ghost before = channels@;
        let n_channels = channels.len();
        let mut i: usize = 0;
        while i < frames
            invariant
                self.clock@ == start,
                self.wf(),
                0 <= i <= frames,
                channels@.len() == n_channels,
                n_channels == before.len(),
                block_shaped(channels@, frames as nat),
                forall|p: Phase| tone.requires((p,)),
                forall|c: int, j: int|
                    0 <= c < n_channels && 0 <= j < i ==> tone.ensures(
                        (frame_phase(start, j as nat),),
                        #[trigger] channels@[c]@[j],
                    ),
                forall|c: int, j: int|
                    0 <= c < n_channels && 0 <= j < i ==> #[trigger] channels@[c]@[j]
                        == channels@[0]@[j],
            decreases frames - i,
        {
            let value = tone(self.clock.phase_at(i as u64));
            let mut c: usize = 0;
            while c < n_channels
                invariant
                    0 <= i < frames,
                    0 <= c <= n_channels,
                    channels@.len() == n_channels,
                    block_shaped(channels@, frames as nat),
                    tone.ensures((frame_phase(start, i as nat),), value),
                    forall|k: int, j: int|
                        0 <= k < n_channels && 0 <= j < i ==> tone.ensures(
                            (frame_phase(start, j as nat),),
                            #[trigger] channels@[k]@[j],
                        ),
                    forall|k: int, j: int|
                        0 <= k < n_channels && 0 <= j < i ==> #[trigger] channels@[k]@[j]
                            == channels@[0]@[j],
                    forall|k: int| 0 <= k < c ==> (#[trigger] channels@[k])@[i as int] == value,
                decreases n_channels - c,
            {
                channels[c][i] = value;
                c += 1;
            }
            i += 1;
        }
        self.clock.advance(frames as u64);
        proof {
            if before.len() == 0 {
                assert(channels@ =~= before);
            }
        }
    }
}

} // verus!
