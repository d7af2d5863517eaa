use vstd::prelude::*;

verus! {

pub const MAX_BUFFERED_SAMPLES: usize = 4096;

/// Model of the sample generator: the buffered samples and the generator's phase.
pub struct DspState {
    pub samples: Seq<i16>,
    pub phase: u64,
}

/// The sample generated at `phase`: a sawtooth with a period of 64 samples.
pub open spec fn sample_at(phase: u64) -> i16 {
    ((phase % 64 - 32) * 128) as i16
}

/// The state after `count` samples were generated and appended.
pub open spec fn generated(s: DspState, count: nat) -> DspState
    decreases count,
{
    if count == 0 {
        s
    } else {
        let before = generated(s, (count - 1) as nat);
        DspState {
            samples: before.samples.push(sample_at(before.phase)),
            phase: before.phase.wrapping_add(1),
        }
    }
}

/// The most recent `MAX_BUFFERED_SAMPLES` of the samples.
pub open spec fn newest(samples: Seq<i16>) -> Seq<i16> {
    if samples.len() > MAX_BUFFERED_SAMPLES {
        samples.subrange(samples.len() - MAX_BUFFERED_SAMPLES, samples.len() as int)
    } else {
        samples
    }
}

/// Deterministic stand-in for audio synthesis: a sawtooth generator with a
/// bounded buffer.
pub struct Dsp {
    samples: Vec<i16>,
    phase: u64,
}

impl View for Dsp {
    type V = DspState;

    closed spec fn view(&self) -> DspState {
        DspState { samples: self.samples@, phase: self.phase }
    }
}

impl Dsp {
    pub fn new() -> (dsp: Self)
        ensures
            dsp@ == (DspState { samples: Seq::empty(), phase: 0 }),
    {
        Dsp { samples: Vec::with_capacity(MAX_BUFFERED_SAMPLES), phase: 0 }
    }

    /// Generates `count` samples and keeps the most recent `MAX_BUFFERED_SAMPLES`
    /// of all that are buffered.
    pub fn produce_samples(&mut self, count: u64)
        ensures
            final(self)@ == (DspState {
                samples: newest(generated(old(self)@, count as nat).samples),
                phase: generated(old(self)@, count as nat).phase,
            }),
    {
        let mut produced: u64 = 0;
        while produced < count
            invariant
                produced <= count,
                self@ == generated(old(self)@, produced as nat),
            decreases count - produced,
        {
            let value: i16 = ((self.phase % 64) as i16 - 32) * 128;
            self.samples.push(value);
            self.phase = self.phase.wrapping_add(1);
            produced += 1;
        }
        if self.samples.len() > MAX_BUFFERED_SAMPLES {
            let len = self.samples.len();
            let start = len - MAX_BUFFERED_SAMPLES;
            let mut kept: Vec<i16> = Vec::with_capacity(MAX_BUFFERED_SAMPLES);
            let mut k: usize = start;
            while k < len
                invariant
                    start <= k <= len,
                    len == self.samples@.len(),
                    kept@ == self.samples@.subrange(start as int, k as int),
                decreases len - k,
            {
                kept.push(self.samples[k]);
                assert(kept@ =~= self.samples@.subrange(start as int, k + 1));
                k += 1;
            }
            self.samples = kept;
        }
    }

    pub fn samples(&self) -> (samples: &[i16])
        ensures
            samples@ == self@.samples,
    {
        self.samples.as_slice()
    }

    /// Hands out the buffered samples and leaves the buffer empty.
    pub fn take_samples(&mut self) -> (samples: Vec<i16>)
        ensures
            samples@ == old(self)@.samples,
            final(self)@ == (DspState { samples: Seq::empty(), phase: old(self)@.phase }),
    {
        let mut taken: Vec<i16> = Vec::new();
        std::mem::swap(&mut taken, &mut self.samples);
        taken
    }
}

impl Default for Dsp {
    fn default() -> (dsp: Self)
        ensures
            dsp@ == (DspState { samples: Seq::empty(), phase: 0 }),
    {
        Dsp::new()
    }
}

} // verus!
