//! Tempo derivation from MIDI timing clock ticks.

use vstd::prelude::*;
use crate::event::SampleOffset;

verus! {

/// Derives tempo from timing clock ticks using a rolling sample-count model.
///
/// The engine increments the sample counter once per audio block by the
/// block's frame count. Each timing clock tick records the sample position
/// at which it arrived; the distance to the previous tick, together with the
/// sample rate and the MIDI convention of 24 ticks per quarter note, yields
/// a tempo estimate. The first tick only primes the calculator.
#[derive(Copy, Clone, Debug, PartialEq, Eq, Structural)]
pub struct MidiClockCalculator {
    sample_counter: u64,
    previous_tick: Option<u64>,
    sample_rate_hz: u32,
}

/// The tempo, in thousandths of beats per minute, of a tick interval of
/// `delta` samples at `sample_rate_hz` samples per second.
///
/// With 24 ticks per quarter note, a tick interval of `delta` samples spans
/// `delta / rate` seconds, so the tempo in beats per minute is
/// `60 * rate / (24 * delta)`, which is `2500 * rate / delta` thousandths.
pub open spec fn milli_bpm_of_tick_interval(delta: u64, sample_rate_hz: u32) -> u64 {
    ((2500 * sample_rate_hz) / (delta as int)) as u64
}

impl MidiClockCalculator {
    /// The number of samples counted so far.
    pub closed spec fn spec_sample_count(self) -> u64 {
        self.sample_counter
    }

    /// The sample position of the previous timing clock tick, if any.
    pub closed spec fn spec_previous_tick(self) -> Option<u64> {
        self.previous_tick
    }

    /// The current sample rate in Hertz.
    pub closed spec fn spec_sample_rate_hz(self) -> u32 {
        self.sample_rate_hz
    }

    /// Creates a calculator that has seen no samples and no tick.
    pub fn new(sample_rate_hz: u32) -> (r: MidiClockCalculator)
        ensures
            r.spec_sample_count() == 0,
            r.spec_previous_tick() is None,
            r.spec_sample_rate_hz() == sample_rate_hz,
    {
        MidiClockCalculator { sample_counter: 0, previous_tick: None, sample_rate_hz }
    }

    /// Advances the sample counter by one block's frame count, saturating at
    /// the maximum counter value.
    pub fn increase_sample_counter_by(&mut self, amount: u64)
        ensures
            final(self).spec_sample_count() == if old(self).spec_sample_count() + amount
                <= u64::MAX {
                old(self).spec_sample_count() + amount
            } else {
                u64::MAX as int
            },
            final(self).spec_previous_tick() == old(self).spec_previous_tick(),
            final(self).spec_sample_rate_hz() == old(self).spec_sample_rate_hz(),
    {
        if amount <= u64::MAX - self.sample_counter {
            self.sample_counter = self.sample_counter + amount;
        } else {
            self.sample_counter = u64::MAX;
        }
    }

    /// The number of samples counted so far.
    pub fn current_sample_count(&self) -> (r: u64)
        ensures
            r == self.spec_sample_count(),
    {
        self.sample_counter
    }

    /// Replaces the sample rate used for tempo derivation.
    pub fn update_sample_rate(&mut self, sample_rate_hz: u32)
        ensures
            final(self).spec_sample_rate_hz() == sample_rate_hz,
            final(self).spec_sample_count() == old(self).spec_sample_count(),
            final(self).spec_previous_tick() == old(self).spec_previous_tick(),
    {
        self.sample_rate_hz = sample_rate_hz;
    }

    /// Feeds one timing clock tick that arrived at the given offset within
    /// the current block, and derives the tempo in thousandths of beats per
    /// minute.
    ///
    /// The first tick primes the calculator and yields nothing; every later
    /// tick that arrives strictly after its predecessor yields the tempo of
    /// the interval between the two. A tick that does not advance the sample
    /// position yields nothing.
    pub fn feed(&mut self, offset: SampleOffset) -> (r: Option<u64>)
        ensures
            ({
                let tick = if old(self).spec_sample_count() + offset.value <= u64::MAX {
                    old(self).spec_sample_count() + offset.value
                } else {
                    u64::MAX as int
                };
                &&& final(self).spec_previous_tick() == Some(tick as u64)
                &&& final(self).spec_sample_count() == old(self).spec_sample_count()
                &&& final(self).spec_sample_rate_hz() == old(self).spec_sample_rate_hz()
                &&& r == match old(self).spec_previous_tick() {
                    Some(prev) => if tick > prev {
                        Some(
                            milli_bpm_of_tick_interval(
                                (tick - prev) as u64,
                                old(self).spec_sample_rate_hz(),
                            ),
                        )
                    } else {
                        None
                    },
                    None => None,
                }
            }),
    {
        let offset_value = offset.get();
        let tick: u64 = if offset_value <= u64::MAX - self.sample_counter {
            self.sample_counter + offset_value
        } else {
            u64::MAX
        };
        let previous = self.previous_tick;
        self.previous_tick = Some(tick);
        match previous {
            Some(prev) => {
                if tick > prev {
                    let delta = tick - prev;
                    let milli_bpm = (2500u64 * self.sample_rate_hz as u64) / delta;
                    Some(milli_bpm)
                } else {
                    None
                }
            },
            None => None,
        }
    }
}

} // verus!
