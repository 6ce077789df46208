//! Envelope types that carry a payload together with timing information.

use vstd::prelude::*;

verus! {

/// An offset within the current audio block, in sample frames.
///
/// Hosts have been observed to report negative offsets; those are clamped to
/// zero at construction.
#[derive(Copy, Clone, Debug, PartialEq, Eq, Structural)]
pub struct SampleOffset {
    /// The clamped, non-negative frame count.
    pub value: u64,
}

impl SampleOffset {
    /// The offset of the first frame of a block.
    pub fn zero() -> (r: SampleOffset)
        ensures
            r.value == 0,
    {
        SampleOffset { value: 0 }
    }

    /// Builds an offset from a non-negative frame count.
    pub fn new(value: u64) -> (r: SampleOffset)
        ensures
            r.value == value,
    {
        SampleOffset { value }
    }

    /// Builds an offset from a host-reported frame delta, clamping negative
    /// values to zero.
    pub fn from_delta_frames(delta_frames: i64) -> (r: SampleOffset)
        ensures
            r.value == if delta_frames >= 0 {
                delta_frames as u64
            } else {
                0
            },
    {
        if delta_frames >= 0 {
            SampleOffset { value: delta_frames as u64 }
        } else {
            SampleOffset { value: 0 }
        }
    }

    /// The frame count of this offset.
    pub fn get(&self) -> (r: u64)
        ensures
            r == self.value,
    {
        self.value
    }
}

/// A MIDI payload tagged with its offset within the audio block.
#[derive(Copy, Clone, Debug, PartialEq, Eq, Structural)]
pub struct MidiEvent<P> {
    pub offset: SampleOffset,
    pub payload: P,
}

impl<P> MidiEvent<P> {
    /// Wraps a payload with its within-block sample offset.
    pub fn new(offset: SampleOffset, payload: P) -> (r: MidiEvent<P>)
        ensures
            r.offset == offset,
            r.payload == payload,
    {
        MidiEvent { offset, payload }
    }

    /// Wraps a payload that has no meaningful block offset.
    pub fn without_offset(payload: P) -> (r: MidiEvent<P>)
        ensures
            r.offset.value == 0,
            r.payload == payload,
    {
        MidiEvent { offset: SampleOffset { value: 0 }, payload }
    }

    /// The offset of this event within its audio block.
    pub fn offset(&self) -> (r: SampleOffset)
        ensures
            r == self.offset,
    {
        self.offset
    }

    /// A reference to the payload.
    pub fn payload(&self) -> (r: &P)
        ensures
            *r == self.payload,
    {
        &self.payload
    }

    /// Takes the payload out of the envelope.
    pub fn into_payload(self) -> (r: P)
        ensures
            r == self.payload,
    {
        self.payload
    }

    /// The spec-level payload.
    pub open spec fn spec_payload(self) -> P {
        self.payload
    }

    /// The spec-level offset.
    pub open spec fn spec_offset(self) -> SampleOffset {
        self.offset
    }
}

/// A timestamp taken when an input event entered the engine, in nanoseconds
/// of a monotonic clock. Ordering across a processing cycle reflects arrival
/// order.
pub type ControlEventTimestamp = u64;

/// A control payload tagged with the timestamp at which it was created.
#[derive(Copy, Clone, Debug, PartialEq, Eq, Structural)]
pub struct ControlEvent<P> {
    pub payload: P,
    pub timestamp: ControlEventTimestamp,
}

impl<P> ControlEvent<P> {
    /// Wraps a payload with its creation timestamp.
    pub fn new(payload: P, timestamp: ControlEventTimestamp) -> (r: ControlEvent<P>)
        ensures
            r.payload == payload,
            r.timestamp == timestamp,
    {
        ControlEvent { payload, timestamp }
    }

    /// A reference to the payload.
    pub fn payload(&self) -> (r: &P)
        ensures
            *r == self.payload,
    {
        &self.payload
    }

    /// Takes the payload out of the envelope.
    pub fn into_payload(self) -> (r: P)
        ensures
            r == self.payload,
    {
        self.payload
    }

    /// The creation timestamp.
    pub fn timestamp(&self) -> (r: ControlEventTimestamp)
        ensures
            r == self.timestamp,
    {
        self.timestamp
    }

    /// Replaces the payload, keeping the timestamp.
    pub fn with_payload<Q>(&self, payload: Q) -> (r: ControlEvent<Q>)
        ensures
            r.payload == payload,
            r.timestamp == self.timestamp,
    {
        ControlEvent { payload, timestamp: self.timestamp }
    }

    /// The spec-level payload.
    pub open spec fn spec_payload(self) -> P {
        self.payload
    }

    /// The spec-level timestamp.
    pub open spec fn spec_timestamp(self) -> ControlEventTimestamp {
        self.timestamp
    }
}

/// Drops the block-offset layer of a control event that carries a MIDI
/// event, keeping the payload and the timestamp.
pub fn flatten_control_midi_event<P: Copy>(evt: ControlEvent<MidiEvent<P>>) -> (r: ControlEvent<P>)
    ensures
        r.spec_payload() == evt.spec_payload().spec_payload(),
        r.spec_timestamp() == evt.spec_timestamp(),
{
    let payload = *evt.payload().payload();
    evt.with_payload(payload)
}

} // verus!
