//! Resolved real-time targets: the places a matched control value can land
//! without leaving the real-time context.

use vstd::prelude::*;
use crate::source::{ControlValue, VirtualControlElement};
use crate::midi::ShortMsg;

verus! {

/// Where a raw-MIDI-send target routes its messages.
#[derive(Copy, Clone, Debug, PartialEq, Eq, Structural)]
pub enum SendMidiDestination {
    /// Through the host's own output of this plug-in instance.
    FxOutput,
    /// To the configured feedback output.
    FeedbackOutput,
}

/// One byte of a raw MIDI pattern: either fixed, or the slot that receives
/// the scaled control value.
#[derive(Copy, Clone, Debug, PartialEq, Eq, Structural)]
pub enum RawMidiPatternByte {
    /// This byte is sent as it stands.
    Fixed(u8),
    /// This byte carries the control value, scaled to seven bits.
    Value,
}

/// The control value scaled to a 7-bit data byte.
pub open spec fn scaled_7_bit(v: ControlValue) -> u8 {
    ((v.value * 127) / (v.max as int)) as u8
}

/// A raw MIDI message template with value slots.
#[derive(Clone, Debug)]
pub struct RawMidiPattern {
    /// The template bytes.
    pub bytes: Vec<RawMidiPatternByte>,
}

impl RawMidiPattern {
    /// The message that results from filling every value slot with the
    /// scaled control value.
    pub open spec fn spec_resolve(self, v: ControlValue) -> Seq<u8> {
        self.bytes@.map_values(
            |b: RawMidiPatternByte|
                match b {
                    RawMidiPatternByte::Fixed(x) => x,
                    RawMidiPatternByte::Value => scaled_7_bit(v),
                },
        )
    }

    /// Renders the pattern into a concrete MIDI message for the given
    /// control value.
    pub fn to_concrete_midi_event(&self, v: ControlValue) -> (r: Vec<u8>)
        requires
            v.wf(),
        ensures
            r@ == self.spec_resolve(v),
    {
        let scaled: u8 = ((v.value as u32 * 127) / (v.max as u32)) as u8;
        proof {
            assert(v.value * 127 <= v.max * 127) by (nonlinear_arith)
                requires
                    v.value <= v.max,
            ;
            assert((v.value as int * 127) / (v.max as int) <= 127) by (nonlinear_arith)
                requires
                    v.value * 127 <= v.max * 127,
                    v.max > 0,
            ;
        }
        let mut r: Vec<u8> = Vec::new();
        let mut i: usize = 0;
        while i < self.bytes.len()
            invariant
                i <= self.bytes@.len(),
                scaled == scaled_7_bit(v),
                r@ == self.spec_resolve(v).take(i as int),
            decreases self.bytes@.len() - i,
        {
            let b = match self.bytes[i] {
                RawMidiPatternByte::Fixed(x) => x,
                RawMidiPatternByte::Value => scaled,
            };
            r.push(b);
            proof {
                assert(r@ =~= self.spec_resolve(v).take(i + 1));
            }
            i = i + 1;
        }
        proof {
            assert(r@ =~= self.spec_resolve(v));
        }
        r
    }
}

/// A raw-MIDI-send target: renders a pattern and sends it to its
/// destination. It remembers the last value it reported as written, so that
/// redundant sends can be skipped.
#[derive(Clone, Debug)]
pub struct MidiSendTarget {
    /// The template rendered for each send.
    pub pattern: RawMidiPattern,
    /// Where each send goes.
    pub destination: SendMidiDestination,
    /// The last value reported as successfully written, if any.
    pub artificial_value: Option<ControlValue>,
}

impl MidiSendTarget {
    /// The pattern rendered for each send.
    pub open spec fn spec_pattern(self) -> RawMidiPattern {
        self.pattern
    }

    /// The destination of each send.
    pub open spec fn spec_destination(self) -> SendMidiDestination {
        self.destination
    }

    /// The last value reported as successfully written, if any.
    pub open spec fn spec_artificial_value(self) -> Option<ControlValue> {
        self.artificial_value
    }

    /// Creates a raw-MIDI-send target.
    pub fn new(pattern: RawMidiPattern, destination: SendMidiDestination) -> (r: MidiSendTarget)
        ensures
            r.spec_pattern() == pattern,
            r.spec_destination() == destination,
            r.spec_artificial_value() is None,
    {
        MidiSendTarget { pattern, destination, artificial_value: None }
    }

    /// The pattern rendered for each send.
    pub fn pattern(&self) -> (r: &RawMidiPattern)
        ensures
            *r == self.spec_pattern(),
    {
        &self.pattern
    }

    /// The destination of each send.
    pub fn destination(&self) -> (r: SendMidiDestination)
        ensures
            r == self.spec_destination(),
    {
        self.destination
    }

    /// The last value reported as successfully written, if any.
    pub fn artificial_value(&self) -> (r: Option<ControlValue>)
        ensures
            r == self.spec_artificial_value(),
    {
        self.artificial_value
    }

    /// Records a value as successfully written.
    pub fn set_artificial_value(&mut self, v: ControlValue)
        ensures
            final(self).spec_artificial_value() == Some(v),
            final(self).spec_pattern() == old(self).spec_pattern(),
            final(self).spec_destination() == old(self).spec_destination(),
    {
        self.artificial_value = Some(v);
    }
}

/// A resolved target that supports direct execution in the real-time
/// context: raw-MIDI sends, clip-engine controls and plug-in parameter
/// writes. Every other target lives only in the slow path and is absent
/// from the real-time projection.
#[derive(Clone, Debug)]
pub enum RealTimeReaperTarget {
    /// Renders a raw MIDI pattern and sends it.
    SendMidi(MidiSendTarget),
    /// Starts or stops a clip slot.
    ClipTransport { column_index: u32, row_index: u32 },
    /// Controls a clip column.
    ClipColumn { index: u32 },
    /// Controls a clip row.
    ClipRow { index: u32 },
    /// Controls the whole clip matrix.
    ClipMatrix,
    /// Writes a plug-in parameter.
    FxParameter { index: u32, current_value: Option<ControlValue> },
}

impl RealTimeReaperTarget {
    /// The target's current value, as far as the real-time context knows it;
    /// used to skip writes of a value the target already holds.
    pub open spec fn spec_current_value(self) -> Option<ControlValue> {
        match self {
            RealTimeReaperTarget::SendMidi(t) => t.spec_artificial_value(),
            RealTimeReaperTarget::FxParameter { current_value, .. } => current_value,
            _ => None,
        }
    }

    /// The target's current value, as far as the real-time context knows it.
    pub fn current_value(&self) -> (r: Option<ControlValue>)
        ensures
            r == self.spec_current_value(),
    {
        match self {
            RealTimeReaperTarget::SendMidi(t) => t.artificial_value(),
            RealTimeReaperTarget::FxParameter { current_value, .. } => *current_value,
            _ => None,
        }
    }
}

/// A resolved target of the real-time projection: a real target or a
/// virtual control element.
#[derive(Clone, Debug)]
pub enum RealTimeCompoundMappingTarget {
    Reaper(RealTimeReaperTarget),
    Virtual(VirtualControlElement),
}

/// A write of a control value to a target that the engine decided to
/// perform directly; the host-facing shim carries it out.
#[derive(Clone, Debug)]
pub enum TargetWrite {
    ClipTransport { column_index: u32, row_index: u32, value: ControlValue },
    ClipColumn { index: u32, value: ControlValue },
    ClipRow { index: u32, value: ControlValue },
    ClipMatrix { value: ControlValue },
    FxParameter { index: u32, value: ControlValue },
}

/// MIDI on its way out of the engine.
#[derive(Clone, Debug)]
pub enum OutgoingMidi {
    /// A short message.
    Short(ShortMsg),
    /// A raw byte buffer (system-exclusive or rendered pattern).
    Raw(Vec<u8>),
}


/// Interprets the current value of a clip slot: a slot that exists but has
/// no clip is a valid state and reports the default value rather than "no
/// value at the moment", so feedback is not withheld.
pub fn interpret_current_clip_slot_value<T: core::default::Default>(value: Option<T>) -> (r:
    Option<T>)
    ensures
        r is Some,
        value is Some ==> r == value,
{
    match value {
        Some(v) => Some(v),
        None => Some(T::default()),
    }
}

} // verus!
