//! Sources: the matchers that recognize incoming source values.

use vstd::prelude::*;
use crate::midi::ShortMsg;
use crate::nrpn::ParameterNumberMsg;
use crate::cc14::ControlChange14BitMsg;

verus! {

/// Highest tempo, in beats per minute, representable as a control value.
pub const MAX_TEMPO_BPM: u16 = 960;

/// An absolute control value: a discrete value out of `0..=max`.
#[derive(Copy, Clone, Debug, PartialEq, Eq, Structural)]
pub struct ControlValue {
    /// The discrete value; always `0..=max`.
    pub value: u16,
    /// The largest value of the discrete range; always positive.
    pub max: u16,
}

impl ControlValue {
    /// Field bounds of a well-formed control value.
    pub open spec fn wf(self) -> bool {
        self.value <= self.max && self.max > 0
    }
}

/// A source value produced by the classifier and the protocol
/// demultiplexers: either a primitive message or a decoded composite one.
#[derive(Clone, Debug)]
pub enum MidiSourceValue {
    /// A plain short message.
    Plain(ShortMsg),
    /// A decoded (N)RPN message.
    ParameterNumber(ParameterNumberMsg),
    /// A decoded 14-bit control change message.
    ControlChange14Bit(ControlChange14BitMsg),
    /// A tempo derived from timing clock ticks, in thousandths of beats per
    /// minute.
    Tempo { milli_bpm: u64 },
    /// A complete system-exclusive byte buffer.
    SysEx(Vec<u8>),
}

impl MidiSourceValue {
    /// Well-formedness of the carried message.
    pub open spec fn wf(self) -> bool {
        match self {
            MidiSourceValue::Plain(m) => m.wf(),
            MidiSourceValue::ParameterNumber(m) => m.wf(),
            MidiSourceValue::ControlChange14Bit(m) => m.wf(),
            MidiSourceValue::Tempo { .. } => true,
            MidiSourceValue::SysEx(_) => true,
        }
    }
}

/// A compiled MIDI source matcher.
#[derive(Copy, Clone, Debug, PartialEq, Eq, Structural)]
pub enum MidiSource {
    /// Velocity of a fixed key on a fixed channel; note-off counts as value
    /// zero.
    NoteVelocity { channel: u8, key: u8 },
    /// Value of a plain 7-bit control change.
    ControlChangeValue { channel: u8, controller: u8 },
    /// Value of a 14-bit control change pair with a fixed MSB controller.
    ControlChange14BitValue { channel: u8, msb_controller: u8 },
    /// Value of an (N)RPN data entry for a fixed parameter number.
    ParameterNumberValue { channel: u8, number: u16, is_registered: bool, is_14_bit: bool },
    /// The tempo of the incoming timing clock.
    ClockTempo,
}

impl MidiSource {
    /// The control value this source extracts from a source value, if the
    /// value addresses the source.
    pub open spec fn spec_control(self, v: MidiSourceValue) -> Option<ControlValue> {
        match (self, v) {
            (MidiSource::NoteVelocity { channel, key }, MidiSourceValue::Plain(m)) => {
                if m.is_note_on() && m.spec_channel() == channel && m.data1 == key {
                    Some(ControlValue { value: m.data2 as u16, max: 127 })
                } else if m.is_note_off() && m.spec_channel() == channel && m.data1 == key {
                    Some(ControlValue { value: 0, max: 127 })
                } else {
                    None
                }
            },
            (MidiSource::ControlChangeValue { channel, controller }, MidiSourceValue::Plain(m)) => {
                if m.is_control_change() && m.spec_channel() == channel && m.data1 == controller {
                    Some(ControlValue { value: m.data2 as u16, max: 127 })
                } else {
                    None
                }
            },
            (
                MidiSource::ControlChange14BitValue { channel, msb_controller },
                MidiSourceValue::ControlChange14Bit(m),
            ) => {
                if m.channel == channel && m.msb_controller == msb_controller {
                    Some(ControlValue { value: m.value, max: 16383 })
                } else {
                    None
                }
            },
            (
                MidiSource::ParameterNumberValue { channel, number, is_registered, is_14_bit },
                MidiSourceValue::ParameterNumber(m),
            ) => {
                if m.channel == channel && m.number == number && m.is_registered == is_registered
                    && m.is_14_bit == is_14_bit {
                    Some(
                        ControlValue {
                            value: m.value,
                            max: if is_14_bit {
                                16383
                            } else {
                                127
                            },
                        },
                    )
                } else {
                    None
                }
            },
            (MidiSource::ClockTempo, MidiSourceValue::Tempo { milli_bpm }) => {
                let bpm = milli_bpm / 1000;
                Some(
                    ControlValue {
                        value: if bpm > MAX_TEMPO_BPM {
                            MAX_TEMPO_BPM
                        } else {
                            bpm as u16
                        },
                        max: MAX_TEMPO_BPM,
                    },
                )
            },
            _ => None,
        }
    }

    /// Extracts the control value addressed to this source, if any.
    pub fn control(&self, v: &MidiSourceValue) -> (r: Option<ControlValue>)
        requires
            v.wf(),
        ensures
            r == self.spec_control(*v),
            r is Some ==> r->0.wf(),
    {
        match (self, v) {
            (MidiSource::NoteVelocity { channel, key }, MidiSourceValue::Plain(m)) => {
                let is_note_on = m.status < 0xF0 && m.status / 16 == 0x9 && m.data2 > 0;
                let is_note_off = m.status < 0xF0 && (m.status / 16 == 0x8 || (m.status / 16 == 0x9
                    && m.data2 == 0));
                if is_note_on && m.status % 16 == *channel && m.data1 == *key {
                    Some(ControlValue { value: m.data2 as u16, max: 127 })
                } else if is_note_off && m.status % 16 == *channel && m.data1 == *key {
                    Some(ControlValue { value: 0, max: 127 })
                } else {
                    None
                }
            },
            (MidiSource::ControlChangeValue { channel, controller }, MidiSourceValue::Plain(m)) => {
                if m.check_control_change() && m.status % 16 == *channel && m.data1 == *controller {
                    Some(ControlValue { value: m.data2 as u16, max: 127 })
                } else {
                    None
                }
            },
            (
                MidiSource::ControlChange14BitValue { channel, msb_controller },
                MidiSourceValue::ControlChange14Bit(m),
            ) => {
                if m.channel == *channel && m.msb_controller == *msb_controller {
                    Some(ControlValue { value: m.value, max: 16383 })
                } else {
                    None
                }
            },
            (
                MidiSource::ParameterNumberValue { channel, number, is_registered, is_14_bit },
                MidiSourceValue::ParameterNumber(m),
            ) => {
                if m.channel == *channel && m.number == *number && m.is_registered == *is_registered
                    && m.is_14_bit == *is_14_bit {
                    Some(
                        ControlValue {
                            value: m.value,
                            max: if *is_14_bit {
                                16383
                            } else {
                                127
                            },
                        },
                    )
                } else {
                    None
                }
            },
            (MidiSource::ClockTempo, MidiSourceValue::Tempo { milli_bpm }) => {
                let bpm = *milli_bpm / 1000;
                let value: u16 = if bpm > MAX_TEMPO_BPM as u64 {
                    MAX_TEMPO_BPM
                } else {
                    bpm as u16
                };
                Some(ControlValue { value, max: MAX_TEMPO_BPM })
            },
            _ => None,
        }
    }

    /// Whether this source is a composite source that absorbs the given
    /// primitive message into its decode: a 14-bit source consumes both
    /// controllers of its pair, a parameter number source consumes all six
    /// (N)RPN controllers of its channel.
    pub open spec fn spec_consumes(self, m: ShortMsg) -> bool {
        match self {
            MidiSource::ControlChange14BitValue { channel, msb_controller } => m.is_control_change()
                && m.spec_channel() == channel && (m.data1 == msb_controller || m.data1
                == msb_controller + 32int),
            MidiSource::ParameterNumberValue { channel, .. } => m.is_control_change()
                && m.spec_channel() == channel && (m.data1 == 98 || m.data1 == 99 || m.data1 == 100
                || m.data1 == 101 || m.data1 == 6 || m.data1 == 38),
            _ => false,
        }
    }

    /// Whether this source absorbs the given primitive message.
    pub fn consumes(&self, m: &ShortMsg) -> (r: bool)
        requires
            m.wf(),
        ensures
            r == self.spec_consumes(*m),
    {
        match self {
            MidiSource::ControlChange14BitValue { channel, msb_controller } => {
                m.check_control_change() && m.status % 16 == *channel && (m.data1 == *msb_controller
                    || (m.data1 >= 32 && m.data1 - 32 == *msb_controller))
            },
            MidiSource::ParameterNumberValue { channel, .. } => {
                m.check_control_change() && m.status % 16 == *channel && (m.data1 == 98 || m.data1
                    == 99 || m.data1 == 100 || m.data1 == 101 || m.data1 == 6 || m.data1 == 38)
            },
            _ => false,
        }
    }
}

/// The kind of a virtual control element.
#[derive(Copy, Clone, Debug, PartialEq, Eq, Structural)]
pub enum VirtualControlElementKind {
    /// A continuous element such as a fader or knob.
    Multi,
    /// A momentary element such as a button.
    Button,
}

/// An abstract control element: the indirection point between controller
/// mappings (which produce values for it) and main mappings (which consume
/// values from it).
#[derive(Copy, Clone, Debug, PartialEq, Eq, Structural)]
pub struct VirtualControlElement {
    pub kind: VirtualControlElementKind,
    pub index: u32,
}

/// A control value addressed to a virtual control element.
#[derive(Copy, Clone, Debug, PartialEq, Eq, Structural)]
pub struct VirtualSourceValue {
    pub element: VirtualControlElement,
    pub value: ControlValue,
}

/// A virtual source: matches the values addressed to one virtual control
/// element.
#[derive(Copy, Clone, Debug, PartialEq, Eq, Structural)]
pub struct VirtualSource {
    pub element: VirtualControlElement,
}

impl VirtualSource {
    /// The control value this source extracts from a virtual source value.
    pub open spec fn spec_control(self, v: VirtualSourceValue) -> Option<ControlValue> {
        if v.element == self.element {
            Some(v.value)
        } else {
            None
        }
    }

    /// Extracts the control value addressed to this source's element.
    pub fn control(&self, v: &VirtualSourceValue) -> (r: Option<ControlValue>)
        ensures
            r == self.spec_control(*v),
    {
        if v.element.kind == self.element.kind && v.element.index == self.element.index {
            Some(v.value)
        } else {
            None
        }
    }
}

/// A compiled source matcher: either a MIDI source or a virtual one.
#[derive(Copy, Clone, Debug, PartialEq, Eq, Structural)]
pub enum CompoundMappingSource {
    Midi(MidiSource),
    Virtual(VirtualSource),
}

} // verus!
