//! Primitive MIDI messages and their classification.

use vstd::prelude::*;

verus! {

/// Number of the controller that carries an (N)RPN data entry MSB.
pub const CC_DATA_ENTRY_MSB: u8 = 6;

/// Number of the controller that carries an (N)RPN data entry LSB.
pub const CC_DATA_ENTRY_LSB: u8 = 38;

/// Number of the controller that carries an NRPN parameter number LSB.
pub const CC_NRPN_NUMBER_LSB: u8 = 98;

/// Number of the controller that carries an NRPN parameter number MSB.
pub const CC_NRPN_NUMBER_MSB: u8 = 99;

/// Number of the controller that carries an RPN parameter number LSB.
pub const CC_RPN_NUMBER_LSB: u8 = 100;

/// Number of the controller that carries an RPN parameter number MSB.
pub const CC_RPN_NUMBER_MSB: u8 = 101;

/// Status byte of a system-real-time timing clock tick.
pub const STATUS_TIMING_CLOCK: u8 = 0xF8;

/// Status byte of a system-real-time active sensing message.
pub const STATUS_ACTIVE_SENSING: u8 = 0xFE;

/// A primitive short MIDI message: a status byte plus two 7-bit data bytes.
#[derive(Copy, Clone, Debug, PartialEq, Eq, Structural)]
pub struct ShortMsg {
    /// Status byte; always `0x80..=0xFF`.
    pub status: u8,
    /// First data byte; always `0..=127`.
    pub data1: u8,
    /// Second data byte; always `0..=127`.
    pub data2: u8,
}

impl ShortMsg {
    /// A short message is well-formed when its status byte has the high bit
    /// set and both data bytes are 7-bit values.
    pub open spec fn wf(self) -> bool {
        &&& self.status >= 0x80
        &&& self.data1 < 0x80
        &&& self.data2 < 0x80
    }

    /// The upper status nibble, which selects the message kind.
    pub open spec fn kind_nibble(self) -> u8 {
        (self.status / 16) as u8
    }

    /// Whether this is a channel message (as opposed to a system message).
    pub open spec fn is_channel_message(self) -> bool {
        self.status < 0xF0
    }

    /// The channel of a channel message.
    pub open spec fn spec_channel(self) -> u8 {
        (self.status % 16) as u8
    }

    /// Whether this is a control change message.
    pub open spec fn is_control_change(self) -> bool {
        self.is_channel_message() && self.kind_nibble() == 0xB
    }

    /// Whether this is a note-on message (with non-zero velocity).
    pub open spec fn is_note_on(self) -> bool {
        self.is_channel_message() && self.kind_nibble() == 0x9 && self.data2 > 0
    }

    /// Whether this is a note-off message, including a note-on with velocity
    /// zero, which MIDI treats as a note-off.
    pub open spec fn is_note_off(self) -> bool {
        self.is_channel_message() && (self.kind_nibble() == 0x8 || (self.kind_nibble() == 0x9
            && self.data2 == 0))
    }

    /// Builds a short message from raw bytes, rejecting byte triples that do
    /// not form a well-formed message.
    pub fn from_bytes(status: u8, data1: u8, data2: u8) -> (r: Result<ShortMsg, &'static str>)
        ensures
            r is Ok <==> (status >= 0x80 && data1 < 0x80 && data2 < 0x80),
            r is Ok ==> r->Ok_0 == (ShortMsg { status, data1, data2 }) && r->Ok_0.wf(),
    {
        if status < 0x80 {
            return Err("invalid status byte");
        }
        if data1 >= 0x80 {
            return Err("first data byte invalid");
        }
        if data2 >= 0x80 {
            return Err("second data byte invalid");
        }
        Ok(ShortMsg { status, data1, data2 })
    }


    /// The control change message with the given channel, controller and
    /// value, at the spec level.
    pub open spec fn spec_cc(channel: u8, controller: u8, value: u8) -> ShortMsg {
        ShortMsg { status: (0xB0 + channel) as u8, data1: controller, data2: value }
    }

    /// Builds a control change message from channel, controller and value.
    pub fn control_change(channel: u8, controller: u8, value: u8) -> (r: ShortMsg)
        requires
            channel < 16,
            controller < 0x80,
            value < 0x80,
        ensures
            r == ShortMsg::spec_cc(channel, controller, value),
            r.wf(),
            r.is_control_change(),
            r.spec_channel() == channel,
            r.data1 == controller,
            r.data2 == value,
    {
        ShortMsg { status: 0xB0 + channel, data1: controller, data2: value }
    }

    /// Builds a note-on message from channel, key and velocity.
    pub fn note_on(channel: u8, key: u8, velocity: u8) -> (r: ShortMsg)
        requires
            channel < 16,
            key < 0x80,
            velocity < 0x80,
        ensures
            r.wf(),
            r.is_channel_message(),
            r.kind_nibble() == 0x9,
            r.spec_channel() == channel,
            r.data1 == key,
            r.data2 == velocity,
    {
        ShortMsg { status: 0x90 + channel, data1: key, data2: velocity }
    }

    /// The channel of a channel message; `None` for system messages.
    pub fn channel(&self) -> (r: Option<u8>)
        ensures
            r is Some <==> self.is_channel_message(),
            r is Some ==> r->0 == self.spec_channel() && r->0 < 16,
    {
        if self.status < 0xF0 {
            Some(self.status % 16)
        } else {
            None
        }
    }

    /// Whether this is a control change message, as executable code.
    pub fn check_control_change(&self) -> (r: bool)
        ensures
            r == self.is_control_change(),
    {
        self.status < 0xF0 && self.status / 16 == 0xB
    }

    /// The three raw bytes of this message.
    pub fn to_bytes(&self) -> (r: (u8, u8, u8))
        ensures
            r == (self.status, self.data1, self.data2),
    {
        (self.status, self.data1, self.data2)
    }
}

/// Category of an incoming message, deciding how the engine treats it.
#[derive(Copy, Clone, Debug, PartialEq, Eq, Structural)]
pub enum MidiMessageClassification {
    /// Eligible for matching against mapping sources.
    Normal,
    /// Host-housekeeping message, never matched but possibly passed through.
    Ignored,
    /// A timing clock tick, used only to derive tempo.
    Timing,
}

/// An incoming primitive MIDI message: either a short message or a
/// system-exclusive byte buffer.
#[derive(Clone, Debug)]
pub enum IncomingMidiMessage {
    Short(ShortMsg),
    SysEx(Vec<u8>),
}

impl IncomingMidiMessage {
    /// An incoming message is well-formed when an inner short message is.
    pub open spec fn wf(self) -> bool {
        match self {
            IncomingMidiMessage::Short(m) => m.wf(),
            IncomingMidiMessage::SysEx(_) => true,
        }
    }

    /// Whether the host may have generated this message itself when the
    /// transport starts (note-off messages sent to silence instruments).
    pub fn might_be_automatically_generated_by_host(&self) -> (r: bool)
        ensures
            r == match *self {
                IncomingMidiMessage::Short(m) => m.is_note_off(),
                IncomingMidiMessage::SysEx(_) => false,
            },
    {
        match self {
            IncomingMidiMessage::Short(m) => {
                m.status < 0xF0 && (m.status / 16 == 0x8 || (m.status / 16 == 0x9 && m.data2 == 0))
            },
            IncomingMidiMessage::SysEx(_) => false,
        }
    }
}

/// The classification of an incoming message: timing clock ticks derive
/// tempo, active sensing is housekeeping, everything else is matchable.
pub open spec fn classification_of(msg: IncomingMidiMessage) -> MidiMessageClassification {
    match msg {
        IncomingMidiMessage::Short(m) => {
            if m.status == STATUS_TIMING_CLOCK {
                MidiMessageClassification::Timing
            } else if m.status == STATUS_ACTIVE_SENSING {
                MidiMessageClassification::Ignored
            } else {
                MidiMessageClassification::Normal
            }
        },
        IncomingMidiMessage::SysEx(_) => MidiMessageClassification::Normal,
    }
}

/// Classifies a raw primitive input message into the category that decides
/// its further treatment.
pub fn classify_midi_message(msg: &IncomingMidiMessage) -> (r: MidiMessageClassification)
    ensures
        r == classification_of(*msg),
{
    match msg {
        IncomingMidiMessage::Short(m) => {
            if m.status == STATUS_TIMING_CLOCK {
                MidiMessageClassification::Timing
            } else if m.status == STATUS_ACTIVE_SENSING {
                MidiMessageClassification::Ignored
            } else {
                MidiMessageClassification::Normal
            }
        },
        IncomingMidiMessage::SysEx(_) => MidiMessageClassification::Normal,
    }
}

} // verus!
