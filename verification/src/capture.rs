//! Learn-mode capture of incoming MIDI into a source descriptor.

use vstd::prelude::*;
use crate::midi::ShortMsg;

verus! {

/// Upper bound on the accumulated length of a system-exclusive capture; a
/// run that exceeds it is discarded so the buffer cannot grow without bound.
pub const MAX_SYSEX_LENGTH: usize = 1024;

/// How many polls a captured control change waits for further values before
/// it is reported. The wait lets a stream of consecutive values reveal
/// whether the control is a continuous element or a button.
pub const CAPTURE_POLL_TIMEOUT: u8 = 2;

/// The guessed kind of the physical control that produced a capture.
#[derive(Copy, Clone, Debug, PartialEq, Eq, Structural)]
pub enum SourceCharacter {
    /// A continuous control such as a fader or knob.
    RangeElement,
    /// A control that produces isolated values, such as a button.
    Button,
}

/// A successfully captured source descriptor, sufficient for the slow path
/// to construct a matching source.
#[derive(Clone, Debug)]
pub enum MidiScanResult {
    /// A short message together with the guessed control character.
    Short { msg: ShortMsg, character: SourceCharacter },
    /// A complete system-exclusive byte buffer.
    SysEx { bytes: Vec<u8> },
}

impl MidiScanResult {
    /// Parses a complete system-exclusive buffer, as delivered by a host, into
    /// a capture result. The buffer must carry the system-exclusive start
    /// status in its first byte.
    pub fn try_from_bytes(bytes: &Vec<u8>) -> (r: Result<MidiScanResult, &'static str>)
        ensures
            r is Ok <==> bytes@.len() > 0 && bytes@[0] == 0xF0,
            r is Ok ==> (r->Ok_0 matches MidiScanResult::SysEx { bytes: b } && b@ == bytes@),
    {
        if bytes.len() == 0 {
            return Err("empty system-exclusive buffer");
        }
        if bytes[0] != 0xF0 {
            return Err("missing system-exclusive start status");
        }
        Ok(MidiScanResult::SysEx { bytes: bytes.clone() })
    }
}

/// The character guessed for a non-control-change short message: bending and
/// pressure controls are continuous, everything else counts as a button.
pub open spec fn character_of(msg: ShortMsg) -> SourceCharacter {
    if msg.is_channel_message() && (msg.kind_nibble() == 0xE || msg.kind_nibble() == 0xD
        || msg.kind_nibble() == 0xA) {
        SourceCharacter::RangeElement
    } else {
        SourceCharacter::Button
    }
}

/// An in-flight control change capture, held back while further values of
/// the same controller may refine the character guess.
#[derive(Copy, Clone, Debug, PartialEq, Eq, Structural)]
pub struct PendingCcCapture {
    /// Channel of the captured control change.
    pub channel: u8,
    /// Controller number of the captured control change.
    pub controller: u8,
    /// The most recent value seen.
    pub last_value: u8,
    /// Whether at least two distinct values were seen.
    pub saw_distinct: bool,
    /// How many polls this capture has waited.
    pub polls: u8,
}

/// One capture step on a control change message.
pub open spec fn capture_cc_step(
    pending: Option<PendingCcCapture>,
    channel: u8,
    controller: u8,
    value: u8,
) -> Option<PendingCcCapture> {
    match pending {
        Some(p) => {
            if p.channel == channel && p.controller == controller {
                Some(
                    PendingCcCapture {
                        channel,
                        controller,
                        last_value: value,
                        saw_distinct: p.saw_distinct || value != p.last_value,
                        polls: 0,
                    },
                )
            } else {
                Some(
                    PendingCcCapture {
                        channel,
                        controller,
                        last_value: value,
                        saw_distinct: false,
                        polls: 0,
                    },
                )
            }
        },
        None => Some(
            PendingCcCapture { channel, controller, last_value: value, saw_distinct: false, polls: 0 },
        ),
    }
}

/// The capture result an in-flight control change resolves to.
pub open spec fn resolve_cc_capture(p: PendingCcCapture) -> MidiScanResult {
    MidiScanResult::Short {
        msg: ShortMsg::spec_cc(p.channel, p.controller, p.last_value),
        character: if p.saw_distinct {
            SourceCharacter::RangeElement
        } else {
            SourceCharacter::Button
        },
    }
}

/// Scanning state machine for learn mode. It recognizes short messages,
/// defers control changes over a short poll window to guess their
/// character, and accumulates system-exclusive bytes until a terminator.
#[derive(Debug)]
pub struct MidiScanner {
    pending_cc: Option<PendingCcCapture>,
    sysex_buffer: Vec<u8>,
    sysex_in_progress: bool,
}

impl MidiScanner {
    /// The in-flight control change capture, if any.
    pub closed spec fn spec_pending_cc(self) -> Option<PendingCcCapture> {
        self.pending_cc
    }

    /// The accumulated system-exclusive bytes.
    pub closed spec fn spec_sysex_buffer(self) -> Seq<u8> {
        self.sysex_buffer@
    }

    /// Whether a system-exclusive run is being accumulated.
    pub closed spec fn spec_sysex_in_progress(self) -> bool {
        self.sysex_in_progress
    }

    /// Bound on the accumulated buffer and on an in-flight capture's fields.
    pub closed spec fn wf(self) -> bool {
        &&& self.sysex_buffer@.len() <= MAX_SYSEX_LENGTH
        &&& match self.pending_cc {
            Some(p) => p.channel < 16 && p.controller < 128 && p.last_value < 128,
            None => true,
        }
    }

    /// Creates a scanner with nothing captured.
    pub fn new() -> (r: MidiScanner)
        ensures
            r.wf(),
            r.spec_pending_cc() is None,
            r.spec_sysex_buffer().len() == 0,
            !r.spec_sysex_in_progress(),
    {
        MidiScanner { pending_cc: None, sysex_buffer: Vec::new(), sysex_in_progress: false }
    }

    /// Discards all capture progress.
    pub fn reset(&mut self)
        ensures
            final(self).wf(),
            final(self).spec_pending_cc() is None,
            final(self).spec_sysex_buffer().len() == 0,
            !final(self).spec_sysex_in_progress(),
    {
        self.pending_cc = None;
        self.sysex_buffer = Vec::new();
        self.sysex_in_progress = false;
    }

    /// Feeds one short message.
    ///
    /// A control change is held back as an in-flight capture (replacing or
    /// refining the previous one, as [`capture_cc_step`] describes) and
    /// reported by a later [`MidiScanner::poll`]; every other message is
    /// recognized immediately with the character that [`character_of`]
    /// gives.
    pub fn feed_short(&mut self, msg: &ShortMsg) -> (r: Option<MidiScanResult>)
        requires
            old(self).wf(),
            msg.wf(),
        ensures
            final(self).wf(),
            final(self).spec_sysex_buffer() == old(self).spec_sysex_buffer(),
            final(self).spec_sysex_in_progress() == old(self).spec_sysex_in_progress(),
            msg.is_control_change() ==> ({
                &&& final(self).spec_pending_cc() == capture_cc_step(
                    old(self).spec_pending_cc(),
                    msg.spec_channel(),
                    msg.data1,
                    msg.data2,
                )
                &&& r is None
            }),
            !msg.is_control_change() ==> ({
                &&& final(self).spec_pending_cc() == old(self).spec_pending_cc()
                &&& r matches Some(MidiScanResult::Short { msg: m, character }) && m == *msg
                    && character == character_of(*msg)
            }),
    {
        if msg.check_control_change() {
            let channel = msg.status % 16;
            let controller = msg.data1;
            let value = msg.data2;
            let new_pending = match self.pending_cc {
                Some(p) => {
                    if p.channel == channel && p.controller == controller {
                        PendingCcCapture {
                            channel,
                            controller,
                            last_value: value,
                            saw_distinct: p.saw_distinct || value != p.last_value,
                            polls: 0,
                        }
                    } else {
                        PendingCcCapture {
                            channel,
                            controller,
                            last_value: value,
                            saw_distinct: false,
                            polls: 0,
                        }
                    }
                },
                None => PendingCcCapture {
                    channel,
                    controller,
                    last_value: value,
                    saw_distinct: false,
                    polls: 0,
                },
            };
            self.pending_cc = Some(new_pending);
            None
        } else {
            let character = if msg.status < 0xF0 && (msg.status / 16 == 0xE || msg.status / 16
                == 0xD || msg.status / 16 == 0xA) {
                SourceCharacter::RangeElement
            } else {
                SourceCharacter::Button
            };
            Some(MidiScanResult::Short { msg: *msg, character })
        }
    }

    /// Polls the scanner once per processing block.
    ///
    /// An in-flight control change capture that has waited at least
    /// [`CAPTURE_POLL_TIMEOUT`] polls is reported; its character is
    /// continuous when at least two distinct values were seen, and a button
    /// otherwise.
    pub fn poll(&mut self) -> (r: Option<MidiScanResult>)
        requires
            old(self).wf(),
        ensures
            final(self).wf(),
            final(self).spec_sysex_buffer() == old(self).spec_sysex_buffer(),
            final(self).spec_sysex_in_progress() == old(self).spec_sysex_in_progress(),
            ({
                match old(self).spec_pending_cc() {
                    Some(p) => {
                        let new_polls: u8 = if p.polls < 255 {
                            (p.polls + 1) as u8
                        } else {
                            255
                        };
                        if new_polls >= CAPTURE_POLL_TIMEOUT {
                            &&& final(self).spec_pending_cc() is None
                            &&& r matches Some(result) && result == resolve_cc_capture(p)
                        } else {
                            &&& final(self).spec_pending_cc() == Some(
                                PendingCcCapture { polls: new_polls, ..p },
                            )
                            &&& r is None
                        }
                    },
                    None => final(self).spec_pending_cc() is None && r is None,
                }
            }),
    {
        match self.pending_cc {
            Some(p) => {
                let new_polls: u8 = if p.polls < 255 {
                    p.polls + 1
                } else {
                    255
                };
                if new_polls >= CAPTURE_POLL_TIMEOUT {
                    self.pending_cc = None;
                    let character = if p.saw_distinct {
                        SourceCharacter::RangeElement
                    } else {
                        SourceCharacter::Button
                    };
                    Some(
                        MidiScanResult::Short {
                            msg: ShortMsg { status: 0xB0 + p.channel, data1: p.controller, data2: p.last_value },
                            character,
                        },
                    )
                } else {
                    self.pending_cc = Some(PendingCcCapture { polls: new_polls, ..p });
                    None
                }
            },
            None => None,
        }
    }

    /// Feeds one byte of a system-exclusive stream.
    ///
    /// A start status begins a fresh accumulation, the terminator completes
    /// it and yields the whole run, and a run that would exceed
    /// [`MAX_SYSEX_LENGTH`] bytes is discarded.
    pub fn feed_sysex_byte(&mut self, byte: u8) -> (r: Option<MidiScanResult>)
        requires
            old(self).wf(),
        ensures
            final(self).wf(),
            final(self).spec_pending_cc() == old(self).spec_pending_cc(),
            byte == 0xF0 ==> ({
                &&& final(self).spec_sysex_buffer() == seq![0xF0u8]
                &&& final(self).spec_sysex_in_progress()
                &&& r is None
            }),
            byte != 0xF0 && !old(self).spec_sysex_in_progress() ==> ({
                &&& final(self).spec_sysex_buffer() == old(self).spec_sysex_buffer()
                &&& !final(self).spec_sysex_in_progress()
                &&& r is None
            }),
            byte == 0xF7 && old(self).spec_sysex_in_progress() ==> ({
                &&& final(self).spec_sysex_buffer().len() == 0
                &&& !final(self).spec_sysex_in_progress()
                &&& r matches Some(MidiScanResult::SysEx { bytes }) && bytes@ == old(
                    self,
                ).spec_sysex_buffer().push(0xF7)
            }),
            byte != 0xF0 && byte != 0xF7 && old(self).spec_sysex_in_progress() ==> ({
                if old(self).spec_sysex_buffer().len() < MAX_SYSEX_LENGTH {
                    &&& final(self).spec_sysex_buffer() == old(self).spec_sysex_buffer().push(byte)
                    &&& final(self).spec_sysex_in_progress()
                    &&& r is None
                } else {
                    &&& final(self).spec_sysex_buffer().len() == 0
                    &&& !final(self).spec_sysex_in_progress()
                    &&& r is None
                }
            }),
    {
        if byte == 0xF0 {
            self.sysex_buffer = Vec::new();
            self.sysex_buffer.push(0xF0);
            self.sysex_in_progress = true;
            None
        } else if !self.sysex_in_progress {
            None
        } else if byte == 0xF7 {
            let mut bytes: Vec<u8> = Vec::new();
            core::mem::swap(&mut bytes, &mut self.sysex_buffer);
            bytes.push(0xF7);
            self.sysex_in_progress = false;
            Some(MidiScanResult::SysEx { bytes })
        } else if self.sysex_buffer.len() < MAX_SYSEX_LENGTH {
            self.sysex_buffer.push(byte);
            None
        } else {
            self.sysex_buffer = Vec::new();
            self.sysex_in_progress = false;
            None
        }
    }
}

} // verus!
