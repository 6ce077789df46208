//! Incremental decoder for (registered and non-registered) parameter number
//! messages.
//!
//! An (N)RPN sequence is spread over up to four primitive control change
//! messages on one channel: two number bytes (controllers 98/99 for NRPN,
//! 100/101 for RPN), then a data entry MSB (controller 6) and optionally a
//! data entry LSB (controller 38). After a data entry MSB the decoder waits a
//! bounded number of polls for the LSB; if the window elapses, the sequence
//! counts as a complete 7-bit data entry. A lone data entry LSB that never
//! sees its MSB is discarded. Each of the 16 channels has an independent
//! decoder, and the host must poll each channel once per processing block to
//! flush stale partial sequences.

use vstd::prelude::*;
use crate::midi::{ShortMsg, CC_DATA_ENTRY_LSB, CC_DATA_ENTRY_MSB, CC_NRPN_NUMBER_LSB, CC_NRPN_NUMBER_MSB, CC_RPN_NUMBER_LSB, CC_RPN_NUMBER_MSB};

verus! {

/// A decoded (N)RPN message.
#[derive(Copy, Clone, Debug, PartialEq, Eq, Structural)]
pub struct ParameterNumberMsg {
    /// Channel; always `0..=15`.
    pub channel: u8,
    /// The 14-bit parameter number; always `0..=16383`.
    pub number: u16,
    /// The data entry value: `0..=16383` for a 14-bit message, `0..=127` for
    /// a 7-bit one.
    pub value: u16,
    /// Whether the sequence used the registered controller pair.
    pub is_registered: bool,
    /// Whether the value was assembled from two bytes.
    pub is_14_bit: bool,
}

impl ParameterNumberMsg {
    /// Field bounds of a well-formed message.
    pub open spec fn wf(self) -> bool {
        &&& self.channel < 16
        &&& self.number < 16384
        &&& self.value < if self.is_14_bit {
            16384int
        } else {
            128int
        }
    }

    /// Checks the field bounds at run time.
    pub fn check_wf(&self) -> (r: bool)
        ensures
            r == self.wf(),
    {
        self.channel < 16 && self.number < 16384 && self.value < (if self.is_14_bit {
            16384
        } else {
            128
        })
    }

    /// The primitive control change messages this message would be spread
    /// over, in MSB-first convention: number MSB, number LSB, data entry MSB
    /// and (for a 14-bit value) data entry LSB.
    pub fn to_short_messages(&self) -> (r: Vec<ShortMsg>)
        requires
            self.wf(),
        ensures
            r@.len() == if self.is_14_bit {
                4int
            } else {
                3int
            },
            r@[0] == ShortMsg::spec_cc(
                self.channel,
                if self.is_registered {
                    101
                } else {
                    99
                },
                (self.number / 128) as u8,
            ),
            r@[1] == ShortMsg::spec_cc(
                self.channel,
                if self.is_registered {
                    100
                } else {
                    98
                },
                (self.number % 128) as u8,
            ),
            r@[2] == ShortMsg::spec_cc(
                self.channel,
                6,
                if self.is_14_bit {
                    (self.value / 128) as u8
                } else {
                    self.value as u8
                },
            ),
            self.is_14_bit ==> r@[3] == ShortMsg::spec_cc(
                self.channel,
                38,
                (self.value % 128) as u8,
            ),
    {
        let mut r: Vec<ShortMsg> = Vec::new();
        let number_msb_cc: u8 = if self.is_registered {
            101
        } else {
            99
        };
        let number_lsb_cc: u8 = if self.is_registered {
            100
        } else {
            98
        };
        r.push(ShortMsg::control_change(self.channel, number_msb_cc, (self.number / 128) as u8));
        r.push(ShortMsg::control_change(self.channel, number_lsb_cc, (self.number % 128) as u8));
        if self.is_14_bit {
            r.push(ShortMsg::control_change(self.channel, 6, (self.value / 128) as u8));
            r.push(ShortMsg::control_change(self.channel, 38, (self.value % 128) as u8));
        } else {
            r.push(ShortMsg::control_change(self.channel, 6, self.value as u8));
        }
        r
    }
}

/// A complete parameter number together with the controller pair kind it
/// arrived on.
#[derive(Copy, Clone, Debug, PartialEq, Eq, Structural)]
pub struct NrpnNumber {
    /// Number MSB; always `0..=127`.
    pub msb: u8,
    /// Number LSB; always `0..=127`.
    pub lsb: u8,
    /// Whether the registered controller pair carried the number.
    pub is_registered: bool,
}

impl NrpnNumber {
    /// Field bounds of a well-formed number.
    pub open spec fn wf(self) -> bool {
        self.msb < 128 && self.lsb < 128
    }

    /// The assembled 14-bit parameter number.
    pub open spec fn number(self) -> u16 {
        (self.msb * 128 + self.lsb) as u16
    }
}

/// Decoder state of one channel.
#[derive(Copy, Clone, Debug, PartialEq, Eq, Structural)]
pub enum NrpnChannelState {
    /// The parameter number is not complete yet; values are ignored.
    AwaitingNumber { first_byte: Option<u8>, is_registered: bool, first_is_msb: bool },
    /// The number is complete; no value byte has arrived for it yet.
    AwaitingFirstValueByte { num: NrpnNumber },
    /// One value byte arrived; the decoder waits a bounded number of polls
    /// for its partner byte.
    ValuePending { num: NrpnNumber, first_value_byte: u8, first_is_msb: bool, age_in_polls: u8 },
    /// A 14-bit value was delivered; a further data entry LSB adjusts it.
    ValueComplete { num: NrpnNumber, value_msb: u8, value_lsb: u8 },
}

impl NrpnChannelState {
    /// The state of a channel that has seen nothing.
    pub open spec fn spec_empty() -> NrpnChannelState {
        NrpnChannelState::AwaitingNumber { first_byte: None, is_registered: false, first_is_msb: false }
    }

    /// Field bounds of a well-formed state.
    pub open spec fn wf(self) -> bool {
        match self {
            NrpnChannelState::AwaitingNumber { first_byte, .. } => match first_byte {
                Some(b) => b < 128,
                None => true,
            },
            NrpnChannelState::AwaitingFirstValueByte { num } => num.wf(),
            NrpnChannelState::ValuePending { num, first_value_byte, .. } => num.wf()
                && first_value_byte < 128,
            NrpnChannelState::ValueComplete { num, value_msb, value_lsb } => num.wf() && value_msb
                < 128 && value_lsb < 128,
        }
    }

    /// Whether a value byte is in flight, waiting for its partner.
    pub open spec fn is_value_pending(self) -> bool {
        self is ValuePending
    }
}

/// The 7-bit data entry message for a complete number and one value byte.
pub open spec fn seven_bit_msg(channel: u8, num: NrpnNumber, value: u8) -> ParameterNumberMsg {
    ParameterNumberMsg {
        channel,
        number: num.number(),
        value: value as u16,
        is_registered: num.is_registered,
        is_14_bit: false,
    }
}

/// The 14-bit data entry message for a complete number and both value bytes.
pub open spec fn fourteen_bit_msg(channel: u8, num: NrpnNumber, value_msb: u8, value_lsb: u8)
    -> ParameterNumberMsg {
    ParameterNumberMsg {
        channel,
        number: num.number(),
        value: (value_msb * 128 + value_lsb) as u16,
        is_registered: num.is_registered,
        is_14_bit: true,
    }
}

/// What an in-flight value byte resolves to when its partner never arrives:
/// a lone MSB is a complete 7-bit data entry, a lone LSB is invalid.
pub open spec fn resolve_pending(
    channel: u8,
    num: NrpnNumber,
    first_value_byte: u8,
    first_is_msb: bool,
) -> Option<ParameterNumberMsg> {
    if first_is_msb {
        Some(seven_bit_msg(channel, num, first_value_byte))
    } else {
        None
    }
}

/// One decoder step on a number byte (controllers 98, 99, 100 or 101).
pub open spec fn nrpn_number_byte_step(
    state: NrpnChannelState,
    channel: u8,
    byte: u8,
    is_registered: bool,
    is_msb: bool,
) -> (NrpnChannelState, Option<ParameterNumberMsg>) {
    match state {
        NrpnChannelState::AwaitingNumber { first_byte, first_is_msb, .. } => match first_byte {
            Some(fb) => {
                if first_is_msb == is_msb {
                    (
                        NrpnChannelState::AwaitingNumber {
                            first_byte: Some(byte),
                            is_registered,
                            first_is_msb: is_msb,
                        },
                        None,
                    )
                } else {
                    (
                        NrpnChannelState::AwaitingFirstValueByte {
                            num: NrpnNumber {
                                msb: if first_is_msb {
                                    fb
                                } else {
                                    byte
                                },
                                lsb: if first_is_msb {
                                    byte
                                } else {
                                    fb
                                },
                                is_registered,
                            },
                        },
                        None,
                    )
                }
            },
            None => (
                NrpnChannelState::AwaitingNumber {
                    first_byte: Some(byte),
                    is_registered,
                    first_is_msb: is_msb,
                },
                None,
            ),
        },
        NrpnChannelState::AwaitingFirstValueByte { num } => (
            NrpnChannelState::AwaitingFirstValueByte {
                num: NrpnNumber {
                    msb: if is_msb {
                        byte
                    } else {
                        num.msb
                    },
                    lsb: if is_msb {
                        num.lsb
                    } else {
                        byte
                    },
                    is_registered,
                },
            },
            None,
        ),
        NrpnChannelState::ValueComplete { num, .. } => (
            NrpnChannelState::AwaitingFirstValueByte {
                num: NrpnNumber {
                    msb: if is_msb {
                        byte
                    } else {
                        num.msb
                    },
                    lsb: if is_msb {
                        num.lsb
                    } else {
                        byte
                    },
                    is_registered,
                },
            },
            None,
        ),
        NrpnChannelState::ValuePending { num, first_value_byte, first_is_msb, .. } => (
            NrpnChannelState::AwaitingFirstValueByte {
                num: NrpnNumber {
                    msb: if is_msb {
                        byte
                    } else {
                        num.msb
                    },
                    lsb: if is_msb {
                        num.lsb
                    } else {
                        byte
                    },
                    is_registered,
                },
            },
            resolve_pending(channel, num, first_value_byte, first_is_msb),
        ),
    }
}

/// One decoder step on a data entry MSB (controller 6).
pub open spec fn nrpn_value_msb_step(state: NrpnChannelState, channel: u8, byte: u8) -> (
    NrpnChannelState,
    Option<ParameterNumberMsg>,
) {
    match state {
        NrpnChannelState::AwaitingNumber { .. } => (state, None),
        NrpnChannelState::AwaitingFirstValueByte { num } => (
            NrpnChannelState::ValuePending {
                num,
                first_value_byte: byte,
                first_is_msb: true,
                age_in_polls: 0,
            },
            None,
        ),
        NrpnChannelState::ValuePending { num, first_value_byte, first_is_msb, .. } => {
            if first_is_msb {
                // The pending byte was itself an MSB: it is a complete 7-bit
                // data entry, and the new byte starts the next value.
                (
                    NrpnChannelState::ValuePending {
                        num,
                        first_value_byte: byte,
                        first_is_msb: true,
                        age_in_polls: 0,
                    },
                    Some(seven_bit_msg(channel, num, first_value_byte)),
                )
            } else {
                // The awaited MSB arrived: the 14-bit value is complete.
                (
                    NrpnChannelState::ValueComplete {
                        num,
                        value_msb: byte,
                        value_lsb: first_value_byte,
                    },
                    Some(fourteen_bit_msg(channel, num, byte, first_value_byte)),
                )
            }
        },
        NrpnChannelState::ValueComplete { num, .. } => (
            NrpnChannelState::ValuePending {
                num,
                first_value_byte: byte,
                first_is_msb: true,
                age_in_polls: 0,
            },
            None,
        ),
    }
}

/// One decoder step on a data entry LSB (controller 38).
pub open spec fn nrpn_value_lsb_step(state: NrpnChannelState, channel: u8, byte: u8) -> (
    NrpnChannelState,
    Option<ParameterNumberMsg>,
) {
    match state {
        NrpnChannelState::AwaitingNumber { .. } => (state, None),
        NrpnChannelState::AwaitingFirstValueByte { num } => (
            NrpnChannelState::ValuePending {
                num,
                first_value_byte: byte,
                first_is_msb: false,
                age_in_polls: 0,
            },
            None,
        ),
        NrpnChannelState::ValuePending { num, first_value_byte, first_is_msb, .. } => {
            if first_is_msb {
                // The awaited LSB arrived: the 14-bit value is complete.
                (
                    NrpnChannelState::ValueComplete {
                        num,
                        value_msb: first_value_byte,
                        value_lsb: byte,
                    },
                    Some(fourteen_bit_msg(channel, num, first_value_byte, byte)),
                )
            } else {
                // Two LSBs in a row are invalid: discard both.
                (NrpnChannelState::AwaitingFirstValueByte { num }, None)
            }
        },
        NrpnChannelState::ValueComplete { num, value_msb, .. } => (
            // A fine adjustment of the value that was just delivered.
            NrpnChannelState::ValueComplete { num, value_msb, value_lsb: byte },
            Some(fourteen_bit_msg(channel, num, value_msb, byte)),
        ),
    }
}

/// One decoder step on an arbitrary control change message.
pub open spec fn nrpn_step(state: NrpnChannelState, channel: u8, controller: u8, value: u8) -> (
    NrpnChannelState,
    Option<ParameterNumberMsg>,
) {
    if controller == 98 {
        nrpn_number_byte_step(state, channel, value, false, false)
    } else if controller == 99 {
        nrpn_number_byte_step(state, channel, value, false, true)
    } else if controller == 100 {
        nrpn_number_byte_step(state, channel, value, true, false)
    } else if controller == 101 {
        nrpn_number_byte_step(state, channel, value, true, true)
    } else if controller == 38 {
        nrpn_value_lsb_step(state, channel, value)
    } else if controller == 6 {
        nrpn_value_msb_step(state, channel, value)
    } else {
        (state, None)
    }
}

/// One poll step: ages an in-flight value byte and resolves it once it has
/// waited at least `timeout_polls` polls.
pub open spec fn nrpn_poll_step(state: NrpnChannelState, channel: u8, timeout_polls: u8) -> (
    NrpnChannelState,
    Option<ParameterNumberMsg>,
) {
    match state {
        NrpnChannelState::ValuePending { num, first_value_byte, first_is_msb, age_in_polls } => {
            let new_age: u8 = if age_in_polls < 255 {
                (age_in_polls + 1) as u8
            } else {
                255
            };
            if new_age >= timeout_polls {
                (
                    NrpnChannelState::AwaitingFirstValueByte { num },
                    resolve_pending(channel, num, first_value_byte, first_is_msb),
                )
            } else {
                (
                    NrpnChannelState::ValuePending {
                        num,
                        first_value_byte,
                        first_is_msb,
                        age_in_polls: new_age,
                    },
                    None,
                )
            }
        },
        _ => (state, None),
    }
}

/// Decoder for (N)RPN messages with one independent state per MIDI channel
/// and a poll-based wait window for the second value byte.
#[derive(Debug)]
pub struct PollingParameterNumberScanner {
    channels: Vec<NrpnChannelState>,
    timeout_polls: u8,
}

impl PollingParameterNumberScanner {
    /// Per-channel decoder states; the sequence always has 16 entries.
    pub closed spec fn channel_states(self) -> Seq<NrpnChannelState> {
        self.channels@
    }

    /// How many polls an in-flight value byte waits for its partner.
    pub closed spec fn spec_timeout_polls(self) -> u8 {
        self.timeout_polls
    }

    /// Well-formedness: one well-formed state per channel.
    pub closed spec fn wf(self) -> bool {
        &&& self.channels@.len() == 16
        &&& forall|i: int| 0 <= i < 16 ==> #[trigger] self.channels@[i].wf()
    }

    /// A well-formed scanner has exactly one decoder state per channel.
    pub proof fn lemma_wf_len(self)
        requires
            self.wf(),
        ensures
            self.channel_states().len() == 16,
    {
    }

    /// Creates a scanner whose wait window for the second value byte is the
    /// given number of polls.
    pub fn new(timeout_polls: u8) -> (r: PollingParameterNumberScanner)
        ensures
            r.wf(),
            r.spec_timeout_polls() == timeout_polls,
            forall|i: int| 0 <= i < 16 ==> r.channel_states()[i] == NrpnChannelState::spec_empty(),
    {
        let mut channels: Vec<NrpnChannelState> = Vec::new();
        let mut i: usize = 0;
        while i < 16
            invariant
                i <= 16,
                channels@.len() == i,
                forall|j: int| 0 <= j < i ==> channels@[j] == NrpnChannelState::spec_empty(),
            decreases 16 - i,
        {
            channels.push(
                NrpnChannelState::AwaitingNumber {
                    first_byte: None,
                    is_registered: false,
                    first_is_msb: false,
                },
            );
            i = i + 1;
        }
        PollingParameterNumberScanner { channels, timeout_polls }
    }

    /// Feeds one primitive message to the decoder.
    ///
    /// A control change message steps the decoder of its channel as
    /// [`nrpn_step`] describes; every other message leaves all state
    /// unchanged and emits nothing.
    pub fn feed(&mut self, msg: &ShortMsg) -> (r: Option<ParameterNumberMsg>)
        requires
            old(self).wf(),
            msg.wf(),
        ensures
            final(self).wf(),
            final(self).spec_timeout_polls() == old(self).spec_timeout_polls(),
            msg.is_control_change() ==> ({
                let c = msg.spec_channel() as int;
                let (next, out) = nrpn_step(
                    old(self).channel_states()[c],
                    msg.spec_channel(),
                    msg.data1,
                    msg.data2,
                );
                &&& final(self).channel_states() == old(self).channel_states().update(c, next)
                &&& r == out
            }),
            !msg.is_control_change() ==> final(self).channel_states() == old(
                self,
            ).channel_states() && r is None,
            r is Some ==> r->0.wf(),
    {
        if !msg.check_control_change() {
            return None;
        }
        let channel = msg.status % 16;
        let controller = msg.data1;
        let value = msg.data2;
        proof {
            assert(channel < 16);
            assert(old(self).channels@[channel as int].wf());
        }
        let r = if controller == CC_NRPN_NUMBER_LSB {
            self.number_byte(channel, value, false, false)
        } else if controller == CC_NRPN_NUMBER_MSB {
            self.number_byte(channel, value, false, true)
        } else if controller == CC_RPN_NUMBER_LSB {
            self.number_byte(channel, value, true, false)
        } else if controller == CC_RPN_NUMBER_MSB {
            self.number_byte(channel, value, true, true)
        } else if controller == CC_DATA_ENTRY_LSB {
            self.value_lsb(channel, value)
        } else if controller == CC_DATA_ENTRY_MSB {
            self.value_msb(channel, value)
        } else {
            proof {
                assert(self.channel_states() =~= old(self).channel_states().update(
                    channel as int,
                    old(self).channel_states()[channel as int],
                ));
            }
            None
        };
        r
    }

    /// Polls the decoder of one channel, resolving an in-flight value byte
    /// whose wait window has elapsed, as [`nrpn_poll_step`] describes.
    pub fn poll(&mut self, channel: u8) -> (r: Option<ParameterNumberMsg>)
        requires
            old(self).wf(),
            channel < 16,
        ensures
            final(self).wf(),
            final(self).spec_timeout_polls() == old(self).spec_timeout_polls(),
            ({
                let (next, out) = nrpn_poll_step(
                    old(self).channel_states()[channel as int],
                    channel,
                    old(self).spec_timeout_polls(),
                );
                &&& final(self).channel_states() == old(self).channel_states().update(
                    channel as int,
                    next,
                )
                &&& r == out
            }),
            r is Some ==> r->0.wf(),
    {
        proof {
            assert(old(self).channels@[channel as int].wf());
        }
        let timeout_polls = self.timeout_polls;
        let state = &mut self.channels[channel as usize];
        let r = match *state {
            NrpnChannelState::ValuePending { num, first_value_byte, first_is_msb, age_in_polls } => {
                let new_age: u8 = if age_in_polls < 255 {
                    age_in_polls + 1
                } else {
                    255
                };
                if new_age >= timeout_polls {
                    *state = NrpnChannelState::AwaitingFirstValueByte { num };
                    if first_is_msb {
                        Some(
                            ParameterNumberMsg {
                                channel,
                                number: num.msb as u16 * 128 + num.lsb as u16,
                                value: first_value_byte as u16,
                                is_registered: num.is_registered,
                                is_14_bit: false,
                            },
                        )
                    } else {
                        None
                    }
                } else {
                    *state = NrpnChannelState::ValuePending {
                        num,
                        first_value_byte,
                        first_is_msb,
                        age_in_polls: new_age,
                    };
                    None
                }
            },
            _ => None,
        };
        proof {
            assert(self.channel_states() =~= old(self).channel_states().update(
                channel as int,
                self.channel_states()[channel as int],
            ));
        }
        r
    }

    /// Discards all intermediate scanning progress on every channel.
    pub fn reset(&mut self)
        requires
            old(self).wf(),
        ensures
            final(self).wf(),
            final(self).spec_timeout_polls() == old(self).spec_timeout_polls(),
            forall|i: int|
                0 <= i < 16 ==> final(self).channel_states()[i] == NrpnChannelState::spec_empty(),
    {
        let mut i: usize = 0;
        while i < 16
            invariant
                i <= 16,
                self.channels@.len() == 16,
                self.timeout_polls == old(self).timeout_polls,
                forall|j: int| 0 <= j < 16 ==> #[trigger] self.channels@[j].wf(),
                forall|j: int| 0 <= j < i ==> self.channels@[j] == NrpnChannelState::spec_empty(),
            decreases 16 - i,
        {
            let state = &mut self.channels[i];
            *state = NrpnChannelState::AwaitingNumber {
                first_byte: None,
                is_registered: false,
                first_is_msb: false,
            };
            i = i + 1;
        }
    }

    /// Steps the decoder of one channel on a number byte.
    fn number_byte(&mut self, channel: u8, byte: u8, is_registered: bool, is_msb: bool) -> (r:
        Option<ParameterNumberMsg>)
        requires
            old(self).wf(),
            channel < 16,
            byte < 128,
        ensures
            final(self).wf(),
            final(self).spec_timeout_polls() == old(self).spec_timeout_polls(),
            ({
                let (next, out) = nrpn_number_byte_step(
                    old(self).channel_states()[channel as int],
                    channel,
                    byte,
                    is_registered,
                    is_msb,
                );
                &&& final(self).channel_states() == old(self).channel_states().update(
                    channel as int,
                    next,
                )
                &&& r == out
            }),
            r is Some ==> r->0.wf(),
    {
        proof {
            assert(old(self).channels@[channel as int].wf());
        }
        let state = &mut self.channels[channel as usize];
        let r = match *state {
            NrpnChannelState::AwaitingNumber { first_byte, first_is_msb, .. } => {
                match first_byte {
                    Some(fb) => {
                        if first_is_msb == is_msb {
                            *state = NrpnChannelState::AwaitingNumber {
                                first_byte: Some(byte),
                                is_registered,
                                first_is_msb: is_msb,
                            };
                        } else {
                            *state = NrpnChannelState::AwaitingFirstValueByte {
                                num: NrpnNumber {
                                    msb: if first_is_msb {
                                        fb
                                    } else {
                                        byte
                                    },
                                    lsb: if first_is_msb {
                                        byte
                                    } else {
                                        fb
                                    },
                                    is_registered,
                                },
                            };
                        }
                        None
                    },
                    None => {
                        *state = NrpnChannelState::AwaitingNumber {
                            first_byte: Some(byte),
                            is_registered,
                            first_is_msb: is_msb,
                        };
                        None
                    },
                }
            },
            NrpnChannelState::AwaitingFirstValueByte { num } => {
                *state = NrpnChannelState::AwaitingFirstValueByte {
                    num: Self::updated_number(num, byte, is_registered, is_msb),
                };
                None
            },
            NrpnChannelState::ValueComplete { num, .. } => {
                *state = NrpnChannelState::AwaitingFirstValueByte {
                    num: Self::updated_number(num, byte, is_registered, is_msb),
                };
                None
            },
            NrpnChannelState::ValuePending { num, first_value_byte, first_is_msb, .. } => {
                *state = NrpnChannelState::AwaitingFirstValueByte {
                    num: Self::updated_number(num, byte, is_registered, is_msb),
                };
                if first_is_msb {
                    Some(
                        ParameterNumberMsg {
                            channel,
                            number: num.msb as u16 * 128 + num.lsb as u16,
                            value: first_value_byte as u16,
                            is_registered: num.is_registered,
                            is_14_bit: false,
                        },
                    )
                } else {
                    None
                }
            },
        };
        proof {
            assert(self.channel_states() =~= old(self).channel_states().update(
                channel as int,
                self.channel_states()[channel as int],
            ));
        }
        r
    }

    /// A complete number with one of its bytes replaced.
    fn updated_number(num: NrpnNumber, byte: u8, is_registered: bool, is_msb: bool) -> (r:
        NrpnNumber)
        requires
            num.wf(),
            byte < 128,
        ensures
            r == (NrpnNumber {
                msb: if is_msb {
                    byte
                } else {
                    num.msb
                },
                lsb: if is_msb {
                    num.lsb
                } else {
                    byte
                },
                is_registered,
            }),
            r.wf(),
    {
        NrpnNumber {
            msb: if is_msb {
                byte
            } else {
                num.msb
            },
            lsb: if is_msb {
                num.lsb
            } else {
                byte
            },
            is_registered,
        }
    }

    /// Steps the decoder of one channel on a data entry MSB.
    fn value_msb(&mut self, channel: u8, byte: u8) -> (r: Option<ParameterNumberMsg>)
        requires
            old(self).wf(),
            channel < 16,
            byte < 128,
        ensures
            final(self).wf(),
            final(self).spec_timeout_polls() == old(self).spec_timeout_polls(),
            ({
                let (next, out) = nrpn_value_msb_step(
                    old(self).channel_states()[channel as int],
                    channel,
                    byte,
                );
                &&& final(self).channel_states() == old(self).channel_states().update(
                    channel as int,
                    next,
                )
                &&& r == out
            }),
            r is Some ==> r->0.wf(),
    {
        proof {
            assert(old(self).channels@[channel as int].wf());
        }
        let state = &mut self.channels[channel as usize];
        let r = match *state {
            NrpnChannelState::AwaitingNumber { .. } => None,
            NrpnChannelState::AwaitingFirstValueByte { num } => {
                *state = NrpnChannelState::ValuePending {
                    num,
                    first_value_byte: byte,
                    first_is_msb: true,
                    age_in_polls: 0,
                };
                None
            },
            NrpnChannelState::ValuePending { num, first_value_byte, first_is_msb, .. } => {
                if first_is_msb {
                    *state = NrpnChannelState::ValuePending {
                        num,
                        first_value_byte: byte,
                        first_is_msb: true,
                        age_in_polls: 0,
                    };
                    Some(
                        ParameterNumberMsg {
                            channel,
                            number: num.msb as u16 * 128 + num.lsb as u16,
                            value: first_value_byte as u16,
                            is_registered: num.is_registered,
                            is_14_bit: false,
                        },
                    )
                } else {
                    *state = NrpnChannelState::ValueComplete {
                        num,
                        value_msb: byte,
                        value_lsb: first_value_byte,
                    };
                    Some(
                        ParameterNumberMsg {
                            channel,
                            number: num.msb as u16 * 128 + num.lsb as u16,
                            value: byte as u16 * 128 + first_value_byte as u16,
                            is_registered: num.is_registered,
                            is_14_bit: true,
                        },
                    )
                }
            },
            NrpnChannelState::ValueComplete { num, .. } => {
                *state = NrpnChannelState::ValuePending {
                    num,
                    first_value_byte: byte,
                    first_is_msb: true,
                    age_in_polls: 0,
                };
                None
            },
        };
        proof {
            assert(self.channel_states() =~= old(self).channel_states().update(
                channel as int,
                self.channel_states()[channel as int],
            ));
        }
        r
    }

    /// Steps the decoder of one channel on a data entry LSB.
    fn value_lsb(&mut self, channel: u8, byte: u8) -> (r: Option<ParameterNumberMsg>)
        requires
            old(self).wf(),
            channel < 16,
            byte < 128,
        ensures
            final(self).wf(),
            final(self).spec_timeout_polls() == old(self).spec_timeout_polls(),
            ({
                let (next, out) = nrpn_value_lsb_step(
                    old(self).channel_states()[channel as int],
                    channel,
                    byte,
                );
                &&& final(self).channel_states() == old(self).channel_states().update(
                    channel as int,
                    next,
                )
                &&& r == out
            }),
            r is Some ==> r->0.wf(),
    {
        proof {
            assert(old(self).channels@[channel as int].wf());
        }
        let state = &mut self.channels[channel as usize];
        let r = match *state {
            NrpnChannelState::AwaitingNumber { .. } => None,
            NrpnChannelState::AwaitingFirstValueByte { num } => {
                *state = NrpnChannelState::ValuePending {
                    num,
                    first_value_byte: byte,
                    first_is_msb: false,
                    age_in_polls: 0,
                };
                None
            },
            NrpnChannelState::ValuePending { num, first_value_byte, first_is_msb, .. } => {
                if first_is_msb {
                    *state = NrpnChannelState::ValueComplete {
                        num,
                        value_msb: first_value_byte,
                        value_lsb: byte,
                    };
                    Some(
                        ParameterNumberMsg {
                            channel,
                            number: num.msb as u16 * 128 + num.lsb as u16,
                            value: first_value_byte as u16 * 128 + byte as u16,
                            is_registered: num.is_registered,
                            is_14_bit: true,
                        },
                    )
                } else {
                    *state = NrpnChannelState::AwaitingFirstValueByte { num };
                    None
                }
            },
            NrpnChannelState::ValueComplete { num, value_msb, .. } => {
                *state = NrpnChannelState::ValueComplete { num, value_msb, value_lsb: byte };
                Some(
                    ParameterNumberMsg {
                        channel,
                        number: num.msb as u16 * 128 + num.lsb as u16,
                        value: value_msb as u16 * 128 + byte as u16,
                        is_registered: num.is_registered,
                        is_14_bit: true,
                    },
                )
            },
        };
        proof {
            assert(self.channel_states() =~= old(self).channel_states().update(
                channel as int,
                self.channel_states()[channel as int],
            ));
        }
        r
    }
}

/// Law: a complete 14-bit (N)RPN sequence — number MSB, number LSB, data
/// entry MSB, data entry LSB — fed to a channel decoder that has no value
/// byte in flight emits no message on the first three steps and exactly one
/// message on the fourth, whose number and value are the MSB-first
/// concatenations of the constituent bytes. The decoder is left without an
/// in-flight value byte, so subsequent sequences are unaffected.
pub proof fn law_nrpn_14_bit_sequence(
    s: NrpnChannelState,
    channel: u8,
    number_msb: u8,
    number_lsb: u8,
    value_msb: u8,
    value_lsb: u8,
    is_registered: bool,
)
    requires
        s.wf(),
        !s.is_value_pending(),
        channel < 16,
        number_msb < 128,
        number_lsb < 128,
        value_msb < 128,
        value_lsb < 128,
    ensures
        ({
            let number_msb_cc: u8 = if is_registered { 101 } else { 99 };
            let number_lsb_cc: u8 = if is_registered { 100 } else { 98 };
            let (s1, o1) = nrpn_step(s, channel, number_msb_cc, number_msb);
            let (s2, o2) = nrpn_step(s1, channel, number_lsb_cc, number_lsb);
            let (s3, o3) = nrpn_step(s2, channel, 6, value_msb);
            let (s4, o4) = nrpn_step(s3, channel, 38, value_lsb);
            &&& o1 is None
            &&& o2 is None
            &&& o3 is None
            &&& o4 == Some(
                ParameterNumberMsg {
                    channel,
                    number: (number_msb * 128 + number_lsb) as u16,
                    value: (value_msb * 128 + value_lsb) as u16,
                    is_registered,
                    is_14_bit: true,
                },
            )
            &&& !s4.is_value_pending()
        }),
{
}

/// Law: a 7-bit (N)RPN sequence — number MSB, number LSB, data entry MSB —
/// fed to a channel decoder without an in-flight value byte emits nothing by
/// itself; the data entry MSB is held in flight with age zero, waiting for a
/// possible LSB.
pub proof fn law_nrpn_seven_bit_value_held(
    s: NrpnChannelState,
    channel: u8,
    number_msb: u8,
    number_lsb: u8,
    value: u8,
    is_registered: bool,
)
    requires
        s.wf(),
        !s.is_value_pending(),
        channel < 16,
        number_msb < 128,
        number_lsb < 128,
        value < 128,
    ensures
        ({
            let number_msb_cc: u8 = if is_registered { 101 } else { 99 };
            let number_lsb_cc: u8 = if is_registered { 100 } else { 98 };
            let (s1, o1) = nrpn_step(s, channel, number_msb_cc, number_msb);
            let (s2, o2) = nrpn_step(s1, channel, number_lsb_cc, number_lsb);
            let (s3, o3) = nrpn_step(s2, channel, 6, value);
            &&& o1 is None
            &&& o2 is None
            &&& o3 is None
            &&& s3 == (NrpnChannelState::ValuePending {
                num: NrpnNumber { msb: number_msb, lsb: number_lsb, is_registered },
                first_value_byte: value,
                first_is_msb: true,
                age_in_polls: 0,
            })
        }),
{
}

/// Law: once the wait window of an in-flight data entry MSB elapses, a poll
/// emits exactly the 7-bit message made of the number bytes and that value
/// byte, and leaves the decoder without an in-flight value byte.
pub proof fn law_nrpn_pending_msb_resolves_on_timeout(
    num: NrpnNumber,
    channel: u8,
    value: u8,
    age_in_polls: u8,
    timeout_polls: u8,
)
    requires
        num.wf(),
        channel < 16,
        value < 128,
        age_in_polls + 1 >= timeout_polls,
    ensures
        ({
            let pending = NrpnChannelState::ValuePending {
                num,
                first_value_byte: value,
                first_is_msb: true,
                age_in_polls,
            };
            let (next, out) = nrpn_poll_step(pending, channel, timeout_polls);
            &&& out == Some(
                ParameterNumberMsg {
                    channel,
                    number: (num.msb * 128 + num.lsb) as u16,
                    value: value as u16,
                    is_registered: num.is_registered,
                    is_14_bit: false,
                },
            )
            &&& !next.is_value_pending()
        }),
{
}

/// Law: an in-flight data entry LSB whose wait window elapses is discarded
/// silently: the timed-out sequence produces no composite value, and the
/// decoder is left without an in-flight value byte, so subsequent
/// independent sequences are unaffected.
pub proof fn law_nrpn_pending_lsb_times_out_silently(
    num: NrpnNumber,
    channel: u8,
    value: u8,
    age_in_polls: u8,
    timeout_polls: u8,
)
    requires
        num.wf(),
        channel < 16,
        value < 128,
        age_in_polls + 1 >= timeout_polls,
    ensures
        ({
            let pending = NrpnChannelState::ValuePending {
                num,
                first_value_byte: value,
                first_is_msb: false,
                age_in_polls,
            };
            let (next, out) = nrpn_poll_step(pending, channel, timeout_polls);
            &&& out is None
            &&& !next.is_value_pending()
        }),
{
}

} // verus!
