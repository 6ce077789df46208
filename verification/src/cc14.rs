//! Incremental decoder for 14-bit control change messages.
//!
//! A 14-bit control change consists of two primitive control change messages
//! on the same channel: the most significant 7 bits on a controller `N` in
//! `0..=31`, the least significant 7 bits on controller `N + 32`. There is no
//! time window: the first completed pair wins.

use vstd::prelude::*;
use crate::midi::ShortMsg;

verus! {

/// A decoded 14-bit control change message.
#[derive(Copy, Clone, Debug, PartialEq, Eq, Structural)]
pub struct ControlChange14BitMsg {
    /// Channel; always `0..=15`.
    pub channel: u8,
    /// Controller number of the most significant byte; always `0..=31`.
    pub msb_controller: u8,
    /// The assembled value; always `0..=16383`.
    pub value: u16,
}

impl ControlChange14BitMsg {
    /// Field bounds of a well-formed message.
    pub open spec fn wf(self) -> bool {
        &&& self.channel < 16
        &&& self.msb_controller < 32
        &&& self.value < 16384
    }

    /// Checks the field bounds at run time.
    pub fn check_wf(&self) -> (r: bool)
        ensures
            r == self.wf(),
    {
        self.channel < 16 && self.msb_controller < 32 && self.value < 16384
    }

    /// The two primitive control change messages this message was assembled
    /// from, most significant first.
    pub fn to_short_messages(&self) -> (r: [ShortMsg; 2])
        requires
            self.wf(),
        ensures
            r[0] == ShortMsg::spec_cc(self.channel, self.msb_controller, (self.value / 128) as u8),
            r[1] == ShortMsg::spec_cc(
                self.channel,
                (self.msb_controller + 32) as u8,
                (self.value % 128) as u8,
            ),
    {
        [
            ShortMsg::control_change(self.channel, self.msb_controller, (self.value / 128) as u8),
            ShortMsg::control_change(
                self.channel,
                self.msb_controller + 32,
                (self.value % 128) as u8,
            ),
        ]
    }
}

/// Decoder state for one channel: the most recent value MSB seen, together
/// with its controller number.
#[derive(Copy, Clone, Debug, PartialEq, Eq, Structural)]
pub struct Cc14ChannelState {
    /// Controller number of the last MSB control change, if any.
    pub msb_controller: Option<u8>,
    /// Value byte of the last MSB control change, if any.
    pub value_msb: Option<u8>,
}

impl Cc14ChannelState {
    /// The empty state with no MSB seen.
    pub open spec fn spec_empty() -> Cc14ChannelState {
        Cc14ChannelState { msb_controller: None, value_msb: None }
    }

    /// Field bounds of a well-formed state.
    pub open spec fn wf(self) -> bool {
        &&& match self.msb_controller {
            Some(c) => c < 32,
            None => true,
        }
        &&& match self.value_msb {
            Some(v) => v < 128,
            None => true,
        }
    }
}

/// One step of the per-channel decoder on a control change with the given
/// controller number and value: the new state and the emitted message.
pub open spec fn cc14_step(state: Cc14ChannelState, channel: u8, controller: u8, value: u8) -> (
    Cc14ChannelState,
    Option<ControlChange14BitMsg>,
) {
    if controller < 32 {
        (Cc14ChannelState { msb_controller: Some(controller), value_msb: Some(value) }, None)
    } else if controller < 64 {
        match (state.msb_controller, state.value_msb) {
            (Some(msb_controller), Some(value_msb)) => {
                if controller == msb_controller + 32 {
                    (
                        state,
                        Some(
                            ControlChange14BitMsg {
                                channel,
                                msb_controller,
                                value: (value_msb * 128 + value) as u16,
                            },
                        ),
                    )
                } else {
                    (state, None)
                }
            },
            _ => (state, None),
        }
    } else {
        (state, None)
    }
}

/// Decoder for 14-bit control change messages, with one independent state
/// per MIDI channel.
#[derive(Debug)]
pub struct ControlChange14BitScanner {
    channels: Vec<Cc14ChannelState>,
}

impl ControlChange14BitScanner {
    /// Per-channel decoder states; the sequence always has 16 entries.
    pub closed spec fn channel_states(self) -> Seq<Cc14ChannelState> {
        self.channels@
    }

    /// Well-formedness: one well-formed state per channel.
    pub closed spec fn wf(self) -> bool {
        &&& self.channels@.len() == 16
        &&& forall|i: int| 0 <= i < 16 ==> #[trigger] self.channels@[i].wf()
    }

    /// Creates a scanner with all channels empty.
    pub fn new() -> (r: ControlChange14BitScanner)
        ensures
            r.wf(),
            forall|i: int| 0 <= i < 16 ==> r.channel_states()[i] == Cc14ChannelState::spec_empty(),
    {
        let mut channels: Vec<Cc14ChannelState> = Vec::new();
        let mut i: usize = 0;
        while i < 16
            invariant
                i <= 16,
                channels@.len() == i,
                forall|j: int|
                    0 <= j < i ==> channels@[j] == Cc14ChannelState::spec_empty(),
            decreases 16 - i,
        {
            channels.push(Cc14ChannelState { msb_controller: None, value_msb: None });
            i = i + 1;
        }
        ControlChange14BitScanner { channels }
    }

    /// Feeds one primitive message to the decoder.
    ///
    /// A control change message steps the decoder of its channel as
    /// [`cc14_step`] describes; every other message leaves all state
    /// unchanged and emits nothing.
    pub fn feed(&mut self, msg: &ShortMsg) -> (r: Option<ControlChange14BitMsg>)
        requires
            old(self).wf(),
            msg.wf(),
        ensures
            final(self).wf(),
            msg.is_control_change() ==> ({
                let c = msg.spec_channel() as int;
                let (next, out) = cc14_step(
                    old(self).channel_states()[c],
                    msg.spec_channel(),
                    msg.data1,
                    msg.data2,
                );
                &&& final(self).channel_states() == old(self).channel_states().update(c, next)
                &&& r == out
            }),
            !msg.is_control_change() ==> final(self).channel_states() == old(
                self,
            ).channel_states() && r is None,
            r is Some ==> r->0.wf(),
    {
        if !msg.check_control_change() {
            return None;
        }
        let channel = msg.status % 16;
        let controller = msg.data1;
        let value = msg.data2;
        proof {
            assert(channel < 16);
            assert(old(self).channels@[channel as int].wf());
        }
        let state = &mut self.channels[channel as usize];
        if controller < 32 {
            state.msb_controller = Some(controller);
            state.value_msb = Some(value);
            proof {
                assert(self.channel_states() =~= old(self).channel_states().update(
                    channel as int,
                    self.channels@[channel as int],
                ));
            }
            None
        } else if controller < 64 {
            let r = match (state.msb_controller, state.value_msb) {
                (Some(msb_controller), Some(value_msb)) => {
                    if controller == msb_controller + 32 {
                        Some(
                            ControlChange14BitMsg {
                                channel,
                                msb_controller,
                                value: value_msb as u16 * 128 + value as u16,
                            },
                        )
                    } else {
                        None
                    }
                },
                _ => None,
            };
            proof {
                assert(self.channel_states() =~= old(self).channel_states().update(
                    channel as int,
                    self.channels@[channel as int],
                ));
            }
            r
        } else {
            proof {
                assert(self.channel_states() =~= old(self).channel_states().update(
                    channel as int,
                    self.channels@[channel as int],
                ));
            }
            None
        }
    }

    /// Discards all intermediate scanning progress on every channel.
    pub fn reset(&mut self)
        requires
            old(self).wf(),
        ensures
            final(self).wf(),
            forall|i: int|
                0 <= i < 16 ==> final(self).channel_states()[i]
                    == Cc14ChannelState::spec_empty(),
    {
        let mut i: usize = 0;
        while i < 16
            invariant
                i <= 16,
                self.channels@.len() == 16,
                forall|j: int| 0 <= j < 16 ==> #[trigger] self.channels@[j].wf(),
                forall|j: int|
                    0 <= j < i ==> self.channels@[j] == Cc14ChannelState::spec_empty(),
            decreases 16 - i,
        {
            let state = &mut self.channels[i];
            state.msb_controller = None;
            state.value_msb = None;
            i = i + 1;
        }
    }
}

} // verus!
