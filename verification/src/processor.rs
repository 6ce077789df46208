//! The real-time processor: classification, demultiplexing, matching,
//! dispatch and lifecycle feedback, driven once per audio block.

use vstd::prelude::*;
use crate::capture::{MidiScanner, MidiScanResult};
use crate::cc14::ControlChange14BitScanner;
use crate::channels::{
    channel_try_recv,
    channel_try_send,
    BasicSettings,
    ControlMainTask,
    ControlOptions,
    FeedbackRealTimeTask,
    Garbage,
    GarbageBin,
    MidiControlInput,
    MidiDestination,
    NormalRealTimeTask,
    NormalRealTimeToMainThreadTask,
};
use crate::clock::MidiClockCalculator;
use crate::event::{ControlEvent, ControlEventTimestamp, MidiEvent, SampleOffset};
use crate::mapping::{
    Compartment,
    LifecycleMidiMessage,
    LifecyclePhase,
    MappingId,
    PartialControlMatch,
    RealTimeMapping,
};
use crate::match_outcome::MatchOutcome;
use crate::midi::{classify_midi_message, IncomingMidiMessage, MidiMessageClassification, ShortMsg};
use crate::mode::Mode;
use crate::nrpn::PollingParameterNumberScanner;
use crate::source::{CompoundMappingSource, ControlValue, MidiSourceValue, VirtualSourceValue};
use crate::table::MappingTable;
use crate::target::{
    OutgoingMidi,
    RealTimeCompoundMappingTarget,
    RealTimeReaperTarget,
    SendMidiDestination,
    TargetWrite,
};

verus! {

/// How many configuration tasks the engine processes per audio block at
/// most; the rest stay queued for the next block.
pub const NORMAL_BULK_SIZE: usize = 100;

/// How many feedback tasks the engine processes per audio block at most.
pub const FEEDBACK_BULK_SIZE: usize = 100;

/// The execution context a processing call runs in. MIDI may be submitted
/// to the host output only from within the host's own processing callback,
/// never from the audio hook.
#[derive(Copy, Clone, Debug, PartialEq, Eq, Structural)]
pub enum Caller {
    /// Inside the host's processing callback of this plug-in instance.
    Vst,
    /// Inside the global audio hook.
    AudioHook,
}

impl Caller {
    /// Whether this context may submit events to the host output.
    pub fn is_vst(&self) -> (r: bool)
        ensures
            r == (*self is Vst),
    {
        matches!(self, Caller::Vst)
    }
}

/// Spec-level form of outgoing MIDI, with byte buffers as sequences.
pub enum MidiPayloadView {
    Short(ShortMsg),
    Raw(Seq<u8>),
}

/// The spec-level form of an outgoing MIDI payload.
pub open spec fn outgoing_view(o: OutgoingMidi) -> MidiPayloadView {
    match o {
        OutgoingMidi::Short(m) => MidiPayloadView::Short(m),
        OutgoingMidi::Raw(v) => MidiPayloadView::Raw(v@),
    }
}

/// The spec-level form of a lifecycle MIDI message.
pub open spec fn lifecycle_view(m: LifecycleMidiMessage) -> MidiPayloadView {
    match m {
        LifecycleMidiMessage::Short(s) => MidiPayloadView::Short(s),
        LifecycleMidiMessage::Raw(v) => MidiPayloadView::Raw(v@),
    }
}

/// An event for the host output, submitted inside the processing callback.
#[derive(Clone, Debug)]
pub struct FxOutputEvent {
    /// Offset within the audio block.
    pub offset: SampleOffset,
    /// The MIDI payload.
    pub midi: OutgoingMidi,
}

/// The spec-level form of a host-output event.
pub open spec fn fx_event_view(e: FxOutputEvent) -> (SampleOffset, MidiPayloadView) {
    (e.offset, outgoing_view(e.midi))
}

/// MIDI for a hardware output device, sent synchronously by the caller.
#[derive(Clone, Debug)]
pub struct DeviceOutputEvent {
    /// The output device.
    pub device_id: u8,
    /// The MIDI payload.
    pub midi: OutgoingMidi,
}

/// The spec-level form of a device-output event.
pub open spec fn device_event_view(e: DeviceOutputEvent) -> (u8, MidiPayloadView) {
    (e.device_id, outgoing_view(e.midi))
}

/// The spec-level form of a sequence of host-output events.
pub open spec fn fx_views(s: Seq<FxOutputEvent>) -> Seq<(SampleOffset, MidiPayloadView)> {
    s.map_values(|e: FxOutputEvent| fx_event_view(e))
}

/// The spec-level form of a sequence of device-output events.
pub open spec fn device_views(s: Seq<DeviceOutputEvent>) -> Seq<(u8, MidiPayloadView)> {
    s.map_values(|e: DeviceOutputEvent| device_event_view(e))
}

/// Everything a processing call asks its caller to perform on the host:
/// events for the host output, messages for hardware devices, and direct
/// target writes for the clip engine and plug-in parameters. The engine
/// only decides; the host-facing shim carries the effects out.
#[derive(Debug)]
pub struct Outputs {
    /// Events to submit to the host output, in order. Only filled by calls
    /// made from the host's processing callback.
    pub fx_output: Vec<FxOutputEvent>,
    /// Messages to send synchronously to hardware output devices, in order.
    pub device_output: Vec<DeviceOutputEvent>,
    /// Direct target writes, in order.
    pub target_writes: Vec<TargetWrite>,
}

impl Outputs {
    /// Creates an empty batch.
    pub fn new() -> (r: Outputs)
        ensures
            r.fx_output@.len() == 0,
            r.device_output@.len() == 0,
            r.target_writes@.len() == 0,
    {
        Outputs { fx_output: Vec::new(), device_output: Vec::new(), target_writes: Vec::new() }
    }

    /// Spec-level form of the host-output events.
    pub open spec fn fx(self) -> Seq<(SampleOffset, MidiPayloadView)> {
        fx_views(self.fx_output@)
    }

    /// Spec-level form of the device-output events.
    pub open spec fn dev(self) -> Seq<(u8, MidiPayloadView)> {
        device_views(self.device_output@)
    }

    /// Appends a short message for the host output.
    fn push_fx_short(&mut self, offset: SampleOffset, msg: ShortMsg)
        ensures
            final(self).fx() == old(self).fx().push((offset, MidiPayloadView::Short(msg))),
            final(self).device_output == old(self).device_output,
            final(self).target_writes == old(self).target_writes,
    {
        self.fx_output.push(FxOutputEvent { offset, midi: OutgoingMidi::Short(msg) });
        proof {
            assert(final(self).fx() =~= old(self).fx().push(
                (offset, MidiPayloadView::Short(msg)),
            ));
        }
    }

    /// Appends a raw byte buffer for the host output.
    fn push_fx_raw(&mut self, offset: SampleOffset, bytes: Vec<u8>)
        ensures
            final(self).fx() == old(self).fx().push((offset, MidiPayloadView::Raw(bytes@))),
            final(self).device_output == old(self).device_output,
            final(self).target_writes == old(self).target_writes,
    {
        let ghost b = bytes@;
        self.fx_output.push(FxOutputEvent { offset, midi: OutgoingMidi::Raw(bytes) });
        proof {
            assert(final(self).fx() =~= old(self).fx().push((offset, MidiPayloadView::Raw(b))));
        }
    }

    /// Appends a payload for a device output.
    fn push_device(&mut self, device_id: u8, midi: OutgoingMidi)
        ensures
            final(self).dev() == old(self).dev().push((device_id, outgoing_view(midi))),
            final(self).fx_output == old(self).fx_output,
            final(self).target_writes == old(self).target_writes,
    {
        let ghost v = outgoing_view(midi);
        self.device_output.push(DeviceOutputEvent { device_id, midi });
        proof {
            assert(final(self).dev() =~= old(self).dev().push((device_id, v)));
        }
    }
}


/// Copies a lifecycle message into the outgoing form.
fn outgoing_of_lifecycle(m: &LifecycleMidiMessage) -> (r: OutgoingMidi)
    ensures
        outgoing_view(r) == lifecycle_view(*m),
{
    match m {
        LifecycleMidiMessage::Short(s) => OutgoingMidi::Short(*s),
        LifecycleMidiMessage::Raw(v) => {
            let copy = v.clone();
            proof {
                assert(copy@ =~= v@);
            }
            OutgoingMidi::Raw(copy)
        },
    }
}

/// The direct write that a mapping's resolved target performs for a control
/// value, where the target is one the engine can hit without producing
/// MIDI; `None` for raw-MIDI-send targets, virtual targets and mappings
/// without a resolved target.
pub open spec fn spec_direct_write(m: RealTimeMapping, cv: ControlValue) -> Option<TargetWrite> {
    match m.resolved_target {
        Some(RealTimeCompoundMappingTarget::Reaper(t)) => match t {
            RealTimeReaperTarget::ClipTransport { column_index, row_index } => Some(
                TargetWrite::ClipTransport { column_index, row_index, value: cv },
            ),
            RealTimeReaperTarget::ClipColumn { index } => Some(
                TargetWrite::ClipColumn { index, value: cv },
            ),
            RealTimeReaperTarget::ClipRow { index } => Some(
                TargetWrite::ClipRow { index, value: cv },
            ),
            RealTimeReaperTarget::ClipMatrix => Some(TargetWrite::ClipMatrix { value: cv }),
            RealTimeReaperTarget::FxParameter { index, .. } => Some(
                TargetWrite::FxParameter { index, value: cv },
            ),
            RealTimeReaperTarget::SendMidi(_) => None,
        },
        _ => None,
    }
}


/// Whether a direct pass with this control value succeeds: a mapping
/// without a real-time target always forwards successfully; a real target
/// fails only when the mode declines (the target already holds the value)
/// or a raw-MIDI send has no reachable destination.
pub open spec fn spec_direct_ok(
    m: RealTimeMapping,
    cv: ControlValue,
    midi_feedback_output: Option<MidiDestination>,
) -> bool {
    match m.resolved_target {
        Some(RealTimeCompoundMappingTarget::Reaper(t)) => Mode::spec_control(
            cv,
            t.spec_current_value(),
        ) is Some && (match t {
            RealTimeReaperTarget::SendMidi(st) => st.spec_destination() is FxOutput
                || midi_feedback_output is Some,
            _ => true,
        }),
        _ => true,
    }
}

/// The destination a raw-MIDI send resolves to.
pub open spec fn spec_resolved_send_destination(
    d: SendMidiDestination,
    midi_feedback_output: Option<MidiDestination>,
) -> Option<MidiDestination> {
    match d {
        SendMidiDestination::FxOutput => Some(MidiDestination::FxOutput),
        SendMidiDestination::FeedbackOutput => midi_feedback_output,
    }
}

/// What a direct pass appends to the host output: the rendered pattern of
/// a raw-MIDI send routed to the host output, and only from within the
/// processing callback; everything else appends nothing.
pub open spec fn spec_direct_fx(
    m: RealTimeMapping,
    cv: ControlValue,
    caller: Caller,
    midi_feedback_output: Option<MidiDestination>,
    offset: SampleOffset,
) -> Seq<(SampleOffset, MidiPayloadView)> {
    match m.resolved_target {
        Some(RealTimeCompoundMappingTarget::Reaper(RealTimeReaperTarget::SendMidi(st))) => {
            if Mode::spec_control(cv, st.spec_artificial_value()) is Some
                && spec_resolved_send_destination(st.spec_destination(), midi_feedback_output)
                == Some(MidiDestination::FxOutput) && caller is Vst {
                seq![(offset, MidiPayloadView::Raw(st.spec_pattern().spec_resolve(cv)))]
            } else {
                Seq::empty()
            }
        },
        _ => Seq::empty(),
    }
}

/// What a direct pass appends to the device output: the rendered pattern
/// of a raw-MIDI send routed to a device; everything else appends nothing.
pub open spec fn spec_direct_dev(
    m: RealTimeMapping,
    cv: ControlValue,
    midi_feedback_output: Option<MidiDestination>,
) -> Seq<(u8, MidiPayloadView)> {
    match m.resolved_target {
        Some(RealTimeCompoundMappingTarget::Reaper(RealTimeReaperTarget::SendMidi(st))) => {
            match spec_resolved_send_destination(st.spec_destination(), midi_feedback_output) {
                Some(MidiDestination::Device(d)) => {
                    if Mode::spec_control(cv, st.spec_artificial_value()) is Some {
                        seq![(d, MidiPayloadView::Raw(st.spec_pattern().spec_resolve(cv)))]
                    } else {
                        Seq::empty()
                    }
                },
                _ => Seq::empty(),
            }
        },
        _ => Seq::empty(),
    }
}


/// The complete mapping after a direct pass with this control value: the
/// mode remembers the value, a successful send or write refreshes the
/// target's cached value, and a mapping without a real-time target is
/// untouched.
pub open spec fn spec_mapping_after_direct(
    m: RealTimeMapping,
    cv: ControlValue,
    midi_feedback_output: Option<MidiDestination>,
) -> RealTimeMapping {
    match m.resolved_target {
        Some(RealTimeCompoundMappingTarget::Reaper(t)) => RealTimeMapping {
            mode: Mode { last_value: Some(cv) },
            resolved_target: Some(
                RealTimeCompoundMappingTarget::Reaper(
                    if Mode::spec_control(cv, t.spec_current_value()) is None {
                        t
                    } else {
                        match t {
                            RealTimeReaperTarget::SendMidi(st) => RealTimeReaperTarget::SendMidi(
                                crate::target::MidiSendTarget {
                                    artificial_value: if spec_resolved_send_destination(
                                        st.destination,
                                        midi_feedback_output,
                                    ) is Some {
                                        Some(cv)
                                    } else {
                                        st.artificial_value
                                    },
                                    ..st
                                },
                            ),
                            RealTimeReaperTarget::FxParameter { index, .. } =>
                                RealTimeReaperTarget::FxParameter {
                                index,
                                current_value: Some(cv),
                            },
                            other => other,
                        }
                    },
                ),
            ),
            ..m
        },
        _ => m,
    }
}

/// The parts of a mapping that decide whether and how it matches: its id,
/// source, activation flags and the shape of its resolved target. A control
/// pass may update mode state and cached target values, but never these.
pub open spec fn match_shape(m: RealTimeMapping) -> (
    MappingId,
    CompoundMappingSource,
    bool,
    Option<Option<crate::source::VirtualControlElement>>,
) {
    (
        m.spec_id(),
        m.spec_source(),
        m.spec_control_is_effectively_on(),
        match m.resolved_target {
            None => None,
            Some(RealTimeCompoundMappingTarget::Virtual(e)) => Some(Some(e)),
            Some(RealTimeCompoundMappingTarget::Reaper(_)) => Some(None),
        },
    )
}

/// Hands a matched control event to the slow path's control processor.
/// A full queue drops the event silently: the send never blocks, no error
/// propagates, and a later full resync recovers any lost state.
pub fn forward_control_to_main_processor(
    sender: &crossbeam_channel::Sender<ControlMainTask>,
    compartment: Compartment,
    mapping_id: MappingId,
    control_event: ControlEvent<ControlValue>,
    options: ControlOptions,
) {
    let task = ControlMainTask::Control { compartment, mapping_id, event: control_event, options };
    // If the plug-in was dropped, the receiver may already be gone; both
    // that and a full queue drop the task.
    let _ = channel_try_send(sender, task);
}

/// Performs a control value on a mapping with a real (or absent) target:
/// executes the target directly when it supports real-time execution, and
/// forwards the event to the slow path otherwise.
///
/// Every target kind that appears in the real-time projection supports
/// direct execution from both calling contexts; a target that cannot is
/// never resolved into the projection, so the event is forwarded. The
/// caller context decides only how a raw-MIDI send reaches the host: it
/// renders its pattern and routes the result by its destination, deferring
/// through the feedback queue when called outside the processing callback.
/// Every other direct target becomes a target write for the host-facing
/// shim. A failed or declined write is a local, non-fatal event.
pub fn process_real_mapping(
    mapping: &mut RealTimeMapping,
    main_task_sender: &crossbeam_channel::Sender<ControlMainTask>,
    rt_feedback_sender: &crossbeam_channel::Sender<FeedbackRealTimeTask>,
    compartment: Compartment,
    value_event: ControlEvent<MidiEvent<ControlValue>>,
    options: ControlOptions,
    caller: Caller,
    midi_feedback_output: Option<MidiDestination>,
    output_logging_enabled: bool,
    outputs: &mut Outputs,
) -> (r: Result<(), &'static str>)
    requires
        value_event.spec_payload().spec_payload().wf(),
    ensures
        ({
            let cv = value_event.spec_payload().spec_payload();
            *final(mapping) == spec_mapping_after_direct(*old(mapping), cv, midi_feedback_output)
        }),
        match_shape(*final(mapping)) == match_shape(*old(mapping)),
        final(mapping).id == old(mapping).id,
        final(mapping).compartment == old(mapping).compartment,
        final(mapping).source == old(mapping).source,
        final(mapping).options == old(mapping).options,
        final(mapping).persistent_state == old(mapping).persistent_state,
        final(mapping).lifecycle_midi_data == old(mapping).lifecycle_midi_data,
        ({
            let cv = value_event.spec_payload().spec_payload();
            let writes = match old(mapping).resolved_target {
                Some(RealTimeCompoundMappingTarget::Reaper(t)) => {
                    if !(t is SendMidi) && Mode::spec_control(cv, t.spec_current_value()) is Some {
                        old(outputs).target_writes@.push(spec_direct_write(*old(mapping), cv)->0)
                    } else {
                        old(outputs).target_writes@
                    }
                },
                _ => old(outputs).target_writes@,
            };
            final(outputs).target_writes@ == writes
        }),
        ({
            let cv = value_event.spec_payload().spec_payload();
            // The result: Ok unless the mode declines or a raw-MIDI send
            // has nowhere to go; the failure stays local either way.
            r is Ok <==> spec_direct_ok(*old(mapping), cv, midi_feedback_output)
        }),
        ({
            let cv = value_event.spec_payload().spec_payload();
            let offset = value_event.spec_payload().spec_offset();
            &&& final(outputs).fx() == old(outputs).fx() + spec_direct_fx(
                *old(mapping),
                cv,
                caller,
                midi_feedback_output,
                offset,
            )
            &&& final(outputs).dev() == old(outputs).dev() + spec_direct_dev(
                *old(mapping),
                cv,
                midi_feedback_output,
            )
        }),
        ({
            let cv = value_event.spec_payload().spec_payload();
            // The mode remembers every value that reached a real target.
            match old(mapping).resolved_target {
                Some(RealTimeCompoundMappingTarget::Reaper(_)) =>
                    final(mapping).mode.spec_last_value() == Some(cv),
                _ => final(mapping).mode == old(mapping).mode,
            }
        }),
        ({
            let cv = value_event.spec_payload().spec_payload();
            // The target after the pass: a successful write refreshes the
            // cached value; a declined or failed one changes nothing.
            match old(mapping).resolved_target {
                Some(RealTimeCompoundMappingTarget::Reaper(t)) => {
                    if Mode::spec_control(cv, t.spec_current_value()) is None {
                        final(mapping).resolved_target == old(mapping).resolved_target
                    } else {
                        match t {
                            RealTimeReaperTarget::SendMidi(st) =>
                                final(mapping).resolved_target matches Some(
                                RealTimeCompoundMappingTarget::Reaper(
                                    RealTimeReaperTarget::SendMidi(st2),
                                ),
                            ) && st2.spec_pattern() == st.spec_pattern()
                                && st2.spec_destination() == st.spec_destination()
                                && st2.spec_artificial_value() == (
                            if spec_resolved_send_destination(
                                st.spec_destination(),
                                midi_feedback_output,
                            ) is Some {
                                Some(cv)
                            } else {
                                st.spec_artificial_value()
                            }),
                            RealTimeReaperTarget::FxParameter { index, .. } =>
                                final(mapping).resolved_target == Some(
                                RealTimeCompoundMappingTarget::Reaper(
                                    RealTimeReaperTarget::FxParameter {
                                        index,
                                        current_value: Some(cv),
                                    },
                                ),
                            ),
                            _ => final(mapping).resolved_target == old(mapping).resolved_target,
                        }
                    }
                },
                _ => final(mapping).resolved_target == old(mapping).resolved_target,
            }
        }),
{
    let cv: ControlValue = *value_event.payload().payload();
    let pure_control_event: ControlEvent<ControlValue> = value_event.with_payload(cv);
    let taken = mapping.take_target();
    let mut target = match taken {
        Some(RealTimeCompoundMappingTarget::Reaper(t)) => t,
        other => {
            mapping.put_target(other);
            // No real-time target: forward to the slow path.
            forward_control_to_main_processor(
                main_task_sender,
                compartment,
                mapping.id(),
                pure_control_event,
                options,
            );
            return Ok(());
        },
    };
    // Compute the new value through the mapping's transformation.
    let current = target.current_value();
    let control_value = match mapping.control_via_mode(cv, current) {
        Some(v) => v,
        None => {
            mapping.put_target(Some(RealTimeCompoundMappingTarget::Reaper(target)));
            return Err("target already has desired value");
        },
    };
    let r = match &mut target {
        RealTimeReaperTarget::SendMidi(t) => {
            real_time_target_send_midi(
                t,
                caller,
                control_value,
                midi_feedback_output,
                output_logging_enabled,
                main_task_sender,
                rt_feedback_sender,
                value_event.payload().offset(),
                outputs,
            )
        },
        RealTimeReaperTarget::ClipTransport { column_index, row_index } => {
            outputs.target_writes.push(
                TargetWrite::ClipTransport {
                    column_index: *column_index,
                    row_index: *row_index,
                    value: control_value,
                },
            );
            Ok(())
        },
        RealTimeReaperTarget::ClipColumn { index } => {
            outputs.target_writes.push(TargetWrite::ClipColumn { index: *index, value: control_value });
            Ok(())
        },
        RealTimeReaperTarget::ClipRow { index } => {
            outputs.target_writes.push(TargetWrite::ClipRow { index: *index, value: control_value });
            Ok(())
        },
        RealTimeReaperTarget::ClipMatrix => {
            outputs.target_writes.push(TargetWrite::ClipMatrix { value: control_value });
            Ok(())
        },
        RealTimeReaperTarget::FxParameter { index, current_value } => {
            *current_value = Some(control_value);
            outputs.target_writes.push(TargetWrite::FxParameter { index: *index, value: control_value });
            Ok(())
        },
    };
    mapping.put_target(Some(RealTimeCompoundMappingTarget::Reaper(target)));
    r
}

/// Renders a raw-MIDI-send target's pattern and routes the event: to the
/// host output directly when called from the processing callback, deferred
/// through the feedback queue when called from the audio hook, or to the
/// configured feedback output device. A send without a reachable
/// destination fails locally.
fn real_time_target_send_midi(
    t: &mut crate::target::MidiSendTarget,
    caller: Caller,
    control_value: ControlValue,
    midi_feedback_output: Option<MidiDestination>,
    output_logging_enabled: bool,
    main_task_sender: &crossbeam_channel::Sender<ControlMainTask>,
    rt_feedback_sender: &crossbeam_channel::Sender<FeedbackRealTimeTask>,
    offset: SampleOffset,
    outputs: &mut Outputs,
) -> (r: Result<(), &'static str>)
    requires
        control_value.wf(),
    ensures
        final(t).spec_pattern() == old(t).spec_pattern(),
        final(t).spec_destination() == old(t).spec_destination(),
        final(outputs).target_writes == old(outputs).target_writes,
        ({
            let rendered = old(t).spec_pattern().spec_resolve(control_value);
            let resolved_destination = match old(t).spec_destination() {
                SendMidiDestination::FxOutput => Some(MidiDestination::FxOutput),
                SendMidiDestination::FeedbackOutput => midi_feedback_output,
            };
            match resolved_destination {
                None => {
                    &&& r is Err
                    &&& final(t).spec_artificial_value() == old(t).spec_artificial_value()
                    &&& final(outputs).fx_output == old(outputs).fx_output
                    &&& final(outputs).device_output == old(outputs).device_output
                },
                Some(MidiDestination::FxOutput) => {
                    &&& r is Ok
                    &&& final(t).spec_artificial_value() == Some(control_value)
                    &&& final(outputs).device_output == old(outputs).device_output
                    &&& final(outputs).fx() == if caller is Vst {
                        old(outputs).fx().push((offset, MidiPayloadView::Raw(rendered)))
                    } else {
                        // Deferred through the feedback queue until the
                        // processing callback runs.
                        old(outputs).fx()
                    }
                },
                Some(MidiDestination::Device(d)) => {
                    &&& r is Ok
                    &&& final(t).spec_artificial_value() == Some(control_value)
                    &&& final(outputs).fx_output == old(outputs).fx_output
                    &&& final(outputs).dev() == old(outputs).dev().push(
                        (d, MidiPayloadView::Raw(rendered)),
                    )
                },
            }
        }),
{
    let raw_midi_event: Vec<u8> = t.pattern().to_concrete_midi_event(control_value);
    let destination: MidiDestination = match t.destination() {
        SendMidiDestination::FxOutput => MidiDestination::FxOutput,
        SendMidiDestination::FeedbackOutput => match midi_feedback_output {
            Some(d) => d,
            None => {
                return Err("no feedback output set");
            },
        },
    };
    if output_logging_enabled {
        let _ = channel_try_send(
            main_task_sender,
            ControlMainTask::LogTargetOutput { bytes: raw_midi_event.clone() },
        );
    }
    let successful: bool = match destination {
        MidiDestination::FxOutput => {
            match caller {
                Caller::Vst => {
                    outputs.push_fx_raw(offset, raw_midi_event);
                },
                Caller::AudioHook => {
                    // The host output is reachable only from the processing
                    // callback; defer until it runs in this cycle.
                    let _ = channel_try_send(
                        rt_feedback_sender,
                        FeedbackRealTimeTask::NonAllocatingFxOutputFeedback(
                            OutgoingMidi::Raw(raw_midi_event),
                        ),
                    );
                },
            }
            true
        },
        MidiDestination::Device(device_id) => {
            outputs.push_device(device_id, OutgoingMidi::Raw(raw_midi_event));
            true
        },
    };
    if successful {
        t.set_artificial_value(control_value);
    }
    Ok(())
}


/// Whether a main mapping's virtual source matches a virtual source value.
pub open spec fn virtual_mapping_matches(m: RealTimeMapping, v: VirtualSourceValue) -> bool {
    &&& m.spec_control_is_effectively_on()
    &&& match m.spec_source() {
        CompoundMappingSource::Virtual(s) => s.spec_control(v) is Some,
        CompoundMappingSource::Midi(_) => false,
    }
}

/// Whether some main mapping consumes the given virtual source value.
pub open spec fn spec_virtual_matches(ms: Seq<RealTimeMapping>, v: VirtualSourceValue) -> bool {
    exists|i: int| 0 <= i < ms.len() && virtual_mapping_matches(#[trigger] ms[i], v)
}

/// Whether a main mapping's MIDI source matches a source value and the
/// mapping has a real target to apply it to.
pub open spec fn main_midi_mapping_matches(m: RealTimeMapping, v: MidiSourceValue) -> bool {
    &&& m.spec_control_is_effectively_on()
    &&& m.resolved_target matches Some(RealTimeCompoundMappingTarget::Reaper(_))
    &&& match m.spec_source() {
        CompoundMappingSource::Midi(s) => s.spec_control(v) is Some,
        CompoundMappingSource::Virtual(_) => false,
    }
}

/// Whether some main mapping matches the given MIDI source value directly.
pub open spec fn spec_main_midi_matches(ms: Seq<RealTimeMapping>, v: MidiSourceValue) -> bool {
    exists|i: int| 0 <= i < ms.len() && main_midi_mapping_matches(#[trigger] ms[i], v)
}

/// Whether a controller mapping matches a MIDI source value and its match
/// leads somewhere: to a real (or forwarded) target directly, or through
/// its virtual element to at least one main mapping.
pub open spec fn controller_mapping_matches(
    m: RealTimeMapping,
    ms: Seq<RealTimeMapping>,
    v: MidiSourceValue,
) -> bool {
    &&& m.spec_control_is_effectively_on()
    &&& match m.spec_source() {
        CompoundMappingSource::Midi(s) => match s.spec_control(v) {
            Some(cv) => match m.resolved_target {
                Some(RealTimeCompoundMappingTarget::Virtual(e)) => spec_virtual_matches(
                    ms,
                    VirtualSourceValue { element: e, value: cv },
                ),
                _ => true,
            },
            None => false,
        },
        CompoundMappingSource::Virtual(_) => false,
    }
}

/// Whether some controller mapping match leads to a target, directly or
/// through virtual indirection into the main mappings.
pub open spec fn spec_controller_matches(
    cs: Seq<RealTimeMapping>,
    ms: Seq<RealTimeMapping>,
    v: MidiSourceValue,
) -> bool {
    exists|i: int| 0 <= i < cs.len() && controller_mapping_matches(#[trigger] cs[i], ms, v)
}

/// Whether the tables of both compartments, taken together, match a MIDI
/// source value.
pub open spec fn spec_control_midi_matches(
    cs: Seq<RealTimeMapping>,
    ms: Seq<RealTimeMapping>,
    v: MidiSourceValue,
) -> bool {
    spec_controller_matches(cs, ms, v) || spec_main_midi_matches(ms, v)
}

/// Whether one mapping is an enabled composite source that absorbs the
/// given primitive message.
pub open spec fn mapping_consumes(mm: RealTimeMapping, m: ShortMsg) -> bool {
    &&& mm.spec_control_is_effectively_on()
    &&& match mm.spec_source() {
        CompoundMappingSource::Midi(s) => s.spec_consumes(m),
        CompoundMappingSource::Virtual(_) => false,
    }
}

/// Whether some mapping of either table is an enabled composite source that
/// absorbs the given primitive message.
pub open spec fn spec_is_consumed(
    cs: Seq<RealTimeMapping>,
    ms: Seq<RealTimeMapping>,
    m: ShortMsg,
) -> bool {
    ||| exists|i: int| 0 <= i < cs.len() && mapping_consumes(#[trigger] cs[i], m)
    ||| exists|i: int| 0 <= i < ms.len() && mapping_consumes(#[trigger] ms[i], m)
}


/// The control value a mapping's MIDI source extracts from a source value;
/// meaningful only when the source matches.
pub open spec fn spec_midi_hit_cv(m: RealTimeMapping, v: MidiSourceValue) -> ControlValue {
    (match m.spec_source() {
        CompoundMappingSource::Midi(s) => s.spec_control(v),
        CompoundMappingSource::Virtual(_) => None,
    })->0
}

/// The control value a mapping's virtual source extracts from a virtual
/// source value; meaningful only when the source matches.
pub open spec fn spec_virtual_hit_cv(v: VirtualSourceValue) -> ControlValue {
    v.value
}

/// The target writes of one matched direct pass: one write for a clip or
/// parameter target whose mode passes the value on, none for raw-MIDI
/// sends, declined modes, virtual targets or forwarded events.
pub open spec fn spec_direct_writes(m: RealTimeMapping, cv: ControlValue) -> Seq<TargetWrite> {
    match m.resolved_target {
        Some(RealTimeCompoundMappingTarget::Reaper(t)) => {
            if !(t is SendMidi) && Mode::spec_control(cv, t.spec_current_value()) is Some {
                seq![spec_direct_write(m, cv)->0]
            } else {
                Seq::empty()
            }
        },
        _ => Seq::empty(),
    }
}

/// The main table after the direct-MIDI match pass: every matching entry
/// went through its direct pass, every other entry is untouched. Entries
/// are independent here — each is visited exactly once, at its own
/// position.
pub open spec fn main_midi_pass_state(
    ms: Seq<RealTimeMapping>,
    v: MidiSourceValue,
    midi_feedback_output: Option<MidiDestination>,
) -> Seq<RealTimeMapping> {
    Seq::new(
        ms.len(),
        |j: int|
            if main_midi_mapping_matches(ms[j], v) {
                spec_mapping_after_direct(ms[j], spec_midi_hit_cv(ms[j], v), midi_feedback_output)
            } else {
                ms[j]
            },
    )
}

/// What the direct-MIDI match pass emits: the target writes, host-output
/// events and device-output events of the matching entries, in table
/// order — the stable insertion order of the table is the tie-break
/// between simultaneous matches.
pub open spec fn main_midi_pass_effects(
    ms: Seq<RealTimeMapping>,
    v: MidiSourceValue,
    caller: Caller,
    midi_feedback_output: Option<MidiDestination>,
    offset: SampleOffset,
) -> (Seq<TargetWrite>, Seq<(SampleOffset, MidiPayloadView)>, Seq<(u8, MidiPayloadView)>)
    decreases ms.len(),
{
    if ms.len() == 0 {
        (Seq::empty(), Seq::empty(), Seq::empty())
    } else {
        let (w, f, d) = main_midi_pass_effects(
            ms.drop_last(),
            v,
            caller,
            midi_feedback_output,
            offset,
        );
        if main_midi_mapping_matches(ms.last(), v) {
            let cv = spec_midi_hit_cv(ms.last(), v);
            (
                w + spec_direct_writes(ms.last(), cv),
                f + spec_direct_fx(ms.last(), cv, caller, midi_feedback_output, offset),
                d + spec_direct_dev(ms.last(), cv, midi_feedback_output),
            )
        } else {
            (w, f, d)
        }
    }
}

/// The main table after one virtual match pass, pointwise like
/// [`main_midi_pass_state`].
pub open spec fn virtual_pass_state(
    ms: Seq<RealTimeMapping>,
    v: VirtualSourceValue,
    midi_feedback_output: Option<MidiDestination>,
) -> Seq<RealTimeMapping> {
    Seq::new(
        ms.len(),
        |j: int|
            if virtual_mapping_matches(ms[j], v) {
                spec_mapping_after_direct(ms[j], spec_virtual_hit_cv(v), midi_feedback_output)
            } else {
                ms[j]
            },
    )
}

/// What one virtual match pass emits, in table order.
pub open spec fn virtual_pass_effects(
    ms: Seq<RealTimeMapping>,
    v: VirtualSourceValue,
    caller: Caller,
    midi_feedback_output: Option<MidiDestination>,
    offset: SampleOffset,
) -> (Seq<TargetWrite>, Seq<(SampleOffset, MidiPayloadView)>, Seq<(u8, MidiPayloadView)>)
    decreases ms.len(),
{
    if ms.len() == 0 {
        (Seq::empty(), Seq::empty(), Seq::empty())
    } else {
        let (w, f, d) = virtual_pass_effects(
            ms.drop_last(),
            v,
            caller,
            midi_feedback_output,
            offset,
        );
        if virtual_mapping_matches(ms.last(), v) {
            let cv = spec_virtual_hit_cv(v);
            (
                w + spec_direct_writes(ms.last(), cv),
                f + spec_direct_fx(ms.last(), cv, caller, midi_feedback_output, offset),
                d + spec_direct_dev(ms.last(), cv, midi_feedback_output),
            )
        } else {
            (w, f, d)
        }
    }
}


/// Whether a controller mapping's MIDI source matches the value at all,
/// regardless of where the match leads.
pub open spec fn controller_source_matches(m: RealTimeMapping, v: MidiSourceValue) -> bool {
    m.spec_control_is_effectively_on() && match m.spec_source() {
        CompoundMappingSource::Midi(s) => s.spec_control(v) is Some,
        CompoundMappingSource::Virtual(_) => false,
    }
}

/// The main table after the controller pass: each virtualizing controller
/// match, in table order, runs one virtual pass over the main table as it
/// stands at that point.
pub open spec fn controller_pass_main_state(
    cs: Seq<RealTimeMapping>,
    ms: Seq<RealTimeMapping>,
    v: MidiSourceValue,
    midi_feedback_output: Option<MidiDestination>,
) -> Seq<RealTimeMapping>
    decreases cs.len(),
{
    if cs.len() == 0 {
        ms
    } else {
        let prior = controller_pass_main_state(cs.drop_last(), ms, v, midi_feedback_output);
        let m = cs.last();
        if controller_source_matches(m, v) {
            match m.resolved_target {
                Some(RealTimeCompoundMappingTarget::Virtual(e)) => virtual_pass_state(
                    prior,
                    VirtualSourceValue { element: e, value: spec_midi_hit_cv(m, v) },
                    midi_feedback_output,
                ),
                _ => prior,
            }
        } else {
            prior
        }
    }
}

/// The controller table after the pass: only direct matches touch their
/// own entry (virtualizing matches leave the controller mapping as it is,
/// which the pointwise form captures because a virtual target makes the
/// direct pass the identity).
pub open spec fn controller_pass_controller_state(
    cs: Seq<RealTimeMapping>,
    v: MidiSourceValue,
    midi_feedback_output: Option<MidiDestination>,
) -> Seq<RealTimeMapping> {
    Seq::new(
        cs.len(),
        |j: int|
            if controller_source_matches(cs[j], v) {
                spec_mapping_after_direct(cs[j], spec_midi_hit_cv(cs[j], v), midi_feedback_output)
            } else {
                cs[j]
            },
    )
}

/// What the controller pass emits: for each matching controller mapping,
/// in stable table order, either its own direct-pass emissions or the
/// emissions of one virtual pass over the main table as it stands then.
pub open spec fn controller_pass_effects(
    cs: Seq<RealTimeMapping>,
    ms: Seq<RealTimeMapping>,
    v: MidiSourceValue,
    caller: Caller,
    midi_feedback_output: Option<MidiDestination>,
    offset: SampleOffset,
) -> (Seq<TargetWrite>, Seq<(SampleOffset, MidiPayloadView)>, Seq<(u8, MidiPayloadView)>)
    decreases cs.len(),
{
    if cs.len() == 0 {
        (Seq::empty(), Seq::empty(), Seq::empty())
    } else {
        let (w, f, d) = controller_pass_effects(
            cs.drop_last(),
            ms,
            v,
            caller,
            midi_feedback_output,
            offset,
        );
        let prior = controller_pass_main_state(cs.drop_last(), ms, v, midi_feedback_output);
        let m = cs.last();
        if controller_source_matches(m, v) {
            let cv = spec_midi_hit_cv(m, v);
            match m.resolved_target {
                Some(RealTimeCompoundMappingTarget::Virtual(e)) => {
                    let (w2, f2, d2) = virtual_pass_effects(
                        prior,
                        VirtualSourceValue { element: e, value: cv },
                        caller,
                        midi_feedback_output,
                        offset,
                    );
                    (w + w2, f + f2, d + d2)
                },
                _ => (
                    w + spec_direct_writes(m, cv),
                    f + spec_direct_fx(m, cv, caller, midi_feedback_output, offset),
                    d + spec_direct_dev(m, cv, midi_feedback_output),
                ),
            }
        } else {
            (w, f, d)
        }
    }
}


/// Both tables after one full match pass for a source value: the
/// controller pass, then the direct-MIDI main pass over its result.
pub open spec fn control_midi_tables_after(
    cs: Seq<RealTimeMapping>,
    ms: Seq<RealTimeMapping>,
    v: MidiSourceValue,
    midi_feedback_output: Option<MidiDestination>,
) -> (Seq<RealTimeMapping>, Seq<RealTimeMapping>) {
    (
        controller_pass_controller_state(cs, v, midi_feedback_output),
        main_midi_pass_state(
            controller_pass_main_state(cs, ms, v, midi_feedback_output),
            v,
            midi_feedback_output,
        ),
    )
}

/// The target writes of one full match pass, in emission order.
pub open spec fn control_midi_writes(
    cs: Seq<RealTimeMapping>,
    ms: Seq<RealTimeMapping>,
    v: MidiSourceValue,
    caller: Caller,
    midi_feedback_output: Option<MidiDestination>,
    offset: SampleOffset,
) -> Seq<TargetWrite> {
    controller_pass_effects(cs, ms, v, caller, midi_feedback_output, offset).0
        + main_midi_pass_effects(
        controller_pass_main_state(cs, ms, v, midi_feedback_output),
        v,
        caller,
        midi_feedback_output,
        offset,
    ).0
}

/// The device-output events of one full match pass, in emission order.
pub open spec fn control_midi_dev(
    cs: Seq<RealTimeMapping>,
    ms: Seq<RealTimeMapping>,
    v: MidiSourceValue,
    caller: Caller,
    midi_feedback_output: Option<MidiDestination>,
    offset: SampleOffset,
) -> Seq<(u8, MidiPayloadView)> {
    controller_pass_effects(cs, ms, v, caller, midi_feedback_output, offset).2
        + main_midi_pass_effects(
        controller_pass_main_state(cs, ms, v, midi_feedback_output),
        v,
        caller,
        midi_feedback_output,
        offset,
    ).2
}

/// Pointwise match-shape equality of two mapping sequences.
pub open spec fn shapes_equal(a: Seq<RealTimeMapping>, b: Seq<RealTimeMapping>) -> bool {
    a.len() == b.len() && forall|i: int|
        0 <= i < a.len() ==> match_shape(#[trigger] a[i]) == match_shape(#[trigger] b[i])
}

/// Two sequences with equal match shapes match the same virtual values.
proof fn lemma_shapes_preserve_virtual_matches(
    a: Seq<RealTimeMapping>,
    b: Seq<RealTimeMapping>,
    v: VirtualSourceValue,
)
    requires
        shapes_equal(a, b),
    ensures
        spec_virtual_matches(a, v) == spec_virtual_matches(b, v),
{
    if spec_virtual_matches(a, v) {
        let i = choose|i: int| 0 <= i < a.len() && virtual_mapping_matches(#[trigger] a[i], v);
        assert(match_shape(a[i]) == match_shape(b[i]));
        assert(virtual_mapping_matches(b[i], v));
    }
    if spec_virtual_matches(b, v) {
        let i = choose|i: int| 0 <= i < b.len() && virtual_mapping_matches(#[trigger] b[i], v);
        assert(match_shape(a[i]) == match_shape(b[i]));
        assert(virtual_mapping_matches(a[i], v));
    }
}

/// Matches a virtual source value against all main mappings with virtual
/// sources: every one that matches receives the value through its
/// transformation and target. The outcome is `Matched` exactly when at
/// least one main mapping consumed the value.
pub fn control_main_mappings_virtual(
    main_table: &mut MappingTable,
    main_task_sender: &crossbeam_channel::Sender<ControlMainTask>,
    rt_feedback_sender: &crossbeam_channel::Sender<FeedbackRealTimeTask>,
    value: VirtualSourceValue,
    offset: SampleOffset,
    timestamp: ControlEventTimestamp,
    options: ControlOptions,
    caller: Caller,
    midi_feedback_output: Option<MidiDestination>,
    output_logging_enabled: bool,
    outputs: &mut Outputs,
) -> (r: MatchOutcome)
    requires
        old(main_table).wf(),
        value.value.wf(),
    ensures
        final(main_table).wf(),
        shapes_equal(final(main_table).entries@, old(main_table).entries@),
        r == if spec_virtual_matches(old(main_table).entries@, value) {
            MatchOutcome::Matched
        } else {
            MatchOutcome::Unmatched
        },
        // The pass's complete effect: every matching entry goes through
        // its direct pass, in stable table order; everything else is
        // untouched.
        final(main_table).entries@ == virtual_pass_state(
            old(main_table).entries@,
            value,
            midi_feedback_output,
        ),
        ({
            let (w, f, d) = virtual_pass_effects(
                old(main_table).entries@,
                value,
                caller,
                midi_feedback_output,
                offset,
            );
            &&& final(outputs).target_writes@ == old(outputs).target_writes@ + w
            &&& final(outputs).fx() == old(outputs).fx() + f
            &&& final(outputs).dev() == old(outputs).dev() + d
        }),
        // No match, no effect: a value nothing consumes writes nothing.
        r is Unmatched ==> final(outputs).fx_output == old(outputs).fx_output
            && final(outputs).device_output == old(outputs).device_output
            && final(outputs).target_writes == old(outputs).target_writes,
{
    let mut match_outcome = MatchOutcome::Unmatched;
    let n = main_table.entries.len();
    let mut i: usize = 0;
    while i < n
        invariant
            i <= n,
            n == main_table.entries@.len(),
            main_table.wf(),
            value.value.wf(),
            shapes_equal(main_table.entries@, old(main_table).entries@),
            forall|j: int|
                i <= j < n ==> #[trigger] main_table.entries@[j] == old(main_table).entries@[j],
            forall|j: int|
                0 <= j < i ==> #[trigger] main_table.entries@[j] == virtual_pass_state(
                    old(main_table).entries@,
                    value,
                    midi_feedback_output,
                )[j],
            ({
                let (w, f, d) = virtual_pass_effects(
                    old(main_table).entries@.take(i as int),
                    value,
                    caller,
                    midi_feedback_output,
                    offset,
                );
                &&& outputs.target_writes@ == old(outputs).target_writes@ + w
                &&& outputs.fx() == old(outputs).fx() + f
                &&& outputs.dev() == old(outputs).dev() + d
            }),
            match_outcome == if exists|j: int|
                0 <= j < i && virtual_mapping_matches(#[trigger] old(main_table).entries@[j], value) {
                MatchOutcome::Matched
            } else {
                MatchOutcome::Unmatched
            },
            match_outcome is Unmatched ==> outputs.fx_output == old(outputs).fx_output
                && outputs.device_output == old(outputs).device_output
                && outputs.target_writes == old(outputs).target_writes,
        decreases n - i,
    {
        let m = &main_table.entries[i];
        let mut hit: Option<ControlValue> = None;
        if m.control_is_effectively_on() {
            if let CompoundMappingSource::Virtual(s) = m.source() {
                hit = s.control(&value);
            }
        }
        proof {
            assert(match_shape(main_table.entries@[i as int]) == match_shape(
                old(main_table).entries@[i as int],
            ));
            assert(hit is Some == virtual_mapping_matches(old(main_table).entries@[i as int], value));
            if hit is Some {
                assert(hit->0 == spec_virtual_hit_cv(value));
            }
        }
        if let Some(control_value) = hit {
            let opts = ControlOptions {
                enforce_target_refresh: match_outcome.matched(),
                ..options
            };
            let value_event = ControlEvent::new(
                MidiEvent::new(offset, control_value),
                timestamp,
            );
            let mm = &mut main_table.entries[i];
            let _ = process_real_mapping(
                mm,
                main_task_sender,
                rt_feedback_sender,
                Compartment::Main,
                value_event,
                opts,
                caller,
                midi_feedback_output,
                output_logging_enabled,
                outputs,
            );
            // A main mapping consumed the virtual value: this is a match.
            match_outcome = MatchOutcome::Matched;
        }
        proof {
            let olds = old(main_table).entries@;
            assert(olds.take(i + 1).drop_last() =~= olds.take(i as int));
            assert(olds.take(i + 1).last() == olds[i as int]);
            let (w1, f1, d1) = virtual_pass_effects(
                olds.take(i + 1),
                value,
                caller,
                midi_feedback_output,
                offset,
            );
            assert(outputs.target_writes@ =~= old(outputs).target_writes@ + w1);
            assert(outputs.fx() =~= old(outputs).fx() + f1);
            assert(outputs.dev() =~= old(outputs).dev() + d1);
        }
        i = i + 1;
    }
    proof {
        let olds = old(main_table).entries@;
        assert(olds.take(n as int) =~= olds);
        assert(main_table.entries@ =~= virtual_pass_state(olds, value, midi_feedback_output));
    }
    match_outcome
}

/// Matches a MIDI source value against all main mappings with MIDI sources
/// and real targets. The outcome is `Matched` exactly when at least one
/// such mapping matched; composite consumption was already decided before
/// this pass.
pub fn control_main_mappings_midi(
    main_table: &mut MappingTable,
    main_task_sender: &crossbeam_channel::Sender<ControlMainTask>,
    rt_feedback_sender: &crossbeam_channel::Sender<FeedbackRealTimeTask>,
    value: &MidiSourceValue,
    offset: SampleOffset,
    timestamp: ControlEventTimestamp,
    caller: Caller,
    midi_feedback_output: Option<MidiDestination>,
    output_logging_enabled: bool,
    outputs: &mut Outputs,
) -> (r: MatchOutcome)
    requires
        old(main_table).wf(),
        value.wf(),
    ensures
        final(main_table).wf(),
        shapes_equal(final(main_table).entries@, old(main_table).entries@),
        r == if spec_main_midi_matches(old(main_table).entries@, *value) {
            MatchOutcome::Matched
        } else {
            MatchOutcome::Unmatched
        },
        // The pass's complete effect: every matching entry goes through
        // its direct pass, in stable table order; everything else is
        // untouched.
        final(main_table).entries@ == main_midi_pass_state(
            old(main_table).entries@,
            *value,
            midi_feedback_output,
        ),
        ({
            let (w, f, d) = main_midi_pass_effects(
                old(main_table).entries@,
                *value,
                caller,
                midi_feedback_output,
                offset,
            );
            &&& final(outputs).target_writes@ == old(outputs).target_writes@ + w
            &&& final(outputs).fx() == old(outputs).fx() + f
            &&& final(outputs).dev() == old(outputs).dev() + d
        }),
        // No match, no effect: a value nothing consumes writes nothing.
        r is Unmatched ==> final(outputs).fx_output == old(outputs).fx_output
            && final(outputs).device_output == old(outputs).device_output
            && final(outputs).target_writes == old(outputs).target_writes,
{
    let mut match_outcome = MatchOutcome::Unmatched;
    let n = main_table.entries.len();
    let mut i: usize = 0;
    while i < n
        invariant
            i <= n,
            n == main_table.entries@.len(),
            main_table.wf(),
            value.wf(),
            shapes_equal(main_table.entries@, old(main_table).entries@),
            forall|j: int|
                i <= j < n ==> #[trigger] main_table.entries@[j] == old(main_table).entries@[j],
            forall|j: int|
                0 <= j < i ==> #[trigger] main_table.entries@[j] == main_midi_pass_state(
                    old(main_table).entries@,
                    *value,
                    midi_feedback_output,
                )[j],
            ({
                let (w, f, d) = main_midi_pass_effects(
                    old(main_table).entries@.take(i as int),
                    *value,
                    caller,
                    midi_feedback_output,
                    offset,
                );
                &&& outputs.target_writes@ == old(outputs).target_writes@ + w
                &&& outputs.fx() == old(outputs).fx() + f
                &&& outputs.dev() == old(outputs).dev() + d
            }),
            match_outcome == if exists|j: int|
                0 <= j < i && main_midi_mapping_matches(
                    #[trigger] old(main_table).entries@[j],
                    *value,
                ) {
                MatchOutcome::Matched
            } else {
                MatchOutcome::Unmatched
            },
            match_outcome is Unmatched ==> outputs.fx_output == old(outputs).fx_output
                && outputs.device_output == old(outputs).device_output
                && outputs.target_writes == old(outputs).target_writes,
        decreases n - i,
    {
        let m = &main_table.entries[i];
        let mut hit: Option<ControlValue> = None;
        if m.control_is_effectively_on() && m.has_reaper_target() {
            if let CompoundMappingSource::Midi(s) = m.source() {
                hit = s.control(value);
            }
        }
        proof {
            assert(match_shape(main_table.entries@[i as int]) == match_shape(
                old(main_table).entries@[i as int],
            ));
            assert(hit is Some == main_midi_mapping_matches(
                old(main_table).entries@[i as int],
                *value,
            ));
            if hit is Some {
                assert(hit->0 == spec_midi_hit_cv(old(main_table).entries@[i as int], *value));
            }
        }
        if let Some(control_value) = hit {
            let opts = ControlOptions {
                enforce_target_refresh: match_outcome.matched(),
                ..ControlOptions::none()
            };
            let value_event = ControlEvent::new(
                MidiEvent::new(offset, control_value),
                timestamp,
            );
            let mm = &mut main_table.entries[i];
            let _ = process_real_mapping(
                mm,
                main_task_sender,
                rt_feedback_sender,
                Compartment::Main,
                value_event,
                opts,
                caller,
                midi_feedback_output,
                output_logging_enabled,
                outputs,
            );
            // It cannot be consumed here: consumption was checked for all
            // mappings before this pass.
            match_outcome = MatchOutcome::Matched;
        }
        proof {
            let olds = old(main_table).entries@;
            assert(olds.take(i + 1).drop_last() =~= olds.take(i as int));
            assert(olds.take(i + 1).last() == olds[i as int]);
            let (w0, f0, d0) = main_midi_pass_effects(
                olds.take(i as int),
                *value,
                caller,
                midi_feedback_output,
                offset,
            );
            let (w1, f1, d1) = main_midi_pass_effects(
                olds.take(i + 1),
                *value,
                caller,
                midi_feedback_output,
                offset,
            );
            assert(outputs.target_writes@ =~= old(outputs).target_writes@ + w1);
            assert(outputs.fx() =~= old(outputs).fx() + f1);
            assert(outputs.dev() =~= old(outputs).dev() + d1);
        }
        i = i + 1;
    }
    proof {
        let olds = old(main_table).entries@;
        assert(olds.take(n as int) =~= olds);
        assert(main_table.entries@ =~= main_midi_pass_state(olds, *value, midi_feedback_output));
    }
    match_outcome
}

/// Matches a MIDI source value against all controller mappings, resolving
/// virtual indirection: a match that produces a virtual value is offered to
/// the main mappings, a direct match goes to the mapping's own target.
/// Within one event, once a direct real-target write happened, later direct
/// matches enforce a target-value refresh. The outcome is `Matched` exactly
/// when some controller match led to a target.
pub fn control_controller_mappings_midi(
    controller_table: &mut MappingTable,
    main_table: &mut MappingTable,
    main_task_sender: &crossbeam_channel::Sender<ControlMainTask>,
    rt_feedback_sender: &crossbeam_channel::Sender<FeedbackRealTimeTask>,
    value: &MidiSourceValue,
    offset: SampleOffset,
    timestamp: ControlEventTimestamp,
    caller: Caller,
    midi_feedback_output: Option<MidiDestination>,
    virtual_input_logging_enabled: bool,
    output_logging_enabled: bool,
    outputs: &mut Outputs,
) -> (r: MatchOutcome)
    requires
        old(controller_table).wf(),
        old(main_table).wf(),
        value.wf(),
    ensures
        final(controller_table).wf(),
        final(main_table).wf(),
        shapes_equal(final(controller_table).entries@, old(controller_table).entries@),
        shapes_equal(final(main_table).entries@, old(main_table).entries@),
        r == if spec_controller_matches(
            old(controller_table).entries@,
            old(main_table).entries@,
            *value,
        ) {
            MatchOutcome::Matched
        } else {
            MatchOutcome::Unmatched
        },
        // The pass's complete effect: matching controller mappings are
        // visited in stable table insertion order; a virtualizing match
        // runs one virtual pass over the main table as it stands then, a
        // direct match runs its own direct pass.
        final(controller_table).entries@ == controller_pass_controller_state(
            old(controller_table).entries@,
            *value,
            midi_feedback_output,
        ),
        final(main_table).entries@ == controller_pass_main_state(
            old(controller_table).entries@,
            old(main_table).entries@,
            *value,
            midi_feedback_output,
        ),
        ({
            let (w, f, d) = controller_pass_effects(
                old(controller_table).entries@,
                old(main_table).entries@,
                *value,
                caller,
                midi_feedback_output,
                offset,
            );
            &&& final(outputs).target_writes@ == old(outputs).target_writes@ + w
            &&& final(outputs).fx() == old(outputs).fx() + f
            &&& final(outputs).dev() == old(outputs).dev() + d
        }),
        // No match, no effect: a value nothing consumes writes nothing.
        r is Unmatched ==> final(outputs).fx_output == old(outputs).fx_output
            && final(outputs).device_output == old(outputs).device_output
            && final(outputs).target_writes == old(outputs).target_writes,
{
    let mut match_outcome = MatchOutcome::Unmatched;
    let mut enforce_target_refresh = false;
    let n = controller_table.entries.len();
    let mut i: usize = 0;
    while i < n
        invariant
            i <= n,
            n == controller_table.entries@.len(),
            controller_table.wf(),
            main_table.wf(),
            value.wf(),
            shapes_equal(controller_table.entries@, old(controller_table).entries@),
            shapes_equal(main_table.entries@, old(main_table).entries@),
            forall|j: int|
                i <= j < n ==> #[trigger] controller_table.entries@[j] == old(
                    controller_table,
                ).entries@[j],
            forall|j: int|
                0 <= j < i ==> #[trigger] controller_table.entries@[j]
                    == controller_pass_controller_state(
                    old(controller_table).entries@,
                    *value,
                    midi_feedback_output,
                )[j],
            main_table.entries@ == controller_pass_main_state(
                old(controller_table).entries@.take(i as int),
                old(main_table).entries@,
                *value,
                midi_feedback_output,
            ),
            ({
                let (w, f, d) = controller_pass_effects(
                    old(controller_table).entries@.take(i as int),
                    old(main_table).entries@,
                    *value,
                    caller,
                    midi_feedback_output,
                    offset,
                );
                &&& outputs.target_writes@ == old(outputs).target_writes@ + w
                &&& outputs.fx() == old(outputs).fx() + f
                &&& outputs.dev() == old(outputs).dev() + d
            }),
            match_outcome == if exists|j: int|
                0 <= j < i && controller_mapping_matches(
                    #[trigger] old(controller_table).entries@[j],
                    old(main_table).entries@,
                    *value,
                ) {
                MatchOutcome::Matched
            } else {
                MatchOutcome::Unmatched
            },
            match_outcome is Unmatched ==> outputs.fx_output == old(outputs).fx_output
                && outputs.device_output == old(outputs).device_output
                && outputs.target_writes == old(outputs).target_writes,
        decreases n - i,
    {
        let ghost olds_c = old(controller_table).entries@;
        let ghost olds_m = old(main_table).entries@;
        let m = &controller_table.entries[i];
        let mut control_match: Option<PartialControlMatch> = None;
        // The virtual pass inherits "send feedback after control" from the
        // controller mapping. If several physical controls map to one
        // virtual element, all of them inherit it; that is more than
        // strictly necessary but does no harm.
        let enforce_send_feedback_after_control = matches!(
            m.options().feedback_send_behavior,
            crate::mapping::FeedbackSendBehavior::SendFeedbackAfterControl
        );
        if m.control_is_effectively_on() {
            control_match = m.control_midi_virtualizing(value);
        }
        proof {
            assert(match_shape(controller_table.entries@[i as int]) == match_shape(
                old(controller_table).entries@[i as int],
            ));
        }
        match control_match {
            Some(PartialControlMatch::ProcessVirtual(virtual_source_value)) => {
                let ghost pre_ms = main_table.entries@;
                let virtual_match_outcome = control_main_mappings_virtual(
                    main_table,
                    main_task_sender,
                    rt_feedback_sender,
                    virtual_source_value,
                    offset,
                    timestamp,
                    ControlOptions {
                        enforce_send_feedback_after_control,
                        ..ControlOptions::none()
                    },
                    caller,
                    midi_feedback_output,
                    output_logging_enabled,
                    outputs,
                );
                if virtual_input_logging_enabled {
                    log_virtual_control_input(
                        main_task_sender,
                        ControlEvent::new(virtual_source_value, timestamp),
                        virtual_match_outcome,
                    );
                }
                proof {
                    assert forall|j: int|
                        0 <= j < main_table.entries@.len() implies match_shape(
                        #[trigger] main_table.entries@[j],
                    ) == match_shape(old(main_table).entries@[j]) by {
                        assert(match_shape(main_table.entries@[j]) == match_shape(pre_ms[j]));
                        assert(match_shape(pre_ms[j]) == match_shape(
                            old(main_table).entries@[j],
                        ));
                    }
                    lemma_shapes_preserve_virtual_matches(
                        pre_ms,
                        old(main_table).entries@,
                        virtual_source_value,
                    );
                    assert(controller_mapping_matches(
                        old(controller_table).entries@[i as int],
                        old(main_table).entries@,
                        *value,
                    ) == (virtual_match_outcome is Matched));
                    // Extend the folds by this virtualizing match.
                    assert(olds_c.take(i + 1).drop_last() =~= olds_c.take(i as int));
                    assert(olds_c.take(i + 1).last() == olds_c[i as int]);
                    assert(main_table.entries@ == controller_pass_main_state(
                        olds_c.take(i + 1),
                        olds_m,
                        *value,
                        midi_feedback_output,
                    ));
                    let (w1, f1, d1) = controller_pass_effects(
                        olds_c.take(i + 1),
                        olds_m,
                        *value,
                        caller,
                        midi_feedback_output,
                        offset,
                    );
                    assert(outputs.target_writes@ =~= old(outputs).target_writes@ + w1);
                    assert(outputs.fx() =~= old(outputs).fx() + f1);
                    assert(outputs.dev() =~= old(outputs).dev() + d1);
                }
                match_outcome.upgrade_from(virtual_match_outcome);
            },
            Some(PartialControlMatch::ProcessDirect(control_value)) => {
                let opts = ControlOptions {
                    enforce_target_refresh,
                    ..ControlOptions::none()
                };
                let value_event = ControlEvent::new(
                    MidiEvent::new(offset, control_value),
                    timestamp,
                );
                let mm = &mut controller_table.entries[i];
                let _ = process_real_mapping(
                    mm,
                    main_task_sender,
                    rt_feedback_sender,
                    Compartment::Controller,
                    value_event,
                    opts,
                    caller,
                    midi_feedback_output,
                    output_logging_enabled,
                    outputs,
                );
                // Only direct real-target matches make later ones re-read
                // their target value.
                enforce_target_refresh = true;
                proof {
                    assert(olds_c.take(i + 1).drop_last() =~= olds_c.take(i as int));
                    assert(olds_c.take(i + 1).last() == olds_c[i as int]);
                    assert(main_table.entries@ == controller_pass_main_state(
                        olds_c.take(i + 1),
                        olds_m,
                        *value,
                        midi_feedback_output,
                    ));
                    let (w1, f1, d1) = controller_pass_effects(
                        olds_c.take(i + 1),
                        olds_m,
                        *value,
                        caller,
                        midi_feedback_output,
                        offset,
                    );
                    assert(outputs.target_writes@ =~= old(outputs).target_writes@ + w1);
                    assert(outputs.fx() =~= old(outputs).fx() + f1);
                    assert(outputs.dev() =~= old(outputs).dev() + d1);
                }
                match_outcome.upgrade_from(MatchOutcome::Matched);
            },
            None => {
                proof {
                    assert(olds_c.take(i + 1).drop_last() =~= olds_c.take(i as int));
                    assert(olds_c.take(i + 1).last() == olds_c[i as int]);
                    assert(main_table.entries@ == controller_pass_main_state(
                        olds_c.take(i + 1),
                        olds_m,
                        *value,
                        midi_feedback_output,
                    ));
                    let (w1, f1, d1) = controller_pass_effects(
                        olds_c.take(i + 1),
                        olds_m,
                        *value,
                        caller,
                        midi_feedback_output,
                        offset,
                    );
                    assert(outputs.target_writes@ =~= old(outputs).target_writes@ + w1);
                    assert(outputs.fx() =~= old(outputs).fx() + f1);
                    assert(outputs.dev() =~= old(outputs).dev() + d1);
                }
            },
        }
        i = i + 1;
    }
    proof {
        let olds = old(controller_table).entries@;
        assert(olds.take(n as int) =~= olds);
        assert(controller_table.entries@ =~= controller_pass_controller_state(
            olds,
            *value,
            midi_feedback_output,
        ));
    }
    match_outcome
}

/// Sends a virtual control input diagnostic to the slow path.
fn log_virtual_control_input(
    sender: &crossbeam_channel::Sender<ControlMainTask>,
    value: ControlEvent<VirtualSourceValue>,
    match_outcome: MatchOutcome,
) {
    let _ = channel_try_send(
        sender,
        ControlMainTask::LogVirtualControlInput { event: value, match_outcome },
    );
}


/// The engine's control state: exactly one is active at a time, switched
/// only by tasks from the slow path.
#[derive(Copy, Clone, Debug, PartialEq, Eq, Structural)]
pub enum ControlMode {
    /// Input events are matched against the mapping tables.
    Controlling,
    /// Input events are captured into source descriptors; no matching.
    LearningSource { allow_virtual_sources: bool },
    /// Input events are swallowed while learning is active globally.
    Disabled,
}

/// The real-time processor: the per-instance engine state driven by the
/// host's processing callback and the global audio hook.
pub struct RealTimeProcessor {
    /// The settings snapshot, replaced atomically by a slow-path task.
    pub settings: BasicSettings,
    /// The control state machine.
    pub control_mode: ControlMode,
    /// The controller-compartment mapping table.
    pub controller_table: MappingTable,
    /// The main-compartment mapping table.
    pub main_table: MappingTable,
    /// Whether control is enabled across instances.
    pub control_is_globally_enabled: bool,
    /// Whether feedback is enabled across instances.
    pub feedback_is_globally_enabled: bool,
    /// Configuration tasks from the slow path.
    pub normal_task_receiver: crossbeam_channel::Receiver<NormalRealTimeTask>,
    /// Deferred feedback looped back to this engine.
    pub feedback_task_receiver: crossbeam_channel::Receiver<FeedbackRealTimeTask>,
    /// Loop-back sender for deferred feedback.
    pub feedback_task_sender: crossbeam_channel::Sender<FeedbackRealTimeTask>,
    /// Occasional messages to the slow path.
    pub normal_main_task_sender: crossbeam_channel::Sender<NormalRealTimeToMainThreadTask>,
    /// Control and diagnostic messages to the slow path.
    pub control_main_task_sender: crossbeam_channel::Sender<ControlMainTask>,
    /// Disposal facility for values that must not be freed here.
    pub garbage_bin: GarbageBin,
    /// Incremental decoder for (N)RPN sequences.
    pub nrpn_scanner: PollingParameterNumberScanner,
    /// Incremental decoder for 14-bit control change pairs.
    pub cc_14_bit_scanner: ControlChange14BitScanner,
    /// Capture scanner for learn mode.
    pub midi_scanner: MidiScanner,
    /// Tempo derivation from timing clock ticks.
    pub midi_clock_calculator: MidiClockCalculator,
    /// The host sample rate in Hertz.
    pub sample_rate_hz: u32,
}

/// The outcome the plain (non-composite) pass reports for a primitive
/// message: consumption by a composite source wins, then direct matching.
pub open spec fn spec_plain_outcome(
    cs: Seq<RealTimeMapping>,
    ms: Seq<RealTimeMapping>,
    msg: IncomingMidiMessage,
) -> MatchOutcome {
    match msg {
        IncomingMidiMessage::Short(s) => {
            if spec_is_consumed(cs, ms, s) {
                MatchOutcome::Consumed
            } else if spec_control_midi_matches(cs, ms, MidiSourceValue::Plain(s)) {
                MatchOutcome::Matched
            } else {
                MatchOutcome::Unmatched
            }
        },
        IncomingMidiMessage::SysEx(_) => MatchOutcome::Unmatched,
    }
}

/// The outcome a decoded composite message contributes: matched or not.
pub open spec fn spec_composite_outcome(
    cs: Seq<RealTimeMapping>,
    ms: Seq<RealTimeMapping>,
    v: MidiSourceValue,
) -> MatchOutcome {
    if spec_control_midi_matches(cs, ms, v) {
        MatchOutcome::Matched
    } else {
        MatchOutcome::Unmatched
    }
}

impl RealTimeProcessor {
    /// The processor invariant: tables and scanners are well-formed.
    pub open spec fn wf(self) -> bool {
        &&& self.controller_table.wf()
        &&& self.main_table.wf()
        &&& self.nrpn_scanner.wf()
        &&& self.cc_14_bit_scanner.wf()
        &&& self.midi_scanner.wf()
    }

    /// What stays untouched while the engine merely processes input events:
    /// settings, mode, global flags and the match-relevant shape of both
    /// mapping tables.
    pub open spec fn control_state_preserved(pre: RealTimeProcessor, post: RealTimeProcessor) -> bool {
        &&& post.settings == pre.settings
        &&& post.control_mode == pre.control_mode
        &&& post.control_is_globally_enabled == pre.control_is_globally_enabled
        &&& post.feedback_is_globally_enabled == pre.feedback_is_globally_enabled
        &&& post.sample_rate_hz == pre.sample_rate_hz
        &&& shapes_equal(post.controller_table.entries@, pre.controller_table.entries@)
        &&& shapes_equal(post.main_table.entries@, pre.main_table.entries@)
    }

    /// Creates a processor with empty tables, default settings, control
    /// mode active and everything globally disabled until the slow path
    /// pushes the first state.
    pub fn new(
        normal_task_receiver: crossbeam_channel::Receiver<NormalRealTimeTask>,
        feedback_task_receiver: crossbeam_channel::Receiver<FeedbackRealTimeTask>,
        feedback_task_sender: crossbeam_channel::Sender<FeedbackRealTimeTask>,
        normal_main_task_sender: crossbeam_channel::Sender<NormalRealTimeToMainThreadTask>,
        control_main_task_sender: crossbeam_channel::Sender<ControlMainTask>,
        garbage_bin: GarbageBin,
    ) -> (r: RealTimeProcessor)
        ensures
            r.wf(),
            r.settings == BasicSettings::spec_initial(),
            r.control_mode == ControlMode::Controlling,
            r.controller_table.entries@.len() == 0,
            r.main_table.entries@.len() == 0,
            !r.control_is_globally_enabled,
            !r.feedback_is_globally_enabled,
            r.sample_rate_hz == 1,
    {
        RealTimeProcessor {
            settings: BasicSettings::initial(),
            control_mode: ControlMode::Controlling,
            controller_table: MappingTable::with_capacity(1000),
            main_table: MappingTable::with_capacity(5000),
            control_is_globally_enabled: false,
            feedback_is_globally_enabled: false,
            normal_task_receiver,
            feedback_task_receiver,
            feedback_task_sender,
            normal_main_task_sender,
            control_main_task_sender,
            garbage_bin,
            nrpn_scanner: PollingParameterNumberScanner::new(1),
            cc_14_bit_scanner: ControlChange14BitScanner::new(),
            midi_scanner: MidiScanner::new(),
            midi_clock_calculator: MidiClockCalculator::new(1),
            sample_rate_hz: 1,
        }
    }

    /// The configured control input.
    pub fn midi_control_input(&self) -> (r: MidiControlInput)
        ensures
            r == self.settings.midi_control_input,
    {
        self.settings.midi_control_input
    }

    /// Whether control is enabled across instances.
    pub fn control_is_globally_enabled(&self) -> (r: bool)
        ensures
            r == self.control_is_globally_enabled,
    {
        self.control_is_globally_enabled
    }

    /// Whether feedback is effectively on for this processor: enabled
    /// globally and routed somewhere.
    pub fn processor_feedback_is_effectively_on(&self) -> (r: bool)
        ensures
            r == (self.feedback_is_globally_enabled && self.settings.midi_destination is Some),
    {
        self.feedback_is_globally_enabled && self.settings.midi_destination.is_some()
    }

    /// Whether the given primitive message is absorbed by at least one
    /// enabled composite source of either compartment.
    pub fn is_consumed_by_at_least_one_source(&self, msg: &ShortMsg) -> (r: bool)
        requires
            msg.wf(),
        ensures
            r == spec_is_consumed(self.controller_table.entries@, self.main_table.entries@, *msg),
    {
        let mut i: usize = 0;
        let n = self.controller_table.entries.len();
        while i < n
            invariant
                i <= n,
                n == self.controller_table.entries@.len(),
                msg.wf(),
                forall|j: int|
                    0 <= j < i ==> !mapping_consumes(
                        #[trigger] self.controller_table.entries@[j],
                        *msg,
                    ),
            decreases n - i,
        {
            let m = &self.controller_table.entries[i];
            if m.control_is_effectively_on() && m.consumes(msg) {
                return true;
            }
            i = i + 1;
        }
        let mut i: usize = 0;
        let n = self.main_table.entries.len();
        while i < n
            invariant
                i <= n,
                n == self.main_table.entries@.len(),
                msg.wf(),
                forall|j: int|
                    0 <= j < i ==> !mapping_consumes(#[trigger] self.main_table.entries@[j], *msg),
            decreases n - i,
        {
            let m = &self.main_table.entries[i];
            if m.control_is_effectively_on() && m.consumes(msg) {
                return true;
            }
            i = i + 1;
        }
        false
    }

    /// Runs both match passes for a source value: controller mappings
    /// first (resolving virtual indirection into the main mappings), then
    /// main mappings directly, and merges the outcomes.
    pub fn control_midi(
        &mut self,
        value: &MidiSourceValue,
        offset: SampleOffset,
        timestamp: ControlEventTimestamp,
        caller: Caller,
        outputs: &mut Outputs,
    ) -> (r: MatchOutcome)
        requires
            old(self).wf(),
            value.wf(),
        ensures
            final(self).wf(),
            RealTimeProcessor::control_state_preserved(*old(self), *final(self)),
            r == spec_composite_outcome(
                old(self).controller_table.entries@,
                old(self).main_table.entries@,
                *value,
            ),
            // The complete effect of both passes: the controller pass in
            // table order (with virtual indirection into the main table as
            // it stands at each step), then the direct-MIDI main pass over
            // the resulting main table.
            final(self).controller_table.entries@ == controller_pass_controller_state(
                old(self).controller_table.entries@,
                *value,
                old(self).settings.midi_destination,
            ),
            final(self).main_table.entries@ == main_midi_pass_state(
                controller_pass_main_state(
                    old(self).controller_table.entries@,
                    old(self).main_table.entries@,
                    *value,
                    old(self).settings.midi_destination,
                ),
                *value,
                old(self).settings.midi_destination,
            ),
            ({
                let mfo = old(self).settings.midi_destination;
                let ms_mid = controller_pass_main_state(
                    old(self).controller_table.entries@,
                    old(self).main_table.entries@,
                    *value,
                    mfo,
                );
                let (w1, f1, d1) = controller_pass_effects(
                    old(self).controller_table.entries@,
                    old(self).main_table.entries@,
                    *value,
                    caller,
                    mfo,
                    offset,
                );
                let (w2, f2, d2) = main_midi_pass_effects(ms_mid, *value, caller, mfo, offset);
                &&& final(outputs).target_writes@ == old(outputs).target_writes@ + w1 + w2
                &&& final(outputs).fx() == old(outputs).fx() + f1 + f2
                &&& final(outputs).dev() == old(outputs).dev() + d1 + d2
            }),
            // No match, no effect: a value nothing consumes writes nothing.
            r is Unmatched ==> final(outputs).fx_output == old(outputs).fx_output
                && final(outputs).device_output == old(outputs).device_output
                && final(outputs).target_writes == old(outputs).target_writes,
            final(self).nrpn_scanner == old(self).nrpn_scanner,
            final(self).cc_14_bit_scanner == old(self).cc_14_bit_scanner,
            final(self).midi_scanner == old(self).midi_scanner,
            final(self).midi_clock_calculator == old(self).midi_clock_calculator,
    {
        let controller_outcome = control_controller_mappings_midi(
            &mut self.controller_table,
            &mut self.main_table,
            &self.control_main_task_sender,
            &self.feedback_task_sender,
            value,
            offset,
            timestamp,
            caller,
            self.settings.midi_destination,
            self.settings.virtual_input_logging_enabled,
            self.settings.real_output_logging_enabled,
            outputs,
        );
        let ghost mid_ms = self.main_table.entries@;
        let main_outcome = control_main_mappings_midi(
            &mut self.main_table,
            &self.control_main_task_sender,
            &self.feedback_task_sender,
            value,
            offset,
            timestamp,
            caller,
            self.settings.midi_destination,
            self.settings.real_output_logging_enabled,
            outputs,
        );
        proof {
            assert forall|j: int|
                0 <= j < self.main_table.entries@.len() implies match_shape(
                #[trigger] self.main_table.entries@[j],
            ) == match_shape(old(self).main_table.entries@[j]) by {
                assert(match_shape(self.main_table.entries@[j]) == match_shape(mid_ms[j]));
                assert(match_shape(mid_ms[j]) == match_shape(old(self).main_table.entries@[j]));
            }
            if spec_main_midi_matches(mid_ms, *value) {
                let i = choose|i: int|
                    0 <= i < mid_ms.len() && main_midi_mapping_matches(#[trigger] mid_ms[i], *value);
                assert(match_shape(mid_ms[i]) == match_shape(old(self).main_table.entries@[i]));
                assert(main_midi_mapping_matches(old(self).main_table.entries@[i], *value));
            }
            if spec_main_midi_matches(old(self).main_table.entries@, *value) {
                let i = choose|i: int|
                    0 <= i < old(self).main_table.entries@.len() && main_midi_mapping_matches(
                        #[trigger] old(self).main_table.entries@[i],
                        *value,
                    );
                assert(match_shape(mid_ms[i]) == match_shape(old(self).main_table.entries@[i]));
                assert(main_midi_mapping_matches(mid_ms[i], *value));
            }
        }
        controller_outcome.merge_with(main_outcome)
    }
}


impl RealTimeProcessor {
    /// Sends an incoming message on to the host output (only reachable
    /// from the processing callback).
    fn send_incoming_midi_to_fx_output(
        &self,
        msg: &IncomingMidiMessage,
        offset: SampleOffset,
        caller: Caller,
        outputs: &mut Outputs,
    )
        ensures
            final(outputs).target_writes == old(outputs).target_writes,
            final(outputs).device_output == old(outputs).device_output,
            final(outputs).fx() == if caller is Vst {
                old(outputs).fx().push(
                    (
                        offset,
                        match *msg {
                            IncomingMidiMessage::Short(m) => MidiPayloadView::Short(m),
                            IncomingMidiMessage::SysEx(b) => MidiPayloadView::Raw(b@),
                        },
                    ),
                )
            } else {
                old(outputs).fx()
            },
    {
        if !caller.is_vst() {
            // Forwarding to the host output from the audio hook is illegal;
            // the host callback is not available there.
            return;
        }
        match msg {
            IncomingMidiMessage::Short(m) => outputs.push_fx_short(offset, *m),
            IncomingMidiMessage::SysEx(b) => {
                let copy = b.clone();
                proof {
                    assert(copy@ =~= b@);
                }
                outputs.push_fx_raw(offset, copy);
            },
        }
    }

    /// Passes a matched primitive message through to the host output where
    /// the input routing and the matched-event policy allow it.
    fn process_matched_short(
        &self,
        msg: &IncomingMidiMessage,
        offset: SampleOffset,
        caller: Caller,
        outputs: &mut Outputs,
    )
        ensures
            final(outputs).target_writes == old(outputs).target_writes,
            final(outputs).device_output == old(outputs).device_output,
            final(outputs).fx() == if caller is Vst && self.settings.midi_control_input
                == MidiControlInput::FxInput && self.settings.let_matched_events_through {
                old(outputs).fx().push(
                    (
                        offset,
                        match *msg {
                            IncomingMidiMessage::Short(m) => MidiPayloadView::Short(m),
                            IncomingMidiMessage::SysEx(b) => MidiPayloadView::Raw(b@),
                        },
                    ),
                )
            } else {
                old(outputs).fx()
            },
    {
        if !matches!(self.settings.midi_control_input, MidiControlInput::FxInput) {
            return;
        }
        if !self.settings.let_matched_events_through {
            return;
        }
        self.send_incoming_midi_to_fx_output(msg, offset, caller, outputs);
    }

    /// Passes an unmatched primitive message through to the host output
    /// where the input routing and the unmatched-event policy allow it.
    fn process_unmatched(
        &self,
        msg: &IncomingMidiMessage,
        offset: SampleOffset,
        caller: Caller,
        outputs: &mut Outputs,
    )
        ensures
            final(outputs).target_writes == old(outputs).target_writes,
            final(outputs).device_output == old(outputs).device_output,
            final(outputs).fx() == if caller is Vst && self.settings.midi_control_input
                == MidiControlInput::FxInput && self.settings.let_unmatched_events_through {
                old(outputs).fx().push(
                    (
                        offset,
                        match *msg {
                            IncomingMidiMessage::Short(m) => MidiPayloadView::Short(m),
                            IncomingMidiMessage::SysEx(b) => MidiPayloadView::Raw(b@),
                        },
                    ),
                )
            } else {
                old(outputs).fx()
            },
    {
        if !matches!(self.settings.midi_control_input, MidiControlInput::FxInput) {
            return;
        }
        if !self.settings.let_unmatched_events_through {
            return;
        }
        self.send_incoming_midi_to_fx_output(msg, offset, caller, outputs);
    }

    /// Sends a real-control-input diagnostic to the slow path. Logging may
    /// allocate; it is gated by a settings flag and not latency-critical.
    fn log_real_control_input_internal(
        &self,
        value: MidiSourceValue,
        timestamp: ControlEventTimestamp,
        match_outcome: MatchOutcome,
    ) {
        let _ = channel_try_send(
            &self.control_main_task_sender,
            ControlMainTask::LogRealControlInput {
                event: ControlEvent::new(value, timestamp),
                match_outcome,
            },
        );
    }

    /// Hands a learn-mode capture to the slow path. If the queue is full or
    /// the receiver is gone, the capture is dropped.
    fn send_captured_midi(&self, scan_result: MidiScanResult, allow_virtual_sources: bool) {
        let _ = channel_try_send(
            &self.normal_main_task_sender,
            NormalRealTimeToMainThreadTask::CaptureMidi { scan_result, allow_virtual_sources },
        );
    }

    /// Handles a decoded (N)RPN message: runs a full match pass for it and
    /// passes its constituent short messages through to the host output
    /// according to the pass-through policy.
    pub fn process_incoming_midi_normal_nrpn(
        &mut self,
        msg: crate::nrpn::ParameterNumberMsg,
        offset: SampleOffset,
        timestamp: ControlEventTimestamp,
        caller: Caller,
        outputs: &mut Outputs,
    ) -> (r: MatchOutcome)
        requires
            old(self).wf(),
            msg.wf(),
        ensures
            final(self).wf(),
            RealTimeProcessor::control_state_preserved(*old(self), *final(self)),
            final(self).nrpn_scanner == old(self).nrpn_scanner,
            final(self).cc_14_bit_scanner == old(self).cc_14_bit_scanner,
            final(self).midi_scanner == old(self).midi_scanner,
            final(self).midi_clock_calculator == old(self).midi_clock_calculator,
            r == spec_composite_outcome(
                old(self).controller_table.entries@,
                old(self).main_table.entries@,
                MidiSourceValue::ParameterNumber(msg),
            ),
            final(self).controller_table.entries@ == control_midi_tables_after(
                old(self).controller_table.entries@,
                old(self).main_table.entries@,
                MidiSourceValue::ParameterNumber(msg),
                old(self).settings.midi_destination,
            ).0,
            final(self).main_table.entries@ == control_midi_tables_after(
                old(self).controller_table.entries@,
                old(self).main_table.entries@,
                MidiSourceValue::ParameterNumber(msg),
                old(self).settings.midi_destination,
            ).1,
            final(outputs).target_writes@ == old(outputs).target_writes@ + control_midi_writes(
                old(self).controller_table.entries@,
                old(self).main_table.entries@,
                MidiSourceValue::ParameterNumber(msg),
                caller,
                old(self).settings.midi_destination,
                offset,
            ),
            final(outputs).dev() == old(outputs).dev() + control_midi_dev(
                old(self).controller_table.entries@,
                old(self).main_table.entries@,
                MidiSourceValue::ParameterNumber(msg),
                caller,
                old(self).settings.midi_destination,
                offset,
            ),
    {
        let source_value = MidiSourceValue::ParameterNumber(msg);
        let match_outcome = self.control_midi(&source_value, offset, timestamp, caller, outputs);
        if self.settings.real_input_logging_enabled {
            self.log_real_control_input_internal(source_value, timestamp, match_outcome);
        }
        let let_through = (match_outcome.matched_or_consumed()
            && self.settings.let_matched_events_through) || (!match_outcome.matched_or_consumed()
            && self.settings.let_unmatched_events_through);
        if matches!(self.settings.midi_control_input, MidiControlInput::FxInput) && let_through {
            let shorts = msg.to_short_messages();
            let ghost tw = outputs.target_writes@;
            let ghost dv = outputs.dev();
            let mut i: usize = 0;
            while i < shorts.len()
                invariant
                    self.wf(),
                    RealTimeProcessor::control_state_preserved(*old(self), *self),
                    self.nrpn_scanner == old(self).nrpn_scanner,
                    self.cc_14_bit_scanner == old(self).cc_14_bit_scanner,
                    self.midi_scanner == old(self).midi_scanner,
                    self.midi_clock_calculator == old(self).midi_clock_calculator,
                    outputs.target_writes@ == tw,
                    outputs.dev() == dv,
                decreases shorts@.len() - i,
            {
                if caller.is_vst() {
                    outputs.push_fx_short(offset, shorts[i]);
                }
                i = i + 1;
            }
        }
        match_outcome
    }

    /// Handles a decoded 14-bit control change message: runs a full match
    /// pass for it and passes its constituent short messages through to the
    /// host output according to the pass-through policy.
    pub fn process_incoming_midi_normal_cc14(
        &mut self,
        msg: crate::cc14::ControlChange14BitMsg,
        offset: SampleOffset,
        timestamp: ControlEventTimestamp,
        caller: Caller,
        outputs: &mut Outputs,
    ) -> (r: MatchOutcome)
        requires
            old(self).wf(),
            msg.wf(),
        ensures
            final(self).wf(),
            RealTimeProcessor::control_state_preserved(*old(self), *final(self)),
            final(self).nrpn_scanner == old(self).nrpn_scanner,
            final(self).cc_14_bit_scanner == old(self).cc_14_bit_scanner,
            final(self).midi_scanner == old(self).midi_scanner,
            final(self).midi_clock_calculator == old(self).midi_clock_calculator,
            r == spec_composite_outcome(
                old(self).controller_table.entries@,
                old(self).main_table.entries@,
                MidiSourceValue::ControlChange14Bit(msg),
            ),
            final(self).controller_table.entries@ == control_midi_tables_after(
                old(self).controller_table.entries@,
                old(self).main_table.entries@,
                MidiSourceValue::ControlChange14Bit(msg),
                old(self).settings.midi_destination,
            ).0,
            final(self).main_table.entries@ == control_midi_tables_after(
                old(self).controller_table.entries@,
                old(self).main_table.entries@,
                MidiSourceValue::ControlChange14Bit(msg),
                old(self).settings.midi_destination,
            ).1,
            final(outputs).target_writes@ == old(outputs).target_writes@ + control_midi_writes(
                old(self).controller_table.entries@,
                old(self).main_table.entries@,
                MidiSourceValue::ControlChange14Bit(msg),
                caller,
                old(self).settings.midi_destination,
                offset,
            ),
            final(outputs).dev() == old(outputs).dev() + control_midi_dev(
                old(self).controller_table.entries@,
                old(self).main_table.entries@,
                MidiSourceValue::ControlChange14Bit(msg),
                caller,
                old(self).settings.midi_destination,
                offset,
            ),
    {
        let source_value = MidiSourceValue::ControlChange14Bit(msg);
        let match_outcome = self.control_midi(&source_value, offset, timestamp, caller, outputs);
        if self.settings.real_input_logging_enabled {
            self.log_real_control_input_internal(source_value, timestamp, match_outcome);
        }
        let let_through = (match_outcome.matched_or_consumed()
            && self.settings.let_matched_events_through) || (!match_outcome.matched_or_consumed()
            && self.settings.let_unmatched_events_through);
        if matches!(self.settings.midi_control_input, MidiControlInput::FxInput) && let_through {
            let shorts = msg.to_short_messages();
            if caller.is_vst() {
                outputs.push_fx_short(offset, shorts[0]);
                outputs.push_fx_short(offset, shorts[1]);
            }
        }
        match_outcome
    }

    /// The plain (non-composite) pass for one primitive message. A message
    /// absorbed by at least one enabled composite source reports `Consumed`
    /// and is never matched as a plain message; otherwise both compartments
    /// are matched and the pass-through policy applies.
    pub fn process_incoming_midi_normal_plain(
        &mut self,
        msg: &IncomingMidiMessage,
        offset: SampleOffset,
        timestamp: ControlEventTimestamp,
        caller: Caller,
        outputs: &mut Outputs,
    ) -> (r: MatchOutcome)
        requires
            old(self).wf(),
            msg.wf(),
        ensures
            final(self).wf(),
            RealTimeProcessor::control_state_preserved(*old(self), *final(self)),
            final(self).nrpn_scanner == old(self).nrpn_scanner,
            final(self).cc_14_bit_scanner == old(self).cc_14_bit_scanner,
            final(self).midi_scanner == old(self).midi_scanner,
            final(self).midi_clock_calculator == old(self).midi_clock_calculator,
            r == spec_plain_outcome(
                old(self).controller_table.entries@,
                old(self).main_table.entries@,
                *msg,
            ),
            // A consumed primitive message and raw system-exclusive data
            // run no match pass at all; otherwise both passes run for the
            // plain value.
            ({
                let cs = old(self).controller_table.entries@;
                let ms = old(self).main_table.entries@;
                let mfo = old(self).settings.midi_destination;
                match *msg {
                    IncomingMidiMessage::Short(s) => {
                        if spec_is_consumed(cs, ms, s) {
                            &&& final(self).controller_table.entries@ == cs
                            &&& final(self).main_table.entries@ == ms
                            &&& final(outputs).target_writes@ == old(outputs).target_writes@
                            &&& final(outputs).dev() == old(outputs).dev()
                        } else {
                            let v = MidiSourceValue::Plain(s);
                            &&& final(self).controller_table.entries@
                                == control_midi_tables_after(cs, ms, v, mfo).0
                            &&& final(self).main_table.entries@ == control_midi_tables_after(
                                cs,
                                ms,
                                v,
                                mfo,
                            ).1
                            &&& final(outputs).target_writes@ == old(outputs).target_writes@
                                + control_midi_writes(cs, ms, v, caller, mfo, offset)
                            &&& final(outputs).dev() == old(outputs).dev() + control_midi_dev(
                                cs,
                                ms,
                                v,
                                caller,
                                mfo,
                                offset,
                            )
                        }
                    },
                    IncomingMidiMessage::SysEx(_) => {
                        &&& final(self).controller_table.entries@ == cs
                        &&& final(self).main_table.entries@ == ms
                        &&& final(outputs).target_writes@ == old(outputs).target_writes@
                        &&& final(outputs).dev() == old(outputs).dev()
                    },
                }
            }),
    {
        let short = match msg {
            IncomingMidiMessage::Short(s) => *s,
            IncomingMidiMessage::SysEx(_) => {
                // No compiled source matches raw system-exclusive data, and
                // it is never part of a composite message.
                self.process_unmatched(msg, offset, caller, outputs);
                return MatchOutcome::Unmatched;
            },
        };
        if self.is_consumed_by_at_least_one_source(&short) {
            if self.settings.real_input_logging_enabled {
                self.log_real_control_input_internal(
                    MidiSourceValue::Plain(short),
                    timestamp,
                    MatchOutcome::Consumed,
                );
            }
            // This primitive message is part of a bigger composite message
            // that some mapping listens to; it must not be interpreted as a
            // plain message on its own.
            return MatchOutcome::Consumed;
        }
        let source_value = MidiSourceValue::Plain(short);
        let match_outcome = self.control_midi(&source_value, offset, timestamp, caller, outputs);
        if self.settings.real_input_logging_enabled {
            self.log_real_control_input_internal(source_value, timestamp, match_outcome);
        }
        if match_outcome.matched_or_consumed() {
            self.process_matched_short(msg, offset, caller, outputs);
        } else {
            self.process_unmatched(msg, offset, caller, outputs);
        }
        match_outcome
    }
}



/// Match-shape equality is transitive.
proof fn lemma_shapes_equal_trans(
    a: Seq<RealTimeMapping>,
    b: Seq<RealTimeMapping>,
    c: Seq<RealTimeMapping>,
)
    requires
        shapes_equal(a, b),
        shapes_equal(b, c),
    ensures
        shapes_equal(a, c),
{
    assert forall|i: int| 0 <= i < a.len() implies match_shape(#[trigger] a[i]) == match_shape(
        c[i],
    ) by {
        assert(match_shape(a[i]) == match_shape(b[i]));
        assert(match_shape(b[i]) == match_shape(c[i]));
    }
}

/// Tables with equal match shapes match the same source values.
proof fn lemma_shapes_preserve_control_matches(
    cs1: Seq<RealTimeMapping>,
    cs2: Seq<RealTimeMapping>,
    ms1: Seq<RealTimeMapping>,
    ms2: Seq<RealTimeMapping>,
    v: MidiSourceValue,
)
    requires
        shapes_equal(cs1, cs2),
        shapes_equal(ms1, ms2),
    ensures
        spec_control_midi_matches(cs1, ms1, v) == spec_control_midi_matches(cs2, ms2, v),
{
    assert forall|i: int|
        0 <= i < cs1.len() implies controller_mapping_matches(#[trigger] cs1[i], ms1, v)
        == controller_mapping_matches(cs2[i], ms2, v) by {
        assert(match_shape(cs1[i]) == match_shape(cs2[i]));
        if cs1[i].spec_control_is_effectively_on() {
            match cs1[i].spec_source() {
                CompoundMappingSource::Midi(src) => {
                    match src.spec_control(v) {
                        Some(cv) => {
                            match cs1[i].resolved_target {
                                Some(RealTimeCompoundMappingTarget::Virtual(e)) => {
                                    lemma_shapes_preserve_virtual_matches(
                                        ms1,
                                        ms2,
                                        VirtualSourceValue { element: e, value: cv },
                                    );
                                },
                                _ => {},
                            }
                        },
                        None => {},
                    }
                },
                CompoundMappingSource::Virtual(_) => {},
            }
        }
    }
    if spec_controller_matches(cs1, ms1, v) {
        let i = choose|i: int|
            0 <= i < cs1.len() && controller_mapping_matches(#[trigger] cs1[i], ms1, v);
        assert(controller_mapping_matches(cs2[i], ms2, v));
    }
    if spec_controller_matches(cs2, ms2, v) {
        let i = choose|i: int|
            0 <= i < cs2.len() && controller_mapping_matches(#[trigger] cs2[i], ms2, v);
        assert(controller_mapping_matches(cs1[i], ms1, v));
    }
    if spec_main_midi_matches(ms1, v) {
        let i = choose|i: int|
            0 <= i < ms1.len() && main_midi_mapping_matches(#[trigger] ms1[i], v);
        assert(match_shape(ms1[i]) == match_shape(ms2[i]));
        assert(main_midi_mapping_matches(ms2[i], v));
    }
    if spec_main_midi_matches(ms2, v) {
        let i = choose|i: int|
            0 <= i < ms2.len() && main_midi_mapping_matches(#[trigger] ms2[i], v);
        assert(match_shape(ms1[i]) == match_shape(ms2[i]));
        assert(main_midi_mapping_matches(ms1[i], v));
    }
}


/// The (N)RPN decoder states after one `Normal`-classified message: fed
/// only in control mode with control globally enabled, and only by
/// control change messages; learn mode and disabled mode never feed the
/// decoders.
pub open spec fn spec_nrpn_after(p: RealTimeProcessor, msg: IncomingMidiMessage) -> Seq<
    crate::nrpn::NrpnChannelState,
> {
    match p.control_mode {
        ControlMode::Controlling => {
            if p.control_is_globally_enabled {
                match msg {
                    IncomingMidiMessage::Short(m) => {
                        if m.is_control_change() {
                            let c = m.spec_channel() as int;
                            p.nrpn_scanner.channel_states().update(
                                c,
                                crate::nrpn::nrpn_step(
                                    p.nrpn_scanner.channel_states()[c],
                                    m.spec_channel(),
                                    m.data1,
                                    m.data2,
                                ).0,
                            )
                        } else {
                            p.nrpn_scanner.channel_states()
                        }
                    },
                    IncomingMidiMessage::SysEx(_) => p.nrpn_scanner.channel_states(),
                }
            } else {
                p.nrpn_scanner.channel_states()
            }
        },
        _ => p.nrpn_scanner.channel_states(),
    }
}

/// The 14-bit decoder states after one `Normal`-classified message, under
/// the same feeding rule as [`spec_nrpn_after`].
pub open spec fn spec_cc14_after(p: RealTimeProcessor, msg: IncomingMidiMessage) -> Seq<
    crate::cc14::Cc14ChannelState,
> {
    match p.control_mode {
        ControlMode::Controlling => {
            if p.control_is_globally_enabled {
                match msg {
                    IncomingMidiMessage::Short(m) => {
                        if m.is_control_change() {
                            let c = m.spec_channel() as int;
                            p.cc_14_bit_scanner.channel_states().update(
                                c,
                                crate::cc14::cc14_step(
                                    p.cc_14_bit_scanner.channel_states()[c],
                                    m.spec_channel(),
                                    m.data1,
                                    m.data2,
                                ).0,
                            )
                        } else {
                            p.cc_14_bit_scanner.channel_states()
                        }
                    },
                    IncomingMidiMessage::SysEx(_) => p.cc_14_bit_scanner.channel_states(),
                }
            } else {
                p.cc_14_bit_scanner.channel_states()
            }
        },
        _ => p.cc_14_bit_scanner.channel_states(),
    }
}

/// The in-flight capture after one `Normal`-classified message: only learn
/// mode feeds the capture scanner, and only short control changes are held
/// back in it.
pub open spec fn spec_capture_pending_after(p: RealTimeProcessor, msg: IncomingMidiMessage)
    -> Option<crate::capture::PendingCcCapture> {
    match p.control_mode {
        ControlMode::LearningSource { .. } => match msg {
            IncomingMidiMessage::Short(m) => {
                if m.is_control_change() {
                    crate::capture::capture_cc_step(
                        p.midi_scanner.spec_pending_cc(),
                        m.spec_channel(),
                        m.data1,
                        m.data2,
                    )
                } else {
                    p.midi_scanner.spec_pending_cc()
                }
            },
            IncomingMidiMessage::SysEx(_) => p.midi_scanner.spec_pending_cc(),
        },
        _ => p.midi_scanner.spec_pending_cc(),
    }
}


/// The target writes one `Normal`-classified message produces while the
/// engine is in control mode with control globally enabled: the plain
/// pass (unless the message is consumed by a composite source), then the
/// pass of each composite message the decoders complete, in that order,
/// each over the tables as the preceding pass left them.
pub open spec fn spec_normal_writes(
    p: RealTimeProcessor,
    msg: IncomingMidiMessage,
    caller: Caller,
    offset: SampleOffset,
) -> Seq<TargetWrite> {
    let cs = p.controller_table.entries@;
    let ms = p.main_table.entries@;
    let mfo = p.settings.midi_destination;
    match msg {
        IncomingMidiMessage::Short(s) => {
            let consumed = spec_is_consumed(cs, ms, s);
            let w1 = if consumed {
                Seq::empty()
            } else {
                control_midi_writes(cs, ms, MidiSourceValue::Plain(s), caller, mfo, offset)
            };
            let tables1 = if consumed {
                (cs, ms)
            } else {
                control_midi_tables_after(cs, ms, MidiSourceValue::Plain(s), mfo)
            };
            if s.is_control_change() {
                let c = s.spec_channel() as int;
                let nrpn_out = crate::nrpn::nrpn_step(
                    p.nrpn_scanner.channel_states()[c],
                    s.spec_channel(),
                    s.data1,
                    s.data2,
                ).1;
                let w2 = match nrpn_out {
                    Some(pm) => control_midi_writes(
                        tables1.0,
                        tables1.1,
                        MidiSourceValue::ParameterNumber(pm),
                        caller,
                        mfo,
                        offset,
                    ),
                    None => Seq::empty(),
                };
                let tables2 = match nrpn_out {
                    Some(pm) => control_midi_tables_after(
                        tables1.0,
                        tables1.1,
                        MidiSourceValue::ParameterNumber(pm),
                        mfo,
                    ),
                    None => tables1,
                };
                let cc14_out = crate::cc14::cc14_step(
                    p.cc_14_bit_scanner.channel_states()[c],
                    s.spec_channel(),
                    s.data1,
                    s.data2,
                ).1;
                let w3 = match cc14_out {
                    Some(cm) => control_midi_writes(
                        tables2.0,
                        tables2.1,
                        MidiSourceValue::ControlChange14Bit(cm),
                        caller,
                        mfo,
                        offset,
                    ),
                    None => Seq::empty(),
                };
                w1 + w2 + w3
            } else {
                w1
            }
        },
        IncomingMidiMessage::SysEx(_) => Seq::empty(),
    }
}

/// The outcome the engine reports for a `Normal`-classified message, as a
/// function of the control mode, the mapping tables and the decoder states.
pub open spec fn spec_normal_outcome(p: RealTimeProcessor, msg: IncomingMidiMessage) -> MatchOutcome {
    match p.control_mode {
        ControlMode::Disabled => MatchOutcome::Consumed,
        ControlMode::LearningSource { .. } => MatchOutcome::Consumed,
        ControlMode::Controlling => {
            if !p.control_is_globally_enabled {
                MatchOutcome::Unmatched
            } else {
                let cs = p.controller_table.entries@;
                let ms = p.main_table.entries@;
                let plain = spec_plain_outcome(cs, ms, msg);
                match msg {
                    IncomingMidiMessage::Short(s) => {
                        if s.is_control_change() {
                            let c = s.spec_channel() as int;
                            let nrpn_out = crate::nrpn::nrpn_step(
                                p.nrpn_scanner.channel_states()[c],
                                s.spec_channel(),
                                s.data1,
                                s.data2,
                            ).1;
                            let cc14_out = crate::cc14::cc14_step(
                                p.cc_14_bit_scanner.channel_states()[c],
                                s.spec_channel(),
                                s.data1,
                                s.data2,
                            ).1;
                            let nrpn_child = match nrpn_out {
                                Some(pm) => spec_composite_outcome(
                                    cs,
                                    ms,
                                    MidiSourceValue::ParameterNumber(pm),
                                ),
                                None => MatchOutcome::Unmatched,
                            };
                            let cc14_child = match cc14_out {
                                Some(cm) => spec_composite_outcome(
                                    cs,
                                    ms,
                                    MidiSourceValue::ControlChange14Bit(cm),
                                ),
                                None => MatchOutcome::Unmatched,
                            };
                            plain.spec_merge(nrpn_child).spec_merge(cc14_child)
                        } else {
                            plain
                        }
                    },
                    // System-exclusive data is never part of a composite
                    // message.
                    IncomingMidiMessage::SysEx(_) => plain,
                }
            }
        },
    }
}

/// The outcome the engine reports for any incoming message, after
/// classification.
pub open spec fn spec_incoming_outcome(
    p: RealTimeProcessor,
    msg: IncomingMidiMessage,
    offset: SampleOffset,
) -> MatchOutcome {
    match crate::midi::classification_of(msg) {
        MidiMessageClassification::Normal => spec_normal_outcome(p, msg),
        MidiMessageClassification::Ignored => MatchOutcome::Unmatched,
        MidiMessageClassification::Timing => {
            if p.control_is_globally_enabled {
                let counter = p.midi_clock_calculator.spec_sample_count();
                let tick = if counter + offset.value <= u64::MAX {
                    counter + offset.value
                } else {
                    u64::MAX as int
                };
                match p.midi_clock_calculator.spec_previous_tick() {
                    Some(prev) => {
                        if tick > prev {
                            let bpm = crate::clock::milli_bpm_of_tick_interval(
                                (tick - prev) as u64,
                                p.midi_clock_calculator.spec_sample_rate_hz(),
                            );
                            spec_composite_outcome(
                                p.controller_table.entries@,
                                p.main_table.entries@,
                                MidiSourceValue::Tempo { milli_bpm: bpm },
                            )
                        } else {
                            MatchOutcome::Unmatched
                        }
                    },
                    None => MatchOutcome::Unmatched,
                }
            } else {
                MatchOutcome::Unmatched
            }
        },
    }
}


/// What processing one incoming message does to the engine's own state
/// (decoders, capture scanner, clock), by classification. Matchable
/// messages step the decoders and the capture scanner as the control mode
/// prescribes; housekeeping messages change nothing; timing clock ticks
/// touch only the clock.
pub open spec fn spec_event_state_transition(
    pre: RealTimeProcessor,
    post: RealTimeProcessor,
    msg: IncomingMidiMessage,
    offset: SampleOffset,
) -> bool {
    match crate::midi::classification_of(msg) {
        MidiMessageClassification::Normal => {
            &&& post.nrpn_scanner.channel_states() == spec_nrpn_after(pre, msg)
            &&& post.nrpn_scanner.spec_timeout_polls() == pre.nrpn_scanner.spec_timeout_polls()
            &&& post.cc_14_bit_scanner.channel_states() == spec_cc14_after(pre, msg)
            &&& post.midi_scanner.spec_pending_cc() == spec_capture_pending_after(pre, msg)
            &&& post.midi_scanner.spec_sysex_buffer() == pre.midi_scanner.spec_sysex_buffer()
            &&& post.midi_scanner.spec_sysex_in_progress()
                == pre.midi_scanner.spec_sysex_in_progress()
            &&& post.midi_clock_calculator == pre.midi_clock_calculator
        },
        MidiMessageClassification::Ignored => post == pre,
        MidiMessageClassification::Timing => {
            &&& post.midi_scanner == pre.midi_scanner
            &&& post.nrpn_scanner == pre.nrpn_scanner
            &&& post.cc_14_bit_scanner == pre.cc_14_bit_scanner
            &&& post.midi_clock_calculator.spec_sample_count()
                == pre.midi_clock_calculator.spec_sample_count()
            &&& post.midi_clock_calculator.spec_sample_rate_hz()
                == pre.midi_clock_calculator.spec_sample_rate_hz()
            &&& post.midi_clock_calculator.spec_previous_tick() == (
            if pre.control_is_globally_enabled {
                let counter = pre.midi_clock_calculator.spec_sample_count();
                let tick = if counter + offset.value <= u64::MAX {
                    counter + offset.value
                } else {
                    u64::MAX as int
                };
                Some(tick as u64)
            } else {
                pre.midi_clock_calculator.spec_previous_tick()
            })
        },
    }
}

impl RealTimeProcessor {
    /// Processes one `Normal`-classified message: in control mode it runs
    /// the plain pass, feeds both composite decoders and merges all
    /// outcomes by the upgrade rule; in learn mode it captures the message;
    /// while control is disabled globally it swallows it.
    pub fn process_incoming_midi_normal(
        &mut self,
        msg: &IncomingMidiMessage,
        offset: SampleOffset,
        timestamp: ControlEventTimestamp,
        caller: Caller,
        outputs: &mut Outputs,
    ) -> (r: MatchOutcome)
        requires
            old(self).wf(),
            msg.wf(),
        ensures
            final(self).wf(),
            RealTimeProcessor::control_state_preserved(*old(self), *final(self)),
            final(self).midi_clock_calculator == old(self).midi_clock_calculator,
            r == spec_normal_outcome(*old(self), *msg),
            final(self).nrpn_scanner.channel_states() == spec_nrpn_after(*old(self), *msg),
            final(self).nrpn_scanner.spec_timeout_polls() == old(
                self,
            ).nrpn_scanner.spec_timeout_polls(),
            final(self).cc_14_bit_scanner.channel_states() == spec_cc14_after(*old(self), *msg),
            final(self).midi_scanner.spec_pending_cc() == spec_capture_pending_after(
                *old(self),
                *msg,
            ),
            final(self).midi_scanner.spec_sysex_buffer() == old(
                self,
            ).midi_scanner.spec_sysex_buffer(),
            final(self).midi_scanner.spec_sysex_in_progress() == old(
                self,
            ).midi_scanner.spec_sysex_in_progress(),
            // Outside of enabled control mode, no matching runs: nothing is
            // written to any target and nothing reaches any output.
            !(old(self).control_mode is Controlling && old(self).control_is_globally_enabled)
                ==> final(outputs).fx_output == old(outputs).fx_output
                && final(outputs).device_output == old(outputs).device_output
                && final(outputs).target_writes == old(outputs).target_writes,
            // In enabled control mode, the target writes are exactly those
            // of the plain pass and of the decoded composite messages, in
            // that order.
            old(self).control_mode is Controlling && old(self).control_is_globally_enabled
                ==> final(outputs).target_writes@ == old(outputs).target_writes@
                + spec_normal_writes(*old(self), *msg, caller, offset),
    {
        let mode = self.control_mode;
        match mode {
            ControlMode::Controlling => {
                if !self.control_is_globally_enabled {
                    return MatchOutcome::Unmatched;
                }
                // The plain message is processed even when a composite
                // message completes: a controller number involved in a
                // composite form stays usable on its own as long as no
                // mapping listens to the composite form; consumption is
                // decided inside the plain pass.
                let plain_match_outcome = self.process_incoming_midi_normal_plain(
                    msg,
                    offset,
                    timestamp,
                    caller,
                    outputs,
                );
                let short = match msg {
                    IncomingMidiMessage::Short(s) => *s,
                    IncomingMidiMessage::SysEx(_) => {
                        return plain_match_outcome;
                    },
                };
                let ghost s1 = *self;
                let nrpn_result = self.nrpn_scanner.feed(&short);
                let nrpn_match_outcome = match nrpn_result {
                    Some(nrpn_msg) => self.process_incoming_midi_normal_nrpn(
                        nrpn_msg,
                        offset,
                        timestamp,
                        caller,
                        outputs,
                    ),
                    None => MatchOutcome::Unmatched,
                };
                proof {
                    lemma_shapes_equal_trans(
                        self.controller_table.entries@,
                        s1.controller_table.entries@,
                        old(self).controller_table.entries@,
                    );
                    lemma_shapes_equal_trans(
                        self.main_table.entries@,
                        s1.main_table.entries@,
                        old(self).main_table.entries@,
                    );
                    if nrpn_result is Some {
                        lemma_shapes_preserve_control_matches(
                            s1.controller_table.entries@,
                            old(self).controller_table.entries@,
                            s1.main_table.entries@,
                            old(self).main_table.entries@,
                            MidiSourceValue::ParameterNumber(nrpn_result->0),
                        );
                    }
                }
                let ghost s2 = *self;
                let cc14_result = self.cc_14_bit_scanner.feed(&short);
                let cc14_match_outcome = match cc14_result {
                    Some(cc14_msg) => self.process_incoming_midi_normal_cc14(
                        cc14_msg,
                        offset,
                        timestamp,
                        caller,
                        outputs,
                    ),
                    None => MatchOutcome::Unmatched,
                };
                proof {
                    lemma_shapes_equal_trans(
                        self.controller_table.entries@,
                        s2.controller_table.entries@,
                        old(self).controller_table.entries@,
                    );
                    lemma_shapes_equal_trans(
                        self.main_table.entries@,
                        s2.main_table.entries@,
                        old(self).main_table.entries@,
                    );
                    if cc14_result is Some {
                        lemma_shapes_preserve_control_matches(
                            s2.controller_table.entries@,
                            old(self).controller_table.entries@,
                            s2.main_table.entries@,
                            old(self).main_table.entries@,
                            MidiSourceValue::ControlChange14Bit(cc14_result->0),
                        );
                    }
                }
                proof {
                    assert(outputs.target_writes@ =~= old(outputs).target_writes@
                        + spec_normal_writes(*old(self), *msg, caller, offset));
                }
                plain_match_outcome.merge_with(nrpn_match_outcome).merge_with(cc14_match_outcome)
            },
            ControlMode::LearningSource { allow_virtual_sources } => {
                if self.settings.real_input_logging_enabled {
                    let owned = msg.clone();
                    let _ = channel_try_send(
                        &self.control_main_task_sender,
                        ControlMainTask::LogRealLearnInput {
                            event: ControlEvent::new(owned, timestamp),
                        },
                    );
                }
                let scan_result: Option<MidiScanResult> = match msg {
                    IncomingMidiMessage::Short(s) => self.midi_scanner.feed_short(s),
                    IncomingMidiMessage::SysEx(bytes) => match MidiScanResult::try_from_bytes(
                        bytes,
                    ) {
                        Ok(result) => Some(result),
                        Err(_) => None,
                    },
                };
                if let Some(source) = scan_result {
                    self.send_captured_midi(source, allow_virtual_sources);
                }
                MatchOutcome::Consumed
            },
            ControlMode::Disabled => {
                // Control is disabled only while learning is active across
                // instances; the event counts as consumed.
                MatchOutcome::Consumed
            },
        }
    }

    /// Processes one incoming message: classifies it, derives tempo from
    /// timing clock ticks, ignores housekeeping messages (passing them
    /// through where policy allows) and matches everything else.
    pub fn process_incoming_midi(
        &mut self,
        event: ControlEvent<MidiEvent<IncomingMidiMessage>>,
        caller: Caller,
        outputs: &mut Outputs,
    ) -> (r: MatchOutcome)
        requires
            old(self).wf(),
            event.spec_payload().spec_payload().wf(),
        ensures
            final(self).wf(),
            RealTimeProcessor::control_state_preserved(*old(self), *final(self)),
            r == spec_incoming_outcome(
                *old(self),
                event.spec_payload().spec_payload(),
                event.spec_payload().spec_offset(),
            ),
            spec_event_state_transition(
                *old(self),
                *final(self),
                event.spec_payload().spec_payload(),
                event.spec_payload().spec_offset(),
            ),
            ({
                let msg = event.spec_payload().spec_payload();
                // Outside of enabled control mode, a matchable message
                // writes to no target and reaches no output.
                crate::midi::classification_of(msg) is Normal && !(old(
                    self,
                ).control_mode is Controlling && old(self).control_is_globally_enabled)
                    ==> final(outputs).fx_output == old(outputs).fx_output
                    && final(outputs).device_output == old(outputs).device_output
                    && final(outputs).target_writes == old(outputs).target_writes
            }),
            ({
                let msg = event.spec_payload().spec_payload();
                let offset = event.spec_payload().spec_offset();
                // In enabled control mode, a matchable message's target
                // writes are exactly the plain pass's and the decoded
                // composite messages', in that order.
                crate::midi::classification_of(msg) is Normal && old(
                    self,
                ).control_mode is Controlling && old(self).control_is_globally_enabled
                    ==> final(outputs).target_writes@ == old(outputs).target_writes@
                    + spec_normal_writes(*old(self), msg, caller, offset)
            }),
            ({
                let msg = event.spec_payload().spec_payload();
                let offset = event.spec_payload().spec_offset();
                // A timing clock tick writes exactly what one match pass
                // for the derived tempo writes, and only from the second
                // tick on.
                crate::midi::classification_of(msg) is Timing ==> {
                    let counter = old(self).midi_clock_calculator.spec_sample_count();
                    let tick = if counter + offset.value <= u64::MAX {
                        counter + offset.value
                    } else {
                        u64::MAX as int
                    };
                    final(outputs).target_writes@ == match old(
                        self,
                    ).midi_clock_calculator.spec_previous_tick() {
                        Some(prev) => {
                            if old(self).control_is_globally_enabled && tick > prev {
                                let bpm = crate::clock::milli_bpm_of_tick_interval(
                                    (tick - prev) as u64,
                                    old(self).midi_clock_calculator.spec_sample_rate_hz(),
                                );
                                old(outputs).target_writes@ + control_midi_writes(
                                    old(self).controller_table.entries@,
                                    old(self).main_table.entries@,
                                    MidiSourceValue::Tempo { milli_bpm: bpm },
                                    caller,
                                    old(self).settings.midi_destination,
                                    offset,
                                )
                            } else {
                                old(outputs).target_writes@
                            }
                        },
                        None => old(outputs).target_writes@,
                    }
                }
            }),
            ({
                let msg = event.spec_payload().spec_payload();
                let offset = event.spec_payload().spec_offset();
                // A housekeeping message is never matched: it is passed
                // through exactly when the input routing and the unmatched
                // policy allow.
                crate::midi::classification_of(msg) is Ignored ==> {
                    &&& final(outputs).device_output == old(outputs).device_output
                    &&& final(outputs).target_writes == old(outputs).target_writes
                    &&& final(outputs).fx() == if caller is Vst && old(
                        self,
                    ).settings.midi_control_input == MidiControlInput::FxInput && old(
                        self,
                    ).settings.let_unmatched_events_through {
                        old(outputs).fx().push(
                            (
                                offset,
                                match msg {
                                    IncomingMidiMessage::Short(m) => MidiPayloadView::Short(m),
                                    IncomingMidiMessage::SysEx(b) => MidiPayloadView::Raw(b@),
                                },
                            ),
                        )
                    } else {
                        old(outputs).fx()
                    }
                }
            }),
    {
        let timestamp = event.timestamp();
        let midi_event = event.into_payload();
        let offset = midi_event.offset();
        let msg = midi_event.into_payload();
        match classify_midi_message(&msg) {
            MidiMessageClassification::Normal => {
                self.process_incoming_midi_normal(&msg, offset, timestamp, caller, outputs)
            },
            MidiMessageClassification::Ignored => {
                // Never matched, but possibly passed through.
                self.process_unmatched(&msg, offset, caller, outputs);
                MatchOutcome::Unmatched
            },
            MidiMessageClassification::Timing => {
                // Timing clock ticks only derive tempo; they are never
                // learned.
                if self.control_is_globally_enabled {
                    match self.midi_clock_calculator.feed(offset) {
                        Some(milli_bpm) => {
                            let source_value = MidiSourceValue::Tempo { milli_bpm };
                            self.control_midi(&source_value, offset, timestamp, caller, outputs)
                        },
                        None => MatchOutcome::Unmatched,
                    }
                } else {
                    MatchOutcome::Unmatched
                }
            },
        }
    }

    /// Processes one message that the audio hook found relevant for this
    /// instance. Returns whether the message should be filtered out of the
    /// global stream, which follows from the match outcome and the
    /// pass-through policies.
    pub fn process_incoming_midi_from_audio_hook(
        &mut self,
        event: ControlEvent<MidiEvent<IncomingMidiMessage>>,
        outputs: &mut Outputs,
    ) -> (r: bool)
        requires
            old(self).wf(),
            event.spec_payload().spec_payload().wf(),
        ensures
            final(self).wf(),
            RealTimeProcessor::control_state_preserved(*old(self), *final(self)),
            ({
                let outcome = spec_incoming_outcome(
                    *old(self),
                    event.spec_payload().spec_payload(),
                    event.spec_payload().spec_offset(),
                );
                let let_through = (outcome != MatchOutcome::Unmatched
                    && old(self).settings.let_matched_events_through) || (outcome
                    == MatchOutcome::Unmatched && old(self).settings.let_unmatched_events_through);
                r == !let_through
            }),
    {
        let match_outcome = self.process_incoming_midi(event, Caller::AudioHook, outputs);
        let let_through = (match_outcome.matched_or_consumed()
            && self.settings.let_matched_events_through) || (!match_outcome.matched_or_consumed()
            && self.settings.let_unmatched_events_through);
        !let_through
    }

    /// Processes one message arriving through the host's input of this
    /// plug-in instance. When the control input is not the plug-in input,
    /// every message passes through to the host output unprocessed. At a
    /// transport start, note-off messages that the host generates itself
    /// are not matched, so that target values are not reset by pressing
    /// play.
    pub fn process_incoming_midi_from_vst(
        &mut self,
        event: ControlEvent<MidiEvent<IncomingMidiMessage>>,
        is_transport_start: bool,
        outputs: &mut Outputs,
    )
        requires
            old(self).wf(),
            event.spec_payload().spec_payload().wf(),
        ensures
            final(self).wf(),
            RealTimeProcessor::control_state_preserved(*old(self), *final(self)),
            ({
                let msg = event.spec_payload().spec_payload();
                let offset = event.spec_payload().spec_offset();
                // The control input is a device: everything arriving on
                // the plug-in input passes through unprocessed.
                old(self).settings.midi_control_input != MidiControlInput::FxInput ==> {
                    &&& *final(self) == *old(self)
                    &&& final(outputs).device_output == old(outputs).device_output
                    &&& final(outputs).target_writes == old(outputs).target_writes
                    &&& final(outputs).fx() == old(outputs).fx().push(
                        (
                            offset,
                            match msg {
                                IncomingMidiMessage::Short(m) => MidiPayloadView::Short(m),
                                IncomingMidiMessage::SysEx(b) => MidiPayloadView::Raw(b@),
                            },
                        ),
                    )
                }
            }),
            ({
                let msg = event.spec_payload().spec_payload();
                let offset = event.spec_payload().spec_offset();
                // At a transport start, a note-off the host may have
                // generated itself is exempt from matching: it only passes
                // through under the unmatched policy.
                old(self).settings.midi_control_input == MidiControlInput::FxInput
                    && is_transport_start && (msg matches IncomingMidiMessage::Short(m)
                    && m.is_note_off()) ==> {
                    &&& *final(self) == *old(self)
                    &&& final(outputs).device_output == old(outputs).device_output
                    &&& final(outputs).target_writes == old(outputs).target_writes
                    &&& final(outputs).fx() == if old(self).settings.let_unmatched_events_through {
                        old(outputs).fx().push(
                            (
                                offset,
                                match msg {
                                    IncomingMidiMessage::Short(m2) => MidiPayloadView::Short(m2),
                                    IncomingMidiMessage::SysEx(b) => MidiPayloadView::Raw(b@),
                                },
                            ),
                        )
                    } else {
                        old(outputs).fx()
                    }
                }
            }),
            ({
                let msg = event.spec_payload().spec_payload();
                let offset = event.spec_payload().spec_offset();
                // Otherwise the event is processed like any incoming
                // message arriving inside the processing callback.
                old(self).settings.midi_control_input == MidiControlInput::FxInput && !(
                is_transport_start && (msg matches IncomingMidiMessage::Short(m)
                    && m.is_note_off())) ==> spec_event_state_transition(
                    *old(self),
                    *final(self),
                    msg,
                    offset,
                )
            }),
            ({
                let msg = event.spec_payload().spec_payload();
                let offset = event.spec_payload().spec_offset();
                // The write trace of a processed matchable message.
                old(self).settings.midi_control_input == MidiControlInput::FxInput && !(
                is_transport_start && (msg matches IncomingMidiMessage::Short(m)
                    && m.is_note_off())) && crate::midi::classification_of(msg) is Normal && old(
                    self,
                ).control_mode is Controlling && old(self).control_is_globally_enabled
                    ==> final(outputs).target_writes@ == old(outputs).target_writes@
                    + spec_normal_writes(*old(self), msg, Caller::Vst, offset)
            }),
    {
        if matches!(self.settings.midi_control_input, MidiControlInput::FxInput) {
            let timestamp = event.timestamp();
            let midi_event = event.into_payload();
            if is_transport_start && midi_event.payload().might_be_automatically_generated_by_host() {
                let offset = midi_event.offset();
                let msg = midi_event.into_payload();
                self.process_unmatched(&msg, offset, Caller::Vst, outputs);
                return;
            }
            let _ = self.process_incoming_midi(
                ControlEvent::new(midi_event, timestamp),
                Caller::Vst,
                outputs,
            );
        } else {
            // The control input is a device: everything arriving on the
            // plug-in input passes through unchanged.
            let midi_event = event.into_payload();
            let offset = midi_event.offset();
            let msg = midi_event.into_payload();
            self.send_incoming_midi_to_fx_output(&msg, offset, Caller::Vst, outputs);
        }
    }
}


/// How many stale tasks a full-resync discard drains from one queue at
/// most; queues are sized well below this, so the drain is complete in
/// practice while staying provably bounded.
pub const DISCARD_BULK_SIZE: usize = 10000;

/// The lifecycle message list of one mapping for one phase.
pub open spec fn msgs_of_phase(m: RealTimeMapping, phase: LifecyclePhase) -> Seq<
    LifecycleMidiMessage,
> {
    if phase is Activation {
        m.spec_lifecycle_midi_data().activation_midi_messages@
    } else {
        m.spec_lifecycle_midi_data().deactivation_midi_messages@
    }
}

/// The device-output views of a lifecycle message list.
pub open spec fn msg_views(msgs: Seq<LifecycleMidiMessage>, device_id: u8) -> Seq<
    (u8, MidiPayloadView),
> {
    msgs.map_values(|m: LifecycleMidiMessage| (device_id, lifecycle_view(m)))
}

/// The device-output views of one phase's lifecycle MIDI across a mapping
/// sequence: each mapping whose feedback is effectively on contributes its
/// message list exactly once, in table order, with no interleaving.
pub open spec fn lifecycle_device_seq(
    s: Seq<RealTimeMapping>,
    phase: LifecyclePhase,
    device_id: u8,
) -> Seq<(u8, MidiPayloadView)>
    decreases s.len(),
{
    if s.len() == 0 {
        Seq::empty()
    } else {
        lifecycle_device_seq(s.drop_last(), phase, device_id) + if s.last(
        ).spec_feedback_is_effectively_on() {
            msg_views(msgs_of_phase(s.last(), phase), device_id)
        } else {
            Seq::empty()
        }
    }
}


/// Whether the table holds an entry with the given id whose feedback is
/// effectively on.
pub open spec fn spec_table_entry_on(t: MappingTable, id: MappingId) -> bool {
    exists|i: int|
        0 <= i < t.entries@.len() && (#[trigger] t.entries@[i]).spec_id() == id && t.entries@[i].spec_feedback_is_effectively_on()
}


/// Whether some entry carries the given id.
pub open spec fn spec_contains_mapping_id(entries: Seq<RealTimeMapping>, id: MappingId) -> bool {
    exists|i: int| 0 <= i < entries.len() && (#[trigger] entries[i]).spec_id() == id
}

/// The entry carrying the given id; meaningful only under
/// [`spec_contains_mapping_id`] and unique ids.
pub open spec fn spec_entry_with_id(entries: Seq<RealTimeMapping>, id: MappingId) -> RealTimeMapping {
    entries[choose|i: int| 0 <= i < entries.len() && (#[trigger] entries[i]).spec_id() == id]
}

/// One partial target update applied to a mapping sequence: exactly the
/// entries carrying the update's id are patched (with unique ids, at most
/// one).
pub open spec fn apply_one_target_update(
    entries: Seq<RealTimeMapping>,
    u: crate::mapping::RealTimeTargetUpdate,
) -> Seq<RealTimeMapping> {
    Seq::new(
        entries.len(),
        |j: int|
            if entries[j].spec_id() == u.id {
                crate::mapping::spec_with_target_update(entries[j], u)
            } else {
                entries[j]
            },
    )
}

/// A list of partial target updates applied in order.
pub open spec fn apply_target_updates(
    entries: Seq<RealTimeMapping>,
    updates: Seq<crate::mapping::RealTimeTargetUpdate>,
) -> Seq<RealTimeMapping>
    decreases updates.len(),
{
    if updates.len() == 0 {
        entries
    } else {
        apply_target_updates(apply_one_target_update(entries, updates[0]), updates.skip(1))
    }
}

/// Appending one more update to the list applies it after all earlier
/// ones.
proof fn lemma_apply_target_updates_push(
    entries: Seq<RealTimeMapping>,
    updates: Seq<crate::mapping::RealTimeTargetUpdate>,
    u: crate::mapping::RealTimeTargetUpdate,
)
    ensures
        apply_target_updates(entries, updates.push(u)) == apply_one_target_update(
            apply_target_updates(entries, updates),
            u,
        ),
    decreases updates.len(),
{
    if updates.len() == 0 {
        assert(updates.push(u)[0] == u);
        assert(updates.push(u).skip(1) =~= Seq::<crate::mapping::RealTimeTargetUpdate>::empty());
        assert(apply_target_updates(entries, updates.push(u)) == apply_target_updates(
            apply_one_target_update(entries, u),
            updates.push(u).skip(1),
        ));
        assert(apply_target_updates(
            apply_one_target_update(entries, u),
            Seq::<crate::mapping::RealTimeTargetUpdate>::empty(),
        ) == apply_one_target_update(entries, u));
        assert(apply_target_updates(entries, updates) == entries);
    } else {
        assert(updates.push(u)[0] == updates[0]);
        assert(updates.push(u).skip(1) =~= updates.skip(1).push(u));
        assert(apply_target_updates(entries, updates.push(u)) == apply_target_updates(
            apply_one_target_update(entries, updates[0]),
            updates.skip(1).push(u),
        ));
        lemma_apply_target_updates_push(
            apply_one_target_update(entries, updates[0]),
            updates.skip(1),
            u,
        );
        assert(apply_target_updates(entries, updates) == apply_target_updates(
            apply_one_target_update(entries, updates[0]),
            updates.skip(1),
        ));
    }
}

/// One partial activation update applied to a mapping sequence.
pub open spec fn apply_one_mapping_update(
    entries: Seq<RealTimeMapping>,
    u: crate::mapping::RealTimeMappingUpdate,
) -> Seq<RealTimeMapping> {
    Seq::new(
        entries.len(),
        |j: int|
            if entries[j].spec_id() == u.id {
                crate::mapping::spec_with_mapping_update(entries[j], u)
            } else {
                entries[j]
            },
    )
}

/// A list of partial activation updates applied in order.
pub open spec fn apply_mapping_updates(
    entries: Seq<RealTimeMapping>,
    updates: Seq<crate::mapping::RealTimeMappingUpdate>,
) -> Seq<RealTimeMapping>
    decreases updates.len(),
{
    if updates.len() == 0 {
        entries
    } else {
        apply_mapping_updates(apply_one_mapping_update(entries, updates[0]), updates.skip(1))
    }
}

/// Appending one more update to the list applies it after all earlier
/// ones.
proof fn lemma_apply_mapping_updates_push(
    entries: Seq<RealTimeMapping>,
    updates: Seq<crate::mapping::RealTimeMappingUpdate>,
    u: crate::mapping::RealTimeMappingUpdate,
)
    ensures
        apply_mapping_updates(entries, updates.push(u)) == apply_one_mapping_update(
            apply_mapping_updates(entries, updates),
            u,
        ),
    decreases updates.len(),
{
    if updates.len() == 0 {
        assert(updates.push(u)[0] == u);
        assert(updates.push(u).skip(1) =~= Seq::<crate::mapping::RealTimeMappingUpdate>::empty());
        assert(apply_mapping_updates(entries, updates.push(u)) == apply_mapping_updates(
            apply_one_mapping_update(entries, u),
            updates.push(u).skip(1),
        ));
        assert(apply_mapping_updates(
            apply_one_mapping_update(entries, u),
            Seq::<crate::mapping::RealTimeMappingUpdate>::empty(),
        ) == apply_one_mapping_update(entries, u));
        assert(apply_mapping_updates(entries, updates) == entries);
    } else {
        assert(updates.push(u)[0] == updates[0]);
        assert(updates.push(u).skip(1) =~= updates.skip(1).push(u));
        assert(apply_mapping_updates(entries, updates.push(u)) == apply_mapping_updates(
            apply_one_mapping_update(entries, updates[0]),
            updates.skip(1).push(u),
        ));
        lemma_apply_mapping_updates_push(
            apply_one_mapping_update(entries, updates[0]),
            updates.skip(1),
            u,
        );
        assert(apply_mapping_updates(entries, updates) == apply_mapping_updates(
            apply_one_mapping_update(entries, updates[0]),
            updates.skip(1),
        ));
    }
}


/// The activation-change part of a list of target updates, in order.
pub open spec fn spec_changes_of(
    updates: Seq<crate::mapping::RealTimeTargetUpdate>,
) -> Seq<crate::mapping::RealTimeMappingUpdate> {
    updates.map_values(
        |u: crate::mapping::RealTimeTargetUpdate|
            crate::mapping::RealTimeMappingUpdate { id: u.id, activation_change: u.activation_change },
    )
}

/// The lifecycle MIDI that a list of activation changes demands, against a
/// fixed (already patched) table: for each update that carries a change
/// and addresses a mapping whose feedback is on apart from the changed
/// flag itself, that mapping's message list of the announced phase, in
/// update order.
pub open spec fn activation_change_device_seq(
    entries: Seq<RealTimeMapping>,
    updates: Seq<crate::mapping::RealTimeMappingUpdate>,
    ignoring_mapping_activation: bool,
    d: u8,
) -> Seq<(u8, MidiPayloadView)>
    decreases updates.len(),
{
    if updates.len() == 0 {
        Seq::empty()
    } else {
        activation_change_device_seq(
            entries,
            updates.drop_last(),
            ignoring_mapping_activation,
            d,
        ) + ({
            let u = updates.last();
            match u.activation_change {
                Some(change) => {
                    if spec_contains_mapping_id(entries, u.id) {
                        let m = spec_entry_with_id(entries, u.id);
                        let on = if ignoring_mapping_activation {
                            m.spec_persistent_state().is_enabled
                                && m.spec_options().target_is_active
                        } else {
                            m.spec_persistent_state().is_enabled
                                && m.spec_options().mapping_is_active
                        };
                        if on {
                            msg_views(
                                msgs_of_phase(
                                    m,
                                    if change.is_active {
                                        LifecyclePhase::Activation
                                    } else {
                                        LifecyclePhase::Deactivation
                                    },
                                ),
                                d,
                            )
                        } else {
                            Seq::empty()
                        }
                    } else {
                        Seq::empty()
                    }
                },
                None => Seq::empty(),
            }
        })
    }
}

impl RealTimeProcessor {
    /// The mapping table of one compartment.
    pub open spec fn spec_table(self, compartment: Compartment) -> MappingTable {
        if compartment is Controller {
            self.controller_table
        } else {
            self.main_table
        }
    }

    /// Sends one mapping's lifecycle MIDI of one phase towards the
    /// configured feedback output: synchronously to a device output, or
    /// deferred through the feedback queue when the destination is the
    /// host output (the audio hook cannot reach the host callback).
    fn send_lifecycle_midi_to_feedback_output_from_audio_hook(
        &self,
        m: &RealTimeMapping,
        phase: LifecyclePhase,
        outputs: &mut Outputs,
    )
        ensures
            final(outputs).fx_output == old(outputs).fx_output,
            final(outputs).target_writes == old(outputs).target_writes,
            final(outputs).dev() == match self.settings.midi_destination {
                Some(MidiDestination::Device(d)) => old(outputs).dev() + msg_views(
                    msgs_of_phase(*m, phase),
                    d,
                ),
                _ => old(outputs).dev(),
            },
    {
        match self.settings.midi_destination {
            Some(MidiDestination::FxOutput) => {
                // The host callback is not reachable from the audio hook;
                // defer until the processing callback runs.
                let _ = channel_try_send(
                    &self.feedback_task_sender,
                    FeedbackRealTimeTask::SendLifecycleMidi(m.compartment(), m.id(), phase),
                );
            },
            Some(MidiDestination::Device(device_id)) => {
                let messages = m.lifecycle_midi_messages(phase);
                let ghost msgs = messages@;
                let mut i: usize = 0;
                while i < messages.len()
                    invariant
                        i <= msgs.len(),
                        messages@ == msgs,
                        outputs.fx_output == old(outputs).fx_output,
                        outputs.target_writes == old(outputs).target_writes,
                        outputs.dev() == old(outputs).dev() + msg_views(
                            msgs.take(i as int),
                            device_id,
                        ),
                    decreases msgs.len() - i,
                {
                    let msg = &messages[i];
                    if self.settings.real_output_logging_enabled {
                        let logged = match msg {
                            LifecycleMidiMessage::Short(sm) => MidiSourceValue::Plain(*sm),
                            LifecycleMidiMessage::Raw(bytes) => MidiSourceValue::SysEx(
                                bytes.clone(),
                            ),
                        };
                        let _ = channel_try_send(
                            &self.normal_main_task_sender,
                            NormalRealTimeToMainThreadTask::LogLifecycleOutput { value: logged },
                        );
                    }
                    let outgoing = outgoing_of_lifecycle(msg);
                    outputs.push_device(device_id, outgoing);
                    proof {
                        assert(outputs.dev() =~= old(outputs).dev() + msg_views(
                            msgs.take(i + 1),
                            device_id,
                        ));
                    }
                    i = i + 1;
                }
                proof {
                    assert(msgs.take(msgs.len() as int) =~= msgs);
                }
            },
            None => {},
        }
    }

    /// Sends the lifecycle MIDI of one phase for every effectively-on
    /// mapping of one compartment, in table order.
    fn send_lifecycle_midi_for_all_mappings_in(
        &self,
        compartment: Compartment,
        phase: LifecyclePhase,
        outputs: &mut Outputs,
    )
        ensures
            final(outputs).fx_output == old(outputs).fx_output,
            final(outputs).target_writes == old(outputs).target_writes,
            final(outputs).dev() == match self.settings.midi_destination {
                Some(MidiDestination::Device(d)) => old(outputs).dev() + lifecycle_device_seq(
                    self.spec_table(compartment).entries@,
                    phase,
                    d,
                ),
                _ => old(outputs).dev(),
            },
    {
        let table = match compartment {
            Compartment::Controller => &self.controller_table,
            Compartment::Main => &self.main_table,
        };
        let ghost entries = table.entries@;
        let n = table.entries.len();
        let mut i: usize = 0;
        while i < n
            invariant
                i <= n,
                n == entries.len(),
                table == self.spec_table(compartment),
                table.entries@ == entries,
                outputs.fx_output == old(outputs).fx_output,
                outputs.target_writes == old(outputs).target_writes,
                outputs.dev() == match self.settings.midi_destination {
                    Some(MidiDestination::Device(d)) => old(outputs).dev() + lifecycle_device_seq(
                        entries.take(i as int),
                        phase,
                        d,
                    ),
                    _ => old(outputs).dev(),
                },
            decreases n - i,
        {
            let m = &table.entries[i];
            if m.feedback_is_effectively_on() {
                self.send_lifecycle_midi_to_feedback_output_from_audio_hook(m, phase, outputs);
            }
            proof {
                assert(entries.take(i + 1).drop_last() =~= entries.take(i as int));
                assert(entries.take(i + 1).last() == entries[i as int]);
                match self.settings.midi_destination {
                    Some(MidiDestination::Device(d)) => {
                        assert(outputs.dev() =~= old(outputs).dev() + lifecycle_device_seq(
                            entries.take(i + 1),
                            phase,
                            d,
                        ));
                    },
                    _ => {},
                }
            }
            i = i + 1;
        }
        proof {
            assert(entries.take(n as int) =~= entries);
        }
    }

    /// Sends the lifecycle MIDI of one phase for every effectively-on
    /// mapping of both compartments, controller mappings first.
    fn send_lifecycle_midi_for_all_mappings(&self, phase: LifecyclePhase, outputs: &mut Outputs)
        ensures
            final(outputs).fx_output == old(outputs).fx_output,
            final(outputs).target_writes == old(outputs).target_writes,
            final(outputs).dev() == match self.settings.midi_destination {
                Some(MidiDestination::Device(d)) => old(outputs).dev() + lifecycle_device_seq(
                    self.controller_table.entries@,
                    phase,
                    d,
                ) + lifecycle_device_seq(self.main_table.entries@, phase, d),
                _ => old(outputs).dev(),
            },
    {
        self.send_lifecycle_midi_for_all_mappings_in(Compartment::Controller, phase, outputs);
        self.send_lifecycle_midi_for_all_mappings_in(Compartment::Main, phase, outputs);
    }

    /// Replaces one compartment's whole mapping set.
    ///
    /// While feedback is effectively on, the engine first sends the
    /// deactivation MIDI of every previously-on mapping of the compartment
    /// exactly once, then replaces the table, then sends the activation
    /// MIDI of every newly-on mapping exactly once — never interleaved, so
    /// no duplicate device state writes occur. The replaced mappings go to
    /// the disposal queue instead of being freed here.
    pub fn update_all_mappings(
        &mut self,
        compartment: Compartment,
        mappings: Vec<RealTimeMapping>,
        outputs: &mut Outputs,
    )
        requires
            old(self).wf(),
        ensures
            final(self).wf(),
            final(self).settings == old(self).settings,
            final(self).control_mode == old(self).control_mode,
            final(self).control_is_globally_enabled == old(self).control_is_globally_enabled,
            final(self).feedback_is_globally_enabled == old(self).feedback_is_globally_enabled,
            final(self).midi_clock_calculator == old(self).midi_clock_calculator,
            compartment is Controller ==> final(self).main_table == old(self).main_table,
            compartment is Main ==> final(self).controller_table == old(self).controller_table,
            crate::table::ids_unique(mappings@) ==> final(self).spec_table(
                compartment,
            ).entries@ == mappings@,
            final(outputs).fx_output == old(outputs).fx_output,
            final(outputs).target_writes == old(outputs).target_writes,
            final(outputs).dev() == match old(self).settings.midi_destination {
                Some(MidiDestination::Device(d)) => {
                    if old(self).feedback_is_globally_enabled {
                        old(outputs).dev() + lifecycle_device_seq(
                            old(self).spec_table(compartment).entries@,
                            LifecyclePhase::Deactivation,
                            d,
                        ) + lifecycle_device_seq(
                            final(self).spec_table(compartment).entries@,
                            LifecyclePhase::Activation,
                            d,
                        )
                    } else {
                        old(outputs).dev()
                    }
                },
                _ => old(outputs).dev(),
            },
    {
        if self.processor_feedback_is_effectively_on() {
            self.send_lifecycle_midi_for_all_mappings_in(
                compartment,
                LifecyclePhase::Deactivation,
                outputs,
            );
        }
        let old_entries = match compartment {
            Compartment::Controller => self.controller_table.replace_all(mappings),
            Compartment::Main => self.main_table.replace_all(mappings),
        };
        self.garbage_bin.dispose(Garbage::RealTimeMappings(old_entries));
        if self.processor_feedback_is_effectively_on() {
            self.send_lifecycle_midi_for_all_mappings_in(
                compartment,
                LifecyclePhase::Activation,
                outputs,
            );
        }
    }

    /// Sends the lifecycle MIDI that a mapping's transition demands: its
    /// activation list when it is on now, its deactivation list when it
    /// was on before and is off now.
    fn send_lifecycle_midi_diff(
        &self,
        m: &RealTimeMapping,
        was_on_before: bool,
        is_on_now: bool,
        outputs: &mut Outputs,
    )
        ensures
            final(outputs).fx_output == old(outputs).fx_output,
            final(outputs).target_writes == old(outputs).target_writes,
            final(outputs).dev() == match self.settings.midi_destination {
                Some(MidiDestination::Device(d)) => {
                    if is_on_now {
                        old(outputs).dev() + msg_views(
                            msgs_of_phase(*m, LifecyclePhase::Activation),
                            d,
                        )
                    } else if was_on_before {
                        old(outputs).dev() + msg_views(
                            msgs_of_phase(*m, LifecyclePhase::Deactivation),
                            d,
                        )
                    } else {
                        old(outputs).dev()
                    }
                },
                _ => old(outputs).dev(),
            },
    {
        if is_on_now {
            self.send_lifecycle_midi_to_feedback_output_from_audio_hook(
                m,
                LifecyclePhase::Activation,
                outputs,
            );
        } else if was_on_before {
            self.send_lifecycle_midi_to_feedback_output_from_audio_hook(
                m,
                LifecyclePhase::Deactivation,
                outputs,
            );
        }
    }

    /// Replaces or adds a single mapping, sending the lifecycle MIDI its
    /// transition demands and routing a replaced entry to disposal.
    pub fn update_single_mapping(
        &mut self,
        compartment: Compartment,
        mapping: Box<RealTimeMapping>,
        outputs: &mut Outputs,
    )
        requires
            old(self).wf(),
        ensures
            final(self).wf(),
            final(self).settings == old(self).settings,
            final(self).control_mode == old(self).control_mode,
            final(self).midi_clock_calculator == old(self).midi_clock_calculator,
            compartment is Controller ==> final(self).main_table == old(self).main_table,
            compartment is Main ==> final(self).controller_table == old(self).controller_table,
            final(self).spec_table(compartment).spec_contains_id((*mapping).spec_id()),
            // The stored entry is the given mapping: replaced in place when
            // the id was taken (keeping its position), appended otherwise;
            // no other entry moves or changes.
            ({
                let pre = old(self).spec_table(compartment).entries@;
                let post = final(self).spec_table(compartment).entries@;
                if spec_contains_mapping_id(pre, (*mapping).spec_id()) {
                    post.len() == pre.len() && forall|j: int|
                        0 <= j < pre.len() ==> #[trigger] post[j] == (
                        if pre[j].spec_id() == (*mapping).spec_id() {
                            *mapping
                        } else {
                            pre[j]
                        })
                } else {
                    post == pre.push(*mapping)
                }
            }),
            final(outputs).fx_output == old(outputs).fx_output,
            final(outputs).target_writes == old(outputs).target_writes,
            final(outputs).dev() == match old(self).settings.midi_destination {
                Some(MidiDestination::Device(d)) => {
                    if old(self).feedback_is_globally_enabled {
                        if (*mapping).spec_feedback_is_effectively_on() {
                            old(outputs).dev() + msg_views(
                                msgs_of_phase(*mapping, LifecyclePhase::Activation),
                                d,
                            )
                        } else if spec_table_entry_on(
                            old(self).spec_table(compartment),
                            (*mapping).spec_id(),
                        ) {
                            old(outputs).dev() + msg_views(
                                msgs_of_phase(*mapping, LifecyclePhase::Deactivation),
                                d,
                            )
                        } else {
                            old(outputs).dev()
                        }
                    } else {
                        old(outputs).dev()
                    }
                },
                _ => old(outputs).dev(),
            },
    {
        let m = *mapping;
        // Send lifecycle MIDI for the transition.
        if self.processor_feedback_is_effectively_on() {
            let table = match compartment {
                Compartment::Controller => &self.controller_table,
                Compartment::Main => &self.main_table,
            };
            let was_on_before = match table.get(m.id()) {
                Some(existing) => existing.feedback_is_effectively_on(),
                None => false,
            };
            proof {
                // With unique ids, the found entry decides the question for
                // the whole table.
                if was_on_before {
                    assert(spec_table_entry_on(*table, m.spec_id()));
                } else if spec_table_entry_on(*table, m.spec_id()) {
                    let i = choose|i: int|
                        0 <= i < table.entries@.len() && (
                        #[trigger] table.entries@[i]).spec_id() == m.spec_id()
                            && table.entries@[i].spec_feedback_is_effectively_on();
                    assert(table.spec_contains_id(m.spec_id()));
                    assert(false);
                }
            }
            let is_on_now = m.feedback_is_effectively_on();
            self.send_lifecycle_midi_diff(&m, was_on_before, is_on_now, outputs);
        }
        // Update.
        let ghost pre = self.spec_table(compartment).entries@;
        let replaced = match compartment {
            Compartment::Controller => self.controller_table.insert(m),
            Compartment::Main => self.main_table.insert(m),
        };
        proof {
            let post = self.spec_table(compartment).entries@;
            match &replaced {
                Some(old_m) => {
                    let i = choose|i: int|
                        0 <= i < pre.len() && *old_m == pre[i] && post == pre.update(i, m);
                    assert(spec_contains_mapping_id(pre, m.spec_id()));
                    // With unique ids, only the replaced slot carried the id.
                    assert forall|j: int| 0 <= j < pre.len() implies #[trigger] post[j] == (
                    if pre[j].spec_id() == m.spec_id() {
                        m
                    } else {
                        pre[j]
                    }) by {
                        if j != i {
                            assert(pre[j].spec_id() != pre[i].spec_id());
                        }
                    }
                },
                None => {
                    if spec_contains_mapping_id(pre, m.spec_id()) {
                        let i = choose|i: int|
                            0 <= i < pre.len() && (#[trigger] pre[i]).spec_id() == m.spec_id();
                        assert(old(self).spec_table(compartment).spec_contains_id(m.spec_id()));
                        assert(false);
                    }
                },
            }
        }
        if let Some(old_mapping) = replaced {
            self.garbage_bin.dispose_real_time_mapping(old_mapping);
        }
    }

    /// Replaces the persistent part of one mapping's state, sending the
    /// lifecycle MIDI its transition demands.
    pub fn update_persistent_mapping_processing_state(
        &mut self,
        id: crate::mapping::QualifiedMappingId,
        state: crate::mapping::PersistentMappingProcessingState,
        outputs: &mut Outputs,
    )
        requires
            old(self).wf(),
        ensures
            final(self).wf(),
            final(self).settings == old(self).settings,
            final(self).control_mode == old(self).control_mode,
            final(self).midi_clock_calculator == old(self).midi_clock_calculator,
            final(outputs).fx_output == old(outputs).fx_output,
            final(outputs).target_writes == old(outputs).target_writes,
            id.compartment is Controller ==> final(self).main_table == old(self).main_table,
            id.compartment is Main ==> final(self).controller_table == old(self).controller_table,
            final(self).spec_table(id.compartment).entries@.len() == old(self).spec_table(
                id.compartment,
            ).entries@.len(),
            forall|j: int|
                0 <= j < old(self).spec_table(id.compartment).entries@.len()
                    ==> #[trigger] final(self).spec_table(id.compartment).entries@[j] == (
                if old(self).spec_table(id.compartment).entries@[j].spec_id() == id.id {
                    RealTimeMapping {
                        persistent_state: state,
                        ..old(self).spec_table(id.compartment).entries@[j]
                    }
                } else {
                    old(self).spec_table(id.compartment).entries@[j]
                }),
    {
        let found = match id.compartment {
            Compartment::Controller => self.controller_table.find_index(id.id),
            Compartment::Main => self.main_table.find_index(id.id),
        };
        let (was_on_before, is_on_now) = match found {
            Some(i) => {
                match id.compartment {
                    Compartment::Controller => {
                        let m = &mut self.controller_table.entries[i];
                        let was_on = m.feedback_is_effectively_on();
                        m.update_persistent_processing_state(state);
                        (was_on, m.feedback_is_effectively_on())
                    },
                    Compartment::Main => {
                        let m = &mut self.main_table.entries[i];
                        let was_on = m.feedback_is_effectively_on();
                        m.update_persistent_processing_state(state);
                        (was_on, m.feedback_is_effectively_on())
                    },
                }
            },
            None => (false, false),
        };
        proof {
            let pre = old(self).spec_table(id.compartment).entries@;
            let post = self.spec_table(id.compartment).entries@;
            match found {
                Some(i) => {
                    assert forall|j: int| 0 <= j < pre.len() implies #[trigger] post[j] == (
                    if pre[j].spec_id() == id.id {
                        RealTimeMapping { persistent_state: state, ..pre[j] }
                    } else {
                        pre[j]
                    }) by {
                        if j != i {
                            // Ids are unique, so only the found entry
                            // carries the requested id.
                            assert(pre[j].spec_id() != pre[i as int].spec_id());
                            assert(post[j] == pre[j]);
                        }
                    }
                },
                None => {
                    assert forall|j: int| 0 <= j < pre.len() implies (#[trigger] pre[j]).spec_id()
                        != id.id by {
                        if pre[j].spec_id() == id.id {
                            assert(old(self).spec_table(id.compartment).spec_contains_id(id.id));
                        }
                    }
                },
            }
        }
        if self.processor_feedback_is_effectively_on() {
            if let Some(i) = found {
                let table = match id.compartment {
                    Compartment::Controller => &self.controller_table,
                    Compartment::Main => &self.main_table,
                };
                let m = &table.entries[i];
                self.send_lifecycle_midi_diff(m, was_on_before, is_on_now, outputs);
            }
        }
    }

    /// Replaces the settings snapshot. A change of the feedback
    /// destination specifically re-runs full lifecycle deactivation and
    /// activation, so that the new destination's device state becomes
    /// consistent.
    pub fn update_settings(&mut self, settings: BasicSettings, outputs: &mut Outputs)
        requires
            old(self).wf(),
        ensures
            final(self).wf(),
            final(self).settings == settings,
            final(self).control_mode == old(self).control_mode,
            final(self).midi_clock_calculator == old(self).midi_clock_calculator,
            final(self).controller_table == old(self).controller_table,
            final(self).main_table == old(self).main_table,
            final(outputs).fx_output == old(outputs).fx_output,
            final(outputs).target_writes == old(outputs).target_writes,
            final(outputs).dev() == match settings.midi_destination {
                Some(MidiDestination::Device(d)) => {
                    if old(self).feedback_is_globally_enabled && settings.midi_destination != old(
                        self,
                    ).settings.midi_destination {
                        old(outputs).dev() + lifecycle_device_seq(
                            old(self).controller_table.entries@,
                            LifecyclePhase::Deactivation,
                            d,
                        ) + lifecycle_device_seq(
                            old(self).main_table.entries@,
                            LifecyclePhase::Deactivation,
                            d,
                        ) + lifecycle_device_seq(
                            old(self).controller_table.entries@,
                            LifecyclePhase::Activation,
                            d,
                        ) + lifecycle_device_seq(
                            old(self).main_table.entries@,
                            LifecyclePhase::Activation,
                            d,
                        )
                    } else {
                        old(outputs).dev()
                    }
                },
                _ => old(outputs).dev(),
            },
    {
        let prev_midi_destination = self.settings.midi_destination;
        let next_midi_destination = settings.midi_destination;
        self.settings = settings;
        let midi_destination_changing = !destinations_equal(
            prev_midi_destination,
            next_midi_destination,
        );
        if self.processor_feedback_is_effectively_on() && midi_destination_changing {
            self.send_lifecycle_midi_for_all_mappings(LifecyclePhase::Deactivation, outputs);
        }
        if self.processor_feedback_is_effectively_on() && midi_destination_changing {
            self.send_lifecycle_midi_for_all_mappings(LifecyclePhase::Activation, outputs);
        }
    }

    /// Applies partial target updates to one compartment: swaps resolved
    /// targets and flips target-activation flags, then sends the
    /// lifecycle MIDI that each activation change demands.
    pub fn update_targets_partially(
        &mut self,
        compartment: Compartment,
        target_updates: Vec<crate::mapping::RealTimeTargetUpdate>,
        outputs: &mut Outputs,
    )
        requires
            old(self).wf(),
        ensures
            final(self).wf(),
            final(self).settings == old(self).settings,
            final(self).control_mode == old(self).control_mode,
            final(self).midi_clock_calculator == old(self).midi_clock_calculator,
            compartment is Controller ==> final(self).main_table == old(self).main_table,
            compartment is Main ==> final(self).controller_table == old(self).controller_table,
            final(self).spec_table(compartment).entries@ == apply_target_updates(
                old(self).spec_table(compartment).entries@,
                target_updates@,
            ),
            final(outputs).fx_output == old(outputs).fx_output,
            final(outputs).target_writes == old(outputs).target_writes,
            final(outputs).dev() == match old(self).settings.midi_destination {
                Some(MidiDestination::Device(d)) => {
                    if old(self).feedback_is_globally_enabled {
                        old(outputs).dev() + activation_change_device_seq(
                            final(self).spec_table(compartment).entries@,
                            spec_changes_of(target_updates@),
                            false,
                            d,
                        )
                    } else {
                        old(outputs).dev()
                    }
                },
                _ => old(outputs).dev(),
            },
    {
        let mut updates = target_updates;
        let ghost all = updates@;
        let ghost mut done: int = 0;
        let mut activation_changes: Vec<crate::mapping::RealTimeMappingUpdate> = Vec::new();
        // Apply the updates.
        while updates.len() > 0
            invariant
                0 <= done <= all.len(),
                updates@ == all.skip(done),
                activation_changes@ == spec_changes_of(all.take(done)),
                old(self).wf(),
                self.wf(),
                self.settings == old(self).settings,
                self.control_mode == old(self).control_mode,
                self.midi_clock_calculator == old(self).midi_clock_calculator,
                self.feedback_is_globally_enabled == old(self).feedback_is_globally_enabled,
                compartment is Controller ==> self.main_table == old(self).main_table,
                compartment is Main ==> self.controller_table == old(self).controller_table,
                self.spec_table(compartment).entries@ == apply_target_updates(
                    old(self).spec_table(compartment).entries@,
                    all.take(done),
                ),
                outputs.fx_output == old(outputs).fx_output,
                outputs.device_output == old(outputs).device_output,
                outputs.target_writes == old(outputs).target_writes,
            decreases updates@.len(),
        {
            let ghost pre = self.spec_table(compartment).entries@;
            let update = updates.remove(0);
            proof {
                assert(update == all[done]);
                assert(updates@ =~= all.skip(done + 1));
            }
            activation_changes.push(
                crate::mapping::RealTimeMappingUpdate {
                    id: update.id,
                    activation_change: update.activation_change,
                },
            );
            proof {
                assert(all.take(done + 1).drop_last() =~= all.take(done));
                assert(activation_changes@ =~= spec_changes_of(all.take(done + 1)));
            }
            let found = match compartment {
                Compartment::Controller => self.controller_table.find_index(update.id),
                Compartment::Main => self.main_table.find_index(update.id),
            };
            let ghost u = update;
            if let Some(i) = found {
                match compartment {
                    Compartment::Controller => {
                        let m = &mut self.controller_table.entries[i];
                        m.update_target(update);
                    },
                    Compartment::Main => {
                        let m = &mut self.main_table.entries[i];
                        m.update_target(update);
                    },
                }
                proof {
                    assert(self.spec_table(compartment).wf());
                    // With unique ids, patching the found entry patches
                    // exactly the entries carrying the update's id.
                    assert forall|j: int| 0 <= j < pre.len() implies #[trigger] self.spec_table(
                        compartment,
                    ).entries@[j] == apply_one_target_update(pre, u)[j] by {
                        if j != i {
                            assert(pre[j].spec_id() != pre[i as int].spec_id());
                        }
                    }
                    assert(self.spec_table(compartment).entries@ =~= apply_one_target_update(
                        pre,
                        u,
                    ));
                }
            } else {
                proof {
                    // No entry carries the id: the patch is the identity.
                    assert forall|j: int| 0 <= j < pre.len() implies #[trigger] apply_one_target_update(
                        pre,
                        u,
                    )[j] == pre[j] by {
                        if pre[j].spec_id() == u.id {
                            assert(self.spec_table(compartment).spec_contains_id(u.id));
                        }
                    }
                    assert(self.spec_table(compartment).entries@ =~= apply_one_target_update(
                        pre,
                        u,
                    ));
                }
            }
            proof {
                assert(all.take(done + 1) =~= all.take(done).push(all[done]));
                lemma_apply_target_updates_push(
                    old(self).spec_table(compartment).entries@,
                    all.take(done),
                    all[done],
                );
                done = done + 1;
            }
        }
        proof {
            assert(all.take(all.len() as int) =~= all);
            assert(spec_changes_of(all) == spec_changes_of(target_updates@));
        }
        self.garbage_bin.dispose(Garbage::TargetUpdates(updates));
        // Send the lifecycle MIDI the activation changes demand.
        if self.processor_feedback_is_effectively_on() {
            let ghost entries = self.spec_table(compartment).entries@;
            let ghost changes = activation_changes@;
            let mut i: usize = 0;
            while i < activation_changes.len()
                invariant
                    i <= changes.len(),
                    activation_changes@ == changes,
                    old(self).wf(),
                    self.wf(),
                    self.settings == old(self).settings,
                    self.control_mode == old(self).control_mode,
                    self.midi_clock_calculator == old(self).midi_clock_calculator,
                    self.feedback_is_globally_enabled == old(self).feedback_is_globally_enabled,
                    compartment is Controller ==> self.main_table == old(self).main_table,
                    compartment is Main ==> self.controller_table == old(self).controller_table,
                    self.spec_table(compartment).entries@ == entries,
                    outputs.fx_output == old(outputs).fx_output,
                    outputs.target_writes == old(outputs).target_writes,
                    outputs.dev() == match old(self).settings.midi_destination {
                        Some(MidiDestination::Device(d)) => old(outputs).dev()
                            + activation_change_device_seq(entries, changes.take(i as int), false, d),
                        _ => old(outputs).dev(),
                    },
                decreases changes.len() - i,
            {
                let update = &activation_changes[i];
                if let Some(change) = update.activation_change {
                    let table = match compartment {
                        Compartment::Controller => &self.controller_table,
                        Compartment::Main => &self.main_table,
                    };
                    let found = table.get(update.id);
                    if let Some(m) = found {
                        proof {
                            // The entry the lookup found is the entry the
                            // emission plan names: ids are unique.
                            let k = choose|k: int|
                                0 <= k < entries.len() && (#[trigger] entries[k]).spec_id()
                                    == update.id;
                            let j = choose|j: int|
                                0 <= j < entries.len() && *m == #[trigger] entries[j];
                            if j != k {
                                assert(entries[j].spec_id() != entries[k].spec_id());
                            }
                            assert(*m == spec_entry_with_id(entries, update.id));
                        }
                        if m.feedback_is_effectively_on_ignoring_target_activation() {
                            self.send_lifecycle_midi_to_feedback_output_from_audio_hook(
                                m,
                                LifecyclePhase::from_is_active(change.is_active),
                                outputs,
                            );
                        }
                    }
                }
                proof {
                    assert(changes.take(i + 1).drop_last() =~= changes.take(i as int));
                    assert(changes.take(i + 1).last() == changes[i as int]);
                    match old(self).settings.midi_destination {
                        Some(MidiDestination::Device(d)) => {
                            assert(outputs.dev() =~= old(outputs).dev()
                                + activation_change_device_seq(
                                entries,
                                changes.take(i + 1),
                                false,
                                d,
                            ));
                        },
                        _ => {},
                    }
                }
                i = i + 1;
            }
            proof {
                assert(changes.take(changes.len() as int) =~= changes);
            }
        }
    }

    /// Applies partial mapping-activation updates to one compartment, then
    /// sends the lifecycle MIDI that each change demands.
    pub fn update_mappings_partially(
        &mut self,
        compartment: Compartment,
        mapping_updates: Vec<crate::mapping::RealTimeMappingUpdate>,
        outputs: &mut Outputs,
    )
        requires
            old(self).wf(),
        ensures
            final(self).wf(),
            final(self).settings == old(self).settings,
            final(self).control_mode == old(self).control_mode,
            final(self).midi_clock_calculator == old(self).midi_clock_calculator,
            compartment is Controller ==> final(self).main_table == old(self).main_table,
            compartment is Main ==> final(self).controller_table == old(self).controller_table,
            final(self).spec_table(compartment).entries@ == apply_mapping_updates(
                old(self).spec_table(compartment).entries@,
                mapping_updates@,
            ),
            final(outputs).fx_output == old(outputs).fx_output,
            final(outputs).target_writes == old(outputs).target_writes,
            final(outputs).dev() == match old(self).settings.midi_destination {
                Some(MidiDestination::Device(d)) => {
                    if old(self).feedback_is_globally_enabled {
                        old(outputs).dev() + activation_change_device_seq(
                            final(self).spec_table(compartment).entries@,
                            mapping_updates@,
                            true,
                            d,
                        )
                    } else {
                        old(outputs).dev()
                    }
                },
                _ => old(outputs).dev(),
            },
    {
        let ghost all = mapping_updates@;
        // Apply the updates.
        let mut i: usize = 0;
        while i < mapping_updates.len()
            invariant
                i <= all.len(),
                mapping_updates@ == all,
                old(self).wf(),
                self.wf(),
                self.settings == old(self).settings,
                self.control_mode == old(self).control_mode,
                self.midi_clock_calculator == old(self).midi_clock_calculator,
                self.feedback_is_globally_enabled == old(self).feedback_is_globally_enabled,
                compartment is Controller ==> self.main_table == old(self).main_table,
                compartment is Main ==> self.controller_table == old(self).controller_table,
                self.spec_table(compartment).entries@ == apply_mapping_updates(
                    old(self).spec_table(compartment).entries@,
                    all.take(i as int),
                ),
                outputs.fx_output == old(outputs).fx_output,
                outputs.device_output == old(outputs).device_output,
                outputs.target_writes == old(outputs).target_writes,
            decreases all.len() - i,
        {
            let ghost pre = self.spec_table(compartment).entries@;
            let update = &mapping_updates[i];
            let ghost u = *update;
            let found = match compartment {
                Compartment::Controller => self.controller_table.find_index(update.id),
                Compartment::Main => self.main_table.find_index(update.id),
            };
            if let Some(j) = found {
                match compartment {
                    Compartment::Controller => {
                        let m = &mut self.controller_table.entries[j];
                        m.update(update);
                    },
                    Compartment::Main => {
                        let m = &mut self.main_table.entries[j];
                        m.update(update);
                    },
                }
                proof {
                    assert(self.spec_table(compartment).wf());
                    // With unique ids, patching the found entry patches
                    // exactly the entries carrying the update's id.
                    assert forall|k: int| 0 <= k < pre.len() implies #[trigger] self.spec_table(
                        compartment,
                    ).entries@[k] == apply_one_mapping_update(pre, u)[k] by {
                        if k != j {
                            assert(pre[k].spec_id() != pre[j as int].spec_id());
                        }
                    }
                    assert(self.spec_table(compartment).entries@ =~= apply_one_mapping_update(
                        pre,
                        u,
                    ));
                }
            } else {
                proof {
                    // No entry carries the id: the patch is the identity.
                    assert forall|k: int| 0 <= k < pre.len() implies #[trigger] apply_one_mapping_update(
                        pre,
                        u,
                    )[k] == pre[k] by {
                        if pre[k].spec_id() == u.id {
                            assert(self.spec_table(compartment).spec_contains_id(u.id));
                        }
                    }
                    assert(self.spec_table(compartment).entries@ =~= apply_one_mapping_update(
                        pre,
                        u,
                    ));
                }
            }
            proof {
                assert(all.take(i + 1) =~= all.take(i as int).push(all[i as int]));
                lemma_apply_mapping_updates_push(
                    old(self).spec_table(compartment).entries@,
                    all.take(i as int),
                    all[i as int],
                );
            }
            i = i + 1;
        }
        proof {
            assert(all.take(all.len() as int) =~= all);
        }
        // Send the lifecycle MIDI the activation changes demand.
        if self.processor_feedback_is_effectively_on() {
            let ghost entries = self.spec_table(compartment).entries@;
            let mut i: usize = 0;
            while i < mapping_updates.len()
                invariant
                    i <= all.len(),
                    mapping_updates@ == all,
                    old(self).wf(),
                    self.wf(),
                    self.settings == old(self).settings,
                    self.control_mode == old(self).control_mode,
                    self.midi_clock_calculator == old(self).midi_clock_calculator,
                    self.feedback_is_globally_enabled == old(self).feedback_is_globally_enabled,
                    compartment is Controller ==> self.main_table == old(self).main_table,
                    compartment is Main ==> self.controller_table == old(self).controller_table,
                    self.spec_table(compartment).entries@ == entries,
                    outputs.fx_output == old(outputs).fx_output,
                    outputs.target_writes == old(outputs).target_writes,
                    outputs.dev() == match old(self).settings.midi_destination {
                        Some(MidiDestination::Device(d)) => old(outputs).dev()
                            + activation_change_device_seq(entries, all.take(i as int), true, d),
                        _ => old(outputs).dev(),
                    },
                decreases all.len() - i,
            {
                let update = &mapping_updates[i];
                if let Some(change) = update.activation_change {
                    let table = match compartment {
                        Compartment::Controller => &self.controller_table,
                        Compartment::Main => &self.main_table,
                    };
                    let found = table.get(update.id);
                    if let Some(m) = found {
                        proof {
                            // The entry the lookup found is the entry the
                            // emission plan names: ids are unique.
                            let k = choose|k: int|
                                0 <= k < entries.len() && (#[trigger] entries[k]).spec_id()
                                    == update.id;
                            let j = choose|j: int|
                                0 <= j < entries.len() && *m == #[trigger] entries[j];
                            if j != k {
                                assert(entries[j].spec_id() != entries[k].spec_id());
                            }
                            assert(*m == spec_entry_with_id(entries, update.id));
                        }
                        if m.feedback_is_effectively_on_ignoring_mapping_activation() {
                            self.send_lifecycle_midi_to_feedback_output_from_audio_hook(
                                m,
                                LifecyclePhase::from_is_active(change.is_active),
                                outputs,
                            );
                        }
                    }
                }
                proof {
                    assert(all.take(i + 1).drop_last() =~= all.take(i as int));
                    assert(all.take(i + 1).last() == all[i as int]);
                    match old(self).settings.midi_destination {
                        Some(MidiDestination::Device(d)) => {
                            assert(outputs.dev() =~= old(outputs).dev()
                                + activation_change_device_seq(entries, all.take(i + 1), true, d));
                        },
                        _ => {},
                    }
                }
                i = i + 1;
            }
            proof {
                assert(all.take(all.len() as int) =~= all);
            }
        }
        self.garbage_bin.dispose(Garbage::MappingUpdates(mapping_updates));
    }

    /// Replaces the sample rate used for tempo derivation.
    pub fn update_sample_rate(&mut self, sample_rate_hz: u32)
        requires
            old(self).wf(),
        ensures
            final(self).wf(),
            final(self).sample_rate_hz == sample_rate_hz,
            final(self).midi_clock_calculator.spec_sample_rate_hz() == sample_rate_hz,
            final(self).midi_clock_calculator.spec_sample_count() == old(
                self,
            ).midi_clock_calculator.spec_sample_count(),
            final(self).midi_clock_calculator.spec_previous_tick() == old(
                self,
            ).midi_clock_calculator.spec_previous_tick(),
            final(self).settings == old(self).settings,
            final(self).control_mode == old(self).control_mode,
            final(self).controller_table == old(self).controller_table,
            final(self).main_table == old(self).main_table,
    {
        self.sample_rate_hz = sample_rate_hz;
        self.midi_clock_calculator.update_sample_rate(sample_rate_hz);
    }

    /// Enters learn mode: resets the capture scanner and discards
    /// in-flight partial composite-decoder state, so that nothing stale
    /// leaks across modes.
    pub fn start_learn_source(&mut self, allow_virtual_sources: bool)
        requires
            old(self).wf(),
        ensures
            final(self).wf(),
            final(self).control_mode == (ControlMode::LearningSource { allow_virtual_sources }),
            final(self).midi_scanner.spec_pending_cc() is None,
            final(self).midi_scanner.spec_sysex_buffer().len() == 0,
            forall|i: int|
                0 <= i < 16 ==> final(self).nrpn_scanner.channel_states()[i]
                    == crate::nrpn::NrpnChannelState::spec_empty(),
            forall|i: int|
                0 <= i < 16 ==> final(self).cc_14_bit_scanner.channel_states()[i]
                    == crate::cc14::Cc14ChannelState::spec_empty(),
            final(self).settings == old(self).settings,
            final(self).midi_clock_calculator == old(self).midi_clock_calculator,
            final(self).controller_table == old(self).controller_table,
            final(self).main_table == old(self).main_table,
    {
        self.control_mode = ControlMode::LearningSource { allow_virtual_sources };
        self.midi_scanner.reset();
        // Leaving control mode discards in-flight partial (N)RPN and
        // 14-bit state; a stale half sequence must not complete after
        // learning ends.
        self.nrpn_scanner.reset();
        self.cc_14_bit_scanner.reset();
    }

    /// Disables control while learning is active across instances,
    /// discarding in-flight partial composite-decoder state.
    pub fn disable_control(&mut self)
        requires
            old(self).wf(),
        ensures
            final(self).wf(),
            final(self).control_mode == ControlMode::Disabled,
            forall|i: int|
                0 <= i < 16 ==> final(self).nrpn_scanner.channel_states()[i]
                    == crate::nrpn::NrpnChannelState::spec_empty(),
            forall|i: int|
                0 <= i < 16 ==> final(self).cc_14_bit_scanner.channel_states()[i]
                    == crate::cc14::Cc14ChannelState::spec_empty(),
            final(self).settings == old(self).settings,
            final(self).midi_clock_calculator == old(self).midi_clock_calculator,
            final(self).controller_table == old(self).controller_table,
            final(self).main_table == old(self).main_table,
    {
        self.control_mode = ControlMode::Disabled;
        self.nrpn_scanner.reset();
        self.cc_14_bit_scanner.reset();
    }

    /// Returns to control mode, discarding in-flight composite decoding so
    /// that no stale partial state leaks across modes.
    pub fn return_to_control_mode(&mut self)
        requires
            old(self).wf(),
        ensures
            final(self).wf(),
            final(self).control_mode == ControlMode::Controlling,
            final(self).midi_clock_calculator == old(self).midi_clock_calculator,
            forall|i: int|
                0 <= i < 16 ==> final(self).nrpn_scanner.channel_states()[i]
                    == crate::nrpn::NrpnChannelState::spec_empty(),
            forall|i: int|
                0 <= i < 16 ==> final(self).cc_14_bit_scanner.channel_states()[i]
                    == crate::cc14::Cc14ChannelState::spec_empty(),
            final(self).settings == old(self).settings,
            final(self).controller_table == old(self).controller_table,
            final(self).main_table == old(self).main_table,
    {
        self.control_mode = ControlMode::Controlling;
        self.nrpn_scanner.reset();
        self.cc_14_bit_scanner.reset();
    }

    /// Flips the global control switch.
    pub fn set_control_is_globally_enabled(&mut self, is_enabled: bool)
        requires
            old(self).wf(),
        ensures
            final(self).wf(),
            final(self).control_is_globally_enabled == is_enabled,
            final(self).midi_clock_calculator == old(self).midi_clock_calculator,
            final(self).settings == old(self).settings,
            final(self).control_mode == old(self).control_mode,
            final(self).controller_table == old(self).controller_table,
            final(self).main_table == old(self).main_table,
    {
        self.control_is_globally_enabled = is_enabled;
    }

    /// Flips the global feedback switch, sending the full lifecycle MIDI
    /// of the new state when a destination is configured and the state
    /// actually changes.
    pub fn set_feedback_is_globally_enabled(&mut self, is_enabled: bool, outputs: &mut Outputs)
        requires
            old(self).wf(),
        ensures
            final(self).wf(),
            final(self).feedback_is_globally_enabled == is_enabled,
            final(self).midi_clock_calculator == old(self).midi_clock_calculator,
            final(self).settings == old(self).settings,
            final(self).control_mode == old(self).control_mode,
            final(self).controller_table == old(self).controller_table,
            final(self).main_table == old(self).main_table,
            final(outputs).fx_output == old(outputs).fx_output,
            final(outputs).target_writes == old(outputs).target_writes,
            final(outputs).dev() == match old(self).settings.midi_destination {
                Some(MidiDestination::Device(d)) => {
                    if is_enabled != old(self).feedback_is_globally_enabled {
                        old(outputs).dev() + lifecycle_device_seq(
                            old(self).controller_table.entries@,
                            if is_enabled {
                                LifecyclePhase::Activation
                            } else {
                                LifecyclePhase::Deactivation
                            },
                            d,
                        ) + lifecycle_device_seq(
                            old(self).main_table.entries@,
                            if is_enabled {
                                LifecyclePhase::Activation
                            } else {
                                LifecyclePhase::Deactivation
                            },
                            d,
                        )
                    } else {
                        old(outputs).dev()
                    }
                },
                _ => old(outputs).dev(),
            },
    {
        if self.settings.midi_destination.is_some() && is_enabled
            != self.feedback_is_globally_enabled {
            self.send_lifecycle_midi_for_all_mappings(
                LifecyclePhase::from_is_active(is_enabled),
                outputs,
            );
        }
        self.feedback_is_globally_enabled = is_enabled;
    }
}

/// Whether two optional destinations are the same.
fn destinations_equal(a: Option<MidiDestination>, b: Option<MidiDestination>) -> (r: bool)
    ensures
        r == (a == b),
{
    match (a, b) {
        (None, None) => true,
        (Some(x), Some(y)) => x == y,
        _ => false,
    }
}


/// The host-output events that feedback for one source value produces: a
/// plain message as itself, composite messages as their constituent short
/// messages in MSB-first convention, raw data as one buffer, and tempo as
/// nothing.
pub open spec fn feedback_fx_views(v: MidiSourceValue) -> Seq<(SampleOffset, MidiPayloadView)> {
    let zero = SampleOffset { value: 0 };
    match v {
        MidiSourceValue::Plain(m) => seq![(zero, MidiPayloadView::Short(m))],
        MidiSourceValue::ParameterNumber(m) => {
            let number_msb_cc: u8 = if m.is_registered { 101 } else { 99 };
            let number_lsb_cc: u8 = if m.is_registered { 100 } else { 98 };
            let head = seq![
                (
                    zero,
                    MidiPayloadView::Short(
                        ShortMsg::spec_cc(m.channel, number_msb_cc, (m.number / 128) as u8),
                    ),
                ),
                (
                    zero,
                    MidiPayloadView::Short(
                        ShortMsg::spec_cc(m.channel, number_lsb_cc, (m.number % 128) as u8),
                    ),
                ),
            ];
            if m.is_14_bit {
                head + seq![
                    (
                        zero,
                        MidiPayloadView::Short(
                            ShortMsg::spec_cc(m.channel, 6, (m.value / 128) as u8),
                        ),
                    ),
                    (
                        zero,
                        MidiPayloadView::Short(
                            ShortMsg::spec_cc(m.channel, 38, (m.value % 128) as u8),
                        ),
                    ),
                ]
            } else {
                head + seq![
                    (zero, MidiPayloadView::Short(ShortMsg::spec_cc(m.channel, 6, m.value as u8))),
                ]
            }
        },
        MidiSourceValue::ControlChange14Bit(m) => seq![
            (
                zero,
                MidiPayloadView::Short(
                    ShortMsg::spec_cc(m.channel, m.msb_controller, (m.value / 128) as u8),
                ),
            ),
            (
                zero,
                MidiPayloadView::Short(
                    ShortMsg::spec_cc(
                        m.channel,
                        (m.msb_controller + 32) as u8,
                        (m.value % 128) as u8,
                    ),
                ),
            ),
        ],
        MidiSourceValue::Tempo { .. } => Seq::empty(),
        MidiSourceValue::SysEx(b) => seq![(zero, MidiPayloadView::Raw(b@))],
    }
}

/// Whether a source value passes the run-time bounds check before feedback
/// conversion.
pub open spec fn feedback_value_wf(v: MidiSourceValue) -> bool {
    match v {
        MidiSourceValue::ParameterNumber(m) => m.wf(),
        MidiSourceValue::ControlChange14Bit(m) => m.wf(),
        _ => true,
    }
}

/// The host-output views of a lifecycle message list, at block offset zero.
pub open spec fn lifecycle_fx_views(msgs: Seq<LifecycleMidiMessage>) -> Seq<
    (SampleOffset, MidiPayloadView),
> {
    msgs.map_values(|m: LifecycleMidiMessage| (SampleOffset { value: 0 }, lifecycle_view(m)))
}

impl RealTimeProcessor {
    /// Renders feedback for one source value to the host output. Only the
    /// processing callback can reach the host output; from the audio hook
    /// this is a no-op. A malformed value is rejected at this boundary and
    /// produces nothing.
    pub fn send_midi_feedback(&self, value: &MidiSourceValue, caller: Caller, outputs: &mut Outputs)
        ensures
            final(outputs).device_output == old(outputs).device_output,
            final(outputs).target_writes == old(outputs).target_writes,
            final(outputs).fx() == if caller is Vst && feedback_value_wf(*value) {
                old(outputs).fx() + feedback_fx_views(*value)
            } else {
                old(outputs).fx()
            },
            !(caller is Vst) ==> final(outputs).fx_output == old(outputs).fx_output,
    {
        let zero = SampleOffset::zero();
        match value {
            MidiSourceValue::Plain(m) => {
                if caller.is_vst() {
                    outputs.push_fx_short(zero, *m);
                }
                proof {
                    if caller is Vst {
                        assert(outputs.fx() =~= old(outputs).fx() + feedback_fx_views(*value));
                    }
                }
            },
            MidiSourceValue::ParameterNumber(m) => {
                if !m.check_wf() {
                    return;
                }
                if caller.is_vst() {
                    let shorts = m.to_short_messages();
                    let ghost pre = outputs.fx();
                    if m.is_14_bit {
                        outputs.push_fx_short(zero, shorts[0]);
                        outputs.push_fx_short(zero, shorts[1]);
                        outputs.push_fx_short(zero, shorts[2]);
                        outputs.push_fx_short(zero, shorts[3]);
                        proof {
                            assert(outputs.fx() =~= pre + feedback_fx_views(*value));
                        }
                    } else {
                        outputs.push_fx_short(zero, shorts[0]);
                        outputs.push_fx_short(zero, shorts[1]);
                        outputs.push_fx_short(zero, shorts[2]);
                        proof {
                            assert(outputs.fx() =~= pre + feedback_fx_views(*value));
                        }
                    }
                }
            },
            MidiSourceValue::ControlChange14Bit(m) => {
                if !m.check_wf() {
                    return;
                }
                if caller.is_vst() {
                    let shorts = m.to_short_messages();
                    let ghost pre = outputs.fx();
                    outputs.push_fx_short(zero, shorts[0]);
                    outputs.push_fx_short(zero, shorts[1]);
                    proof {
                        assert(outputs.fx() =~= pre + feedback_fx_views(*value));
                    }
                }
            },
            MidiSourceValue::Tempo { .. } => {
                proof {
                    if caller is Vst {
                        assert(outputs.fx() =~= old(outputs).fx() + feedback_fx_views(*value));
                    }
                }
            },
            MidiSourceValue::SysEx(bytes) => {
                if caller.is_vst() {
                    let copy = bytes.clone();
                    proof {
                        assert(copy@ =~= bytes@);
                    }
                    outputs.push_fx_raw(zero, copy);
                    proof {
                        assert(outputs.fx() =~= old(outputs).fx() + feedback_fx_views(*value));
                    }
                }
            },
        }
    }

    /// Processes deferred feedback tasks, a bounded number per block:
    /// feedback and deferred raw events go to the host output, deferred
    /// lifecycle MIDI is looked up in the tables and sent.
    pub fn process_feedback_tasks(&mut self, caller: Caller, outputs: &mut Outputs)
        requires
            old(self).wf(),
        ensures
            final(self).wf(),
            final(self).controller_table == old(self).controller_table,
            final(self).main_table == old(self).main_table,
            final(self).settings == old(self).settings,
            final(self).control_mode == old(self).control_mode,
            final(self).midi_clock_calculator == old(self).midi_clock_calculator,
            final(outputs).device_output == old(outputs).device_output,
            final(outputs).target_writes == old(outputs).target_writes,
            // Only the processing callback may reach the host output; from
            // the audio hook every deferred send stays deferred.
            caller is AudioHook ==> final(outputs).fx_output == old(outputs).fx_output,
    {
        let mut i: usize = 0;
        let mut done = false;
        while i < FEEDBACK_BULK_SIZE && !done
            invariant
                self.wf(),
                self.controller_table == old(self).controller_table,
                self.main_table == old(self).main_table,
                self.settings == old(self).settings,
                self.control_mode == old(self).control_mode,
                self.midi_clock_calculator == old(self).midi_clock_calculator,
                outputs.device_output == old(outputs).device_output,
                outputs.target_writes == old(outputs).target_writes,
                caller is AudioHook ==> outputs.fx_output == old(outputs).fx_output,
            decreases FEEDBACK_BULK_SIZE - i,
        {
            match channel_try_recv(&self.feedback_task_receiver) {
                Some(task) => {
                    match task {
                        FeedbackRealTimeTask::FxOutputFeedback(v) => {
                            // If the feedback driver is not the plug-in
                            // output, this is discarded; no problem.
                            self.send_midi_feedback(&v, caller, outputs);
                        },
                        FeedbackRealTimeTask::SendLifecycleMidi(compartment, mapping_id, phase) => {
                            let table = match compartment {
                                Compartment::Controller => &self.controller_table,
                                Compartment::Main => &self.main_table,
                            };
                            if let Some(m) = table.get(mapping_id) {
                                let messages = m.lifecycle_midi_messages(phase);
                                send_lifecycle_midi_to_fx_output(
                                    &self.normal_main_task_sender,
                                    self.settings.real_output_logging_enabled,
                                    messages,
                                    caller,
                                    outputs,
                                );
                            }
                        },
                        FeedbackRealTimeTask::NonAllocatingFxOutputFeedback(evt) => {
                            if caller.is_vst() {
                                match evt {
                                    OutgoingMidi::Short(sm) => outputs.push_fx_short(
                                        SampleOffset::zero(),
                                        sm,
                                    ),
                                    OutgoingMidi::Raw(bytes) => outputs.push_fx_raw(
                                        SampleOffset::zero(),
                                        bytes,
                                    ),
                                }
                            }
                        },
                    }
                },
                None => {
                    done = true;
                },
            }
            i = i + 1;
        }
    }

    /// Asks the slow path for a full resync; when the request could be
    /// queued, all accumulated tasks are discarded into the disposal
    /// queue, since the slow path will push the complete current state
    /// again.
    pub fn request_full_sync_and_discard_tasks_if_successful(&mut self)
        requires
            old(self).wf(),
        ensures
            final(self).wf(),
            final(self).controller_table == old(self).controller_table,
            final(self).main_table == old(self).main_table,
            final(self).settings == old(self).settings,
            final(self).control_mode == old(self).control_mode,
            final(self).midi_clock_calculator == old(self).midi_clock_calculator,
    {
        let requested = channel_try_send(
            &self.normal_main_task_sender,
            NormalRealTimeToMainThreadTask::FullResyncToRealTimeProcessorPlease,
        );
        if !requested {
            // Probably a small outage related to project load; the request
            // queue is gone or full, so nothing is discarded.
            return;
        }
        let mut i: usize = 0;
        let mut done = false;
        while i < DISCARD_BULK_SIZE && !done
            invariant
                self.wf(),
                self.controller_table == old(self).controller_table,
                self.main_table == old(self).main_table,
                self.settings == old(self).settings,
                self.control_mode == old(self).control_mode,
                self.midi_clock_calculator == old(self).midi_clock_calculator,
            decreases DISCARD_BULK_SIZE - i,
        {
            match channel_try_recv(&self.normal_task_receiver) {
                Some(task) => self.garbage_bin.dispose(Garbage::NormalRealTimeTask(task)),
                None => {
                    done = true;
                },
            }
            i = i + 1;
        }
        let mut i: usize = 0;
        let mut done = false;
        while i < DISCARD_BULK_SIZE && !done
            invariant
                self.wf(),
                self.controller_table == old(self).controller_table,
                self.main_table == old(self).main_table,
                self.settings == old(self).settings,
                self.control_mode == old(self).control_mode,
                self.midi_clock_calculator == old(self).midi_clock_calculator,
            decreases DISCARD_BULK_SIZE - i,
        {
            match channel_try_recv(&self.feedback_task_receiver) {
                Some(task) => self.garbage_bin.dispose(Garbage::FeedbackRealTimeTask(task)),
                None => {
                    done = true;
                },
            }
            i = i + 1;
        }
    }
}

/// The number of entries whose control is effectively on.
pub open spec fn spec_on_count(s: Seq<RealTimeMapping>) -> int
    decreases s.len(),
{
    if s.len() == 0 {
        0
    } else {
        spec_on_count(s.drop_last()) + if s.last().spec_control_is_effectively_on() {
            1int
        } else {
            0int
        }
    }
}

/// Counts the entries whose control is effectively on.
fn count_enabled(table: &MappingTable) -> (r: usize)
    ensures
        r == spec_on_count(table.entries@),
{
    let ghost entries = table.entries@;
    let mut count: usize = 0;
    let n = table.entries.len();
    let mut i: usize = 0;
    while i < n
        invariant
            i <= n,
            n == entries.len(),
            table.entries@ == entries,
            count == spec_on_count(entries.take(i as int)),
            count <= i,
        decreases n - i,
    {
        if table.entries[i].control_is_effectively_on() {
            count = count + 1;
        }
        proof {
            assert(entries.take(i + 1).drop_last() =~= entries.take(i as int));
            assert(entries.take(i + 1).last() == entries[i as int]);
        }
        i = i + 1;
    }
    proof {
        assert(entries.take(n as int) =~= entries);
    }
    count
}

impl RealTimeProcessor {
    /// A snapshot of the engine's state for diagnostics.
    pub fn debug_info(&self) -> (r: crate::channels::DebugInfo)
        requires
            self.wf(),
        ensures
            r.control_mode_is_controlling == (self.control_mode is Controlling),
            r.control_mode_is_learning == (self.control_mode is LearningSource),
            r.main_mapping_count == self.main_table.entries@.len(),
            r.enabled_main_mapping_count == spec_on_count(self.main_table.entries@),
            r.controller_mapping_count == self.controller_table.entries@.len(),
            r.enabled_controller_mapping_count == spec_on_count(self.controller_table.entries@),
            r.sample_count == self.midi_clock_calculator.spec_sample_count(),
    {
        crate::channels::DebugInfo {
            control_mode_is_controlling: matches!(self.control_mode, ControlMode::Controlling),
            control_mode_is_learning: matches!(
                self.control_mode,
                ControlMode::LearningSource { .. }
            ),
            main_mapping_count: self.main_table.len(),
            enabled_main_mapping_count: count_enabled(&self.main_table),
            controller_mapping_count: self.controller_table.len(),
            enabled_controller_mapping_count: count_enabled(&self.controller_table),
            sample_count: self.midi_clock_calculator.current_sample_count(),
        }
    }

    /// A snapshot of one mapping's processing state for diagnostics.
    pub fn mapping_debug_info(&self, compartment: Compartment, id: MappingId) -> (r:
        crate::channels::MappingDebugInfo)
        requires
            self.wf(),
        ensures
            r.compartment == compartment,
            r.id == id,
            r.exists == self.spec_table(compartment).spec_contains_id(id),
            r.exists ==> r.control_is_effectively_on == spec_entry_with_id(
                self.spec_table(compartment).entries@,
                id,
            ).spec_control_is_effectively_on(),
            r.exists ==> r.has_reaper_target == (spec_entry_with_id(
                self.spec_table(compartment).entries@,
                id,
            ).resolved_target matches Some(RealTimeCompoundMappingTarget::Reaper(_))),
    {
        let table = match compartment {
            Compartment::Controller => &self.controller_table,
            Compartment::Main => &self.main_table,
        };
        let (exists, control_is_effectively_on, has_reaper_target) = match table.get(id) {
            Some(m) => {
                proof {
                    // With unique ids, the found entry is the one the
                    // snapshot names.
                    let entries = table.entries@;
                    let k = choose|k: int|
                        0 <= k < entries.len() && (#[trigger] entries[k]).spec_id() == id;
                    let j = choose|j: int|
                        0 <= j < entries.len() && *m == #[trigger] entries[j];
                    if j != k {
                        assert(entries[j].spec_id() != entries[k].spec_id());
                    }
                    assert(*m == spec_entry_with_id(entries, id));
                }
                (true, m.control_is_effectively_on(), m.has_reaper_target())
            },
            None => (false, false, false),
        };
        crate::channels::MappingDebugInfo {
            compartment,
            id,
            exists,
            control_is_effectively_on,
            has_reaper_target,
        }
    }

    /// Reports the engine's state summary to the slow path, which presents
    /// it; diagnostics never surface here.
    pub fn log_debug_info(&self)
        requires
            self.wf(),
    {
        let info = self.debug_info();
        let _ = channel_try_send(
            &self.normal_main_task_sender,
            NormalRealTimeToMainThreadTask::LogDebugInfo { info },
        );
    }

    /// Reports one mapping's state to the slow path, which presents it.
    pub fn log_mapping(&self, compartment: Compartment, id: MappingId)
        requires
            self.wf(),
    {
        let info = self.mapping_debug_info(compartment, id);
        let _ = channel_try_send(
            &self.normal_main_task_sender,
            NormalRealTimeToMainThreadTask::LogMapping { info },
        );
    }
}

impl RealTimeProcessor {
    /// Dispatches one configuration task from the slow path. Each arm's
    /// effect is the called handler's: the clauses below restate them over
    /// the received task, so that the queue-driven form of every
    /// configuration change is pinned down here.
    fn process_normal_task(&mut self, task: NormalRealTimeTask, outputs: &mut Outputs)
        requires
            old(self).wf(),
        ensures
            final(self).wf(),
            // No configuration task feeds the clock.
            final(self).midi_clock_calculator.spec_sample_count() == old(
                self,
            ).midi_clock_calculator.spec_sample_count(),
            final(self).midi_clock_calculator.spec_previous_tick() == old(
                self,
            ).midi_clock_calculator.spec_previous_tick(),
            // Configuration tasks write to no target and never reach the
            // host output directly; only device-bound lifecycle MIDI is
            // emitted, as the per-task clauses below state.
            final(outputs).fx_output == old(outputs).fx_output,
            final(outputs).target_writes == old(outputs).target_writes,
            match task {
                NormalRealTimeTask::UpdateControlIsGloballyEnabled(is_enabled) => {
                    &&& final(self).control_is_globally_enabled == is_enabled
                    &&& final(self).settings == old(self).settings
                    &&& final(self).control_mode == old(self).control_mode
                    &&& final(self).controller_table == old(self).controller_table
                    &&& final(self).main_table == old(self).main_table
                    &&& final(outputs).device_output == old(outputs).device_output
                },
                NormalRealTimeTask::UpdateFeedbackIsGloballyEnabled(is_enabled) => {
                    &&& final(self).feedback_is_globally_enabled == is_enabled
                    &&& final(self).settings == old(self).settings
                    &&& final(self).control_mode == old(self).control_mode
                    &&& final(self).controller_table == old(self).controller_table
                    &&& final(self).main_table == old(self).main_table
                    // Lifecycle MIDI goes out exactly when the switch
                    // actually flips and a device destination is set.
                    &&& final(outputs).dev() == match old(self).settings.midi_destination {
                        Some(MidiDestination::Device(d)) => {
                            if is_enabled != old(self).feedback_is_globally_enabled {
                                old(outputs).dev() + lifecycle_device_seq(
                                    old(self).controller_table.entries@,
                                    if is_enabled {
                                        LifecyclePhase::Activation
                                    } else {
                                        LifecyclePhase::Deactivation
                                    },
                                    d,
                                ) + lifecycle_device_seq(
                                    old(self).main_table.entries@,
                                    if is_enabled {
                                        LifecyclePhase::Activation
                                    } else {
                                        LifecyclePhase::Deactivation
                                    },
                                    d,
                                )
                            } else {
                                old(outputs).dev()
                            }
                        },
                        _ => old(outputs).dev(),
                    }
                },
                NormalRealTimeTask::UpdateAllMappings(compartment, mappings) => {
                    &&& final(self).settings == old(self).settings
                    &&& final(self).control_mode == old(self).control_mode
                    &&& (compartment is Controller ==> final(self).main_table == old(
                        self,
                    ).main_table)
                    &&& (compartment is Main ==> final(self).controller_table == old(
                        self,
                    ).controller_table)
                    &&& (crate::table::ids_unique(mappings@) ==> final(self).spec_table(
                        compartment,
                    ).entries@ == mappings@)
                    // Every previously-on mapping of the compartment
                    // deactivates once, then every newly-on one activates
                    // once, never interleaved.
                    &&& final(outputs).dev() == match old(self).settings.midi_destination {
                        Some(MidiDestination::Device(d)) => {
                            if old(self).feedback_is_globally_enabled {
                                old(outputs).dev() + lifecycle_device_seq(
                                    old(self).spec_table(compartment).entries@,
                                    LifecyclePhase::Deactivation,
                                    d,
                                ) + lifecycle_device_seq(
                                    final(self).spec_table(compartment).entries@,
                                    LifecyclePhase::Activation,
                                    d,
                                )
                            } else {
                                old(outputs).dev()
                            }
                        },
                        _ => old(outputs).dev(),
                    }
                },
                NormalRealTimeTask::UpdateSingleMapping(compartment, mapping) => {
                    &&& final(self).settings == old(self).settings
                    &&& final(self).control_mode == old(self).control_mode
                    &&& final(self).spec_table(compartment).spec_contains_id((*mapping).spec_id())
                    // The transition's lifecycle MIDI: activation when the
                    // new mapping is on, deactivation when only the
                    // replaced one was.
                    &&& final(outputs).dev() == match old(self).settings.midi_destination {
                        Some(MidiDestination::Device(d)) => {
                            if old(self).feedback_is_globally_enabled {
                                if (*mapping).spec_feedback_is_effectively_on() {
                                    old(outputs).dev() + msg_views(
                                        msgs_of_phase(*mapping, LifecyclePhase::Activation),
                                        d,
                                    )
                                } else if spec_table_entry_on(
                                    old(self).spec_table(compartment),
                                    (*mapping).spec_id(),
                                ) {
                                    old(outputs).dev() + msg_views(
                                        msgs_of_phase(*mapping, LifecyclePhase::Deactivation),
                                        d,
                                    )
                                } else {
                                    old(outputs).dev()
                                }
                            } else {
                                old(outputs).dev()
                            }
                        },
                        _ => old(outputs).dev(),
                    }
                },
                NormalRealTimeTask::UpdatePersistentMappingProcessingState { id, state } => {
                    &&& final(self).settings == old(self).settings
                    &&& final(self).control_mode == old(self).control_mode
                    &&& (id.compartment is Controller ==> final(self).main_table == old(
                        self,
                    ).main_table)
                    &&& (id.compartment is Main ==> final(self).controller_table == old(
                        self,
                    ).controller_table)
                    &&& forall|j: int|
                        0 <= j < old(self).spec_table(id.compartment).entries@.len()
                            ==> #[trigger] final(self).spec_table(id.compartment).entries@[j] == (
                        if old(self).spec_table(id.compartment).entries@[j].spec_id() == id.id {
                            RealTimeMapping {
                                persistent_state: state,
                                ..old(self).spec_table(id.compartment).entries@[j]
                            }
                        } else {
                            old(self).spec_table(id.compartment).entries@[j]
                        })
                },
                NormalRealTimeTask::UpdateSettings(settings) => {
                    &&& final(self).settings == settings
                    &&& final(self).control_mode == old(self).control_mode
                    &&& final(self).controller_table == old(self).controller_table
                    &&& final(self).main_table == old(self).main_table
                    // A destination change replays full deactivation and
                    // activation on the new destination; any other
                    // settings change emits nothing.
                    &&& final(outputs).dev() == match settings.midi_destination {
                        Some(MidiDestination::Device(d)) => {
                            if old(self).feedback_is_globally_enabled
                                && settings.midi_destination != old(
                                self,
                            ).settings.midi_destination {
                                old(outputs).dev() + lifecycle_device_seq(
                                    old(self).controller_table.entries@,
                                    LifecyclePhase::Deactivation,
                                    d,
                                ) + lifecycle_device_seq(
                                    old(self).main_table.entries@,
                                    LifecyclePhase::Deactivation,
                                    d,
                                ) + lifecycle_device_seq(
                                    old(self).controller_table.entries@,
                                    LifecyclePhase::Activation,
                                    d,
                                ) + lifecycle_device_seq(
                                    old(self).main_table.entries@,
                                    LifecyclePhase::Activation,
                                    d,
                                )
                            } else {
                                old(outputs).dev()
                            }
                        },
                        _ => old(outputs).dev(),
                    }
                },
                NormalRealTimeTask::UpdateTargetsPartially(compartment, target_updates) => {
                    &&& final(self).settings == old(self).settings
                    &&& final(self).control_mode == old(self).control_mode
                    &&& (compartment is Controller ==> final(self).main_table == old(
                        self,
                    ).main_table)
                    &&& (compartment is Main ==> final(self).controller_table == old(
                        self,
                    ).controller_table)
                    &&& final(self).spec_table(compartment).entries@ == apply_target_updates(
                        old(self).spec_table(compartment).entries@,
                        target_updates@,
                    )
                    &&& final(outputs).dev() == match old(self).settings.midi_destination {
                        Some(MidiDestination::Device(d)) => {
                            if old(self).feedback_is_globally_enabled {
                                old(outputs).dev() + activation_change_device_seq(
                                    final(self).spec_table(compartment).entries@,
                                    spec_changes_of(target_updates@),
                                    false,
                                    d,
                                )
                            } else {
                                old(outputs).dev()
                            }
                        },
                        _ => old(outputs).dev(),
                    }
                },
                NormalRealTimeTask::UpdateMappingsPartially(compartment, mapping_updates) => {
                    &&& final(self).settings == old(self).settings
                    &&& final(self).control_mode == old(self).control_mode
                    &&& (compartment is Controller ==> final(self).main_table == old(
                        self,
                    ).main_table)
                    &&& (compartment is Main ==> final(self).controller_table == old(
                        self,
                    ).controller_table)
                    &&& final(self).spec_table(compartment).entries@ == apply_mapping_updates(
                        old(self).spec_table(compartment).entries@,
                        mapping_updates@,
                    )
                    &&& final(outputs).dev() == match old(self).settings.midi_destination {
                        Some(MidiDestination::Device(d)) => {
                            if old(self).feedback_is_globally_enabled {
                                old(outputs).dev() + activation_change_device_seq(
                                    final(self).spec_table(compartment).entries@,
                                    mapping_updates@,
                                    true,
                                    d,
                                )
                            } else {
                                old(outputs).dev()
                            }
                        },
                        _ => old(outputs).dev(),
                    }
                },
                NormalRealTimeTask::UpdateSampleRate(sample_rate_hz) => {
                    &&& final(self).sample_rate_hz == sample_rate_hz
                    &&& final(self).midi_clock_calculator.spec_sample_rate_hz() == sample_rate_hz
                    &&& final(self).settings == old(self).settings
                    &&& final(self).control_mode == old(self).control_mode
                    &&& final(self).controller_table == old(self).controller_table
                    &&& final(self).main_table == old(self).main_table
                },
                NormalRealTimeTask::StartLearnSource { allow_virtual_sources } => {
                    &&& final(self).control_mode == (ControlMode::LearningSource {
                        allow_virtual_sources,
                    })
                    &&& final(self).midi_scanner.spec_pending_cc() is None
                    &&& final(self).midi_scanner.spec_sysex_buffer().len() == 0
                    &&& forall|i: int|
                        0 <= i < 16 ==> final(self).nrpn_scanner.channel_states()[i]
                            == crate::nrpn::NrpnChannelState::spec_empty()
                    &&& forall|i: int|
                        0 <= i < 16 ==> final(self).cc_14_bit_scanner.channel_states()[i]
                            == crate::cc14::Cc14ChannelState::spec_empty()
                    &&& final(self).settings == old(self).settings
                    &&& final(self).controller_table == old(self).controller_table
                    &&& final(self).main_table == old(self).main_table
                },
                NormalRealTimeTask::DisableControl => {
                    &&& final(self).control_mode == ControlMode::Disabled
                    &&& forall|i: int|
                        0 <= i < 16 ==> final(self).nrpn_scanner.channel_states()[i]
                            == crate::nrpn::NrpnChannelState::spec_empty()
                    &&& forall|i: int|
                        0 <= i < 16 ==> final(self).cc_14_bit_scanner.channel_states()[i]
                            == crate::cc14::Cc14ChannelState::spec_empty()
                    &&& final(self).settings == old(self).settings
                    &&& final(self).controller_table == old(self).controller_table
                    &&& final(self).main_table == old(self).main_table
                },
                NormalRealTimeTask::ReturnToControlMode => {
                    &&& final(self).control_mode == ControlMode::Controlling
                    &&& forall|i: int|
                        0 <= i < 16 ==> final(self).nrpn_scanner.channel_states()[i]
                            == crate::nrpn::NrpnChannelState::spec_empty()
                    &&& forall|i: int|
                        0 <= i < 16 ==> final(self).cc_14_bit_scanner.channel_states()[i]
                            == crate::cc14::Cc14ChannelState::spec_empty()
                    &&& final(self).settings == old(self).settings
                    &&& final(self).controller_table == old(self).controller_table
                    &&& final(self).main_table == old(self).main_table
                },
                // The two dump tasks only report: nothing changes.
                NormalRealTimeTask::LogDebugInfo => {
                    &&& *final(self) == *old(self)
                    &&& final(outputs).device_output == old(outputs).device_output
                },
                NormalRealTimeTask::LogMapping(_, _) => {
                    &&& *final(self) == *old(self)
                    &&& final(outputs).device_output == old(outputs).device_output
                },
            },
    {
        match task {
            NormalRealTimeTask::UpdateControlIsGloballyEnabled(is_enabled) => {
                self.set_control_is_globally_enabled(is_enabled);
            },
            NormalRealTimeTask::UpdateFeedbackIsGloballyEnabled(is_enabled) => {
                self.set_feedback_is_globally_enabled(is_enabled, outputs);
            },
            NormalRealTimeTask::UpdateAllMappings(compartment, mappings) => {
                self.update_all_mappings(compartment, mappings, outputs);
            },
            NormalRealTimeTask::UpdateSingleMapping(compartment, mapping) => {
                self.update_single_mapping(compartment, mapping, outputs);
            },
            NormalRealTimeTask::UpdatePersistentMappingProcessingState { id, state } => {
                self.update_persistent_mapping_processing_state(id, state, outputs);
            },
            NormalRealTimeTask::UpdateTargetsPartially(compartment, target_updates) => {
                self.update_targets_partially(compartment, target_updates, outputs);
            },
            NormalRealTimeTask::UpdateSettings(settings) => {
                self.update_settings(settings, outputs);
            },
            NormalRealTimeTask::UpdateSampleRate(sample_rate_hz) => {
                self.update_sample_rate(sample_rate_hz);
            },
            NormalRealTimeTask::StartLearnSource { allow_virtual_sources } => {
                self.start_learn_source(allow_virtual_sources);
            },
            NormalRealTimeTask::DisableControl => {
                self.disable_control();
            },
            NormalRealTimeTask::ReturnToControlMode => {
                self.return_to_control_mode();
            },
            NormalRealTimeTask::UpdateMappingsPartially(compartment, mapping_updates) => {
                self.update_mappings_partially(compartment, mapping_updates, outputs);
            },
            NormalRealTimeTask::LogDebugInfo => {
                self.log_debug_info();
            },
            NormalRealTimeTask::LogMapping(compartment, mapping_id) => {
                self.log_mapping(compartment, mapping_id);
            },
        }
    }

    /// The essential per-block duties: advancing the sample counter,
    /// recovering from a possible audio discontinuity, and processing a
    /// bounded number of configuration tasks in arrival order.
    pub fn run_from_audio_hook_essential(
        &mut self,
        block_length: u64,
        might_be_rebirth: bool,
        outputs: &mut Outputs,
    )
        requires
            old(self).wf(),
        ensures
            final(self).wf(),
            // The sample counter advances by exactly this block's frame
            // count (saturating); neither task processing nor a resync
            // feeds the clock.
            final(self).midi_clock_calculator.spec_sample_count() == if old(
                self,
            ).midi_clock_calculator.spec_sample_count() + block_length <= u64::MAX {
                old(self).midi_clock_calculator.spec_sample_count() + block_length
            } else {
                u64::MAX as int
            },
            final(self).midi_clock_calculator.spec_previous_tick() == old(
                self,
            ).midi_clock_calculator.spec_previous_tick(),
    {
        // Advance the MIDI clock's sample counter by this block.
        self.midi_clock_calculator.increase_sample_counter_by(block_length);
        if might_be_rebirth {
            self.request_full_sync_and_discard_tasks_if_successful();
        }
        let ghost counted = self.midi_clock_calculator.spec_sample_count();
        let ghost previous = self.midi_clock_calculator.spec_previous_tick();
        let mut i: usize = 0;
        let mut done = false;
        while i < NORMAL_BULK_SIZE && !done
            invariant
                self.wf(),
                self.midi_clock_calculator.spec_sample_count() == counted,
                self.midi_clock_calculator.spec_previous_tick() == previous,
            decreases NORMAL_BULK_SIZE - i,
        {
            match channel_try_recv(&self.normal_task_receiver) {
                Some(task) => self.process_normal_task(task, outputs),
                None => {
                    done = true;
                },
            }
            i = i + 1;
        }
    }

    /// The per-block control duties outside the host callback: polling the
    /// (N)RPN decoders so that stale partial sequences resolve or flush,
    /// and polling the learn-mode capture scanner.
    ///
    /// This must not run while the audio hook is capturing MIDI globally,
    /// because controlling pauses then.
    pub fn run_from_audio_hook_control_and_learn(
        &mut self,
        timestamp: ControlEventTimestamp,
        outputs: &mut Outputs,
    )
        requires
            old(self).wf(),
        ensures
            final(self).wf(),
            final(self).settings == old(self).settings,
            final(self).control_mode == old(self).control_mode,
            shapes_equal(
                final(self).controller_table.entries@,
                old(self).controller_table.entries@,
            ),
            shapes_equal(final(self).main_table.entries@, old(self).main_table.entries@),
            final(self).midi_clock_calculator == old(self).midi_clock_calculator,
            final(self).cc_14_bit_scanner == old(self).cc_14_bit_scanner,
            // In control mode each channel's decoder is polled exactly
            // once, so a stale in-flight value byte ages and resolves as
            // the wait window prescribes.
            old(self).control_mode is Controlling && old(self).control_is_globally_enabled
                ==> {
                &&& final(self).midi_scanner == old(self).midi_scanner
                &&& final(self).nrpn_scanner.spec_timeout_polls()
                    == old(self).nrpn_scanner.spec_timeout_polls()
                &&& forall|c: int|
                    0 <= c < 16 ==> #[trigger] final(self).nrpn_scanner.channel_states()[c]
                        == crate::nrpn::nrpn_poll_step(
                        old(self).nrpn_scanner.channel_states()[c],
                        c as u8,
                        old(self).nrpn_scanner.spec_timeout_polls(),
                    ).0
            },
            old(self).control_mode is Controlling && !old(self).control_is_globally_enabled
                ==> *final(self) == *old(self),
            old(self).control_mode is Disabled ==> *final(self) == *old(self),
            // In learn mode only the capture scanner is polled.
            old(self).control_mode is LearningSource ==> {
                &&& final(self).nrpn_scanner == old(self).nrpn_scanner
                &&& final(self).controller_table == old(self).controller_table
                &&& final(self).main_table == old(self).main_table
                &&& final(self).midi_scanner.spec_sysex_buffer()
                    == old(self).midi_scanner.spec_sysex_buffer()
                &&& final(self).midi_scanner.spec_sysex_in_progress()
                    == old(self).midi_scanner.spec_sysex_in_progress()
                &&& final(self).midi_scanner.spec_pending_cc() == (
                match old(self).midi_scanner.spec_pending_cc() {
                    Some(p) => {
                        let new_polls: u8 = if p.polls < 255 {
                            (p.polls + 1) as u8
                        } else {
                            255
                        };
                        if new_polls >= crate::capture::CAPTURE_POLL_TIMEOUT {
                            None
                        } else {
                            Some(crate::capture::PendingCcCapture { polls: new_polls, ..p })
                        }
                    },
                    None => None,
                })
            },
            // Only control mode produces output here (pass-through of the
            // constituent messages of resolved sequences).
            !(old(self).control_mode is Controlling) ==> {
                &&& final(outputs).fx_output == old(outputs).fx_output
                &&& final(outputs).device_output == old(outputs).device_output
                &&& final(outputs).target_writes == old(outputs).target_writes
            },
    {
        let mode = self.control_mode;
        match mode {
            ControlMode::Disabled => {},
            ControlMode::Controlling => {
                // This polling drives only controlling, not learning.
                if self.control_is_globally_enabled {
                    let mut ch: u8 = 0;
                    while ch < 16
                        invariant
                            ch <= 16,
                            old(self).wf(),
                            self.wf(),
                            self.settings == old(self).settings,
                            self.control_mode == old(self).control_mode,
                            shapes_equal(
                                self.controller_table.entries@,
                                old(self).controller_table.entries@,
                            ),
                            shapes_equal(
                                self.main_table.entries@,
                                old(self).main_table.entries@,
                            ),
                            self.midi_clock_calculator == old(self).midi_clock_calculator,
                            self.cc_14_bit_scanner == old(self).cc_14_bit_scanner,
                            self.midi_scanner == old(self).midi_scanner,
                            self.nrpn_scanner.spec_timeout_polls() == old(
                                self,
                            ).nrpn_scanner.spec_timeout_polls(),
                            forall|c: int|
                                0 <= c < ch ==> #[trigger] self.nrpn_scanner.channel_states()[c]
                                    == crate::nrpn::nrpn_poll_step(
                                    old(self).nrpn_scanner.channel_states()[c],
                                    c as u8,
                                    old(self).nrpn_scanner.spec_timeout_polls(),
                                ).0,
                            forall|c: int|
                                ch <= c < 16 ==> #[trigger] self.nrpn_scanner.channel_states()[c]
                                    == old(self).nrpn_scanner.channel_states()[c],
                        decreases 16 - ch,
                    {
                        let ghost pre = *self;
                        let polled = self.nrpn_scanner.poll(ch);
                        if let Some(nrpn_msg) = polled {
                            let _ = self.process_incoming_midi_normal_nrpn(
                                nrpn_msg,
                                SampleOffset::zero(),
                                timestamp,
                                Caller::AudioHook,
                                outputs,
                            );
                        }
                        proof {
                            old(self).nrpn_scanner.lemma_wf_len();
                            pre.nrpn_scanner.lemma_wf_len();
                            self.nrpn_scanner.lemma_wf_len();
                            lemma_shapes_equal_trans(
                                self.controller_table.entries@,
                                pre.controller_table.entries@,
                                old(self).controller_table.entries@,
                            );
                            lemma_shapes_equal_trans(
                                self.main_table.entries@,
                                pre.main_table.entries@,
                                old(self).main_table.entries@,
                            );
                            assert forall|c: int|
                                0 <= c < ch + 1 implies #[trigger] self.nrpn_scanner.channel_states()[c]
                                == crate::nrpn::nrpn_poll_step(
                                old(self).nrpn_scanner.channel_states()[c],
                                c as u8,
                                old(self).nrpn_scanner.spec_timeout_polls(),
                            ).0 by {
                                if c < ch {
                                    assert(self.nrpn_scanner.channel_states()[c]
                                        == pre.nrpn_scanner.channel_states()[c]);
                                } else {
                                    assert(pre.nrpn_scanner.channel_states()[c]
                                        == old(self).nrpn_scanner.channel_states()[c]);
                                }
                            }
                            assert forall|c: int|
                                ch + 1 <= c < 16 implies #[trigger] self.nrpn_scanner.channel_states()[c]
                                == old(self).nrpn_scanner.channel_states()[c] by {
                                assert(self.nrpn_scanner.channel_states()[c]
                                    == pre.nrpn_scanner.channel_states()[c]);
                            }
                        }
                        ch = ch + 1;
                    }
                }
            },
            ControlMode::LearningSource { allow_virtual_sources } => {
                if let Some(captured) = self.midi_scanner.poll() {
                    self.send_captured_midi(captured, allow_virtual_sources);
                }
            },
        }
    }

    /// Everything the audio hook does for this instance each block.
    pub fn run_from_audio_hook_all(
        &mut self,
        block_length: u64,
        might_be_rebirth: bool,
        timestamp: ControlEventTimestamp,
        outputs: &mut Outputs,
    )
        requires
            old(self).wf(),
        ensures
            final(self).wf(),
            final(self).midi_clock_calculator.spec_sample_count() == if old(
                self,
            ).midi_clock_calculator.spec_sample_count() + block_length <= u64::MAX {
                old(self).midi_clock_calculator.spec_sample_count() + block_length
            } else {
                u64::MAX as int
            },
    {
        self.run_from_audio_hook_essential(block_length, might_be_rebirth, outputs);
        self.run_from_audio_hook_control_and_learn(timestamp, outputs);
    }

    /// Everything the host's processing callback does for this instance
    /// each block besides delivering input events: performing the deferred
    /// feedback that only this context may send to the host output.
    pub fn run_from_vst(&mut self, outputs: &mut Outputs)
        requires
            old(self).wf(),
        ensures
            final(self).wf(),
            final(self).controller_table == old(self).controller_table,
            final(self).main_table == old(self).main_table,
            final(self).settings == old(self).settings,
            final(self).control_mode == old(self).control_mode,
    {
        self.process_feedback_tasks(Caller::Vst, outputs);
    }
}

/// Sends a lifecycle message list to the host output (reachable only from
/// the processing callback), with optional logging. Free-standing so that
/// a table entry can stay borrowed at the call site.
fn send_lifecycle_midi_to_fx_output(
    log_sender: &crossbeam_channel::Sender<NormalRealTimeToMainThreadTask>,
    logging_enabled: bool,
    messages: &Vec<LifecycleMidiMessage>,
    caller: Caller,
    outputs: &mut Outputs,
)
    ensures
        final(outputs).device_output == old(outputs).device_output,
        final(outputs).target_writes == old(outputs).target_writes,
        final(outputs).fx() == if caller is Vst {
            old(outputs).fx() + lifecycle_fx_views(messages@)
        } else {
            old(outputs).fx()
        },
        !(caller is Vst) ==> final(outputs).fx_output == old(outputs).fx_output,
{
    let ghost msgs = messages@;
    let zero = SampleOffset { value: 0 };
    let mut i: usize = 0;
    while i < messages.len()
        invariant
            i <= msgs.len(),
            messages@ == msgs,
            zero == (SampleOffset { value: 0 }),
            outputs.device_output == old(outputs).device_output,
            outputs.target_writes == old(outputs).target_writes,
            outputs.fx() == if caller is Vst {
                old(outputs).fx() + lifecycle_fx_views(msgs.take(i as int))
            } else {
                old(outputs).fx()
            },
            !(caller is Vst) ==> outputs.fx_output == old(outputs).fx_output,
        decreases msgs.len() - i,
    {
        let msg = &messages[i];
        if logging_enabled {
            let logged = match msg {
                LifecycleMidiMessage::Short(sm) => MidiSourceValue::Plain(*sm),
                LifecycleMidiMessage::Raw(bytes) => MidiSourceValue::SysEx(bytes.clone()),
            };
            let _ = channel_try_send(
                log_sender,
                NormalRealTimeToMainThreadTask::LogLifecycleOutput { value: logged },
            );
        }
        if caller.is_vst() {
            match msg {
                LifecycleMidiMessage::Short(sm) => {
                    outputs.push_fx_short(zero, *sm);
                    proof {
                        assert(lifecycle_view(msgs[i as int]) == MidiPayloadView::Short(*sm));
                    }
                },
                LifecycleMidiMessage::Raw(bytes) => {
                    let copy = bytes.clone();
                    proof {
                        assert(copy@ =~= bytes@);
                    }
                    let ghost cv = copy@;
                    outputs.push_fx_raw(zero, copy);
                    proof {
                        assert(lifecycle_view(msgs[i as int]) == MidiPayloadView::Raw(cv));
                    }
                },
            }
            proof {
                assert(zero == (SampleOffset { value: 0 }));
                assert(lifecycle_fx_views(msgs.take(i + 1)) =~= lifecycle_fx_views(
                    msgs.take(i as int),
                ).push((SampleOffset { value: 0 }, lifecycle_view(msgs[i as int]))));
                assert(outputs.fx() =~= old(outputs).fx() + lifecycle_fx_views(msgs.take(i + 1)));
            }
        } else {
            proof {
                assert(msgs.take(i + 1).drop_last() =~= msgs.take(i as int));
            }
        }
        i = i + 1;
    }
    proof {
        assert(msgs.take(msgs.len() as int) =~= msgs);
    }
}


/// Law: a primitive message consumed by at least one enabled composite
/// source reports `Consumed` from the plain match pass — never `Matched`
/// and never `Unmatched`.
pub proof fn law_consumed_never_matches_plain(
    cs: Seq<RealTimeMapping>,
    ms: Seq<RealTimeMapping>,
    s: ShortMsg,
)
    requires
        spec_is_consumed(cs, ms, s),
    ensures
        spec_plain_outcome(cs, ms, IncomingMidiMessage::Short(s)) == MatchOutcome::Consumed,
{
}

/// The ids of the mappings whose feedback is effectively on, in table
/// order: one entry per such mapping.
pub open spec fn on_id_seq(s: Seq<RealTimeMapping>) -> Seq<MappingId>
    decreases s.len(),
{
    if s.len() == 0 {
        Seq::empty()
    } else {
        on_id_seq(s.drop_last()) + if s.last().spec_feedback_is_effectively_on() {
            seq![s.last().spec_id()]
        } else {
            Seq::empty()
        }
    }
}

/// Every id in the on-sequence belongs to some effectively-on entry.
proof fn lemma_on_id_seq_contained(s: Seq<RealTimeMapping>, k: int)
    requires
        0 <= k < on_id_seq(s).len(),
    ensures
        exists|i: int|
            0 <= i < s.len() && (#[trigger] s[i]).spec_feedback_is_effectively_on()
                && s[i].spec_id() == on_id_seq(s)[k],
    decreases s.len(),
{
    if s.len() > 0 {
        if k < on_id_seq(s.drop_last()).len() {
            lemma_on_id_seq_contained(s.drop_last(), k);
            let i = choose|i: int|
                0 <= i < s.drop_last().len() && (
                #[trigger] s.drop_last()[i]).spec_feedback_is_effectively_on()
                    && s.drop_last()[i].spec_id() == on_id_seq(s.drop_last())[k];
            assert(s[i] == s.drop_last()[i]);
        } else {
            assert(s[s.len() - 1] == s.last());
        }
    }
}

/// Law: in a table with pairwise distinct ids, the lifecycle emission
/// order of one phase names every effectively-on mapping exactly once —
/// no mapping's message list is emitted twice. Together with the
/// replacement contract, which emits all deactivations of the previous
/// table strictly before all activations of the new one, this rules out
/// duplicate device state writes.
pub proof fn law_lifecycle_emits_each_mapping_once(s: Seq<RealTimeMapping>)
    requires
        crate::table::ids_unique(s),
    ensures
        on_id_seq(s).no_duplicates(),
        forall|i: int|
            0 <= i < s.len() && (#[trigger] s[i]).spec_feedback_is_effectively_on()
                ==> on_id_seq(s).contains(s[i].spec_id()),
    decreases s.len(),
{
    if s.len() == 0 {
        assert(on_id_seq(s).no_duplicates());
    } else {
        let head = s.drop_last();
        assert(crate::table::ids_unique(head)) by {
            assert forall|i: int, j: int|
                0 <= i < j < head.len() implies (#[trigger] head[i].spec_id()) != (
            #[trigger] head[j].spec_id()) by {
                assert(head[i] == s[i]);
                assert(head[j] == s[j]);
            }
        }
        law_lifecycle_emits_each_mapping_once(head);
        let ids = on_id_seq(s);
        if s.last().spec_feedback_is_effectively_on() {
            // The last entry's id cannot occur among the earlier on-ids.
            assert forall|k: int|
                0 <= k < on_id_seq(head).len() implies on_id_seq(head)[k] != s.last().spec_id() by {
                lemma_on_id_seq_contained(head, k);
                let i = choose|i: int|
                    0 <= i < head.len() && (#[trigger] head[i]).spec_feedback_is_effectively_on()
                        && head[i].spec_id() == on_id_seq(head)[k];
                assert(head[i] == s[i]);
                assert(s[i].spec_id() != s[s.len() - 1].spec_id());
                assert(s[s.len() - 1] == s.last());
            }
            assert(ids.no_duplicates()) by {
                assert forall|p: int, q: int|
                    0 <= p < ids.len() && 0 <= q < ids.len() && p != q implies ids[p] != ids[q] by {
                    if p < on_id_seq(head).len() && q < on_id_seq(head).len() {
                        assert(ids[p] == on_id_seq(head)[p]);
                        assert(ids[q] == on_id_seq(head)[q]);
                    }
                }
            }
        } else {
            assert(ids =~= on_id_seq(head));
        }
        // Containment: every on-entry's id occurs in the sequence.
        assert forall|i: int|
            0 <= i < s.len() && (#[trigger] s[i]).spec_feedback_is_effectively_on() implies ids.contains(
            s[i].spec_id(),
        ) by {
            if i < s.len() - 1 {
                assert(head[i] == s[i]);
                assert(on_id_seq(head).contains(s[i].spec_id()));
                let k = choose|k: int|
                    0 <= k < on_id_seq(head).len() && on_id_seq(head)[k] == s[i].spec_id();
                assert(ids[k] == s[i].spec_id());
            } else {
                assert(s[i] == s.last());
                assert(ids[ids.len() - 1] == s.last().spec_id());
            }
        }
    }
}

} // verus!
