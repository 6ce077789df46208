//! End-to-end tests of the real-time processor.

use realearn_core::channels::{
    BasicSettings, ControlMainTask, ControlOptions, GarbageBin, MidiControlInput, MidiDestination,
    NormalRealTimeToMainThreadTask,
};
use realearn_core::event::{ControlEvent, MidiEvent, SampleOffset};
use realearn_core::mapping::{
    ActivationChange, Compartment, LifecycleMidiData, LifecycleMidiMessage, MappingId,
    PersistentMappingProcessingState, ProcessorMappingOptions, FeedbackSendBehavior,
    RealTimeMapping, RealTimeMappingUpdate, RealTimeTargetUpdate,
};
use realearn_core::match_outcome::MatchOutcome;
use realearn_core::midi::{IncomingMidiMessage, ShortMsg};
use realearn_core::mode::Mode;
use realearn_core::processor::{forward_control_to_main_processor, Caller, Outputs, RealTimeProcessor};
use realearn_core::source::{CompoundMappingSource, ControlValue, MidiSource, VirtualControlElement, VirtualControlElementKind, VirtualSource};
use realearn_core::target::{MidiSendTarget, OutgoingMidi, RawMidiPattern, RawMidiPatternByte, RealTimeCompoundMappingTarget, RealTimeReaperTarget, SendMidiDestination, TargetWrite};
use realearn_core::channels::FeedbackRealTimeTask;
use realearn_core::channels::NormalRealTimeTask;

struct Harness {
    processor: RealTimeProcessor,
    normal_sender: crossbeam_channel::Sender<realearn_core::channels::NormalRealTimeTask>,
    normal_main_receiver: crossbeam_channel::Receiver<NormalRealTimeToMainThreadTask>,
    control_main_receiver: crossbeam_channel::Receiver<ControlMainTask>,
    control_main_sender: crossbeam_channel::Sender<ControlMainTask>,
    garbage_receiver: crossbeam_channel::Receiver<realearn_core::channels::Garbage>,
}

fn harness_with_control_main_capacity(capacity: usize) -> Harness {
    let (normal_sender, normal_receiver) = crossbeam_channel::bounded(100);
    let (feedback_sender, feedback_receiver) = crossbeam_channel::bounded(100);
    let (normal_main_sender, normal_main_receiver) = crossbeam_channel::bounded(100);
    let (control_main_sender, control_main_receiver) = crossbeam_channel::bounded(capacity);
    let (garbage_sender, garbage_receiver) = crossbeam_channel::bounded(100);
    let processor = RealTimeProcessor::new(
        normal_receiver,
        feedback_receiver,
        feedback_sender,
        normal_main_sender,
        control_main_sender.clone(),
        GarbageBin::new(garbage_sender),
    );
    Harness {
        processor,
        normal_sender,
        normal_main_receiver,
        control_main_receiver,
        control_main_sender,
        garbage_receiver,
    }
}

fn harness() -> Harness {
    harness_with_control_main_capacity(100)
}

fn on_options() -> ProcessorMappingOptions {
    ProcessorMappingOptions {
        mapping_is_active: true,
        target_is_active: true,
        feedback_send_behavior: FeedbackSendBehavior::Normal,
    }
}

fn enabled() -> PersistentMappingProcessingState {
    PersistentMappingProcessingState { is_enabled: true }
}

fn no_lifecycle() -> LifecycleMidiData {
    LifecycleMidiData { activation_midi_messages: Vec::new(), deactivation_midi_messages: Vec::new() }
}

fn lifecycle(activation_cc: u8, deactivation_cc: u8) -> LifecycleMidiData {
    LifecycleMidiData {
        activation_midi_messages: vec![LifecycleMidiMessage::Short(ShortMsg::control_change(
            0,
            activation_cc,
            127,
        ))],
        deactivation_midi_messages: vec![LifecycleMidiMessage::Short(ShortMsg::control_change(
            0,
            deactivation_cc,
            0,
        ))],
    }
}

fn event(msg: ShortMsg) -> ControlEvent<MidiEvent<IncomingMidiMessage>> {
    ControlEvent::new(
        MidiEvent::new(SampleOffset::new(0), IncomingMidiMessage::Short(msg)),
        0,
    )
}

fn fx_parameter_mapping(id: u32, source: MidiSource) -> RealTimeMapping {
    RealTimeMapping::new(
        MappingId { value: id },
        Compartment::Main,
        CompoundMappingSource::Midi(source),
        Mode::new(),
        Some(RealTimeCompoundMappingTarget::Reaper(RealTimeReaperTarget::FxParameter {
            index: 0,
            current_value: None,
        })),
        on_options(),
        enabled(),
        no_lifecycle(),
    )
}

#[test]
fn fourteen_bit_pair_yields_one_direct_write_and_consumed_plain_passes() {
    let mut h = harness();
    let mut outputs = Outputs::new();
    h.processor.set_control_is_globally_enabled(true);
    let mapping = fx_parameter_mapping(
        1,
        MidiSource::ControlChange14BitValue { channel: 0, msb_controller: 1 },
    );
    h.processor.update_all_mappings(Compartment::Main, vec![mapping], &mut outputs);
    // MSB for controller 1, then its LSB partner on controller 33.
    let first = h.processor.process_incoming_midi(
        event(ShortMsg::control_change(0, 1, 64)),
        Caller::Vst,
        &mut outputs,
    );
    let second = h.processor.process_incoming_midi(
        event(ShortMsg::control_change(0, 33, 0)),
        Caller::Vst,
        &mut outputs,
    );
    // Both primitive messages are absorbed by the composite source; the
    // completed pair upgrades the second outcome to a match.
    assert_eq!(first, MatchOutcome::Consumed);
    assert_eq!(second, MatchOutcome::Matched);
    assert_eq!(outputs.target_writes.len(), 1);
    match &outputs.target_writes[0] {
        TargetWrite::FxParameter { index, value } => {
            assert_eq!(*index, 0);
            assert_eq!(*value, ControlValue { value: 64 * 128, max: 16383 });
        }
        other => panic!("expected a parameter write, got {:?}", other),
    }
}

#[test]
fn learn_mode_captures_instead_of_matching() {
    let mut h = harness();
    let mut outputs = Outputs::new();
    h.processor.set_control_is_globally_enabled(true);
    // Even with a matching mapping in place, learning captures instead.
    let mapping = fx_parameter_mapping(1, MidiSource::NoteVelocity { channel: 0, key: 60 });
    h.processor.update_all_mappings(Compartment::Main, vec![mapping], &mut outputs);
    h.processor.start_learn_source(false);
    let outcome = h.processor.process_incoming_midi(
        event(ShortMsg::note_on(0, 60, 100)),
        Caller::Vst,
        &mut outputs,
    );
    assert_eq!(outcome, MatchOutcome::Consumed);
    assert_eq!(outputs.target_writes.len(), 0);
    // Exactly one capture task reaches the slow path.
    match h.normal_main_receiver.try_recv() {
        Ok(NormalRealTimeToMainThreadTask::CaptureMidi { scan_result, allow_virtual_sources }) => {
            assert!(!allow_virtual_sources);
            match scan_result {
                realearn_core::capture::MidiScanResult::Short { msg, .. } => {
                    assert_eq!(msg, ShortMsg::note_on(0, 60, 100));
                }
                other => panic!("expected a short capture, got {:?}", other),
            }
        }
        other => panic!("expected a capture task, got {:?}", other),
    }
    assert!(h.normal_main_receiver.try_recv().is_err());
}

#[test]
fn queue_full_drops_forwarded_event_without_blocking() {
    let h = harness_with_control_main_capacity(1);
    let cv = ControlValue { value: 1, max: 127 };
    let control_event = ControlEvent::new(cv, 0);
    // The first send fills the queue, the second is dropped silently.
    forward_control_to_main_processor(
        &h.control_main_sender,
        Compartment::Main,
        MappingId { value: 1 },
        control_event,
        ControlOptions { enforce_send_feedback_after_control: false, enforce_target_refresh: false },
    );
    forward_control_to_main_processor(
        &h.control_main_sender,
        Compartment::Main,
        MappingId { value: 2 },
        control_event,
        ControlOptions { enforce_send_feedback_after_control: false, enforce_target_refresh: false },
    );
    let mut received = 0;
    while h.control_main_receiver.try_recv().is_ok() {
        received += 1;
    }
    assert_eq!(received, 1);
}

#[test]
fn full_resync_discards_accumulated_tasks() {
    let mut h = harness();
    // Accumulate stale tasks.
    h.normal_sender
        .send(realearn_core::channels::NormalRealTimeTask::DisableControl)
        .unwrap();
    h.normal_sender
        .send(realearn_core::channels::NormalRealTimeTask::ReturnToControlMode)
        .unwrap();
    h.processor.request_full_sync_and_discard_tasks_if_successful();
    // The resync request went out.
    match h.normal_main_receiver.try_recv() {
        Ok(NormalRealTimeToMainThreadTask::FullResyncToRealTimeProcessorPlease) => {}
        other => panic!("expected a resync request, got {:?}", other),
    }
    // The stale tasks were handed to disposal, not processed.
    let mut disposed = 0;
    while h.garbage_receiver.try_recv().is_ok() {
        disposed += 1;
    }
    assert_eq!(disposed, 2);
    let mut outputs = Outputs::new();
    h.processor.run_from_audio_hook_essential(64, false, &mut outputs);
    assert!(matches!(
        h.processor.control_mode,
        realearn_core::processor::ControlMode::Controlling
    ));
}

fn device_cc(outputs: &Outputs, i: usize) -> (u8, u8, u8, u8) {
    match &outputs.device_output[i].midi {
        OutgoingMidi::Short(m) => {
            let (status, d1, d2) = (m.status, m.data1, m.data2);
            (outputs.device_output[i].device_id, status, d1, d2)
        }
        other => panic!("expected a short message, got {:?}", other),
    }
}

#[test]
fn replacing_mapping_set_deactivates_old_then_activates_new_without_interleaving() {
    let mut h = harness();
    let mut outputs = Outputs::new();
    // Feedback globally on, destination a device.
    let mut settings = BasicSettings::initial();
    settings.midi_destination = Some(MidiDestination::Device(3));
    h.processor.update_settings(settings, &mut outputs);
    h.processor.set_feedback_is_globally_enabled(true, &mut outputs);
    // Old set: mapping 1 on, mapping 2 off, mapping 3 on.
    let m1 = RealTimeMapping::new(
        MappingId { value: 1 },
        Compartment::Main,
        CompoundMappingSource::Midi(MidiSource::ControlChangeValue { channel: 0, controller: 1 }),
        Mode::new(),
        None,
        on_options(),
        enabled(),
        lifecycle(20, 21),
    );
    let mut off_options = on_options();
    off_options.mapping_is_active = false;
    let m2 = RealTimeMapping::new(
        MappingId { value: 2 },
        Compartment::Main,
        CompoundMappingSource::Midi(MidiSource::ControlChangeValue { channel: 0, controller: 2 }),
        Mode::new(),
        None,
        off_options,
        enabled(),
        lifecycle(30, 31),
    );
    let m3 = RealTimeMapping::new(
        MappingId { value: 3 },
        Compartment::Main,
        CompoundMappingSource::Midi(MidiSource::ControlChangeValue { channel: 0, controller: 3 }),
        Mode::new(),
        None,
        on_options(),
        enabled(),
        lifecycle(40, 41),
    );
    h.processor.update_all_mappings(Compartment::Main, vec![m1, m2, m3], &mut outputs);
    // Installing the set activates the on-mappings once each.
    assert_eq!(outputs.device_output.len(), 2);
    assert_eq!(device_cc(&outputs, 0), (3, 0xB0, 20, 127));
    assert_eq!(device_cc(&outputs, 1), (3, 0xB0, 40, 127));
    // New set: mapping 2 now on, mapping 3 still on.
    let mut outputs = Outputs::new();
    let m2_new = RealTimeMapping::new(
        MappingId { value: 2 },
        Compartment::Main,
        CompoundMappingSource::Midi(MidiSource::ControlChangeValue { channel: 0, controller: 2 }),
        Mode::new(),
        None,
        on_options(),
        enabled(),
        lifecycle(30, 31),
    );
    let m3_new = RealTimeMapping::new(
        MappingId { value: 3 },
        Compartment::Main,
        CompoundMappingSource::Midi(MidiSource::ControlChangeValue { channel: 0, controller: 3 }),
        Mode::new(),
        None,
        on_options(),
        enabled(),
        lifecycle(40, 41),
    );
    h.processor.update_all_mappings(Compartment::Main, vec![m2_new, m3_new], &mut outputs);
    // First every previously-on mapping deactivates exactly once (1, 3),
    // then every newly-on mapping activates exactly once (2, 3) — never
    // interleaved.
    assert_eq!(outputs.device_output.len(), 4);
    assert_eq!(device_cc(&outputs, 0), (3, 0xB0, 21, 0));
    assert_eq!(device_cc(&outputs, 1), (3, 0xB0, 41, 0));
    assert_eq!(device_cc(&outputs, 2), (3, 0xB0, 30, 127));
    assert_eq!(device_cc(&outputs, 3), (3, 0xB0, 40, 127));
}

#[test]
fn merge_outcomes_concrete_examples() {
    let u = MatchOutcome::Unmatched;
    let c = MatchOutcome::Consumed;
    let m = MatchOutcome::Matched;
    assert_eq!(u.merge_with(c), c);
    assert_eq!(c.merge_with(u), c);
    assert_eq!(c.merge_with(m), m);
    assert_eq!(m.merge_with(u), m);
    assert_eq!(u.merge_with(u), u);
    // Associativity on a mixed triple.
    assert_eq!(u.merge_with(c).merge_with(m), u.merge_with(c.merge_with(m)));
}

#[test]
fn virtual_indirection_routes_controller_match_to_main_mapping() {
    let mut h = harness();
    let mut outputs = Outputs::new();
    h.processor.set_control_is_globally_enabled(true);
    let element = VirtualControlElement { kind: VirtualControlElementKind::Multi, index: 5 };
    let controller_mapping = RealTimeMapping::new(
        MappingId { value: 1 },
        Compartment::Controller,
        CompoundMappingSource::Midi(MidiSource::ControlChangeValue { channel: 0, controller: 7 }),
        Mode::new(),
        Some(RealTimeCompoundMappingTarget::Virtual(element)),
        on_options(),
        enabled(),
        no_lifecycle(),
    );
    let main_mapping = RealTimeMapping::new(
        MappingId { value: 1 },
        Compartment::Main,
        CompoundMappingSource::Virtual(VirtualSource { element }),
        Mode::new(),
        Some(RealTimeCompoundMappingTarget::Reaper(RealTimeReaperTarget::FxParameter {
            index: 9,
            current_value: None,
        })),
        on_options(),
        enabled(),
        no_lifecycle(),
    );
    h.processor.update_all_mappings(Compartment::Controller, vec![controller_mapping], &mut outputs);
    h.processor.update_all_mappings(Compartment::Main, vec![main_mapping], &mut outputs);
    let outcome = h.processor.process_incoming_midi(
        event(ShortMsg::control_change(0, 7, 100)),
        Caller::Vst,
        &mut outputs,
    );
    assert_eq!(outcome, MatchOutcome::Matched);
    assert_eq!(outputs.target_writes.len(), 1);
    match &outputs.target_writes[0] {
        TargetWrite::FxParameter { index, value } => {
            assert_eq!(*index, 9);
            assert_eq!(*value, ControlValue { value: 100, max: 127 });
        }
        other => panic!("expected a parameter write, got {:?}", other),
    }
}

#[test]
fn virtual_match_without_main_consumer_stays_unmatched() {
    let mut h = harness();
    let mut outputs = Outputs::new();
    h.processor.set_control_is_globally_enabled(true);
    let element = VirtualControlElement { kind: VirtualControlElementKind::Multi, index: 5 };
    let controller_mapping = RealTimeMapping::new(
        MappingId { value: 1 },
        Compartment::Controller,
        CompoundMappingSource::Midi(MidiSource::ControlChangeValue { channel: 0, controller: 7 }),
        Mode::new(),
        Some(RealTimeCompoundMappingTarget::Virtual(element)),
        on_options(),
        enabled(),
        no_lifecycle(),
    );
    h.processor.update_all_mappings(Compartment::Controller, vec![controller_mapping], &mut outputs);
    let outcome = h.processor.process_incoming_midi(
        event(ShortMsg::control_change(0, 7, 100)),
        Caller::Vst,
        &mut outputs,
    );
    assert_eq!(outcome, MatchOutcome::Unmatched);
    assert_eq!(outputs.target_writes.len(), 0);
}

#[test]
fn timing_clock_derives_tempo_and_matches_tempo_source() {
    let mut h = harness();
    let mut outputs = Outputs::new();
    h.processor.set_control_is_globally_enabled(true);
    h.processor.update_sample_rate(44100);
    let mapping = fx_parameter_mapping(1, MidiSource::ClockTempo);
    h.processor.update_all_mappings(Compartment::Main, vec![mapping], &mut outputs);
    let clock_msg = ShortMsg::from_bytes(0xF8, 0, 0).unwrap();
    // First tick primes only.
    let first = h.processor.process_incoming_midi(event(clock_msg), Caller::Vst, &mut outputs);
    assert_eq!(first, MatchOutcome::Unmatched);
    assert_eq!(outputs.target_writes.len(), 0);
    // Second tick, 22050 samples later: 5 beats per minute.
    h.processor.run_from_audio_hook_essential(22050, false, &mut outputs);
    let second = h.processor.process_incoming_midi(event(clock_msg), Caller::Vst, &mut outputs);
    assert_eq!(second, MatchOutcome::Matched);
    assert_eq!(outputs.target_writes.len(), 1);
    match &outputs.target_writes[0] {
        TargetWrite::FxParameter { value, .. } => {
            assert_eq!(*value, ControlValue { value: 5, max: 960 });
        }
        other => panic!("expected a parameter write, got {:?}", other),
    }
}

#[test]
fn unmatched_events_pass_through_when_policy_allows() {
    let mut h = harness();
    let mut outputs = Outputs::new();
    h.processor.set_control_is_globally_enabled(true);
    let mut settings = BasicSettings::initial();
    settings.let_unmatched_events_through = true;
    h.processor.update_settings(settings, &mut outputs);
    let msg = ShortMsg::note_on(0, 61, 10);
    let outcome = h.processor.process_incoming_midi(event(msg), Caller::Vst, &mut outputs);
    assert_eq!(outcome, MatchOutcome::Unmatched);
    assert_eq!(outputs.fx_output.len(), 1);
    match &outputs.fx_output[0].midi {
        OutgoingMidi::Short(m) => assert_eq!(*m, msg),
        other => panic!("expected the message to pass through, got {:?}", other),
    }
    // From the audio hook, the same unmatched event must be filtered in
    // (returned false means let through).
    let filter = h.processor.process_incoming_midi_from_audio_hook(event(msg), &mut outputs);
    assert!(!filter);
}

#[test]
fn matched_events_are_filtered_unless_policy_lets_them_through() {
    let mut h = harness();
    let mut outputs = Outputs::new();
    h.processor.set_control_is_globally_enabled(true);
    let mapping = fx_parameter_mapping(1, MidiSource::NoteVelocity { channel: 0, key: 60 });
    h.processor.update_all_mappings(Compartment::Main, vec![mapping], &mut outputs);
    let msg = ShortMsg::note_on(0, 60, 100);
    let filter = h.processor.process_incoming_midi_from_audio_hook(event(msg), &mut outputs);
    assert!(filter);
}

#[test]
fn single_mapping_update_sends_transition_lifecycle() {
    let mut h = harness();
    let mut outputs = Outputs::new();
    let mut settings = BasicSettings::initial();
    settings.midi_destination = Some(MidiDestination::Device(7));
    h.processor.update_settings(settings, &mut outputs);
    h.processor.set_feedback_is_globally_enabled(true, &mut outputs);
    let mapping = RealTimeMapping::new(
        MappingId { value: 1 },
        Compartment::Main,
        CompoundMappingSource::Midi(MidiSource::ControlChangeValue { channel: 0, controller: 1 }),
        Mode::new(),
        None,
        on_options(),
        enabled(),
        lifecycle(50, 51),
    );
    h.processor.update_single_mapping(Compartment::Main, Box::new(mapping), &mut outputs);
    assert_eq!(outputs.device_output.len(), 1);
    assert_eq!(device_cc(&outputs, 0), (7, 0xB0, 50, 127));
}

#[test]
fn send_midi_target_renders_pattern_to_fx_output() {
    let mut h = harness();
    let mut outputs = Outputs::new();
    h.processor.set_control_is_globally_enabled(true);
    let pattern = RawMidiPattern {
        bytes: vec![
            RawMidiPatternByte::Fixed(0xB0),
            RawMidiPatternByte::Fixed(0x07),
            RawMidiPatternByte::Value,
        ],
    };
    let mapping = RealTimeMapping::new(
        MappingId { value: 1 },
        Compartment::Main,
        CompoundMappingSource::Midi(MidiSource::ControlChangeValue { channel: 0, controller: 9 }),
        Mode::new(),
        Some(RealTimeCompoundMappingTarget::Reaper(RealTimeReaperTarget::SendMidi(
            MidiSendTarget::new(pattern, SendMidiDestination::FxOutput),
        ))),
        on_options(),
        enabled(),
        no_lifecycle(),
    );
    h.processor.update_all_mappings(Compartment::Main, vec![mapping], &mut outputs);
    let outcome = h.processor.process_incoming_midi(
        event(ShortMsg::control_change(0, 9, 64)),
        Caller::Vst,
        &mut outputs,
    );
    assert_eq!(outcome, MatchOutcome::Matched);
    assert_eq!(outputs.fx_output.len(), 1);
    match &outputs.fx_output[0].midi {
        OutgoingMidi::Raw(bytes) => assert_eq!(bytes, &vec![0xB0, 0x07, 64]),
        other => panic!("expected a rendered pattern, got {:?}", other),
    }
}

#[test]
fn deferred_fx_feedback_is_sent_inside_processing_callback() {
    let mut h = harness();
    let mut outputs = Outputs::new();
    // A deferred raw event waits in the feedback queue.
    h.processor
        .feedback_task_sender
        .send(FeedbackRealTimeTask::NonAllocatingFxOutputFeedback(OutgoingMidi::Raw(vec![
            0x90, 0x3C, 0x40,
        ])))
        .unwrap();
    h.processor.run_from_vst(&mut outputs);
    assert_eq!(outputs.fx_output.len(), 1);
    match &outputs.fx_output[0].midi {
        OutgoingMidi::Raw(bytes) => assert_eq!(bytes, &vec![0x90, 0x3C, 0x40]),
        other => panic!("expected the deferred event, got {:?}", other),
    }
}

#[test]
fn learn_poll_reports_deferred_control_change_capture() {
    let mut h = harness();
    let mut outputs = Outputs::new();
    h.processor.start_learn_source(true);
    let outcome = h.processor.process_incoming_midi(
        event(ShortMsg::control_change(0, 7, 10)),
        Caller::Vst,
        &mut outputs,
    );
    assert_eq!(outcome, MatchOutcome::Consumed);
    // The capture waits a poll window before it is reported.
    assert!(h.normal_main_receiver.try_recv().is_err());
    h.processor.run_from_audio_hook_control_and_learn(0, &mut outputs);
    h.processor.run_from_audio_hook_control_and_learn(0, &mut outputs);
    match h.normal_main_receiver.try_recv() {
        Ok(NormalRealTimeToMainThreadTask::CaptureMidi { allow_virtual_sources, .. }) => {
            assert!(allow_virtual_sources);
        }
        other => panic!("expected a capture task, got {:?}", other),
    }
}

#[test]
fn destination_change_replays_lifecycle_on_new_destination() {
    let mut h = harness();
    let mut outputs = Outputs::new();
    let mut settings = BasicSettings::initial();
    settings.midi_destination = Some(MidiDestination::Device(1));
    h.processor.update_settings(settings, &mut outputs);
    h.processor.set_feedback_is_globally_enabled(true, &mut outputs);
    let mapping = RealTimeMapping::new(
        MappingId { value: 1 },
        Compartment::Main,
        CompoundMappingSource::Midi(MidiSource::ControlChangeValue { channel: 0, controller: 1 }),
        Mode::new(),
        None,
        on_options(),
        enabled(),
        lifecycle(60, 61),
    );
    h.processor.update_all_mappings(Compartment::Main, vec![mapping], &mut outputs);
    let mut outputs = Outputs::new();
    let mut settings = BasicSettings::initial();
    settings.midi_destination = Some(MidiDestination::Device(2));
    h.processor.update_settings(settings, &mut outputs);
    // Deactivation and activation both go to the new destination.
    assert_eq!(outputs.device_output.len(), 2);
    assert_eq!(device_cc(&outputs, 0), (2, 0xB0, 61, 0));
    assert_eq!(device_cc(&outputs, 1), (2, 0xB0, 60, 127));
}

#[test]
fn control_disabled_consumes_everything() {
    let mut h = harness();
    let mut outputs = Outputs::new();
    h.processor.set_control_is_globally_enabled(true);
    h.processor.disable_control();
    let outcome = h.processor.process_incoming_midi(
        event(ShortMsg::note_on(0, 60, 100)),
        Caller::Vst,
        &mut outputs,
    );
    assert_eq!(outcome, MatchOutcome::Consumed);
    assert_eq!(outputs.target_writes.len(), 0);
    h.processor.return_to_control_mode();
    assert!(matches!(
        h.processor.control_mode,
        realearn_core::processor::ControlMode::Controlling
    ));
}

#[test]
fn failed_send_still_counts_as_matched() {
    // A send-MIDI target routed to the feedback output fails locally when
    // no feedback output is configured; the match outcome is unaffected.
    let mut h = harness();
    let mut outputs = Outputs::new();
    h.processor.set_control_is_globally_enabled(true);
    let pattern = RawMidiPattern { bytes: vec![RawMidiPatternByte::Value] };
    let mapping = RealTimeMapping::new(
        MappingId { value: 1 },
        Compartment::Main,
        CompoundMappingSource::Midi(MidiSource::ControlChangeValue { channel: 0, controller: 9 }),
        Mode::new(),
        Some(RealTimeCompoundMappingTarget::Reaper(RealTimeReaperTarget::SendMidi(
            MidiSendTarget::new(pattern, SendMidiDestination::FeedbackOutput),
        ))),
        on_options(),
        enabled(),
        no_lifecycle(),
    );
    h.processor.update_all_mappings(Compartment::Main, vec![mapping], &mut outputs);
    let outcome = h.processor.process_incoming_midi(
        event(ShortMsg::control_change(0, 9, 64)),
        Caller::Vst,
        &mut outputs,
    );
    assert_eq!(outcome, MatchOutcome::Matched);
    assert_eq!(outputs.fx_output.len(), 0);
    assert_eq!(outputs.device_output.len(), 0);
}

#[test]
fn partial_target_update_flips_activation_and_sends_lifecycle() {
    let mut h = harness();
    let mut outputs = Outputs::new();
    let mut settings = BasicSettings::initial();
    settings.midi_destination = Some(MidiDestination::Device(4));
    h.processor.update_settings(settings, &mut outputs);
    h.processor.set_feedback_is_globally_enabled(true, &mut outputs);
    let mut off = on_options();
    off.target_is_active = false;
    let mapping = RealTimeMapping::new(
        MappingId { value: 1 },
        Compartment::Main,
        CompoundMappingSource::Midi(MidiSource::ControlChangeValue { channel: 0, controller: 1 }),
        Mode::new(),
        None,
        off,
        enabled(),
        lifecycle(70, 71),
    );
    h.processor.update_all_mappings(Compartment::Main, vec![mapping], &mut outputs);
    // Installing an off-mapping emits nothing.
    assert_eq!(outputs.device_output.len(), 0);
    // Activating the target emits the activation list once.
    let mut outputs = Outputs::new();
    h.processor.update_targets_partially(
        Compartment::Main,
        vec![RealTimeTargetUpdate {
            id: MappingId { value: 1 },
            activation_change: Some(ActivationChange { is_active: true }),
            target_change: None,
        }],
        &mut outputs,
    );
    assert_eq!(outputs.device_output.len(), 1);
    assert_eq!(device_cc(&outputs, 0), (4, 0xB0, 70, 127));
}

#[test]
fn partial_mapping_update_deactivation_sends_deactivation_lifecycle() {
    let mut h = harness();
    let mut outputs = Outputs::new();
    let mut settings = BasicSettings::initial();
    settings.midi_destination = Some(MidiDestination::Device(4));
    h.processor.update_settings(settings, &mut outputs);
    h.processor.set_feedback_is_globally_enabled(true, &mut outputs);
    let mapping = RealTimeMapping::new(
        MappingId { value: 1 },
        Compartment::Main,
        CompoundMappingSource::Midi(MidiSource::ControlChangeValue { channel: 0, controller: 1 }),
        Mode::new(),
        None,
        on_options(),
        enabled(),
        lifecycle(80, 81),
    );
    h.processor.update_all_mappings(Compartment::Main, vec![mapping], &mut outputs);
    let mut outputs = Outputs::new();
    h.processor.update_mappings_partially(
        Compartment::Main,
        vec![RealTimeMappingUpdate {
            id: MappingId { value: 1 },
            activation_change: Some(ActivationChange { is_active: false }),
        }],
        &mut outputs,
    );
    assert_eq!(outputs.device_output.len(), 1);
    assert_eq!(device_cc(&outputs, 0), (4, 0xB0, 81, 0));
}

#[test]
fn disabled_mapping_never_matches() {
    let mut h = harness();
    let mut outputs = Outputs::new();
    h.processor.set_control_is_globally_enabled(true);
    let mut mapping = fx_parameter_mapping(1, MidiSource::NoteVelocity { channel: 0, key: 60 });
    mapping.persistent_state = PersistentMappingProcessingState { is_enabled: false };
    h.processor.update_all_mappings(Compartment::Main, vec![mapping], &mut outputs);
    let outcome = h.processor.process_incoming_midi(
        event(ShortMsg::note_on(0, 60, 100)),
        Caller::Vst,
        &mut outputs,
    );
    assert_eq!(outcome, MatchOutcome::Unmatched);
    assert_eq!(outputs.target_writes.len(), 0);
}

#[test]
fn control_globally_disabled_reports_unmatched() {
    let mut h = harness();
    let mut outputs = Outputs::new();
    let mapping = fx_parameter_mapping(1, MidiSource::NoteVelocity { channel: 0, key: 60 });
    h.processor.update_all_mappings(Compartment::Main, vec![mapping], &mut outputs);
    let outcome = h.processor.process_incoming_midi(
        event(ShortMsg::note_on(0, 60, 100)),
        Caller::Vst,
        &mut outputs,
    );
    assert_eq!(outcome, MatchOutcome::Unmatched);
    assert_eq!(outputs.target_writes.len(), 0);
}

#[test]
fn persistent_disable_sends_deactivation_lifecycle() {
    let mut h = harness();
    let mut outputs = Outputs::new();
    let mut settings = BasicSettings::initial();
    settings.midi_destination = Some(MidiDestination::Device(6));
    h.processor.update_settings(settings, &mut outputs);
    h.processor.set_feedback_is_globally_enabled(true, &mut outputs);
    let mapping = RealTimeMapping::new(
        MappingId { value: 1 },
        Compartment::Main,
        CompoundMappingSource::Midi(MidiSource::ControlChangeValue { channel: 0, controller: 1 }),
        Mode::new(),
        None,
        on_options(),
        enabled(),
        lifecycle(90, 91),
    );
    h.processor.update_all_mappings(Compartment::Main, vec![mapping], &mut outputs);
    let mut outputs = Outputs::new();
    h.processor.update_persistent_mapping_processing_state(
        realearn_core::mapping::QualifiedMappingId {
            compartment: Compartment::Main,
            id: MappingId { value: 1 },
        },
        PersistentMappingProcessingState { is_enabled: false },
        &mut outputs,
    );
    assert_eq!(outputs.device_output.len(), 1);
    assert_eq!(device_cc(&outputs, 0), (6, 0xB0, 91, 0));
    // The now-disabled mapping no longer matches.
    h.processor.set_control_is_globally_enabled(true);
    let outcome = h.processor.process_incoming_midi(
        event(ShortMsg::control_change(0, 1, 5)),
        Caller::Vst,
        &mut outputs,
    );
    assert_eq!(outcome, MatchOutcome::Unmatched);
}

#[test]
fn entering_learn_mode_discards_partial_composite_state() {
    let mut h = harness();
    let mut outputs = Outputs::new();
    h.processor.set_control_is_globally_enabled(true);
    let mapping = fx_parameter_mapping(
        1,
        MidiSource::ControlChange14BitValue { channel: 0, msb_controller: 1 },
    );
    h.processor.update_all_mappings(Compartment::Main, vec![mapping], &mut outputs);
    // Half of a 14-bit pair arrives, then learning starts and ends.
    let first = h.processor.process_incoming_midi(
        event(ShortMsg::control_change(0, 1, 64)),
        Caller::Vst,
        &mut outputs,
    );
    assert_eq!(first, MatchOutcome::Consumed);
    h.processor.start_learn_source(false);
    h.processor.return_to_control_mode();
    // The stale MSB must not complete: the LSB alone stays consumed and
    // writes nothing.
    let second = h.processor.process_incoming_midi(
        event(ShortMsg::control_change(0, 33, 0)),
        Caller::Vst,
        &mut outputs,
    );
    assert_eq!(second, MatchOutcome::Consumed);
    assert_eq!(outputs.target_writes.len(), 0);
}

#[test]
fn queued_learn_task_switches_mode_and_discards_decoder_state() {
    let mut h = harness();
    let mut outputs = Outputs::new();
    h.processor.set_control_is_globally_enabled(true);
    let mapping = fx_parameter_mapping(
        1,
        MidiSource::ControlChange14BitValue { channel: 0, msb_controller: 1 },
    );
    h.processor.update_all_mappings(Compartment::Main, vec![mapping], &mut outputs);
    // Half of a 14-bit pair is in flight when the learn task arrives.
    let _ = h.processor.process_incoming_midi(
        event(ShortMsg::control_change(0, 1, 64)),
        Caller::Vst,
        &mut outputs,
    );
    h.normal_sender
        .send(NormalRealTimeTask::StartLearnSource { allow_virtual_sources: true })
        .unwrap();
    h.processor.run_from_audio_hook_essential(64, false, &mut outputs);
    assert!(matches!(
        h.processor.control_mode,
        realearn_core::processor::ControlMode::LearningSource { allow_virtual_sources: true }
    ));
    // Back in control mode, the stale half pair must not complete.
    h.normal_sender.send(NormalRealTimeTask::ReturnToControlMode).unwrap();
    h.processor.run_from_audio_hook_essential(64, false, &mut outputs);
    let outcome = h.processor.process_incoming_midi(
        event(ShortMsg::control_change(0, 33, 0)),
        Caller::Vst,
        &mut outputs,
    );
    assert_eq!(outcome, MatchOutcome::Consumed);
    assert_eq!(outputs.target_writes.len(), 0);
}

#[test]
fn queued_feedback_toggle_emits_lifecycle_only_on_actual_change() {
    let mut h = harness();
    let mut outputs = Outputs::new();
    let mut settings = BasicSettings::initial();
    settings.midi_destination = Some(MidiDestination::Device(8));
    h.processor.update_settings(settings, &mut outputs);
    let mapping = RealTimeMapping::new(
        MappingId { value: 1 },
        Compartment::Main,
        CompoundMappingSource::Midi(MidiSource::ControlChangeValue { channel: 0, controller: 1 }),
        Mode::new(),
        None,
        on_options(),
        enabled(),
        lifecycle(100, 101),
    );
    h.processor.update_all_mappings(Compartment::Main, vec![mapping], &mut outputs);
    let mut outputs = Outputs::new();
    h.normal_sender
        .send(NormalRealTimeTask::UpdateFeedbackIsGloballyEnabled(true))
        .unwrap();
    h.processor.run_from_audio_hook_essential(64, false, &mut outputs);
    assert_eq!(outputs.device_output.len(), 1);
    assert_eq!(device_cc(&outputs, 0), (8, 0xB0, 100, 127));
    // Processing the same value again emits nothing.
    let mut outputs = Outputs::new();
    h.normal_sender
        .send(NormalRealTimeTask::UpdateFeedbackIsGloballyEnabled(true))
        .unwrap();
    h.processor.run_from_audio_hook_essential(64, false, &mut outputs);
    assert_eq!(outputs.device_output.len(), 0);
}

#[test]
fn debug_dump_reports_counts_and_state() {
    let mut h = harness();
    let mut outputs = Outputs::new();
    let on = fx_parameter_mapping(1, MidiSource::NoteVelocity { channel: 0, key: 60 });
    let mut off = fx_parameter_mapping(2, MidiSource::NoteVelocity { channel: 0, key: 61 });
    off.persistent_state = PersistentMappingProcessingState { is_enabled: false };
    h.processor.update_all_mappings(Compartment::Main, vec![on, off], &mut outputs);
    h.processor.run_from_audio_hook_essential(64, false, &mut outputs);
    h.normal_sender.send(NormalRealTimeTask::LogDebugInfo).unwrap();
    h.processor.run_from_audio_hook_essential(64, false, &mut outputs);
    match h.normal_main_receiver.try_recv() {
        Ok(NormalRealTimeToMainThreadTask::LogDebugInfo { info }) => {
            assert!(info.control_mode_is_controlling);
            assert!(!info.control_mode_is_learning);
            assert_eq!(info.main_mapping_count, 2);
            assert_eq!(info.enabled_main_mapping_count, 1);
            assert_eq!(info.controller_mapping_count, 0);
            assert_eq!(info.enabled_controller_mapping_count, 0);
            assert_eq!(info.sample_count, 128);
        }
        other => panic!("expected a state summary, got {:?}", other),
    }
}

#[test]
fn mapping_dump_reports_one_mapping() {
    let mut h = harness();
    let mut outputs = Outputs::new();
    let mapping = fx_parameter_mapping(7, MidiSource::NoteVelocity { channel: 0, key: 60 });
    h.processor.update_all_mappings(Compartment::Main, vec![mapping], &mut outputs);
    h.normal_sender
        .send(NormalRealTimeTask::LogMapping(Compartment::Main, MappingId { value: 7 }))
        .unwrap();
    h.normal_sender
        .send(NormalRealTimeTask::LogMapping(Compartment::Main, MappingId { value: 8 }))
        .unwrap();
    h.processor.run_from_audio_hook_essential(64, false, &mut outputs);
    match h.normal_main_receiver.try_recv() {
        Ok(NormalRealTimeToMainThreadTask::LogMapping { info }) => {
            assert_eq!(info.id, MappingId { value: 7 });
            assert!(info.exists);
            assert!(info.control_is_effectively_on);
            assert!(info.has_reaper_target);
        }
        other => panic!("expected a mapping snapshot, got {:?}", other),
    }
    match h.normal_main_receiver.try_recv() {
        Ok(NormalRealTimeToMainThreadTask::LogMapping { info }) => {
            assert_eq!(info.id, MappingId { value: 8 });
            assert!(!info.exists);
        }
        other => panic!("expected a mapping snapshot, got {:?}", other),
    }
}
