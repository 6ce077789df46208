//! Bounded cross-thread task queues and the task vocabulary.
//!
//! Configuration updates travel from the slow path to the real-time engine,
//! control and diagnostic events travel back, and a feedback queue loops
//! deferred output back to the engine itself. All queues are bounded; a send
//! from the real-time context never blocks, and a full queue drops the task.

use vstd::prelude::*;
use crate::capture::MidiScanResult;
use crate::event::ControlEvent;
use crate::mapping::{
    Compartment,
    LifecyclePhase,
    MappingId,
    PersistentMappingProcessingState,
    QualifiedMappingId,
    RealTimeMapping,
    RealTimeMappingUpdate,
    RealTimeTargetUpdate,
};
use crate::match_outcome::MatchOutcome;
use crate::midi::IncomingMidiMessage;
use crate::source::{ControlValue, MidiSourceValue, VirtualSourceValue};
use crate::target::OutgoingMidi;

verus! {

/// Options that accompany a control event forwarded to the slow path.
#[derive(Copy, Clone, Debug, PartialEq, Eq, Structural)]
pub struct ControlOptions {
    /// Forward "send feedback after control" enforcement to the slow path.
    pub enforce_send_feedback_after_control: bool,
    /// The target must re-read its value from the host instead of trusting
    /// cached state, because an earlier match in the same event already
    /// wrote to a real target.
    pub enforce_target_refresh: bool,
}

impl ControlOptions {
    /// Options that enforce nothing.
    pub fn none() -> (r: ControlOptions)
        ensures
            !r.enforce_send_feedback_after_control,
            !r.enforce_target_refresh,
    {
        ControlOptions { enforce_send_feedback_after_control: false, enforce_target_refresh: false }
    }
}

/// Input routing of the engine.
#[derive(Copy, Clone, Debug, PartialEq, Eq, Hash, Structural)]
pub enum MidiControlInput {
    /// Messages that the host feeds into this plug-in instance.
    FxInput,
    /// Messages coming directly from a MIDI input device.
    Device(u8),
}

/// Output routing for feedback and lifecycle MIDI.
#[derive(Copy, Clone, Debug, PartialEq, Eq, Hash, Structural)]
pub enum MidiDestination {
    /// Through the host output of this plug-in instance.
    FxOutput,
    /// Directly to a MIDI output device.
    Device(u8),
}

/// The settings snapshot, replaced atomically by a slow-path task.
#[derive(Copy, Clone, Debug, PartialEq, Eq, Structural)]
pub struct BasicSettings {
    /// Which input feeds control.
    pub midi_control_input: MidiControlInput,
    /// Where feedback and lifecycle MIDI go, if anywhere.
    pub midi_destination: Option<MidiDestination>,
    /// Whether matched input events pass through to the host output.
    pub let_matched_events_through: bool,
    /// Whether unmatched input events pass through to the host output.
    pub let_unmatched_events_through: bool,
    /// Diagnostic logging of real control input.
    pub real_input_logging_enabled: bool,
    /// Diagnostic logging of virtual control input.
    pub virtual_input_logging_enabled: bool,
    /// Diagnostic logging of output.
    pub real_output_logging_enabled: bool,
}

impl BasicSettings {
    /// The default settings: control from FX input, no feedback output, no
    /// pass-through, no logging.
    pub open spec fn spec_initial() -> BasicSettings {
        BasicSettings {
            midi_control_input: MidiControlInput::FxInput,
            midi_destination: None,
            let_matched_events_through: false,
            let_unmatched_events_through: false,
            real_input_logging_enabled: false,
            virtual_input_logging_enabled: false,
            real_output_logging_enabled: false,
        }
    }

    /// The default settings, as executable code.
    pub fn initial() -> (r: BasicSettings)
        ensures
            r == BasicSettings::spec_initial(),
    {
        BasicSettings {
            midi_control_input: MidiControlInput::FxInput,
            midi_destination: None,
            let_matched_events_through: false,
            let_unmatched_events_through: false,
            real_input_logging_enabled: false,
            virtual_input_logging_enabled: false,
            real_output_logging_enabled: false,
        }
    }
}

/// A snapshot of the engine's state for diagnostics: the slow path is
/// responsible for presentation.
#[derive(Copy, Clone, Debug, PartialEq, Eq, Structural)]
pub struct DebugInfo {
    /// The control state machine's state.
    pub control_mode_is_controlling: bool,
    /// Whether learn mode is active.
    pub control_mode_is_learning: bool,
    /// Mappings in the main compartment.
    pub main_mapping_count: usize,
    /// Main-compartment mappings whose control is effectively on.
    pub enabled_main_mapping_count: usize,
    /// Mappings in the controller compartment.
    pub controller_mapping_count: usize,
    /// Controller-compartment mappings whose control is effectively on.
    pub enabled_controller_mapping_count: usize,
    /// The sample counter of the MIDI clock.
    pub sample_count: u64,
}

/// A snapshot of one mapping's processing state for diagnostics.
#[derive(Copy, Clone, Debug, PartialEq, Eq, Structural)]
pub struct MappingDebugInfo {
    pub compartment: Compartment,
    pub id: MappingId,
    /// Whether the compartment's table holds the mapping at all.
    pub exists: bool,
    /// Whether control through the mapping is effectively on.
    pub control_is_effectively_on: bool,
    /// Whether the mapping's resolved target is a real one.
    pub has_reaper_target: bool,
}

/// A configuration task sent from the slow path to the real-time engine.
#[derive(Debug)]
pub enum NormalRealTimeTask {
    UpdateAllMappings(Compartment, Vec<RealTimeMapping>),
    UpdateSingleMapping(Compartment, Box<RealTimeMapping>),
    UpdatePersistentMappingProcessingState {
        id: QualifiedMappingId,
        state: PersistentMappingProcessingState,
    },
    UpdateSettings(BasicSettings),
    /// Propagates target activation states and target swaps.
    UpdateTargetsPartially(Compartment, Vec<RealTimeTargetUpdate>),
    /// Updates the activation state of the affected mappings only.
    UpdateMappingsPartially(Compartment, Vec<RealTimeMappingUpdate>),
    UpdateSampleRate(u32),
    StartLearnSource { allow_virtual_sources: bool },
    DisableControl,
    ReturnToControlMode,
    UpdateControlIsGloballyEnabled(bool),
    UpdateFeedbackIsGloballyEnabled(bool),
    /// Asks the engine to report a state summary for diagnostics.
    LogDebugInfo,
    /// Asks the engine to report one mapping's state for diagnostics.
    LogMapping(Compartment, MappingId),
}

/// A control or diagnostic task sent from the real-time engine to the slow
/// path's control processor.
#[derive(Debug)]
pub enum ControlMainTask {
    /// A matched control event that the slow path must apply to its target.
    Control {
        compartment: Compartment,
        mapping_id: MappingId,
        event: ControlEvent<ControlValue>,
        options: ControlOptions,
    },
    LogRealControlInput { event: ControlEvent<MidiSourceValue>, match_outcome: MatchOutcome },
    LogRealLearnInput { event: ControlEvent<IncomingMidiMessage> },
    LogVirtualControlInput { event: ControlEvent<VirtualSourceValue>, match_outcome: MatchOutcome },
    LogTargetOutput { bytes: Vec<u8> },
}

/// An occasional task sent from the real-time engine to the slow path.
#[derive(Debug)]
pub enum NormalRealTimeToMainThreadTask {
    /// A learn-mode capture together with the learn options.
    CaptureMidi { scan_result: MidiScanResult, allow_virtual_sources: bool },
    /// The engine detected a possible discontinuity and asks the slow path
    /// to push the complete current state again.
    FullResyncToRealTimeProcessorPlease,
    /// Diagnostic record of lifecycle MIDI that was sent.
    LogLifecycleOutput { value: MidiSourceValue },
    /// The engine's state summary, for presentation by the slow path.
    LogDebugInfo { info: DebugInfo },
    /// One mapping's state, for presentation by the slow path.
    LogMapping { info: MappingDebugInfo },
}

/// A feedback task looped back to the engine, to be performed inside the
/// host's processing callback.
#[derive(Debug)]
pub enum FeedbackRealTimeTask {
    /// Feedback for the host output of this instance.
    FxOutputFeedback(MidiSourceValue),
    /// A small already-rendered MIDI event whose send had to be deferred
    /// until the host callback window.
    NonAllocatingFxOutputFeedback(OutgoingMidi),
    /// Lifecycle MIDI for one mapping, deferred because the feedback output
    /// is the host output.
    SendLifecycleMidi(Compartment, MappingId, LifecyclePhase),
}

/// A value that the real-time context must not free in place: deallocation
/// may take unbounded time, so ownership is handed to the slow path.
#[derive(Debug)]
pub enum Garbage {
    RealTimeMappings(Vec<RealTimeMapping>),
    BoxedRealTimeMapping(Box<RealTimeMapping>),
    TargetUpdates(Vec<RealTimeTargetUpdate>),
    MappingUpdates(Vec<RealTimeMappingUpdate>),
    NormalRealTimeTask(NormalRealTimeTask),
    FeedbackRealTimeTask(FeedbackRealTimeTask),
}

#[verifier::external_type_specification]
#[verifier::external_body]
#[verifier::reject_recursive_types(T)]
pub struct ExSender<T>(crossbeam_channel::Sender<T>);

#[verifier::external_type_specification]
#[verifier::external_body]
#[verifier::reject_recursive_types(T)]
pub struct ExReceiver<T>(crossbeam_channel::Receiver<T>);

/// Relies on crossbeam_channel::Sender::try_send: it never blocks, and it
/// returns `Ok` only when the message was put into the queue. A full or
/// disconnected queue makes it return the message in an error, which this
/// wrapper drops.
#[verifier::external_body]
pub fn channel_try_send<T>(sender: &crossbeam_channel::Sender<T>, value: T) -> bool {
    sender.try_send(value).is_ok()
}

/// Relies on crossbeam_channel::Receiver::try_recv: it never blocks, and it
/// returns a message only when one was queued.
#[verifier::external_body]
pub fn channel_try_recv<T>(receiver: &crossbeam_channel::Receiver<T>) -> Option<T> {
    receiver.try_recv().ok()
}

/// The disposal facility: ownership of replaced values is pushed onto a
/// bounded queue that the slow path drains, so that nothing is freed on the
/// time-critical thread. The queue must be sized generously; a full queue
/// leaves no choice but to drop (and thus free) the value in place.
pub struct GarbageBin {
    sender: crossbeam_channel::Sender<Garbage>,
}

impl GarbageBin {
    /// Creates a bin that hands disposed values to the given queue.
    pub fn new(sender: crossbeam_channel::Sender<Garbage>) -> GarbageBin {
        GarbageBin { sender }
    }

    /// Hands a value to the disposal queue.
    pub fn dispose(&self, garbage: Garbage) {
        let _ = channel_try_send(&self.sender, garbage);
    }

    /// Hands a single mapping to the disposal queue.
    pub fn dispose_real_time_mapping(&self, m: RealTimeMapping) {
        self.dispose(Garbage::BoxedRealTimeMapping(Box::new(m)));
    }
}

} // verus!
