//! The real-time projection of a mapping and the update types that patch it.

use vstd::prelude::*;
use crate::midi::ShortMsg;
use crate::mode::Mode;
use crate::source::{
    CompoundMappingSource,
    ControlValue,
    MidiSourceValue,
    VirtualSourceValue,
};
use crate::target::{RealTimeCompoundMappingTarget, RealTimeReaperTarget};

verus! {

/// Identifier of a mapping; unique only within its compartment.
#[derive(Copy, Clone, Debug, PartialEq, Eq, Hash, Structural)]
pub struct MappingId {
    pub value: u32,
}

/// One of the two independent mapping namespaces.
#[derive(Copy, Clone, Debug, PartialEq, Eq, Hash, Structural)]
pub enum Compartment {
    /// Maps physical controls to virtual control elements (or directly to
    /// real targets).
    Controller,
    /// Maps virtual or real sources to real targets.
    Main,
}

/// A mapping id qualified by its compartment.
#[derive(Copy, Clone, Debug, PartialEq, Eq, Hash, Structural)]
pub struct QualifiedMappingId {
    pub compartment: Compartment,
    pub id: MappingId,
}

/// Whether lifecycle MIDI announces a mapping turning on or off.
#[derive(Copy, Clone, Debug, PartialEq, Eq, Structural)]
pub enum LifecyclePhase {
    Activation,
    Deactivation,
}

impl LifecyclePhase {
    /// The phase that announces the given on-state.
    pub fn from_is_active(is_active: bool) -> (r: LifecyclePhase)
        ensures
            r == if is_active {
                LifecyclePhase::Activation
            } else {
                LifecyclePhase::Deactivation
            },
    {
        if is_active {
            LifecyclePhase::Activation
        } else {
            LifecyclePhase::Deactivation
        }
    }
}

/// One MIDI message of a lifecycle message list.
#[derive(Clone, Debug)]
pub enum LifecycleMidiMessage {
    /// A short message.
    Short(ShortMsg),
    /// A raw byte buffer.
    Raw(Vec<u8>),
}

/// The MIDI message lists a mapping sends when it turns on or off.
#[derive(Clone, Debug)]
pub struct LifecycleMidiData {
    /// Sent when the mapping turns on.
    pub activation_midi_messages: Vec<LifecycleMidiMessage>,
    /// Sent when the mapping turns off.
    pub deactivation_midi_messages: Vec<LifecycleMidiMessage>,
}

/// The part of a mapping's state that the user edits and that survives
/// restarts.
#[derive(Copy, Clone, Debug, PartialEq, Eq, Structural)]
pub struct PersistentMappingProcessingState {
    /// Whether the user has the mapping switched on at all.
    pub is_enabled: bool,
}

/// How feedback is sent after this mapping controls its target.
#[derive(Copy, Clone, Debug, PartialEq, Eq, Structural)]
pub enum FeedbackSendBehavior {
    Normal,
    SendFeedbackAfterControl,
}

/// Options of the real-time projection of a mapping.
#[derive(Copy, Clone, Debug, PartialEq, Eq, Structural)]
pub struct ProcessorMappingOptions {
    /// Whether the mapping's activation conditions hold.
    pub mapping_is_active: bool,
    /// Whether the mapping's target is resolved and active.
    pub target_is_active: bool,
    /// Feedback behavior after control.
    pub feedback_send_behavior: FeedbackSendBehavior,
}

/// An actual change of a mapping's or target's activation state.
///
/// It is important that this reflects a real change; the engine sends
/// lifecycle MIDI when it processes one.
#[derive(Copy, Clone, Debug, PartialEq, Eq, Structural)]
pub struct ActivationChange {
    pub is_active: bool,
}

/// A partial update of one mapping's target or target-activation state.
#[derive(Clone, Debug)]
pub struct RealTimeTargetUpdate {
    pub id: MappingId,
    pub activation_change: Option<ActivationChange>,
    pub target_change: Option<Option<RealTimeCompoundMappingTarget>>,
}

/// A partial update of one mapping's activation state.
#[derive(Copy, Clone, Debug, PartialEq, Eq, Structural)]
pub struct RealTimeMappingUpdate {
    pub id: MappingId,
    pub activation_change: Option<ActivationChange>,
}

/// The effect a parameter change has on a mapping's two activation
/// conditions; `None` in a field means that condition did not change.
#[derive(Copy, Clone, Debug, PartialEq, Eq, Structural)]
pub struct MappingActivationEffect {
    pub id: MappingId,
    pub active_1_effect: Option<bool>,
    pub active_2_effect: Option<bool>,
}

impl MappingActivationEffect {
    /// Builds an activation effect, or nothing when neither condition
    /// changed.
    pub fn new(id: MappingId, active_1_effect: Option<bool>, active_2_effect: Option<bool>) -> (r:
        Option<MappingActivationEffect>)
        ensures
            r is Some <==> (active_1_effect is Some || active_2_effect is Some),
            r is Some ==> r->0 == (MappingActivationEffect { id, active_1_effect, active_2_effect }),
    {
        if active_1_effect.is_none() && active_2_effect.is_none() {
            return None;
        }
        Some(MappingActivationEffect { id, active_1_effect, active_2_effect })
    }
}

/// What a controller mapping match produces: either a virtual source value
/// that main mappings consume, or a control value for a real target.
#[derive(Copy, Clone, Debug, PartialEq, Eq, Structural)]
pub enum PartialControlMatch {
    ProcessVirtual(VirtualSourceValue),
    ProcessDirect(ControlValue),
}


/// The mapping after one partial target update: the target-activation flag
/// and the resolved target are replaced as far as the update carries them;
/// everything else is kept.
pub open spec fn spec_with_target_update(
    m: RealTimeMapping,
    update: RealTimeTargetUpdate,
) -> RealTimeMapping {
    RealTimeMapping {
        options: ProcessorMappingOptions {
            target_is_active: match update.activation_change {
                Some(c) => c.is_active,
                None => m.options.target_is_active,
            },
            ..m.options
        },
        resolved_target: match update.target_change {
            Some(t) => t,
            None => m.resolved_target,
        },
        ..m
    }
}

/// The mapping after one partial activation update: the mapping-activation
/// flag is replaced if the update carries a change; everything else is
/// kept.
pub open spec fn spec_with_mapping_update(
    m: RealTimeMapping,
    update: RealTimeMappingUpdate,
) -> RealTimeMapping {
    RealTimeMapping {
        options: ProcessorMappingOptions {
            mapping_is_active: match update.activation_change {
                Some(c) => c.is_active,
                None => m.options.mapping_is_active,
            },
            ..m.options
        },
        ..m
    }
}

/// The real-time projection of one mapping: a compiled source matcher, a
/// transformation with internal state, an optional resolved target and the
/// activation flags, plus the lifecycle MIDI message lists.
///
/// The slow path constructs these and replaces them wholesale or patches
/// them through the task queue; the real-time engine only reads them and
/// performs the narrow in-place updates pushed to it.
#[derive(Clone, Debug)]
pub struct RealTimeMapping {
    pub id: MappingId,
    pub compartment: Compartment,
    pub source: CompoundMappingSource,
    /// The transformation between matched source values and target values.
    pub mode: Mode,
    /// The resolved target, absent when the target could not be resolved or
    /// lives only in the slow path.
    pub resolved_target: Option<RealTimeCompoundMappingTarget>,
    pub options: ProcessorMappingOptions,
    pub persistent_state: PersistentMappingProcessingState,
    pub lifecycle_midi_data: LifecycleMidiData,
}

impl RealTimeMapping {
    /// The mapping's id.
    pub open spec fn spec_id(self) -> MappingId {
        self.id
    }

    /// The mapping's compartment.
    pub open spec fn spec_compartment(self) -> Compartment {
        self.compartment
    }

    /// The mapping's source matcher.
    pub open spec fn spec_source(self) -> CompoundMappingSource {
        self.source
    }

    /// The mapping's options.
    pub open spec fn spec_options(self) -> ProcessorMappingOptions {
        self.options
    }

    /// The mapping's persistent state.
    pub open spec fn spec_persistent_state(self) -> PersistentMappingProcessingState {
        self.persistent_state
    }

    /// The mapping's lifecycle MIDI data.
    pub open spec fn spec_lifecycle_midi_data(self) -> LifecycleMidiData {
        self.lifecycle_midi_data
    }

    /// Creates the real-time projection of a mapping.
    pub fn new(
        id: MappingId,
        compartment: Compartment,
        source: CompoundMappingSource,
        mode: Mode,
        resolved_target: Option<RealTimeCompoundMappingTarget>,
        options: ProcessorMappingOptions,
        persistent_state: PersistentMappingProcessingState,
        lifecycle_midi_data: LifecycleMidiData,
    ) -> (r: RealTimeMapping)
        ensures
            r.spec_id() == id,
            r.spec_compartment() == compartment,
            r.spec_source() == source,
            r.mode == mode,
            r.resolved_target == resolved_target,
            r.spec_options() == options,
            r.spec_persistent_state() == persistent_state,
            r.spec_lifecycle_midi_data() == lifecycle_midi_data,
    {
        RealTimeMapping {
            id,
            compartment,
            source,
            mode,
            resolved_target,
            options,
            persistent_state,
            lifecycle_midi_data,
        }
    }

    /// The mapping's id.
    pub fn id(&self) -> (r: MappingId)
        ensures
            r == self.spec_id(),
    {
        self.id
    }

    /// The mapping's compartment.
    pub fn compartment(&self) -> (r: Compartment)
        ensures
            r == self.spec_compartment(),
    {
        self.compartment
    }

    /// The mapping's source matcher.
    pub fn source(&self) -> (r: &CompoundMappingSource)
        ensures
            *r == self.spec_source(),
    {
        &self.source
    }

    /// The mapping's options.
    pub fn options(&self) -> (r: ProcessorMappingOptions)
        ensures
            r == self.spec_options(),
    {
        self.options
    }

    /// Whether control through this mapping is effectively on: the user has
    /// it enabled, its activation conditions hold and its target is active.
    pub open spec fn spec_control_is_effectively_on(self) -> bool {
        &&& self.spec_persistent_state().is_enabled
        &&& self.spec_options().mapping_is_active
        &&& self.spec_options().target_is_active
    }

    /// Whether control through this mapping is effectively on.
    pub fn control_is_effectively_on(&self) -> (r: bool)
        ensures
            r == self.spec_control_is_effectively_on(),
    {
        self.persistent_state.is_enabled && self.options.mapping_is_active
            && self.options.target_is_active
    }

    /// Whether feedback for this mapping is effectively on.
    pub open spec fn spec_feedback_is_effectively_on(self) -> bool {
        self.spec_control_is_effectively_on()
    }

    /// Whether feedback for this mapping is effectively on.
    pub fn feedback_is_effectively_on(&self) -> (r: bool)
        ensures
            r == self.spec_feedback_is_effectively_on(),
    {
        self.control_is_effectively_on()
    }

    /// Whether feedback would be on if only the target's activation state is
    /// left out of account.
    pub fn feedback_is_effectively_on_ignoring_target_activation(&self) -> (r: bool)
        ensures
            r == (self.spec_persistent_state().is_enabled
                && self.spec_options().mapping_is_active),
    {
        self.persistent_state.is_enabled && self.options.mapping_is_active
    }

    /// Whether feedback would be on if only the mapping's activation state
    /// is left out of account.
    pub fn feedback_is_effectively_on_ignoring_mapping_activation(&self) -> (r: bool)
        ensures
            r == (self.spec_persistent_state().is_enabled
                && self.spec_options().target_is_active),
    {
        self.persistent_state.is_enabled && self.options.target_is_active
    }

    /// Whether the mapping's resolved target is a real one.
    pub fn has_reaper_target(&self) -> (r: bool)
        ensures
            r == (self.resolved_target matches Some(RealTimeCompoundMappingTarget::Reaper(_))),
    {
        matches!(self.resolved_target, Some(RealTimeCompoundMappingTarget::Reaper(_)))
    }

    /// The lifecycle MIDI messages of one phase.
    pub fn lifecycle_midi_messages(&self, phase: LifecyclePhase) -> (r: &Vec<LifecycleMidiMessage>)
        ensures
            *r == if phase is Activation {
                self.spec_lifecycle_midi_data().activation_midi_messages
            } else {
                self.spec_lifecycle_midi_data().deactivation_midi_messages
            },
    {
        match phase {
            LifecyclePhase::Activation => &self.lifecycle_midi_data.activation_midi_messages,
            LifecyclePhase::Deactivation => &self.lifecycle_midi_data.deactivation_midi_messages,
        }
    }

    /// Whether at least one enabled composite source of this mapping
    /// absorbs the given primitive message.
    pub fn consumes(&self, msg: &ShortMsg) -> (r: bool)
        requires
            msg.wf(),
        ensures
            r == match self.spec_source() {
                CompoundMappingSource::Midi(s) => s.spec_consumes(*msg),
                CompoundMappingSource::Virtual(_) => false,
            },
    {
        match &self.source {
            CompoundMappingSource::Midi(s) => s.consumes(msg),
            CompoundMappingSource::Virtual(_) => false,
        }
    }

    /// Applies a partial target update: swaps the resolved target and flips
    /// the target-activation flag as far as the update carries them.
    pub fn update_target(&mut self, update: RealTimeTargetUpdate)
        ensures
            *final(self) == spec_with_target_update(*old(self), update),
            final(self).mode == old(self).mode,
            final(self).spec_id() == old(self).spec_id(),
            final(self).spec_compartment() == old(self).spec_compartment(),
            final(self).spec_source() == old(self).spec_source(),
            final(self).spec_persistent_state() == old(self).spec_persistent_state(),
            final(self).spec_lifecycle_midi_data() == old(self).spec_lifecycle_midi_data(),
            final(self).spec_options().mapping_is_active == old(
                self,
            ).spec_options().mapping_is_active,
            final(self).spec_options().feedback_send_behavior == old(
                self,
            ).spec_options().feedback_send_behavior,
            final(self).spec_options().target_is_active == match update.activation_change {
                Some(c) => c.is_active,
                None => old(self).spec_options().target_is_active,
            },
            final(self).resolved_target == match update.target_change {
                Some(t) => t,
                None => old(self).resolved_target,
            },
    {
        if let Some(change) = update.activation_change {
            self.options.target_is_active = change.is_active;
        }
        if let Some(target) = update.target_change {
            self.resolved_target = target;
        }
    }

    /// Applies a partial mapping update: flips the mapping-activation flag
    /// if the update carries a change.
    pub fn update(&mut self, update: &RealTimeMappingUpdate)
        ensures
            *final(self) == spec_with_mapping_update(*old(self), *update),
            final(self).spec_id() == old(self).spec_id(),
            final(self).spec_compartment() == old(self).spec_compartment(),
            final(self).spec_source() == old(self).spec_source(),
            final(self).spec_persistent_state() == old(self).spec_persistent_state(),
            final(self).spec_lifecycle_midi_data() == old(self).spec_lifecycle_midi_data(),
            final(self).resolved_target == old(self).resolved_target,
            final(self).mode == old(self).mode,
            final(self).spec_options().target_is_active == old(
                self,
            ).spec_options().target_is_active,
            final(self).spec_options().feedback_send_behavior == old(
                self,
            ).spec_options().feedback_send_behavior,
            final(self).spec_options().mapping_is_active == match update.activation_change {
                Some(c) => c.is_active,
                None => old(self).spec_options().mapping_is_active,
            },
    {
        if let Some(change) = update.activation_change {
            self.options.mapping_is_active = change.is_active;
        }
    }

    /// Replaces the persistent part of the mapping's state.
    pub fn update_persistent_processing_state(&mut self, state: PersistentMappingProcessingState)
        ensures
            *final(self) == (RealTimeMapping { persistent_state: state, ..*old(self) }),
            final(self).spec_id() == old(self).spec_id(),
            final(self).spec_compartment() == old(self).spec_compartment(),
            final(self).spec_source() == old(self).spec_source(),
            final(self).spec_lifecycle_midi_data() == old(self).spec_lifecycle_midi_data(),
            final(self).resolved_target == old(self).resolved_target,
            final(self).spec_options() == old(self).spec_options(),
            final(self).spec_persistent_state() == state,
    {
        self.persistent_state = state;
    }


    /// Takes the resolved target out of the mapping, leaving none behind.
    pub fn take_target(&mut self) -> (r: Option<RealTimeCompoundMappingTarget>)
        ensures
            r == old(self).resolved_target,
            final(self).resolved_target is None,
            final(self).spec_id() == old(self).spec_id(),
            final(self).spec_compartment() == old(self).spec_compartment(),
            final(self).spec_source() == old(self).spec_source(),
            final(self).spec_options() == old(self).spec_options(),
            final(self).spec_persistent_state() == old(self).spec_persistent_state(),
            final(self).spec_lifecycle_midi_data() == old(self).spec_lifecycle_midi_data(),
            final(self).mode == old(self).mode,
    {
        let mut taken: Option<RealTimeCompoundMappingTarget> = None;
        core::mem::swap(&mut taken, &mut self.resolved_target);
        taken
    }

    /// Puts a resolved target back into the mapping.
    pub fn put_target(&mut self, target: Option<RealTimeCompoundMappingTarget>)
        ensures
            final(self).resolved_target == target,
            final(self).spec_id() == old(self).spec_id(),
            final(self).spec_compartment() == old(self).spec_compartment(),
            final(self).spec_source() == old(self).spec_source(),
            final(self).spec_options() == old(self).spec_options(),
            final(self).spec_persistent_state() == old(self).spec_persistent_state(),
            final(self).spec_lifecycle_midi_data() == old(self).spec_lifecycle_midi_data(),
            final(self).mode == old(self).mode,
    {
        self.resolved_target = target;
    }

    /// Runs the mapping's transformation on a control value, given the
    /// target's current value.
    pub fn control_via_mode(&mut self, v: ControlValue, target_current: Option<ControlValue>) -> (r:
        Option<ControlValue>)
        ensures
            r == crate::mode::Mode::spec_control(v, target_current),
            final(self).mode.spec_last_value() == Some(v),
            final(self).resolved_target == old(self).resolved_target,
            final(self).spec_id() == old(self).spec_id(),
            final(self).spec_compartment() == old(self).spec_compartment(),
            final(self).spec_source() == old(self).spec_source(),
            final(self).spec_options() == old(self).spec_options(),
            final(self).spec_persistent_state() == old(self).spec_persistent_state(),
            final(self).spec_lifecycle_midi_data() == old(self).spec_lifecycle_midi_data(),
    {
        self.mode.control(v, target_current)
    }

    /// Matches a MIDI source value against this controller mapping's source
    /// and resolves the virtual indirection: a match against a mapping with
    /// a virtual target yields a virtual source value, a match against one
    /// with a real (or no resolved) target yields the control value itself.
    pub fn control_midi_virtualizing(&self, value: &MidiSourceValue) -> (r: Option<
        PartialControlMatch,
    >)
        requires
            value.wf(),
        ensures
            match self.spec_source() {
                CompoundMappingSource::Midi(s) => match s.spec_control(*value) {
                    Some(cv) => r == Some(
                        match self.resolved_target {
                            Some(RealTimeCompoundMappingTarget::Virtual(element)) =>
                                PartialControlMatch::ProcessVirtual(
                                VirtualSourceValue { element, value: cv },
                            ),
                            _ => PartialControlMatch::ProcessDirect(cv),
                        },
                    ),
                    None => r is None,
                },
                CompoundMappingSource::Virtual(_) => r is None,
            },
    {
        let s = match &self.source {
            CompoundMappingSource::Midi(s) => s,
            CompoundMappingSource::Virtual(_) => {
                return None;
            },
        };
        let cv = match s.control(value) {
            Some(cv) => cv,
            None => {
                return None;
            },
        };
        match &self.resolved_target {
            Some(RealTimeCompoundMappingTarget::Virtual(element)) => Some(
                PartialControlMatch::ProcessVirtual(
                    VirtualSourceValue { element: *element, value: cv },
                ),
            ),
            _ => Some(PartialControlMatch::ProcessDirect(cv)),
        }
    }
}

} // verus!
