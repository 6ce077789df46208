//! Tests for formatting helpers and geometry units.

use realearn_core::ui_util::{format_raw_midi, DisplayRawMidi, OutputReason};
use realearn_core::units::{DialogUnits, Dimensions, Pixels, Point};
use realearn_core::target::{RawMidiPattern, RawMidiPatternByte};
use realearn_core::source::ControlValue;
use realearn_core::target::interpret_current_clip_slot_value;
use realearn_core::mapping::{MappingActivationEffect, MappingId};

#[test]
fn format_raw_midi_renders_spaced_uppercase_hex() {
    assert_eq!(format_raw_midi(&[0xF0, 0x7F, 0x00, 0xF7]), "F0 7F 00 F7");
    assert_eq!(format_raw_midi(&[0x0A]), "0A");
    assert_eq!(format_raw_midi(&[]), "");
}

#[test]
fn display_raw_midi_text_matches_formatter() {
    let bytes = [0x90u8, 0x3C, 0x40];
    let display = DisplayRawMidi(&bytes);
    assert_eq!(display.text(), format_raw_midi(&bytes));
    assert_eq!(display.text(), "90 3C 40");
}

#[test]
fn output_reason_labels() {
    assert_eq!(OutputReason::RealFeedback.label(), "Real feedback output");
    assert_eq!(OutputReason::VirtualFeedback.label(), "Virtual feedback output");
    assert_eq!(OutputReason::Lifecycle.label(), "Lifecycle output");
    assert_eq!(OutputReason::Target.label(), "Target output");
}

#[test]
fn units_expose_their_values() {
    assert_eq!(DialogUnits(17).get(), 17);
    assert_eq!(Pixels(23).get(), 23);
    assert_eq!(DialogUnits(17).as_raw(), 17);
    assert_eq!(Pixels(0xFFFF_FFFF).as_raw(), -1);
}

#[test]
fn points_and_dimensions_convert_both_ways() {
    let p = Point::new(DialogUnits(3), DialogUnits(4));
    let d = p.to_dimensions();
    assert_eq!(d.width, DialogUnits(3));
    assert_eq!(d.height, DialogUnits(4));
    let back = d.to_point();
    assert_eq!(back, p);
    let px = Dimensions::new(Pixels(800), Pixels(600));
    assert_eq!(px.to_vst(), (800, 600));
}

#[test]
fn pattern_renders_scaled_value_into_slot() {
    let pattern = RawMidiPattern {
        bytes: vec![
            RawMidiPatternByte::Fixed(0xB0),
            RawMidiPatternByte::Value,
            RawMidiPatternByte::Fixed(0x7F),
        ],
    };
    // 8192 of 16383 scales to 63 of 127.
    let rendered = pattern.to_concrete_midi_event(ControlValue { value: 8192, max: 16383 });
    assert_eq!(rendered, vec![0xB0, 63, 0x7F]);
    let rendered = pattern.to_concrete_midi_event(ControlValue { value: 127, max: 127 });
    assert_eq!(rendered, vec![0xB0, 127, 0x7F]);
}

#[test]
fn clip_slot_value_interpretation_fills_in_default() {
    assert_eq!(interpret_current_clip_slot_value(Some(5u32)), Some(5));
    assert_eq!(interpret_current_clip_slot_value::<u32>(None), Some(0));
}

#[test]
fn mapping_activation_effect_requires_a_change() {
    let id = MappingId { value: 9 };
    assert!(MappingActivationEffect::new(id, None, None).is_none());
    let effect = MappingActivationEffect::new(id, Some(true), None).unwrap();
    assert_eq!(effect.id, id);
    assert_eq!(effect.active_1_effect, Some(true));
    assert_eq!(effect.active_2_effect, None);
}
