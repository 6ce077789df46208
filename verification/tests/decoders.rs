//! Tests for the protocol decoders, the clock and the capture scanner.

use realearn_core::capture::{MidiScanner, MidiScanResult, SourceCharacter};
use realearn_core::cc14::ControlChange14BitScanner;
use realearn_core::clock::MidiClockCalculator;
use realearn_core::event::SampleOffset;
use realearn_core::midi::{classify_midi_message, IncomingMidiMessage, MidiMessageClassification, ShortMsg};
use realearn_core::nrpn::PollingParameterNumberScanner;
use helgoboss_midi::{Channel, ControllerNumber, RawShortMessage, ShortMessageFactory, U7};
use helgoboss_midi::PollingParameterNumberMessageScanner;
use helgoboss_midi::ControlChange14BitMessageScanner;
use std::time::Duration;

fn cc(channel: u8, controller: u8, value: u8) -> ShortMsg {
    ShortMsg::control_change(channel, controller, value)
}

#[test]
fn nrpn_14_bit_sequence_emits_exactly_one_message() {
    let mut scanner = PollingParameterNumberScanner::new(1);
    assert!(scanner.feed(&cc(0, 101, 3)).is_none());
    assert!(scanner.feed(&cc(0, 100, 36)).is_none());
    assert!(scanner.feed(&cc(0, 6, 117)).is_none());
    let msg = scanner.feed(&cc(0, 38, 24)).expect("14-bit sequence must complete");
    assert_eq!(msg.channel, 0);
    assert_eq!(msg.number, 3 * 128 + 36);
    assert_eq!(msg.value, 117 * 128 + 24);
    assert!(msg.is_registered);
    assert!(msg.is_14_bit);
    // No further message without further input.
    assert!(scanner.poll(0).is_none());
}

#[test]
fn nrpn_seven_bit_sequence_resolves_on_poll() {
    let mut scanner = PollingParameterNumberScanner::new(1);
    assert!(scanner.feed(&cc(2, 99, 3)).is_none());
    assert!(scanner.feed(&cc(2, 98, 37)).is_none());
    assert!(scanner.feed(&cc(2, 6, 126)).is_none());
    let msg = scanner.poll(2).expect("wait window elapsed");
    assert_eq!(msg.channel, 2);
    assert_eq!(msg.number, 3 * 128 + 37);
    assert_eq!(msg.value, 126);
    assert!(!msg.is_registered);
    assert!(!msg.is_14_bit);
    assert!(scanner.poll(2).is_none());
}

#[test]
fn nrpn_matches_reference_decoder() {
    // The same stream through the reference implementation must yield the
    // same numbers.
    let mut theirs = PollingParameterNumberMessageScanner::new(Duration::from_millis(0));
    let mut ours = PollingParameterNumberScanner::new(1);
    let stream: [(u8, u8, u8); 3] = [(2, 99, 3), (2, 98, 37), (2, 6, 126)];
    for (ch, num, val) in stream {
        let their_msg = RawShortMessage::control_change(
            Channel::new(ch),
            ControllerNumber::new(num),
            U7::new(val),
        );
        assert_eq!(theirs.feed(&their_msg), [None, None]);
        assert!(ours.feed(&cc(ch, num, val)).is_none());
    }
    let their_result = theirs.poll(Channel::new(2)).expect("reference resolves");
    let our_result = ours.poll(2).expect("ours resolves");
    assert_eq!(u16::from(their_result.number()), our_result.number);
    assert_eq!(their_result.value().get() as u16, our_result.value);
    assert_eq!(their_result.is_registered(), our_result.is_registered);
}

#[test]
fn nrpn_lone_value_lsb_times_out_silently() {
    let mut scanner = PollingParameterNumberScanner::new(1);
    assert!(scanner.feed(&cc(2, 99, 3)).is_none());
    assert!(scanner.feed(&cc(2, 98, 37)).is_none());
    assert!(scanner.feed(&cc(2, 38, 24)).is_none());
    assert!(scanner.poll(2).is_none());
    // A subsequent independent sequence is unaffected.
    assert!(scanner.feed(&cc(2, 6, 40)).is_none());
    assert!(scanner.feed(&cc(2, 38, 3)).is_some());
}

#[test]
fn nrpn_channels_are_independent() {
    let mut scanner = PollingParameterNumberScanner::new(1);
    assert!(scanner.feed(&cc(0, 101, 3)).is_none());
    assert!(scanner.feed(&cc(2, 99, 3)).is_none());
    assert!(scanner.feed(&cc(0, 100, 36)).is_none());
    assert!(scanner.feed(&cc(2, 98, 37)).is_none());
    assert!(scanner.feed(&cc(0, 38, 24)).is_none());
    assert!(scanner.feed(&cc(2, 6, 126)).is_none());
    let on_0 = scanner.feed(&cc(0, 6, 117)).expect("14-bit on channel 0");
    assert_eq!(on_0.number, 3 * 128 + 36);
    assert_eq!(on_0.value, 117 * 128 + 24);
    let on_2 = scanner.poll(2).expect("7-bit on channel 2");
    assert_eq!(on_2.number, 3 * 128 + 37);
    assert_eq!(on_2.value, 126);
}

#[test]
fn nrpn_reset_discards_partial_state() {
    let mut scanner = PollingParameterNumberScanner::new(1);
    assert!(scanner.feed(&cc(0, 99, 1)).is_none());
    assert!(scanner.feed(&cc(0, 98, 2)).is_none());
    assert!(scanner.feed(&cc(0, 6, 3)).is_none());
    scanner.reset();
    assert!(scanner.poll(0).is_none());
}

#[test]
fn cc14_pair_collapses_into_one_value() {
    let mut scanner = ControlChange14BitScanner::new();
    assert!(scanner.feed(&cc(5, 2, 8)).is_none());
    let msg = scanner.feed(&cc(5, 34, 33)).expect("pair must complete");
    assert_eq!(msg.channel, 5);
    assert_eq!(msg.msb_controller, 2);
    assert_eq!(msg.value, 8 * 128 + 33);
}

#[test]
fn cc14_matches_reference_decoder() {
    let mut theirs = ControlChange14BitMessageScanner::new();
    let mut ours = ControlChange14BitScanner::new();
    let stream: [(u8, u8, u8); 2] = [(5, 2, 8), (5, 34, 33)];
    let mut their_result = None;
    let mut our_result = None;
    for (ch, num, val) in stream {
        let their_msg = RawShortMessage::control_change(
            Channel::new(ch),
            ControllerNumber::new(num),
            U7::new(val),
        );
        their_result = theirs.feed(&their_msg);
        our_result = ours.feed(&cc(ch, num, val));
    }
    let their_result = their_result.expect("reference completes");
    let our_result = our_result.expect("ours completes");
    assert_eq!(u16::from(their_result.value()), our_result.value);
    assert_eq!(
        their_result.msb_controller_number().get(),
        our_result.msb_controller
    );
}

#[test]
fn cc14_mismatched_lsb_is_ignored() {
    let mut scanner = ControlChange14BitScanner::new();
    assert!(scanner.feed(&cc(5, 2, 8)).is_none());
    // Controller 40 is not the partner of controller 2.
    assert!(scanner.feed(&cc(5, 40, 33)).is_none());
    // The original pair still completes afterwards.
    assert!(scanner.feed(&cc(5, 34, 33)).is_some());
}

#[test]
fn classification_distinguishes_timing_and_housekeeping() {
    let clock = IncomingMidiMessage::Short(ShortMsg::from_bytes(0xF8, 0, 0).unwrap());
    let sensing = IncomingMidiMessage::Short(ShortMsg::from_bytes(0xFE, 0, 0).unwrap());
    let note = IncomingMidiMessage::Short(ShortMsg::note_on(0, 60, 100));
    assert_eq!(classify_midi_message(&clock), MidiMessageClassification::Timing);
    assert_eq!(classify_midi_message(&sensing), MidiMessageClassification::Ignored);
    assert_eq!(classify_midi_message(&note), MidiMessageClassification::Normal);
}

#[test]
fn short_message_parsing_rejects_malformed_bytes() {
    assert!(ShortMsg::from_bytes(0x7F, 0, 0).is_err());
    assert!(ShortMsg::from_bytes(0x90, 0x80, 0).is_err());
    assert!(ShortMsg::from_bytes(0x90, 0, 0x80).is_err());
    assert!(ShortMsg::from_bytes(0x90, 60, 100).is_ok());
}

#[test]
fn clock_converges_to_expected_tempo() {
    // Tick interval 2205 samples at 44100 Hz: 60 * 44100 / (24 * 2205)
    // beats per minute, which is exactly 50.
    let mut clock = MidiClockCalculator::new(44100);
    assert_eq!(clock.feed(SampleOffset::new(0)), None);
    let mut last = None;
    for i in 1..10u64 {
        clock.increase_sample_counter_by(0);
        last = clock.feed(SampleOffset::new(i * 2205));
    }
    assert_eq!(last, Some(50_000));
}

#[test]
fn clock_produces_nothing_before_second_tick() {
    let mut clock = MidiClockCalculator::new(48000);
    clock.increase_sample_counter_by(512);
    assert_eq!(clock.feed(SampleOffset::new(3)), None);
    clock.increase_sample_counter_by(512);
    assert!(clock.feed(SampleOffset::new(3)).is_some());
}

#[test]
fn capture_recognizes_note_on_immediately() {
    let mut scanner = MidiScanner::new();
    let result = scanner.feed_short(&ShortMsg::note_on(0, 60, 100));
    match result {
        Some(MidiScanResult::Short { msg, character }) => {
            assert_eq!(msg, ShortMsg::note_on(0, 60, 100));
            assert_eq!(character, SourceCharacter::Button);
        }
        other => panic!("expected an immediate short capture, got {:?}", other),
    }
}

#[test]
fn capture_defers_control_changes_and_guesses_character() {
    let mut scanner = MidiScanner::new();
    assert!(scanner.feed_short(&cc(0, 7, 10)).is_none());
    assert!(scanner.feed_short(&cc(0, 7, 11)).is_none());
    assert!(scanner.poll().is_none());
    match scanner.poll() {
        Some(MidiScanResult::Short { msg, character }) => {
            assert_eq!(msg, cc(0, 7, 11));
            assert_eq!(character, SourceCharacter::RangeElement);
        }
        other => panic!("expected a deferred capture, got {:?}", other),
    }
    // A single repeated value looks like a button.
    assert!(scanner.feed_short(&cc(0, 8, 127)).is_none());
    assert!(scanner.poll().is_none());
    match scanner.poll() {
        Some(MidiScanResult::Short { character, .. }) => {
            assert_eq!(character, SourceCharacter::Button);
        }
        other => panic!("expected a deferred capture, got {:?}", other),
    }
}

#[test]
fn capture_accumulates_sysex_until_terminator() {
    let mut scanner = MidiScanner::new();
    assert!(scanner.feed_sysex_byte(0xF0).is_none());
    assert!(scanner.feed_sysex_byte(0x7E).is_none());
    assert!(scanner.feed_sysex_byte(0x09).is_none());
    match scanner.feed_sysex_byte(0xF7) {
        Some(MidiScanResult::SysEx { bytes }) => {
            assert_eq!(bytes, vec![0xF0, 0x7E, 0x09, 0xF7]);
        }
        other => panic!("expected a complete buffer, got {:?}", other),
    }
}

#[test]
fn capture_rejects_sysex_without_start_status() {
    let bytes: Vec<u8> = vec![0x7E, 0x09, 0xF7];
    assert!(MidiScanResult::try_from_bytes(&bytes).is_err());
    let empty: Vec<u8> = Vec::new();
    assert!(MidiScanResult::try_from_bytes(&empty).is_err());
}
