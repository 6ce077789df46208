//! Formatting helpers for diagnostic output.

use vstd::prelude::*;

verus! {

/// The uppercase hexadecimal digit for a value below 16.
pub open spec fn hex_char(n: u8) -> char {
    if n == 0 {
        '0'
    } else if n == 1 {
        '1'
    } else if n == 2 {
        '2'
    } else if n == 3 {
        '3'
    } else if n == 4 {
        '4'
    } else if n == 5 {
        '5'
    } else if n == 6 {
        '6'
    } else if n == 7 {
        '7'
    } else if n == 8 {
        '8'
    } else if n == 9 {
        '9'
    } else if n == 10 {
        'A'
    } else if n == 11 {
        'B'
    } else if n == 12 {
        'C'
    } else if n == 13 {
        'D'
    } else if n == 14 {
        'E'
    } else {
        'F'
    }
}

/// The ASCII code of the uppercase hexadecimal digit for a value below 16.
pub open spec fn hex_ascii(n: u8) -> u8 {
    if n < 10 {
        (0x30 + n) as u8
    } else {
        (0x41 + (n - 10)) as u8
    }
}

/// The hexadecimal rendering of a byte sequence: two uppercase digits per
/// byte, bytes separated by single spaces.
pub open spec fn raw_midi_chars(s: Seq<u8>) -> Seq<char>
    decreases s.len(),
{
    if s.len() == 0 {
        Seq::empty()
    } else if s.len() == 1 {
        seq![hex_char((s[0] / 16) as u8), hex_char((s[0] % 16) as u8)]
    } else {
        raw_midi_chars(s.drop_last()) + seq![
            ' ',
            hex_char((s.last() / 16) as u8),
            hex_char((s.last() % 16) as u8),
        ]
    }
}

/// The ASCII-byte form of [`raw_midi_chars`].
pub open spec fn raw_midi_ascii(s: Seq<u8>) -> Seq<u8>
    decreases s.len(),
{
    if s.len() == 0 {
        Seq::empty()
    } else if s.len() == 1 {
        seq![hex_ascii((s[0] / 16) as u8), hex_ascii((s[0] % 16) as u8)]
    } else {
        raw_midi_ascii(s.drop_last()) + seq![
            0x20u8,
            hex_ascii((s.last() / 16) as u8),
            hex_ascii((s.last() % 16) as u8),
        ]
    }
}

/// The ASCII form corresponds to the character form, digit for digit.
pub proof fn lemma_raw_midi_ascii_chars(s: Seq<u8>)
    ensures
        raw_midi_ascii(s).len() == raw_midi_chars(s).len(),
        forall|i: int|
            0 <= i < raw_midi_ascii(s).len() ==> (#[trigger] raw_midi_ascii(s)[i]) as char
                == raw_midi_chars(s)[i],
    decreases s.len(),
{
    if s.len() > 1 {
        lemma_raw_midi_ascii_chars(s.drop_last());
    }
}

/// Relies on String::from_utf8: a buffer of ASCII bytes is valid UTF-8 and
/// becomes the string whose characters are exactly those bytes.
#[verifier::external_body]
fn ascii_string(bytes: Vec<u8>) -> (r: String)
    requires
        forall|i: int| 0 <= i < bytes@.len() ==> bytes@[i] < 0x80,
    ensures
        r@ == bytes@.map_values(|b: u8| b as char),
{
    String::from_utf8(bytes).unwrap_or_default()
}

/// The uppercase hexadecimal ASCII digit of a value below 16.
fn hex_ascii_digit(n: u8) -> (r: u8)
    requires
        n < 16,
    ensures
        r == hex_ascii(n),
        r < 0x80,
        r as char == hex_char(n),
{
    if n < 10 {
        0x30 + n
    } else {
        0x41 + (n - 10)
    }
}

/// Renders raw MIDI bytes for diagnostics: two uppercase hexadecimal
/// digits per byte, bytes separated by spaces.
pub fn format_raw_midi(bytes: &[u8]) -> (r: String)
    ensures
        r@ == raw_midi_chars(bytes@),
{
    let mut out: Vec<u8> = Vec::new();
    let mut i: usize = 0;
    let n = bytes.len();
    while i < n
        invariant
            i <= n,
            n == bytes@.len(),
            out@ == raw_midi_ascii(bytes@.take(i as int)),
            forall|k: int| 0 <= k < out@.len() ==> out@[k] < 0x80,
        decreases n - i,
    {
        let b = bytes[i];
        if i > 0 {
            out.push(0x20);
        }
        out.push(hex_ascii_digit(b / 16));
        out.push(hex_ascii_digit(b % 16));
        proof {
            assert(bytes@.take(i + 1).drop_last() =~= bytes@.take(i as int));
            assert(bytes@.take(i + 1).last() == bytes@[i as int]);
            if i == 0 {
                assert(out@ =~= raw_midi_ascii(bytes@.take(1)));
            } else {
                assert(out@ =~= raw_midi_ascii(bytes@.take(i + 1)));
            }
        }
        i = i + 1;
    }
    proof {
        assert(bytes@.take(n as int) =~= bytes@);
    }
    let r = ascii_string(out);
    proof {
        lemma_raw_midi_ascii_chars(bytes@);
        assert(r@ =~= raw_midi_chars(bytes@));
    }
    r
}

/// A raw MIDI byte buffer that renders itself as spaced hexadecimal.
pub struct DisplayRawMidi<'a>(pub &'a [u8]);

impl<'a> DisplayRawMidi<'a> {
    /// The spaced-hexadecimal rendering of the buffer.
    pub fn text(&self) -> (r: String)
        ensures
            r@ == raw_midi_chars(self.0@),
    {
        format_raw_midi(self.0)
    }
}

/// Why a piece of output was sent; used to label diagnostic log lines.
#[derive(Copy, Clone, Debug, PartialEq, Eq, Structural)]
pub enum OutputReason {
    /// Feedback sent to the physical controller.
    RealFeedback,
    /// Feedback sent to a virtual control element.
    VirtualFeedback,
    /// Activation or deactivation MIDI.
    Lifecycle,
    /// Output produced by hitting a target.
    Target,
}

impl OutputReason {
    /// The label under which this reason appears in the log.
    pub fn label(&self) -> (r: &'static str)
        ensures
            *self is RealFeedback ==> r == "Real feedback output",
            *self is VirtualFeedback ==> r == "Virtual feedback output",
            *self is Lifecycle ==> r == "Lifecycle output",
            *self is Target ==> r == "Target output",
    {
        match self {
            OutputReason::RealFeedback => "Real feedback output",
            OutputReason::VirtualFeedback => "Virtual feedback output",
            OutputReason::Lifecycle => "Lifecycle output",
            OutputReason::Target => "Target output",
        }
    }
}

} // verus!
