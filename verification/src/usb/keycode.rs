//! Character-to-keystroke encoding: the fixed 8-byte keyboard report and the
//! mapping from characters to reports on the standard US layout.

use vstd::prelude::*;

verus! {

/// The left-shift bit of the report's modifier byte, the only modifier the
/// encoder ever sets.
pub const MODIFIER_LEFT_SHIFT: u8 = 0x02;

/// A HID boot-protocol keyboard report: a modifier bitmask, a reserved byte,
/// and up to six simultaneously pressed keycodes. The all-zero report is the
/// canonical "no keys pressed" release report.
#[derive(Clone, Copy, Debug, PartialEq, Eq)]
pub struct KeyboardReport {
    pub modifier: u8,
    pub reserved: u8,
    pub keycodes: [u8; 6],
}

/// A report that presses the single key `key`, shifted when `shift` is set.
pub open spec fn key_report(shift: bool, key: u8) -> KeyboardReport {
    KeyboardReport {
        modifier: if shift {
            MODIFIER_LEFT_SHIFT
        } else {
            0
        },
        reserved: 0,
        keycodes: [key, 0, 0, 0, 0, 0],
    }
}

/// The canonical release report: no modifier, no keys.
pub open spec fn release_report() -> KeyboardReport {
    KeyboardReport { modifier: 0, reserved: 0, keycodes: [0, 0, 0, 0, 0, 0] }
}

impl KeyboardReport {
    /// The fixed wire layout of a report: modifier, reserved byte, then the
    /// six keycodes — exactly 8 bytes.
    pub open spec fn bytes_spec(self) -> Seq<u8> {
        seq![
            self.modifier,
            self.reserved,
            self.keycodes[0],
            self.keycodes[1],
            self.keycodes[2],
            self.keycodes[3],
            self.keycodes[4],
            self.keycodes[5],
        ]
    }

    /// Serialize the report into its fixed 8-byte wire layout.
    pub fn to_bytes(&self) -> (r: [u8; 8])
        ensures
            r@ == self.bytes_spec(),
    {
        let r = [
            self.modifier,
            self.reserved,
            self.keycodes[0],
            self.keycodes[1],
            self.keycodes[2],
            self.keycodes[3],
            self.keycodes[4],
            self.keycodes[5],
        ];
        assert(r@ =~= self.bytes_spec());
        r
    }

    /// The canonical release report.
    pub fn release() -> (r: KeyboardReport)
        ensures
            r == release_report(),
    {
        KeyboardReport { modifier: 0, reserved: 0, keycodes: [0, 0, 0, 0, 0, 0] }
    }
}

/// The supported character set: printable ASCII plus backspace, tab,
/// newline and escape. Anything else is "unsupported" — a documented no-op
/// for the injection pipeline, not an error.
pub open spec fn supported_char(b: u8) -> bool {
    b == 0x08 || b == 0x09 || b == 0x0a || b == 0x1b || (0x20 <= b && b <= 0x7e)
}

/// The keystroke a character maps to on the standard US layout: letters are
/// the base key, shifted when uppercase; digits 1-9 map to the digit row in
/// order and '0' to its own key (not derived arithmetically, so the digit
/// row wrap cannot go off by one); the remaining printable characters
/// follow the fixed (base key, requires-shift) table of the US layout.
/// Unsupported characters map to None.
pub open spec fn encode_spec(b: u8) -> Option<KeyboardReport> {
    if 0x41 <= b && b <= 0x5a {  // 'A'..='Z'
        Some(key_report(true, (b - 0x41 + 0x04) as u8))
    } else if 0x61 <= b && b <= 0x7a {  // 'a'..='z'
        Some(key_report(false, (b - 0x61 + 0x04) as u8))
    } else if 0x31 <= b && b <= 0x39 {  // '1'..='9'
        Some(key_report(false, (b - 0x31 + 0x1e) as u8))
    } else {
        match b {
            0x30 => Some(key_report(false, 0x27)),  // '0'
            0x08 => Some(key_report(false, 0x2a)),  // backspace
            0x09 => Some(key_report(false, 0x2b)),  // tab
            0x0a => Some(key_report(false, 0x28)),  // newline -> enter
            0x1b => Some(key_report(false, 0x29)),  // escape
            0x60 => Some(key_report(false, 0x35)),  // '`'
            0x7e => Some(key_report(true, 0x35)),  // '~'
            0x21 => Some(key_report(true, 0x1e)),  // '!'
            0x40 => Some(key_report(true, 0x1f)),  // '@'
            0x23 => Some(key_report(true, 0x20)),  // '#'
            0x24 => Some(key_report(true, 0x21)),  // '$'
            0x25 => Some(key_report(true, 0x22)),  // '%'
            0x5e => Some(key_report(true, 0x23)),  // '^'
            0x26 => Some(key_report(true, 0x24)),  // '&'
            0x2a => Some(key_report(true, 0x25)),  // '*'
            0x28 => Some(key_report(true, 0x26)),  // '('
            0x29 => Some(key_report(true, 0x27)),  // ')'
            0x2d => Some(key_report(false, 0x2d)),  // '-'
            0x5f => Some(key_report(true, 0x2d)),  // '_'
            0x3d => Some(key_report(false, 0x2e)),  // '='
            0x2b => Some(key_report(true, 0x2e)),  // '+'
            0x5b => Some(key_report(false, 0x2f)),  // '['
            0x7b => Some(key_report(true, 0x2f)),  // '{'
            0x5d => Some(key_report(false, 0x30)),  // ']'
            0x7d => Some(key_report(true, 0x30)),  // '}'
            0x5c => Some(key_report(false, 0x31)),  // '\'
            0x7c => Some(key_report(true, 0x31)),  // '|'
            0x3b => Some(key_report(false, 0x33)),  // ';'
            0x3a => Some(key_report(true, 0x33)),  // ':'
            0x27 => Some(key_report(false, 0x34)),  // '\''
            0x22 => Some(key_report(true, 0x34)),  // '"'
            0x2c => Some(key_report(false, 0x36)),  // ','
            0x3c => Some(key_report(true, 0x36)),  // '<'
            0x2e => Some(key_report(false, 0x37)),  // '.'
            0x3e => Some(key_report(true, 0x37)),  // '>'
            0x2f => Some(key_report(false, 0x38)),  // '/'
            0x3f => Some(key_report(true, 0x38)),  // '?'
            0x20 => Some(key_report(false, 0x2c)),  // space
            _ => None,
        }
    }
}

/// Encode one character, given as a byte, into its keyboard report.
pub fn encode(b: u8) -> (r: Option<KeyboardReport>)
    ensures
        r == encode_spec(b),
{
    if 0x41 <= b && b <= 0x5a {  // 'A'..='Z'
        Some(
            KeyboardReport {
                modifier: MODIFIER_LEFT_SHIFT,
                reserved: 0,
                keycodes: [b - 0x41 + 0x04, 0, 0, 0, 0, 0],
            },
        )
    } else if 0x61 <= b && b <= 0x7a {  // 'a'..='z'
        Some(
            KeyboardReport { modifier: 0, reserved: 0, keycodes: [b - 0x61 + 0x04, 0, 0, 0, 0, 0] },
        )
    } else if 0x31 <= b && b <= 0x39 {  // '1'..='9'
        Some(
            KeyboardReport { modifier: 0, reserved: 0, keycodes: [b - 0x31 + 0x1e, 0, 0, 0, 0, 0] },
        )
    } else {
        let key: (bool, u8) = match b {
            0x30 => (false, 0x27),  // '0'
            0x08 => (false, 0x2a),  // backspace
            0x09 => (false, 0x2b),  // tab
            0x0a => (false, 0x28),  // newline -> enter
            0x1b => (false, 0x29),  // escape
            0x60 => (false, 0x35),  // '`'
            0x7e => (true, 0x35),  // '~'
            0x21 => (true, 0x1e),  // '!'
            0x40 => (true, 0x1f),  // '@'
            0x23 => (true, 0x20),  // '#'
            0x24 => (true, 0x21),  // '$'
            0x25 => (true, 0x22),  // '%'
            0x5e => (true, 0x23),  // '^'
            0x26 => (true, 0x24),  // '&'
            0x2a => (true, 0x25),  // '*'
            0x28 => (true, 0x26),  // '('
            0x29 => (true, 0x27),  // ')'
            0x2d => (false, 0x2d),  // '-'
            0x5f => (true, 0x2d),  // '_'
            0x3d => (false, 0x2e),  // '='
            0x2b => (true, 0x2e),  // '+'
            0x5b => (false, 0x2f),  // '['
            0x7b => (true, 0x2f),  // '{'
            0x5d => (false, 0x30),  // ']'
            0x7d => (true, 0x30),  // '}'
            0x5c => (false, 0x31),  // '\'
            0x7c => (true, 0x31),  // '|'
            0x3b => (false, 0x33),  // ';'
            0x3a => (true, 0x33),  // ':'
            0x27 => (false, 0x34),  // '\''
            0x22 => (true, 0x34),  // '"'
            0x2c => (false, 0x36),  // ','
            0x3c => (true, 0x36),  // '<'
            0x2e => (false, 0x37),  // '.'
            0x3e => (true, 0x37),  // '>'
            0x2f => (false, 0x38),  // '/'
            0x3f => (true, 0x38),  // '?'
            0x20 => (false, 0x2c),  // space
            _ => {
                return None;
            },
        };
        let (shift, keycode) = key;
        Some(
            KeyboardReport {
                modifier: if shift {
                    MODIFIER_LEFT_SHIFT
                } else {
                    0
                },
                reserved: 0,
                keycodes: [keycode, 0, 0, 0, 0, 0],
            },
        )
    }
}

/// The keystroke a character maps to: ASCII characters go through the byte
/// table, anything beyond ASCII is unsupported.
pub open spec fn char_encode_spec(c: char) -> Option<KeyboardReport> {
    if (c as u32) < 0x80 {
        encode_spec((c as u32) as u8)
    } else {
        None
    }
}

/// Encode one character into its keyboard report.
pub fn character_to_report(c: char) -> (r: Option<KeyboardReport>)
    ensures
        r == char_encode_spec(c),
{
    let u = c as u32;
    if u < 0x80 {
        encode(u as u8)
    } else {
        None
    }
}

/// Anything that stands for one typed character and can be encoded as a
/// keyboard report.
pub trait AsKeyboardReport: Sized {
    /// The report this character encodes to, if it is supported.
    spec fn report_spec(self) -> Option<KeyboardReport>;

    /// Encode this character.
    fn as_keyboard_report(self) -> (r: Option<KeyboardReport>)
        ensures
            r == self.report_spec(),
    ;
}

impl AsKeyboardReport for u8 {
    open spec fn report_spec(self) -> Option<KeyboardReport> {
        encode_spec(self)
    }

    fn as_keyboard_report(self) -> (r: Option<KeyboardReport>) {
        encode(self)
    }
}

impl AsKeyboardReport for char {
    open spec fn report_spec(self) -> Option<KeyboardReport> {
        char_encode_spec(self)
    }

    fn as_keyboard_report(self) -> (r: Option<KeyboardReport>) {
        character_to_report(self)
    }
}

/// Law: the encoding is deterministic — it is a spec function of the
/// character alone — and total on the supported set: it returns a report
/// exactly for the supported characters, and "unsupported" for every other
/// byte.
pub proof fn lemma_encode_total()
    ensures
        forall|b: u8| #[trigger] encode_spec(b) is Some <==> supported_char(b),
{
}

} // verus!
