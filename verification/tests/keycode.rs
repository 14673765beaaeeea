use m5atom_auto_keyboard::usb::keycode::{
    character_to_report, encode, AsKeyboardReport, KeyboardReport, MODIFIER_LEFT_SHIFT,
};

fn plain(key: u8) -> KeyboardReport {
    KeyboardReport { modifier: 0, reserved: 0, keycodes: [key, 0, 0, 0, 0, 0] }
}

fn shifted(key: u8) -> KeyboardReport {
    KeyboardReport { modifier: MODIFIER_LEFT_SHIFT, reserved: 0, keycodes: [key, 0, 0, 0, 0, 0] }
}

#[test]
fn encode_uppercase_letters_are_shifted() {
    assert_eq!(encode(b'A'), Some(shifted(0x04)));
    assert_eq!(encode(b'M'), Some(shifted(0x10)));
    assert_eq!(encode(b'Z'), Some(shifted(0x1d)));
}

#[test]
fn encode_lowercase_letters_are_plain() {
    assert_eq!(encode(b'a'), Some(plain(0x04)));
    assert_eq!(encode(b'b'), Some(plain(0x05)));
    assert_eq!(encode(b'z'), Some(plain(0x1d)));
}

#[test]
fn encode_digits_one_to_nine_follow_the_digit_row() {
    assert_eq!(encode(b'1'), Some(plain(0x1e)));
    assert_eq!(encode(b'5'), Some(plain(0x22)));
    assert_eq!(encode(b'9'), Some(plain(0x26)));
}

#[test]
fn encode_zero_maps_to_its_own_key() {
    // '0' has its own key, not one derived arithmetically from the row.
    assert_eq!(encode(b'0'), Some(plain(0x27)));
}

#[test]
fn encode_control_characters() {
    assert_eq!(encode(0x08), Some(plain(0x2a))); // backspace
    assert_eq!(encode(b'\t'), Some(plain(0x2b)));
    assert_eq!(encode(b'\n'), Some(plain(0x28)));
    assert_eq!(encode(0x1b), Some(plain(0x29))); // escape
    assert_eq!(encode(b' '), Some(plain(0x2c)));
}

#[test]
fn encode_punctuation_follows_us_layout() {
    assert_eq!(encode(b'!'), Some(shifted(0x1e)));
    assert_eq!(encode(b'@'), Some(shifted(0x1f)));
    assert_eq!(encode(b'('), Some(shifted(0x26)));
    assert_eq!(encode(b')'), Some(shifted(0x27)));
    assert_eq!(encode(b'-'), Some(plain(0x2d)));
    assert_eq!(encode(b'_'), Some(shifted(0x2d)));
    assert_eq!(encode(b'='), Some(plain(0x2e)));
    assert_eq!(encode(b'+'), Some(shifted(0x2e)));
    assert_eq!(encode(b'['), Some(plain(0x2f)));
    assert_eq!(encode(b'{'), Some(shifted(0x2f)));
    assert_eq!(encode(b'\\'), Some(plain(0x31)));
    assert_eq!(encode(b'|'), Some(shifted(0x31)));
    assert_eq!(encode(b';'), Some(plain(0x33)));
    assert_eq!(encode(b':'), Some(shifted(0x33)));
    assert_eq!(encode(b','), Some(plain(0x36)));
    assert_eq!(encode(b'<'), Some(shifted(0x36)));
    assert_eq!(encode(b'.'), Some(plain(0x37)));
    assert_eq!(encode(b'>'), Some(shifted(0x37)));
    assert_eq!(encode(b'/'), Some(plain(0x38)));
    assert_eq!(encode(b'?'), Some(shifted(0x38)));
    assert_eq!(encode(b'`'), Some(plain(0x35)));
    assert_eq!(encode(b'~'), Some(shifted(0x35)));
}

#[test]
fn encode_quotes_follow_us_layout() {
    // On the US layout the apostrophe is the base key and the double quote
    // its shifted form.
    assert_eq!(encode(b'\''), Some(plain(0x34)));
    assert_eq!(encode(b'"'), Some(shifted(0x34)));
}

#[test]
fn encode_is_total_on_the_supported_set() {
    let mut supported: Vec<u8> = vec![0x08, b'\t', b'\n', 0x1b];
    for b in 0x20u8..=0x7e {
        supported.push(b);
    }
    for b in supported {
        assert!(encode(b).is_some(), "byte 0x{b:02x} should encode");
    }
}

#[test]
fn encode_is_deterministic() {
    for b in 0u8..=0xff {
        assert_eq!(encode(b), encode(b));
    }
}

#[test]
fn encode_rejects_unsupported_bytes() {
    assert_eq!(encode(0x00), None);
    assert_eq!(encode(0x07), None);
    assert_eq!(encode(0x0d), None); // carriage return is not in the set
    assert_eq!(encode(0x7f), None); // delete
    assert_eq!(encode(0x80), None);
    assert_eq!(encode(0xff), None);
}

#[test]
fn character_to_report_matches_byte_encoding() {
    assert_eq!(character_to_report('A'), encode(b'A'));
    assert_eq!(character_to_report('!'), encode(b'!'));
    assert_eq!(character_to_report('\n'), encode(b'\n'));
    assert_eq!(character_to_report('é'), None);
    assert_eq!(character_to_report('漢'), None);
}

#[test]
fn as_keyboard_report_impls_agree() {
    assert_eq!(b'q'.as_keyboard_report(), 'q'.as_keyboard_report());
    assert_eq!(0x07u8.as_keyboard_report(), None);
    assert_eq!('Z'.as_keyboard_report(), Some(shifted(0x1d)));
}

#[test]
fn report_serializes_to_eight_bytes() {
    let r = KeyboardReport { modifier: 0x02, reserved: 0, keycodes: [4, 5, 6, 7, 8, 9] };
    assert_eq!(r.to_bytes(), [0x02, 0, 4, 5, 6, 7, 8, 9]);
}

#[test]
fn release_report_is_all_zero() {
    assert_eq!(KeyboardReport::release().to_bytes(), [0u8; 8]);
}
