use xous_services::keymap::{char_to_hid_code_dvorak, char_to_hid_code_us101, UsbKeyCode};

#[test]
fn us101_letters() {
    assert_eq!(char_to_hid_code_us101('a'), vec![UsbKeyCode::A]);
    assert_eq!(char_to_hid_code_us101('Q'), vec![UsbKeyCode::Q, UsbKeyCode::LeftShift]);
    assert_eq!(char_to_hid_code_us101('z'), vec![UsbKeyCode::Z]);
}

#[test]
fn us101_shifted_digits() {
    let pairs = [
        ('!', '1'),
        ('@', '2'),
        ('#', '3'),
        ('$', '4'),
        ('%', '5'),
        ('^', '6'),
        ('&', '7'),
        ('*', '8'),
        ('(', '9'),
        (')', '0'),
    ];
    for (sym, digit) in pairs {
        let mut expected = char_to_hid_code_us101(digit);
        expected.push(UsbKeyCode::LeftShift);
        assert_eq!(char_to_hid_code_us101(sym), expected);
    }
}

#[test]
fn us101_punctuation_and_arrows() {
    assert_eq!(char_to_hid_code_us101('-'), vec![UsbKeyCode::Minus]);
    assert_eq!(char_to_hid_code_us101('_'), vec![UsbKeyCode::Minus, UsbKeyCode::LeftShift]);
    assert_eq!(char_to_hid_code_us101('"'), vec![UsbKeyCode::Apostrophe, UsbKeyCode::LeftShift]);
    assert_eq!(char_to_hid_code_us101('\\'), vec![UsbKeyCode::Backslash]);
    assert_eq!(char_to_hid_code_us101('~'), vec![UsbKeyCode::Grave, UsbKeyCode::LeftShift]);
    assert_eq!(char_to_hid_code_us101('>'), vec![UsbKeyCode::Dot, UsbKeyCode::LeftShift]);
    assert_eq!(char_to_hid_code_us101('\u{2190}'), vec![UsbKeyCode::LeftArrow]);
    assert_eq!(char_to_hid_code_us101('\u{2193}'), vec![UsbKeyCode::DownArrow]);
}

#[test]
fn control_characters_in_both_layouts() {
    for f in [char_to_hid_code_us101, char_to_hid_code_dvorak] {
        assert_eq!(f('\r'), vec![]);
        assert_eq!(f('\n'), vec![UsbKeyCode::ReturnEnter]);
        assert_eq!(f('\u{0008}'), vec![UsbKeyCode::DeleteBackspace]);
        assert_eq!(f(' '), vec![UsbKeyCode::Space]);
    }
}

#[test]
fn unknown_characters_type_nothing() {
    assert_eq!(char_to_hid_code_us101('\u{e9}'), vec![]);
    assert_eq!(char_to_hid_code_us101('\t'), vec![]);
    assert_eq!(char_to_hid_code_dvorak('\u{2190}'), vec![]);
    assert_eq!(char_to_hid_code_dvorak('\u{20ac}'), vec![]);
}

#[test]
fn dvorak_positions() {
    assert_eq!(char_to_hid_code_dvorak('a'), vec![UsbKeyCode::A]);
    assert_eq!(char_to_hid_code_dvorak('e'), vec![UsbKeyCode::D]);
    assert_eq!(char_to_hid_code_dvorak('s'), vec![UsbKeyCode::Semicolon]);
    assert_eq!(char_to_hid_code_dvorak('S'), vec![UsbKeyCode::Semicolon, UsbKeyCode::LeftShift]);
    assert_eq!(char_to_hid_code_dvorak('\''), vec![UsbKeyCode::Q]);
    assert_eq!(char_to_hid_code_dvorak('"'), vec![UsbKeyCode::Q, UsbKeyCode::LeftShift]);
    assert_eq!(char_to_hid_code_dvorak('z'), vec![UsbKeyCode::ForwardSlash]);
    assert_eq!(char_to_hid_code_dvorak('['), vec![UsbKeyCode::Minus]);
    assert_eq!(char_to_hid_code_dvorak('7'), vec![UsbKeyCode::Keyboard7]);
}

#[test]
fn upper_case_is_shifted_lower_case_in_both_layouts() {
    for lower in 'a'..='z' {
        let upper = lower.to_ascii_uppercase();
        for f in [char_to_hid_code_us101, char_to_hid_code_dvorak] {
            let mut expected = f(lower);
            expected.push(UsbKeyCode::LeftShift);
            assert_eq!(f(upper), expected);
        }
    }
}

#[test]
fn layouts_agree_on_digits() {
    for d in '0'..='9' {
        assert_eq!(char_to_hid_code_us101(d), char_to_hid_code_dvorak(d));
        assert_eq!(char_to_hid_code_us101(d).len(), 1);
    }
}
