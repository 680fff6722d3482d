//! Mapping of characters to the USB HID key presses that type them, for a
//! host whose keyboard layout is US101 or Dvorak.
use vstd::prelude::*;

verus! {

/// The USB HID keyboard usages that the key maps produce.
#[derive(Clone, Copy, Debug, PartialEq, Eq, Structural)]
pub enum UsbKeyCode {
    A,
    B,
    C,
    D,
    E,
    F,
    G,
    H,
    I,
    J,
    K,
    L,
    M,
    N,
    O,
    P,
    Q,
    R,
    S,
    T,
    U,
    V,
    W,
    X,
    Y,
    Z,
    Keyboard1,
    Keyboard2,
    Keyboard3,
    Keyboard4,
    Keyboard5,
    Keyboard6,
    Keyboard7,
    Keyboard8,
    Keyboard9,
    Keyboard0,
    ReturnEnter,
    DeleteBackspace,
    Space,
    Minus,
    Equal,
    LeftBrace,
    RightBrace,
    Backslash,
    Semicolon,
    Apostrophe,
    Grave,
    Comma,
    Dot,
    ForwardSlash,
    RightArrow,
    LeftArrow,
    DownArrow,
    UpArrow,
    LeftShift,
}

/// The key presses for one table entry: nothing, the key alone, or the key
/// with the left shift held.
pub open spec fn key_sequence(entry: Option<(UsbKeyCode, bool)>) -> Seq<UsbKeyCode> {
    match entry {
        None => Seq::empty(),
        Some((key, false)) => seq![key],
        Some((key, true)) => seq![key, UsbKeyCode::LeftShift],
    }
}

/// The US101 layout: the key that types `key`, and whether shift is held.
/// Carriage return, and characters the layout has no key for, type nothing.
pub open spec fn us101_key(key: char) -> Option<(UsbKeyCode, bool)> {
    match key {
        'a' => Some((UsbKeyCode::A, false)),
        'b' => Some((UsbKeyCode::B, false)),
        'c' => Some((UsbKeyCode::C, false)),
        'd' => Some((UsbKeyCode::D, false)),
        'e' => Some((UsbKeyCode::E, false)),
        'f' => Some((UsbKeyCode::F, false)),
        'g' => Some((UsbKeyCode::G, false)),
        'h' => Some((UsbKeyCode::H, false)),
        'i' => Some((UsbKeyCode::I, false)),
        'j' => Some((UsbKeyCode::J, false)),
        'k' => Some((UsbKeyCode::K, false)),
        'l' => Some((UsbKeyCode::L, false)),
        'm' => Some((UsbKeyCode::M, false)),
        'n' => Some((UsbKeyCode::N, false)),
        'o' => Some((UsbKeyCode::O, false)),
        'p' => Some((UsbKeyCode::P, false)),
        'q' => Some((UsbKeyCode::Q, false)),
        'r' => Some((UsbKeyCode::R, false)),
        's' => Some((UsbKeyCode::S, false)),
        't' => Some((UsbKeyCode::T, false)),
        'u' => Some((UsbKeyCode::U, false)),
        'v' => Some((UsbKeyCode::V, false)),
        'w' => Some((UsbKeyCode::W, false)),
        'x' => Some((UsbKeyCode::X, false)),
        'y' => Some((UsbKeyCode::Y, false)),
        'z' => Some((UsbKeyCode::Z, false)),
        'A' => Some((UsbKeyCode::A, true)),
        'B' => Some((UsbKeyCode::B, true)),
        'C' => Some((UsbKeyCode::C, true)),
        'D' => Some((UsbKeyCode::D, true)),
        'E' => Some((UsbKeyCode::E, true)),
        'F' => Some((UsbKeyCode::F, true)),
        'G' => Some((UsbKeyCode::G, true)),
        'H' => Some((UsbKeyCode::H, true)),
        'I' => Some((UsbKeyCode::I, true)),
        'J' => Some((UsbKeyCode::J, true)),
        'K' => Some((UsbKeyCode::K, true)),
        'L' => Some((UsbKeyCode::L, true)),
        'M' => Some((UsbKeyCode::M, true)),
        'N' => Some((UsbKeyCode::N, true)),
        'O' => Some((UsbKeyCode::O, true)),
        'P' => Some((UsbKeyCode::P, true)),
        'Q' => Some((UsbKeyCode::Q, true)),
        'R' => Some((UsbKeyCode::R, true)),
        'S' => Some((UsbKeyCode::S, true)),
        'T' => Some((UsbKeyCode::T, true)),
        'U' => Some((UsbKeyCode::U, true)),
        'V' => Some((UsbKeyCode::V, true)),
        'W' => Some((UsbKeyCode::W, true)),
        'X' => Some((UsbKeyCode::X, true)),
        'Y' => Some((UsbKeyCode::Y, true)),
        'Z' => Some((UsbKeyCode::Z, true)),
        '0' => Some((UsbKeyCode::Keyboard0, false)),
        '1' => Some((UsbKeyCode::Keyboard1, false)),
        '2' => Some((UsbKeyCode::Keyboard2, false)),
        '3' => Some((UsbKeyCode::Keyboard3, false)),
        '4' => Some((UsbKeyCode::Keyboard4, false)),
        '5' => Some((UsbKeyCode::Keyboard5, false)),
        '6' => Some((UsbKeyCode::Keyboard6, false)),
        '7' => Some((UsbKeyCode::Keyboard7, false)),
        '8' => Some((UsbKeyCode::Keyboard8, false)),
        '9' => Some((UsbKeyCode::Keyboard9, false)),
        '!' => Some((UsbKeyCode::Keyboard1, true)),
        '@' => Some((UsbKeyCode::Keyboard2, true)),
        '#' => Some((UsbKeyCode::Keyboard3, true)),
        '$' => Some((UsbKeyCode::Keyboard4, true)),
        '%' => Some((UsbKeyCode::Keyboard5, true)),
        '^' => Some((UsbKeyCode::Keyboard6, true)),
        '&' => Some((UsbKeyCode::Keyboard7, true)),
        '*' => Some((UsbKeyCode::Keyboard8, true)),
        '(' => Some((UsbKeyCode::Keyboard9, true)),
        ')' => Some((UsbKeyCode::Keyboard0, true)),
        '-' => Some((UsbKeyCode::Minus, false)),
        '_' => Some((UsbKeyCode::Minus, true)),
        '[' => Some((UsbKeyCode::LeftBrace, false)),
        '{' => Some((UsbKeyCode::LeftBrace, true)),
        ']' => Some((UsbKeyCode::RightBrace, false)),
        '}' => Some((UsbKeyCode::RightBrace, true)),
        '/' => Some((UsbKeyCode::ForwardSlash, false)),
        '?' => Some((UsbKeyCode::ForwardSlash, true)),
        '\\' => Some((UsbKeyCode::Backslash, false)),
        '|' => Some((UsbKeyCode::Backslash, true)),
        '=' => Some((UsbKeyCode::Equal, false)),
        '+' => Some((UsbKeyCode::Equal, true)),
        '\'' => Some((UsbKeyCode::Apostrophe, false)),
        '"' => Some((UsbKeyCode::Apostrophe, true)),
        ';' => Some((UsbKeyCode::Semicolon, false)),
        ':' => Some((UsbKeyCode::Semicolon, true)),
        '`' => Some((UsbKeyCode::Grave, false)),
        '~' => Some((UsbKeyCode::Grave, true)),
        '\u{2190}' => Some((UsbKeyCode::LeftArrow, false)),
        '\u{2192}' => Some((UsbKeyCode::RightArrow, false)),
        '\u{2191}' => Some((UsbKeyCode::UpArrow, false)),
        '\u{2193}' => Some((UsbKeyCode::DownArrow, false)),
        ',' => Some((UsbKeyCode::Comma, false)),
        '<' => Some((UsbKeyCode::Comma, true)),
        '.' => Some((UsbKeyCode::Dot, false)),
        '>' => Some((UsbKeyCode::Dot, true)),
        '\u{000a}' => Some((UsbKeyCode::ReturnEnter, false)),
        ' ' => Some((UsbKeyCode::Space, false)),
        '\u{0008}' => Some((UsbKeyCode::DeleteBackspace, false)),
        _ => None,
    }
}

/// The key presses that type `key` on a host with a US101 keyboard layout;
/// line feed becomes Enter, and carriage return and characters without a
/// key give no presses.
pub fn char_to_hid_code_us101(key: char) -> (code: Vec<UsbKeyCode>)
    ensures
        code@ == key_sequence(us101_key(key)),
{
    let mut code: Vec<UsbKeyCode> = Vec::new();
    match key {
        'a' => code.push(UsbKeyCode::A),
        'b' => code.push(UsbKeyCode::B),
        'c' => code.push(UsbKeyCode::C),
        'd' => code.push(UsbKeyCode::D),
        'e' => code.push(UsbKeyCode::E),
        'f' => code.push(UsbKeyCode::F),
        'g' => code.push(UsbKeyCode::G),
        'h' => code.push(UsbKeyCode::H),
        'i' => code.push(UsbKeyCode::I),
        'j' => code.push(UsbKeyCode::J),
        'k' => code.push(UsbKeyCode::K),
        'l' => code.push(UsbKeyCode::L),
        'm' => code.push(UsbKeyCode::M),
        'n' => code.push(UsbKeyCode::N),
        'o' => code.push(UsbKeyCode::O),
        'p' => code.push(UsbKeyCode::P),
        'q' => code.push(UsbKeyCode::Q),
        'r' => code.push(UsbKeyCode::R),
        's' => code.push(UsbKeyCode::S),
        't' => code.push(UsbKeyCode::T),
        'u' => code.push(UsbKeyCode::U),
        'v' => code.push(UsbKeyCode::V),
        'w' => code.push(UsbKeyCode::W),
        'x' => code.push(UsbKeyCode::X),
        'y' => code.push(UsbKeyCode::Y),
        'z' => code.push(UsbKeyCode::Z),
        'A' => {
            code.push(UsbKeyCode::A);
            code.push(UsbKeyCode::LeftShift);
        },
        'B' => {
            code.push(UsbKeyCode::B);
            code.push(UsbKeyCode::LeftShift);
        },
        'C' => {
            code.push(UsbKeyCode::C);
            code.push(UsbKeyCode::LeftShift);
        },
        'D' => {
            code.push(UsbKeyCode::D);
            code.push(UsbKeyCode::LeftShift);
        },
        'E' => {
            code.push(UsbKeyCode::E);
            code.push(UsbKeyCode::LeftShift);
        },
        'F' => {
            code.push(UsbKeyCode::F);
            code.push(UsbKeyCode::LeftShift);
        },
        'G' => {
            code.push(UsbKeyCode::G);
            code.push(UsbKeyCode::LeftShift);
        },
        'H' => {
            code.push(UsbKeyCode::H);
            code.push(UsbKeyCode::LeftShift);
        },
        'I' => {
            code.push(UsbKeyCode::I);
            code.push(UsbKeyCode::LeftShift);
        },
        'J' => {
            code.push(UsbKeyCode::J);
            code.push(UsbKeyCode::LeftShift);
        },
        'K' => {
            code.push(UsbKeyCode::K);
            code.push(UsbKeyCode::LeftShift);
        },
        'L' => {
            code.push(UsbKeyCode::L);
            code.push(UsbKeyCode::LeftShift);
        },
        'M' => {
            code.push(UsbKeyCode::M);
            code.push(UsbKeyCode::LeftShift);
        },
        'N' => {
            code.push(UsbKeyCode::N);
            code.push(UsbKeyCode::LeftShift);
        },
        'O' => {
            code.push(UsbKeyCode::O);
            code.push(UsbKeyCode::LeftShift);
        },
        'P' => {
            code.push(UsbKeyCode::P);
            code.push(UsbKeyCode::LeftShift);
        },
        'Q' => {
            code.push(UsbKeyCode::Q);
            code.push(UsbKeyCode::LeftShift);
        },
        'R' => {
            code.push(UsbKeyCode::R);
            code.push(UsbKeyCode::LeftShift);
        },
        'S' => {
            code.push(UsbKeyCode::S);
            code.push(UsbKeyCode::LeftShift);
        },
        'T' => {
            code.push(UsbKeyCode::T);
            code.push(UsbKeyCode::LeftShift);
        },
        'U' => {
            code.push(UsbKeyCode::U);
            code.push(UsbKeyCode::LeftShift);
        },
        'V' => {
            code.push(UsbKeyCode::V);
            code.push(UsbKeyCode::LeftShift);
        },
        'W' => {
            code.push(UsbKeyCode::W);
            code.push(UsbKeyCode::LeftShift);
        },
        'X' => {
            code.push(UsbKeyCode::X);
            code.push(UsbKeyCode::LeftShift);
        },
        'Y' => {
            code.push(UsbKeyCode::Y);
            code.push(UsbKeyCode::LeftShift);
        },
        'Z' => {
            code.push(UsbKeyCode::Z);
            code.push(UsbKeyCode::LeftShift);
        },
        '0' => code.push(UsbKeyCode::Keyboard0),
        '1' => code.push(UsbKeyCode::Keyboard1),
        '2' => code.push(UsbKeyCode::Keyboard2),
        '3' => code.push(UsbKeyCode::Keyboard3),
        '4' => code.push(UsbKeyCode::Keyboard4),
        '5' => code.push(UsbKeyCode::Keyboard5),
        '6' => code.push(UsbKeyCode::Keyboard6),
        '7' => code.push(UsbKeyCode::Keyboard7),
        '8' => code.push(UsbKeyCode::Keyboard8),
        '9' => code.push(UsbKeyCode::Keyboard9),
        '!' => {
            code.push(UsbKeyCode::Keyboard1);
            code.push(UsbKeyCode::LeftShift);
        },
        '@' => {
            code.push(UsbKeyCode::Keyboard2);
            code.push(UsbKeyCode::LeftShift);
        },
        '#' => {
            code.push(UsbKeyCode::Keyboard3);
            code.push(UsbKeyCode::LeftShift);
        },
        '$' => {
            code.push(UsbKeyCode::Keyboard4);
            code.push(UsbKeyCode::LeftShift);
        },
        '%' => {
            code.push(UsbKeyCode::Keyboard5);
            code.push(UsbKeyCode::LeftShift);
        },
        '^' => {
            code.push(UsbKeyCode::Keyboard6);
            code.push(UsbKeyCode::LeftShift);
        },
        '&' => {
            code.push(UsbKeyCode::Keyboard7);
            code.push(UsbKeyCode::LeftShift);
        },
        '*' => {
            code.push(UsbKeyCode::Keyboard8);
            code.push(UsbKeyCode::LeftShift);
        },
        '(' => {
            code.push(UsbKeyCode::Keyboard9);
            code.push(UsbKeyCode::LeftShift);
        },
        ')' => {
            code.push(UsbKeyCode::Keyboard0);
            code.push(UsbKeyCode::LeftShift);
        },
        '-' => code.push(UsbKeyCode::Minus),
        '_' => {
            code.push(UsbKeyCode::Minus);
            code.push(UsbKeyCode::LeftShift);
        },
        '[' => code.push(UsbKeyCode::LeftBrace),
        '{' => {
            code.push(UsbKeyCode::LeftBrace);
            code.push(UsbKeyCode::LeftShift);
        },
        ']' => code.push(UsbKeyCode::RightBrace),
        '}' => {
            code.push(UsbKeyCode::RightBrace);
            code.push(UsbKeyCode::LeftShift);
        },
        '/' => code.push(UsbKeyCode::ForwardSlash),
        '?' => {
            code.push(UsbKeyCode::ForwardSlash);
            code.push(UsbKeyCode::LeftShift);
        },
        '\\' => code.push(UsbKeyCode::Backslash),
        '|' => {
            code.push(UsbKeyCode::Backslash);
            code.push(UsbKeyCode::LeftShift);
        },
        '=' => code.push(UsbKeyCode::Equal),
        '+' => {
            code.push(UsbKeyCode::Equal);
            code.push(UsbKeyCode::LeftShift);
        },
        '\'' => code.push(UsbKeyCode::Apostrophe),
        '"' => {
            code.push(UsbKeyCode::Apostrophe);
            code.push(UsbKeyCode::LeftShift);
        },
        ';' => code.push(UsbKeyCode::Semicolon),
        ':' => {
            code.push(UsbKeyCode::Semicolon);
            code.push(UsbKeyCode::LeftShift);
        },
        '`' => code.push(UsbKeyCode::Grave),
        '~' => {
            code.push(UsbKeyCode::Grave);
            code.push(UsbKeyCode::LeftShift);
        },
        '\u{2190}' => code.push(UsbKeyCode::LeftArrow),
        '\u{2192}' => code.push(UsbKeyCode::RightArrow),
        '\u{2191}' => code.push(UsbKeyCode::UpArrow),
        '\u{2193}' => code.push(UsbKeyCode::DownArrow),
        ',' => code.push(UsbKeyCode::Comma),
        '<' => {
            code.push(UsbKeyCode::Comma);
            code.push(UsbKeyCode::LeftShift);
        },
        '.' => code.push(UsbKeyCode::Dot),
        '>' => {
            code.push(UsbKeyCode::Dot);
            code.push(UsbKeyCode::LeftShift);
        },
        '\u{000d}' => {},
        '\u{000a}' => code.push(UsbKeyCode::ReturnEnter),
        ' ' => code.push(UsbKeyCode::Space),
        '\u{0008}' => code.push(UsbKeyCode::DeleteBackspace),
        _ => {},
    }
    code
}

/// The Dvorak layout on a US101 keyboard: the key that types `key`, and
/// whether shift is held.
pub open spec fn dvorak_key(key: char) -> Option<(UsbKeyCode, bool)> {
    match key {
        ' ' => Some((UsbKeyCode::Space, false)),
        '!' => Some((UsbKeyCode::Keyboard1, true)),
        '"' => Some((UsbKeyCode::Q, true)),
        '#' => Some((UsbKeyCode::Keyboard3, true)),
        '$' => Some((UsbKeyCode::Keyboard4, true)),
        '%' => Some((UsbKeyCode::Keyboard5, true)),
        '&' => Some((UsbKeyCode::Keyboard7, true)),
        '\'' => Some((UsbKeyCode::Q, false)),
        '(' => Some((UsbKeyCode::Keyboard9, true)),
        ')' => Some((UsbKeyCode::Keyboard0, true)),
        '*' => Some((UsbKeyCode::Keyboard8, true)),
        '+' => Some((UsbKeyCode::RightBrace, true)),
        ',' => Some((UsbKeyCode::W, false)),
        '-' => Some((UsbKeyCode::Apostrophe, false)),
        '.' => Some((UsbKeyCode::E, false)),
        '/' => Some((UsbKeyCode::LeftBrace, false)),
        '0' => Some((UsbKeyCode::Keyboard0, false)),
        '1' => Some((UsbKeyCode::Keyboard1, false)),
        '2' => Some((UsbKeyCode::Keyboard2, false)),
        '3' => Some((UsbKeyCode::Keyboard3, false)),
        '4' => Some((UsbKeyCode::Keyboard4, false)),
        '5' => Some((UsbKeyCode::Keyboard5, false)),
        '6' => Some((UsbKeyCode::Keyboard6, false)),
        '7' => Some((UsbKeyCode::Keyboard7, false)),
        '8' => Some((UsbKeyCode::Keyboard8, false)),
        '9' => Some((UsbKeyCode::Keyboard9, false)),
        ':' => Some((UsbKeyCode::Z, true)),
        ';' => Some((UsbKeyCode::Z, false)),
        '<' => Some((UsbKeyCode::W, true)),
        '=' => Some((UsbKeyCode::RightBrace, false)),
        '>' => Some((UsbKeyCode::E, true)),
        '?' => Some((UsbKeyCode::LeftBrace, true)),
        '@' => Some((UsbKeyCode::Keyboard2, true)),
        'A' => Some((UsbKeyCode::A, true)),
        'B' => Some((UsbKeyCode::N, true)),
        'C' => Some((UsbKeyCode::I, true)),
        'D' => Some((UsbKeyCode::H, true)),
        'E' => Some((UsbKeyCode::D, true)),
        'F' => Some((UsbKeyCode::Y, true)),
        'G' => Some((UsbKeyCode::U, true)),
        'H' => Some((UsbKeyCode::J, true)),
        'I' => Some((UsbKeyCode::G, true)),
        'J' => Some((UsbKeyCode::C, true)),
        'K' => Some((UsbKeyCode::V, true)),
        'L' => Some((UsbKeyCode::P, true)),
        'M' => Some((UsbKeyCode::M, true)),
        'N' => Some((UsbKeyCode::L, true)),
        'O' => Some((UsbKeyCode::S, true)),
        'P' => Some((UsbKeyCode::R, true)),
        'Q' => Some((UsbKeyCode::X, true)),
        'R' => Some((UsbKeyCode::O, true)),
        'S' => Some((UsbKeyCode::Semicolon, true)),
        'T' => Some((UsbKeyCode::K, true)),
        'U' => Some((UsbKeyCode::F, true)),
        'V' => Some((UsbKeyCode::Dot, true)),
        'W' => Some((UsbKeyCode::Comma, true)),
        'X' => Some((UsbKeyCode::B, true)),
        'Y' => Some((UsbKeyCode::T, true)),
        'Z' => Some((UsbKeyCode::ForwardSlash, true)),
        '[' => Some((UsbKeyCode::Minus, false)),
        '\\' => Some((UsbKeyCode::Backslash, false)),
        ']' => Some((UsbKeyCode::Equal, false)),
        '^' => Some((UsbKeyCode::Keyboard6, true)),
        '_' => Some((UsbKeyCode::Apostrophe, true)),
        '`' => Some((UsbKeyCode::Grave, false)),
        'a' => Some((UsbKeyCode::A, false)),
        'b' => Some((UsbKeyCode::N, false)),
        'c' => Some((UsbKeyCode::I, false)),
        'd' => Some((UsbKeyCode::H, false)),
        'e' => Some((UsbKeyCode::D, false)),
        'f' => Some((UsbKeyCode::Y, false)),
        'g' => Some((UsbKeyCode::U, false)),
        'h' => Some((UsbKeyCode::J, false)),
        'i' => Some((UsbKeyCode::G, false)),
        'j' => Some((UsbKeyCode::C, false)),
        'k' => Some((UsbKeyCode::V, false)),
        'l' => Some((UsbKeyCode::P, false)),
        'm' => Some((UsbKeyCode::M, false)),
        'n' => Some((UsbKeyCode::L, false)),
        'o' => Some((UsbKeyCode::S, false)),
        'p' => Some((UsbKeyCode::R, false)),
        'q' => Some((UsbKeyCode::X, false)),
        'r' => Some((UsbKeyCode::O, false)),
        's' => Some((UsbKeyCode::Semicolon, false)),
        't' => Some((UsbKeyCode::K, false)),
        'u' => Some((UsbKeyCode::F, false)),
        'v' => Some((UsbKeyCode::Dot, false)),
        'w' => Some((UsbKeyCode::Comma, false)),
        'x' => Some((UsbKeyCode::B, false)),
        'y' => Some((UsbKeyCode::T, false)),
        'z' => Some((UsbKeyCode::ForwardSlash, false)),
        '{' => Some((UsbKeyCode::Minus, true)),
        '|' => Some((UsbKeyCode::Backslash, true)),
        '}' => Some((UsbKeyCode::Equal, true)),
        '~' => Some((UsbKeyCode::Grave, true)),
        '\u{000a}' => Some((UsbKeyCode::ReturnEnter, false)),
        '\u{0008}' => Some((UsbKeyCode::DeleteBackspace, false)),
        _ => None,
    }
}

/// The key presses that type `key` on a host with a Dvorak keyboard layout.
pub fn char_to_hid_code_dvorak(key: char) -> (code: Vec<UsbKeyCode>)
    ensures
        code@ == key_sequence(dvorak_key(key)),
{
    let mut code: Vec<UsbKeyCode> = Vec::new();
    match key {
        ' ' => code.push(UsbKeyCode::Space),
        '!' => {
            code.push(UsbKeyCode::Keyboard1);
            code.push(UsbKeyCode::LeftShift);
        },
        '"' => {
            code.push(UsbKeyCode::Q);
            code.push(UsbKeyCode::LeftShift);
        },
        '#' => {
            code.push(UsbKeyCode::Keyboard3);
            code.push(UsbKeyCode::LeftShift);
        },
        '$' => {
            code.push(UsbKeyCode::Keyboard4);
            code.push(UsbKeyCode::LeftShift);
        },
        '%' => {
            code.push(UsbKeyCode::Keyboard5);
            code.push(UsbKeyCode::LeftShift);
        },
        '&' => {
            code.push(UsbKeyCode::Keyboard7);
            code.push(UsbKeyCode::LeftShift);
        },
        '\'' => code.push(UsbKeyCode::Q),
        '(' => {
            code.push(UsbKeyCode::Keyboard9);
            code.push(UsbKeyCode::LeftShift);
        },
        ')' => {
            code.push(UsbKeyCode::Keyboard0);
            code.push(UsbKeyCode::LeftShift);
        },
        '*' => {
            code.push(UsbKeyCode::Keyboard8);
            code.push(UsbKeyCode::LeftShift);
        },
        '+' => {
            code.push(UsbKeyCode::RightBrace);
            code.push(UsbKeyCode::LeftShift);
        },
        ',' => code.push(UsbKeyCode::W),
        '-' => code.push(UsbKeyCode::Apostrophe),
        '.' => code.push(UsbKeyCode::E),
        '/' => code.push(UsbKeyCode::LeftBrace),
        '0' => code.push(UsbKeyCode::Keyboard0),
        '1' => code.push(UsbKeyCode::Keyboard1),
        '2' => code.push(UsbKeyCode::Keyboard2),
        '3' => code.push(UsbKeyCode::Keyboard3),
        '4' => code.push(UsbKeyCode::Keyboard4),
        '5' => code.push(UsbKeyCode::Keyboard5),
        '6' => code.push(UsbKeyCode::Keyboard6),
        '7' => code.push(UsbKeyCode::Keyboard7),
        '8' => code.push(UsbKeyCode::Keyboard8),
        '9' => code.push(UsbKeyCode::Keyboard9),
        ':' => {
            code.push(UsbKeyCode::Z);
            code.push(UsbKeyCode::LeftShift);
        },
        ';' => code.push(UsbKeyCode::Z),
        '<' => {
            code.push(UsbKeyCode::W);
            code.push(UsbKeyCode::LeftShift);
        },
        '=' => code.push(UsbKeyCode::RightBrace),
        '>' => {
            code.push(UsbKeyCode::E);
            code.push(UsbKeyCode::LeftShift);
        },
        '?' => {
            code.push(UsbKeyCode::LeftBrace);
            code.push(UsbKeyCode::LeftShift);
        },
        '@' => {
            code.push(UsbKeyCode::Keyboard2);
            code.push(UsbKeyCode::LeftShift);
        },
        'A' => {
            code.push(UsbKeyCode::A);
            code.push(UsbKeyCode::LeftShift);
        },
        'B' => {
            code.push(UsbKeyCode::N);
            code.push(UsbKeyCode::LeftShift);
        },
        'C' => {
            code.push(UsbKeyCode::I);
            code.push(UsbKeyCode::LeftShift);
        },
        'D' => {
            code.push(UsbKeyCode::H);
            code.push(UsbKeyCode::LeftShift);
        },
        'E' => {
            code.push(UsbKeyCode::D);
            code.push(UsbKeyCode::LeftShift);
        },
        'F' => {
            code.push(UsbKeyCode::Y);
            code.push(UsbKeyCode::LeftShift);
        },
        'G' => {
            code.push(UsbKeyCode::U);
            code.push(UsbKeyCode::LeftShift);
        },
        'H' => {
            code.push(UsbKeyCode::J);
            code.push(UsbKeyCode::LeftShift);
        },
        'I' => {
            code.push(UsbKeyCode::G);
            code.push(UsbKeyCode::LeftShift);
        },
        'J' => {
            code.push(UsbKeyCode::C);
            code.push(UsbKeyCode::LeftShift);
        },
        'K' => {
            code.push(UsbKeyCode::V);
            code.push(UsbKeyCode::LeftShift);
        },
        'L' => {
            code.push(UsbKeyCode::P);
            code.push(UsbKeyCode::LeftShift);
        },
        'M' => {
            code.push(UsbKeyCode::M);
            code.push(UsbKeyCode::LeftShift);
        },
        'N' => {
            code.push(UsbKeyCode::L);
            code.push(UsbKeyCode::LeftShift);
        },
        'O' => {
            code.push(UsbKeyCode::S);
            code.push(UsbKeyCode::LeftShift);
        },
        'P' => {
            code.push(UsbKeyCode::R);
            code.push(UsbKeyCode::LeftShift);
        },
        'Q' => {
            code.push(UsbKeyCode::X);
            code.push(UsbKeyCode::LeftShift);
        },
        'R' => {
            code.push(UsbKeyCode::O);
            code.push(UsbKeyCode::LeftShift);
        },
        'S' => {
            code.push(UsbKeyCode::Semicolon);
            code.push(UsbKeyCode::LeftShift);
        },
        'T' => {
            code.push(UsbKeyCode::K);
            code.push(UsbKeyCode::LeftShift);
        },
        'U' => {
            code.push(UsbKeyCode::F);
            code.push(UsbKeyCode::LeftShift);
        },
        'V' => {
            code.push(UsbKeyCode::Dot);
            code.push(UsbKeyCode::LeftShift);
        },
        'W' => {
            code.push(UsbKeyCode::Comma);
            code.push(UsbKeyCode::LeftShift);
        },
        'X' => {
            code.push(UsbKeyCode::B);
            code.push(UsbKeyCode::LeftShift);
        },
        'Y' => {
            code.push(UsbKeyCode::T);
            code.push(UsbKeyCode::LeftShift);
        },
        'Z' => {
            code.push(UsbKeyCode::ForwardSlash);
            code.push(UsbKeyCode::LeftShift);
        },
        '[' => code.push(UsbKeyCode::Minus),
        '\\' => code.push(UsbKeyCode::Backslash),
        ']' => code.push(UsbKeyCode::Equal),
        '^' => {
            code.push(UsbKeyCode::Keyboard6);
            code.push(UsbKeyCode::LeftShift);
        },
        '_' => {
            code.push(UsbKeyCode::Apostrophe);
            code.push(UsbKeyCode::LeftShift);
        },
        '`' => code.push(UsbKeyCode::Grave),
        'a' => code.push(UsbKeyCode::A),
        'b' => code.push(UsbKeyCode::N),
        'c' => code.push(UsbKeyCode::I),
        'd' => code.push(UsbKeyCode::H),
        'e' => code.push(UsbKeyCode::D),
        'f' => code.push(UsbKeyCode::Y),
        'g' => code.push(UsbKeyCode::U),
        'h' => code.push(UsbKeyCode::J),
        'i' => code.push(UsbKeyCode::G),
        'j' => code.push(UsbKeyCode::C),
        'k' => code.push(UsbKeyCode::V),
        'l' => code.push(UsbKeyCode::P),
        'm' => code.push(UsbKeyCode::M),
        'n' => code.push(UsbKeyCode::L),
        'o' => code.push(UsbKeyCode::S),
        'p' => code.push(UsbKeyCode::R),
        'q' => code.push(UsbKeyCode::X),
        'r' => code.push(UsbKeyCode::O),
        's' => code.push(UsbKeyCode::Semicolon),
        't' => code.push(UsbKeyCode::K),
        'u' => code.push(UsbKeyCode::F),
        'v' => code.push(UsbKeyCode::Dot),
        'w' => code.push(UsbKeyCode::Comma),
        'x' => code.push(UsbKeyCode::B),
        'y' => code.push(UsbKeyCode::T),
        'z' => code.push(UsbKeyCode::ForwardSlash),
        '{' => {
            code.push(UsbKeyCode::Minus);
            code.push(UsbKeyCode::LeftShift);
        },
        '|' => {
            code.push(UsbKeyCode::Backslash);
            code.push(UsbKeyCode::LeftShift);
        },
        '}' => {
            code.push(UsbKeyCode::Equal);
            code.push(UsbKeyCode::LeftShift);
        },
        '~' => {
            code.push(UsbKeyCode::Grave);
            code.push(UsbKeyCode::LeftShift);
        },
        '\u{000d}' => {},
        '\u{000a}' => code.push(UsbKeyCode::ReturnEnter),
        '\u{0008}' => code.push(UsbKeyCode::DeleteBackspace),
        _ => {},
    }
    code
}

/// In both layouts an upper-case letter is typed as its lower-case letter with
/// the left shift held.
pub proof fn lemma_upper_case_is_shifted_lower_case(lower: char, upper: char)
    requires
        'a' <= lower <= 'z',
        upper as u32 + 32 == lower as u32,
    ensures
        key_sequence(us101_key(upper)) == key_sequence(us101_key(lower)).push(UsbKeyCode::LeftShift),
        key_sequence(dvorak_key(upper)) == key_sequence(dvorak_key(lower)).push(UsbKeyCode::LeftShift),
{
    if lower == 'a' {
    } else if lower == 'b' {
    } else if lower == 'c' {
    } else if lower == 'd' {
    } else if lower == 'e' {
    } else if lower == 'f' {
    } else if lower == 'g' {
    } else if lower == 'h' {
    } else if lower == 'i' {
    } else if lower == 'j' {
    } else if lower == 'k' {
    } else if lower == 'l' {
    } else if lower == 'm' {
    } else if lower == 'n' {
    } else if lower == 'o' {
    } else if lower == 'p' {
    } else if lower == 'q' {
    } else if lower == 'r' {
    } else if lower == 's' {
    } else if lower == 't' {
    } else if lower == 'u' {
    } else if lower == 'v' {
    } else if lower == 'w' {
    } else if lower == 'x' {
    } else if lower == 'y' {
    } else if lower == 'z' {
    }
}

/// Both layouts type digits, space, line feed and backspace with the same
/// keys.
pub proof fn lemma_layouts_agree_on_digits_and_controls(key: char)
    requires
        '0' <= key <= '9' || key == ' ' || key == '\n' || key == '\u{0008}' || key == '\r',
    ensures
        dvorak_key(key) == us101_key(key),
{
    if key == '0' {
    } else if key == '1' {
    } else if key == '2' {
    } else if key == '3' {
    } else if key == '4' {
    } else if key == '5' {
    } else if key == '6' {
    } else if key == '7' {
    } else if key == '8' {
    } else if key == '9' {
    }
}

/// What each key types on a US101 host without shift.
pub open spec fn us101_unshifted_char(key: UsbKeyCode) -> Option<char> {
    match key {
        UsbKeyCode::A => Some('a'),
        UsbKeyCode::B => Some('b'),
        UsbKeyCode::C => Some('c'),
        UsbKeyCode::D => Some('d'),
        UsbKeyCode::E => Some('e'),
        UsbKeyCode::F => Some('f'),
        UsbKeyCode::G => Some('g'),
        UsbKeyCode::H => Some('h'),
        UsbKeyCode::I => Some('i'),
        UsbKeyCode::J => Some('j'),
        UsbKeyCode::K => Some('k'),
        UsbKeyCode::L => Some('l'),
        UsbKeyCode::M => Some('m'),
        UsbKeyCode::N => Some('n'),
        UsbKeyCode::O => Some('o'),
        UsbKeyCode::P => Some('p'),
        UsbKeyCode::Q => Some('q'),
        UsbKeyCode::R => Some('r'),
        UsbKeyCode::S => Some('s'),
        UsbKeyCode::T => Some('t'),
        UsbKeyCode::U => Some('u'),
        UsbKeyCode::V => Some('v'),
        UsbKeyCode::W => Some('w'),
        UsbKeyCode::X => Some('x'),
        UsbKeyCode::Y => Some('y'),
        UsbKeyCode::Z => Some('z'),
        UsbKeyCode::Keyboard0 => Some('0'),
        UsbKeyCode::Keyboard1 => Some('1'),
        UsbKeyCode::Keyboard2 => Some('2'),
        UsbKeyCode::Keyboard3 => Some('3'),
        UsbKeyCode::Keyboard4 => Some('4'),
        UsbKeyCode::Keyboard5 => Some('5'),
        UsbKeyCode::Keyboard6 => Some('6'),
        UsbKeyCode::Keyboard7 => Some('7'),
        UsbKeyCode::Keyboard8 => Some('8'),
        UsbKeyCode::Keyboard9 => Some('9'),
        UsbKeyCode::Minus => Some('-'),
        UsbKeyCode::LeftBrace => Some('['),
        UsbKeyCode::RightBrace => Some(']'),
        UsbKeyCode::ForwardSlash => Some('/'),
        UsbKeyCode::Backslash => Some('\\'),
        UsbKeyCode::Equal => Some('='),
        UsbKeyCode::Apostrophe => Some('\''),
        UsbKeyCode::Semicolon => Some(';'),
        UsbKeyCode::Grave => Some('`'),
        UsbKeyCode::LeftArrow => Some('\u{2190}'),
        UsbKeyCode::RightArrow => Some('\u{2192}'),
        UsbKeyCode::UpArrow => Some('\u{2191}'),
        UsbKeyCode::DownArrow => Some('\u{2193}'),
        UsbKeyCode::Comma => Some(','),
        UsbKeyCode::Dot => Some('.'),
        UsbKeyCode::ReturnEnter => Some('\u{000a}'),
        UsbKeyCode::Space => Some(' '),
        UsbKeyCode::DeleteBackspace => Some('\u{0008}'),
        _ => None,
    }
}

/// What each key types on a US101 host with the left shift held.
pub open spec fn us101_shifted_char(key: UsbKeyCode) -> Option<char> {
    match key {
        UsbKeyCode::A => Some('A'),
        UsbKeyCode::B => Some('B'),
        UsbKeyCode::C => Some('C'),
        UsbKeyCode::D => Some('D'),
        UsbKeyCode::E => Some('E'),
        UsbKeyCode::F => Some('F'),
        UsbKeyCode::G => Some('G'),
        UsbKeyCode::H => Some('H'),
        UsbKeyCode::I => Some('I'),
        UsbKeyCode::J => Some('J'),
        UsbKeyCode::K => Some('K'),
        UsbKeyCode::L => Some('L'),
        UsbKeyCode::M => Some('M'),
        UsbKeyCode::N => Some('N'),
        UsbKeyCode::O => Some('O'),
        UsbKeyCode::P => Some('P'),
        UsbKeyCode::Q => Some('Q'),
        UsbKeyCode::R => Some('R'),
        UsbKeyCode::S => Some('S'),
        UsbKeyCode::T => Some('T'),
        UsbKeyCode::U => Some('U'),
        UsbKeyCode::V => Some('V'),
        UsbKeyCode::W => Some('W'),
        UsbKeyCode::X => Some('X'),
        UsbKeyCode::Y => Some('Y'),
        UsbKeyCode::Z => Some('Z'),
        UsbKeyCode::Keyboard1 => Some('!'),
        UsbKeyCode::Keyboard2 => Some('@'),
        UsbKeyCode::Keyboard3 => Some('#'),
        UsbKeyCode::Keyboard4 => Some('$'),
        UsbKeyCode::Keyboard5 => Some('%'),
        UsbKeyCode::Keyboard6 => Some('^'),
        UsbKeyCode::Keyboard7 => Some('&'),
        UsbKeyCode::Keyboard8 => Some('*'),
        UsbKeyCode::Keyboard9 => Some('('),
        UsbKeyCode::Keyboard0 => Some(')'),
        UsbKeyCode::Minus => Some('_'),
        UsbKeyCode::LeftBrace => Some('{'),
        UsbKeyCode::RightBrace => Some('}'),
        UsbKeyCode::ForwardSlash => Some('?'),
        UsbKeyCode::Backslash => Some('|'),
        UsbKeyCode::Equal => Some('+'),
        UsbKeyCode::Apostrophe => Some('"'),
        UsbKeyCode::Semicolon => Some(':'),
        UsbKeyCode::Grave => Some('~'),
        UsbKeyCode::Comma => Some('<'),
        UsbKeyCode::Dot => Some('>'),
        _ => None,
    }
}

/// The US101 table agrees with the US101 layout key by key: a key types its
/// character without shift, and its shifted character with the left shift
/// held; and every character the table types comes from that layout.
pub proof fn lemma_us101_table_matches_layout(key: UsbKeyCode, c: char)
    ensures
        us101_unshifted_char(key) == Some(c) ==> us101_key(c) == Some((key, false)),
        us101_shifted_char(key) == Some(c) ==> us101_key(c) == Some((key, true)),
        us101_key(c) == Some((key, false)) ==> us101_unshifted_char(key) == Some(c),
        us101_key(c) == Some((key, true)) ==> us101_shifted_char(key) == Some(c),
{
}

/// What each key types on a Dvorak host without shift.
pub open spec fn dvorak_unshifted_char(key: UsbKeyCode) -> Option<char> {
    match key {
        UsbKeyCode::Space => Some(' '),
        UsbKeyCode::Q => Some('\''),
        UsbKeyCode::W => Some(','),
        UsbKeyCode::Apostrophe => Some('-'),
        UsbKeyCode::E => Some('.'),
        UsbKeyCode::LeftBrace => Some('/'),
        UsbKeyCode::Keyboard0 => Some('0'),
        UsbKeyCode::Keyboard1 => Some('1'),
        UsbKeyCode::Keyboard2 => Some('2'),
        UsbKeyCode::Keyboard3 => Some('3'),
        UsbKeyCode::Keyboard4 => Some('4'),
        UsbKeyCode::Keyboard5 => Some('5'),
        UsbKeyCode::Keyboard6 => Some('6'),
        UsbKeyCode::Keyboard7 => Some('7'),
        UsbKeyCode::Keyboard8 => Some('8'),
        UsbKeyCode::Keyboard9 => Some('9'),
        UsbKeyCode::Z => Some(';'),
        UsbKeyCode::RightBrace => Some('='),
        UsbKeyCode::Minus => Some('['),
        UsbKeyCode::Backslash => Some('\\'),
        UsbKeyCode::Equal => Some(']'),
        UsbKeyCode::Grave => Some('`'),
        UsbKeyCode::A => Some('a'),
        UsbKeyCode::N => Some('b'),
        UsbKeyCode::I => Some('c'),
        UsbKeyCode::H => Some('d'),
        UsbKeyCode::D => Some('e'),
        UsbKeyCode::Y => Some('f'),
        UsbKeyCode::U => Some('g'),
        UsbKeyCode::J => Some('h'),
        UsbKeyCode::G => Some('i'),
        UsbKeyCode::C => Some('j'),
        UsbKeyCode::V => Some('k'),
        UsbKeyCode::P => Some('l'),
        UsbKeyCode::M => Some('m'),
        UsbKeyCode::L => Some('n'),
        UsbKeyCode::S => Some('o'),
        UsbKeyCode::R => Some('p'),
        UsbKeyCode::X => Some('q'),
        UsbKeyCode::O => Some('r'),
        UsbKeyCode::Semicolon => Some('s'),
        UsbKeyCode::K => Some('t'),
        UsbKeyCode::F => Some('u'),
        UsbKeyCode::Dot => Some('v'),
        UsbKeyCode::Comma => Some('w'),
        UsbKeyCode::B => Some('x'),
        UsbKeyCode::T => Some('y'),
        UsbKeyCode::ForwardSlash => Some('z'),
        UsbKeyCode::ReturnEnter => Some('\u{000a}'),
        UsbKeyCode::DeleteBackspace => Some('\u{0008}'),
        _ => None,
    }
}

/// What each key types on a Dvorak host with the left shift held.
pub open spec fn dvorak_shifted_char(key: UsbKeyCode) -> Option<char> {
    match key {
        UsbKeyCode::Keyboard1 => Some('!'),
        UsbKeyCode::Q => Some('"'),
        UsbKeyCode::Keyboard3 => Some('#'),
        UsbKeyCode::Keyboard4 => Some('$'),
        UsbKeyCode::Keyboard5 => Some('%'),
        UsbKeyCode::Keyboard7 => Some('&'),
        UsbKeyCode::Keyboard9 => Some('('),
        UsbKeyCode::Keyboard0 => Some(')'),
        UsbKeyCode::Keyboard8 => Some('*'),
        UsbKeyCode::RightBrace => Some('+'),
        UsbKeyCode::Z => Some(':'),
        UsbKeyCode::W => Some('<'),
        UsbKeyCode::E => Some('>'),
        UsbKeyCode::LeftBrace => Some('?'),
        UsbKeyCode::Keyboard2 => Some('@'),
        UsbKeyCode::A => Some('A'),
        UsbKeyCode::N => Some('B'),
        UsbKeyCode::I => Some('C'),
        UsbKeyCode::H => Some('D'),
        UsbKeyCode::D => Some('E'),
        UsbKeyCode::Y => Some('F'),
        UsbKeyCode::U => Some('G'),
        UsbKeyCode::J => Some('H'),
        UsbKeyCode::G => Some('I'),
        UsbKeyCode::C => Some('J'),
        UsbKeyCode::V => Some('K'),
        UsbKeyCode::P => Some('L'),
        UsbKeyCode::M => Some('M'),
        UsbKeyCode::L => Some('N'),
        UsbKeyCode::S => Some('O'),
        UsbKeyCode::R => Some('P'),
        UsbKeyCode::X => Some('Q'),
        UsbKeyCode::O => Some('R'),
        UsbKeyCode::Semicolon => Some('S'),
        UsbKeyCode::K => Some('T'),
        UsbKeyCode::F => Some('U'),
        UsbKeyCode::Dot => Some('V'),
        UsbKeyCode::Comma => Some('W'),
        UsbKeyCode::B => Some('X'),
        UsbKeyCode::T => Some('Y'),
        UsbKeyCode::ForwardSlash => Some('Z'),
        UsbKeyCode::Keyboard6 => Some('^'),
        UsbKeyCode::Apostrophe => Some('_'),
        UsbKeyCode::Minus => Some('{'),
        UsbKeyCode::Backslash => Some('|'),
        UsbKeyCode::Equal => Some('}'),
        UsbKeyCode::Grave => Some('~'),
        _ => None,
    }
}

/// The Dvorak table agrees with the Dvorak layout key by key: a key types its
/// character without shift, and its shifted character with the left shift
/// held; and every character the table types comes from that layout.
pub proof fn lemma_dvorak_table_matches_layout(key: UsbKeyCode, c: char)
    ensures
        dvorak_unshifted_char(key) == Some(c) ==> dvorak_key(c) == Some((key, false)),
        dvorak_shifted_char(key) == Some(c) ==> dvorak_key(c) == Some((key, true)),
        dvorak_key(c) == Some((key, false)) ==> dvorak_unshifted_char(key) == Some(c),
        dvorak_key(c) == Some((key, true)) ==> dvorak_shifted_char(key) == Some(c),
{
}

} // verus!
