//! The keyboard vocabulary: raw key events as plain values, the closed set
//! of keys they decode to, and the decoder.

use vstd::prelude::*;
use vstd::string::*;
use crate::bridge::{title_case, to_title_case};
use crate::strings::{ascii_lower, decimal, lower_char, push_decimal, to_lower_char};

verus! {

/// A key of the keyboard. Letters stand for both cases; the modifier keys
/// themselves are not keys.
#[derive(Debug, Clone, Copy, Hash, PartialEq, Eq, Structural)]
pub enum InputKey {
    // Letters
    Q, W, E, R, T, Y, U, I, O, P, A, S, D, F, G, H, J, K, L, Z, X, C, V, B, N, M,
    // Digits
    Num0, Num1, Num2, Num3, Num4, Num5, Num6, Num7, Num8, Num9,
    // Symbols
    Tilde, Backtick, Bang, At, Hashtag, DollarSign, Percent, Caret, Ampersand, Star,
    ForwardSlash, Backslash, Pipe, Minus, Underscore, Plus, Equal,
    // Delimiters
    LeftParenthesis, RightParenthesis, LeftSquareBracket, RightSquareBracket, LeftCurlyBracket,
    RightCurlyBraket, LeftAngleBracket, RightAngleBracket,
    // Punctuation
    Comma, Dot, Semicolon, QuestionMark, Colon, Apostrophe, QuotationMark,
    // Blank
    Space,
    // Action keys
    Backspace, Delete, Enter, Tab, BackTab, Esc, CapsLock, UpArrow, DownArrow, LeftArrow,
    RightArrow, F1, F2, F3, F4, F5, F6, F7, F8, F9, F10, F11, F12, Insert, End, Home, PrtSc,
    PageUp, PageDown,
}

impl InputKey {
    /// The identifier of the key.
    pub open spec fn name(self) -> Seq<char> {
        match self {
            InputKey::Q => "Q"@,
            InputKey::W => "W"@,
            InputKey::E => "E"@,
            InputKey::R => "R"@,
            InputKey::T => "T"@,
            InputKey::Y => "Y"@,
            InputKey::U => "U"@,
            InputKey::I => "I"@,
            InputKey::O => "O"@,
            InputKey::P => "P"@,
            InputKey::A => "A"@,
            InputKey::S => "S"@,
            InputKey::D => "D"@,
            InputKey::F => "F"@,
            InputKey::G => "G"@,
            InputKey::H => "H"@,
            InputKey::J => "J"@,
            InputKey::K => "K"@,
            InputKey::L => "L"@,
            InputKey::Z => "Z"@,
            InputKey::X => "X"@,
            InputKey::C => "C"@,
            InputKey::V => "V"@,
            InputKey::B => "B"@,
            InputKey::N => "N"@,
            InputKey::M => "M"@,
            InputKey::Num0 => "Num0"@,
            InputKey::Num1 => "Num1"@,
            InputKey::Num2 => "Num2"@,
            InputKey::Num3 => "Num3"@,
            InputKey::Num4 => "Num4"@,
            InputKey::Num5 => "Num5"@,
            InputKey::Num6 => "Num6"@,
            InputKey::Num7 => "Num7"@,
            InputKey::Num8 => "Num8"@,
            InputKey::Num9 => "Num9"@,
            InputKey::Tilde => "Tilde"@,
            InputKey::Backtick => "Backtick"@,
            InputKey::Bang => "Bang"@,
            InputKey::At => "At"@,
            InputKey::Hashtag => "Hashtag"@,
            InputKey::DollarSign => "DollarSign"@,
            InputKey::Percent => "Percent"@,
            InputKey::Caret => "Caret"@,
            InputKey::Ampersand => "Ampersand"@,
            InputKey::Star => "Star"@,
            InputKey::ForwardSlash => "ForwardSlash"@,
            InputKey::Backslash => "Backslash"@,
            InputKey::Pipe => "Pipe"@,
            InputKey::Minus => "Minus"@,
            InputKey::Underscore => "Underscore"@,
            InputKey::Plus => "Plus"@,
            InputKey::Equal => "Equal"@,
            InputKey::LeftParenthesis => "LeftParenthesis"@,
            InputKey::RightParenthesis => "RightParenthesis"@,
            InputKey::LeftSquareBracket => "LeftSquareBracket"@,
            InputKey::RightSquareBracket => "RightSquareBracket"@,
            InputKey::LeftCurlyBracket => "LeftCurlyBracket"@,
            InputKey::RightCurlyBraket => "RightCurlyBraket"@,
            InputKey::LeftAngleBracket => "LeftAngleBracket"@,
            InputKey::RightAngleBracket => "RightAngleBracket"@,
            InputKey::Comma => "Comma"@,
            InputKey::Dot => "Dot"@,
            InputKey::Semicolon => "Semicolon"@,
            InputKey::QuestionMark => "QuestionMark"@,
            InputKey::Colon => "Colon"@,
            InputKey::Apostrophe => "Apostrophe"@,
            InputKey::QuotationMark => "QuotationMark"@,
            InputKey::Space => "Space"@,
            InputKey::Backspace => "Backspace"@,
            InputKey::Delete => "Delete"@,
            InputKey::Enter => "Enter"@,
            InputKey::Tab => "Tab"@,
            InputKey::BackTab => "BackTab"@,
            InputKey::Esc => "Esc"@,
            InputKey::CapsLock => "CapsLock"@,
            InputKey::UpArrow => "UpArrow"@,
            InputKey::DownArrow => "DownArrow"@,
            InputKey::LeftArrow => "LeftArrow"@,
            InputKey::RightArrow => "RightArrow"@,
            InputKey::F1 => "F1"@,
            InputKey::F2 => "F2"@,
            InputKey::F3 => "F3"@,
            InputKey::F4 => "F4"@,
            InputKey::F5 => "F5"@,
            InputKey::F6 => "F6"@,
            InputKey::F7 => "F7"@,
            InputKey::F8 => "F8"@,
            InputKey::F9 => "F9"@,
            InputKey::F10 => "F10"@,
            InputKey::F11 => "F11"@,
            InputKey::F12 => "F12"@,
            InputKey::Insert => "Insert"@,
            InputKey::End => "End"@,
            InputKey::Home => "Home"@,
            InputKey::PrtSc => "PrtSc"@,
            InputKey::PageUp => "PageUp"@,
            InputKey::PageDown => "PageDown"@,
        }
    }

    /// Whether the key belongs to the typeable keys: the letters, the symbols
    /// and the delimiters.
    pub open spec fn typeable(self) -> bool {
        matches!(
            self,
            InputKey::Q | InputKey::W | InputKey::E | InputKey::R | InputKey::T | InputKey::Y
            | InputKey::U | InputKey::I | InputKey::O | InputKey::P | InputKey::A | InputKey::S
            | InputKey::D | InputKey::F | InputKey::G | InputKey::H | InputKey::J | InputKey::K
            | InputKey::L | InputKey::Z | InputKey::X | InputKey::C | InputKey::V | InputKey::B
            | InputKey::N | InputKey::M | InputKey::Tilde | InputKey::Backtick | InputKey::Bang
            | InputKey::At | InputKey::Hashtag | InputKey::DollarSign | InputKey::Percent
            | InputKey::Caret | InputKey::Ampersand | InputKey::Star | InputKey::ForwardSlash
            | InputKey::Backslash | InputKey::Pipe | InputKey::Minus | InputKey::Underscore
            | InputKey::Plus | InputKey::Equal | InputKey::LeftParenthesis
            | InputKey::RightParenthesis | InputKey::LeftSquareBracket
            | InputKey::RightSquareBracket | InputKey::LeftCurlyBracket
            | InputKey::RightCurlyBraket | InputKey::LeftAngleBracket
            | InputKey::RightAngleBracket
        )
    }

    /// Whether the key belongs to the action keys.
    pub open spec fn action(self) -> bool {
        matches!(
            self,
            InputKey::Backspace | InputKey::Delete | InputKey::Enter | InputKey::Tab
            | InputKey::Esc | InputKey::UpArrow | InputKey::DownArrow | InputKey::LeftArrow
            | InputKey::RightArrow | InputKey::F1 | InputKey::F2 | InputKey::F3 | InputKey::F4
            | InputKey::F5 | InputKey::F6 | InputKey::F7 | InputKey::F8 | InputKey::F9
            | InputKey::F10 | InputKey::F11 | InputKey::F12 | InputKey::Insert | InputKey::End
            | InputKey::Home | InputKey::PrtSc
        )
    }

    /// The key that the lowercase character `c` stands for, where there is one.
    pub open spec fn for_char(c: char) -> Option<InputKey> {
        match c {
            'q' => Some(InputKey::Q),
            'w' => Some(InputKey::W),
            'e' => Some(InputKey::E),
            'r' => Some(InputKey::R),
            't' => Some(InputKey::T),
            'y' => Some(InputKey::Y),
            'u' => Some(InputKey::U),
            'i' => Some(InputKey::I),
            'o' => Some(InputKey::O),
            'p' => Some(InputKey::P),
            'a' => Some(InputKey::A),
            's' => Some(InputKey::S),
            'd' => Some(InputKey::D),
            'f' => Some(InputKey::F),
            'g' => Some(InputKey::G),
            'h' => Some(InputKey::H),
            'j' => Some(InputKey::J),
            'k' => Some(InputKey::K),
            'l' => Some(InputKey::L),
            'z' => Some(InputKey::Z),
            'x' => Some(InputKey::X),
            'c' => Some(InputKey::C),
            'v' => Some(InputKey::V),
            'b' => Some(InputKey::B),
            'n' => Some(InputKey::N),
            'm' => Some(InputKey::M),
            ' ' => Some(InputKey::Space),
            '~' => Some(InputKey::Tilde),
            '`' => Some(InputKey::Backtick),
            '!' => Some(InputKey::Bang),
            '@' => Some(InputKey::At),
            '#' => Some(InputKey::Hashtag),
            '$' => Some(InputKey::DollarSign),
            '%' => Some(InputKey::Percent),
            '^' => Some(InputKey::Caret),
            '&' => Some(InputKey::Ampersand),
            '*' => Some(InputKey::Star),
            '/' => Some(InputKey::ForwardSlash),
            '\\' => Some(InputKey::Backslash),
            '|' => Some(InputKey::Pipe),
            '-' => Some(InputKey::Minus),
            '_' => Some(InputKey::Underscore),
            '+' => Some(InputKey::Plus),
            '=' => Some(InputKey::Equal),
            '(' => Some(InputKey::LeftParenthesis),
            ')' => Some(InputKey::RightParenthesis),
            '[' => Some(InputKey::LeftSquareBracket),
            ']' => Some(InputKey::RightSquareBracket),
            '{' => Some(InputKey::LeftCurlyBracket),
            '}' => Some(InputKey::RightCurlyBraket),
            '<' => Some(InputKey::LeftAngleBracket),
            '>' => Some(InputKey::RightAngleBracket),
            ',' => Some(InputKey::Comma),
            '.' => Some(InputKey::Dot),
            ';' => Some(InputKey::Semicolon),
            '?' => Some(InputKey::QuestionMark),
            ':' => Some(InputKey::Colon),
            '\'' => Some(InputKey::Apostrophe),
            '"' => Some(InputKey::QuotationMark),
            '0' => Some(InputKey::Num0),
            '1' => Some(InputKey::Num1),
            '2' => Some(InputKey::Num2),
            '3' => Some(InputKey::Num3),
            '4' => Some(InputKey::Num4),
            '5' => Some(InputKey::Num5),
            '6' => Some(InputKey::Num6),
            '7' => Some(InputKey::Num7),
            '8' => Some(InputKey::Num8),
            '9' => Some(InputKey::Num9),
            _ => None,
        }
    }

    /// The key that the function key numbered `n` stands for, where there is one.
    pub open spec fn for_function(n: u8) -> Option<InputKey> {
        match n {
            1 => Some(InputKey::F1),
            2 => Some(InputKey::F2),
            3 => Some(InputKey::F3),
            4 => Some(InputKey::F4),
            5 => Some(InputKey::F5),
            6 => Some(InputKey::F6),
            7 => Some(InputKey::F7),
            8 => Some(InputKey::F8),
            9 => Some(InputKey::F9),
            10 => Some(InputKey::F10),
            11 => Some(InputKey::F11),
            12 => Some(InputKey::F12),
            _ => None,
        }
    }

    /// The key that the raw code stands for, where there is one. A character
    /// is looked up by its lowercase form.
    pub open spec fn for_code(code: RawKeyCode) -> Option<InputKey> {
        match code {
            RawKeyCode::Char(c) => InputKey::for_char(lower_char(c)),
            RawKeyCode::F(n) => InputKey::for_function(n),
            RawKeyCode::Backspace => Some(InputKey::Backspace),
            RawKeyCode::PrintScreen => Some(InputKey::PrtSc),
            RawKeyCode::Delete => Some(InputKey::Delete),
            RawKeyCode::End => Some(InputKey::End),
            RawKeyCode::Insert => Some(InputKey::Insert),
            RawKeyCode::Esc => Some(InputKey::Esc),
            RawKeyCode::CapsLock => Some(InputKey::CapsLock),
            RawKeyCode::BackTab => Some(InputKey::BackTab),
            RawKeyCode::PageUp => Some(InputKey::PageUp),
            RawKeyCode::PageDown => Some(InputKey::PageDown),
            RawKeyCode::Up => Some(InputKey::UpArrow),
            RawKeyCode::Down => Some(InputKey::DownArrow),
            RawKeyCode::Left => Some(InputKey::LeftArrow),
            RawKeyCode::Right => Some(InputKey::RightArrow),
            RawKeyCode::Enter => Some(InputKey::Enter),
            RawKeyCode::Home => Some(InputKey::Home),
            RawKeyCode::Tab => Some(InputKey::Tab),
            RawKeyCode::Other(_) => None,
        }
    }

    fn name_str(&self) -> (name: &'static str)
        ensures
            name@ == self.name(),
    {
        match self {
            InputKey::Q => "Q",
            InputKey::W => "W",
            InputKey::E => "E",
            InputKey::R => "R",
            InputKey::T => "T",
            InputKey::Y => "Y",
            InputKey::U => "U",
            InputKey::I => "I",
            InputKey::O => "O",
            InputKey::P => "P",
            InputKey::A => "A",
            InputKey::S => "S",
            InputKey::D => "D",
            InputKey::F => "F",
            InputKey::G => "G",
            InputKey::H => "H",
            InputKey::J => "J",
            InputKey::K => "K",
            InputKey::L => "L",
            InputKey::Z => "Z",
            InputKey::X => "X",
            InputKey::C => "C",
            InputKey::V => "V",
            InputKey::B => "B",
            InputKey::N => "N",
            InputKey::M => "M",
            InputKey::Num0 => "Num0",
            InputKey::Num1 => "Num1",
            InputKey::Num2 => "Num2",
            InputKey::Num3 => "Num3",
            InputKey::Num4 => "Num4",
            InputKey::Num5 => "Num5",
            InputKey::Num6 => "Num6",
            InputKey::Num7 => "Num7",
            InputKey::Num8 => "Num8",
            InputKey::Num9 => "Num9",
            InputKey::Tilde => "Tilde",
            InputKey::Backtick => "Backtick",
            InputKey::Bang => "Bang",
            InputKey::At => "At",
            InputKey::Hashtag => "Hashtag",
            InputKey::DollarSign => "DollarSign",
            InputKey::Percent => "Percent",
            InputKey::Caret => "Caret",
            InputKey::Ampersand => "Ampersand",
            InputKey::Star => "Star",
            InputKey::ForwardSlash => "ForwardSlash",
            InputKey::Backslash => "Backslash",
            InputKey::Pipe => "Pipe",
            InputKey::Minus => "Minus",
            InputKey::Underscore => "Underscore",
            InputKey::Plus => "Plus",
            InputKey::Equal => "Equal",
            InputKey::LeftParenthesis => "LeftParenthesis",
            InputKey::RightParenthesis => "RightParenthesis",
            InputKey::LeftSquareBracket => "LeftSquareBracket",
            InputKey::RightSquareBracket => "RightSquareBracket",
            InputKey::LeftCurlyBracket => "LeftCurlyBracket",
            InputKey::RightCurlyBraket => "RightCurlyBraket",
            InputKey::LeftAngleBracket => "LeftAngleBracket",
            InputKey::RightAngleBracket => "RightAngleBracket",
            InputKey::Comma => "Comma",
            InputKey::Dot => "Dot",
            InputKey::Semicolon => "Semicolon",
            InputKey::QuestionMark => "QuestionMark",
            InputKey::Colon => "Colon",
            InputKey::Apostrophe => "Apostrophe",
            InputKey::QuotationMark => "QuotationMark",
            InputKey::Space => "Space",
            InputKey::Backspace => "Backspace",
            InputKey::Delete => "Delete",
            InputKey::Enter => "Enter",
            InputKey::Tab => "Tab",
            InputKey::BackTab => "BackTab",
            InputKey::Esc => "Esc",
            InputKey::CapsLock => "CapsLock",
            InputKey::UpArrow => "UpArrow",
            InputKey::DownArrow => "DownArrow",
            InputKey::LeftArrow => "LeftArrow",
            InputKey::RightArrow => "RightArrow",
            InputKey::F1 => "F1",
            InputKey::F2 => "F2",
            InputKey::F3 => "F3",
            InputKey::F4 => "F4",
            InputKey::F5 => "F5",
            InputKey::F6 => "F6",
            InputKey::F7 => "F7",
            InputKey::F8 => "F8",
            InputKey::F9 => "F9",
            InputKey::F10 => "F10",
            InputKey::F11 => "F11",
            InputKey::F12 => "F12",
            InputKey::Insert => "Insert",
            InputKey::End => "End",
            InputKey::Home => "Home",
            InputKey::PrtSc => "PrtSc",
            InputKey::PageUp => "PageUp",
            InputKey::PageDown => "PageDown",
        }
    }

    /// The identifier of the key.
    pub fn to_debug_string(&self) -> (s: String)
        ensures
            s@ == self.name(),
    {
        self.name_str().to_owned()
    }

    /// The identifier of the key in title case.
    pub fn to_friendly_string(&self) -> (s: String)
        ensures
            s@ == title_case(self.name()),
    {
        to_title_case(self.name_str())
    }

    /// Whether the key is one of the typeable keys.
    pub fn is_typeable_key(&self) -> (yes: bool)
        ensures
            yes == self.typeable(),
    {
        matches!(
            self,
            InputKey::Q | InputKey::W | InputKey::E | InputKey::R | InputKey::T | InputKey::Y
            | InputKey::U | InputKey::I | InputKey::O | InputKey::P | InputKey::A | InputKey::S
            | InputKey::D | InputKey::F | InputKey::G | InputKey::H | InputKey::J | InputKey::K
            | InputKey::L | InputKey::Z | InputKey::X | InputKey::C | InputKey::V | InputKey::B
            | InputKey::N | InputKey::M | InputKey::Tilde | InputKey::Backtick | InputKey::Bang
            | InputKey::At | InputKey::Hashtag | InputKey::DollarSign | InputKey::Percent
            | InputKey::Caret | InputKey::Ampersand | InputKey::Star | InputKey::ForwardSlash
            | InputKey::Backslash | InputKey::Pipe | InputKey::Minus | InputKey::Underscore
            | InputKey::Plus | InputKey::Equal | InputKey::LeftParenthesis
            | InputKey::RightParenthesis | InputKey::LeftSquareBracket
            | InputKey::RightSquareBracket | InputKey::LeftCurlyBracket
            | InputKey::RightCurlyBraket | InputKey::LeftAngleBracket
            | InputKey::RightAngleBracket
        )
    }

    /// Whether the key is one of the action keys.
    pub fn is_action_key(&self) -> (yes: bool)
        ensures
            yes == self.action(),
    {
        matches!(
            self,
            InputKey::Backspace | InputKey::Delete | InputKey::Enter | InputKey::Tab
            | InputKey::Esc | InputKey::UpArrow | InputKey::DownArrow | InputKey::LeftArrow
            | InputKey::RightArrow | InputKey::F1 | InputKey::F2 | InputKey::F3 | InputKey::F4
            | InputKey::F5 | InputKey::F6 | InputKey::F7 | InputKey::F8 | InputKey::F9
            | InputKey::F10 | InputKey::F11 | InputKey::F12 | InputKey::Insert | InputKey::End
            | InputKey::Home | InputKey::PrtSc
        )
    }

    fn from_char(c: char) -> (key: Option<InputKey>)
        ensures
            key == InputKey::for_char(c),
    {
        match c {
            'q' => Some(InputKey::Q),
            'w' => Some(InputKey::W),
            'e' => Some(InputKey::E),
            'r' => Some(InputKey::R),
            't' => Some(InputKey::T),
            'y' => Some(InputKey::Y),
            'u' => Some(InputKey::U),
            'i' => Some(InputKey::I),
            'o' => Some(InputKey::O),
            'p' => Some(InputKey::P),
            'a' => Some(InputKey::A),
            's' => Some(InputKey::S),
            'd' => Some(InputKey::D),
            'f' => Some(InputKey::F),
            'g' => Some(InputKey::G),
            'h' => Some(InputKey::H),
            'j' => Some(InputKey::J),
            'k' => Some(InputKey::K),
            'l' => Some(InputKey::L),
            'z' => Some(InputKey::Z),
            'x' => Some(InputKey::X),
            'c' => Some(InputKey::C),
            'v' => Some(InputKey::V),
            'b' => Some(InputKey::B),
            'n' => Some(InputKey::N),
            'm' => Some(InputKey::M),
            ' ' => Some(InputKey::Space),
            '~' => Some(InputKey::Tilde),
            '`' => Some(InputKey::Backtick),
            '!' => Some(InputKey::Bang),
            '@' => Some(InputKey::At),
            '#' => Some(InputKey::Hashtag),
            '$' => Some(InputKey::DollarSign),
            '%' => Some(InputKey::Percent),
            '^' => Some(InputKey::Caret),
            '&' => Some(InputKey::Ampersand),
            '*' => Some(InputKey::Star),
            '/' => Some(InputKey::ForwardSlash),
            '\\' => Some(InputKey::Backslash),
            '|' => Some(InputKey::Pipe),
            '-' => Some(InputKey::Minus),
            '_' => Some(InputKey::Underscore),
            '+' => Some(InputKey::Plus),
            '=' => Some(InputKey::Equal),
            '(' => Some(InputKey::LeftParenthesis),
            ')' => Some(InputKey::RightParenthesis),
            '[' => Some(InputKey::LeftSquareBracket),
            ']' => Some(InputKey::RightSquareBracket),
            '{' => Some(InputKey::LeftCurlyBracket),
            '}' => Some(InputKey::RightCurlyBraket),
            '<' => Some(InputKey::LeftAngleBracket),
            '>' => Some(InputKey::RightAngleBracket),
            ',' => Some(InputKey::Comma),
            '.' => Some(InputKey::Dot),
            ';' => Some(InputKey::Semicolon),
            '?' => Some(InputKey::QuestionMark),
            ':' => Some(InputKey::Colon),
            '\'' => Some(InputKey::Apostrophe),
            '"' => Some(InputKey::QuotationMark),
            '0' => Some(InputKey::Num0),
            '1' => Some(InputKey::Num1),
            '2' => Some(InputKey::Num2),
            '3' => Some(InputKey::Num3),
            '4' => Some(InputKey::Num4),
            '5' => Some(InputKey::Num5),
            '6' => Some(InputKey::Num6),
            '7' => Some(InputKey::Num7),
            '8' => Some(InputKey::Num8),
            '9' => Some(InputKey::Num9),
            _ => None,
        }
    }

    fn from_function(n: u8) -> (key: Option<InputKey>)
        ensures
            key == InputKey::for_function(n),
    {
        match n {
            1 => Some(InputKey::F1),
            2 => Some(InputKey::F2),
            3 => Some(InputKey::F3),
            4 => Some(InputKey::F4),
            5 => Some(InputKey::F5),
            6 => Some(InputKey::F6),
            7 => Some(InputKey::F7),
            8 => Some(InputKey::F8),
            9 => Some(InputKey::F9),
            10 => Some(InputKey::F10),
            11 => Some(InputKey::F11),
            12 => Some(InputKey::F12),
            _ => None,
        }
    }

    /// The key that the raw code stands for, where there is one.
    pub fn from_code(code: &RawKeyCode) -> (key: Option<InputKey>)
        ensures
            key == InputKey::for_code(*code),
    {
        match code {
            RawKeyCode::Char(c) => InputKey::from_char(to_lower_char(*c)),
            RawKeyCode::F(n) => InputKey::from_function(*n),
            RawKeyCode::Backspace => Some(InputKey::Backspace),
            RawKeyCode::PrintScreen => Some(InputKey::PrtSc),
            RawKeyCode::Delete => Some(InputKey::Delete),
            RawKeyCode::End => Some(InputKey::End),
            RawKeyCode::Insert => Some(InputKey::Insert),
            RawKeyCode::Esc => Some(InputKey::Esc),
            RawKeyCode::CapsLock => Some(InputKey::CapsLock),
            RawKeyCode::BackTab => Some(InputKey::BackTab),
            RawKeyCode::PageUp => Some(InputKey::PageUp),
            RawKeyCode::PageDown => Some(InputKey::PageDown),
            RawKeyCode::Up => Some(InputKey::UpArrow),
            RawKeyCode::Down => Some(InputKey::DownArrow),
            RawKeyCode::Left => Some(InputKey::LeftArrow),
            RawKeyCode::Right => Some(InputKey::RightArrow),
            RawKeyCode::Enter => Some(InputKey::Enter),
            RawKeyCode::Home => Some(InputKey::Home),
            RawKeyCode::Tab => Some(InputKey::Tab),
            RawKeyCode::Other(_) => None,
        }
    }
}

/// The code of a raw key event. `Other` stands for every code that this
/// library has no name for, and holds what the event source calls it.
#[derive(Debug)]
pub enum RawKeyCode {
    Backspace,
    Enter,
    Left,
    Right,
    Up,
    Down,
    Home,
    End,
    PageUp,
    PageDown,
    Tab,
    BackTab,
    Delete,
    Insert,
    F(u8),
    Char(char),
    Esc,
    CapsLock,
    PrintScreen,
    Other(String),
}

impl RawKeyCode {
    /// The character that the code carries, where it carries one.
    pub open spec fn character(self) -> Option<char> {
        match self {
            RawKeyCode::Char(c) => Some(c),
            _ => None,
        }
    }

    /// What a code without a key is called in a message: the character, `F`
    /// and the number, or what the event source calls it. Every other code
    /// has a key.
    pub open spec fn description(self) -> Seq<char> {
        match self {
            RawKeyCode::Char(c) => seq![c],
            RawKeyCode::F(n) => seq!['F'] + decimal(n as nat),
            RawKeyCode::Other(text) => text@,
            _ => Seq::empty(),
        }
    }

    /// The details of the error for a code without a key.
    pub open spec fn unsupported_message(self) -> Seq<char> {
        "Key not implemented: "@ + self.description()
    }
}

/// Whether a key went down, is held, or came up.
#[derive(Debug, Clone, Copy, Hash, PartialEq, Eq, Structural)]
pub enum KeyEventKind {
    Press,
    Repeat,
    Release,
}

/// The modifier keys held during a key event.
#[derive(Debug, Clone, Copy, Hash, PartialEq, Eq, Structural)]
pub struct KeyModifiers {
    pub shift: bool,
    pub control: bool,
    pub alt: bool,
}

impl KeyModifiers {
    /// No modifier held.
    pub fn none() -> (modifiers: Self)
        ensures
            !modifiers.shift,
            !modifiers.control,
            !modifiers.alt,
    {
        Self { shift: false, control: false, alt: false }
    }
}

/// A raw key event: a code, the modifiers held, and the kind.
#[derive(Debug)]
pub struct RawKeyEvent {
    pub code: RawKeyCode,
    pub modifiers: KeyModifiers,
    pub kind: KeyEventKind,
}

/// What the event source yields: a key event, or anything else.
#[derive(Debug)]
pub enum RawEvent {
    Key(RawKeyEvent),
    Other,
}

/// A raw code that no key stands for.
#[derive(Debug)]
pub struct KeyConversionError {
    pub details: String,
}

impl KeyConversionError {
    /// The line that reports this error to the user.
    pub open spec fn report(self) -> Seq<char> {
        "Unsupported key: "@ + self.details@
    }

    fn unsupported(code: &RawKeyCode) -> (error: Self)
        ensures
            error.details@ == code.unsupported_message(),
    {
        let mut details = "Key not implemented: ".to_owned();
        match code {
            RawKeyCode::Char(c) => {
                details.push(*c);
            },
            RawKeyCode::F(n) => {
                details.push('F');
                push_decimal(&mut details, *n);
            },
            RawKeyCode::Other(text) => {
                details.append(text.as_str());
            },
            _ => {},
        }
        Self { details }
    }

    /// The line that reports this error to the user.
    pub fn to_report(&self) -> (line: String)
        ensures
            line@ == self.report(),
    {
        let mut line = "Unsupported key: ".to_owned();
        line.append(self.details.as_str());
        line
    }
}

impl TryFrom<RawKeyEvent> for InputKey {
    type Error = KeyConversionError;

    /// The key that the event's code stands for. A code without a key is an
    /// error that names the code.
    fn try_from(event: RawKeyEvent) -> (result: Result<Self, Self::Error>)
        ensures
            match InputKey::for_code(event.code) {
                Some(key) => result == Ok::<InputKey, KeyConversionError>(key),
                None => result is Err && result->Err_0.details@
                    == event.code.unsupported_message(),
            },
    {
        match InputKey::from_code(&event.code) {
            Some(key) => Ok(key),
            None => Err(KeyConversionError::unsupported(&event.code)),
        }
    }
}

/// An error holds a string, which ghost code cannot build: what the
/// conversion gives is said by the contract of `try_from` alone.
impl vstd::std_specs::convert::TryFromSpecImpl<RawKeyEvent> for InputKey {
    open spec fn obeys_try_from_spec() -> bool {
        false
    }

    open spec fn try_from_spec(event: RawKeyEvent) -> Result<Self, Self::Error> {
        arbitrary()
    }
}

/// A decoded key press: the key, the modifiers held, and the character as
/// it was typed, where the event carried one.
#[derive(Debug, Clone, Copy, Hash, PartialEq, Eq, Structural)]
pub struct Key {
    pub key: InputKey,
    pub modifiers: KeyModifiers,
    pub character: Option<char>,
}

impl Key {
    /// What follows the key's name in the friendly form: a space, and the
    /// character between parentheses where there is one.
    pub open spec fn character_part(self) -> Seq<char> {
        match self.character {
            Some(c) => seq![' ', '(', ' ', c, ' ', ')'],
            None => seq![' '],
        }
    }

    /// The friendly form: the key's name in title case, then the
    /// character part.
    pub open spec fn friendly(self) -> Seq<char> {
        title_case(self.key.name()) + self.character_part()
    }

    /// Whether control was held.
    pub fn ctrl(&self) -> (held: bool)
        ensures
            held == self.modifiers.control,
    {
        self.modifiers.control
    }

    /// Whether alt was held.
    pub fn alt(&self) -> (held: bool)
        ensures
            held == self.modifiers.alt,
    {
        self.modifiers.alt
    }

    /// Whether shift was held.
    pub fn shift(&self) -> (held: bool)
        ensures
            held == self.modifiers.shift,
    {
        self.modifiers.shift
    }

    /// The key's friendly name, a space, and the character between
    /// parentheses where there is one.
    pub fn to_friendly_string(&self) -> (s: String)
        ensures
            s@ == self.friendly(),
    {
        let mut s = self.key.to_friendly_string();
        s.push(' ');
        if let Some(c) = self.character {
            s.push('(');
            s.push(' ');
            s.push(c);
            s.push(' ');
            s.push(')');
        }
        s
    }
}

/// What one poll of the keyboard comes to: the key for the application,
/// and the line for the error stream where the event could not be decoded.
#[derive(Debug)]
pub struct PollReport {
    pub key: Option<Key>,
    pub diagnostic: Option<String>,
}

/// Decodes raw events into keys.
#[derive(Debug)]
pub struct InputHandler;

impl InputHandler {
    /// Whether the event is a key press.
    pub open spec fn is_press(event: RawEvent) -> bool {
        event matches RawEvent::Key(press) && press.kind == KeyEventKind::Press
    }

    /// Whether the event is a key press whose code has no key.
    pub open spec fn is_unsupported(event: RawEvent) -> bool {
        event matches RawEvent::Key(press) && press.kind == KeyEventKind::Press
            && InputKey::for_code(press.code) is None
    }

    /// The key that the event decodes to: for a press whose code has a key,
    /// that key with the event's modifiers and character; for anything else,
    /// none.
    pub open spec fn decoded(event: RawEvent) -> Option<Key> {
        match event {
            RawEvent::Key(press) => match InputKey::for_code(press.code) {
                Some(key) if press.kind == KeyEventKind::Press => Some(
                    Key { key, modifiers: press.modifiers, character: press.code.character() },
                ),
                _ => None,
            },
            RawEvent::Other => None,
        }
    }

    /// A decoder.
    pub fn new() -> Self {
        Self
    }

    /// Decodes one event. Only a key press gives a key; a release, a
    /// repeat or an event of another sort gives none, and is no error. A
    /// press whose code has no key is an error that names the code.
    pub fn decode(&self, event: &RawEvent) -> (result: Result<Option<Key>, KeyConversionError>)
        ensures
            Self::is_unsupported(*event) ==> result is Err && (event matches RawEvent::Key(press)
                && result->Err_0.details@ == press.code.unsupported_message()),
            !Self::is_unsupported(*event) ==> result == Ok::<Option<Key>, KeyConversionError>(
                Self::decoded(*event),
            ),
    {
        match event {
            RawEvent::Key(press) => {
                if !matches!(press.kind, KeyEventKind::Press) {
                    return Ok(None);
                }
                match InputKey::from_code(&press.code) {
                    Some(key) => {
                        let character = match press.code {
                            RawKeyCode::Char(c) => Some(c),
                            _ => None,
                        };
                        Ok(Some(Key { key, modifiers: press.modifiers, character }))
                    },
                    None => Err(KeyConversionError::unsupported(&press.code)),
                }
            },
            RawEvent::Other => Ok(None),
        }
    }

    /// What a poll that read `event` comes to; `None` stands for a poll
    /// that timed out. An event that cannot be decoded gives no key and a
    /// line that reports it.
    pub fn receive(&self, event: Option<&RawEvent>) -> (report: PollReport)
        ensures
            report.key == (match event {
                Some(e) => Self::decoded(*e),
                None => None,
            }),
            match event {
                Some(e) if Self::is_unsupported(*e) => report.diagnostic is Some && (
                e matches RawEvent::Key(press) && report.diagnostic->Some_0@ == "Unsupported key: "@
                    + press.code.unsupported_message()),
                _ => report.diagnostic is None,
            },
    {
        match event {
            Some(e) => match self.decode(e) {
                Ok(key) => PollReport { key, diagnostic: None },
                Err(error) => PollReport { key: None, diagnostic: Some(error.to_report()) },
            },
            None => PollReport { key: None, diagnostic: None },
        }
    }
}

/// No key is both a typeable key and an action key.
pub proof fn lemma_typeable_and_action_are_disjoint(key: InputKey)
    ensures
        !(key.typeable() && key.action()),
{
}

/// The characters that have a key: the lowercase letters, the digits, the
/// space and the symbols.
pub open spec fn is_supported_char(c: char) -> bool {
    ||| 'a' <= c && c <= 'z'
    ||| '0' <= c && c <= '9'
    ||| c == ' ' || c == '~' || c == '`' || c == '!' || c == '@' || c == '#' || c == '$'
    ||| c == '%' || c == '^' || c == '&' || c == '*' || c == '/' || c == '\\' || c == '|'
    ||| c == '-' || c == '_' || c == '+' || c == '=' || c == '(' || c == ')' || c == '['
    ||| c == ']' || c == '{' || c == '}' || c == '<' || c == '>' || c == ',' || c == '.'
    ||| c == ';' || c == '?' || c == ':' || c == '\'' || c == '"'
}

/// Every supported character has a key, and a press of it, in either
/// case and under any modifiers, decodes to that key with the character as
/// it was typed.
pub proof fn lemma_decode_is_total(typed: char, modifiers: KeyModifiers)
    requires
        typed <= '\x7f',
        is_supported_char(ascii_lower(typed)),
    ensures
        InputKey::for_char(ascii_lower(typed)) is Some,
        InputHandler::decoded(
            RawEvent::Key(
                RawKeyEvent { code: RawKeyCode::Char(typed), modifiers, kind: KeyEventKind::Press },
            ),
        ) == Some(
            Key {
                key: InputKey::for_char(ascii_lower(typed))->Some_0,
                modifiers,
                character: Some(typed),
            },
        ),
{
}

} // verus!
