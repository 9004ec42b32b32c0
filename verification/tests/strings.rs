use tuitui::strings::{
    chars_of, is_text, push_decimal, push_repeated, split_lines, starts_with, string_of, tail,
    to_lower_char, to_lowercase,
};

fn chars(text: &str) -> Vec<char> {
    text.chars().collect()
}

fn lines(text: &str) -> Vec<String> {
    split_lines(&chars(text)).iter().map(string_of).collect()
}

#[test]
fn characters_go_to_a_vector_and_back() {
    assert_eq!(chars_of("a\u{e9}\u{4e2d}"), vec!['a', '\u{e9}', '\u{4e2d}']);
    assert_eq!(chars_of(""), Vec::<char>::new());
    assert_eq!(string_of(&vec!['x', '\n', '\u{1f427}']), "x\n\u{1f427}");
    assert_eq!(string_of(&Vec::new()), "");
}

#[test]
fn lines_end_at_line_feeds() {
    assert_eq!(lines(""), Vec::<String>::new());
    assert_eq!(lines("a"), ["a"]);
    assert_eq!(lines("a\n"), ["a"]);
    assert_eq!(lines("a\nb"), ["a", "b"]);
    assert_eq!(lines("a\n\nb\n"), ["a", "", "b"]);
    assert_eq!(lines("\n"), [""]);
    assert_eq!(lines("\n\n"), ["", ""]);
}

#[test]
fn a_carriage_return_before_a_line_feed_belongs_to_the_ending() {
    assert_eq!(lines("a\r\nb"), ["a", "b"]);
    assert_eq!(lines("\r\n"), [""]);
    assert_eq!(lines("a\r\r\nb"), ["a\r", "b"]);
    assert_eq!(lines("a\rb\n"), ["a\rb"]);
    assert_eq!(lines("a\r"), ["a\r"]);
    assert_eq!(lines("a\n\r"), ["a", "\r"]);
}

#[test]
fn lines_agree_with_the_standard_split() {
    let alphabet = ['a', '\n', '\r'];
    for length in 0..7usize {
        for mut code in 0..3usize.pow(length as u32) {
            let mut text = String::new();
            for _ in 0..length {
                text.push(alphabet[code % 3]);
                code /= 3;
            }
            let expected: Vec<String> = text.lines().map(String::from).collect();
            assert_eq!(lines(&text), expected, "{:?}", text);
        }
    }
}

#[test]
fn decimals_have_no_leading_zeros() {
    for n in 0..=255u8 {
        let mut out = String::from(">");
        push_decimal(&mut out, n);
        assert_eq!(out, format!(">{}", n));
    }
}

#[test]
fn repeating_appends_the_unit_each_time() {
    let mut out = String::from("[");
    push_repeated(&mut out, "ab", 3);
    assert_eq!(out, "[ababab");
    push_repeated(&mut out, "x", 0);
    assert_eq!(out, "[ababab");
    push_repeated(&mut out, "", 4);
    assert_eq!(out, "[ababab");
}

#[test]
fn ascii_characters_are_lowered_letter_by_letter() {
    for code in 0..128u8 {
        let c = char::from(code);
        assert_eq!(to_lower_char(c), c.to_ascii_lowercase());
    }
    assert_eq!(to_lower_char('Q'), 'q');
    assert_eq!(to_lower_char('['), '[');
    assert_eq!(to_lower_char('@'), '@');
}

#[test]
fn other_characters_are_lowered_to_the_first_of_their_mapping() {
    assert_eq!(to_lower_char('\u{c9}'), '\u{e9}');
    assert_eq!(to_lower_char('\u{212A}'), 'k');
    assert_eq!(to_lower_char('\u{130}'), 'i');
    assert_eq!(to_lower_char('\u{4e2d}'), '\u{4e2d}');
}

#[test]
fn strings_are_lowered() {
    assert_eq!(to_lowercase("Tuitui CLASSIC 42 [Z]"), chars("tuitui classic 42 [z]"));
    assert_eq!(to_lowercase(""), Vec::<char>::new());
    assert_eq!(to_lowercase("\u{c9}T\u{c9}"), chars("\u{e9}t\u{e9}"));
    assert_eq!(to_lowercase("\u{130}"), chars("i\u{307}"));
}

#[test]
fn prefixes_are_recognised() {
    assert!(starts_with(&chars("tuitui x"), &chars("tuitui ")));
    assert!(starts_with(&chars("abc"), &chars("")));
    assert!(starts_with(&chars("abc"), &chars("abc")));
    assert!(!starts_with(&chars("ab"), &chars("abc")));
    assert!(!starts_with(&chars("abd"), &chars("abc")));
    assert!(!starts_with(&chars(""), &chars("a")));
}

#[test]
fn the_tail_drops_the_first_characters() {
    assert_eq!(tail(&chars("abcdef"), 0), chars("abcdef"));
    assert_eq!(tail(&chars("abcdef"), 2), chars("cdef"));
    assert_eq!(tail(&chars("abcdef"), 6), chars(""));
    assert_eq!(tail(&chars("abcdef"), 7), chars(""));
}

#[test]
fn texts_compare_character_by_character() {
    assert!(is_text(&chars("dotted"), "dotted"));
    assert!(is_text(&chars(""), ""));
    assert!(!is_text(&chars("dotted"), "dashed"));
    assert!(!is_text(&chars("dot"), "dotted"));
    assert!(!is_text(&chars("dotted"), "dot"));
}
