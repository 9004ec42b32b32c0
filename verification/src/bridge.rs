//! The calls this library makes into code it does not verify. Every
//! contract in this file is believed by the verifier, not proved.

use vstd::prelude::*;

verus! {

/// `String::push` appends the one character to the end of the string.
pub assume_specification[ String::push ](s: &mut String, c: char)
    ensures
        final(s)@ == old(s)@.push(c),
;

/// What is left of `text` once the terminal escape sequences in it are
/// taken out: the result of `strip_ansi_escapes::strip_str`.
pub uninterp spec fn visible_text(text: Seq<char>) -> Seq<char>;

/// `strip_ansi_escapes::strip_str` runs its argument through a terminal
/// parser and returns the characters that would be printed. It reads nothing
/// but its argument, and returns for every string.
#[verifier::external_body]
pub(crate) fn strip_escapes(text: &str) -> (out: String)
    ensures
        out@ == visible_text(text@),
{
    strip_ansi_escapes::strip_str(text)
}

/// The lowercase form that `str::to_lowercase` gives `text`.
pub uninterp spec fn unicode_lowercase(text: Seq<char>) -> Seq<char>;

/// `str::to_lowercase` returns the lowercase equivalent of its argument as
/// a new string, by the Unicode case mappings, which are fixed tables.
#[verifier::external_body]
pub(crate) fn str_to_lowercase(text: &str) -> (out: String)
    ensures
        out@ == unicode_lowercase(text@),
{
    text.to_lowercase()
}

/// `text` in title case, as `convert_case` writes it: the result of
/// `Casing::to_case` with `Case::Title`.
pub uninterp spec fn title_case(text: Seq<char>) -> Seq<char>;

/// `convert_case::Casing::to_case` splits its argument into words at the
/// boundaries the crate defines, and with `Case::Title` joins them by
/// spaces, each with a capital first letter. It reads nothing but its
/// argument.
#[verifier::external_body]
pub(crate) fn to_title_case(text: &str) -> (out: String)
    ensures
        out@ == title_case(text@),
{
    convert_case::Casing::to_case(&text, convert_case::Case::Title)
}

/// What `figlet_rs` makes of `text` with its standard font: the message of
/// the error where the font does not load, nothing where the font draws
/// none of the characters, else the banner.
pub uninterp spec fn standard_banner(text: Seq<char>) -> Result<Option<Seq<char>>, Seq<char>>;

/// `figlet_rs::FIGfont::standard` parses the font that is compiled into the
/// crate, `FIGfont::convert` picks the glyphs of the characters that the font
/// has, and returns nothing where the message is empty or has none, and the
/// figure's `Display` writes the glyphs row by row. None of them reads
/// anything but the font and the message.
#[verifier::external_body]
pub(crate) fn figlet_standard(text: &str) -> (out: Result<Option<String>, String>)
    ensures
        match standard_banner(text@) {
            Ok(Some(art)) => out matches Ok(Some(s)) && s@ == art,
            Ok(None) => out matches Ok(None),
            Err(message) => out matches Err(e) && e@ == message,
        },
{
    match figlet_rs::FIGfont::standard() {
        Ok(font) => match font.convert(text) {
            Some(figure) => Ok(Some(figure.to_string())),
            None => Ok(None),
        },
        Err(message) => Err(message),
    }
}

} // verus!
