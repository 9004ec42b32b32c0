//! The two components of unstyled and of bold text.

use vstd::prelude::*;
use vstd::string::*;
use crate::components::text::{reset_code, Style};

verus! {

/// A line of bold text.
#[derive(Debug)]
pub struct Heading {
    text: String,
}

impl View for Heading {
    type V = Seq<char>;

    closed spec fn view(&self) -> Seq<char> {
        self.text@
    }
}

impl Heading {
    /// What a heading of `text` draws: the text between the sequence that
    /// switches bold on and one reset.
    pub open spec fn rendered(text: Seq<char>) -> Seq<char> {
        Style::Bold.code() + text + reset_code()
    }

    /// The heading of `text`.
    pub fn new(text: &str) -> (heading: Self)
        ensures
            heading@ == text@,
    {
        Self { text: text.to_owned() }
    }

    /// The text in bold.
    pub fn render(&self) -> (s: String)
        ensures
            s@ == Self::rendered(self@),
    {
        let mut s = Style::Bold.ansi();
        s.append(self.text.as_str());
        s.append(Style::reset().as_str());
        s
    }
}

/// A run of unstyled text.
#[derive(Debug)]
pub struct Paragraph {
    text: String,
}

impl View for Paragraph {
    type V = Seq<char>;

    closed spec fn view(&self) -> Seq<char> {
        self.text@
    }
}

impl Paragraph {
    /// The paragraph of `text`.
    pub fn new(text: &str) -> (paragraph: Self)
        ensures
            paragraph@ == text@,
    {
        Self { text: text.to_owned() }
    }

    /// The text as it is.
    pub fn render(&self) -> (s: String)
        ensures
            s@ == self@,
    {
        self.text.clone()
    }
}

} // verus!
