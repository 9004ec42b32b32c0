//! A horizontal separator: one styled text written several times over.

use vstd::prelude::*;
use vstd::string::*;
use crate::components::text::{styled_text, SpanView, Text};
use crate::strings::{push_repeated, repeated};

verus! {

/// A text and how many times it is written.
#[derive(Debug)]
pub struct Separator {
    text: Text,
    repeat: usize,
}

/// What a separator is: the spans of its text and the number of times.
pub struct SeparatorView {
    pub text: Seq<SpanView>,
    pub repeat: nat,
}

impl SeparatorView {
    /// What the separator draws: the styled text, `repeat` times over.
    pub open spec fn rendered(self) -> Seq<char> {
        repeated(styled_text(self.text), self.repeat)
    }
}

impl View for Separator {
    type V = SeparatorView;

    closed spec fn view(&self) -> SeparatorView {
        SeparatorView { text: self.text@, repeat: self.repeat as nat }
    }
}

impl Separator {
    /// The separator that writes `text` `repeat` times.
    pub fn new(text: Text, repeat: usize) -> (separator: Self)
        ensures
            separator@.text == text@,
            separator@.repeat == repeat,
    {
        Self { text, repeat }
    }

    /// The styled text, `repeat` times over.
    pub fn render(&self) -> (s: String)
        ensures
            s@ == self@.rendered(),
    {
        let unit = self.text.render();
        let mut s = String::new();
        push_repeated(&mut s, unit.as_str(), self.repeat);
        s
    }
}

} // verus!
