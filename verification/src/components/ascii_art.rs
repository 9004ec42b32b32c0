//! Banner art: a text in large letters, drawn by the figlet font.

use vstd::prelude::*;
use vstd::string::*;
use crate::bridge::{figlet_standard, standard_banner};

verus! {

/// Why a banner could not be drawn.
#[derive(Debug)]
pub struct BannerRenderError {
    pub details: String,
}

/// A text to draw as a banner.
#[derive(Debug)]
pub struct AsciiArt {
    text: String,
}

impl View for AsciiArt {
    type V = Seq<char>;

    closed spec fn view(&self) -> Seq<char> {
        self.text@
    }
}

impl AsciiArt {
    /// What comes of a banner of `text`, given what the font made of it:
    /// the art, or the details of the error. A font that does not load and
    /// a text of which the font draws nothing are both errors.
    pub open spec fn outcome(
        drawn: Result<Option<Seq<char>>, Seq<char>>,
        text: Seq<char>,
    ) -> Result<Seq<char>, Seq<char>> {
        match drawn {
            Ok(Some(art)) => Ok(art),
            Ok(None) => Err("the banner font draws nothing of: "@ + text),
            Err(message) => Err("the banner font is unusable: "@ + message),
        }
    }

    /// What a banner of `text` draws, or the details of the error.
    pub open spec fn rendered(text: Seq<char>) -> Result<Seq<char>, Seq<char>> {
        Self::outcome(standard_banner(text), text)
    }

    /// Whether `result` is the art or the error that `expected` says.
    pub open spec fn matches_outcome(
        result: Result<String, BannerRenderError>,
        expected: Result<Seq<char>, Seq<char>>,
    ) -> bool {
        match expected {
            Ok(art) => result matches Ok(s) && s@ == art,
            Err(details) => result matches Err(e) && e.details@ == details,
        }
    }

    /// The banner of `text`.
    pub fn new(text: &str) -> (art: Self)
        ensures
            art@ == text@,
    {
        Self { text: text.to_owned() }
    }

    /// Turns what the font made of `text` into the banner or the error.
    pub fn finish(drawn: Result<Option<String>, String>, text: &str) -> (result: Result<
        String,
        BannerRenderError,
    >)
        ensures
            drawn matches Ok(Some(art)) ==> result matches Ok(s) && s@ == art@,
            drawn matches Ok(None) ==> result matches Err(e) && e.details@
                == "the banner font draws nothing of: "@ + text@,
            drawn matches Err(message) ==> result matches Err(e) && e.details@
                == "the banner font is unusable: "@ + message@,
    {
        match drawn {
            Ok(Some(art)) => Ok(art),
            Ok(None) => {
                let mut details = "the banner font draws nothing of: ".to_owned();
                details.append(text);
                Err(BannerRenderError { details })
            },
            Err(message) => {
                let mut details = "the banner font is unusable: ".to_owned();
                details.append(message.as_str());
                Err(BannerRenderError { details })
            },
        }
    }

    /// Draws the text in the standard figlet font. Where the font cannot
    /// be used, or draws none of the characters, the error says so.
    pub fn render(&self) -> (result: Result<String, BannerRenderError>)
        ensures
            Self::matches_outcome(result, Self::rendered(self@)),
    {
        let drawn = figlet_standard(self.text.as_str());
        Self::finish(drawn, self.text.as_str())
    }
}

} // verus!
