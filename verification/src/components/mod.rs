//! The renderable components, and the closed set of them that a frame is
//! made of.

pub mod ascii_art;
pub mod basic;
pub mod separator;
pub mod text;
pub mod widget;

pub use ascii_art::{AsciiArt, BannerRenderError};
pub use basic::{Heading, Paragraph};
pub use separator::Separator;
pub use text::{Color, Style, Text, TextSpan};
pub use widget::{Widget, WidgetBuilder, WidgetStyle};

use vstd::prelude::*;
use vstd::string::*;
use separator::SeparatorView;
use text::SpanView;
use widget::WidgetView;

verus! {

/// Something a frame can show.
#[derive(Debug)]
pub enum Component {
    Span(TextSpan),
    Text(Text),
    Separator(Separator),
    Widget(Widget),
    Banner(AsciiArt),
    Heading(Heading),
    Paragraph(Paragraph),
}

/// What a component is.
pub enum ComponentView {
    Span(SpanView),
    Text(Seq<SpanView>),
    Separator(SeparatorView),
    Widget(WidgetView),
    Banner(Seq<char>),
    Heading(Seq<char>),
    Paragraph(Seq<char>),
}

impl ComponentView {
    /// What the component draws, or the details of the error. Only a
    /// banner can fail.
    pub open spec fn rendered(self) -> Result<Seq<char>, Seq<char>> {
        match self {
            ComponentView::Span(span) => Ok(span.styled()),
            ComponentView::Text(spans) => Ok(text::styled_text(spans)),
            ComponentView::Separator(separator) => Ok(separator.rendered()),
            ComponentView::Widget(widget) => Ok(widget.rendered()),
            ComponentView::Banner(text) => AsciiArt::rendered(text),
            ComponentView::Heading(text) => Ok(Heading::rendered(text)),
            ComponentView::Paragraph(text) => Ok(text),
        }
    }
}

impl View for Component {
    type V = ComponentView;

    open spec fn view(&self) -> ComponentView {
        match self {
            Component::Span(span) => ComponentView::Span(span@),
            Component::Text(text) => ComponentView::Text(text@),
            Component::Separator(separator) => ComponentView::Separator(separator@),
            Component::Widget(widget) => ComponentView::Widget(widget@),
            Component::Banner(art) => ComponentView::Banner(art@),
            Component::Heading(heading) => ComponentView::Heading(heading@),
            Component::Paragraph(paragraph) => ComponentView::Paragraph(paragraph@),
        }
    }
}

impl Component {
    /// Draws the component, whichever it is.
    pub fn render(&self) -> (result: Result<String, BannerRenderError>)
        ensures
            AsciiArt::matches_outcome(result, self@.rendered()),
    {
        match self {
            Component::Span(span) => Ok(span.render()),
            Component::Text(text) => Ok(text.render()),
            Component::Separator(separator) => Ok(separator.render()),
            Component::Widget(widget) => Ok(widget.render()),
            Component::Banner(art) => art.render(),
            Component::Heading(heading) => Ok(heading.render()),
            Component::Paragraph(paragraph) => Ok(paragraph.render()),
        }
    }
}

} // verus!
