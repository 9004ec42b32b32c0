//! The frame composer: an ordered list of components, rebuilt for every
//! frame and flattened into one string.

use vstd::prelude::*;
use vstd::string::*;
use crate::components::separator::SeparatorView;
use crate::components::text::SpanView;
use crate::components::widget::WidgetView;
use crate::components::{
    AsciiArt, BannerRenderError, Component, ComponentView, Heading, Paragraph, Separator, Text,
    TextSpan, Widget, WidgetStyle,
};

verus! {

/// The frame that `components` make: what each of them draws, in order,
/// each followed by a line feed; or the details of the first error.
pub open spec fn frame_of(components: Seq<ComponentView>) -> Result<Seq<char>, Seq<char>>
    decreases components.len(),
{
    if components.len() == 0 {
        Ok(Seq::empty())
    } else {
        match frame_of(components.drop_last()) {
            Ok(before) => match components.last().rendered() {
                Ok(drawn) => Ok(before + drawn + seq!['\n']),
                Err(details) => Err(details),
            },
            Err(details) => Err(details),
        }
    }
}

/// The widget that a frame gets for `contents` and `style`: ten cells
/// wide before the contents are set, seventeen rows high.
pub open spec fn frame_widget(contents: Option<Seq<char>>, style: WidgetStyle) -> WidgetView {
    let empty = WidgetView { style, width: 10, height: 17, contents: Seq::empty() };
    match contents {
        Some(text) => empty.with_contents(seq![SpanView::plain(text)]),
        None => empty,
    }
}

/// The components of one frame, in the order they appear.
#[derive(Debug)]
pub struct Ui {
    pub(crate) components: Vec<Component>,
}

impl View for Ui {
    type V = Seq<ComponentView>;

    closed spec fn view(&self) -> Seq<ComponentView> {
        self.components@.map_values(|c: Component| c@)
    }
}

impl Ui {
    /// A frame with no component.
    pub fn new() -> (ui: Self)
        ensures
            ui@ == Seq::<ComponentView>::empty(),
    {
        Self { components: Vec::new() }
    }

    /// Appends `component`.
    pub fn component(&mut self, component: Component) -> (ret: &mut Self)
        ensures
            ret@ == old(self)@.push(component@),
            *final(self) == *final(ret),
    {
        self.components.push(component);
        self
    }

    /// Appends a heading of `heading`.
    pub fn heading(&mut self, heading: &str) -> (ret: &mut Self)
        ensures
            ret@ == old(self)@.push(ComponentView::Heading(heading@)),
            *final(self) == *final(ret),
    {
        self.component(Component::Heading(Heading::new(heading)))
    }

    /// Appends a paragraph of `paragraph`.
    pub fn paragraph(&mut self, paragraph: &str) -> (ret: &mut Self)
        ensures
            ret@ == old(self)@.push(ComponentView::Paragraph(paragraph@)),
            *final(self) == *final(ret),
    {
        self.component(Component::Paragraph(Paragraph::new(paragraph)))
    }

    /// Appends the span.
    pub fn span(&mut self, span: TextSpan) -> (ret: &mut Self)
        ensures
            ret@ == old(self)@.push(ComponentView::Span(span@)),
            *final(self) == *final(ret),
    {
        self.component(Component::Span(span))
    }

    /// Appends the text.
    pub fn text(&mut self, text: Text) -> (ret: &mut Self)
        ensures
            ret@ == old(self)@.push(ComponentView::Text(text@)),
            *final(self) == *final(ret),
    {
        self.component(Component::Text(text))
    }

    /// Appends a separator that writes `separator` `repeat` times.
    pub fn separator(&mut self, separator: &str, repeat: usize) -> (ret: &mut Self)
        ensures
            ret@ == old(self)@.push(
                ComponentView::Separator(
                    SeparatorView {
                        text: seq![SpanView::plain(separator@)],
                        repeat: repeat as nat,
                    },
                ),
            ),
            *final(self) == *final(ret),
    {
        self.component(Component::Separator(Separator::new(Text::from(separator), repeat)))
    }

    /// Appends a widget seventeen rows high with the border `widget_style`,
    /// around `contents` where there are any.
    pub fn widget(&mut self, contents: Option<&str>, widget_style: WidgetStyle) -> (ret: &mut Self)
        ensures
            ret@ == old(self)@.push(
                ComponentView::Widget(
                    frame_widget(
                        match contents {
                            Some(text) => Some(text@),
                            None => None,
                        },
                        widget_style,
                    ),
                ),
            ),
            *final(self) == *final(ret),
    {
        let builder = Widget::new().with_style(widget_style).with_height(17);
        let widget = match contents {
            Some(text) => builder.with_contents(Text::from(text)).build(),
            None => builder.build(),
        };
        self.component(Component::Widget(widget))
    }

    /// Appends a banner of `text`.
    pub fn ascii_art(&mut self, text: &str) -> (ret: &mut Self)
        ensures
            ret@ == old(self)@.push(ComponentView::Banner(text@)),
            *final(self) == *final(ret),
    {
        self.component(Component::Banner(AsciiArt::new(text)))
    }

    /// Draws the frame: every component in the order it was appended, each
    /// followed by a line feed. The first banner that cannot be drawn ends
    /// the frame with its error.
    pub fn render(&self) -> (result: Result<String, BannerRenderError>)
        ensures
            AsciiArt::matches_outcome(result, frame_of(self@)),
    {
        let mut buffer = String::new();
        let mut i: usize = 0;
        while i < self.components.len()
            invariant
                i <= self.components.len(),
                frame_of(self@.take(i as int)) == Ok::<Seq<char>, Seq<char>>(buffer@),
            decreases self.components.len() - i,
        {
            proof {
                let seen = self@.take(i + 1);
                assert(seen.drop_last() =~= self@.take(i as int));
            }
            let ghost before = buffer@;
            match self.components[i].render() {
                Ok(drawn) => {
                    buffer.append(drawn.as_str());
                    buffer.push('\n');
                    assert(buffer@ =~= before + drawn@ + seq!['\n']);
                },
                Err(error) => {
                    proof {
                        lemma_frame_fails_on(self@, i as int);
                    }
                    return Err(error);
                },
            }
            i = i + 1;
        }
        assert(self@.take(i as int) =~= self@);
        Ok(buffer)
    }

    /// Empties the frame.
    pub fn clear(&mut self)
        ensures
            final(self)@ == Seq::<ComponentView>::empty(),
    {
        self.components.clear();
    }
}

/// A frame whose first `n` components draw and whose next one fails comes to
/// the error of that one, whatever follows it.
pub proof fn lemma_frame_fails_on(components: Seq<ComponentView>, n: int)
    requires
        0 <= n < components.len(),
        frame_of(components.take(n)) is Ok,
        components[n].rendered() is Err,
    ensures
        frame_of(components) == Err::<Seq<char>, Seq<char>>(components[n].rendered()->Err_0),
    decreases components.len(),
{
    if n < components.len() - 1 {
        let front = components.drop_last();
        assert(front.take(n) =~= components.take(n));
        lemma_frame_fails_on(front, n);
    }
}

} // verus!
