//! The styled-text model: colors, attributes, spans and texts, and the
//! escape sequences they flatten into.

use vstd::prelude::*;
use vstd::string::*;
use crate::strings::{concat, decimal, push_decimal};

verus! {

/// The two characters that open every control sequence: ESC and `[`.
pub open spec fn csi() -> Seq<char> {
    seq!['\x1b', '[']
}

/// The sequence that selects the graphic rendition numbered `code`.
pub open spec fn sgr(code: nat) -> Seq<char> {
    csi() + decimal(code) + seq!['m']
}

/// The sequence that switches every attribute and color off.
pub open spec fn reset_code() -> Seq<char> {
    sgr(0)
}

/// The sequence that selects the 24-bit color `(r, g, b)` on the layer
/// numbered `layer` (38 for the foreground, 48 for the background).
pub open spec fn rgb_code(layer: nat, r: u8, g: u8, b: u8) -> Seq<char> {
    csi() + decimal(layer) + seq![';', '2', ';'] + decimal(r as nat) + seq![';'] + decimal(
        g as nat,
    ) + seq![';'] + decimal(b as nat) + seq!['m']
}

fn push_sgr(out: &mut String, code: u8)
    ensures
        final(out)@ == old(out)@ + sgr(code as nat),
{
    out.push('\x1b');
    out.push('[');
    push_decimal(out, code);
    out.push('m');
}

fn push_rgb(out: &mut String, layer: u8, r: u8, g: u8, b: u8)
    ensures
        final(out)@ == old(out)@ + rgb_code(layer as nat, r, g, b),
{
    out.push('\x1b');
    out.push('[');
    push_decimal(out, layer);
    out.push(';');
    out.push('2');
    out.push(';');
    push_decimal(out, r);
    out.push(';');
    push_decimal(out, g);
    out.push(';');
    push_decimal(out, b);
    out.push('m');
}

/// One of sixteen named colors, or any 24-bit color.
#[derive(Debug, Clone, Copy, PartialEq, Eq, Structural)]
pub enum Color {
    Black,
    Red,
    Green,
    Yellow,
    Blue,
    Magenta,
    Cyan,
    White,
    Gray,
    BrightRed,
    Lime,
    Banana,
    LightBlue,
    Pink,
    LightCyan,
    BrightWhite,
    RGB(u8, u8, u8),
}

impl Color {
    /// The number that selects this color as a foreground; the background
    /// number is ten more. For a 24-bit color it is the number of the layer.
    pub open spec fn number(self) -> nat {
        match self {
            Color::Black => 30,
            Color::Red => 31,
            Color::Green => 32,
            Color::Yellow => 33,
            Color::Blue => 34,
            Color::Magenta => 35,
            Color::Cyan => 36,
            Color::White => 37,
            Color::Gray => 90,
            Color::BrightRed => 91,
            Color::Lime => 92,
            Color::Banana => 93,
            Color::LightBlue => 94,
            Color::Pink => 95,
            Color::LightCyan => 96,
            Color::BrightWhite => 97,
            Color::RGB(_, _, _) => 38,
        }
    }

    /// The sequence that selects this color on the layer `offset` above
    /// the foreground (0 for the foreground, 10 for the background).
    pub open spec fn code(self, offset: nat) -> Seq<char> {
        match self {
            Color::RGB(r, g, b) => rgb_code(self.number() + offset, r, g, b),
            _ => sgr(self.number() + offset),
        }
    }

    /// The sequence that makes this color the foreground.
    pub open spec fn fg_code(self) -> Seq<char> {
        self.code(0)
    }

    /// The sequence that makes this color the background.
    pub open spec fn bg_code(self) -> Seq<char> {
        self.code(10)
    }

    fn exec_number(&self) -> (n: u8)
        ensures
            n == self.number(),
    {
        match self {
            Color::Black => 30,
            Color::Red => 31,
            Color::Green => 32,
            Color::Yellow => 33,
            Color::Blue => 34,
            Color::Magenta => 35,
            Color::Cyan => 36,
            Color::White => 37,
            Color::Gray => 90,
            Color::BrightRed => 91,
            Color::Lime => 92,
            Color::Banana => 93,
            Color::LightBlue => 94,
            Color::Pink => 95,
            Color::LightCyan => 96,
            Color::BrightWhite => 97,
            Color::RGB(_, _, _) => 38,
        }
    }

    fn push_code(&self, out: &mut String, offset: u8)
        requires
            offset <= 10,
        ensures
            final(out)@ == old(out)@ + self.code(offset as nat),
    {
        let n: u8 = self.exec_number() + offset;
        match self {
            Color::RGB(r, g, b) => push_rgb(out, n, *r, *g, *b),
            _ => push_sgr(out, n),
        }
    }

    /// The escape sequence that makes this color the foreground.
    pub fn ansi_fg(&self) -> (s: String)
        ensures
            s@ == self.fg_code(),
    {
        let mut s = String::new();
        self.push_code(&mut s, 0);
        s
    }

    /// The escape sequence that makes this color the background.
    pub fn ansi_bg(&self) -> (s: String)
        ensures
            s@ == self.bg_code(),
    {
        let mut s = String::new();
        self.push_code(&mut s, 10);
        s
    }
}

/// A text decoration.
#[derive(Debug, Clone, Copy, PartialEq, Eq, Structural)]
pub enum Style {
    Bold,
    Dim,
    Italic,
    Underlined,
    Blink,
    ReverseVideo,
    Concealed,
    Strikethrough,
}

impl Style {
    /// The number that switches this decoration on.
    pub open spec fn number(self) -> nat {
        match self {
            Style::Bold => 1,
            Style::Dim => 2,
            Style::Italic => 3,
            Style::Underlined => 4,
            Style::Blink => 5,
            Style::ReverseVideo => 7,
            Style::Concealed => 8,
            Style::Strikethrough => 9,
        }
    }

    /// The sequence that switches this decoration on.
    pub open spec fn code(self) -> Seq<char> {
        sgr(self.number())
    }

    fn exec_number(&self) -> (n: u8)
        ensures
            n == self.number(),
    {
        match self {
            Style::Bold => 1,
            Style::Dim => 2,
            Style::Italic => 3,
            Style::Underlined => 4,
            Style::Blink => 5,
            Style::ReverseVideo => 7,
            Style::Concealed => 8,
            Style::Strikethrough => 9,
        }
    }

    /// The escape sequence that switches every decoration and color off.
    pub fn reset() -> (s: String)
        ensures
            s@ == reset_code(),
    {
        let mut s = String::new();
        push_sgr(&mut s, 0);
        s
    }

    /// The escape sequence that switches this decoration on.
    pub fn ansi(&self) -> (s: String)
        ensures
            s@ == self.code(),
    {
        let mut s = String::new();
        push_sgr(&mut s, self.exec_number());
        s
    }
}

/// The sequences that switch `styles` on, in the order given.
pub open spec fn style_codes(styles: Seq<Style>) -> Seq<char>
    decreases styles.len(),
{
    if styles.len() == 0 {
        Seq::empty()
    } else {
        style_codes(styles.drop_last()) + styles.last().code()
    }
}

/// What a span is: its characters, its two optional colors, and its
/// decorations in the order they were applied.
pub struct SpanView {
    pub content: Seq<char>,
    pub color: Option<Color>,
    pub bg_color: Option<Color>,
    pub styles: Seq<Style>,
}

impl SpanView {
    /// The span of `content` with no color and no decoration.
    pub open spec fn plain(content: Seq<char>) -> SpanView {
        SpanView { content, color: None, bg_color: None, styles: Seq::empty() }
    }

    /// This span with `style` applied after the decorations it has.
    pub open spec fn with_style(self, style: Style) -> SpanView {
        SpanView { styles: self.styles.push(style), ..self }
    }

    /// This span with the foreground `color`.
    pub open spec fn with_color(self, color: Color) -> SpanView {
        SpanView { color: Some(color), ..self }
    }

    /// This span with the background `color`.
    pub open spec fn with_bg_color(self, color: Color) -> SpanView {
        SpanView { bg_color: Some(color), ..self }
    }

    /// This span with its characters replaced by `content`.
    pub open spec fn with_content(self, content: Seq<char>) -> SpanView {
        SpanView { content, ..self }
    }

    /// The sequence that selects the foreground, empty where none is set.
    pub open spec fn fg_part(self) -> Seq<char> {
        match self.color {
            Some(c) => c.fg_code(),
            None => Seq::empty(),
        }
    }

    /// The sequence that selects the background, empty where none is set.
    pub open spec fn bg_part(self) -> Seq<char> {
        match self.bg_color {
            Some(c) => c.bg_code(),
            None => Seq::empty(),
        }
    }

    /// What precedes the characters in the styled form: the decorations,
    /// then the foreground, then the background.
    pub open spec fn prefix(self) -> Seq<char> {
        style_codes(self.styles) + self.fg_part() + self.bg_part()
    }

    /// The styled form: the prefix, the characters, one reset.
    pub open spec fn styled(self) -> Seq<char> {
        self.prefix() + self.content + reset_code()
    }
}

/// A run of text with its own colors and decorations.
#[derive(Debug)]
pub struct TextSpan {
    content: String,
    color: Option<Color>,
    bg_color: Option<Color>,
    styles: Vec<Style>,
}

impl View for TextSpan {
    type V = SpanView;

    closed spec fn view(&self) -> SpanView {
        SpanView {
            content: self.content@,
            color: self.color,
            bg_color: self.bg_color,
            styles: self.styles@,
        }
    }
}

impl Clone for TextSpan {
    fn clone(&self) -> (copy: Self)
        ensures
            copy@ == self@,
    {
        let mut styles: Vec<Style> = Vec::new();
        let mut i: usize = 0;
        while i < self.styles.len()
            invariant
                i <= self.styles.len(),
                styles@ == self.styles@.take(i as int),
            decreases self.styles.len() - i,
        {
            styles.push(self.styles[i]);
            i = i + 1;
        }
        assert(self.styles@.take(i as int) =~= self.styles@);
        Self {
            content: self.content.clone(),
            color: self.color,
            bg_color: self.bg_color,
            styles,
        }
    }
}

impl TextSpan {
    /// A span of `content`, without color or decoration.
    pub fn new(content: &str) -> (span: Self)
        ensures
            span@ == SpanView::plain(content@),
    {
        Self { content: content.to_owned(), color: None, bg_color: None, styles: Vec::new() }
    }

    /// Replaces the characters and keeps the styling.
    pub fn contents(&mut self, contents: &str) -> (ret: &mut Self)
        ensures
            ret@ == old(self)@.with_content(contents@),
            *final(self) == *final(ret),
    {
        self.content = contents.to_owned();
        self
    }

    /// Sets the foreground color.
    pub fn color(&mut self, color: Color) -> (ret: &mut Self)
        ensures
            ret@ == old(self)@.with_color(color),
            *final(self) == *final(ret),
    {
        self.color = Some(color);
        self
    }

    /// Sets the background color.
    pub fn bg_color(&mut self, color: Color) -> (ret: &mut Self)
        ensures
            ret@ == old(self)@.with_bg_color(color),
            *final(self) == *final(ret),
    {
        self.bg_color = Some(color);
        self
    }

    /// Makes the span bold.
    pub fn bold(&mut self) -> (ret: &mut Self)
        ensures
            ret@ == old(self)@.with_style(Style::Bold),
            *final(self) == *final(ret),
    {
        self.styles.push(Style::Bold);
        self
    }

    /// Makes the span dim.
    pub fn dim(&mut self) -> (ret: &mut Self)
        ensures
            ret@ == old(self)@.with_style(Style::Dim),
            *final(self) == *final(ret),
    {
        self.styles.push(Style::Dim);
        self
    }

    /// Makes the span italic.
    pub fn italic(&mut self) -> (ret: &mut Self)
        ensures
            ret@ == old(self)@.with_style(Style::Italic),
            *final(self) == *final(ret),
    {
        self.styles.push(Style::Italic);
        self
    }

    /// Makes the span underlined.
    pub fn underlined(&mut self) -> (ret: &mut Self)
        ensures
            ret@ == old(self)@.with_style(Style::Underlined),
            *final(self) == *final(ret),
    {
        self.styles.push(Style::Underlined);
        self
    }

    /// Makes the span blinking.
    pub fn blink(&mut self) -> (ret: &mut Self)
        ensures
            ret@ == old(self)@.with_style(Style::Blink),
            *final(self) == *final(ret),
    {
        self.styles.push(Style::Blink);
        self
    }

    /// Makes the span shown in reverse video.
    pub fn reverse_video(&mut self) -> (ret: &mut Self)
        ensures
            ret@ == old(self)@.with_style(Style::ReverseVideo),
            *final(self) == *final(ret),
    {
        self.styles.push(Style::ReverseVideo);
        self
    }

    /// Makes the span concealed.
    pub fn concealed(&mut self) -> (ret: &mut Self)
        ensures
            ret@ == old(self)@.with_style(Style::Concealed),
            *final(self) == *final(ret),
    {
        self.styles.push(Style::Concealed);
        self
    }

    /// Makes the span struck through.
    pub fn strikethrough(&mut self) -> (ret: &mut Self)
        ensures
            ret@ == old(self)@.with_style(Style::Strikethrough),
            *final(self) == *final(ret),
    {
        self.styles.push(Style::Strikethrough);
        self
    }

    /// The characters alone.
    pub fn render_plain(&self) -> (s: String)
        ensures
            s@ == self@.content,
    {
        self.content.clone()
    }

    fn push_style_codes(&self, out: &mut String)
        ensures
            final(out)@ == old(out)@ + style_codes(self.styles@),
    {
        let mut i: usize = 0;
        while i < self.styles.len()
            invariant
                i <= self.styles.len(),
                out@ == old(out)@ + style_codes(self.styles@.take(i as int)),
            decreases self.styles.len() - i,
        {
            push_sgr(out, self.styles[i].exec_number());
            proof {
                let next = self.styles@.take(i + 1);
                assert(next.drop_last() =~= self.styles@.take(i as int));
            }
            i = i + 1;
        }
        assert(self.styles@.take(i as int) =~= self.styles@);
    }

    /// Appends the styled form of the span to `out`.
    pub fn render_into(&self, out: &mut String)
        ensures
            final(out)@ == old(out)@ + self@.styled(),
    {
        self.push_style_codes(out);
        if let Some(color) = self.color {
            color.push_code(out, 0);
        }
        if let Some(bg) = self.bg_color {
            bg.push_code(out, 10);
        }
        out.append(self.content.as_str());
        push_sgr(out, 0);
    }

    /// The styled form: decorations, colors, characters and one reset.
    pub fn render(&self) -> (s: String)
        ensures
            s@ == self@.styled(),
    {
        let mut s = String::new();
        self.render_into(&mut s);
        s
    }
}

/// The views of `spans`, in order.
pub open spec fn span_views(spans: Seq<TextSpan>) -> Seq<SpanView> {
    spans.map_values(|s: TextSpan| s@)
}

/// The characters of every span, in order, with no styling.
pub open spec fn plain_text(spans: Seq<SpanView>) -> Seq<char> {
    concat(spans.map_values(|s: SpanView| s.content))
}

/// The styled form of every span, in order.
pub open spec fn styled_text(spans: Seq<SpanView>) -> Seq<char> {
    concat(spans.map_values(|s: SpanView| s.styled()))
}

/// An ordered sequence of spans forming one styled string.
#[derive(Debug)]
pub struct Text {
    pub(crate) spans: Vec<TextSpan>,
}

impl View for Text {
    type V = Seq<SpanView>;

    closed spec fn view(&self) -> Seq<SpanView> {
        span_views(self.spans@)
    }
}

impl Clone for Text {
    fn clone(&self) -> (copy: Self)
        ensures
            copy@ == self@,
    {
        let mut spans: Vec<TextSpan> = Vec::new();
        let mut i: usize = 0;
        while i < self.spans.len()
            invariant
                i <= self.spans.len(),
                span_views(spans@) == span_views(self.spans@).take(i as int),
            decreases self.spans.len() - i,
        {
            let ghost before = span_views(spans@);
            let span = self.spans[i].clone();
            spans.push(span);
            assert(span_views(spans@) =~= before.push(span@));
            i = i + 1;
        }
        Self { spans }
    }
}

impl Text {
    /// The text with no span.
    pub fn new() -> (text: Self)
        ensures
            text@ == Seq::<SpanView>::empty(),
    {
        Self { spans: Vec::new() }
    }

    /// Appends a plain span of `content` and hands it out for styling.
    pub fn span(&mut self, content: &str) -> (ret: &mut TextSpan)
        ensures
            ret@ == SpanView::plain(content@),
            final(self)@ == old(self)@.push(final(ret)@),
    {
        self.spans.push(TextSpan::new(content));
        let last = self.spans.len() - 1;
        &mut self.spans[last]
    }

    /// Appends `span` as it is.
    pub fn span_from(&mut self, span: TextSpan)
        ensures
            final(self)@ == old(self)@.push(span@),
    {
        self.spans.push(span);
    }

    fn style_all(&mut self, style: Style)
        ensures
            final(self)@ == old(self)@.map_values(|s: SpanView| s.with_style(style)),
    {
        let mut i: usize = 0;
        while i < self.spans.len()
            invariant
                i <= self.spans.len(),
                self.spans.len() == old(self).spans.len(),
                forall|j: int|
                    0 <= j < i ==> (#[trigger] self.spans[j])@ == old(self).spans[j]@.with_style(
                        style,
                    ),
                forall|j: int| i <= j < self.spans.len() ==> self.spans[j] == old(self).spans[j],
            decreases self.spans.len() - i,
        {
            self.spans[i].styles.push(style);
            i = i + 1;
        }
    }

    /// Makes every span bold. A second call applies the decoration a
    /// second time.
    pub fn bold_all(&mut self)
        ensures
            final(self)@ == old(self)@.map_values(|s: SpanView| s.with_style(Style::Bold)),
    {
        self.style_all(Style::Bold);
    }

    /// Makes every span dim. A second call applies the decoration a
    /// second time.
    pub fn dim_all(&mut self)
        ensures
            final(self)@ == old(self)@.map_values(|s: SpanView| s.with_style(Style::Dim)),
    {
        self.style_all(Style::Dim);
    }

    /// Makes every span italic. A second call applies the decoration a
    /// second time.
    pub fn italic_all(&mut self)
        ensures
            final(self)@ == old(self)@.map_values(|s: SpanView| s.with_style(Style::Italic)),
    {
        self.style_all(Style::Italic);
    }

    /// Makes every span underlined. A second call applies the decoration a
    /// second time.
    pub fn underline_all(&mut self)
        ensures
            final(self)@ == old(self)@.map_values(|s: SpanView| s.with_style(Style::Underlined)),
    {
        self.style_all(Style::Underlined);
    }

    /// Makes every span blinking. A second call applies the decoration a
    /// second time.
    pub fn blink_all(&mut self)
        ensures
            final(self)@ == old(self)@.map_values(|s: SpanView| s.with_style(Style::Blink)),
    {
        self.style_all(Style::Blink);
    }

    /// Makes every span shown in reverse video. A second call applies the decoration a
    /// second time.
    pub fn reverse_video_all(&mut self)
        ensures
            final(self)@ == old(self)@.map_values(|s: SpanView| s.with_style(Style::ReverseVideo)),
    {
        self.style_all(Style::ReverseVideo);
    }

    /// Makes every span concealed. A second call applies the decoration a
    /// second time.
    pub fn conceal_all(&mut self)
        ensures
            final(self)@ == old(self)@.map_values(|s: SpanView| s.with_style(Style::Concealed)),
    {
        self.style_all(Style::Concealed);
    }

    /// Makes every span struck through. A second call applies the decoration a
    /// second time.
    pub fn strikethrough_all(&mut self)
        ensures
            final(self)@ == old(self)@.map_values(|s: SpanView| s.with_style(Style::Strikethrough)),
    {
        self.style_all(Style::Strikethrough);
    }

    /// The characters of every span, in order, with no styling.
    pub fn render_plain(&self) -> (s: String)
        ensures
            s@ == plain_text(self@),
    {
        let mut s = String::new();
        let mut i: usize = 0;
        while i < self.spans.len()
            invariant
                i <= self.spans.len(),
                s@ == plain_text(self@.take(i as int)),
            decreases self.spans.len() - i,
        {
            s.append(self.spans[i].content.as_str());
            proof {
                let seen = self@.take(i + 1).map_values(|s: SpanView| s.content);
                assert(seen.drop_last() =~= self@.take(i as int).map_values(
                    |s: SpanView| s.content,
                ));
            }
            i = i + 1;
        }
        assert(self@.take(i as int) =~= self@);
        s
    }

    /// The styled form of every span, in order.
    pub fn render(&self) -> (s: String)
        ensures
            s@ == styled_text(self@),
    {
        let mut s = String::new();
        let mut i: usize = 0;
        while i < self.spans.len()
            invariant
                i <= self.spans.len(),
                s@ == styled_text(self@.take(i as int)),
            decreases self.spans.len() - i,
        {
            self.spans[i].render_into(&mut s);
            proof {
                let seen = self@.take(i + 1).map_values(|s: SpanView| s.styled());
                assert(seen.drop_last() =~= self@.take(i as int).map_values(
                    |s: SpanView| s.styled(),
                ));
            }
            i = i + 1;
        }
        assert(self@.take(i as int) =~= self@);
        s
    }
}

impl From<&str> for Text {
    /// The text of one plain span of `s`.
    fn from(s: &str) -> (text: Text)
        ensures
            text@ == seq![SpanView::plain(s@)],
    {
        let mut text = Text::new();
        text.span(s);
        text
    }
}

/// A text holds a vector, which ghost code cannot build: what each of the
/// three conversions gives is said by the contract of its `from` alone.
impl vstd::std_specs::convert::FromSpecImpl<&str> for Text {
    open spec fn obeys_from_spec() -> bool {
        false
    }

    open spec fn from_spec(s: &str) -> Text {
        arbitrary()
    }
}

impl From<String> for Text {
    /// The text of one plain span of `s`.
    fn from(s: String) -> (text: Text)
        ensures
            text@ == seq![SpanView::plain(s@)],
    {
        let mut text = Text::new();
        text.span(s.as_str());
        text
    }
}

impl vstd::std_specs::convert::FromSpecImpl<String> for Text {
    open spec fn obeys_from_spec() -> bool {
        false
    }

    open spec fn from_spec(s: String) -> Text {
        arbitrary()
    }
}

impl From<TextSpan> for Text {
    /// The text of the one span `span`.
    fn from(span: TextSpan) -> (text: Text)
        ensures
            text@ == seq![span@],
    {
        let mut text = Text::new();
        text.span_from(span);
        text
    }
}

impl vstd::std_specs::convert::FromSpecImpl<TextSpan> for Text {
    open spec fn obeys_from_spec() -> bool {
        false
    }

    open spec fn from_spec(span: TextSpan) -> Text {
        arbitrary()
    }
}

/// The styled form of a span ends in the reset, whatever the span holds,
/// and is the span's characters where it has neither color nor decoration.
pub proof fn lemma_span_ends_with_reset(span: SpanView)
    ensures
        reset_code().is_suffix_of(span.styled()),
        span.styled().subrange(
            span.prefix().len() as int,
            (span.prefix().len() + span.content.len()) as int,
        ) == span.content,
        span.color is None && span.bg_color is None && span.styles.len() == 0
            ==> span.styled() == span.content + reset_code(),
{
}

} // verus!
