//! Bordered boxes: the glyph sets, the layout of a box around lines of
//! text, and the widget with its builder.

use vstd::prelude::*;
use vstd::string::*;
use vstd::utf8::is_ascii_chars;
use crate::bridge::{strip_escapes, visible_text};
use crate::strings::{
    ascii_lower, chars_of, is_text, lemma_first_line_len, lines_of, lowercase, split_lines,
    starts_with, string_of, tail, to_lowercase,
    views,
};
use crate::components::text::{plain_text, styled_text, SpanView, Text};

verus! {

/// The eight glyphs of a border: four corners, the two horizontal edges
/// and the two vertical edges.
#[derive(Debug, Clone, Copy, PartialEq, Eq, Structural)]
pub struct WidgetStyle {
    pub top_left: char,
    pub top_right: char,
    pub bottom_left: char,
    pub bottom_right: char,
    pub top_horizontal: char,
    pub left_vertical: char,
    pub bottom_horizontal: char,
    pub right_vertical: char,
}

impl WidgetStyle {
    /// The border made of the eight glyphs, in the order of the fields.
    pub open spec fn of(
        top_left: char,
        top_right: char,
        bottom_left: char,
        bottom_right: char,
        top_horizontal: char,
        left_vertical: char,
        bottom_horizontal: char,
        right_vertical: char,
    ) -> WidgetStyle {
        WidgetStyle {
            top_left,
            top_right,
            bottom_left,
            bottom_right,
            top_horizontal,
            left_vertical,
            bottom_horizontal,
            right_vertical,
        }
    }

    /// The light box-drawing border.
    pub open spec fn classic_glyphs() -> WidgetStyle {
        Self::of('┌', '┐', '└', '┘', '─', '│', '─', '│')
    }

    /// The heavy box-drawing border.
    pub open spec fn heavy_box_glyphs() -> WidgetStyle {
        Self::of('┏', '┓', '┗', '┛', '━', '┃', '━', '┃')
    }

    /// The light border with rounded corners.
    pub open spec fn rounded_glyphs() -> WidgetStyle {
        Self::of('╭', '╮', '╰', '╯', '─', '│', '─', '│')
    }

    /// The double-line border.
    pub open spec fn double_glyphs() -> WidgetStyle {
        Self::of('╔', '╗', '╚', '╝', '═', '║', '═', '║')
    }

    /// The border of `+`, `-` and `|`.
    pub open spec fn ascii_glyphs() -> WidgetStyle {
        Self::of('+', '+', '+', '+', '-', '|', '-', '|')
    }

    /// A border of half and full blocks.
    pub open spec fn retro_ibm_glyphs() -> WidgetStyle {
        Self::of('▄', '▄', '█', '█', '▄', '█', '▄', '█')
    }

    /// A border of full blocks.
    pub open spec fn retro_apple2_glyphs() -> WidgetStyle {
        Self::of('█', '█', '█', '█', '█', '█', '█', '█')
    }

    /// A border of quadrant and half blocks.
    pub open spec fn retro_c64_glyphs() -> WidgetStyle {
        Self::of('▛', '▜', '▙', '▟', '▀', '▌', '▄', '▐')
    }

    /// A border of spaces.
    pub open spec fn no_border_glyphs() -> WidgetStyle {
        Self::of(' ', ' ', ' ', ' ', ' ', ' ', ' ', ' ')
    }

    /// The light corners with dotted edges.
    pub open spec fn dotted_glyphs() -> WidgetStyle {
        Self::of('┌', '┐', '└', '┘', '┄', '┊', '┄', '┊')
    }

    /// The light corners with dashed edges.
    pub open spec fn dashed_glyphs() -> WidgetStyle {
        Self::of('┌', '┐', '└', '┘', '╌', '╎', '╌', '╎')
    }

    /// A border of glyphs of the caller's choice.
    pub fn custom(
        top_left: char,
        top_right: char,
        bottom_left: char,
        bottom_right: char,
        top_horizontal: char,
        left_vertical: char,
        bottom_horizontal: char,
        right_vertical: char,
    ) -> (style: Self)
        ensures
            style == Self::of(
                top_left,
                top_right,
                bottom_left,
                bottom_right,
                top_horizontal,
                left_vertical,
                bottom_horizontal,
                right_vertical,
            ),
    {
        Self {
            top_left,
            top_right,
            bottom_left,
            bottom_right,
            top_horizontal,
            left_vertical,
            bottom_horizontal,
            right_vertical,
        }
    }

    /// The light box-drawing border.
    pub fn tuitui_classic() -> (style: Self)
        ensures
            style == Self::classic_glyphs(),
    {
        Self::custom('┌', '┐', '└', '┘', '─', '│', '─', '│')
    }

    /// The heavy box-drawing border.
    pub fn tuitui_heavy_box() -> (style: Self)
        ensures
            style == Self::heavy_box_glyphs(),
    {
        Self::custom('┏', '┓', '┗', '┛', '━', '┃', '━', '┃')
    }

    /// The light border with rounded corners.
    pub fn tuitui_rounded() -> (style: Self)
        ensures
            style == Self::rounded_glyphs(),
    {
        Self::custom('╭', '╮', '╰', '╯', '─', '│', '─', '│')
    }

    /// The double-line border.
    pub fn tuitui_double() -> (style: Self)
        ensures
            style == Self::double_glyphs(),
    {
        Self::custom('╔', '╗', '╚', '╝', '═', '║', '═', '║')
    }

    /// The border of `+`, `-` and `|`.
    pub fn tuitui_ascii() -> (style: Self)
        ensures
            style == Self::ascii_glyphs(),
    {
        Self::custom('+', '+', '+', '+', '-', '|', '-', '|')
    }

    /// A border of half and full blocks.
    pub fn retro_ibm() -> (style: Self)
        ensures
            style == Self::retro_ibm_glyphs(),
    {
        Self::custom('▄', '▄', '█', '█', '▄', '█', '▄', '█')
    }

    /// A border of full blocks.
    pub fn retro_apple2() -> (style: Self)
        ensures
            style == Self::retro_apple2_glyphs(),
    {
        Self::custom('█', '█', '█', '█', '█', '█', '█', '█')
    }

    /// A border of quadrant and half blocks.
    pub fn retro_c64() -> (style: Self)
        ensures
            style == Self::retro_c64_glyphs(),
    {
        Self::custom('▛', '▜', '▙', '▟', '▀', '▌', '▄', '▐')
    }

    /// A border of spaces.
    pub fn no_border() -> (style: Self)
        ensures
            style == Self::no_border_glyphs(),
    {
        Self::custom(' ', ' ', ' ', ' ', ' ', ' ', ' ', ' ')
    }

    /// The light corners with dotted edges.
    pub fn dotted() -> (style: Self)
        ensures
            style == Self::dotted_glyphs(),
    {
        Self::custom('┌', '┐', '└', '┘', '┄', '┊', '┄', '┊')
    }

    /// The light corners with dashed edges.
    pub fn dashed() -> (style: Self)
        ensures
            style == Self::dashed_glyphs(),
    {
        Self::custom('┌', '┐', '└', '┘', '╌', '╎', '╌', '╎')
    }

    /// The words a palette name may begin with, in lowercase.
    pub open spec fn product_prefix() -> Seq<char> {
        "tuitui "@
    }

    /// What a palette is looked up by: `name` in lowercase, without the
    /// product prefix where it begins with it.
    pub open spec fn palette_key(name: Seq<char>) -> Seq<char> {
        let lowered = lowercase(name);
        if Self::product_prefix().is_prefix_of(lowered) {
            lowered.skip(Self::product_prefix().len() as int)
        } else {
            lowered
        }
    }

    /// The palette that the key names, where it names one.
    pub open spec fn palette(key: Seq<char>) -> Option<WidgetStyle> {
        if key == "classic"@ || key == "default"@ {
            Some(Self::classic_glyphs())
        } else if key == "heavy box"@ || key == "thick box"@ || key == "bold box"@ {
            Some(Self::heavy_box_glyphs())
        } else if key == "rounded"@ || key == "smooth"@ {
            Some(Self::rounded_glyphs())
        } else if key == "double"@ {
            Some(Self::double_glyphs())
        } else if key == "ascii"@ || key == "basic"@ {
            Some(Self::ascii_glyphs())
        } else if key == "retro"@ || key == "retro ibm"@ || key == "ibm"@ {
            Some(Self::retro_ibm_glyphs())
        } else if key == "retro apple2"@ || key == "retro apple 2"@ || key == "apple"@
            || key == "retro apple"@ || key == "apple2"@ || key == "apple 2"@ {
            Some(Self::retro_apple2_glyphs())
        } else if key == "retro c64"@ || key == "commodore"@ || key == "c64"@ {
            Some(Self::retro_c64_glyphs())
        } else if key == "none"@ || key == "no border"@ || key == "no-border"@ {
            Some(Self::no_border_glyphs())
        } else if key == "dotted"@ || key == "dot"@ {
            Some(Self::dotted_glyphs())
        } else if key == "dashed"@ || key == "dash"@ {
            Some(Self::dashed_glyphs())
        } else {
            None
        }
    }

    /// The palette of `name`: the one its key names, and the classic one
    /// where the key names none.
    pub open spec fn named(name: Seq<char>) -> WidgetStyle {
        match Self::palette(Self::palette_key(name)) {
            Some(style) => style,
            None => Self::classic_glyphs(),
        }
    }

    /// The palette that `name` names. Case is not regarded, and the name
    /// may begin with the product's name and a space. A name that is not
    /// known gives the classic palette.
    pub fn from_name(name: &str) -> (style: Self)
        ensures
            style == Self::named(name@),
    {
        let lowered = to_lowercase(name);
        let prefix = chars_of("tuitui ");
        let key = if starts_with(&lowered, &prefix) {
            tail(&lowered, prefix.len())
        } else {
            lowered
        };
        if is_text(&key, "classic") || is_text(&key, "default") {
            Self::tuitui_classic()
        } else if is_text(&key, "heavy box") || is_text(&key, "thick box")
            || is_text(&key, "bold box") {
            Self::tuitui_heavy_box()
        } else if is_text(&key, "rounded") || is_text(&key, "smooth") {
            Self::tuitui_rounded()
        } else if is_text(&key, "double") {
            Self::tuitui_double()
        } else if is_text(&key, "ascii") || is_text(&key, "basic") {
            Self::tuitui_ascii()
        } else if is_text(&key, "retro") || is_text(&key, "retro ibm") || is_text(&key, "ibm") {
            Self::retro_ibm()
        } else if is_text(&key, "retro apple2") || is_text(&key, "retro apple 2")
            || is_text(&key, "apple") || is_text(&key, "retro apple") || is_text(&key, "apple2")
            || is_text(&key, "apple 2") {
            Self::retro_apple2()
        } else if is_text(&key, "retro c64") || is_text(&key, "commodore") || is_text(&key, "c64") {
            Self::retro_c64()
        } else if is_text(&key, "none") || is_text(&key, "no border")
            || is_text(&key, "no-border") {
            Self::no_border()
        } else if is_text(&key, "dotted") || is_text(&key, "dot") {
            Self::dotted()
        } else if is_text(&key, "dashed") || is_text(&key, "dash") {
            Self::dashed()
        } else {
            Self::tuitui_classic()
        }
    }
}

/// The length of the longest of `lines`; 0 where there is none.
pub open spec fn longest(lines: Seq<Seq<char>>) -> nat
    decreases lines.len(),
{
    if lines.len() == 0 {
        0
    } else {
        let rest = longest(lines.drop_last());
        if lines.last().len() > rest {
            lines.last().len()
        } else {
            rest
        }
    }
}

/// The lines a box is measured by: `lines`, or one line of a single space
/// where there is none.
pub open spec fn measured(lines: Seq<Seq<char>>) -> Seq<Seq<char>> {
    if lines.len() == 0 {
        seq![seq![' ']]
    } else {
        lines
    }
}

/// How many cells a box draws between its vertical edges: the target
/// `width`, or the longest line where that is shorter.
pub open spec fn draw_width(width: nat, lines: Seq<Seq<char>>) -> nat {
    let widest = longest(measured(lines));
    if width <= widest {
        width
    } else {
        widest
    }
}

/// How many rows a box of target `height` has: never fewer than two.
pub open spec fn row_count(height: nat) -> nat {
    if height < 2 {
        2
    } else {
        height
    }
}

/// The character at column `col` of line `row`, and a space where the
/// lines hold none there.
pub open spec fn cell(lines: Seq<Seq<char>>, row: int, col: int) -> char {
    if 0 <= row < lines.len() && 0 <= col < lines[row].len() {
        lines[row][col]
    } else {
        ' '
    }
}

/// A border row: a corner, `w` edge glyphs, a corner.
pub open spec fn border_row(left: char, fill: char, right: char, w: nat) -> Seq<char> {
    seq![left] + Seq::new(w, |i: int| fill) + seq![right]
}

/// An interior row: the left edge, the first `w` cells of line `row`, the
/// right edge.
pub open spec fn content_row(
    left: char,
    right: char,
    lines: Seq<Seq<char>>,
    row: int,
    w: nat,
) -> Seq<char> {
    seq![left] + Seq::new(w, |col: int| cell(lines, row, col)) + seq![right]
}

/// Row `r` of the box of `rows` rows, `w` cells wide, around `lines`.
pub open spec fn box_row(
    style: WidgetStyle,
    lines: Seq<Seq<char>>,
    w: nat,
    rows: nat,
    r: int,
) -> Seq<char> {
    if r == 0 {
        border_row(style.top_left, style.top_horizontal, style.top_right, w)
    } else if r == rows - 1 {
        border_row(style.bottom_left, style.bottom_horizontal, style.bottom_right, w)
    } else {
        content_row(style.left_vertical, style.right_vertical, lines, r - 1, w)
    }
}

/// The rows of the box with the target `width` and `height` around `lines`.
pub open spec fn box_rows(
    style: WidgetStyle,
    width: nat,
    height: nat,
    lines: Seq<Seq<char>>,
) -> Seq<Seq<char>> {
    Seq::new(
        row_count(height),
        |r: int| box_row(style, lines, draw_width(width, lines), row_count(height), r),
    )
}

/// The rows with a line feed between each two, and none at the end.
pub open spec fn join_lines(rows: Seq<Seq<char>>) -> Seq<char>
    decreases rows.len(),
{
    if rows.len() == 0 {
        Seq::empty()
    } else if rows.len() == 1 {
        rows[0]
    } else {
        join_lines(rows.drop_last()) + seq!['\n'] + rows.last()
    }
}

/// The box with the target `width` and `height` around `lines`, as text.
pub open spec fn box_text(
    style: WidgetStyle,
    width: nat,
    height: nat,
    lines: Seq<Seq<char>>,
) -> Seq<char> {
    join_lines(box_rows(style, width, height, lines))
}

fn longest_of(lines: &Vec<Vec<char>>) -> (n: usize)
    ensures
        n == longest(views(lines@)),
{
    let mut n: usize = 0;
    let mut i: usize = 0;
    while i < lines.len()
        invariant
            i <= lines.len(),
            n == longest(views(lines@).take(i as int)),
        decreases lines.len() - i,
    {
        proof {
            let seen = views(lines@).take(i + 1);
            assert(seen.drop_last() =~= views(lines@).take(i as int));
        }
        if lines[i].len() > n {
            n = lines[i].len();
        }
        i = i + 1;
    }
    assert(views(lines@).take(i as int) =~= views(lines@));
    n
}

fn push_border(out: &mut String, left: char, fill: char, right: char, w: usize)
    ensures
        final(out)@ == old(out)@ + border_row(left, fill, right, w as nat),
{
    out.push(left);
    let mut i: usize = 0;
    while i < w
        invariant
            i <= w,
            out@ == old(out)@ + seq![left] + Seq::new(i as nat, |k: int| fill),
        decreases w - i,
    {
        out.push(fill);
        i = i + 1;
    }
    out.push(right);
}

fn push_content_row(
    out: &mut String,
    left: char,
    right: char,
    lines: &Vec<Vec<char>>,
    row: usize,
    w: usize,
)
    ensures
        final(out)@ == old(out)@ + content_row(left, right, views(lines@), row as int, w as nat),
{
    out.push(left);
    let mut col: usize = 0;
    while col < w
        invariant
            col <= w,
            out@ == old(out)@ + seq![left] + Seq::new(
                col as nat,
                |k: int| cell(views(lines@), row as int, k),
            ),
        decreases w - col,
    {
        let c = if row < lines.len() && col < lines[row].len() {
            lines[row][col]
        } else {
            ' '
        };
        out.push(c);
        col = col + 1;
    }
    out.push(right);
}

/// Draws the box with the target `width` and `height` around `lines`,
/// which hold visible characters only. A target height under two is taken
/// as two. The box is as wide as the longest line, and no wider than the
/// target; no lines at all are measured as one line of a single space.
/// Cells that the lines do not fill are spaces.
pub fn draw_box(style: &WidgetStyle, width: u16, height: u16, lines: &Vec<Vec<char>>) -> (s:
    String)
    ensures
        s@ == box_text(*style, width as nat, height as nat, views(lines@)),
{
    let widest: usize = if lines.len() == 0 {
        1
    } else {
        longest_of(lines)
    };
    let target: usize = width as usize;
    let w: usize = if target <= widest {
        target
    } else {
        widest
    };
    let rows: usize = if height < 2 {
        2
    } else {
        height as usize
    };
    let ghost all = box_rows(*style, width as nat, height as nat, views(lines@));
    proof {
        let blank: Seq<Seq<char>> = seq![seq![' ']];
        assert(longest(blank) == 1) by {
            assert(longest(blank.drop_last()) == 0);
        }
    }
    let mut s = String::new();
    push_border(&mut s, style.top_left, style.top_horizontal, style.top_right, w);
    assert(s@ =~= join_lines(all.take(1)));
    let mut l: usize = 0;
    while l < rows - 2
        invariant
            l <= rows - 2,
            rows >= 2,
            all.len() == rows,
            all == box_rows(*style, width as nat, height as nat, views(lines@)),
            rows == row_count(height as nat),
            w == draw_width(width as nat, views(lines@)),
            s@ == join_lines(all.take(1 + l)),
        decreases rows - 2 - l,
    {
        s.push('\n');
        push_content_row(&mut s, style.left_vertical, style.right_vertical, lines, l, w);
        proof {
            let seen = all.take(2 + l);
            assert(seen.drop_last() =~= all.take(1 + l));
        }
        l = l + 1;
    }
    s.push('\n');
    push_border(&mut s, style.bottom_left, style.bottom_horizontal, style.bottom_right, w);
    assert(all.take(rows as int) =~= all);
    s
}

/// The lines of `styled`, each with its escape sequences taken out.
pub open spec fn visible_lines(styled: Seq<char>) -> Seq<Seq<char>> {
    lines_of(styled).map_values(|line: Seq<char>| visible_text(line))
}

/// Splits `styled` into lines and takes the escape sequences out of each.
pub fn visible_lines_of(styled: &str) -> (lines: Vec<Vec<char>>)
    ensures
        views(lines@) == visible_lines(styled@),
{
    let chars = chars_of(styled);
    let raw = split_lines(&chars);
    let mut lines: Vec<Vec<char>> = Vec::new();
    let mut i: usize = 0;
    while i < raw.len()
        invariant
            i <= raw.len(),
            views(raw@) == lines_of(styled@),
            views(lines@) == visible_lines(styled@).take(i as int),
        decreases raw.len() - i,
    {
        let line = string_of(&raw[i]);
        let visible = strip_escapes(line.as_str());
        let ghost before = views(lines@);
        lines.push(chars_of(visible.as_str()));
        proof {
            assert(views(lines@) =~= before.push(visible@));
        }
        i = i + 1;
    }
    lines
}

/// What a widget is: its border, its target size and its contents.
pub struct WidgetView {
    pub style: WidgetStyle,
    pub width: u16,
    pub height: u16,
    pub contents: Seq<SpanView>,
}

impl WidgetView {
    /// The text a widget draws: the box around the visible lines of its
    /// styled contents.
    pub open spec fn rendered(self) -> Seq<char> {
        box_text(
            self.style,
            self.width as nat,
            self.height as nat,
            visible_lines(styled_text(self.contents)),
        )
    }

    /// Whether contents of `lines` lines, the longest `widest` characters
    /// long, overflow the interior of this widget.
    pub open spec fn overflows(self, widest: nat, lines: nat) -> bool {
        widest > self.width - 2 || lines > self.height - 2
    }

    /// The target width once `contents` are set: unchanged where the plain
    /// contents fit the interior, else the length of the whole plain
    /// contents plus two, and `u16::MAX` where that is more.
    pub open spec fn grown_width(self, contents: Seq<SpanView>) -> u16 {
        let plain = plain_text(contents);
        if self.overflows(longest(lines_of(plain)), lines_of(plain).len()) {
            if plain.len() + 2 <= u16::MAX {
                (plain.len() + 2) as u16
            } else {
                u16::MAX
            }
        } else {
            self.width
        }
    }

    /// This widget with `contents` set and the width grown to hold them.
    pub open spec fn with_contents(self, contents: Seq<SpanView>) -> WidgetView {
        WidgetView { contents, width: self.grown_width(contents), ..self }
    }
}

/// A bordered box around styled text. Its target width and height are at
/// least two.
#[derive(Debug)]
pub struct Widget {
    style: WidgetStyle,
    width: u16,
    height: u16,
    contents: Text,
}

impl View for Widget {
    type V = WidgetView;

    closed spec fn view(&self) -> WidgetView {
        WidgetView {
            style: self.style,
            width: self.width,
            height: self.height,
            contents: self.contents@,
        }
    }
}

impl Widget {
    #[verifier::type_invariant]
    spec fn sized(&self) -> bool {
        self.width >= 2 && self.height >= 2
    }

    /// A builder for a widget ten cells wide and ten rows high, with the
    /// classic border and no contents.
    pub fn new() -> (builder: WidgetBuilder)
        ensures
            builder@.style == WidgetStyle::classic_glyphs(),
            builder@.width == 10,
            builder@.height == 10,
            builder@.contents == Seq::<SpanView>::empty(),
    {
        WidgetBuilder::new()
    }

    /// The border.
    pub fn style(&self) -> (style: WidgetStyle)
        ensures
            style == self@.style,
    {
        self.style
    }

    /// The target width, at least two.
    pub fn width(&self) -> (w: u16)
        ensures
            w == self@.width,
            w >= 2,
    {
        proof {
            use_type_invariant(self);
        }
        self.width
    }

    /// The target height, at least two.
    pub fn height(&self) -> (h: u16)
        ensures
            h == self@.height,
            h >= 2,
    {
        proof {
            use_type_invariant(self);
        }
        self.height
    }

    /// The contents.
    pub fn contents(&self) -> (text: &Text)
        ensures
            text@ == self@.contents,
    {
        &self.contents
    }

    /// Draws the widget: `height` rows, the first and the last a border,
    /// each of the others one line of the contents between the vertical
    /// edges, with its escape sequences taken out.
    pub fn render(&self) -> (s: String)
        ensures
            s@ == self@.rendered(),
    {
        let styled = self.contents.render();
        let lines = visible_lines_of(styled.as_str());
        draw_box(&self.style, self.width, self.height, &lines)
    }
}

impl Clone for Widget {
    fn clone(&self) -> (copy: Self)
        ensures
            copy@ == self@,
    {
        proof {
            use_type_invariant(self);
        }
        Self {
            style: self.style,
            width: self.width,
            height: self.height,
            contents: self.contents.clone(),
        }
    }
}

/// Collects the parts of a widget.
#[derive(Debug)]
pub struct WidgetBuilder {
    widget: Widget,
}

impl View for WidgetBuilder {
    type V = WidgetView;

    closed spec fn view(&self) -> WidgetView {
        self.widget@
    }
}

impl Clone for WidgetBuilder {
    fn clone(&self) -> (copy: Self)
        ensures
            copy@ == self@,
    {
        Self { widget: self.widget.clone() }
    }
}

impl WidgetBuilder {
    fn new() -> (builder: Self)
        ensures
            builder@.style == WidgetStyle::classic_glyphs(),
            builder@.width == 10,
            builder@.height == 10,
            builder@.contents == Seq::<SpanView>::empty(),
    {
        Self {
            widget: Widget {
                style: WidgetStyle::tuitui_classic(),
                width: 10,
                height: 10,
                contents: Text::new(),
            },
        }
    }

    /// Sets the target width; a width under two is taken as two.
    pub fn with_width(self, w: u16) -> (builder: Self)
        ensures
            builder@.width == (if w < 2 { 2u16 } else { w }),
            builder@.height == self@.height,
            builder@.style == self@.style,
            builder@.contents == self@.contents,
    {
        let mut builder = self;
        proof {
            use_type_invariant(&builder.widget);
        }
        builder.widget.width = if w < 2 { 2 } else { w };
        builder
    }

    /// Sets the target height; a height under two is taken as two.
    pub fn with_height(self, h: u16) -> (builder: Self)
        ensures
            builder@.height == (if h < 2 { 2u16 } else { h }),
            builder@.width == self@.width,
            builder@.style == self@.style,
            builder@.contents == self@.contents,
    {
        let mut builder = self;
        proof {
            use_type_invariant(&builder.widget);
        }
        builder.widget.height = if h < 2 { 2 } else { h };
        builder
    }

    /// Sets the border.
    pub fn with_style(self, style: WidgetStyle) -> (builder: Self)
        ensures
            builder@.style == style,
            builder@.width == self@.width,
            builder@.height == self@.height,
            builder@.contents == self@.contents,
    {
        let mut builder = self;
        proof {
            use_type_invariant(&builder.widget);
        }
        builder.widget.style = style;
        builder
    }

    /// Sets the contents. Where their longest plain line is longer than
    /// the width less two, or they have more lines than the height less
    /// two, the width becomes the length of the whole plain contents plus
    /// two; the height stays.
    pub fn with_contents(self, contents: Text) -> (builder: Self)
        ensures
            builder@ == self@.with_contents(contents@),
    {
        let mut builder = self;
        proof {
            use_type_invariant(&builder.widget);
        }
        let plain = contents.render_plain();
        let chars = chars_of(plain.as_str());
        let lines = split_lines(&chars);
        let widest = longest_of(&lines);
        let interior_width: usize = (builder.widget.width - 2) as usize;
        let interior_height: usize = (builder.widget.height - 2) as usize;
        if widest > interior_width || lines.len() > interior_height {
            builder.widget.width = if chars.len() <= 65533 {
                (chars.len() + 2) as u16
            } else {
                u16::MAX
            };
        }
        builder.widget.contents = contents;
        builder
    }

    /// The widget as collected.
    pub fn build(self) -> (widget: Widget)
        ensures
            widget@ == self@,
    {
        self.widget
    }
}

/// A box has as many rows as its target height, two at least, and every
/// row, border or interior, is two characters longer than the draw width.
pub proof fn lemma_box_shape(style: WidgetStyle, width: nat, height: nat, lines: Seq<Seq<char>>)
    ensures
        box_rows(style, width, height, lines).len() == row_count(height),
        forall|r: int|
            0 <= r < row_count(height) ==> (#[trigger] box_rows(
                style,
                width,
                height,
                lines,
            )[r]).len() == draw_width(width, lines) + 2,
        draw_width(width, lines) <= width,
{
}

/// A widget draws as many rows as its height, each two characters longer
/// than the draw width of its visible lines.
pub proof fn lemma_widget_shape(widget: WidgetView)
    requires
        widget.height >= 2,
    ensures
        widget.rendered() == join_lines(
            box_rows(
                widget.style,
                widget.width as nat,
                widget.height as nat,
                visible_lines(styled_text(widget.contents)),
            ),
        ),
        box_rows(
            widget.style,
            widget.width as nat,
            widget.height as nat,
            visible_lines(styled_text(widget.contents)),
        ).len() == widget.height,
        forall|r: int|
            0 <= r < widget.height ==> (#[trigger] box_rows(
                widget.style,
                widget.width as nat,
                widget.height as nat,
                visible_lines(styled_text(widget.contents)),
            )[r]).len() == draw_width(
                widget.width as nat,
                visible_lines(styled_text(widget.contents)),
            ) + 2,
{
    lemma_box_shape(
        widget.style,
        widget.width as nat,
        widget.height as nat,
        visible_lines(styled_text(widget.contents)),
    );
}

/// Contents whose longest plain line does not fit the interior make the
/// builder at least as wide as their whole plain length plus two, as long
/// as that fits a `u16`.
pub proof fn lemma_grows_to_hold(builder: WidgetView, contents: Seq<SpanView>)
    requires
        longest(lines_of(plain_text(contents))) > builder.width - 2,
        plain_text(contents).len() + 2 <= u16::MAX,
    ensures
        builder.with_contents(contents).width >= plain_text(contents).len() + 2,
{
}

/// Names that have the same lowercase form name the same palette.
pub proof fn lemma_palette_ignores_case(a: Seq<char>, b: Seq<char>)
    requires
        lowercase(a) == lowercase(b),
    ensures
        WidgetStyle::named(a) == WidgetStyle::named(b),
{
}

/// ASCII names that differ in the case of their letters only have the
/// same lowercase form.
pub proof fn lemma_ascii_case_lowers_alike(a: Seq<char>, b: Seq<char>)
    requires
        is_ascii_chars(a),
        is_ascii_chars(b),
        a.len() == b.len(),
        forall|i: int| 0 <= i < a.len() ==> ascii_lower(a[i]) == ascii_lower(b[i]),
    ensures
        lowercase(a) == lowercase(b),
{
}

/// An ASCII name with the product prefix before it names the palette that
/// it names without, unless the name begins with the prefix itself.
pub proof fn lemma_palette_tolerates_prefix(name: Seq<char>)
    requires
        is_ascii_chars(name),
        !WidgetStyle::product_prefix().is_prefix_of(lowercase(name)),
    ensures
        WidgetStyle::named(WidgetStyle::product_prefix() + name) == WidgetStyle::named(name),
{
    let prefix = WidgetStyle::product_prefix();
    reveal_strlit("tuitui ");
    let whole = prefix + name;
    assert(is_ascii_chars(whole));
    assert(lowercase(whole).skip(prefix.len() as int) =~= lowercase(name));
}

/// A name whose key names no palette gives the classic one.
pub proof fn lemma_unknown_name_is_classic(name: Seq<char>)
    requires
        WidgetStyle::palette(WidgetStyle::palette_key(name)) is None,
    ensures
        WidgetStyle::named(name) == WidgetStyle::classic_glyphs(),
{
}

/// Whether `row` survives a split into lines as it is: it is not empty,
/// holds no line feed and does not end in a carriage return.
pub open spec fn is_whole_line(row: Seq<char>) -> bool {
    &&& row.len() > 0
    &&& row.last() != '\r'
    &&& forall|i: int| 0 <= i < row.len() ==> row[i] != '\n'
}

proof fn lemma_join_from_front(rows: Seq<Seq<char>>)
    requires
        rows.len() >= 2,
    ensures
        join_lines(rows) == rows[0] + seq!['\n'] + join_lines(rows.drop_first()),
    decreases rows.len(),
{
    if rows.len() == 2 {
        assert(join_lines(rows.drop_last()) == rows[0]);
    } else {
        let front = rows.drop_last();
        lemma_join_from_front(front);
        assert(front.drop_first() =~= rows.drop_first().drop_last());
    }
}

/// Rows joined by line feeds split into the same rows again, where each
/// of them is a whole line.
pub proof fn lemma_lines_of_joined(rows: Seq<Seq<char>>)
    requires
        forall|r: int| 0 <= r < rows.len() ==> is_whole_line(#[trigger] rows[r]),
    ensures
        lines_of(join_lines(rows)) == rows,
    decreases rows.len(),
{
    if rows.len() == 1 {
        lemma_first_line_len(rows[0], rows[0].len() as int);
    } else if rows.len() >= 2 {
        let row = rows[0];
        let rest = rows.drop_first();
        let text = join_lines(rows);
        lemma_join_from_front(rows);
        assert(forall|r: int| 0 <= r < rest.len() ==> is_whole_line(#[trigger] rest[r]));
        lemma_lines_of_joined(rest);
        let n = row.len() as int;
        assert(forall|j: int| 0 <= j < n ==> text[j] == row[j]);
        lemma_first_line_len(text, n);
        assert(text.take(n) =~= row);
        assert(text.skip(n + 1) =~= join_lines(rest));
    }
}

impl WidgetStyle {
    /// Whether none of the eight glyphs is a line feed or a carriage return.
    pub open spec fn breaks_no_line(self) -> bool {
        &&& self.top_left != '\n' && self.top_left != '\r'
        &&& self.top_right != '\n' && self.top_right != '\r'
        &&& self.bottom_left != '\n' && self.bottom_left != '\r'
        &&& self.bottom_right != '\n' && self.bottom_right != '\r'
        &&& self.top_horizontal != '\n' && self.top_horizontal != '\r'
        &&& self.left_vertical != '\n' && self.left_vertical != '\r'
        &&& self.bottom_horizontal != '\n' && self.bottom_horizontal != '\r'
        &&& self.right_vertical != '\n' && self.right_vertical != '\r'
    }
}

/// The text of a box splits into exactly the rows of the box, as many as
/// its height, where neither a glyph of the border nor a character of the
/// lines breaks a line.
pub proof fn lemma_box_lines(style: WidgetStyle, width: nat, height: nat, lines: Seq<Seq<char>>)
    requires
        style.breaks_no_line(),
        forall|l: int, i: int|
            0 <= l < lines.len() && 0 <= i < lines[l].len() ==> #[trigger] lines[l][i] != '\n',
    ensures
        lines_of(box_text(style, width, height, lines)) == box_rows(style, width, height, lines),
        lines_of(box_text(style, width, height, lines)).len() == row_count(height),
{
    let rows = box_rows(style, width, height, lines);
    let w = draw_width(width, lines);
    assert forall|r: int| 0 <= r < rows.len() implies is_whole_line(#[trigger] rows[r]) by {
        assert(rows[r].len() == w + 2);
    }
    lemma_lines_of_joined(rows);
}

} // verus!
