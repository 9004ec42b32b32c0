use tuitui::prelude::{Color, Style, Text, TextSpan};

const RESET: &str = "\x1b[0m";

fn hello_world() -> Text {
    let mut text = Text::new();
    text.span("Hello");
    text.span("World").bold().color(Color::Red);
    text
}

#[test]
fn plain_render_concatenates_span_contents() {
    let mut text = Text::new();
    text.span("ab");
    text.span("");
    text.span("cd").italic();
    text.span_from(TextSpan::new("ef"));
    assert_eq!(text.render_plain(), "abcdef");
    assert_eq!(Text::new().render_plain(), "");
}

#[test]
fn hello_world_plain_and_styled() {
    let text = hello_world();
    assert_eq!(text.render_plain(), "HelloWorld");
    let styled = text.render();
    assert_eq!(styled, "Hello\x1b[0m\x1b[1m\x1b[31mWorld\x1b[0m");
    assert_eq!(styled.matches(RESET).count(), 2);
    assert!(styled.contains("Hello\x1b[0m"));
    assert!(styled.ends_with("World\x1b[0m"));
}

#[test]
fn stripping_the_styled_render_gives_the_plain_render() {
    let text = hello_world();
    assert_eq!(strip_ansi_escapes::strip_str(text.render()), text.render_plain());

    let mut rich = Text::new();
    rich.span("one ").underlined().bg_color(Color::RGB(1, 20, 255));
    rich.span("two").strikethrough().color(Color::LightCyan).bg_color(Color::Gray);
    rich.dim_all();
    assert_eq!(strip_ansi_escapes::strip_str(rich.render()), "one two");
    assert_eq!(rich.render_plain(), "one two");
}

#[test]
fn span_render_orders_styles_foreground_background_content_reset() {
    let mut span = TextSpan::new("x");
    span.bg_color(Color::Blue).color(Color::Banana).italic().bold();
    assert_eq!(span.render(), "\x1b[3m\x1b[1m\x1b[93m\x1b[44mx\x1b[0m");
    assert_eq!(span.render_plain(), "x");
    assert_eq!(TextSpan::new("").render(), RESET);
}

#[test]
fn span_contents_replaces_the_characters_only() {
    let mut span = TextSpan::new("old");
    span.bold().contents("new");
    assert_eq!(span.render(), "\x1b[1mnew\x1b[0m");
    assert_eq!(span.render_plain(), "new");
}

#[test]
fn every_named_color_has_its_codes() {
    let named = [
        (Color::Black, 30),
        (Color::Red, 31),
        (Color::Green, 32),
        (Color::Yellow, 33),
        (Color::Blue, 34),
        (Color::Magenta, 35),
        (Color::Cyan, 36),
        (Color::White, 37),
        (Color::Gray, 90),
        (Color::BrightRed, 91),
        (Color::Lime, 92),
        (Color::Banana, 93),
        (Color::LightBlue, 94),
        (Color::Pink, 95),
        (Color::LightCyan, 96),
        (Color::BrightWhite, 97),
    ];
    for (color, number) in named {
        assert_eq!(color.ansi_fg(), format!("\x1b[{}m", number));
        assert_eq!(color.ansi_bg(), format!("\x1b[{}m", number + 10));
    }
    assert_eq!(Color::Red.ansi_fg(), "\x1b[31m");
    assert_eq!(Color::BrightWhite.ansi_bg(), "\x1b[107m");
}

#[test]
fn rgb_colors_write_each_channel_in_decimal() {
    assert_eq!(Color::RGB(0, 9, 10).ansi_fg(), "\x1b[38;2;0;9;10m");
    assert_eq!(Color::RGB(99, 100, 255).ansi_bg(), "\x1b[48;2;99;100;255m");
    assert_eq!(Color::RGB(122, 98, 168).ansi_fg(), "\x1b[38;2;122;98;168m");
    for value in 0..=255u8 {
        assert_eq!(Color::RGB(value, 0, 0).ansi_fg(), format!("\x1b[38;2;{};0;0m", value));
    }
}

#[test]
fn every_style_has_its_code() {
    assert_eq!(Style::Bold.ansi(), "\x1b[1m");
    assert_eq!(Style::Dim.ansi(), "\x1b[2m");
    assert_eq!(Style::Italic.ansi(), "\x1b[3m");
    assert_eq!(Style::Underlined.ansi(), "\x1b[4m");
    assert_eq!(Style::Blink.ansi(), "\x1b[5m");
    assert_eq!(Style::ReverseVideo.ansi(), "\x1b[7m");
    assert_eq!(Style::Concealed.ansi(), "\x1b[8m");
    assert_eq!(Style::Strikethrough.ansi(), "\x1b[9m");
    assert_eq!(Style::reset(), RESET);
}

#[test]
fn span_setters_apply_their_style() {
    let mut span = TextSpan::new("s");
    span.bold().dim().italic().underlined().blink().reverse_video().concealed().strikethrough();
    assert_eq!(
        span.render(),
        "\x1b[1m\x1b[2m\x1b[3m\x1b[4m\x1b[5m\x1b[7m\x1b[8m\x1b[9ms\x1b[0m"
    );
}

#[test]
fn bulk_styles_reach_every_span_and_add_up() {
    let mut text = Text::new();
    text.span("a");
    text.span("b").color(Color::Green);
    text.bold_all();
    assert_eq!(text.render(), "\x1b[1ma\x1b[0m\x1b[1m\x1b[32mb\x1b[0m");
    text.bold_all();
    assert_eq!(text.render(), "\x1b[1m\x1b[1ma\x1b[0m\x1b[1m\x1b[1m\x1b[32mb\x1b[0m");
    assert_eq!(text.render_plain(), "ab");
}

#[test]
fn each_bulk_style_applies_its_own_code() {
    let cases: [(fn(&mut Text), &str); 8] = [
        (Text::bold_all, "\x1b[1m"),
        (Text::dim_all, "\x1b[2m"),
        (Text::italic_all, "\x1b[3m"),
        (Text::underline_all, "\x1b[4m"),
        (Text::blink_all, "\x1b[5m"),
        (Text::reverse_video_all, "\x1b[7m"),
        (Text::conceal_all, "\x1b[8m"),
        (Text::strikethrough_all, "\x1b[9m"),
    ];
    for (apply, code) in cases {
        let mut text = Text::from("t");
        apply(&mut text);
        assert_eq!(text.render(), format!("{}t{}", code, RESET));
        let mut none = Text::new();
        apply(&mut none);
        assert_eq!(none.render(), "");
    }
}

#[test]
fn conversions_make_a_single_span() {
    assert_eq!(Text::from("plain").render(), "plain\x1b[0m");
    assert_eq!(Text::from(String::from("owned")).render_plain(), "owned");
    let mut span = TextSpan::new("s");
    span.color(Color::Pink);
    assert_eq!(Text::from(span).render(), "\x1b[95ms\x1b[0m");
}

#[test]
fn clones_render_alike() {
    let text = hello_world();
    let copy = text.clone();
    assert_eq!(copy.render(), text.render());
    assert_eq!(copy.render_plain(), "HelloWorld");
}
