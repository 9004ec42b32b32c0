use tuitui::components::widget::{draw_box, visible_lines_of};
use tuitui::prelude::{Color, Component, Text, TextSpan, Widget, WidgetStyle};

fn chars(lines: &[&str]) -> Vec<Vec<char>> {
    lines.iter().map(|line| line.chars().collect()).collect()
}

fn ascii_widget(width: u16, height: u16, contents: &str) -> Widget {
    Widget::new()
        .with_style(WidgetStyle::tuitui_ascii())
        .with_width(width)
        .with_height(height)
        .with_contents(Text::from(contents))
        .build()
}

#[test]
fn widget_test() {
    let my_widget = Widget::new()
        .with_width(35)
        .with_height(5)
        .with_contents(Text::from("Hello!"))
        .with_style(WidgetStyle::from_name("dashed"))
        .build();

    let drawn = my_widget.render();
    println!("{}", drawn);
    let lines: Vec<&str> = drawn.lines().collect();
    assert_eq!(lines, ["┌╌╌╌╌╌╌┐", "╎Hello!╎", "╎      ╎", "╎      ╎", "└╌╌╌╌╌╌┘"]);
    let as_component = Component::Widget(my_widget);
    assert_eq!(as_component.render().unwrap(), drawn);
}

#[test]
fn ascii_box_around_hi() {
    let widget = ascii_widget(6, 4, "Hi");
    assert_eq!(widget.render(), "+--+\n|Hi|\n|  |\n+--+");
    assert_eq!(widget.width(), 6);
    assert_eq!(widget.height(), 4);
}

#[test]
fn render_has_height_lines_each_two_longer_than_the_draw_width() {
    for height in 2..9u16 {
        for width in 2..9u16 {
            let widget = Widget::new()
                .with_style(WidgetStyle::tuitui_double())
                .with_contents(Text::from("abc\nde"))
                .with_width(width)
                .with_height(height)
                .build();
            let drawn = widget.render();
            let lines: Vec<&str> = drawn.lines().collect();
            let draw_width = usize::from(width).min(3);
            assert_eq!(lines.len(), usize::from(height));
            for line in lines {
                assert_eq!(line.chars().count(), draw_width + 2);
            }
        }
    }
}

#[test]
fn escape_sequences_are_not_drawn_and_not_measured() {
    let mut text = Text::new();
    text.span("Hi").bold().color(Color::Red);
    text.span("!").bg_color(Color::RGB(1, 2, 3));
    let widget = Widget::new()
        .with_style(WidgetStyle::tuitui_ascii())
        .with_width(20)
        .with_height(3)
        .with_contents(text)
        .build();
    assert_eq!(widget.render(), "+---+\n|Hi!|\n+---+");
}

#[test]
fn visible_lines_split_then_strip() {
    assert_eq!(visible_lines_of("\x1b[1mab\x1b[0m\n\x1b[31mc\x1b[0m"), chars(&["ab", "c"]));
    assert_eq!(visible_lines_of("a\r\nb\n"), chars(&["a", "b"]));
    assert_eq!(visible_lines_of("a\n\nb"), chars(&["a", "", "b"]));
    assert_eq!(visible_lines_of(""), Vec::<Vec<char>>::new());
}

#[test]
fn long_lines_are_clipped_and_short_ones_padded() {
    let lines = chars(&["abcdef", "x"]);
    let style = WidgetStyle::tuitui_ascii();
    assert_eq!(draw_box(&style, 4, 4, &lines), "+----+\n|abcd|\n|x   |\n+----+");
    assert_eq!(draw_box(&style, 10, 5, &lines), "+------+\n|abcdef|\n|x     |\n|      |\n+------+");
    assert_eq!(draw_box(&style, 10, 3, &lines), "+------+\n|abcdef|\n+------+");
    assert_eq!(draw_box(&style, 10, 2, &lines), "+------+\n+------+");
    assert_eq!(draw_box(&style, 0, 3, &lines), "++\n||\n++");
}

#[test]
fn a_height_under_two_draws_the_two_borders() {
    let lines = chars(&["ab"]);
    let style = WidgetStyle::tuitui_ascii();
    assert_eq!(draw_box(&style, 5, 0, &lines), "+--+\n+--+");
    assert_eq!(draw_box(&style, 5, 1, &lines), "+--+\n+--+");
}

#[test]
fn no_lines_are_drawn_as_one_blank_line() {
    let style = WidgetStyle::tuitui_ascii();
    assert_eq!(draw_box(&style, 6, 4, &Vec::new()), "+-+\n| |\n| |\n+-+");
    let empty = Widget::new().with_style(style).with_width(6).with_height(4).build();
    assert_eq!(empty.render(), "+-+\n| |\n| |\n+-+");
    let with_empty_text = Widget::new()
        .with_style(style)
        .with_height(3)
        .with_contents(Text::new())
        .build();
    assert_eq!(with_empty_text.render(), "+-+\n| |\n+-+");
}

#[test]
fn a_line_of_no_visible_characters_has_no_width() {
    let widget = ascii_widget(6, 3, "");
    assert_eq!(widget.render(), "++\n||\n++");
}

#[test]
fn the_builder_starts_ten_by_ten_and_classic() {
    let widget = Widget::new().build();
    assert_eq!(widget.width(), 10);
    assert_eq!(widget.height(), 10);
    assert_eq!(widget.style(), WidgetStyle::tuitui_classic());
    assert_eq!(widget.contents().render(), "");
}

#[test]
fn sizes_under_two_are_raised_to_two() {
    let widget = Widget::new().with_width(0).with_height(1).build();
    assert_eq!(widget.width(), 2);
    assert_eq!(widget.height(), 2);
    let kept = Widget::new().with_width(2).with_height(65535).build();
    assert_eq!(kept.width(), 2);
    assert_eq!(kept.height(), 65535);
}

#[test]
fn contents_that_fit_leave_the_width() {
    let widget = ascii_widget(10, 10, "12345678");
    assert_eq!(widget.width(), 10);
    let lines = ascii_widget(10, 10, "1\n2\n3\n4\n5\n6\n7\n8");
    assert_eq!(lines.width(), 10);
}

#[test]
fn a_line_too_long_grows_the_width_to_the_whole_length_plus_two() {
    let widget = ascii_widget(10, 10, "123456789");
    assert_eq!(widget.width(), 11);
    assert_eq!(widget.height(), 10);
    let two_lines = ascii_widget(5, 10, "abcd\nef");
    assert_eq!(two_lines.width(), 9);
    assert!(usize::from(two_lines.width()) >= "abcd\nef".chars().count() + 2);
}

#[test]
fn too_many_lines_grow_the_width_and_not_the_height() {
    let widget = ascii_widget(10, 4, "a\nb\nc");
    assert_eq!(widget.width(), 7);
    assert_eq!(widget.height(), 4);
    assert_eq!(widget.render(), "+-+\n|a|\n|b|\n+-+");
}

#[test]
fn growth_measures_the_plain_contents() {
    let mut span = TextSpan::new("123456789");
    span.bold().color(Color::Red);
    let widget = Widget::new().with_contents(Text::from(span)).build();
    assert_eq!(widget.width(), 11);
}

#[test]
fn growth_stops_at_the_largest_width() {
    let long = "x".repeat(70000);
    let widget = Widget::new().with_contents(Text::from(long)).build();
    assert_eq!(widget.width(), 65535);
    let edge = "x".repeat(65533);
    let at_edge = Widget::new().with_contents(Text::from(edge)).build();
    assert_eq!(at_edge.width(), 65535);
}

#[test]
fn a_width_set_after_the_contents_is_kept() {
    let widget = Widget::new()
        .with_style(WidgetStyle::tuitui_ascii())
        .with_height(3)
        .with_contents(Text::from("123456789012"))
        .with_width(4)
        .build();
    assert_eq!(widget.width(), 4);
    assert_eq!(widget.render(), "+----+\n|1234|\n+----+");
}

#[test]
fn named_palettes_resolve() {
    let cases = [
        ("classic", WidgetStyle::tuitui_classic()),
        ("default", WidgetStyle::tuitui_classic()),
        ("heavy box", WidgetStyle::tuitui_heavy_box()),
        ("thick box", WidgetStyle::tuitui_heavy_box()),
        ("bold box", WidgetStyle::tuitui_heavy_box()),
        ("rounded", WidgetStyle::tuitui_rounded()),
        ("smooth", WidgetStyle::tuitui_rounded()),
        ("double", WidgetStyle::tuitui_double()),
        ("ascii", WidgetStyle::tuitui_ascii()),
        ("basic", WidgetStyle::tuitui_ascii()),
        ("retro", WidgetStyle::retro_ibm()),
        ("retro ibm", WidgetStyle::retro_ibm()),
        ("ibm", WidgetStyle::retro_ibm()),
        ("retro apple2", WidgetStyle::retro_apple2()),
        ("retro apple 2", WidgetStyle::retro_apple2()),
        ("apple", WidgetStyle::retro_apple2()),
        ("retro apple", WidgetStyle::retro_apple2()),
        ("apple2", WidgetStyle::retro_apple2()),
        ("apple 2", WidgetStyle::retro_apple2()),
        ("retro c64", WidgetStyle::retro_c64()),
        ("commodore", WidgetStyle::retro_c64()),
        ("c64", WidgetStyle::retro_c64()),
        ("none", WidgetStyle::no_border()),
        ("no border", WidgetStyle::no_border()),
        ("no-border", WidgetStyle::no_border()),
        ("dotted", WidgetStyle::dotted()),
        ("dot", WidgetStyle::dotted()),
        ("dashed", WidgetStyle::dashed()),
        ("dash", WidgetStyle::dashed()),
    ];
    for (name, style) in cases {
        assert_eq!(WidgetStyle::from_name(name), style, "{}", name);
        assert_eq!(WidgetStyle::from_name(&name.to_uppercase()), style, "{}", name);
        assert_eq!(WidgetStyle::from_name(&format!("tuitui {}", name)), style, "{}", name);
        assert_eq!(WidgetStyle::from_name(&format!("TuiTui {}", name)), style, "{}", name);
    }
}

#[test]
fn unknown_names_fall_back_to_classic() {
    let classic = WidgetStyle::tuitui_classic();
    assert_eq!(WidgetStyle::from_name("no such palette"), classic);
    assert_eq!(WidgetStyle::from_name(""), classic);
    assert_eq!(WidgetStyle::from_name("tuitui "), classic);
    assert_eq!(WidgetStyle::from_name("tuitui"), classic);
    assert_eq!(WidgetStyle::from_name(" rounded"), classic);
    assert_eq!(WidgetStyle::from_name("tuituirounded"), classic);
}

#[test]
fn the_prefix_is_taken_off_once() {
    assert_eq!(WidgetStyle::from_name("tuitui rounded"), WidgetStyle::tuitui_rounded());
    assert_eq!(WidgetStyle::from_name("tuitui tuitui rounded"), WidgetStyle::tuitui_classic());
}

#[test]
fn names_outside_ascii_are_lowered_by_their_unicode_mapping() {
    assert_eq!(WidgetStyle::from_name("thic\u{212A} box"), WidgetStyle::tuitui_heavy_box());
    assert_eq!(WidgetStyle::from_name("TUITUI THIC\u{212A} BOX"), WidgetStyle::tuitui_heavy_box());
    assert_eq!(WidgetStyle::from_name("double\u{e9}"), WidgetStyle::tuitui_classic());
}

#[test]
fn the_palettes_have_their_glyphs() {
    assert_eq!(WidgetStyle::tuitui_classic(), WidgetStyle::custom('┌', '┐', '└', '┘', '─', '│', '─', '│'));
    assert_eq!(WidgetStyle::tuitui_heavy_box(), WidgetStyle::custom('┏', '┓', '┗', '┛', '━', '┃', '━', '┃'));
    assert_eq!(WidgetStyle::tuitui_rounded(), WidgetStyle::custom('╭', '╮', '╰', '╯', '─', '│', '─', '│'));
    assert_eq!(WidgetStyle::tuitui_double(), WidgetStyle::custom('╔', '╗', '╚', '╝', '═', '║', '═', '║'));
    assert_eq!(WidgetStyle::tuitui_ascii(), WidgetStyle::custom('+', '+', '+', '+', '-', '|', '-', '|'));
    assert_eq!(WidgetStyle::retro_ibm(), WidgetStyle::custom('▄', '▄', '█', '█', '▄', '█', '▄', '█'));
    assert_eq!(WidgetStyle::retro_apple2(), WidgetStyle::custom('█', '█', '█', '█', '█', '█', '█', '█'));
    assert_eq!(WidgetStyle::retro_c64(), WidgetStyle::custom('▛', '▜', '▙', '▟', '▀', '▌', '▄', '▐'));
    assert_eq!(WidgetStyle::no_border(), WidgetStyle::custom(' ', ' ', ' ', ' ', ' ', ' ', ' ', ' '));
    assert_eq!(WidgetStyle::dotted(), WidgetStyle::custom('┌', '┐', '└', '┘', '┄', '┊', '┄', '┊'));
    assert_eq!(WidgetStyle::dashed(), WidgetStyle::custom('┌', '┐', '└', '┘', '╌', '╎', '╌', '╎'));
}

#[test]
fn custom_glyphs_go_to_their_places() {
    let style = WidgetStyle::custom('1', '2', '3', '4', '5', '6', '7', '8');
    assert_eq!(style.top_left, '1');
    assert_eq!(style.top_right, '2');
    assert_eq!(style.bottom_left, '3');
    assert_eq!(style.bottom_right, '4');
    assert_eq!(style.top_horizontal, '5');
    assert_eq!(style.left_vertical, '6');
    assert_eq!(style.bottom_horizontal, '7');
    assert_eq!(style.right_vertical, '8');
    let widget = Widget::new()
        .with_style(style)
        .with_height(3)
        .with_contents(Text::from("ab"))
        .build();
    assert_eq!(widget.render(), "1552\n6ab8\n3774");
}

#[test]
fn widgets_clone_with_their_parts() {
    let widget = ascii_widget(6, 4, "Hi");
    let copy = widget.clone();
    assert_eq!(copy.render(), widget.render());
    assert_eq!(copy.width(), 6);
    let builder = Widget::new().with_width(7);
    assert_eq!(builder.clone().build().width(), 7);
}
