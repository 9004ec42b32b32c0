//! The names an application needs, in one place.

pub use crate::app::{App, AppRuntime, RuntimeView, TickAction};
pub use crate::components::{
    AsciiArt, BannerRenderError, Color, Component, Heading, Paragraph, Separator, Style, Text,
    TextSpan, Widget, WidgetBuilder, WidgetStyle,
};
pub use crate::event::Event;
pub use crate::inputs::{
    InputHandler, InputKey, Key, KeyConversionError, KeyEventKind, KeyModifiers, PollReport,
    RawEvent, RawKeyCode, RawKeyEvent,
};
pub use crate::ui::Ui;
pub use std::time::Duration;
