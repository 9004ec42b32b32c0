use tuitui::prelude::{
    App, AppRuntime, InputKey, Key, KeyModifiers, TickAction, Ui,
};

const CLEAR: &str = "\x1b[2J\x1b[3J\x1b[1;1H";

struct Scripted {
    frames: Vec<&'static str>,
    stop_at: usize,
    updates: usize,
    displays: usize,
    keys: Vec<Option<Key>>,
}

impl Scripted {
    fn new(frames: Vec<&'static str>, stop_at: usize) -> Self {
        Self { frames, stop_at, updates: 0, displays: 0, keys: Vec::new() }
    }
}

impl App for Scripted {
    fn display(&mut self, ui: &mut Ui) {
        let frame = self.frames[self.displays % self.frames.len()];
        ui.paragraph(frame);
        self.displays += 1;
    }

    fn update(&mut self, key: Option<Key>) -> bool {
        self.keys.push(key);
        self.updates += 1;
        self.updates <= self.stop_at
    }

    fn get_fps(&self) -> u32 {
        60
    }
}

fn written(action: TickAction) -> Option<String> {
    match action {
        TickAction::Draw(output) => Some(output),
        _ => None,
    }
}

#[test]
fn stop_on_the_first_update_draws_nothing() {
    let mut runtime = AppRuntime::new();
    let mut app = Scripted::new(vec!["frame"], 0);
    let mut ui = Ui::new();
    let action = runtime.tick(&mut app, &mut ui, None).unwrap();
    assert!(matches!(action, TickAction::Stop));
    assert!(!runtime.is_running());
    assert_eq!(app.updates, 1);
    assert_eq!(app.displays, 0);
    assert_eq!(ui.render().unwrap(), "");
}

#[test]
fn two_alike_frames_are_written_once() {
    let mut runtime = AppRuntime::new();
    let mut app = Scripted::new(vec!["same"], 10);
    let mut ui = Ui::new();
    let first = runtime.tick(&mut app, &mut ui, None).unwrap();
    assert_eq!(written(first), Some(format!("{}same\n", CLEAR)));
    let second = runtime.tick(&mut app, &mut ui, None).unwrap();
    assert!(matches!(second, TickAction::Skip));
    assert_eq!(app.displays, 2);
    assert!(runtime.is_running());
}

#[test]
fn a_changed_frame_is_written_again() {
    let mut runtime = AppRuntime::new();
    let mut app = Scripted::new(vec!["one", "two", "two", "one"], 10);
    let mut ui = Ui::new();
    let mut writes = Vec::new();
    for _ in 0..4 {
        writes.push(written(runtime.tick(&mut app, &mut ui, None).unwrap()));
    }
    assert_eq!(
        writes,
        [
            Some(format!("{}one\n", CLEAR)),
            Some(format!("{}two\n", CLEAR)),
            None,
            Some(format!("{}one\n", CLEAR)),
        ]
    );
}

#[test]
fn the_frame_is_rebuilt_on_every_tick() {
    let mut runtime = AppRuntime::new();
    let mut app = Scripted::new(vec!["a", "b"], 10);
    let mut ui = Ui::new();
    ui.paragraph("left over");
    runtime.tick(&mut app, &mut ui, None).unwrap();
    assert_eq!(ui.render().unwrap(), "a\n");
    runtime.tick(&mut app, &mut ui, None).unwrap();
    assert_eq!(ui.render().unwrap(), "b\n");
}

#[test]
fn the_key_of_the_tick_reaches_update() {
    let mut runtime = AppRuntime::new();
    let mut app = Scripted::new(vec!["f"], 10);
    let mut ui = Ui::new();
    let key = Key { key: InputKey::Esc, modifiers: KeyModifiers::none(), character: None };
    runtime.tick(&mut app, &mut ui, Some(key)).unwrap();
    runtime.tick(&mut app, &mut ui, None).unwrap();
    assert_eq!(app.keys, [Some(key), None]);
}

#[test]
fn a_loop_that_ended_calls_nothing_more() {
    let mut runtime = AppRuntime::new();
    let mut app = Scripted::new(vec!["f"], 1);
    let mut ui = Ui::new();
    assert!(written(runtime.tick(&mut app, &mut ui, None).unwrap()).is_some());
    assert!(matches!(runtime.tick(&mut app, &mut ui, None).unwrap(), TickAction::Stop));
    assert!(matches!(runtime.tick(&mut app, &mut ui, None).unwrap(), TickAction::Stop));
    assert_eq!(app.updates, 2);
    assert_eq!(app.displays, 1);
    assert_eq!(ui.render().unwrap(), "f\n");
}

struct Banner;

impl App for Banner {
    fn display(&mut self, ui: &mut Ui) {
        ui.ascii_art("");
    }

    fn update(&mut self, _key: Option<Key>) -> bool {
        true
    }

    fn get_fps(&self) -> u32 {
        30
    }
}

#[test]
fn a_banner_that_cannot_be_drawn_fails_the_tick() {
    let mut runtime = AppRuntime::new();
    let mut ui = Ui::new();
    let error = runtime.tick(&mut Banner, &mut ui, None).unwrap_err();
    assert_eq!(error.details, "the banner font draws nothing of: ");
    assert!(runtime.is_running());
}

#[test]
fn an_empty_first_frame_is_not_written() {
    struct Nothing;
    impl App for Nothing {
        fn display(&mut self, _ui: &mut Ui) {}
        fn update(&mut self, _key: Option<Key>) -> bool {
            true
        }
        fn get_fps(&self) -> u32 {
            1
        }
    }
    let mut runtime = AppRuntime::new();
    let mut ui = Ui::new();
    assert!(matches!(runtime.tick(&mut Nothing, &mut ui, None).unwrap(), TickAction::Skip));
}

#[test]
fn present_writes_only_a_frame_that_differs() {
    let mut runtime = AppRuntime::new().with_title("title");
    assert_eq!(runtime.present(String::new()), None);
    assert_eq!(runtime.present(String::from("a")), Some(format!("{}a", CLEAR)));
    assert_eq!(runtime.present(String::from("a")), None);
    assert_eq!(runtime.present(String::from("b")), Some(format!("{}b", CLEAR)));
    assert!(runtime.settle(true));
    assert!(!runtime.settle(false));
    assert!(!runtime.settle(true));
    assert_eq!(runtime.present(String::from("c")), None);
    assert!(!runtime.is_running());
}

#[test]
fn the_frame_budget_is_a_second_divided_by_the_rate() {
    assert_eq!(AppRuntime::frame_budget_ms(60), 16);
    assert_eq!(AppRuntime::frame_budget_ms(30), 33);
    assert_eq!(AppRuntime::frame_budget_ms(1), 1000);
    assert_eq!(AppRuntime::frame_budget_ms(1000), 1);
    assert_eq!(AppRuntime::frame_budget_ms(1001), 0);
    assert_eq!(AppRuntime::frame_budget_ms(u32::MAX), 0);
    assert_eq!(AppRuntime::frame_budget_ms(0), 1000);
}
