//! The frame loop's decisions: how long a frame lasts, when the loop ends,
//! and whether a frame is written to the screen.

use vstd::prelude::*;
use vstd::string::*;
use crate::components::BannerRenderError;
use crate::inputs::{InputHandler, Key};
use crate::ui::{frame_of, Ui};

verus! {

/// An application that the frame loop drives.
pub trait App {
    /// Fills `ui`, which is empty, with the components of the next frame.
    fn display(&mut self, ui: &mut Ui);

    /// Takes the key of this tick, if there was one, and says whether the
    /// loop goes on.
    fn update(&mut self, key: Option<Key>) -> bool;

    /// The frames per second that the application asks for.
    fn get_fps(&self) -> u32;
}

/// The sequence that clears the screen and the scrollback and homes the
/// cursor.
pub open spec fn clear_screen_code() -> Seq<char> {
    "\x1b[2J\x1b[3J\x1b[1;1H"@
}

/// What the loop does at the end of a tick.
#[derive(Debug)]
pub enum TickAction {
    /// The loop ends; nothing is drawn.
    Stop,
    /// The string is written to the screen: the clear sequence and the frame.
    Draw(String),
    /// The frame is the one on the screen; nothing is written.
    Skip,
}

/// What the loop is: whether it runs, and the frame it wrote last.
pub struct RuntimeView {
    pub running: bool,
    pub last_frame: Seq<char>,
}

impl RuntimeView {
    /// The loop after the application's answer to `update`: it runs where
    /// it ran and the answer is yes.
    pub open spec fn settled(self, keep_running: bool) -> RuntimeView {
        RuntimeView { running: self.running && keep_running, ..self }
    }

    /// Whether `frame` is written: the loop runs, and the frame differs
    /// from the one written last.
    pub open spec fn writes(self, frame: Seq<char>) -> bool {
        self.running && frame != self.last_frame
    }

    /// The loop after `frame` was presented: it remembers the frame where
    /// it writes it.
    pub open spec fn presented(self, frame: Seq<char>) -> RuntimeView {
        if self.writes(frame) {
            RuntimeView { last_frame: frame, ..self }
        } else {
            self
        }
    }
}

/// The state that the frame loop carries from tick to tick.
#[derive(Debug)]
pub struct AppRuntime {
    input: InputHandler,
    running: bool,
    last_frame: String,
}

impl View for AppRuntime {
    type V = RuntimeView;

    closed spec fn view(&self) -> RuntimeView {
        RuntimeView { running: self.running, last_frame: self.last_frame@ }
    }
}

impl AppRuntime {
    /// A loop that runs and has written nothing.
    pub fn new() -> (runtime: Self)
        ensures
            runtime@.running,
            runtime@.last_frame == Seq::<char>::empty(),
    {
        Self { input: InputHandler::new(), running: true, last_frame: String::new() }
    }

    /// The same loop; the title is not used.
    pub fn with_title(self, _title: &str) -> (runtime: Self)
        ensures
            runtime@ == self@,
    {
        self
    }

    /// The decoder of the loop's key events.
    pub fn input(&self) -> &InputHandler {
        &self.input
    }

    /// Whether the loop has not ended.
    pub fn is_running(&self) -> (running: bool)
        ensures
            running == self@.running,
    {
        self.running
    }

    /// The whole milliseconds that one frame lasts at `fps` frames per
    /// second. A rate of zero is taken as one.
    pub fn frame_budget_ms(fps: u32) -> (ms: u64)
        ensures
            fps == 0 ==> ms == 1000,
            fps > 0 ==> ms == 1000int / (fps as int),
    {
        let rate: u32 = if fps == 0 {
            1
        } else {
            fps
        };
        (1000 / rate) as u64
    }

    /// Takes the application's answer to `update`. The loop goes on where
    /// it ran and the answer is yes; any other way it has ended, for good.
    pub fn settle(&mut self, keep_running: bool) -> (go_on: bool)
        ensures
            final(self)@ == old(self)@.settled(keep_running),
            go_on == final(self)@.running,
    {
        if !keep_running {
            self.running = false;
        }
        self.running
    }

    /// Takes the frame that the application displayed. Where the loop runs
    /// and the frame differs from the one written last, it is remembered and
    /// handed back behind the clear sequence, to be written; else nothing is
    /// to be written and nothing changes.
    pub fn present(&mut self, frame: String) -> (output: Option<String>)
        ensures
            final(self)@ == old(self)@.presented(frame@),
            output is Some <==> old(self)@.writes(frame@),
            output matches Some(written) ==> written@ == clear_screen_code() + frame@,
    {
        if !self.running || frame == self.last_frame {
            return None;
        }
        let mut written = "\x1b[2J\x1b[3J\x1b[1;1H".to_owned();
        written.append(frame.as_str());
        self.last_frame = frame;
        Some(written)
    }

    /// One tick of the loop, after the poll for a key: the application is
    /// updated with `key`; where it asks to stop, the loop ends and nothing
    /// more happens. Else the frame is emptied, displayed anew and drawn, and
    /// written only where it differs from the one written last. A loop that
    /// has ended stays so, and calls nothing.
    pub fn tick<A: App>(&mut self, app: &mut A, ui: &mut Ui, key: Option<Key>) -> (result: Result<
        TickAction,
        BannerRenderError,
    >)
        ensures
            !old(self)@.running ==> result matches Ok(TickAction::Stop),
            match result {
                Ok(TickAction::Stop) => {
                    &&& !final(self)@.running
                    &&& final(self)@.last_frame == old(self)@.last_frame
                    &&& *final(ui) == *old(ui)
                },
                Ok(TickAction::Draw(written)) => {
                    &&& final(self)@.running
                    &&& frame_of(final(ui)@) == Ok::<Seq<char>, Seq<char>>(final(self)@.last_frame)
                    &&& final(self)@.last_frame != old(self)@.last_frame
                    &&& written@ == clear_screen_code() + final(self)@.last_frame
                },
                Ok(TickAction::Skip) => {
                    &&& final(self)@ == old(self)@
                    &&& final(self)@.running
                    &&& frame_of(final(ui)@) == Ok::<Seq<char>, Seq<char>>(final(self)@.last_frame)
                },
                Err(error) => {
                    &&& final(self)@ == old(self)@
                    &&& final(self)@.running
                    &&& frame_of(final(ui)@) == Err::<Seq<char>, Seq<char>>(error.details@)
                },
            },
    {
        if !self.running {
            return Ok(TickAction::Stop);
        }
        let keep_running = app.update(key);
        if !self.settle(keep_running) {
            return Ok(TickAction::Stop);
        }
        ui.clear();
        app.display(ui);
        match ui.render() {
            Ok(frame) => match self.present(frame) {
                Some(written) => Ok(TickAction::Draw(written)),
                None => Ok(TickAction::Skip),
            },
            Err(error) => Err(error),
        }
    }
}

/// A frame presented twice in a row is written once at most: after the
/// first time, the second writes nothing and changes nothing.
pub proof fn lemma_same_frame_is_written_once(runtime: RuntimeView, frame: Seq<char>)
    ensures
        !runtime.presented(frame).writes(frame),
        runtime.presented(frame).presented(frame) == runtime.presented(frame),
{
}

/// Once the application has asked to stop, the loop has ended for good:
/// no answer starts it again, and no frame is written.
pub proof fn lemma_stop_is_final(runtime: RuntimeView, keep_running: bool, frame: Seq<char>)
    ensures
        !runtime.settled(false).running,
        !runtime.settled(false).settled(keep_running).running,
        !runtime.settled(false).writes(frame),
        runtime.settled(false).presented(frame) == runtime.settled(false),
{
}

} // verus!
