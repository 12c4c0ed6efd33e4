//! The read-render cycle as a state machine.
//!
//! The program around the editor performs what an [`Action`] asks for and
//! hands back what happened as the next [`Event`]; [`Editor::step`] decides
//! everything in between. [`Editor::run`] plays the same cycle over keys that
//! were recorded beforehand.

use crate::editor::frame_text;
use crate::editor::Editor;
use crate::editor::EditorState;
use crate::key::Key;
use crate::terminal::clear_screen_text;
use crate::terminal::Terminal;
use vstd::prelude::*;

verus! {

/// What happened at the terminal since the last action.
#[derive(Debug, PartialEq, Eq)]
pub enum Event {
    /// Nothing yet: the cycle begins.
    Started,
    /// A key was read.
    KeyPressed(Key),
    /// Writing a frame or reading a key failed, with the error's message.
    Failed(String),
}

/// An [`Event`] as the contracts speak of it.
pub enum EventView {
    Started,
    KeyPressed(Key),
    Failed(Seq<char>),
}

impl View for Event {
    type V = EventView;

    open spec fn view(&self) -> EventView {
        match self {
            Event::Started => EventView::Started,
            Event::KeyPressed(key) => EventView::KeyPressed(*key),
            Event::Failed(error) => EventView::Failed(error@),
        }
    }
}

/// What the program has to do next.
#[derive(Debug, PartialEq, Eq)]
pub enum Action {
    /// Write the frame and flush, then read one key.
    Draw(String),
    /// Write the closing frame and flush, then leave. No key is read.
    Finish(String),
    /// Write `screen`, not minding whether that succeeds, and terminate
    /// abruptly with `message`.
    Abort { screen: String, message: String },
}

/// An [`Action`] as the contracts speak of it.
pub enum ActionView {
    Draw(Seq<char>),
    Finish(Seq<char>),
    Abort { screen: Seq<char>, message: Seq<char> },
}

impl View for Action {
    type V = ActionView;

    open spec fn view(&self) -> ActionView {
        match self {
            Action::Draw(frame) => ActionView::Draw(frame@),
            Action::Finish(frame) => ActionView::Finish(frame@),
            Action::Abort { screen, message } => ActionView::Abort {
                screen: screen@,
                message: message@,
            },
        }
    }
}

/// The state after `event`: a key takes effect, anything else changes
/// nothing.
pub open spec fn after_event(state: EditorState, event: EventView) -> EditorState {
    match event {
        EventView::KeyPressed(key) => state.after_key(key),
        _ => state,
    }
}

/// One render of `state`: the closing frame, after which the cycle ends, once
/// the editor is quitting; else a frame that is followed by a key read.
pub open spec fn render_action(state: EditorState, version: Seq<char>) -> ActionView {
    if state.should_quit {
        ActionView::Finish(frame_text(state, version))
    } else {
        ActionView::Draw(frame_text(state, version))
    }
}

/// The end that a failure brings: the screen is erased and the error's
/// message is what the program dies with.
pub open spec fn abort_action(error: Seq<char>) -> ActionView {
    ActionView::Abort { screen: clear_screen_text(), message: error }
}

/// What follows `event`, where `state` is the state that the event has left:
/// a failure is fatal, anything else is answered by exactly one render.
pub open spec fn next_action(state: EditorState, event: EventView, version: Seq<char>)
    -> ActionView {
    match event {
        EventView::Failed(error) => abort_action(error),
        _ => render_action(state, version),
    }
}

/// The frames that a cycle writes which starts in `state` and finds `keys`
/// at the keyboard, in order: one for the state as it stands, and while the
/// editor is not quitting and keys are left, one more after each key.
pub open spec fn run_frames(state: EditorState, keys: Seq<Key>, version: Seq<char>) -> Seq<
    Seq<char>,
>
    decreases keys.len(),
{
    if state.should_quit || keys.len() == 0 {
        seq![frame_text(state, version)]
    } else {
        seq![frame_text(state, version)] + run_frames(
            state.after_key(keys.first()),
            keys.drop_first(),
            version,
        )
    }
}

/// How many of `keys` such a cycle reads.
pub open spec fn run_reads(state: EditorState, keys: Seq<Key>) -> nat
    decreases keys.len(),
{
    if state.should_quit || keys.len() == 0 {
        0
    } else {
        1 + run_reads(state.after_key(keys.first()), keys.drop_first())
    }
}

/// The state in which such a cycle stops.
pub open spec fn run_state(state: EditorState, keys: Seq<Key>) -> EditorState
    decreases keys.len(),
{
    if state.should_quit || keys.len() == 0 {
        state
    } else {
        run_state(state.after_key(keys.first()), keys.drop_first())
    }
}

/// The end of the program on an error: the action that erases the screen and
/// carries the error's message.
pub fn die(error: String) -> (action: Action)
    ensures
        action@ == abort_action(error@),
{
    Action::Abort { screen: Terminal::clear_screen(), message: error }
}

impl Editor {
    /// One render of the editor as it stands, with what follows it.
    fn render(&self, version: &str) -> (action: Action)
        ensures
            action@ == render_action(self@, version@),
    {
        let frame = self.refresh_screen(version);
        if self.should_quit() {
            Action::Finish(frame)
        } else {
            Action::Draw(frame)
        }
    }

    /// Takes `event` in and says what the program has to do next.
    pub fn step(&mut self, event: Event, version: &str) -> (action: Action)
        ensures
            final(self)@ == after_event(old(self)@, event@),
            action@ == next_action(final(self)@, event@, version@),
    {
        match event {
            Event::Started => self.render(version),
            Event::KeyPressed(key) => {
                self.process_keypress(key);
                self.render(version)
            },
            Event::Failed(error) => die(error),
        }
    }

    /// Plays the cycle over `keys`, which stand for what the keyboard
    /// delivers, and returns the frames in the order in which they are
    /// written. The cycle stops after the closing frame, or, while the editor
    /// is still running, after the frame that follows the last key.
    pub fn run(&mut self, keys: &Vec<Key>, version: &str) -> (frames: Vec<String>)
        ensures
            final(self)@ == run_state(old(self)@, keys@),
            frames.deep_view() == run_frames(old(self)@, keys@, version@),
            frames@.len() == run_reads(old(self)@, keys@) + 1,
    {
        let mut frames: Vec<String> = Vec::new();
        let mut read: usize = 0;
        assert(keys@.skip(0) =~= keys@);
        assert(frames.deep_view() =~= Seq::<Seq<char>>::empty());
        loop
            invariant_except_break
                read <= keys@.len(),
                frames@.len() == read,
                run_state(old(self)@, keys@) == run_state(self@, keys@.skip(read as int)),
                run_frames(old(self)@, keys@, version@) == frames.deep_view() + run_frames(
                    self@,
                    keys@.skip(read as int),
                    version@,
                ),
                run_reads(old(self)@, keys@) == read + run_reads(self@, keys@.skip(read as int)),
            ensures
                self@ == run_state(old(self)@, keys@),
                frames.deep_view() == run_frames(old(self)@, keys@, version@),
                frames@.len() == run_reads(old(self)@, keys@) + 1,
            decreases keys@.len() - read,
        {
            let ghost drawn = frames.deep_view();
            let ghost rest = keys@.skip(read as int);
            let ghost state = self@;
            let frame = self.refresh_screen(version);
            frames.push(frame);
            assert(frames.deep_view() =~= drawn + seq![frame_text(state, version@)]);
            if self.should_quit() || read >= keys.len() {
                break ;
            }
            self.process_keypress(keys[read]);
            read = read + 1;
            assert(rest.drop_first() =~= keys@.skip(read as int));
            assert(frames.deep_view() + run_frames(self@, keys@.skip(read as int), version@)
                =~= drawn + run_frames(state, rest, version@));
        }
        frames
    }
}

} // verus!
