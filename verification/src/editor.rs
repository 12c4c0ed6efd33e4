//! The editor: the cursor, how keys move it, and what a frame looks like.

use crate::key::Key;
use crate::terminal::clear_line_text;
use crate::terminal::clear_screen_text;
use crate::terminal::goto_text;
use crate::terminal::hide_cursor_text;
use crate::terminal::show_cursor_text;
use crate::terminal::Size;
use crate::terminal::Terminal;
use vstd::prelude::*;
use vstd::string::*;

verus! {

/// A cell of the viewport, column `x` and row `y`, both counted from zero.
#[derive(Clone, Copy, Debug, PartialEq, Eq, Structural)]
pub struct Position {
    pub x: usize,
    pub y: usize,
}

/// The last column that the cursor may stand on.
pub open spec fn last_column(size: Size) -> usize {
    if size.width == 0 {
        0
    } else {
        (size.width - 1) as usize
    }
}

/// The last row that the cursor may stand on.
pub open spec fn last_row(size: Size) -> usize {
    if size.height == 0 {
        0
    } else {
        (size.height - 1) as usize
    }
}

/// Whether `position` lies inside a viewport of this size.
pub open spec fn within(position: Position, size: Size) -> bool {
    position.x <= last_column(size) && position.y <= last_row(size)
}

/// Where the cursor stands after `key`, starting from `position`.
///
/// Arrows move by one cell and stop at the edge; `PageUp` and `PageDown` jump
/// to the first and last row, `Home` and `End` to the first and last column.
/// Any other key leaves the cursor where it is.
pub open spec fn moved(position: Position, size: Size, key: Key) -> Position {
    let Position { x, y } = position;
    match key {
        Key::Up => Position { x, y: if y > 0 { (y - 1) as usize } else { 0 } },
        Key::Down => Position { x, y: if y < last_row(size) { (y + 1) as usize } else { y } },
        Key::Left => Position { x: if x > 0 { (x - 1) as usize } else { 0 }, y },
        Key::Right => Position { x: if x < last_column(size) { (x + 1) as usize } else { x }, y },
        Key::PageUp => Position { x, y: 0 },
        Key::PageDown => Position { x, y: last_row(size) },
        Key::Home => Position { x: 0, y },
        Key::End => Position { x: last_column(size), y },
        _ => position,
    }
}

/// `count` blanks.
pub open spec fn spaces(count: nat) -> Seq<char> {
    Seq::new(count, |i: int| ' ')
}

/// The banner for `version`: the editor's name and the version it runs as.
pub open spec fn banner(version: Seq<char>) -> Seq<char> {
    "Hecto editor --version "@ + version
}

/// Half of the room that a text of `length` characters leaves on a line of
/// `width` cells; zero where it leaves none.
pub open spec fn welcome_padding(width: nat, length: nat) -> nat {
    if width > length {
        (width - length) as nat / 2
    } else {
        0
    }
}

/// The welcome line before it is cut to the viewport: a tilde, the blanks
/// that centre the banner, one fewer than the padding to make up for the
/// tilde, and the banner.
pub open spec fn welcome_line(width: nat, version: Seq<char>) -> Seq<char> {
    let padding = welcome_padding(width, banner(version).len());
    seq!['~'] + spaces(if padding > 0 { (padding - 1) as nat } else { 0 }) + banner(version)
}

/// The welcome line as it is shown: cut to `width` characters where it is
/// longer, whole otherwise.
pub open spec fn welcome_message(width: nat, version: Seq<char>) -> Seq<char> {
    let line = welcome_line(width, version);
    if line.len() > width {
        line.take(width as int)
    } else {
        line
    }
}

/// The row that carries the welcome message, a third of the way down.
pub open spec fn welcome_row(size: Size) -> nat {
    (size.height / 3) as nat
}

/// How many rows are drawn: all but the last, which stays free.
pub open spec fn drawn_rows(size: Size) -> nat {
    if size.height == 0 {
        0
    } else {
        (size.height - 1) as nat
    }
}

/// What is sent for row `row`: the line is erased, then comes the welcome
/// message or a tilde, then the end of the line.
pub open spec fn row_text(size: Size, version: Seq<char>, row: nat) -> Seq<char> {
    clear_line_text() + (if row == welcome_row(size) {
        welcome_message(size.width as nat, version)
    } else {
        seq!['~']
    }) + seq!['\r', '\n']
}

/// What is sent for the first `count` rows, from the top down.
pub open spec fn rows_text(size: Size, version: Seq<char>, count: nat) -> Seq<char>
    decreases count,
{
    if count == 0 {
        Seq::empty()
    } else {
        rows_text(size, version, (count - 1) as nat) + row_text(
            size,
            version,
            (count - 1) as nat,
        )
    }
}

/// What the frame shows between hiding the cursor and showing it again: the
/// farewell once the editor is quitting, else the rows and the cursor.
pub open spec fn frame_body(state: EditorState, version: Seq<char>) -> Seq<char> {
    if state.should_quit {
        clear_screen_text() + "Goodbye.\r\n"@
    } else {
        rows_text(state.size, version, drawn_rows(state.size)) + goto_text(
            (state.cursor_position.x + 1) as nat,
            (state.cursor_position.y + 1) as nat,
        )
    }
}

/// A whole frame: the cursor is hidden, the screen erased and the cursor sent
/// to the origin; the body is drawn; only then is the cursor shown again.
pub open spec fn frame_text(state: EditorState, version: Seq<char>) -> Seq<char> {
    hide_cursor_text() + clear_screen_text() + goto_text(1, 1) + frame_body(state, version)
        + show_cursor_text()
}

/// The editor's state as the contracts speak of it.
pub struct EditorState {
    /// Whether the quit command has been given.
    pub should_quit: bool,
    /// The viewport of the terminal that the editor draws on.
    pub size: Size,
    /// Where the cursor stands.
    pub cursor_position: Position,
}

impl EditorState {
    /// The cursor stands inside the viewport.
    pub open spec fn wf(self) -> bool {
        within(self.cursor_position, self.size)
    }

    /// The state after the cursor has followed `key`.
    pub open spec fn after_move(self, key: Key) -> EditorState {
        EditorState { cursor_position: moved(self.cursor_position, self.size, key), ..self }
    }

    /// The state after `key` has been pressed: `Ctrl('q')` asks to quit, a
    /// navigation key moves the cursor, any other key changes nothing.
    pub open spec fn after_key(self, key: Key) -> EditorState {
        if key.is_quit() {
            EditorState { should_quit: true, ..self }
        } else if key.is_navigation() {
            self.after_move(key)
        } else {
            self
        }
    }
}

/// The editor.
pub struct Editor {
    /// The quit command has been given.
    should_quit: bool,
    /// The terminal that the editor draws on.
    terminal: Terminal,
    /// Where the cursor stands.
    cursor_position: Position,
}

impl View for Editor {
    type V = EditorState;

    closed spec fn view(&self) -> EditorState {
        EditorState {
            should_quit: self.should_quit,
            size: self.terminal@,
            cursor_position: self.cursor_position,
        }
    }
}

impl Editor {
    /// Every editor keeps its cursor inside the viewport.
    #[verifier::type_invariant]
    spec fn cursor_in_viewport(&self) -> bool {
        within(self.cursor_position, self.terminal@)
    }

    /// A running editor on `terminal`, with the cursor in the top left cell.
    pub fn default(terminal: Terminal) -> (editor: Editor)
        ensures
            editor@ == (EditorState {
                should_quit: false,
                size: terminal@,
                cursor_position: Position { x: 0, y: 0 },
            }),
            editor@.wf(),
    {
        Editor { should_quit: false, terminal, cursor_position: Position { x: 0, y: 0 } }
    }

    /// Whether the quit command has been given.
    pub fn should_quit(&self) -> (quitting: bool)
        ensures
            quitting == self@.should_quit,
    {
        self.should_quit
    }

    /// The terminal that the editor draws on.
    pub fn terminal(&self) -> (terminal: &Terminal)
        ensures
            terminal@ == self@.size,
    {
        &self.terminal
    }

    /// Where the cursor stands: always on a cell of the viewport.
    pub fn cursor_position(&self) -> (position: &Position)
        ensures
            *position == self@.cursor_position,
            within(*position, self@.size),
    {
        proof {
            use_type_invariant(self);
        }
        &self.cursor_position
    }

    /// Moves the cursor according to `key`.
    pub fn move_cursor(&mut self, key: Key)
        ensures
            final(self)@ == old(self)@.after_move(key),
            final(self)@.wf(),
    {
        proof {
            use_type_invariant(&*self);
        }
        let Position { mut y, mut x } = self.cursor_position;
        let size = self.terminal.size();
        let height: usize = size.height.saturating_sub(1) as usize;
        let width: usize = size.width.saturating_sub(1) as usize;
        match key {
            Key::Up => y = y.saturating_sub(1),
            Key::Down => {
                if y < height {
                    y = y.saturating_add(1);
                }
            },
            Key::Left => x = x.saturating_sub(1),
            Key::Right => {
                if x < width {
                    x = x.saturating_add(1);
                }
            },
            Key::PageUp => y = 0,
            Key::PageDown => y = height,
            Key::Home => x = 0,
            Key::End => x = width,
            _ => (),
        }
        self.cursor_position = Position { x, y };
    }

    /// Handles one key that was read from the keyboard.
    pub fn process_keypress(&mut self, pressed_key: Key)
        ensures
            final(self)@ == old(self)@.after_key(pressed_key),
            final(self)@.wf(),
    {
        proof {
            use_type_invariant(&*self);
        }
        match pressed_key {
            Key::Ctrl('q') => self.should_quit = true,
            Key::Up
            | Key::Down
            | Key::Left
            | Key::Right
            | Key::PageUp
            | Key::PageDown
            | Key::End
            | Key::Home => self.move_cursor(pressed_key),
            _ => (),
        }
    }

    /// The welcome line for `version`, cut to the viewport's width.
    pub fn draw_welcome_message(&self, version: &str) -> (text: String)
        ensures
            text@ == welcome_message(self@.size.width as nat, version@),
    {
        let mut welcome_message = String::from_str("Hecto editor --version ");
        welcome_message.append(version);
        proof {
            reveal_strlit("~");
            reveal_strlit(" ");
        }
        let width: usize = self.terminal.size().width as usize;
        let len: usize = welcome_message.as_str().unicode_len();
        let padding: usize = width.saturating_sub(len) / 2;
        let blanks: usize = padding.saturating_sub(1);
        let mut line = String::from_str("~");
        let mut count: usize = 0;
        while count < blanks
            invariant
                count <= blanks,
                line@ == seq!['~'] + spaces(count as nat),
                " "@ == seq![' '],
            decreases blanks - count,
        {
            line.append(" ");
            count = count + 1;
            assert(line@ =~= seq!['~'] + spaces(count as nat));
        }
        line.append(welcome_message.as_str());
        if line.as_str().unicode_len() > width {
            String::from_str(line.as_str().substring_char(0, width))
        } else {
            line
        }
    }

    /// The rows of the viewport, from the top down, but for the last one.
    pub fn draw_rows(&self, version: &str) -> (text: String)
        ensures
            text@ == rows_text(self@.size, version@, drawn_rows(self@.size)),
    {
        let height: u16 = self.terminal.size().height;
        let rows: u16 = height.saturating_sub(1);
        let mut text = String::new();
        let mut row: u16 = 0;
        proof {
            reveal_strlit("~\r\n");
            reveal_strlit("\r\n");
        }
        while row < rows
            invariant
                row <= rows,
                rows == drawn_rows(self@.size),
                height == self@.size.height,
                text@ == rows_text(self@.size, version@, row as nat),
                "~\r\n"@ == seq!['~'] + seq!['\r', '\n'],
                "\r\n"@ == seq!['\r', '\n'],
            decreases rows - row,
        {
            let ghost before = text@;
            text.append(Terminal::clear_current_line().as_str());
            if row == height / 3 {
                text.append(self.draw_welcome_message(version).as_str());
                text.append("\r\n");
            } else {
                text.append("~\r\n");
            }
            assert(text@ =~= before + row_text(self@.size, version@, row as nat));
            row = row + 1;
        }
        text
    }

    /// The frame that shows the editor as it stands.
    pub fn refresh_screen(&self, version: &str) -> (text: String)
        ensures
            text@ == frame_text(self@, version@),
    {
        proof {
            use_type_invariant(self);
        }
        let mut text = Terminal::cursor_hide();
        text.append(Terminal::clear_screen().as_str());
        text.append(Terminal::cursor_position(&Position { x: 0, y: 0 }).as_str());
        let ghost head = text@;
        if self.should_quit {
            text.append(Terminal::clear_screen().as_str());
            text.append("Goodbye.\r\n");
        } else {
            text.append(self.draw_rows(version).as_str());
            text.append(Terminal::cursor_position(&self.cursor_position).as_str());
        }
        assert(text@ =~= head + frame_body(self@, version@));
        text.append(Terminal::cursor_show().as_str());
        text
    }
}

} // verus!
