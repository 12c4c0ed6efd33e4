//! The terminal as the editor addresses it: the size of the viewport and the
//! escape sequences that clear the screen, colour it and place the cursor.
//!
//! Nothing here writes to the device. Every operation returns the text that
//! the caller has to send to the terminal for the effect to take place.

use crate::cycle::Event;
use crate::cycle::EventView;
use crate::editor::Position;
use crate::key::Key;
use vstd::prelude::*;

verus! {

/// The viewport in cells.
#[derive(Clone, Copy, Debug, PartialEq, Eq, Structural)]
pub struct Size {
    pub width: u16,
    pub height: u16,
}

/// A 24-bit colour: red, green and blue.
#[derive(Clone, Copy, Debug, PartialEq, Eq, Structural)]
pub struct Rgb(pub u8, pub u8, pub u8);

/// The terminal session as far as the editor's logic depends on it: the
/// viewport that was measured when the session was opened.
pub struct Terminal {
    size: Size,
}

/// The rows that are held back at the bottom of the screen for the status and
/// message lines.
pub const RESERVED_ROWS: u16 = 2;

/// The decimal digit for `d`, where `d` is below ten.
pub open spec fn digit(d: nat) -> char {
    (48 + d) as char
}

/// `n` written in base ten, without leading zeros.
pub open spec fn decimal(n: nat) -> Seq<char>
    decreases n,
{
    if n < 10 {
        seq![digit(n)]
    } else {
        decimal(n / 10).push(digit(n % 10))
    }
}

/// The control sequence introducer, `ESC [`.
pub open spec fn csi() -> Seq<char> {
    seq!['\x1b', '[']
}

/// `ESC [ 2 J`: erase the whole screen.
pub open spec fn clear_screen_text() -> Seq<char> {
    csi() + seq!['2', 'J']
}

/// `ESC [ 2 K`: erase the line that the cursor is on.
pub open spec fn clear_line_text() -> Seq<char> {
    csi() + seq!['2', 'K']
}

/// `ESC [ ? 2 5 l`: hide the cursor.
pub open spec fn hide_cursor_text() -> Seq<char> {
    csi() + seq!['?', '2', '5', 'l']
}

/// `ESC [ ? 2 5 h`: show the cursor.
pub open spec fn show_cursor_text() -> Seq<char> {
    csi() + seq!['?', '2', '5', 'h']
}

/// `ESC [ row ; column H`: place the cursor, both coordinates counted from one.
pub open spec fn goto_text(column: nat, row: nat) -> Seq<char> {
    csi() + decimal(row) + seq![';'] + decimal(column) + seq!['H']
}

/// The three components of a colour, separated by semicolons.
pub open spec fn rgb_text(color: Rgb) -> Seq<char> {
    decimal(color.0 as nat) + seq![';'] + decimal(color.1 as nat) + seq![';'] + decimal(
        color.2 as nat,
    )
}

/// `ESC [ 3 8 ; 2 ; r ; g ; b m`: set the foreground colour.
pub open spec fn foreground_text(color: Rgb) -> Seq<char> {
    csi() + seq!['3', '8', ';', '2', ';'] + rgb_text(color) + seq!['m']
}

/// `ESC [ 4 8 ; 2 ; r ; g ; b m`: set the background colour.
pub open spec fn background_text(color: Rgb) -> Seq<char> {
    csi() + seq!['4', '8', ';', '2', ';'] + rgb_text(color) + seq!['m']
}

/// `ESC [ 3 9 m`: back to the default foreground colour.
pub open spec fn reset_foreground_text() -> Seq<char> {
    csi() + seq!['3', '9', 'm']
}

/// `ESC [ 4 9 m`: back to the default background colour.
pub open spec fn reset_background_text() -> Seq<char> {
    csi() + seq!['4', '9', 'm']
}

/// What `termion::clear::All` displays as. Trusted: the result is the
/// sequence `ESC [ 2 J`.
#[verifier::external_body]
fn clear_all() -> (text: String)
    ensures
        text@ == clear_screen_text(),
{
    format!("{}", termion::clear::All)
}

/// What `termion::clear::CurrentLine` displays as. Trusted: the result is the
/// sequence `ESC [ 2 K`.
#[verifier::external_body]
fn clear_line() -> (text: String)
    ensures
        text@ == clear_line_text(),
{
    format!("{}", termion::clear::CurrentLine)
}

/// What `termion::cursor::Hide` displays as. Trusted: the result is the
/// sequence `ESC [ ? 2 5 l`.
#[verifier::external_body]
fn cursor_hidden() -> (text: String)
    ensures
        text@ == hide_cursor_text(),
{
    format!("{}", termion::cursor::Hide)
}

/// What `termion::cursor::Show` displays as. Trusted: the result is the
/// sequence `ESC [ ? 2 5 h`.
#[verifier::external_body]
fn cursor_shown() -> (text: String)
    ensures
        text@ == show_cursor_text(),
{
    format!("{}", termion::cursor::Show)
}

/// What `termion::cursor::Goto` displays as. Trusted: the result is `ESC [`,
/// the row in decimal, `;`, the column in decimal, `H`. The call is left out
/// for the one value that `Goto` rejects, both coordinates zero.
#[verifier::external_body]
fn cursor_goto(column: u16, row: u16) -> (text: String)
    requires
        column != 0 || row != 0,
    ensures
        text@ == goto_text(column as nat, row as nat),
{
    format!("{}", termion::cursor::Goto(column, row))
}

/// What `termion::color::Fg` displays as for a `termion::color::Rgb`.
/// Trusted: the result is `ESC [ 3 8 ; 2 ;`, the three components in decimal
/// with `;` between them, `m`.
#[verifier::external_body]
fn foreground(color: Rgb) -> (text: String)
    ensures
        text@ == foreground_text(color),
{
    format!("{}", termion::color::Fg(termion::color::Rgb(color.0, color.1, color.2)))
}

/// What `termion::color::Bg` displays as for a `termion::color::Rgb`.
/// Trusted: the result is `ESC [ 4 8 ; 2 ;`, the three components in decimal
/// with `;` between them, `m`.
#[verifier::external_body]
fn background(color: Rgb) -> (text: String)
    ensures
        text@ == background_text(color),
{
    format!("{}", termion::color::Bg(termion::color::Rgb(color.0, color.1, color.2)))
}

/// What `termion::color::Fg` displays as for `termion::color::Reset`.
/// Trusted: the result is the sequence `ESC [ 3 9 m`.
#[verifier::external_body]
fn foreground_reset() -> (text: String)
    ensures
        text@ == reset_foreground_text(),
{
    format!("{}", termion::color::Fg(termion::color::Reset))
}

/// What `termion::color::Bg` displays as for `termion::color::Reset`.
/// Trusted: the result is the sequence `ESC [ 4 9 m`.
#[verifier::external_body]
fn background_reset() -> (text: String)
    ensures
        text@ == reset_background_text(),
{
    format!("{}", termion::color::Bg(termion::color::Reset))
}

impl View for Terminal {
    type V = Size;

    /// A terminal is seen as the viewport it was opened with.
    closed spec fn view(&self) -> Size {
        self.size
    }
}

impl Terminal {
    /// Sets up the session for a device that reports `columns` by `rows`
    /// cells. The viewport keeps every column and all rows but the reserved
    /// ones; a device with fewer rows than that has a viewport of height zero.
    pub fn default(columns: u16, rows: u16) -> (terminal: Terminal)
        ensures
            terminal@.width == columns,
            terminal@.height == if rows >= RESERVED_ROWS {
                rows - RESERVED_ROWS
            } else {
                0
            },
    {
        Terminal { size: Size { width: columns, height: rows.saturating_sub(RESERVED_ROWS) } }
    }

    /// The viewport, as measured when the session was set up.
    pub fn size(&self) -> (size: &Size)
        ensures
            *size == self@,
    {
        &self.size
    }

    /// The text that erases the whole screen.
    pub fn clear_screen() -> (text: String)
        ensures
            text@ == clear_screen_text(),
    {
        clear_all()
    }

    /// The text that places the cursor on the cell `position`, which counts
    /// columns and rows from zero; the device counts them from one.
    pub fn cursor_position(position: &Position) -> (text: String)
        requires
            position.x < u16::MAX,
            position.y < u16::MAX,
        ensures
            text@ == goto_text((position.x + 1) as nat, (position.y + 1) as nat),
    {
        let x: usize = position.x.saturating_add(1);
        let y: usize = position.y.saturating_add(1);
        cursor_goto(x as u16, y as u16)
    }

    /// Decides on what one look at the keyboard has brought: nothing yet, so
    /// the caller looks again; a key; or an error with its message, which
    /// ends the wait as a failure.
    pub fn read_key(polled: Option<Result<Key, String>>) -> (event: Option<Event>)
        ensures
            polled is None ==> event is None,
            polled matches Some(Ok(key)) ==> event matches Some(found) && found@
                == EventView::KeyPressed(key),
            polled matches Some(Err(error)) ==> event matches Some(found) && found@
                == EventView::Failed(error@),
    {
        match polled {
            None => None,
            Some(Ok(key)) => Some(Event::KeyPressed(key)),
            Some(Err(error)) => Some(Event::Failed(error)),
        }
    }

    /// The text that hides the cursor.
    pub fn cursor_hide() -> (text: String)
        ensures
            text@ == hide_cursor_text(),
    {
        cursor_hidden()
    }

    /// The text that shows the cursor again.
    pub fn cursor_show() -> (text: String)
        ensures
            text@ == show_cursor_text(),
    {
        cursor_shown()
    }

    /// The text that erases the line the cursor is on.
    pub fn clear_current_line() -> (text: String)
        ensures
            text@ == clear_line_text(),
    {
        clear_line()
    }

    /// The text that sets the background colour.
    pub fn set_bg_color(color: Rgb) -> (text: String)
        ensures
            text@ == background_text(color),
    {
        background(color)
    }

    /// The text that restores the default background colour.
    pub fn reset_bg_color() -> (text: String)
        ensures
            text@ == reset_background_text(),
    {
        background_reset()
    }

    /// The text that sets the foreground colour.
    pub fn set_fg_color(color: Rgb) -> (text: String)
        ensures
            text@ == foreground_text(color),
    {
        foreground(color)
    }

    /// The text that restores the default foreground colour.
    pub fn reset_fg_color() -> (text: String)
        ensures
            text@ == reset_foreground_text(),
    {
        foreground_reset()
    }
}

} // verus!
