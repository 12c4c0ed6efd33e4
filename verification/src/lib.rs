//! The core of a small full-screen terminal text editor.
//!
//! The crate holds what the editor decides and computes: how a key moves the
//! cursor inside the viewport, which bytes make up a frame, and how the
//! read-render cycle proceeds from one event to the next. Driving the
//! terminal device itself (raw mode, reading keys, writing and flushing) is
//! left to the program that embeds this library.

pub mod cycle;
pub mod editor;
pub mod key;
pub mod laws;
pub mod terminal;

pub use cycle::die;
pub use cycle::Action;
pub use cycle::Event;
pub use editor::Editor;
pub use editor::Position;
pub use key::Key;
pub use terminal::Rgb;
pub use terminal::Size;
pub use terminal::Terminal;
