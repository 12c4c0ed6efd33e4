use hecto::Event;
use hecto::Key;
use hecto::Position;
use hecto::Rgb;
use hecto::Size;
use hecto::Terminal;

#[test]
fn default_reserves_two_rows() {
    let terminal = Terminal::default(80, 24);
    assert_eq!(*terminal.size(), Size { width: 80, height: 22 });
}

#[test]
fn default_on_a_short_device_has_no_rows() {
    assert_eq!(*Terminal::default(80, 2).size(), Size { width: 80, height: 0 });
    assert_eq!(*Terminal::default(80, 1).size(), Size { width: 80, height: 0 });
    assert_eq!(*Terminal::default(0, 0).size(), Size { width: 0, height: 0 });
    assert_eq!(*Terminal::default(7, 3).size(), Size { width: 7, height: 1 });
}

#[test]
fn default_keeps_the_largest_device() {
    let terminal = Terminal::default(u16::MAX, u16::MAX);
    assert_eq!(*terminal.size(), Size { width: 65535, height: 65533 });
}

#[test]
fn clear_screen_is_erase_display() {
    assert_eq!(Terminal::clear_screen(), "\x1b[2J");
}

#[test]
fn clear_current_line_is_erase_line() {
    assert_eq!(Terminal::clear_current_line(), "\x1b[2K");
}

#[test]
fn cursor_hide_and_show_are_paired() {
    assert_eq!(Terminal::cursor_hide(), "\x1b[?25l");
    assert_eq!(Terminal::cursor_show(), "\x1b[?25h");
}

#[test]
fn cursor_position_of_origin_is_one_one() {
    assert_eq!(Terminal::cursor_position(&Position { x: 0, y: 0 }), "\x1b[1;1H");
}

#[test]
fn cursor_position_puts_the_row_first() {
    assert_eq!(Terminal::cursor_position(&Position { x: 4, y: 9 }), "\x1b[10;5H");
}

#[test]
fn cursor_position_writes_every_digit() {
    assert_eq!(Terminal::cursor_position(&Position { x: 99, y: 1233 }), "\x1b[1234;100H");
    assert_eq!(
        Terminal::cursor_position(&Position { x: 65534, y: 65534 }),
        "\x1b[65535;65535H"
    );
    assert_eq!(Terminal::cursor_position(&Position { x: 9, y: 0 }), "\x1b[1;10H");
}

#[test]
fn set_fg_color_is_truecolor_foreground() {
    assert_eq!(Terminal::set_fg_color(Rgb(1, 2, 3)), "\x1b[38;2;1;2;3m");
    assert_eq!(Terminal::set_fg_color(Rgb(63, 63, 63)), "\x1b[38;2;63;63;63m");
}

#[test]
fn set_bg_color_is_truecolor_background() {
    assert_eq!(Terminal::set_bg_color(Rgb(255, 128, 0)), "\x1b[48;2;255;128;0m");
    assert_eq!(Terminal::set_bg_color(Rgb(0, 0, 0)), "\x1b[48;2;0;0;0m");
}

#[test]
fn reset_colors_return_to_defaults() {
    assert_eq!(Terminal::reset_fg_color(), "\x1b[39m");
    assert_eq!(Terminal::reset_bg_color(), "\x1b[49m");
}

#[test]
fn read_key_waits_while_nothing_came() {
    assert_eq!(Terminal::read_key(None), None);
}

#[test]
fn read_key_hands_on_the_key() {
    assert_eq!(Terminal::read_key(Some(Ok(Key::Up))), Some(Event::KeyPressed(Key::Up)));
    assert_eq!(
        Terminal::read_key(Some(Ok(Key::Ctrl('q')))),
        Some(Event::KeyPressed(Key::Ctrl('q')))
    );
}

#[test]
fn read_key_hands_on_the_failure() {
    assert_eq!(
        Terminal::read_key(Some(Err(String::from("broken pipe")))),
        Some(Event::Failed(String::from("broken pipe")))
    );
}

#[test]
fn colors_write_every_component_in_decimal() {
    for value in 0..=255u8 {
        assert_eq!(
            Terminal::set_fg_color(Rgb(value, 0, 255 - value)),
            format!("\x1b[38;2;{};0;{}m", value, 255 - value)
        );
        assert_eq!(
            Terminal::set_bg_color(Rgb(7, value, 100)),
            format!("\x1b[48;2;7;{};100m", value)
        );
    }
}

#[test]
fn cursor_position_counts_from_one_on_both_axes() {
    for cell in 0..65535usize {
        assert_eq!(
            Terminal::cursor_position(&Position { x: cell, y: 65534 - cell }),
            format!("\x1b[{};{}H", 65535 - cell, cell + 1)
        );
    }
}
