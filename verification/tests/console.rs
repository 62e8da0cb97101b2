use libkernel::kernel::console::panic_line;
use libkernel::kernel::console::handle_key_event;
use libkernel::kernel::devices::keyboard::{KeyAction, KeyCode, KeyEvent};
use libkernel::kernel::devices::vga::{VgaColor, VgaPos, VgaTextColor};
use libkernel::kernel::logger::SerialLogger;
use libkernel::kernel::term::Terminal;

fn pos(x: u8, y: u8) -> VgaPos {
    VgaPos { x, y }
}

#[test]
fn terminal_writes_and_wraps() {
    let mut term = Terminal::new();
    assert_eq!(pos(0, 0), term.cursor_pos);
    let (cell, at) = term.write_char(b'h').unwrap();
    assert_eq!(b'h', cell.char);
    assert_eq!(VgaTextColor::new(VgaColor::Gray, VgaColor::Black), cell.color);
    assert_eq!(pos(0, 0), at);
    assert_eq!(pos(1, 0), term.cursor_pos);
    assert!(term.write_char(b'\t').is_none());
    assert_eq!(pos(1, 0), term.cursor_pos);
    assert!(term.write_char(b'\n').is_none());
    assert_eq!(pos(0, 1), term.cursor_pos);
    for _ in 0..80 {
        term.write_char(b'x').unwrap();
    }
    assert_eq!(pos(0, 2), term.cursor_pos);
}

#[test]
fn terminal_newline_wraps_to_the_top() {
    let mut term = Terminal::new();
    for _ in 0..24 {
        term.write_char(b'\n');
    }
    assert_eq!(pos(0, 24), term.cursor_pos);
    term.write_char(b'\n');
    assert_eq!(pos(0, 0), term.cursor_pos);
}

#[test]
fn delete_goes_back_to_the_end_of_the_previous_line() {
    let mut term = Terminal::new();
    term.write_str("ab\n");
    assert_eq!(pos(0, 1), term.cursor_pos);
    let (cell, at) = term.delete_char();
    assert_eq!(b' ', cell.char);
    assert_eq!(pos(2, 0), at);
    assert_eq!(pos(2, 0), term.cursor_pos);
    let (_, at) = term.delete_char();
    assert_eq!(pos(1, 0), at);
    let (_, at) = term.delete_char();
    assert_eq!(pos(0, 0), at);
    let (_, at) = term.delete_char();
    assert_eq!(pos(0, 0), at);
}

#[test]
fn write_str_returns_the_drawn_cells() {
    let mut term = Terminal::new();
    let cells = term.write_str("a\tb\nc");
    let positions: Vec<VgaPos> = cells.iter().map(|(_, at)| *at).collect();
    let chars: Vec<u8> = cells.iter().map(|(cell, _)| cell.char).collect();
    assert_eq!(vec![pos(0, 0), pos(1, 0), pos(0, 1)], positions);
    assert_eq!(b"abc".to_vec(), chars);
    assert_eq!(pos(1, 1), term.cursor_pos);
}

#[test]
fn key_events_drive_the_terminal() {
    let mut term = Terminal::new();
    let press = |key_code| KeyEvent { key_code, action: KeyAction::Press };
    let release = |key_code| KeyEvent { key_code, action: KeyAction::Release };
    let (cell, at) = handle_key_event(press(KeyCode::KeyQ), &mut term).unwrap();
    assert_eq!(b'q', cell.char);
    assert_eq!(pos(0, 0), at);
    assert!(handle_key_event(release(KeyCode::KeyQ), &mut term).is_none());
    assert_eq!(pos(1, 0), term.cursor_pos);
    assert!(handle_key_event(press(KeyCode::KeyLeftShift), &mut term).is_none());
    assert_eq!(pos(1, 0), term.cursor_pos);
    let (cell, at) = handle_key_event(press(KeyCode::KeyBackspace), &mut term).unwrap();
    assert_eq!(b' ', cell.char);
    assert_eq!(pos(0, 0), at);
    assert_eq!(pos(0, 0), term.cursor_pos);
    assert!(handle_key_event(press(KeyCode::KeyEnter), &mut term).is_none());
    assert_eq!(pos(0, 1), term.cursor_pos);
}

#[test]
fn log_lines_pad_the_level() {
    assert_eq!(
        b"[INFO ] (kernel) Logger initialized\n".to_vec(),
        SerialLogger::format_record(b"INFO", b"kernel", b"Logger initialized")
    );
    assert_eq!(
        b"[ERROR] (x) \n".to_vec(),
        SerialLogger::format_record(b"ERROR", b"x", b"")
    );
    assert_eq!(b"[LONGER] () m\n".to_vec(), SerialLogger::format_record(b"LONGER", b"", b"m"));
    assert!(SerialLogger.enabled());
}

#[test]
fn deleting_right_after_writing_restores_the_terminal() {
    let mut term = Terminal::new();
    term.write_str("ab");
    let before = term.cursor_pos;
    let (_, drawn_at) = term.write_char(b'c').unwrap();
    let (cell, deleted_at) = term.delete_char();
    assert_eq!(drawn_at, deleted_at);
    assert_eq!(b' ', cell.char);
    assert_eq!(before, term.cursor_pos);
    term.write_char(b'\n');
    let (_, at) = term.delete_char();
    assert_eq!(pos(2, 0), at);
}

#[test]
fn panic_line_layout() {
    assert_eq!(
        b"Panic! at src/main.rs line 42:7\nboom".to_vec(),
        panic_line(b"src/main.rs", 42, 7, b"boom")
    );
    assert_eq!(b"Panic! at f line 0:4294967295\n".to_vec(), panic_line(b"f", 0, u32::MAX, b""));
}
