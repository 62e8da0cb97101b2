use libkernel::bootstrap::io::IoPort;
use libkernel::bootstrap::term::Terminal;
use libkernel::bootstrap::vga::{put_char, CellWrite, VgaChar, VgaColor, VgaPos, VgaTextColor};

#[test]
fn cells_pack_code_point_and_colors() {
    let color = VgaTextColor::new(VgaColor::LightGreen, VgaColor::Black);
    assert_eq!(VgaColor::LightGreen, color.fg_color());
    assert_eq!(VgaColor::Black, color.bg_color());
    let char = VgaChar::new(b'K', color);
    assert_eq!(0x0a4b, char.bits());
    assert_eq!(b'K', char.code_point());
    assert_eq!(color, char.color());
    assert_eq!(VgaColor::BrightYellow, VgaColor::from_bits(0xff));
}

#[test]
fn put_char_targets_the_cell() {
    let char = VgaChar::new(b'a', VgaTextColor::new(VgaColor::White, VgaColor::Blue));
    assert_eq!(CellWrite { row: 4, column: 7, char }, put_char(char, VgaPos { x: 7, y: 4 }));
}

#[test]
fn bootstrap_terminal_writes_lines() {
    let mut term = Terminal {
        cursor_pos: VgaPos { x: 78, y: 24 },
        cursor_color: VgaTextColor::new(VgaColor::Gray, VgaColor::Black),
    };
    let (cell, at) = term.write_char(b'H').unwrap();
    assert_eq!(b'H', cell.code_point());
    assert_eq!(VgaPos { x: 78, y: 24 }, at);
    term.write_char(b'i').unwrap();
    assert_eq!(VgaPos { x: 0, y: 0 }, term.cursor_pos);
    assert!(term.write_char(b'\n').is_none());
    assert_eq!(VgaPos { x: 0, y: 1 }, term.cursor_pos);
}

#[test]
fn io_port_address() {
    assert_eq!(0x60, IoPort::new(0x60).port());
}
