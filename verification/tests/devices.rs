use libkernel::kernel::devices::pic::{initialize, MASTER_COMMAND_PORT, SLAVE_DATA_PORT};
use libkernel::kernel::devices::vga::{VgaBuffer, VgaChar, VgaColor, VgaPos, VgaTextColor};
use libkernel::kernel::io::{IoPort, ModeRead, PortWrite};

#[test]
fn pic_initialization_sequence() {
    let writes = initialize();
    let expected: Vec<PortWrite> = [
        (0x20, 0x11), (0x21, 0x20), (0x21, 0x04), (0x21, 0x01), (0x21, 0xf9),
        (0xa0, 0x11), (0xa1, 0x28), (0xa1, 0x02), (0xa1, 0x01), (0xa1, 0xff),
    ]
    .iter()
    .map(|&(port, value)| PortWrite { port, value })
    .collect();
    assert_eq!(expected, writes);
    assert_eq!(0x20, MASTER_COMMAND_PORT);
    assert_eq!(0xa1, SLAVE_DATA_PORT);
}

#[test]
fn io_port_keeps_its_address() {
    let port: IoPort<ModeRead> = IoPort::new(0x64);
    assert_eq!(0x64, port.port());
}

#[test]
fn text_color_packs_and_unpacks() {
    let color = VgaTextColor::new(VgaColor::LightGreen, VgaColor::Blue);
    assert_eq!(0x1a, color.byte());
    assert_eq!(VgaColor::LightGreen, color.fg_color());
    assert_eq!(VgaColor::Blue, color.bg_color());
    for fg in 0u8..16 {
        for bg in 0u8..16 {
            let fg_color = VgaColor::from_bits(fg).unwrap();
            let bg_color = VgaColor::from_bits(bg).unwrap();
            let color = VgaTextColor::new(fg_color, bg_color);
            assert_eq!(fg_color, color.fg_color());
            assert_eq!(bg_color, color.bg_color());
        }
    }
    assert_eq!(None, VgaColor::from_bits(16));
}

#[test]
fn cell_write_offset_and_bits() {
    let buffer = VgaBuffer::new();
    let char = VgaChar { char: b'K', color: VgaTextColor::new(VgaColor::White, VgaColor::Black) };
    let cell = buffer.write(char, VgaPos { x: 3, y: 2 });
    assert_eq!(163, cell.offset);
    assert_eq!(0x0f4b, cell.bits);
    let last = buffer.write(char, VgaPos { x: 79, y: 24 });
    assert_eq!(1999, last.offset);
}

#[test]
fn fill_covers_every_cell_once() {
    let buffer = VgaBuffer::new();
    let char = VgaChar { char: b' ', color: VgaTextColor::new(VgaColor::Gray, VgaColor::Blue) };
    let writes = buffer.fill(char);
    assert_eq!(2000, writes.len());
    for (i, write) in writes.iter().enumerate() {
        assert_eq!(i, write.offset);
        assert_eq!(0x1720, write.bits);
    }
}
