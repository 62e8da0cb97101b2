use libkernel::kernel::devices::serial::{
    BaudRate, DataBits, EnabledInterrupts, InterruptEnableRegister, InterruptIdentificationRegister,
    InterruptState, FifoBufferState, LineControlRegister, LineControls, ModemControlRegister,
    ModemControls, ParityBits, SerialPort, StopBits, FifoControlRegister, FifoControls,
    InterruptTriggerLevel, ClearBufferOptions, COM1_BASE_PORT,
};
use libkernel::kernel::io::PortWrite;

fn write(port: u16, value: u8) -> PortWrite {
    PortWrite { port, value }
}

#[test]
fn baud_rate_divisors() {
    assert_eq!(3, BaudRate::new(38_400).unwrap().divisor());
    assert_eq!(1, BaudRate::new(115_200).unwrap().divisor());
    assert_eq!(12, BaudRate::new(9_600).unwrap().divisor());
    assert_eq!(57_600, BaudRate::new(2).unwrap().divisor());
    assert!(BaudRate::new(0).is_none());
    assert!(BaudRate::new(1).is_none());
    assert!(BaudRate::new(7).is_none());
    assert!(BaudRate::new(230_400).is_none());
}

#[test]
fn initialize_writes_the_8n1_setup() {
    let port = SerialPort::new(COM1_BASE_PORT);
    let init = port.initialize();
    assert_eq!(vec![write(0x3f9, 0x00), write(0x3fb, 0x03)], init.before_baud_rate);
    assert_eq!(3, init.baud_rate.divisor());
    assert_eq!(vec![write(0x3fc, 0x0f)], init.after_baud_rate);
}

#[test]
fn set_baud_rate_writes_divisor_then_line_control() {
    let port = SerialPort::new(COM1_BASE_PORT);
    let rate = BaudRate::new(2).unwrap();
    assert_eq!(
        vec![write(0x3f8, 0x00), write(0x3f9, 0xe1), write(0x3fb, 0x03)],
        port.set_baud_rate(rate, 0x83)
    );
}

#[test]
fn write_byte_and_str_go_to_the_data_register() {
    let port = SerialPort::new(0x2f8);
    assert_eq!(write(0x2f8, b'x'), port.write_byte(b'x'));
    assert_eq!(vec![write(0x2f8, b'h'), write(0x2f8, b'i')], port.write_str("hi"));
    assert_eq!(0x2fb, port.register_port(3));
}

#[test]
fn interrupt_enable_round_trip() {
    let value = EnabledInterrupts {
        modem_status: true,
        receiver_line_status: false,
        transmitter_holding_register_empty: true,
        received_data_available: false,
    };
    let byte = InterruptEnableRegister::serialize(value);
    assert_eq!(0b1010, byte);
    assert_eq!(value, InterruptEnableRegister::deserialize(byte));
    assert_eq!(0b1010, InterruptEnableRegister::serialize(InterruptEnableRegister::deserialize(0xfa)));
}

#[test]
fn line_control_round_trip() {
    let value = LineControls {
        data_bits: DataBits::Bits7,
        stop_bits: StopBits::Bits2,
        parity_bits: ParityBits::Even,
        break_enabled: false,
        divisor_latch_access_enabled: true,
    };
    let byte = LineControlRegister::serialize(value);
    assert_eq!(0b1001_1110, byte);
    assert_eq!(value, LineControlRegister::deserialize(byte));
    for byte in 0u8..=255 {
        let parity = (byte >> 3) & 0b111;
        if parity == 2 || parity == 4 || parity == 6 {
            continue;
        }
        assert_eq!(byte, LineControlRegister::serialize(LineControlRegister::deserialize(byte)));
    }
}

#[test]
fn modem_control_round_trip() {
    let value = ModemControls {
        data_terminal_ready: true,
        request_to_send: true,
        out_1: false,
        out_2: true,
        loopback: true,
    };
    let byte = ModemControlRegister::serialize(value);
    assert_eq!(0b1_1011, byte);
    assert_eq!(value, ModemControlRegister::deserialize(byte));
    assert_eq!(0x1f, ModemControlRegister::serialize(ModemControlRegister::deserialize(0xff)));
}

#[test]
fn fifo_control_layout() {
    let value = FifoControls {
        enable_fifos: true,
        interrupt_trigger_level: InterruptTriggerLevel::Bytes14,
        clear_buffers: ClearBufferOptions::Both,
    };
    assert_eq!(0xc7, FifoControlRegister::serialize(value));
}

#[test]
fn interrupt_identification_fields() {
    let id = InterruptIdentificationRegister::deserialize(0b1000_0100);
    assert!(id.interrupt_pending);
    assert_eq!(InterruptState::ReceivedDataAvailable, id.interrupt_state);
    assert_eq!(FifoBufferState::Enabled, id.fifo_buffer_state);
    let idle = InterruptIdentificationRegister::deserialize(0x01);
    assert!(!idle.interrupt_pending);
    assert_eq!(FifoBufferState::NoFifo, idle.fifo_buffer_state);
}

#[test]
fn field_codes() {
    assert_eq!(Some(ParityBits::Mark), ParityBits::from_bits(5));
    assert_eq!(None, ParityBits::from_bits(2));
    assert_eq!(3, DataBits::Bits8.bits());
    assert_eq!(None, FifoBufferState::from_bits(3));
}
