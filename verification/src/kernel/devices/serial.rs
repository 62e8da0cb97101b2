use vstd::prelude::*;
use crate::kernel::io::PortWrite;
use vstd::string::StringSliceAdditionalSpecFns;

verus! {

/// The frequency that the UART divides down to the baud rate.
pub const UART_CLOCK_HZ: u32 = 115_200;

/// Offsets of the UART registers from the port's base address.
pub const DATA_REGISTER: u16 = 0;
pub const DIVISOR_LATCH_LOW_REGISTER: u16 = 0;
pub const DIVISOR_LATCH_HIGH_REGISTER: u16 = 1;
pub const INTERRUPT_ENABLE_REGISTER: u16 = 1;
pub const FIFO_CONTROL_REGISTER: u16 = 2;
pub const INTERRUPT_IDENTIFICATION_REGISTER: u16 = 2;
pub const LINE_CONTROL_REGISTER: u16 = 3;
pub const MODEM_CONTROL_REGISTER: u16 = 4;
pub const SCRATCH_REGISTER: u16 = 7;

/// The base address of the first serial port.
pub const COM1_BASE_PORT: u16 = 0x3f8;

/// A baud rate that the UART clock divides exactly.
pub struct BaudRate {
    divisor: u16,
}

impl BaudRate {
    /// The divisor of the UART clock that gives this rate.
    pub closed spec fn view(&self) -> u16 {
        self.divisor
    }

    /// The rate `baud_rate`, when it divides the UART clock exactly with a
    /// divisor that fits 16 bits; `None` otherwise (and for 0).
    pub fn new(baud_rate: u32) -> (r: Option<Self>)
        ensures
            r is Some <==> (baud_rate != 0 && UART_CLOCK_HZ % baud_rate == 0 && UART_CLOCK_HZ
                / baud_rate <= u16::MAX),
            r is Some ==> r->0@ == UART_CLOCK_HZ / baud_rate && r->0@ * baud_rate == UART_CLOCK_HZ,
    {
        if baud_rate == 0 || UART_CLOCK_HZ % baud_rate != 0 {
            return None;
        }
        let divisor = UART_CLOCK_HZ / baud_rate;
        if divisor > 0xffff {
            return None;
        }
        assert(divisor * baud_rate == UART_CLOCK_HZ) by (nonlinear_arith)
            requires
                divisor == UART_CLOCK_HZ / baud_rate,
                UART_CLOCK_HZ % baud_rate == 0,
                baud_rate != 0,
        ;
        Some(Self { divisor: divisor as u16 })
    }

    /// The divisor of the UART clock that gives this rate.
    pub fn divisor(&self) -> (r: u16)
        ensures
            r == self@,
    {
        self.divisor
    }
}

/// A bit's value for a flag.
pub open spec fn bit(flag: bool) -> u8 {
    if flag {
        1
    } else {
        0
    }
}

/// A bit's value for a flag.
pub fn flag_bit(flag: bool) -> (r: u8)
    ensures
        r == bit(flag),
{
    if flag {
        1
    } else {
        0
    }
}

/// How many bytes in the receive FIFO raise an interrupt.
#[derive(Debug, Clone, Copy, PartialEq, Eq, Structural)]
pub enum InterruptTriggerLevel {
    Bytes1,
    Bytes4,
    Bytes8,
    Bytes14,
}

impl InterruptTriggerLevel {
    /// The field value that encodes this setting.
    pub open spec fn value(self) -> u8 {
        match self {
            InterruptTriggerLevel::Bytes1 => 0,
            InterruptTriggerLevel::Bytes4 => 1,
            InterruptTriggerLevel::Bytes8 => 2,
            InterruptTriggerLevel::Bytes14 => 3,
        }
    }

    /// The field value that encodes this setting.
    pub fn bits(self) -> (r: u8)
        ensures
            r == self.value(),
    {
        match self {
            InterruptTriggerLevel::Bytes1 => 0,
            InterruptTriggerLevel::Bytes4 => 1,
            InterruptTriggerLevel::Bytes8 => 2,
            InterruptTriggerLevel::Bytes14 => 3,
        }
    }

    /// The setting that the field value `bits` encodes, if any.
    pub fn from_bits(bits: u8) -> (r: Option<Self>)
        ensures
            r is Some <==> (bits == 0 || bits == 1 || bits == 2 || bits == 3),
            r is Some ==> r->0.value() == bits,
    {
        match bits {
            0 => Some(InterruptTriggerLevel::Bytes1),
            1 => Some(InterruptTriggerLevel::Bytes4),
            2 => Some(InterruptTriggerLevel::Bytes8),
            3 => Some(InterruptTriggerLevel::Bytes14),
            _ => None,
        }
    }
}

/// Which FIFO buffers to clear.
#[derive(Debug, Clone, Copy, PartialEq, Eq, Structural)]
pub enum ClearBufferOptions {
    NoBuffer,
    ReceiveBuffer,
    TransmitBuffer,
    Both,
}

impl ClearBufferOptions {
    /// The field value that encodes this setting.
    pub open spec fn value(self) -> u8 {
        match self {
            ClearBufferOptions::NoBuffer => 0,
            ClearBufferOptions::ReceiveBuffer => 1,
            ClearBufferOptions::TransmitBuffer => 2,
            ClearBufferOptions::Both => 3,
        }
    }

    /// The field value that encodes this setting.
    pub fn bits(self) -> (r: u8)
        ensures
            r == self.value(),
    {
        match self {
            ClearBufferOptions::NoBuffer => 0,
            ClearBufferOptions::ReceiveBuffer => 1,
            ClearBufferOptions::TransmitBuffer => 2,
            ClearBufferOptions::Both => 3,
        }
    }

    /// The setting that the field value `bits` encodes, if any.
    pub fn from_bits(bits: u8) -> (r: Option<Self>)
        ensures
            r is Some <==> (bits == 0 || bits == 1 || bits == 2 || bits == 3),
            r is Some ==> r->0.value() == bits,
    {
        match bits {
            0 => Some(ClearBufferOptions::NoBuffer),
            1 => Some(ClearBufferOptions::ReceiveBuffer),
            2 => Some(ClearBufferOptions::TransmitBuffer),
            3 => Some(ClearBufferOptions::Both),
            _ => None,
        }
    }
}

/// The cause of a pending UART interrupt.
#[derive(Debug, Clone, Copy, PartialEq, Eq, Structural)]
pub enum InterruptState {
    ModemStatus,
    TransmitterHoldingRegisterEmpty,
    ReceivedDataAvailable,
    ReceiverLineStatus,
}

impl InterruptState {
    /// The field value that encodes this setting.
    pub open spec fn value(self) -> u8 {
        match self {
            InterruptState::ModemStatus => 0,
            InterruptState::TransmitterHoldingRegisterEmpty => 1,
            InterruptState::ReceivedDataAvailable => 2,
            InterruptState::ReceiverLineStatus => 3,
        }
    }

    /// The field value that encodes this setting.
    pub fn bits(self) -> (r: u8)
        ensures
            r == self.value(),
    {
        match self {
            InterruptState::ModemStatus => 0,
            InterruptState::TransmitterHoldingRegisterEmpty => 1,
            InterruptState::ReceivedDataAvailable => 2,
            InterruptState::ReceiverLineStatus => 3,
        }
    }

    /// The setting that the field value `bits` encodes, if any.
    pub fn from_bits(bits: u8) -> (r: Option<Self>)
        ensures
            r is Some <==> (bits == 0 || bits == 1 || bits == 2 || bits == 3),
            r is Some ==> r->0.value() == bits,
    {
        match bits {
            0 => Some(InterruptState::ModemStatus),
            1 => Some(InterruptState::TransmitterHoldingRegisterEmpty),
            2 => Some(InterruptState::ReceivedDataAvailable),
            3 => Some(InterruptState::ReceiverLineStatus),
            _ => None,
        }
    }
}

/// The state of the UART's FIFO buffers.
#[derive(Debug, Clone, Copy, PartialEq, Eq, Structural)]
pub enum FifoBufferState {
    NoFifo,
    EnabledButUnusable,
    Enabled,
}

impl FifoBufferState {
    /// The field value that encodes this setting.
    pub open spec fn value(self) -> u8 {
        match self {
            FifoBufferState::NoFifo => 0,
            FifoBufferState::EnabledButUnusable => 1,
            FifoBufferState::Enabled => 2,
        }
    }

    /// The field value that encodes this setting.
    pub fn bits(self) -> (r: u8)
        ensures
            r == self.value(),
    {
        match self {
            FifoBufferState::NoFifo => 0,
            FifoBufferState::EnabledButUnusable => 1,
            FifoBufferState::Enabled => 2,
        }
    }

    /// The setting that the field value `bits` encodes, if any.
    pub fn from_bits(bits: u8) -> (r: Option<Self>)
        ensures
            r is Some <==> (bits == 0 || bits == 1 || bits == 2),
            r is Some ==> r->0.value() == bits,
    {
        match bits {
            0 => Some(FifoBufferState::NoFifo),
            1 => Some(FifoBufferState::EnabledButUnusable),
            2 => Some(FifoBufferState::Enabled),
            _ => None,
        }
    }
}

/// The number of data bits per character.
#[derive(Debug, Clone, Copy, PartialEq, Eq, Structural)]
pub enum DataBits {
    Bits5,
    Bits6,
    Bits7,
    Bits8,
}

impl DataBits {
    /// The field value that encodes this setting.
    pub open spec fn value(self) -> u8 {
        match self {
            DataBits::Bits5 => 0,
            DataBits::Bits6 => 1,
            DataBits::Bits7 => 2,
            DataBits::Bits8 => 3,
        }
    }

    /// The field value that encodes this setting.
    pub fn bits(self) -> (r: u8)
        ensures
            r == self.value(),
    {
        match self {
            DataBits::Bits5 => 0,
            DataBits::Bits6 => 1,
            DataBits::Bits7 => 2,
            DataBits::Bits8 => 3,
        }
    }

    /// The setting that the field value `bits` encodes, if any.
    pub fn from_bits(bits: u8) -> (r: Option<Self>)
        ensures
            r is Some <==> (bits == 0 || bits == 1 || bits == 2 || bits == 3),
            r is Some ==> r->0.value() == bits,
    {
        match bits {
            0 => Some(DataBits::Bits5),
            1 => Some(DataBits::Bits6),
            2 => Some(DataBits::Bits7),
            3 => Some(DataBits::Bits8),
            _ => None,
        }
    }
}

/// The number of stop bits per character.
#[derive(Debug, Clone, Copy, PartialEq, Eq, Structural)]
pub enum StopBits {
    Bits1,
    Bits2,
}

impl StopBits {
    /// The field value that encodes this setting.
    pub open spec fn value(self) -> u8 {
        match self {
            StopBits::Bits1 => 0,
            StopBits::Bits2 => 1,
        }
    }

    /// The field value that encodes this setting.
    pub fn bits(self) -> (r: u8)
        ensures
            r == self.value(),
    {
        match self {
            StopBits::Bits1 => 0,
            StopBits::Bits2 => 1,
        }
    }

    /// The setting that the field value `bits` encodes, if any.
    pub fn from_bits(bits: u8) -> (r: Option<Self>)
        ensures
            r is Some <==> (bits == 0 || bits == 1),
            r is Some ==> r->0.value() == bits,
    {
        match bits {
            0 => Some(StopBits::Bits1),
            1 => Some(StopBits::Bits2),
            _ => None,
        }
    }
}

/// The parity scheme.
#[derive(Debug, Clone, Copy, PartialEq, Eq, Structural)]
pub enum ParityBits {
    NoParity,
    Odd,
    Even,
    Mark,
    Space,
}

impl ParityBits {
    /// The field value that encodes this setting.
    pub open spec fn value(self) -> u8 {
        match self {
            ParityBits::NoParity => 0,
            ParityBits::Odd => 1,
            ParityBits::Even => 3,
            ParityBits::Mark => 5,
            ParityBits::Space => 7,
        }
    }

    /// The field value that encodes this setting.
    pub fn bits(self) -> (r: u8)
        ensures
            r == self.value(),
    {
        match self {
            ParityBits::NoParity => 0,
            ParityBits::Odd => 1,
            ParityBits::Even => 3,
            ParityBits::Mark => 5,
            ParityBits::Space => 7,
        }
    }

    /// The setting that the field value `bits` encodes, if any.
    pub fn from_bits(bits: u8) -> (r: Option<Self>)
        ensures
            r is Some <==> (bits == 0 || bits == 1 || bits == 3 || bits == 5 || bits == 7),
            r is Some ==> r->0.value() == bits,
    {
        match bits {
            0 => Some(ParityBits::NoParity),
            1 => Some(ParityBits::Odd),
            3 => Some(ParityBits::Even),
            5 => Some(ParityBits::Mark),
            7 => Some(ParityBits::Space),
            _ => None,
        }
    }
}

/// The interrupts the UART raises (interrupt enable register).
#[derive(Debug, Clone, Copy, PartialEq, Eq, Structural)]
pub struct EnabledInterrupts {
    pub modem_status: bool,
    pub receiver_line_status: bool,
    pub transmitter_holding_register_empty: bool,
    pub received_data_available: bool,
}

/// FIFO settings (FIFO control register).
#[derive(Debug, Clone, Copy, PartialEq, Eq, Structural)]
pub struct FifoControls {
    pub enable_fifos: bool,
    pub interrupt_trigger_level: InterruptTriggerLevel,
    pub clear_buffers: ClearBufferOptions,
}

/// The state of the UART's interrupts (interrupt identification register).
#[derive(Debug, Clone, Copy, PartialEq, Eq, Structural)]
pub struct InterruptIdentification {
    pub interrupt_pending: bool,
    pub interrupt_state: InterruptState,
    pub fifo_buffer_state: FifoBufferState,
}

/// The character format (line control register).
#[derive(Debug, Clone, Copy, PartialEq, Eq, Structural)]
pub struct LineControls {
    pub data_bits: DataBits,
    pub stop_bits: StopBits,
    pub parity_bits: ParityBits,
    pub break_enabled: bool,
    pub divisor_latch_access_enabled: bool,
}

/// The modem control lines (modem control register).
#[derive(Debug, Clone, Copy, PartialEq, Eq, Structural)]
pub struct ModemControls {
    pub data_terminal_ready: bool,
    pub request_to_send: bool,
    pub out_1: bool,
    pub out_2: bool,
    pub loopback: bool,
}

/// The byte that encodes `value` in the interrupt enable register:
/// received data in bit 0, transmitter empty in bit 1, receiver line
/// status in bit 2, modem status in bit 3.
pub open spec fn interrupt_enable_byte(value: EnabledInterrupts) -> u8 {
    (bit(value.received_data_available) + 2 * bit(value.transmitter_holding_register_empty) + 4
        * bit(value.receiver_line_status) + 8 * bit(value.modem_status)) as u8
}

/// The byte that encodes `value` in the FIFO control register: enable in
/// bit 0, buffers to clear in bits 1-2, trigger level in bits 6-7.
pub open spec fn fifo_control_byte(value: FifoControls) -> u8 {
    (bit(value.enable_fifos) + 2 * value.clear_buffers.value() + 64
        * value.interrupt_trigger_level.value()) as u8
}

/// The byte that encodes `value` in the line control register: data bits in
/// bits 0-1, stop bits in bit 2, parity in bits 3-5, break in bit 6,
/// divisor latch access in bit 7.
pub open spec fn line_control_byte(value: LineControls) -> u8 {
    (value.data_bits.value() + 4 * value.stop_bits.value() + 8 * value.parity_bits.value() + 64
        * bit(value.break_enabled) + 128 * bit(value.divisor_latch_access_enabled)) as u8
}

/// The byte that encodes `value` in the modem control register: DTR, RTS,
/// OUT1, OUT2 and loopback in bits 0 to 4.
pub open spec fn modem_control_byte(value: ModemControls) -> u8 {
    (bit(value.data_terminal_ready) + 2 * bit(value.request_to_send) + 4 * bit(value.out_1) + 8
        * bit(value.out_2) + 16 * bit(value.loopback)) as u8
}

/// The interrupt settings that an interrupt enable byte encodes.
pub open spec fn enabled_interrupts_of(byte: u8) -> EnabledInterrupts {
    EnabledInterrupts {
        modem_status: (byte / 8) % 2 == 1,
        receiver_line_status: (byte / 4) % 2 == 1,
        transmitter_holding_register_empty: (byte / 2) % 2 == 1,
        received_data_available: byte % 2 == 1,
    }
}

/// The modem control lines that a modem control byte encodes.
pub open spec fn modem_controls_of(byte: u8) -> ModemControls {
    ModemControls {
        data_terminal_ready: byte % 2 == 1,
        request_to_send: (byte / 2) % 2 == 1,
        out_1: (byte / 4) % 2 == 1,
        out_2: (byte / 8) % 2 == 1,
        loopback: (byte / 16) % 2 == 1,
    }
}

/// Whether `value` is what the line control byte `byte` encodes.
pub open spec fn decodes_line_control(byte: u8, value: LineControls) -> bool {
    &&& value.data_bits.value() == byte % 4
    &&& value.stop_bits.value() == (byte / 4) % 2
    &&& value.parity_bits.value() == (byte / 8) % 8
    &&& value.break_enabled == ((byte / 64) % 2 == 1)
    &&& value.divisor_latch_access_enabled == ((byte / 128) % 2 == 1)
}

/// Whether the parity field (bits 3-5) of a line control byte names a parity scheme.
pub open spec fn valid_parity_field(byte: u8) -> bool {
    let field = (byte / 8) % 8;
    field == 0 || field == 1 || field == 3 || field == 5 || field == 7
}

/// The interrupt enable register.
pub struct InterruptEnableRegister;

impl InterruptEnableRegister {
    /// Encodes `value`.
    pub fn serialize(value: EnabledInterrupts) -> (r: u8)
        ensures
            r == interrupt_enable_byte(value),
    {
        let a = flag_bit(value.modem_status);
        let b = flag_bit(value.receiver_line_status);
        let c = flag_bit(value.transmitter_holding_register_empty);
        let d = flag_bit(value.received_data_available);
        let r = a << 3 | b << 2 | c << 1 | d << 0;
        assert(r == d + 2 * c + 4 * b + 8 * a) by (bit_vector)
            requires
                a <= 1,
                b <= 1,
                c <= 1,
                d <= 1,
                r == a << 3 | b << 2 | c << 1 | d << 0,
        ;
        r
    }

    /// Decodes `byte`; bits 4 to 7 are ignored.
    pub fn deserialize(byte: u8) -> (r: EnabledInterrupts)
        ensures
            r == enabled_interrupts_of(byte),
    {
        assert({
            &&& ((byte >> 3) & 1) == (byte / 8) % 2
            &&& ((byte >> 2) & 1) == (byte / 4) % 2
            &&& ((byte >> 1) & 1) == (byte / 2) % 2
            &&& ((byte >> 0) & 1) == byte % 2
        }) by (bit_vector);
        EnabledInterrupts {
            modem_status: ((byte >> 3) & 1) == 1,
            receiver_line_status: ((byte >> 2) & 1) == 1,
            transmitter_holding_register_empty: ((byte >> 1) & 1) == 1,
            received_data_available: ((byte >> 0) & 1) == 1,
        }
    }
}

/// The FIFO control register.
pub struct FifoControlRegister;

impl FifoControlRegister {
    /// Encodes `value`.
    pub fn serialize(value: FifoControls) -> (r: u8)
        ensures
            r == fifo_control_byte(value),
    {
        let a = flag_bit(value.enable_fifos);
        let b = value.clear_buffers.bits();
        let c = value.interrupt_trigger_level.bits();
        let r = a << 0 | b << 1 | c << 6;
        assert(r == a + 2 * b + 64 * c) by (bit_vector)
            requires
                a <= 1,
                b <= 3,
                c <= 3,
                r == a << 0 | b << 1 | c << 6,
        ;
        r
    }
}

/// The interrupt identification register.
pub struct InterruptIdentificationRegister;

impl InterruptIdentificationRegister {
    /// Decodes `byte`; bit 0 is clear while an interrupt is pending. The
    /// FIFO field (bits 6-7) must not be 3, which names no state.
    pub fn deserialize(byte: u8) -> (r: InterruptIdentification)
        requires
            (byte / 64) % 4 != 3,
        ensures
            r.interrupt_pending == (byte % 2 == 0),
            r.interrupt_state.value() == (byte / 2) % 4,
            r.fifo_buffer_state.value() == (byte / 64) % 4,
    {
        assert({
            &&& (byte & 1) == byte % 2
            &&& ((byte >> 1) & 3) == (byte / 2) % 4
            &&& ((byte >> 6) & 3) == (byte / 64) % 4
        }) by (bit_vector);
        InterruptIdentification {
            interrupt_pending: (byte & 1) == 0,
            interrupt_state: InterruptState::from_bits((byte >> 1) & 0b11).unwrap(),
            fifo_buffer_state: FifoBufferState::from_bits((byte >> 6) & 0b11).unwrap(),
        }
    }
}

/// The line control register.
pub struct LineControlRegister;

impl LineControlRegister {
    /// Encodes `value`.
    pub fn serialize(value: LineControls) -> (r: u8)
        ensures
            r == line_control_byte(value),
    {
        let a = value.data_bits.bits();
        let b = value.stop_bits.bits();
        let c = value.parity_bits.bits();
        let d = flag_bit(value.break_enabled);
        let e = flag_bit(value.divisor_latch_access_enabled);
        let r = a << 0 | b << 2 | c << 3 | d << 6 | e << 7;
        assert(r == a + 4 * b + 8 * c + 64 * d + 128 * e) by (bit_vector)
            requires
                a <= 3,
                b <= 1,
                c <= 7,
                d <= 1,
                e <= 1,
                r == a << 0 | b << 2 | c << 3 | d << 6 | e << 7,
        ;
        r
    }

    /// Decodes `byte`, whose parity field must name a parity scheme.
    pub fn deserialize(byte: u8) -> (r: LineControls)
        requires
            valid_parity_field(byte),
        ensures
            decodes_line_control(byte, r),
    {
        assert({
            &&& (byte & 0b11) == byte % 4
            &&& ((byte >> 2) & 1) == (byte / 4) % 2
            &&& ((byte >> 3) & 0b111) == (byte / 8) % 8
            &&& ((byte >> 6) & 1) == (byte / 64) % 2
            &&& ((byte >> 7) & 1) == (byte / 128) % 2
        }) by (bit_vector);
        LineControls {
            data_bits: DataBits::from_bits(byte & 0b11).unwrap(),
            stop_bits: StopBits::from_bits((byte >> 2) & 1).unwrap(),
            parity_bits: ParityBits::from_bits((byte >> 3) & 0b111).unwrap(),
            break_enabled: (byte >> 6) & 1 == 1,
            divisor_latch_access_enabled: (byte >> 7) & 1 == 1,
        }
    }
}

/// The modem control register.
pub struct ModemControlRegister;

impl ModemControlRegister {
    /// Encodes `value`.
    pub fn serialize(value: ModemControls) -> (r: u8)
        ensures
            r == modem_control_byte(value),
    {
        let a = flag_bit(value.data_terminal_ready);
        let b = flag_bit(value.request_to_send);
        let c = flag_bit(value.out_1);
        let d = flag_bit(value.out_2);
        let e = flag_bit(value.loopback);
        let r = a << 0 | b << 1 | c << 2 | d << 3 | e << 4;
        assert(r == a + 2 * b + 4 * c + 8 * d + 16 * e) by (bit_vector)
            requires
                a <= 1,
                b <= 1,
                c <= 1,
                d <= 1,
                e <= 1,
                r == a << 0 | b << 1 | c << 2 | d << 3 | e << 4,
        ;
        r
    }

    /// Decodes `byte`; bits 5 to 7 are ignored.
    pub fn deserialize(byte: u8) -> (r: ModemControls)
        ensures
            r == modem_controls_of(byte),
    {
        assert({
            &&& ((byte >> 0) & 1) == byte % 2
            &&& ((byte >> 1) & 1) == (byte / 2) % 2
            &&& ((byte >> 2) & 1) == (byte / 4) % 2
            &&& ((byte >> 3) & 1) == (byte / 8) % 2
            &&& ((byte >> 4) & 1) == (byte / 16) % 2
        }) by (bit_vector);
        ModemControls {
            data_terminal_ready: (byte >> 0) & 1 == 1,
            request_to_send: (byte >> 1) & 1 == 1,
            out_1: (byte >> 2) & 1 == 1,
            out_2: (byte >> 3) & 1 == 1,
            loopback: (byte >> 4) & 1 == 1,
        }
    }
}

/// A UART whose registers sit at eight consecutive ports from `base_port`.
pub struct SerialPort {
    base_port: u16,
}

/// The port writes that set a UART up, in three steps: `before_baud_rate`,
/// then [`SerialPort::set_baud_rate`] with `baud_rate` and the line control
/// byte read back from the UART, then `after_baud_rate`.
pub struct SerialInit {
    pub before_baud_rate: Vec<PortWrite>,
    pub baud_rate: BaudRate,
    pub after_baud_rate: Vec<PortWrite>,
}

impl SerialPort {
    /// The port of register 0.
    pub closed spec fn base(&self) -> u16 {
        self.base_port
    }

    /// All eight register ports fit the port space.
    pub open spec fn wf(&self) -> bool {
        self.base() <= u16::MAX - 7
    }

    /// The UART at `base_port`; its eight ports must fit the port space.
    pub fn new(base_port: u16) -> (r: Self)
        requires
            base_port <= u16::MAX - 7,
        ensures
            r.base() == base_port,
            r.wf(),
    {
        Self { base_port }
    }

    /// The port of the register at `offset`.
    pub fn register_port(&self, offset: u16) -> (r: u16)
        requires
            self.wf(),
            offset <= 7,
        ensures
            r == self.base() + offset,
    {
        self.base_port + offset
    }

    /// Writing `value` into the register at `offset`.
    fn write_register(&self, offset: u16, value: u8) -> (r: PortWrite)
        requires
            self.wf(),
            offset <= 7,
        ensures
            r == (PortWrite { port: (self.base() + offset) as u16, value }),
    {
        PortWrite { port: self.register_port(offset), value }
    }

    /// The writes that set the UART up: interrupts off, 8 data bits, no
    /// parity, 1 stop bit, then 38400 baud, then DTR, RTS, OUT1 and OUT2 on.
    pub fn initialize(&self) -> (r: SerialInit)
        requires
            self.wf(),
        ensures
            r.before_baud_rate@ == seq![
                PortWrite { port: (self.base() + INTERRUPT_ENABLE_REGISTER) as u16, value: 0x00 },
                PortWrite { port: (self.base() + LINE_CONTROL_REGISTER) as u16, value: 0x03 },
            ],
            r.baud_rate@ == 3,
            r.after_baud_rate@ == seq![
                PortWrite { port: (self.base() + MODEM_CONTROL_REGISTER) as u16, value: 0x0f },
            ],
    {
        let mut before_baud_rate: Vec<PortWrite> = Vec::new();
        before_baud_rate.push(
            self.write_register(
                INTERRUPT_ENABLE_REGISTER,
                InterruptEnableRegister::serialize(
                    EnabledInterrupts {
                        modem_status: false,
                        receiver_line_status: false,
                        transmitter_holding_register_empty: false,
                        received_data_available: false,
                    },
                ),
            ),
        );
        before_baud_rate.push(
            self.write_register(
                LINE_CONTROL_REGISTER,
                LineControlRegister::serialize(
                    LineControls {
                        data_bits: DataBits::Bits8,
                        parity_bits: ParityBits::NoParity,
                        stop_bits: StopBits::Bits1,
                        divisor_latch_access_enabled: false,
                        break_enabled: false,
                    },
                ),
            ),
        );
        let baud_rate = BaudRate::new(38_400).unwrap();
        let mut after_baud_rate: Vec<PortWrite> = Vec::new();
        after_baud_rate.push(
            self.write_register(
                MODEM_CONTROL_REGISTER,
                ModemControlRegister::serialize(
                    ModemControls {
                        data_terminal_ready: true,
                        request_to_send: true,
                        out_1: true,
                        out_2: true,
                        loopback: false,
                    },
                ),
            ),
        );
        SerialInit { before_baud_rate, baud_rate, after_baud_rate }
    }

    /// Writing `byte` into the data register.
    pub fn write_byte(&self, byte: u8) -> (r: PortWrite)
        requires
            self.wf(),
        ensures
            r == (PortWrite { port: self.base(), value: byte }),
    {
        self.write_register(DATA_REGISTER, byte)
    }

    /// The writes that program `baud_rate`, given the byte `line_control`
    /// read from the line control register: the divisor's low byte, its
    /// high byte, then the line control byte with the divisor latch access
    /// bit cleared. The parity field of `line_control` must name a parity scheme.
    pub fn set_baud_rate(&self, baud_rate: BaudRate, line_control: u8) -> (r: Vec<PortWrite>)
        requires
            self.wf(),
            valid_parity_field(line_control),
        ensures
            r@ == seq![
                PortWrite { port: self.base(), value: (baud_rate@ % 256) as u8 },
                PortWrite { port: (self.base() + 1) as u16, value: (baud_rate@ / 256) as u8 },
                PortWrite { port: (self.base() + 3) as u16, value: line_control % 128 },
            ],
    {
        let mut line_controls = LineControlRegister::deserialize(line_control);
        line_controls.divisor_latch_access_enabled = true;
        let divisor = baud_rate.divisor;
        let low_byte = (divisor & 0xff) as u8;
        let high_byte = (divisor >> 8) as u8;
        assert(low_byte == divisor % 256 && high_byte == divisor / 256) by (bit_vector)
            requires
                low_byte == (divisor & 0xff) as u8,
                high_byte == (divisor >> 8) as u8,
        ;
        let mut writes: Vec<PortWrite> = Vec::new();
        writes.push(self.write_register(DIVISOR_LATCH_LOW_REGISTER, low_byte));
        writes.push(self.write_register(DIVISOR_LATCH_HIGH_REGISTER, high_byte));
        line_controls.divisor_latch_access_enabled = false;
        proof {
            lemma_line_control_reencodes(line_control);
        }
        writes.push(
            self.write_register(LINE_CONTROL_REGISTER, LineControlRegister::serialize(line_controls)),
        );
        writes
    }

    /// Writing each byte of the UTF-8 encoding of `s` into the data register, in order.
    pub fn write_str(&self, s: &str) -> (r: Vec<PortWrite>)
        requires
            self.wf(),
        ensures
            r@.len() == s.spec_bytes().len(),
            forall|i: int|
                0 <= i < s.spec_bytes().len() ==> #[trigger] r@[i] == (PortWrite {
                    port: self.base(),
                    value: s.spec_bytes()[i],
                }),
    {
        self.write_bytes(s.as_bytes())
    }

    /// Writing each byte of `bytes` into the data register, in order.
    pub fn write_bytes(&self, bytes: &[u8]) -> (r: Vec<PortWrite>)
        requires
            self.wf(),
        ensures
            r@.len() == bytes@.len(),
            forall|i: int|
                0 <= i < bytes@.len() ==> #[trigger] r@[i] == (PortWrite {
                    port: self.base(),
                    value: bytes@[i],
                }),
    {
        let mut writes: Vec<PortWrite> = Vec::new();
        let mut i: usize = 0;
        while i < bytes.len()
            invariant
                self.wf(),
                i <= bytes@.len(),
                writes@.len() == i,
                forall|j: int|
                    0 <= j < i ==> #[trigger] writes@[j] == (PortWrite {
                        port: self.base(),
                        value: bytes@[j],
                    }),
            decreases bytes@.len() - i,
        {
            writes.push(self.write_byte(bytes[i]));
            i = i + 1;
        }
        writes
    }
}

/// Re-encoding the decoding of a line control byte with the divisor latch
/// bit cleared gives the byte with bit 7 cleared.
proof fn lemma_line_control_reencodes(byte: u8)
    ensures
        ((byte % 4) + 4 * ((byte / 4) % 2) + 8 * ((byte / 8) % 8) + 64 * ((byte / 64) % 2)) as u8
            == byte % 128,
        ((byte % 4) + 4 * ((byte / 4) % 2) + 8 * ((byte / 8) % 8) + 64 * ((byte / 64) % 2) + 128
            * ((byte / 128) % 2)) as u8 == byte,
{
    assert(((byte % 4) + 4 * ((byte / 4) % 2) + 8 * ((byte / 8) % 8) + 64 * ((byte / 64) % 2))
        == byte % 128) by (bit_vector);
    assert(((byte % 4) + 4 * ((byte / 4) % 2) + 8 * ((byte / 8) % 8) + 64 * ((byte / 64) % 2) + 128
        * ((byte / 128) % 2)) == byte) by (bit_vector);
}

/// Encoding interrupt settings and decoding the byte gives them back;
/// decoding a byte and encoding the settings gives its lower four bits.
pub proof fn law_interrupt_enable_round_trip(value: EnabledInterrupts, byte: u8)
    ensures
        enabled_interrupts_of(interrupt_enable_byte(value)) == value,
        interrupt_enable_byte(enabled_interrupts_of(byte)) == byte % 16,
{
    let a = bit(value.modem_status);
    let b = bit(value.receiver_line_status);
    let c = bit(value.transmitter_holding_register_empty);
    let d = bit(value.received_data_available);
    assert({
        let x = (d + 2 * c + 4 * b + 8 * a) as u8;
        &&& (x / 8) % 2 == a
        &&& (x / 4) % 2 == b
        &&& (x / 2) % 2 == c
        &&& x % 2 == d
    }) by (bit_vector)
        requires
            a <= 1,
            b <= 1,
            c <= 1,
            d <= 1,
    ;
    assert((byte % 2) + 2 * ((byte / 2) % 2) + 4 * ((byte / 4) % 2) + 8 * ((byte / 8) % 2) == byte
        % 16) by (bit_vector);
}

/// Encoding modem control lines and decoding the byte gives them back;
/// decoding a byte and encoding the lines gives its lower five bits.
pub proof fn law_modem_control_round_trip(value: ModemControls, byte: u8)
    ensures
        modem_controls_of(modem_control_byte(value)) == value,
        modem_control_byte(modem_controls_of(byte)) == byte % 32,
{
    let a = bit(value.data_terminal_ready);
    let b = bit(value.request_to_send);
    let c = bit(value.out_1);
    let d = bit(value.out_2);
    let e = bit(value.loopback);
    assert({
        let x = (a + 2 * b + 4 * c + 8 * d + 16 * e) as u8;
        &&& x % 2 == a
        &&& (x / 2) % 2 == b
        &&& (x / 4) % 2 == c
        &&& (x / 8) % 2 == d
        &&& (x / 16) % 2 == e
    }) by (bit_vector)
        requires
            a <= 1,
            b <= 1,
            c <= 1,
            d <= 1,
            e <= 1,
    ;
    assert((byte % 2) + 2 * ((byte / 2) % 2) + 4 * ((byte / 4) % 2) + 8 * ((byte / 8) % 2) + 16 * ((
    byte / 16) % 2) == byte % 32) by (bit_vector);
}

/// Every encoded line control byte has a valid parity field and decodes to
/// the settings it encodes; a byte with a valid parity field decodes to
/// settings that encode it again.
pub proof fn law_line_control_round_trip(value: LineControls, byte: u8, decoded: LineControls)
    ensures
        valid_parity_field(line_control_byte(value)),
        decodes_line_control(line_control_byte(value), decoded) ==> decoded == value,
        decodes_line_control(byte, decoded) ==> line_control_byte(decoded) == byte,
{
    let a = value.data_bits.value();
    let b = value.stop_bits.value();
    let c = value.parity_bits.value();
    let d = bit(value.break_enabled);
    let e = bit(value.divisor_latch_access_enabled);
    assert({
        let x = (a + 4 * b + 8 * c + 64 * d + 128 * e) as u8;
        &&& x % 4 == a
        &&& (x / 4) % 2 == b
        &&& (x / 8) % 8 == c
        &&& (x / 64) % 2 == d
        &&& (x / 128) % 2 == e
    }) by (bit_vector)
        requires
            a <= 3,
            b <= 1,
            c <= 7,
            d <= 1,
            e <= 1,
    ;
    lemma_line_control_reencodes(byte);
}

/// The field codes of the 16550 registers: data bits 5 to 8 as 0 to 3, one
/// or two stop bits as 0 or 1, parity none 0, odd 1, even 3, mark 5, space
/// 7; FIFO trigger levels of 1, 4, 8 and 14 bytes as 0 to 3; buffers to
/// clear with the receive buffer in bit 0 and the transmit buffer in bit 1;
/// interrupt causes modem status 0, transmitter empty 1, received data 2,
/// line status 3; FIFO states none 0, unusable 1, enabled 2. Distinct
/// settings have distinct codes.
pub proof fn law_uart_field_codes(parity: ParityBits, other: ParityBits, data: DataBits, other_data: DataBits)
    ensures
        DataBits::Bits5.value() == 0,
        DataBits::Bits6.value() == 1,
        DataBits::Bits7.value() == 2,
        DataBits::Bits8.value() == 3,
        StopBits::Bits1.value() == 0,
        StopBits::Bits2.value() == 1,
        ParityBits::NoParity.value() == 0,
        ParityBits::Odd.value() == 1,
        ParityBits::Even.value() == 3,
        ParityBits::Mark.value() == 5,
        ParityBits::Space.value() == 7,
        parity.value() == other.value() ==> parity == other,
        data.value() == other_data.value() ==> data == other_data,
        InterruptTriggerLevel::Bytes1.value() == 0,
        InterruptTriggerLevel::Bytes4.value() == 1,
        InterruptTriggerLevel::Bytes8.value() == 2,
        InterruptTriggerLevel::Bytes14.value() == 3,
        ClearBufferOptions::NoBuffer.value() == 0,
        ClearBufferOptions::ReceiveBuffer.value() == 1,
        ClearBufferOptions::TransmitBuffer.value() == 2,
        ClearBufferOptions::Both.value() == 3,
        InterruptState::ModemStatus.value() == 0,
        InterruptState::TransmitterHoldingRegisterEmpty.value() == 1,
        InterruptState::ReceivedDataAvailable.value() == 2,
        InterruptState::ReceiverLineStatus.value() == 3,
        FifoBufferState::NoFifo.value() == 0,
        FifoBufferState::EnabledButUnusable.value() == 1,
        FifoBufferState::Enabled.value() == 2,
        UART_CLOCK_HZ == 115_200,
        DATA_REGISTER == 0 && DIVISOR_LATCH_LOW_REGISTER == 0 && DIVISOR_LATCH_HIGH_REGISTER == 1,
        INTERRUPT_ENABLE_REGISTER == 1 && FIFO_CONTROL_REGISTER == 2
            && INTERRUPT_IDENTIFICATION_REGISTER == 2,
        LINE_CONTROL_REGISTER == 3 && MODEM_CONTROL_REGISTER == 4 && SCRATCH_REGISTER == 7,
        line_control_byte(
            LineControls {
                data_bits: DataBits::Bits8,
                stop_bits: StopBits::Bits1,
                parity_bits: ParityBits::Odd,
                break_enabled: false,
                divisor_latch_access_enabled: false,
            },
        ) == 0x0b,
{
}

/// Where each field sits in the register bytes: interrupt enable with
/// received data in bit 0, transmitter empty in bit 1, line status in bit
/// 2, modem status in bit 3; line control with data bits in bits 0-1, stop
/// bits in bit 2, parity in bits 3-5, break in bit 6, divisor latch access
/// in bit 7; modem control with DTR, RTS, OUT1, OUT2 and loopback in bits
/// 0 to 4; FIFO control with enable in bit 0, buffers to clear in bits 1-2
/// and the trigger level in bits 6-7.
pub proof fn law_uart_register_layout(
    interrupts: EnabledInterrupts,
    line: LineControls,
    modem: ModemControls,
    fifo: FifoControls,
)
    ensures
        interrupt_enable_byte(interrupts) % 2 == bit(interrupts.received_data_available),
        (interrupt_enable_byte(interrupts) / 2) % 2 == bit(interrupts.transmitter_holding_register_empty),
        (interrupt_enable_byte(interrupts) / 4) % 2 == bit(interrupts.receiver_line_status),
        (interrupt_enable_byte(interrupts) / 8) % 2 == bit(interrupts.modem_status),
        interrupt_enable_byte(interrupts) < 16,
        line_control_byte(line) % 4 == line.data_bits.value(),
        (line_control_byte(line) / 4) % 2 == line.stop_bits.value(),
        (line_control_byte(line) / 8) % 8 == line.parity_bits.value(),
        (line_control_byte(line) / 64) % 2 == bit(line.break_enabled),
        line_control_byte(line) / 128 == bit(line.divisor_latch_access_enabled),
        modem_control_byte(modem) % 2 == bit(modem.data_terminal_ready),
        (modem_control_byte(modem) / 2) % 2 == bit(modem.request_to_send),
        (modem_control_byte(modem) / 4) % 2 == bit(modem.out_1),
        (modem_control_byte(modem) / 8) % 2 == bit(modem.out_2),
        (modem_control_byte(modem) / 16) % 2 == bit(modem.loopback),
        modem_control_byte(modem) < 32,
        fifo_control_byte(fifo) % 2 == bit(fifo.enable_fifos),
        (fifo_control_byte(fifo) / 2) % 4 == fifo.clear_buffers.value(),
        (fifo_control_byte(fifo) / 8) % 8 == 0,
        fifo_control_byte(fifo) / 64 == fifo.interrupt_trigger_level.value(),
{
    law_interrupt_enable_round_trip(interrupts, 0);
    law_modem_control_round_trip(modem, 0);
    lemma_line_control_layout(line);
    lemma_fifo_control_layout(fifo);
}

/// Where the fields of a line control byte sit.
proof fn lemma_line_control_layout(line: LineControls)
    ensures
        line_control_byte(line) % 4 == line.data_bits.value(),
        (line_control_byte(line) / 4) % 2 == line.stop_bits.value(),
        (line_control_byte(line) / 8) % 8 == line.parity_bits.value(),
        (line_control_byte(line) / 64) % 2 == bit(line.break_enabled),
        line_control_byte(line) / 128 == bit(line.divisor_latch_access_enabled),
{
    let a = line.data_bits.value();
    let b = line.stop_bits.value();
    let c = line.parity_bits.value();
    let d = bit(line.break_enabled);
    let e = bit(line.divisor_latch_access_enabled);
    assert({
        let x = (a + 4 * b + 8 * c + 64 * d + 128 * e) as u8;
        &&& x % 4 == a
        &&& (x / 4) % 2 == b
        &&& (x / 8) % 8 == c
        &&& (x / 64) % 2 == d
        &&& x / 128 == e
    }) by (bit_vector)
        requires
            a <= 3,
            b <= 1,
            c <= 7,
            d <= 1,
            e <= 1,
    ;
}

/// Where the fields of a FIFO control byte sit.
proof fn lemma_fifo_control_layout(fifo: FifoControls)
    ensures
        fifo_control_byte(fifo) % 2 == bit(fifo.enable_fifos),
        (fifo_control_byte(fifo) / 2) % 4 == fifo.clear_buffers.value(),
        (fifo_control_byte(fifo) / 8) % 8 == 0,
        fifo_control_byte(fifo) / 64 == fifo.interrupt_trigger_level.value(),
{
    let a = bit(fifo.enable_fifos);
    let b = fifo.clear_buffers.value();
    let c = fifo.interrupt_trigger_level.value();
    assert({
        let x = (a + 2 * b + 64 * c) as u8;
        &&& x % 2 == a
        &&& (x / 2) % 4 == b
        &&& (x / 8) % 8 == 0
        &&& x / 64 == c
    }) by (bit_vector)
        requires
            a <= 1,
            b <= 3,
            c <= 3,
    ;
}

} // verus!
