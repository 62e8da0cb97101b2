use vstd::prelude::*;
use crate::datastructures::spscqueue::SpscQueue;
use crate::kernel::io::IoPort;
use crate::sync::spinlock::SpinLock;

verus! {

/// The PS/2 keyboard: scancodes arrive from the data port into a queue and
/// are decoded into key events when polled.
pub struct Keyboard {
    port: IoPort,
    scancode_buffer: SpscQueue<u8, 17>,
    state: SpinLock<KeyboardState>,
}

/// The part of the keyboard that decoding changes.
pub struct KeyboardState {
    pub scancode_decoder: ScanCodeDecoder,
}

/// The keyboard's data port.
pub const KEYBOARD_DATA_PORT: u16 = 0x60;

impl Keyboard {
    /// The keyboard's internal invariant.
    pub closed spec fn wf(&self) -> bool {
        &&& self.scancode_buffer.wf()
        &&& self.state.is_available()
    }

    /// The scancodes received and not yet decoded, oldest first.
    pub closed spec fn pending(&self) -> Seq<u8> {
        self.scancode_buffer@
    }

    /// Where the decoder stands.
    pub closed spec fn decoder_state(&self) -> DecodeState {
        self.state.value().scancode_decoder.state
    }

    /// The address of the port that scancodes are read from.
    pub closed spec fn data_port(&self) -> u16 {
        self.port.address()
    }

    /// A keyboard with no pending scancode and a decoder at the start of a sequence.
    pub fn new() -> (r: Self)
        ensures
            r.wf(),
            r.pending() == Seq::<u8>::empty(),
            r.decoder_state() == DecodeState::Start,
            r.data_port() == KEYBOARD_DATA_PORT,
    {
        Keyboard {
            port: IoPort::new(KEYBOARD_DATA_PORT),
            scancode_buffer: SpscQueue::new(),
            state: SpinLock::new(KeyboardState { scancode_decoder: ScanCodeDecoder::new() }),
        }
    }

    /// The address of the port that scancodes are read from.
    pub fn port(&self) -> (r: u16)
        ensures
            r == self.data_port(),
    {
        self.port.port()
    }

    /// Whether the scancode queue is full (16 pending scancodes), so that
    /// further bytes from the data port are being dropped.
    pub fn scancode_buffer_full(&self) -> (r: bool)
        requires
            self.wf(),
        ensures
            r == (self.pending().len() == 16),
    {
        self.scancode_buffer.len() == 16
    }

    /// Takes in a byte read from the data port; the byte is dropped when
    /// 16 scancodes are already pending.
    pub fn on_data(&mut self, byte: u8)
        requires
            old(self).wf(),
        ensures
            final(self).wf(),
            final(self).decoder_state() == old(self).decoder_state(),
            final(self).data_port() == old(self).data_port(),
            old(self).pending().len() < 16 ==> final(self).pending() == old(self).pending().push(byte),
            old(self).pending().len() >= 16 ==> final(self).pending() == old(self).pending(),
    {
        proof {
            self.scancode_buffer.lemma_len_below_capacity();
        }
        let _ = self.scancode_buffer.push_back(byte);
    }

    /// Decodes the oldest pending scancode: returns the key event it
    /// completes, if any. Returns `None` and changes nothing when no
    /// scancode is pending.
    pub fn poll_event(&mut self) -> (r: Option<KeyEvent>)
        requires
            old(self).wf(),
        ensures
            final(self).wf(),
            final(self).data_port() == old(self).data_port(),
            old(self).pending().len() == 0 ==> r is None && final(self).pending() == old(
                self,
            ).pending() && final(self).decoder_state() == old(self).decoder_state(),
            old(self).pending().len() > 0 ==> {
                let step = decode_step(old(self).decoder_state(), old(self).pending()[0]);
                &&& final(self).pending() == old(self).pending().drop_first()
                &&& final(self).decoder_state() == state_after(step)
                &&& r == event_of(step)
            },
    {
        let scancode = match self.scancode_buffer.pop_front() {
            Some(scancode) => scancode,
            None => return None,
        };
        let mut lock = self.state.lock();
        let state = lock.deref_mut();
        let event = state.scancode_decoder.push_scancode(scancode);
        lock.release();
        event
    }
}

/// Whether a key went down or came up.
#[derive(Debug, Clone, Copy, PartialEq, Eq, Structural)]
pub enum KeyAction {
    Press,
    Release,
}

/// A key of a PC keyboard.
#[derive(Debug, Clone, Copy, PartialEq, Eq, Structural)]
pub enum KeyCode {
    KeyEsc,
    KeyF1,
    KeyF2,
    KeyF3,
    KeyF4,
    KeyF5,
    KeyF6,
    KeyF7,
    KeyF8,
    KeyF9,
    KeyF10,
    KeyF11,
    KeyF12,
    KeyBackTick,
    Key1,
    Key2,
    Key3,
    Key4,
    Key5,
    Key6,
    Key7,
    Key8,
    Key9,
    Key0,
    KeyMinus,
    KeyEquals,
    KeyBackspace,
    KeyTab,
    KeyQ,
    KeyW,
    KeyE,
    KeyR,
    KeyT,
    KeyY,
    KeyU,
    KeyI,
    KeyO,
    KeyP,
    KeyLeftSquareBracket,
    KeyRightSquareBracket,
    KeyBackslash,
    KeyCapsLock,
    KeyA,
    KeyS,
    KeyD,
    KeyF,
    KeyG,
    KeyH,
    KeyJ,
    KeyK,
    KeyL,
    KeySemicolon,
    KeyApostrophe,
    KeyEnter,
    KeyLeftShift,
    KeyZ,
    KeyX,
    KeyC,
    KeyV,
    KeyN,
    KeyB,
    KeyM,
    KeyComma,
    KeyPeriod,
    KeySlash,
    KeyRightShift,
    KeyLeftControl,
    KeyLeftBoss,
    KeyLeftAlt,
    KeySpace,
    KeyRightAlt,
    KeyRightBoss,
    KeyRightControl,
    KeyPrintScreen,
    KeyScrollLock,
    KeyPause,
    KeyHome,
    KeyPageUp,
    KeyDelete,
    KeyEnd,
    KeyPageDown,
    KeyArrowUp,
    KeyArrowLeft,
    KeyArrowDown,
    KeyArrowRight,
    KeyInsert,
}

/// A key going down or up.
#[derive(Debug, Clone, Copy, PartialEq, Eq, Structural)]
pub struct KeyEvent {
    pub key_code: KeyCode,
    pub action: KeyAction,
}

/// Where the decoder stands inside a multi-byte scancode sequence.
#[derive(Debug, Clone, Copy, PartialEq, Eq, Structural)]
pub enum DecodeState {
    /// Waiting for the first byte of a sequence.
    Start,
    /// After the `0xE0` prefix of an extended key.
    TwoBytes,
    /// Inside the four-byte print-screen sequence; the number is how many
    /// of its bytes were read.
    PrintScreen(KeyAction, u8),
    /// Inside the six-byte pause sequence; the number is how many of its
    /// bytes were read.
    Pause(u8),
}

/// What one scancode byte means for the decoder.
#[derive(Debug, Clone, Copy, PartialEq, Eq, Structural)]
pub enum DecodeResult {
    /// The byte completes a key event.
    Decoded(KeyCode, KeyAction),
    /// The byte continues a sequence, which goes on in the given state.
    Incomplete(DecodeState),
    /// The byte fits no known sequence.
    Unrecognized,
}

/// Decodes the bytes of scancode set 1 into key events.
pub struct ScanCodeDecoder {
    pub state: DecodeState,
}

/// The action that bit 7 of a scancode encodes: set for a release.
pub open spec fn scancode_action(scancode: u8) -> KeyAction {
    if scancode >= 0x80 {
        KeyAction::Release
    } else {
        KeyAction::Press
    }
}

/// The key that the lower seven bits of a one-byte scancode name, if any.
pub open spec fn single_byte_key_code(lower_7_bits: u8) -> Option<KeyCode> {
    match lower_7_bits {
        0x01 => Some(KeyCode::KeyEsc),
        0x02 => Some(KeyCode::Key1),
        0x03 => Some(KeyCode::Key2),
        0x04 => Some(KeyCode::Key3),
        0x05 => Some(KeyCode::Key4),
        0x06 => Some(KeyCode::Key5),
        0x07 => Some(KeyCode::Key6),
        0x08 => Some(KeyCode::Key7),
        0x09 => Some(KeyCode::Key8),
        0x0a => Some(KeyCode::Key9),
        0x0b => Some(KeyCode::Key0),
        0x0c => Some(KeyCode::KeyMinus),
        0x0d => Some(KeyCode::KeyEquals),
        0x0e => Some(KeyCode::KeyBackspace),
        0x0f => Some(KeyCode::KeyTab),
        0x10 => Some(KeyCode::KeyQ),
        0x11 => Some(KeyCode::KeyW),
        0x12 => Some(KeyCode::KeyE),
        0x13 => Some(KeyCode::KeyR),
        0x14 => Some(KeyCode::KeyT),
        0x15 => Some(KeyCode::KeyY),
        0x16 => Some(KeyCode::KeyU),
        0x17 => Some(KeyCode::KeyI),
        0x18 => Some(KeyCode::KeyO),
        0x19 => Some(KeyCode::KeyP),
        0x1a => Some(KeyCode::KeyLeftSquareBracket),
        0x1b => Some(KeyCode::KeyRightSquareBracket),
        0x1c => Some(KeyCode::KeyEnter),
        0x1d => Some(KeyCode::KeyLeftControl),
        0x1e => Some(KeyCode::KeyA),
        0x1f => Some(KeyCode::KeyS),
        0x20 => Some(KeyCode::KeyD),
        0x21 => Some(KeyCode::KeyF),
        0x22 => Some(KeyCode::KeyG),
        0x23 => Some(KeyCode::KeyH),
        0x24 => Some(KeyCode::KeyJ),
        0x25 => Some(KeyCode::KeyK),
        0x26 => Some(KeyCode::KeyL),
        0x27 => Some(KeyCode::KeySemicolon),
        0x28 => Some(KeyCode::KeyApostrophe),
        0x29 => Some(KeyCode::KeyBackTick),
        0x2a => Some(KeyCode::KeyLeftShift),
        0x2b => Some(KeyCode::KeyBackslash),
        0x2c => Some(KeyCode::KeyZ),
        0x2d => Some(KeyCode::KeyX),
        0x2e => Some(KeyCode::KeyC),
        0x2f => Some(KeyCode::KeyV),
        0x30 => Some(KeyCode::KeyB),
        0x31 => Some(KeyCode::KeyN),
        0x32 => Some(KeyCode::KeyM),
        0x33 => Some(KeyCode::KeyComma),
        0x34 => Some(KeyCode::KeyPeriod),
        0x35 => Some(KeyCode::KeySlash),
        0x36 => Some(KeyCode::KeyRightShift),
        0x38 => Some(KeyCode::KeyLeftAlt),
        0x39 => Some(KeyCode::KeySpace),
        0x3a => Some(KeyCode::KeyCapsLock),
        0x3b => Some(KeyCode::KeyF1),
        0x3c => Some(KeyCode::KeyF2),
        0x3d => Some(KeyCode::KeyF3),
        0x3e => Some(KeyCode::KeyF4),
        0x3f => Some(KeyCode::KeyF5),
        0x40 => Some(KeyCode::KeyF6),
        0x41 => Some(KeyCode::KeyF7),
        0x42 => Some(KeyCode::KeyF8),
        0x43 => Some(KeyCode::KeyF9),
        0x44 => Some(KeyCode::KeyF10),
        0x46 => Some(KeyCode::KeyScrollLock),
        0x57 => Some(KeyCode::KeyF11),
        0x58 => Some(KeyCode::KeyF12),
        _ => None,
    }
}

/// The key that the lower seven bits of the byte after an `0xE0` prefix name, if any.
pub open spec fn double_byte_key_code(lower_7_bits: u8) -> Option<KeyCode> {
    match lower_7_bits {
        0x38 => Some(KeyCode::KeyRightAlt),
        0x47 => Some(KeyCode::KeyHome),
        0x48 => Some(KeyCode::KeyArrowUp),
        0x49 => Some(KeyCode::KeyPageUp),
        0x4b => Some(KeyCode::KeyArrowLeft),
        0x4d => Some(KeyCode::KeyArrowRight),
        0x4f => Some(KeyCode::KeyEnd),
        0x50 => Some(KeyCode::KeyArrowDown),
        0x51 => Some(KeyCode::KeyPageDown),
        0x52 => Some(KeyCode::KeyInsert),
        0x53 => Some(KeyCode::KeyDelete),
        0x5b => Some(KeyCode::KeyLeftBoss),
        0x5c => Some(KeyCode::KeyRightBoss),
        0x1d => Some(KeyCode::KeyRightControl),
        _ => None,
    }
}

/// The meaning of a one-byte scancode.
pub open spec fn single_byte_result(scancode: u8) -> DecodeResult {
    match single_byte_key_code((scancode % 128) as u8) {
        Some(key_code) => DecodeResult::Decoded(key_code, scancode_action(scancode)),
        None => DecodeResult::Unrecognized,
    }
}

/// The meaning of the byte that follows an `0xE0` prefix.
pub open spec fn double_byte_result(scancode: u8) -> DecodeResult {
    match double_byte_key_code((scancode % 128) as u8) {
        Some(key_code) => DecodeResult::Decoded(key_code, scancode_action(scancode)),
        None => DecodeResult::Unrecognized,
    }
}

/// The meaning of `scancode` when the decoder is in `state`.
pub open spec fn decode_step(state: DecodeState, scancode: u8) -> DecodeResult {
    match state {
        DecodeState::Start => {
            if scancode == 0xE0 {
                DecodeResult::Incomplete(DecodeState::TwoBytes)
            } else if scancode == 0xE1 {
                DecodeResult::Incomplete(DecodeState::Pause(1))
            } else {
                single_byte_result(scancode)
            }
        },
        DecodeState::TwoBytes => {
            if scancode == 0x2A {
                DecodeResult::Incomplete(DecodeState::PrintScreen(KeyAction::Press, 2))
            } else if scancode == 0xB7 {
                DecodeResult::Incomplete(DecodeState::PrintScreen(KeyAction::Release, 2))
            } else {
                double_byte_result(scancode)
            }
        },
        DecodeState::Pause(read) => {
            if read == 1 && scancode == 0x1D {
                DecodeResult::Incomplete(DecodeState::Pause(2))
            } else if read == 2 && scancode == 0x45 {
                DecodeResult::Incomplete(DecodeState::Pause(3))
            } else if read == 3 && scancode == 0xE1 {
                DecodeResult::Incomplete(DecodeState::Pause(4))
            } else if read == 4 && scancode == 0x9D {
                DecodeResult::Incomplete(DecodeState::Pause(5))
            } else if read == 5 && scancode == 0xC5 {
                DecodeResult::Decoded(KeyCode::KeyPause, KeyAction::Press)
            } else {
                DecodeResult::Unrecognized
            }
        },
        DecodeState::PrintScreen(action, read) => {
            if read == 2 && scancode == 0xE0 {
                DecodeResult::Incomplete(DecodeState::PrintScreen(action, 3))
            } else if read == 3 && action == KeyAction::Press && scancode == 0x37 {
                DecodeResult::Decoded(KeyCode::KeyPrintScreen, KeyAction::Press)
            } else if read == 3 && action == KeyAction::Release && scancode == 0xAA {
                DecodeResult::Decoded(KeyCode::KeyPrintScreen, KeyAction::Release)
            } else {
                DecodeResult::Unrecognized
            }
        },
    }
}

/// The decoder state after a byte with meaning `result`.
pub open spec fn state_after(result: DecodeResult) -> DecodeState {
    match result {
        DecodeResult::Incomplete(state) => state,
        _ => DecodeState::Start,
    }
}

/// The event reported for a byte with meaning `result`.
pub open spec fn event_of(result: DecodeResult) -> Option<KeyEvent> {
    match result {
        DecodeResult::Decoded(key_code, action) => Some(KeyEvent { key_code, action }),
        _ => None,
    }
}

/// The ASCII byte that a key types, if it types one.
pub open spec fn key_ascii(key_code: KeyCode) -> Option<u8> {
    match key_code {
        KeyCode::Key0 => Some(0x30), // '0'
        KeyCode::Key1 => Some(0x31), // '1'
        KeyCode::Key2 => Some(0x32), // '2'
        KeyCode::Key3 => Some(0x33), // '3'
        KeyCode::Key4 => Some(0x34), // '4'
        KeyCode::Key5 => Some(0x35), // '5'
        KeyCode::Key6 => Some(0x36), // '6'
        KeyCode::Key7 => Some(0x37), // '7'
        KeyCode::Key8 => Some(0x38), // '8'
        KeyCode::Key9 => Some(0x39), // '9'
        KeyCode::KeyA => Some(0x61), // 'a'
        KeyCode::KeyB => Some(0x62), // 'b'
        KeyCode::KeyC => Some(0x63), // 'c'
        KeyCode::KeyD => Some(0x64), // 'd'
        KeyCode::KeyE => Some(0x65), // 'e'
        KeyCode::KeyF => Some(0x66), // 'f'
        KeyCode::KeyG => Some(0x67), // 'g'
        KeyCode::KeyH => Some(0x68), // 'h'
        KeyCode::KeyI => Some(0x69), // 'i'
        KeyCode::KeyJ => Some(0x6a), // 'j'
        KeyCode::KeyK => Some(0x6b), // 'k'
        KeyCode::KeyL => Some(0x6c), // 'l'
        KeyCode::KeyM => Some(0x6d), // 'm'
        KeyCode::KeyN => Some(0x6e), // 'n'
        KeyCode::KeyO => Some(0x6f), // 'o'
        KeyCode::KeyP => Some(0x70), // 'p'
        KeyCode::KeyQ => Some(0x71), // 'q'
        KeyCode::KeyR => Some(0x72), // 'r'
        KeyCode::KeyS => Some(0x73), // 's'
        KeyCode::KeyT => Some(0x74), // 't'
        KeyCode::KeyU => Some(0x75), // 'u'
        KeyCode::KeyV => Some(0x76), // 'v'
        KeyCode::KeyW => Some(0x77), // 'w'
        KeyCode::KeyX => Some(0x78), // 'x'
        KeyCode::KeyY => Some(0x79), // 'y'
        KeyCode::KeyZ => Some(0x7a), // 'z'
        KeyCode::KeySpace => Some(0x20), // ' '
        KeyCode::KeyEnter => Some(0x0a), // '\n'
        KeyCode::KeyTab => Some(0x09), // '\t'
        KeyCode::KeyMinus => Some(0x2d), // '-'
        KeyCode::KeyEquals => Some(0x3d), // '='
        KeyCode::KeyApostrophe => Some(0x27), // "'"
        KeyCode::KeyBackTick => Some(0x60), // '`'
        KeyCode::KeyComma => Some(0x2c), // ','
        KeyCode::KeyPeriod => Some(0x2e), // '.'
        KeyCode::KeySlash => Some(0x2f), // '/'
        KeyCode::KeyBackslash => Some(0x5c), // '\\'
        KeyCode::KeyLeftSquareBracket => Some(0x5b), // '['
        KeyCode::KeyRightSquareBracket => Some(0x5d), // ']'
        _ => None,
    }
}

/// Splits a scancode into its action (bit 7) and its lower seven bits.
pub fn extract_action(scancode: u8) -> (r: (KeyAction, u8))
    ensures
        r.0 == scancode_action(scancode),
        r.1 == scancode % 128,
{
    let action = if scancode >> 7 == 1 {
        KeyAction::Release
    } else {
        KeyAction::Press
    };
    let lower_7_bits = scancode & !(1u8 << 7);
    assert(scancode >> 7 == 1 <==> scancode >= 0x80) by (bit_vector);
    assert(scancode & !(1u8 << 7) == scancode % 128) by (bit_vector);
    (action, lower_7_bits)
}

fn single_byte_key_code_exec(lower_7_bits: u8) -> (r: Option<KeyCode>)
    ensures
        r == single_byte_key_code(lower_7_bits),
{
    match lower_7_bits {
        0x01 => Some(KeyCode::KeyEsc),
        0x02 => Some(KeyCode::Key1),
        0x03 => Some(KeyCode::Key2),
        0x04 => Some(KeyCode::Key3),
        0x05 => Some(KeyCode::Key4),
        0x06 => Some(KeyCode::Key5),
        0x07 => Some(KeyCode::Key6),
        0x08 => Some(KeyCode::Key7),
        0x09 => Some(KeyCode::Key8),
        0x0a => Some(KeyCode::Key9),
        0x0b => Some(KeyCode::Key0),
        0x0c => Some(KeyCode::KeyMinus),
        0x0d => Some(KeyCode::KeyEquals),
        0x0e => Some(KeyCode::KeyBackspace),
        0x0f => Some(KeyCode::KeyTab),
        0x10 => Some(KeyCode::KeyQ),
        0x11 => Some(KeyCode::KeyW),
        0x12 => Some(KeyCode::KeyE),
        0x13 => Some(KeyCode::KeyR),
        0x14 => Some(KeyCode::KeyT),
        0x15 => Some(KeyCode::KeyY),
        0x16 => Some(KeyCode::KeyU),
        0x17 => Some(KeyCode::KeyI),
        0x18 => Some(KeyCode::KeyO),
        0x19 => Some(KeyCode::KeyP),
        0x1a => Some(KeyCode::KeyLeftSquareBracket),
        0x1b => Some(KeyCode::KeyRightSquareBracket),
        0x1c => Some(KeyCode::KeyEnter),
        0x1d => Some(KeyCode::KeyLeftControl),
        0x1e => Some(KeyCode::KeyA),
        0x1f => Some(KeyCode::KeyS),
        0x20 => Some(KeyCode::KeyD),
        0x21 => Some(KeyCode::KeyF),
        0x22 => Some(KeyCode::KeyG),
        0x23 => Some(KeyCode::KeyH),
        0x24 => Some(KeyCode::KeyJ),
        0x25 => Some(KeyCode::KeyK),
        0x26 => Some(KeyCode::KeyL),
        0x27 => Some(KeyCode::KeySemicolon),
        0x28 => Some(KeyCode::KeyApostrophe),
        0x29 => Some(KeyCode::KeyBackTick),
        0x2a => Some(KeyCode::KeyLeftShift),
        0x2b => Some(KeyCode::KeyBackslash),
        0x2c => Some(KeyCode::KeyZ),
        0x2d => Some(KeyCode::KeyX),
        0x2e => Some(KeyCode::KeyC),
        0x2f => Some(KeyCode::KeyV),
        0x30 => Some(KeyCode::KeyB),
        0x31 => Some(KeyCode::KeyN),
        0x32 => Some(KeyCode::KeyM),
        0x33 => Some(KeyCode::KeyComma),
        0x34 => Some(KeyCode::KeyPeriod),
        0x35 => Some(KeyCode::KeySlash),
        0x36 => Some(KeyCode::KeyRightShift),
        0x38 => Some(KeyCode::KeyLeftAlt),
        0x39 => Some(KeyCode::KeySpace),
        0x3a => Some(KeyCode::KeyCapsLock),
        0x3b => Some(KeyCode::KeyF1),
        0x3c => Some(KeyCode::KeyF2),
        0x3d => Some(KeyCode::KeyF3),
        0x3e => Some(KeyCode::KeyF4),
        0x3f => Some(KeyCode::KeyF5),
        0x40 => Some(KeyCode::KeyF6),
        0x41 => Some(KeyCode::KeyF7),
        0x42 => Some(KeyCode::KeyF8),
        0x43 => Some(KeyCode::KeyF9),
        0x44 => Some(KeyCode::KeyF10),
        0x46 => Some(KeyCode::KeyScrollLock),
        0x57 => Some(KeyCode::KeyF11),
        0x58 => Some(KeyCode::KeyF12),
        _ => None,
    }
}

fn double_byte_key_code_exec(lower_7_bits: u8) -> (r: Option<KeyCode>)
    ensures
        r == double_byte_key_code(lower_7_bits),
{
    match lower_7_bits {
        0x38 => Some(KeyCode::KeyRightAlt),
        0x47 => Some(KeyCode::KeyHome),
        0x48 => Some(KeyCode::KeyArrowUp),
        0x49 => Some(KeyCode::KeyPageUp),
        0x4b => Some(KeyCode::KeyArrowLeft),
        0x4d => Some(KeyCode::KeyArrowRight),
        0x4f => Some(KeyCode::KeyEnd),
        0x50 => Some(KeyCode::KeyArrowDown),
        0x51 => Some(KeyCode::KeyPageDown),
        0x52 => Some(KeyCode::KeyInsert),
        0x53 => Some(KeyCode::KeyDelete),
        0x5b => Some(KeyCode::KeyLeftBoss),
        0x5c => Some(KeyCode::KeyRightBoss),
        0x1d => Some(KeyCode::KeyRightControl),
        _ => None,
    }
}

impl ScanCodeDecoder {
    /// A decoder waiting for the first byte of a sequence.
    pub fn new() -> (r: Self)
        ensures
            r.state == DecodeState::Start,
    {
        Self { state: DecodeState::Start }
    }

    /// Feeds one byte to the decoder; returns the key event that the byte
    /// completes, if any, and moves to the state that follows.
    pub fn push_scancode(&mut self, scancode: u8) -> (r: Option<KeyEvent>)
        ensures
            final(self).state == state_after(decode_step(old(self).state, scancode)),
            r == event_of(decode_step(old(self).state, scancode)),
    {
        let result = match (self.state, scancode) {
            (DecodeState::Start, 0xE0) => DecodeResult::Incomplete(DecodeState::TwoBytes),
            (DecodeState::Start, 0xE1) => DecodeResult::Incomplete(DecodeState::Pause(1)),
            (DecodeState::Start, scancode) => Self::decode_single_byte(scancode),
            (DecodeState::TwoBytes, 0x2A) => DecodeResult::Incomplete(
                DecodeState::PrintScreen(KeyAction::Press, 2),
            ),
            (DecodeState::TwoBytes, 0xB7) => DecodeResult::Incomplete(
                DecodeState::PrintScreen(KeyAction::Release, 2),
            ),
            (DecodeState::TwoBytes, scancode) => Self::decode_double_byte(scancode),
            (DecodeState::Pause(1), 0x1D) => DecodeResult::Incomplete(DecodeState::Pause(2)),
            (DecodeState::Pause(2), 0x45) => DecodeResult::Incomplete(DecodeState::Pause(3)),
            (DecodeState::Pause(3), 0xE1) => DecodeResult::Incomplete(DecodeState::Pause(4)),
            (DecodeState::Pause(4), 0x9D) => DecodeResult::Incomplete(DecodeState::Pause(5)),
            (DecodeState::Pause(5), 0xC5) => DecodeResult::Decoded(
                KeyCode::KeyPause,
                KeyAction::Press,
            ),
            (DecodeState::PrintScreen(action, 2), 0xE0) => DecodeResult::Incomplete(
                DecodeState::PrintScreen(action, 3),
            ),
            (DecodeState::PrintScreen(KeyAction::Press, 3), 0x37) => DecodeResult::Decoded(
                KeyCode::KeyPrintScreen,
                KeyAction::Press,
            ),
            (DecodeState::PrintScreen(KeyAction::Release, 3), 0xAA) => DecodeResult::Decoded(
                KeyCode::KeyPrintScreen,
                KeyAction::Release,
            ),
            _ => DecodeResult::Unrecognized,
        };
        match result {
            DecodeResult::Decoded(key_code, action) => {
                self.state = DecodeState::Start;
                Some(KeyEvent { key_code, action })
            },
            DecodeResult::Incomplete(state) => {
                self.state = state;
                None
            },
            DecodeResult::Unrecognized => {
                self.state = DecodeState::Start;
                None
            },
        }
    }

    /// The meaning of a one-byte scancode.
    pub fn decode_single_byte(scancode: u8) -> (r: DecodeResult)
        ensures
            r == single_byte_result(scancode),
    {
        let (action, lower_7_bits) = extract_action(scancode);
        match single_byte_key_code_exec(lower_7_bits) {
            Some(key_code) => DecodeResult::Decoded(key_code, action),
            None => DecodeResult::Unrecognized,
        }
    }

    /// The meaning of the byte that follows an `0xE0` prefix.
    pub fn decode_double_byte(scancode: u8) -> (r: DecodeResult)
        ensures
            r == double_byte_result(scancode),
    {
        let (action, lower_7_bits) = extract_action(scancode);
        match double_byte_key_code_exec(lower_7_bits) {
            Some(key_code) => DecodeResult::Decoded(key_code, action),
            None => DecodeResult::Unrecognized,
        }
    }
}

/// The ASCII byte that `key_code` types, or `None` for keys that type none.
pub fn key_code_to_ascii(key_code: KeyCode) -> (r: Option<u8>)
    ensures
        r == key_ascii(key_code),
{
    match key_code {
        KeyCode::Key0 => Some(0x30), // '0'
        KeyCode::Key1 => Some(0x31), // '1'
        KeyCode::Key2 => Some(0x32), // '2'
        KeyCode::Key3 => Some(0x33), // '3'
        KeyCode::Key4 => Some(0x34), // '4'
        KeyCode::Key5 => Some(0x35), // '5'
        KeyCode::Key6 => Some(0x36), // '6'
        KeyCode::Key7 => Some(0x37), // '7'
        KeyCode::Key8 => Some(0x38), // '8'
        KeyCode::Key9 => Some(0x39), // '9'
        KeyCode::KeyA => Some(0x61), // 'a'
        KeyCode::KeyB => Some(0x62), // 'b'
        KeyCode::KeyC => Some(0x63), // 'c'
        KeyCode::KeyD => Some(0x64), // 'd'
        KeyCode::KeyE => Some(0x65), // 'e'
        KeyCode::KeyF => Some(0x66), // 'f'
        KeyCode::KeyG => Some(0x67), // 'g'
        KeyCode::KeyH => Some(0x68), // 'h'
        KeyCode::KeyI => Some(0x69), // 'i'
        KeyCode::KeyJ => Some(0x6a), // 'j'
        KeyCode::KeyK => Some(0x6b), // 'k'
        KeyCode::KeyL => Some(0x6c), // 'l'
        KeyCode::KeyM => Some(0x6d), // 'm'
        KeyCode::KeyN => Some(0x6e), // 'n'
        KeyCode::KeyO => Some(0x6f), // 'o'
        KeyCode::KeyP => Some(0x70), // 'p'
        KeyCode::KeyQ => Some(0x71), // 'q'
        KeyCode::KeyR => Some(0x72), // 'r'
        KeyCode::KeyS => Some(0x73), // 's'
        KeyCode::KeyT => Some(0x74), // 't'
        KeyCode::KeyU => Some(0x75), // 'u'
        KeyCode::KeyV => Some(0x76), // 'v'
        KeyCode::KeyW => Some(0x77), // 'w'
        KeyCode::KeyX => Some(0x78), // 'x'
        KeyCode::KeyY => Some(0x79), // 'y'
        KeyCode::KeyZ => Some(0x7a), // 'z'
        KeyCode::KeySpace => Some(0x20), // ' '
        KeyCode::KeyEnter => Some(0x0a), // '\n'
        KeyCode::KeyTab => Some(0x09), // '\t'
        KeyCode::KeyMinus => Some(0x2d), // '-'
        KeyCode::KeyEquals => Some(0x3d), // '='
        KeyCode::KeyApostrophe => Some(0x27), // "'"
        KeyCode::KeyBackTick => Some(0x60), // '`'
        KeyCode::KeyComma => Some(0x2c), // ','
        KeyCode::KeyPeriod => Some(0x2e), // '.'
        KeyCode::KeySlash => Some(0x2f), // '/'
        KeyCode::KeyBackslash => Some(0x5c), // '\\'
        KeyCode::KeyLeftSquareBracket => Some(0x5b), // '['
        KeyCode::KeyRightSquareBracket => Some(0x5d), // ']'
        _ => None,
    }
}

/// The key that types the ASCII byte `byte`, if any.
pub open spec fn ascii_key(byte: u8) -> Option<KeyCode> {
    match byte {
        0x30 => Some(KeyCode::Key0), // '0'
        0x31 => Some(KeyCode::Key1), // '1'
        0x32 => Some(KeyCode::Key2), // '2'
        0x33 => Some(KeyCode::Key3), // '3'
        0x34 => Some(KeyCode::Key4), // '4'
        0x35 => Some(KeyCode::Key5), // '5'
        0x36 => Some(KeyCode::Key6), // '6'
        0x37 => Some(KeyCode::Key7), // '7'
        0x38 => Some(KeyCode::Key8), // '8'
        0x39 => Some(KeyCode::Key9), // '9'
        0x61 => Some(KeyCode::KeyA), // 'a'
        0x62 => Some(KeyCode::KeyB), // 'b'
        0x63 => Some(KeyCode::KeyC), // 'c'
        0x64 => Some(KeyCode::KeyD), // 'd'
        0x65 => Some(KeyCode::KeyE), // 'e'
        0x66 => Some(KeyCode::KeyF), // 'f'
        0x67 => Some(KeyCode::KeyG), // 'g'
        0x68 => Some(KeyCode::KeyH), // 'h'
        0x69 => Some(KeyCode::KeyI), // 'i'
        0x6a => Some(KeyCode::KeyJ), // 'j'
        0x6b => Some(KeyCode::KeyK), // 'k'
        0x6c => Some(KeyCode::KeyL), // 'l'
        0x6d => Some(KeyCode::KeyM), // 'm'
        0x6e => Some(KeyCode::KeyN), // 'n'
        0x6f => Some(KeyCode::KeyO), // 'o'
        0x70 => Some(KeyCode::KeyP), // 'p'
        0x71 => Some(KeyCode::KeyQ), // 'q'
        0x72 => Some(KeyCode::KeyR), // 'r'
        0x73 => Some(KeyCode::KeyS), // 's'
        0x74 => Some(KeyCode::KeyT), // 't'
        0x75 => Some(KeyCode::KeyU), // 'u'
        0x76 => Some(KeyCode::KeyV), // 'v'
        0x77 => Some(KeyCode::KeyW), // 'w'
        0x78 => Some(KeyCode::KeyX), // 'x'
        0x79 => Some(KeyCode::KeyY), // 'y'
        0x7a => Some(KeyCode::KeyZ), // 'z'
        0x20 => Some(KeyCode::KeySpace), // ' '
        0x0a => Some(KeyCode::KeyEnter), // '\n'
        0x09 => Some(KeyCode::KeyTab), // '\t'
        0x2d => Some(KeyCode::KeyMinus), // '-'
        0x3d => Some(KeyCode::KeyEquals), // '='
        0x27 => Some(KeyCode::KeyApostrophe), // "'"
        0x60 => Some(KeyCode::KeyBackTick), // '`'
        0x2c => Some(KeyCode::KeyComma), // ','
        0x2e => Some(KeyCode::KeyPeriod), // '.'
        0x2f => Some(KeyCode::KeySlash), // '/'
        0x5c => Some(KeyCode::KeyBackslash), // '\\'
        0x5b => Some(KeyCode::KeyLeftSquareBracket), // '['
        0x5d => Some(KeyCode::KeyRightSquareBracket), // ']'
        _ => None,
    }
}

/// How many more bytes the sequence that the decoder is inside can take
/// before it ends, at most.
pub open spec fn bytes_left(state: DecodeState) -> nat {
    match state {
        DecodeState::Start => 0,
        DecodeState::TwoBytes => 3,
        DecodeState::PrintScreen(_, read) => if read == 2 {
            2
        } else {
            1
        },
        DecodeState::Pause(read) => if 1 <= read <= 5 {
            (6 - read) as nat
        } else {
            1
        },
    }
}

/// A one-byte key is pressed by its scancode and released by the same
/// scancode with bit 7 set; likewise for the byte after the `0xE0` prefix
/// of an extended key.
pub proof fn law_release_code_mirrors_press_code(code: u8)
    requires
        code < 0x80,
    ensures
        single_byte_key_code(code) is Some ==> {
            &&& decode_step(DecodeState::Start, code) == DecodeResult::Decoded(
                single_byte_key_code(code)->0,
                KeyAction::Press,
            )
            &&& decode_step(DecodeState::Start, (code + 0x80) as u8) == DecodeResult::Decoded(
                single_byte_key_code(code)->0,
                KeyAction::Release,
            )
        },
        double_byte_key_code(code) is Some ==> {
            &&& decode_step(DecodeState::TwoBytes, code) == DecodeResult::Decoded(
                double_byte_key_code(code)->0,
                KeyAction::Press,
            )
            &&& decode_step(DecodeState::TwoBytes, (code + 0x80) as u8) == DecodeResult::Decoded(
                double_byte_key_code(code)->0,
                KeyAction::Release,
            )
        },
{
    assert((code + 0x80) as u8 % 128 == code);
    assert(code % 128 == code);
}

/// A byte that completes an event or fits no sequence puts the decoder back
/// at the start; from the start, every byte but the two prefixes `0xE0` and
/// `0xE1` is decoded on its own.
pub proof fn law_decoder_resets(state: DecodeState, scancode: u8)
    ensures
        decode_step(state, scancode) !is Incomplete ==> state_after(decode_step(state, scancode))
            == DecodeState::Start,
        event_of(decode_step(state, scancode)) is Some ==> state_after(
            decode_step(state, scancode),
        ) == DecodeState::Start,
        state == DecodeState::Start && scancode != 0xE0 && scancode != 0xE1 ==> decode_step(
            state,
            scancode,
        ) !is Incomplete,
{
}

/// Inside a sequence every byte brings the decoder closer to the start:
/// whatever bytes arrive, it is back at the start within five bytes.
pub proof fn law_sequences_end(state: DecodeState, scancode: u8)
    ensures
        bytes_left(state) <= 5,
        state != DecodeState::Start ==> bytes_left(state_after(decode_step(state, scancode)))
            < bytes_left(state),
{
}

/// Distinct keys type distinct bytes, and every byte typed is printable
/// ASCII, a newline or a tab.
pub proof fn law_key_ascii_is_injective(key_code: KeyCode, other: KeyCode)
    ensures
        key_ascii(key_code) is Some ==> ascii_key(key_ascii(key_code)->0) == Some(key_code),
        key_ascii(key_code) is Some && key_ascii(key_code) == key_ascii(other) ==> key_code
            == other,
        key_ascii(key_code) is Some ==> {
            let byte = key_ascii(key_code)->0;
            (0x20 <= byte < 0x7f) || byte == 0x0a || byte == 0x09
        },
{
    if key_ascii(key_code) is Some && key_ascii(key_code) == key_ascii(other) {
        assert(ascii_key(key_ascii(other)->0) == Some(other));
    }
}

/// Scancode set 1, one-byte codes: each make code names the key at that
/// position of a PC/AT keyboard and its break code (bit 7 set) releases
/// it; every other code below `0x80` is not recognized.
pub proof fn law_scancode_set_one()
    ensures
        decode_step(DecodeState::Start, 0x01) == DecodeResult::Decoded(KeyCode::KeyEsc, KeyAction::Press),
        decode_step(DecodeState::Start, 0x81) == DecodeResult::Decoded(KeyCode::KeyEsc, KeyAction::Release),
        decode_step(DecodeState::Start, 0x02) == DecodeResult::Decoded(KeyCode::Key1, KeyAction::Press),
        decode_step(DecodeState::Start, 0x82) == DecodeResult::Decoded(KeyCode::Key1, KeyAction::Release),
        decode_step(DecodeState::Start, 0x03) == DecodeResult::Decoded(KeyCode::Key2, KeyAction::Press),
        decode_step(DecodeState::Start, 0x83) == DecodeResult::Decoded(KeyCode::Key2, KeyAction::Release),
        decode_step(DecodeState::Start, 0x04) == DecodeResult::Decoded(KeyCode::Key3, KeyAction::Press),
        decode_step(DecodeState::Start, 0x84) == DecodeResult::Decoded(KeyCode::Key3, KeyAction::Release),
        decode_step(DecodeState::Start, 0x05) == DecodeResult::Decoded(KeyCode::Key4, KeyAction::Press),
        decode_step(DecodeState::Start, 0x85) == DecodeResult::Decoded(KeyCode::Key4, KeyAction::Release),
        decode_step(DecodeState::Start, 0x06) == DecodeResult::Decoded(KeyCode::Key5, KeyAction::Press),
        decode_step(DecodeState::Start, 0x86) == DecodeResult::Decoded(KeyCode::Key5, KeyAction::Release),
        decode_step(DecodeState::Start, 0x07) == DecodeResult::Decoded(KeyCode::Key6, KeyAction::Press),
        decode_step(DecodeState::Start, 0x87) == DecodeResult::Decoded(KeyCode::Key6, KeyAction::Release),
        decode_step(DecodeState::Start, 0x08) == DecodeResult::Decoded(KeyCode::Key7, KeyAction::Press),
        decode_step(DecodeState::Start, 0x88) == DecodeResult::Decoded(KeyCode::Key7, KeyAction::Release),
        decode_step(DecodeState::Start, 0x09) == DecodeResult::Decoded(KeyCode::Key8, KeyAction::Press),
        decode_step(DecodeState::Start, 0x89) == DecodeResult::Decoded(KeyCode::Key8, KeyAction::Release),
        decode_step(DecodeState::Start, 0x0a) == DecodeResult::Decoded(KeyCode::Key9, KeyAction::Press),
        decode_step(DecodeState::Start, 0x8a) == DecodeResult::Decoded(KeyCode::Key9, KeyAction::Release),
        decode_step(DecodeState::Start, 0x0b) == DecodeResult::Decoded(KeyCode::Key0, KeyAction::Press),
        decode_step(DecodeState::Start, 0x8b) == DecodeResult::Decoded(KeyCode::Key0, KeyAction::Release),
        decode_step(DecodeState::Start, 0x0c) == DecodeResult::Decoded(KeyCode::KeyMinus, KeyAction::Press),
        decode_step(DecodeState::Start, 0x8c) == DecodeResult::Decoded(KeyCode::KeyMinus, KeyAction::Release),
        decode_step(DecodeState::Start, 0x0d) == DecodeResult::Decoded(KeyCode::KeyEquals, KeyAction::Press),
        decode_step(DecodeState::Start, 0x8d) == DecodeResult::Decoded(KeyCode::KeyEquals, KeyAction::Release),
        decode_step(DecodeState::Start, 0x0e) == DecodeResult::Decoded(KeyCode::KeyBackspace, KeyAction::Press),
        decode_step(DecodeState::Start, 0x8e) == DecodeResult::Decoded(KeyCode::KeyBackspace, KeyAction::Release),
        decode_step(DecodeState::Start, 0x0f) == DecodeResult::Decoded(KeyCode::KeyTab, KeyAction::Press),
        decode_step(DecodeState::Start, 0x8f) == DecodeResult::Decoded(KeyCode::KeyTab, KeyAction::Release),
        decode_step(DecodeState::Start, 0x10) == DecodeResult::Decoded(KeyCode::KeyQ, KeyAction::Press),
        decode_step(DecodeState::Start, 0x90) == DecodeResult::Decoded(KeyCode::KeyQ, KeyAction::Release),
        decode_step(DecodeState::Start, 0x11) == DecodeResult::Decoded(KeyCode::KeyW, KeyAction::Press),
        decode_step(DecodeState::Start, 0x91) == DecodeResult::Decoded(KeyCode::KeyW, KeyAction::Release),
        decode_step(DecodeState::Start, 0x12) == DecodeResult::Decoded(KeyCode::KeyE, KeyAction::Press),
        decode_step(DecodeState::Start, 0x92) == DecodeResult::Decoded(KeyCode::KeyE, KeyAction::Release),
        decode_step(DecodeState::Start, 0x13) == DecodeResult::Decoded(KeyCode::KeyR, KeyAction::Press),
        decode_step(DecodeState::Start, 0x93) == DecodeResult::Decoded(KeyCode::KeyR, KeyAction::Release),
        decode_step(DecodeState::Start, 0x14) == DecodeResult::Decoded(KeyCode::KeyT, KeyAction::Press),
        decode_step(DecodeState::Start, 0x94) == DecodeResult::Decoded(KeyCode::KeyT, KeyAction::Release),
        decode_step(DecodeState::Start, 0x15) == DecodeResult::Decoded(KeyCode::KeyY, KeyAction::Press),
        decode_step(DecodeState::Start, 0x95) == DecodeResult::Decoded(KeyCode::KeyY, KeyAction::Release),
        decode_step(DecodeState::Start, 0x16) == DecodeResult::Decoded(KeyCode::KeyU, KeyAction::Press),
        decode_step(DecodeState::Start, 0x96) == DecodeResult::Decoded(KeyCode::KeyU, KeyAction::Release),
        decode_step(DecodeState::Start, 0x17) == DecodeResult::Decoded(KeyCode::KeyI, KeyAction::Press),
        decode_step(DecodeState::Start, 0x97) == DecodeResult::Decoded(KeyCode::KeyI, KeyAction::Release),
        decode_step(DecodeState::Start, 0x18) == DecodeResult::Decoded(KeyCode::KeyO, KeyAction::Press),
        decode_step(DecodeState::Start, 0x98) == DecodeResult::Decoded(KeyCode::KeyO, KeyAction::Release),
        decode_step(DecodeState::Start, 0x19) == DecodeResult::Decoded(KeyCode::KeyP, KeyAction::Press),
        decode_step(DecodeState::Start, 0x99) == DecodeResult::Decoded(KeyCode::KeyP, KeyAction::Release),
        decode_step(DecodeState::Start, 0x1a) == DecodeResult::Decoded(KeyCode::KeyLeftSquareBracket, KeyAction::Press),
        decode_step(DecodeState::Start, 0x9a) == DecodeResult::Decoded(KeyCode::KeyLeftSquareBracket, KeyAction::Release),
        decode_step(DecodeState::Start, 0x1b) == DecodeResult::Decoded(KeyCode::KeyRightSquareBracket, KeyAction::Press),
        decode_step(DecodeState::Start, 0x9b) == DecodeResult::Decoded(KeyCode::KeyRightSquareBracket, KeyAction::Release),
        decode_step(DecodeState::Start, 0x1c) == DecodeResult::Decoded(KeyCode::KeyEnter, KeyAction::Press),
        decode_step(DecodeState::Start, 0x9c) == DecodeResult::Decoded(KeyCode::KeyEnter, KeyAction::Release),
        decode_step(DecodeState::Start, 0x1d) == DecodeResult::Decoded(KeyCode::KeyLeftControl, KeyAction::Press),
        decode_step(DecodeState::Start, 0x9d) == DecodeResult::Decoded(KeyCode::KeyLeftControl, KeyAction::Release),
        decode_step(DecodeState::Start, 0x1e) == DecodeResult::Decoded(KeyCode::KeyA, KeyAction::Press),
        decode_step(DecodeState::Start, 0x9e) == DecodeResult::Decoded(KeyCode::KeyA, KeyAction::Release),
        decode_step(DecodeState::Start, 0x1f) == DecodeResult::Decoded(KeyCode::KeyS, KeyAction::Press),
        decode_step(DecodeState::Start, 0x9f) == DecodeResult::Decoded(KeyCode::KeyS, KeyAction::Release),
        decode_step(DecodeState::Start, 0x20) == DecodeResult::Decoded(KeyCode::KeyD, KeyAction::Press),
        decode_step(DecodeState::Start, 0xa0) == DecodeResult::Decoded(KeyCode::KeyD, KeyAction::Release),
        decode_step(DecodeState::Start, 0x21) == DecodeResult::Decoded(KeyCode::KeyF, KeyAction::Press),
        decode_step(DecodeState::Start, 0xa1) == DecodeResult::Decoded(KeyCode::KeyF, KeyAction::Release),
        decode_step(DecodeState::Start, 0x22) == DecodeResult::Decoded(KeyCode::KeyG, KeyAction::Press),
        decode_step(DecodeState::Start, 0xa2) == DecodeResult::Decoded(KeyCode::KeyG, KeyAction::Release),
        decode_step(DecodeState::Start, 0x23) == DecodeResult::Decoded(KeyCode::KeyH, KeyAction::Press),
        decode_step(DecodeState::Start, 0xa3) == DecodeResult::Decoded(KeyCode::KeyH, KeyAction::Release),
        decode_step(DecodeState::Start, 0x24) == DecodeResult::Decoded(KeyCode::KeyJ, KeyAction::Press),
        decode_step(DecodeState::Start, 0xa4) == DecodeResult::Decoded(KeyCode::KeyJ, KeyAction::Release),
        decode_step(DecodeState::Start, 0x25) == DecodeResult::Decoded(KeyCode::KeyK, KeyAction::Press),
        decode_step(DecodeState::Start, 0xa5) == DecodeResult::Decoded(KeyCode::KeyK, KeyAction::Release),
        decode_step(DecodeState::Start, 0x26) == DecodeResult::Decoded(KeyCode::KeyL, KeyAction::Press),
        decode_step(DecodeState::Start, 0xa6) == DecodeResult::Decoded(KeyCode::KeyL, KeyAction::Release),
        decode_step(DecodeState::Start, 0x27) == DecodeResult::Decoded(KeyCode::KeySemicolon, KeyAction::Press),
        decode_step(DecodeState::Start, 0xa7) == DecodeResult::Decoded(KeyCode::KeySemicolon, KeyAction::Release),
        decode_step(DecodeState::Start, 0x28) == DecodeResult::Decoded(KeyCode::KeyApostrophe, KeyAction::Press),
        decode_step(DecodeState::Start, 0xa8) == DecodeResult::Decoded(KeyCode::KeyApostrophe, KeyAction::Release),
        decode_step(DecodeState::Start, 0x29) == DecodeResult::Decoded(KeyCode::KeyBackTick, KeyAction::Press),
        decode_step(DecodeState::Start, 0xa9) == DecodeResult::Decoded(KeyCode::KeyBackTick, KeyAction::Release),
        decode_step(DecodeState::Start, 0x2a) == DecodeResult::Decoded(KeyCode::KeyLeftShift, KeyAction::Press),
        decode_step(DecodeState::Start, 0xaa) == DecodeResult::Decoded(KeyCode::KeyLeftShift, KeyAction::Release),
        decode_step(DecodeState::Start, 0x2b) == DecodeResult::Decoded(KeyCode::KeyBackslash, KeyAction::Press),
        decode_step(DecodeState::Start, 0xab) == DecodeResult::Decoded(KeyCode::KeyBackslash, KeyAction::Release),
        decode_step(DecodeState::Start, 0x2c) == DecodeResult::Decoded(KeyCode::KeyZ, KeyAction::Press),
        decode_step(DecodeState::Start, 0xac) == DecodeResult::Decoded(KeyCode::KeyZ, KeyAction::Release),
        decode_step(DecodeState::Start, 0x2d) == DecodeResult::Decoded(KeyCode::KeyX, KeyAction::Press),
        decode_step(DecodeState::Start, 0xad) == DecodeResult::Decoded(KeyCode::KeyX, KeyAction::Release),
        decode_step(DecodeState::Start, 0x2e) == DecodeResult::Decoded(KeyCode::KeyC, KeyAction::Press),
        decode_step(DecodeState::Start, 0xae) == DecodeResult::Decoded(KeyCode::KeyC, KeyAction::Release),
        decode_step(DecodeState::Start, 0x2f) == DecodeResult::Decoded(KeyCode::KeyV, KeyAction::Press),
        decode_step(DecodeState::Start, 0xaf) == DecodeResult::Decoded(KeyCode::KeyV, KeyAction::Release),
        decode_step(DecodeState::Start, 0x30) == DecodeResult::Decoded(KeyCode::KeyB, KeyAction::Press),
        decode_step(DecodeState::Start, 0xb0) == DecodeResult::Decoded(KeyCode::KeyB, KeyAction::Release),
        decode_step(DecodeState::Start, 0x31) == DecodeResult::Decoded(KeyCode::KeyN, KeyAction::Press),
        decode_step(DecodeState::Start, 0xb1) == DecodeResult::Decoded(KeyCode::KeyN, KeyAction::Release),
        decode_step(DecodeState::Start, 0x32) == DecodeResult::Decoded(KeyCode::KeyM, KeyAction::Press),
        decode_step(DecodeState::Start, 0xb2) == DecodeResult::Decoded(KeyCode::KeyM, KeyAction::Release),
        decode_step(DecodeState::Start, 0x33) == DecodeResult::Decoded(KeyCode::KeyComma, KeyAction::Press),
        decode_step(DecodeState::Start, 0xb3) == DecodeResult::Decoded(KeyCode::KeyComma, KeyAction::Release),
        decode_step(DecodeState::Start, 0x34) == DecodeResult::Decoded(KeyCode::KeyPeriod, KeyAction::Press),
        decode_step(DecodeState::Start, 0xb4) == DecodeResult::Decoded(KeyCode::KeyPeriod, KeyAction::Release),
        decode_step(DecodeState::Start, 0x35) == DecodeResult::Decoded(KeyCode::KeySlash, KeyAction::Press),
        decode_step(DecodeState::Start, 0xb5) == DecodeResult::Decoded(KeyCode::KeySlash, KeyAction::Release),
        decode_step(DecodeState::Start, 0x36) == DecodeResult::Decoded(KeyCode::KeyRightShift, KeyAction::Press),
        decode_step(DecodeState::Start, 0xb6) == DecodeResult::Decoded(KeyCode::KeyRightShift, KeyAction::Release),
        decode_step(DecodeState::Start, 0x38) == DecodeResult::Decoded(KeyCode::KeyLeftAlt, KeyAction::Press),
        decode_step(DecodeState::Start, 0xb8) == DecodeResult::Decoded(KeyCode::KeyLeftAlt, KeyAction::Release),
        decode_step(DecodeState::Start, 0x39) == DecodeResult::Decoded(KeyCode::KeySpace, KeyAction::Press),
        decode_step(DecodeState::Start, 0xb9) == DecodeResult::Decoded(KeyCode::KeySpace, KeyAction::Release),
        decode_step(DecodeState::Start, 0x3a) == DecodeResult::Decoded(KeyCode::KeyCapsLock, KeyAction::Press),
        decode_step(DecodeState::Start, 0xba) == DecodeResult::Decoded(KeyCode::KeyCapsLock, KeyAction::Release),
        decode_step(DecodeState::Start, 0x3b) == DecodeResult::Decoded(KeyCode::KeyF1, KeyAction::Press),
        decode_step(DecodeState::Start, 0xbb) == DecodeResult::Decoded(KeyCode::KeyF1, KeyAction::Release),
        decode_step(DecodeState::Start, 0x3c) == DecodeResult::Decoded(KeyCode::KeyF2, KeyAction::Press),
        decode_step(DecodeState::Start, 0xbc) == DecodeResult::Decoded(KeyCode::KeyF2, KeyAction::Release),
        decode_step(DecodeState::Start, 0x3d) == DecodeResult::Decoded(KeyCode::KeyF3, KeyAction::Press),
        decode_step(DecodeState::Start, 0xbd) == DecodeResult::Decoded(KeyCode::KeyF3, KeyAction::Release),
        decode_step(DecodeState::Start, 0x3e) == DecodeResult::Decoded(KeyCode::KeyF4, KeyAction::Press),
        decode_step(DecodeState::Start, 0xbe) == DecodeResult::Decoded(KeyCode::KeyF4, KeyAction::Release),
        decode_step(DecodeState::Start, 0x3f) == DecodeResult::Decoded(KeyCode::KeyF5, KeyAction::Press),
        decode_step(DecodeState::Start, 0xbf) == DecodeResult::Decoded(KeyCode::KeyF5, KeyAction::Release),
        decode_step(DecodeState::Start, 0x40) == DecodeResult::Decoded(KeyCode::KeyF6, KeyAction::Press),
        decode_step(DecodeState::Start, 0xc0) == DecodeResult::Decoded(KeyCode::KeyF6, KeyAction::Release),
        decode_step(DecodeState::Start, 0x41) == DecodeResult::Decoded(KeyCode::KeyF7, KeyAction::Press),
        decode_step(DecodeState::Start, 0xc1) == DecodeResult::Decoded(KeyCode::KeyF7, KeyAction::Release),
        decode_step(DecodeState::Start, 0x42) == DecodeResult::Decoded(KeyCode::KeyF8, KeyAction::Press),
        decode_step(DecodeState::Start, 0xc2) == DecodeResult::Decoded(KeyCode::KeyF8, KeyAction::Release),
        decode_step(DecodeState::Start, 0x43) == DecodeResult::Decoded(KeyCode::KeyF9, KeyAction::Press),
        decode_step(DecodeState::Start, 0xc3) == DecodeResult::Decoded(KeyCode::KeyF9, KeyAction::Release),
        decode_step(DecodeState::Start, 0x44) == DecodeResult::Decoded(KeyCode::KeyF10, KeyAction::Press),
        decode_step(DecodeState::Start, 0xc4) == DecodeResult::Decoded(KeyCode::KeyF10, KeyAction::Release),
        decode_step(DecodeState::Start, 0x46) == DecodeResult::Decoded(KeyCode::KeyScrollLock, KeyAction::Press),
        decode_step(DecodeState::Start, 0xc6) == DecodeResult::Decoded(KeyCode::KeyScrollLock, KeyAction::Release),
        decode_step(DecodeState::Start, 0x57) == DecodeResult::Decoded(KeyCode::KeyF11, KeyAction::Press),
        decode_step(DecodeState::Start, 0xd7) == DecodeResult::Decoded(KeyCode::KeyF11, KeyAction::Release),
        decode_step(DecodeState::Start, 0x58) == DecodeResult::Decoded(KeyCode::KeyF12, KeyAction::Press),
        decode_step(DecodeState::Start, 0xd8) == DecodeResult::Decoded(KeyCode::KeyF12, KeyAction::Release),
        forall|code: u8|
            code < 0x80 && !(code == 0x01 || code == 0x02 || code == 0x03 || code == 0x04 || code == 0x05 || code == 0x06 || code == 0x07 || code == 0x08 || code == 0x09 || code == 0x0a || code == 0x0b || code == 0x0c || code == 0x0d || code == 0x0e || code == 0x0f || code == 0x10 || code == 0x11 || code == 0x12 || code == 0x13 || code == 0x14 || code == 0x15 || code == 0x16 || code == 0x17 || code == 0x18 || code == 0x19 || code == 0x1a || code == 0x1b || code == 0x1c || code == 0x1d || code == 0x1e || code == 0x1f || code == 0x20 || code == 0x21 || code == 0x22 || code == 0x23 || code == 0x24 || code == 0x25 || code == 0x26 || code == 0x27 || code == 0x28 || code == 0x29 || code == 0x2a || code == 0x2b || code == 0x2c || code == 0x2d || code == 0x2e || code == 0x2f || code == 0x30 || code == 0x31 || code == 0x32 || code == 0x33 || code == 0x34 || code == 0x35 || code == 0x36 || code == 0x38 || code == 0x39 || code == 0x3a || code == 0x3b || code == 0x3c || code == 0x3d || code == 0x3e || code == 0x3f || code == 0x40 || code == 0x41 || code == 0x42 || code == 0x43 || code == 0x44 || code == 0x46 || code == 0x57 || code == 0x58) ==> decode_step(DecodeState::Start, code)
                == DecodeResult::Unrecognized,
{
}

/// Scancode set 1, codes after the `0xE0` prefix: the extended keys and
/// their break codes; every other code below `0x80` but the print-screen
/// start `0x2A` is not recognized.
pub proof fn law_scancode_set_one_extended()
    ensures
        decode_step(DecodeState::TwoBytes, 0x38) == DecodeResult::Decoded(KeyCode::KeyRightAlt, KeyAction::Press),
        decode_step(DecodeState::TwoBytes, 0xb8) == DecodeResult::Decoded(KeyCode::KeyRightAlt, KeyAction::Release),
        decode_step(DecodeState::TwoBytes, 0x47) == DecodeResult::Decoded(KeyCode::KeyHome, KeyAction::Press),
        decode_step(DecodeState::TwoBytes, 0xc7) == DecodeResult::Decoded(KeyCode::KeyHome, KeyAction::Release),
        decode_step(DecodeState::TwoBytes, 0x48) == DecodeResult::Decoded(KeyCode::KeyArrowUp, KeyAction::Press),
        decode_step(DecodeState::TwoBytes, 0xc8) == DecodeResult::Decoded(KeyCode::KeyArrowUp, KeyAction::Release),
        decode_step(DecodeState::TwoBytes, 0x49) == DecodeResult::Decoded(KeyCode::KeyPageUp, KeyAction::Press),
        decode_step(DecodeState::TwoBytes, 0xc9) == DecodeResult::Decoded(KeyCode::KeyPageUp, KeyAction::Release),
        decode_step(DecodeState::TwoBytes, 0x4b) == DecodeResult::Decoded(KeyCode::KeyArrowLeft, KeyAction::Press),
        decode_step(DecodeState::TwoBytes, 0xcb) == DecodeResult::Decoded(KeyCode::KeyArrowLeft, KeyAction::Release),
        decode_step(DecodeState::TwoBytes, 0x4d) == DecodeResult::Decoded(KeyCode::KeyArrowRight, KeyAction::Press),
        decode_step(DecodeState::TwoBytes, 0xcd) == DecodeResult::Decoded(KeyCode::KeyArrowRight, KeyAction::Release),
        decode_step(DecodeState::TwoBytes, 0x4f) == DecodeResult::Decoded(KeyCode::KeyEnd, KeyAction::Press),
        decode_step(DecodeState::TwoBytes, 0xcf) == DecodeResult::Decoded(KeyCode::KeyEnd, KeyAction::Release),
        decode_step(DecodeState::TwoBytes, 0x50) == DecodeResult::Decoded(KeyCode::KeyArrowDown, KeyAction::Press),
        decode_step(DecodeState::TwoBytes, 0xd0) == DecodeResult::Decoded(KeyCode::KeyArrowDown, KeyAction::Release),
        decode_step(DecodeState::TwoBytes, 0x51) == DecodeResult::Decoded(KeyCode::KeyPageDown, KeyAction::Press),
        decode_step(DecodeState::TwoBytes, 0xd1) == DecodeResult::Decoded(KeyCode::KeyPageDown, KeyAction::Release),
        decode_step(DecodeState::TwoBytes, 0x52) == DecodeResult::Decoded(KeyCode::KeyInsert, KeyAction::Press),
        decode_step(DecodeState::TwoBytes, 0xd2) == DecodeResult::Decoded(KeyCode::KeyInsert, KeyAction::Release),
        decode_step(DecodeState::TwoBytes, 0x53) == DecodeResult::Decoded(KeyCode::KeyDelete, KeyAction::Press),
        decode_step(DecodeState::TwoBytes, 0xd3) == DecodeResult::Decoded(KeyCode::KeyDelete, KeyAction::Release),
        decode_step(DecodeState::TwoBytes, 0x5b) == DecodeResult::Decoded(KeyCode::KeyLeftBoss, KeyAction::Press),
        decode_step(DecodeState::TwoBytes, 0xdb) == DecodeResult::Decoded(KeyCode::KeyLeftBoss, KeyAction::Release),
        decode_step(DecodeState::TwoBytes, 0x5c) == DecodeResult::Decoded(KeyCode::KeyRightBoss, KeyAction::Press),
        decode_step(DecodeState::TwoBytes, 0xdc) == DecodeResult::Decoded(KeyCode::KeyRightBoss, KeyAction::Release),
        decode_step(DecodeState::TwoBytes, 0x1d) == DecodeResult::Decoded(KeyCode::KeyRightControl, KeyAction::Press),
        decode_step(DecodeState::TwoBytes, 0x9d) == DecodeResult::Decoded(KeyCode::KeyRightControl, KeyAction::Release),
        forall|code: u8|
            code < 0x80 && code != 0x2A && !(code == 0x38 || code == 0x47 || code == 0x48 || code == 0x49 || code == 0x4b || code == 0x4d || code == 0x4f || code == 0x50 || code == 0x51 || code == 0x52 || code == 0x53 || code == 0x5b || code == 0x5c || code == 0x1d) ==> decode_step(DecodeState::TwoBytes, code)
                == DecodeResult::Unrecognized,
{
}

/// The multi-byte sequences of scancode set 1: `E0 2A E0 37` presses
/// print screen, `E0 B7 E0 AA` releases it, and `E1 1D 45 E1 9D C5`
/// presses pause; no byte before the last reports an event.
pub proof fn law_multi_byte_sequences()
    ensures
        decode_step(DecodeState::Start, 0xE0) == DecodeResult::Incomplete(DecodeState::TwoBytes),
        decode_step(DecodeState::TwoBytes, 0x2A) == DecodeResult::Incomplete(
            DecodeState::PrintScreen(KeyAction::Press, 2),
        ),
        decode_step(DecodeState::PrintScreen(KeyAction::Press, 2), 0xE0) == DecodeResult::Incomplete(
            DecodeState::PrintScreen(KeyAction::Press, 3),
        ),
        decode_step(DecodeState::PrintScreen(KeyAction::Press, 3), 0x37) == DecodeResult::Decoded(
            KeyCode::KeyPrintScreen,
            KeyAction::Press,
        ),
        decode_step(DecodeState::TwoBytes, 0xB7) == DecodeResult::Incomplete(
            DecodeState::PrintScreen(KeyAction::Release, 2),
        ),
        decode_step(DecodeState::PrintScreen(KeyAction::Release, 2), 0xE0)
            == DecodeResult::Incomplete(DecodeState::PrintScreen(KeyAction::Release, 3)),
        decode_step(DecodeState::PrintScreen(KeyAction::Release, 3), 0xAA) == DecodeResult::Decoded(
            KeyCode::KeyPrintScreen,
            KeyAction::Release,
        ),
        decode_step(DecodeState::Start, 0xE1) == DecodeResult::Incomplete(DecodeState::Pause(1)),
        decode_step(DecodeState::Pause(1), 0x1D) == DecodeResult::Incomplete(DecodeState::Pause(2)),
        decode_step(DecodeState::Pause(2), 0x45) == DecodeResult::Incomplete(DecodeState::Pause(3)),
        decode_step(DecodeState::Pause(3), 0xE1) == DecodeResult::Incomplete(DecodeState::Pause(4)),
        decode_step(DecodeState::Pause(4), 0x9D) == DecodeResult::Incomplete(DecodeState::Pause(5)),
        decode_step(DecodeState::Pause(5), 0xC5) == DecodeResult::Decoded(
            KeyCode::KeyPause,
            KeyAction::Press,
        ),
        decode_step(DecodeState::PrintScreen(KeyAction::Press, 3), 0xAA) == DecodeResult::Unrecognized,
        decode_step(DecodeState::PrintScreen(KeyAction::Release, 3), 0x37)
            == DecodeResult::Unrecognized,
{
}

/// The bytes printed on the rows of a US keyboard, left to right.
pub open spec fn digit_row() -> Seq<u8> {
    seq![0x31, 0x32, 0x33, 0x34, 0x35, 0x36, 0x37, 0x38, 0x39, 0x30]
}

/// The letters printed on the top letter row, left to right.
pub open spec fn top_letter_row() -> Seq<u8> {
    seq![0x71, 0x77, 0x65, 0x72, 0x74, 0x79, 0x75, 0x69, 0x6f, 0x70]
}

/// The letters printed on the middle letter row, left to right.
pub open spec fn home_letter_row() -> Seq<u8> {
    seq![0x61, 0x73, 0x64, 0x66, 0x67, 0x68, 0x6a, 0x6b, 0x6c]
}

/// The letters printed on the bottom letter row, left to right.
pub open spec fn bottom_letter_row() -> Seq<u8> {
    seq![0x7a, 0x78, 0x63, 0x76, 0x62, 0x6e, 0x6d]
}

/// The byte that the key of one-byte make code `code` types, if any.
pub open spec fn typed_by_code(code: u8) -> Option<u8> {
    match decode_step(DecodeState::Start, code) {
        DecodeResult::Decoded(key_code, _) => key_ascii(key_code),
        _ => None,
    }
}

/// Typing follows the keyboard's layout: make codes run along each row, so
/// consecutive codes from `0x02`, `0x10`, `0x1E` and `0x2C` type the digit
/// row and the three letter rows left to right, and the punctuation keys,
/// space, enter and tab type their characters.
pub proof fn law_typing_follows_the_layout()
    ensures
        forall|i: int| 0 <= i < 10 ==> #[trigger] typed_by_code((0x02 + i) as u8) == Some(digit_row()[i]),
        forall|i: int| 0 <= i < 10 ==> #[trigger] typed_by_code((0x10 + i) as u8) == Some(top_letter_row()[i]),
        forall|i: int| 0 <= i < 9 ==> #[trigger] typed_by_code((0x1E + i) as u8) == Some(home_letter_row()[i]),
        forall|i: int| 0 <= i < 7 ==> #[trigger] typed_by_code((0x2C + i) as u8) == Some(bottom_letter_row()[i]),
        typed_by_code(0x0C) == Some(0x2du8),
        typed_by_code(0x0D) == Some(0x3du8),
        typed_by_code(0x0F) == Some(0x09u8),
        typed_by_code(0x1A) == Some(0x5bu8),
        typed_by_code(0x1B) == Some(0x5du8),
        typed_by_code(0x1C) == Some(0x0au8),
        typed_by_code(0x28) == Some(0x27u8),
        typed_by_code(0x29) == Some(0x60u8),
        typed_by_code(0x2B) == Some(0x5cu8),
        typed_by_code(0x33) == Some(0x2cu8),
        typed_by_code(0x34) == Some(0x2eu8),
        typed_by_code(0x35) == Some(0x2fu8),
        typed_by_code(0x39) == Some(0x20u8),
{
    lemma_row_digit_row();
    lemma_row_top_letter_row();
    lemma_row_home_letter_row();
    lemma_row_bottom_letter_row();
}

/// The keys of one row type its characters left to right.
proof fn lemma_row_digit_row()
    ensures
        forall|i: int| 0 <= i < 10 ==> #[trigger] typed_by_code((0x02 + i) as u8) == Some(digit_row()[i]),
{
    assert forall|i: int| 0 <= i < 10 implies #[trigger] typed_by_code((0x02 + i) as u8) == Some(digit_row()[i]) by {
    if i == 0 {
        assert(typed_by_code(0x02) == Some(digit_row()[0]));
    } else if i == 1 {
        assert(typed_by_code(0x03) == Some(digit_row()[1]));
    } else if i == 2 {
        assert(typed_by_code(0x04) == Some(digit_row()[2]));
    } else if i == 3 {
        assert(typed_by_code(0x05) == Some(digit_row()[3]));
    } else if i == 4 {
        assert(typed_by_code(0x06) == Some(digit_row()[4]));
    } else if i == 5 {
        assert(typed_by_code(0x07) == Some(digit_row()[5]));
    } else if i == 6 {
        assert(typed_by_code(0x08) == Some(digit_row()[6]));
    } else if i == 7 {
        assert(typed_by_code(0x09) == Some(digit_row()[7]));
    } else if i == 8 {
        assert(typed_by_code(0x0a) == Some(digit_row()[8]));
    } else if i == 9 {
        assert(typed_by_code(0x0b) == Some(digit_row()[9]));
    }
    }
}

/// The keys of one row type its characters left to right.
proof fn lemma_row_top_letter_row()
    ensures
        forall|i: int| 0 <= i < 10 ==> #[trigger] typed_by_code((0x10 + i) as u8) == Some(top_letter_row()[i]),
{
    assert forall|i: int| 0 <= i < 10 implies #[trigger] typed_by_code((0x10 + i) as u8) == Some(top_letter_row()[i]) by {
    if i == 0 {
        assert(typed_by_code(0x10) == Some(top_letter_row()[0]));
    } else if i == 1 {
        assert(typed_by_code(0x11) == Some(top_letter_row()[1]));
    } else if i == 2 {
        assert(typed_by_code(0x12) == Some(top_letter_row()[2]));
    } else if i == 3 {
        assert(typed_by_code(0x13) == Some(top_letter_row()[3]));
    } else if i == 4 {
        assert(typed_by_code(0x14) == Some(top_letter_row()[4]));
    } else if i == 5 {
        assert(typed_by_code(0x15) == Some(top_letter_row()[5]));
    } else if i == 6 {
        assert(typed_by_code(0x16) == Some(top_letter_row()[6]));
    } else if i == 7 {
        assert(typed_by_code(0x17) == Some(top_letter_row()[7]));
    } else if i == 8 {
        assert(typed_by_code(0x18) == Some(top_letter_row()[8]));
    } else if i == 9 {
        assert(typed_by_code(0x19) == Some(top_letter_row()[9]));
    }
    }
}

/// The keys of one row type its characters left to right.
proof fn lemma_row_home_letter_row()
    ensures
        forall|i: int| 0 <= i < 9 ==> #[trigger] typed_by_code((0x1e + i) as u8) == Some(home_letter_row()[i]),
{
    assert forall|i: int| 0 <= i < 9 implies #[trigger] typed_by_code((0x1e + i) as u8) == Some(home_letter_row()[i]) by {
    if i == 0 {
        assert(typed_by_code(0x1e) == Some(home_letter_row()[0]));
    } else if i == 1 {
        assert(typed_by_code(0x1f) == Some(home_letter_row()[1]));
    } else if i == 2 {
        assert(typed_by_code(0x20) == Some(home_letter_row()[2]));
    } else if i == 3 {
        assert(typed_by_code(0x21) == Some(home_letter_row()[3]));
    } else if i == 4 {
        assert(typed_by_code(0x22) == Some(home_letter_row()[4]));
    } else if i == 5 {
        assert(typed_by_code(0x23) == Some(home_letter_row()[5]));
    } else if i == 6 {
        assert(typed_by_code(0x24) == Some(home_letter_row()[6]));
    } else if i == 7 {
        assert(typed_by_code(0x25) == Some(home_letter_row()[7]));
    } else if i == 8 {
        assert(typed_by_code(0x26) == Some(home_letter_row()[8]));
    }
    }
}

/// The keys of one row type its characters left to right.
proof fn lemma_row_bottom_letter_row()
    ensures
        forall|i: int| 0 <= i < 7 ==> #[trigger] typed_by_code((0x2c + i) as u8) == Some(bottom_letter_row()[i]),
{
    assert forall|i: int| 0 <= i < 7 implies #[trigger] typed_by_code((0x2c + i) as u8) == Some(bottom_letter_row()[i]) by {
    if i == 0 {
        assert(typed_by_code(0x2c) == Some(bottom_letter_row()[0]));
    } else if i == 1 {
        assert(typed_by_code(0x2d) == Some(bottom_letter_row()[1]));
    } else if i == 2 {
        assert(typed_by_code(0x2e) == Some(bottom_letter_row()[2]));
    } else if i == 3 {
        assert(typed_by_code(0x2f) == Some(bottom_letter_row()[3]));
    } else if i == 4 {
        assert(typed_by_code(0x30) == Some(bottom_letter_row()[4]));
    } else if i == 5 {
        assert(typed_by_code(0x31) == Some(bottom_letter_row()[5]));
    } else if i == 6 {
        assert(typed_by_code(0x32) == Some(bottom_letter_row()[6]));
    }
    }
}

/// Only the digit, letter and punctuation keys, space, enter and tab type a
/// byte; every other key (escape, function, modifier, navigation keys,
/// backspace) types none.
pub proof fn law_only_typing_keys_type(key_code: KeyCode)
    ensures
        key_ascii(key_code) is Some <==> (key_code == KeyCode::Key0 || key_code == KeyCode::Key1 || key_code == KeyCode::Key2 || key_code == KeyCode::Key3 || key_code == KeyCode::Key4 || key_code == KeyCode::Key5 || key_code == KeyCode::Key6 || key_code == KeyCode::Key7 || key_code == KeyCode::Key8 || key_code == KeyCode::Key9 || key_code == KeyCode::KeyA || key_code == KeyCode::KeyB || key_code == KeyCode::KeyC || key_code == KeyCode::KeyD || key_code == KeyCode::KeyE || key_code == KeyCode::KeyF || key_code == KeyCode::KeyG || key_code == KeyCode::KeyH || key_code == KeyCode::KeyI || key_code == KeyCode::KeyJ || key_code == KeyCode::KeyK || key_code == KeyCode::KeyL || key_code == KeyCode::KeyM || key_code == KeyCode::KeyN || key_code == KeyCode::KeyO || key_code == KeyCode::KeyP || key_code == KeyCode::KeyQ || key_code == KeyCode::KeyR || key_code == KeyCode::KeyS || key_code == KeyCode::KeyT || key_code == KeyCode::KeyU || key_code == KeyCode::KeyV || key_code == KeyCode::KeyW || key_code == KeyCode::KeyX || key_code == KeyCode::KeyY || key_code == KeyCode::KeyZ || key_code == KeyCode::KeySpace || key_code == KeyCode::KeyEnter || key_code == KeyCode::KeyTab || key_code == KeyCode::KeyMinus || key_code == KeyCode::KeyEquals || key_code == KeyCode::KeyApostrophe || key_code == KeyCode::KeyBackTick || key_code == KeyCode::KeyComma || key_code == KeyCode::KeyPeriod || key_code == KeyCode::KeySlash || key_code == KeyCode::KeyBackslash || key_code == KeyCode::KeyLeftSquareBracket || key_code == KeyCode::KeyRightSquareBracket),
{
}

} // verus!
