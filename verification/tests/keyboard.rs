use libkernel::kernel::devices::keyboard::{
    extract_action, key_code_to_ascii, DecodeResult, DecodeState, KeyAction, KeyCode, KeyEvent,
    Keyboard, ScanCodeDecoder,
};

fn press(key_code: KeyCode) -> Option<KeyEvent> {
    Some(KeyEvent { key_code, action: KeyAction::Press })
}

fn release(key_code: KeyCode) -> Option<KeyEvent> {
    Some(KeyEvent { key_code, action: KeyAction::Release })
}

#[test]
fn single_byte_press_and_release() {
    let mut decoder = ScanCodeDecoder::new();
    assert_eq!(press(KeyCode::KeyA), decoder.push_scancode(0x1e));
    assert_eq!(release(KeyCode::KeyA), decoder.push_scancode(0x9e));
    assert_eq!(press(KeyCode::KeyEsc), decoder.push_scancode(0x01));
    assert_eq!(press(KeyCode::KeyF12), decoder.push_scancode(0x58));
    assert_eq!(DecodeState::Start, decoder.state);
}

#[test]
fn release_code_is_press_code_with_bit_seven_set() {
    for code in 0u8..0x80 {
        let pressed = ScanCodeDecoder::decode_single_byte(code);
        let released = ScanCodeDecoder::decode_single_byte(code | 0x80);
        match (pressed, released) {
            (DecodeResult::Decoded(k1, a1), DecodeResult::Decoded(k2, a2)) => {
                assert_eq!(k1, k2);
                assert_eq!(KeyAction::Press, a1);
                assert_eq!(KeyAction::Release, a2);
            }
            (DecodeResult::Unrecognized, DecodeResult::Unrecognized) => {}
            _ => panic!("press and release of {code:#x} disagree"),
        }
    }
}

#[test]
fn unknown_single_bytes_are_unrecognized() {
    assert_eq!(DecodeResult::Unrecognized, ScanCodeDecoder::decode_single_byte(0x00));
    assert_eq!(DecodeResult::Unrecognized, ScanCodeDecoder::decode_single_byte(0x37));
    assert_eq!(DecodeResult::Unrecognized, ScanCodeDecoder::decode_single_byte(0x45));
    assert_eq!(DecodeResult::Unrecognized, ScanCodeDecoder::decode_single_byte(0x50));
    assert_eq!(DecodeResult::Unrecognized, ScanCodeDecoder::decode_single_byte(0x7f));
}

#[test]
fn extended_keys_need_the_prefix() {
    let mut decoder = ScanCodeDecoder::new();
    assert_eq!(None, decoder.push_scancode(0xe0));
    assert_eq!(DecodeState::TwoBytes, decoder.state);
    assert_eq!(press(KeyCode::KeyArrowUp), decoder.push_scancode(0x48));
    assert_eq!(None, decoder.push_scancode(0xe0));
    assert_eq!(release(KeyCode::KeyArrowUp), decoder.push_scancode(0xc8));
    assert_eq!(press(KeyCode::KeyHome), feed(&[0xe0, 0x47]));
    assert_eq!(release(KeyCode::KeyRightControl), feed(&[0xe0, 0x9d]));
}

fn feed(bytes: &[u8]) -> Option<KeyEvent> {
    let mut decoder = ScanCodeDecoder::new();
    let mut last = None;
    for &b in bytes {
        last = decoder.push_scancode(b);
    }
    last
}

#[test]
fn print_screen_press_and_release_sequences() {
    let mut decoder = ScanCodeDecoder::new();
    assert_eq!(None, decoder.push_scancode(0xe0));
    assert_eq!(None, decoder.push_scancode(0x2a));
    assert_eq!(None, decoder.push_scancode(0xe0));
    assert_eq!(press(KeyCode::KeyPrintScreen), decoder.push_scancode(0x37));
    assert_eq!(None, decoder.push_scancode(0xe0));
    assert_eq!(None, decoder.push_scancode(0xb7));
    assert_eq!(None, decoder.push_scancode(0xe0));
    assert_eq!(release(KeyCode::KeyPrintScreen), decoder.push_scancode(0xaa));
    assert_eq!(DecodeState::Start, decoder.state);
}

#[test]
fn pause_sequence() {
    let mut decoder = ScanCodeDecoder::new();
    for byte in [0xe1, 0x1d, 0x45, 0xe1, 0x9d] {
        assert_eq!(None, decoder.push_scancode(byte));
    }
    assert_eq!(press(KeyCode::KeyPause), decoder.push_scancode(0xc5));
    assert_eq!(DecodeState::Start, decoder.state);
}

#[test]
fn broken_sequence_resets_the_decoder() {
    let mut decoder = ScanCodeDecoder::new();
    assert_eq!(None, decoder.push_scancode(0xe1));
    assert_eq!(None, decoder.push_scancode(0x1d));
    assert_eq!(None, decoder.push_scancode(0x99));
    assert_eq!(DecodeState::Start, decoder.state);
    assert_eq!(press(KeyCode::KeyB), decoder.push_scancode(0x30));
}

#[test]
fn extract_action_splits_bit_seven() {
    assert_eq!((KeyAction::Press, 0x1e), extract_action(0x1e));
    assert_eq!((KeyAction::Release, 0x1e), extract_action(0x9e));
    assert_eq!((KeyAction::Release, 0x7f), extract_action(0xff));
}

#[test]
fn ascii_of_keys() {
    assert_eq!(Some(b'a'), key_code_to_ascii(KeyCode::KeyA));
    assert_eq!(Some(b'z'), key_code_to_ascii(KeyCode::KeyZ));
    assert_eq!(Some(b'0'), key_code_to_ascii(KeyCode::Key0));
    assert_eq!(Some(b'\n'), key_code_to_ascii(KeyCode::KeyEnter));
    assert_eq!(Some(b'\\'), key_code_to_ascii(KeyCode::KeyBackslash));
    assert_eq!(Some(b'\''), key_code_to_ascii(KeyCode::KeyApostrophe));
    assert_eq!(None, key_code_to_ascii(KeyCode::KeyBackspace));
    assert_eq!(None, key_code_to_ascii(KeyCode::KeyF1));
    assert_eq!(None, key_code_to_ascii(KeyCode::KeyLeftShift));
}

#[test]
fn distinct_keys_type_distinct_bytes() {
    let mut seen = Vec::new();
    for code in 0u8..0x80 {
        if let DecodeResult::Decoded(key, _) = ScanCodeDecoder::decode_single_byte(code) {
            if let Some(byte) = key_code_to_ascii(key) {
                assert!(!seen.contains(&byte));
                seen.push(byte);
            }
        }
    }
    assert_eq!(49, seen.len());
}

#[test]
fn keyboard_queues_and_decodes_scancodes() {
    let mut keyboard = Keyboard::new();
    assert_eq!(0x60, keyboard.port());
    assert_eq!(None, keyboard.poll_event());
    keyboard.on_data(0xe0);
    keyboard.on_data(0x48);
    keyboard.on_data(0x1e);
    assert_eq!(None, keyboard.poll_event());
    assert_eq!(press(KeyCode::KeyArrowUp), keyboard.poll_event());
    assert_eq!(press(KeyCode::KeyA), keyboard.poll_event());
    assert_eq!(None, keyboard.poll_event());
}

#[test]
fn keyboard_drops_scancodes_beyond_sixteen() {
    let mut keyboard = Keyboard::new();
    for _ in 0..16 {
        keyboard.on_data(0x1e);
    }
    keyboard.on_data(0x30);
    for _ in 0..16 {
        assert_eq!(press(KeyCode::KeyA), keyboard.poll_event());
    }
    assert_eq!(None, keyboard.poll_event());
}

#[test]
fn scancode_buffer_reports_full_at_sixteen() {
    let mut keyboard = Keyboard::new();
    for _ in 0..15 {
        keyboard.on_data(0x1e);
    }
    assert!(!keyboard.scancode_buffer_full());
    keyboard.on_data(0x1e);
    assert!(keyboard.scancode_buffer_full());
    keyboard.poll_event();
    assert!(!keyboard.scancode_buffer_full());
}
