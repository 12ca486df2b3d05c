use diegos::drivers::keyboard::{key_result, keyboard_read, KeyDecoder};
use pc_keyboard::{DecodedKey, KeyCode};

#[test]
fn key_press_decodes() {
    let mut kb = KeyDecoder::new();
    assert_eq!(keyboard_read(&mut kb, 0x1E), Ok(DecodedKey::Unicode('a')));
    // Release of the same key gives no character: the scan code comes back.
    assert_eq!(keyboard_read(&mut kb, 0x9E), Err(0x9E));
}

#[test]
fn shift_changes_the_character() {
    let mut kb = KeyDecoder::new();
    assert_eq!(keyboard_read(&mut kb, 0x2A), Err(0x2A));
    assert_eq!(keyboard_read(&mut kb, 0x1E), Ok(DecodedKey::Unicode('A')));
    assert_eq!(keyboard_read(&mut kb, 0xAA), Err(0xAA));
    assert_eq!(keyboard_read(&mut kb, 0x1E), Ok(DecodedKey::Unicode('a')));
}

#[test]
fn extended_prefix_waits_for_more() {
    let mut kb = KeyDecoder::new();
    assert_eq!(keyboard_read(&mut kb, 0xE0), Err(0xE0));
    assert_eq!(keyboard_read(&mut kb, 0x48), Ok(DecodedKey::RawKey(KeyCode::ArrowUp)));
}

#[test]
fn key_result_cases() {
    assert_eq!(key_result(0x10, Some(DecodedKey::Unicode('q'))), Ok(DecodedKey::Unicode('q')));
    assert_eq!(key_result(0x10, None), Err(0x10));
}

#[test]
fn release_codes_never_yield_a_key() {
    let mut kb = KeyDecoder::new();
    assert_eq!(keyboard_read(&mut kb, 0xE0), Err(0xE0));
    assert_eq!(keyboard_read(&mut kb, 0xC8), Err(0xC8));
    for code in [0x80u8, 0x9E, 0xAA, 0xFF] {
        assert_eq!(keyboard_read(&mut kb, code), Err(code));
    }
}
