//! Decoding of PS/2 keyboard scan codes (scan code set 1, US 104-key
//! layout), done by the pc-keyboard crate.

use vstd::prelude::*;
use pc_keyboard::{
    layouts, DecodedKey, HandleControl, KeyCode, KeyEvent, KeyState, Keyboard, ScancodeSet1,
};

verus! {

/// Data port of the PS/2 controller, read for each scan code.
pub const KEYB_DATA_PORT: u8 = 0x60;

// A key event's fields are public in pc-keyboard: the key and whether it
// went up or down. The key code itself is carried through unread.
#[verifier::external_type_specification]
pub struct ExKeyEvent(KeyEvent);

#[verifier::external_type_specification]
#[verifier::external_body]
pub struct ExKeyCode(KeyCode);

#[verifier::external_type_specification]
pub struct ExKeyState(KeyState);

#[verifier::external_type_specification]
#[verifier::external_body]
pub struct ExDecodedKey(DecodedKey);

#[verifier::external_type_specification]
#[verifier::external_body]
pub struct ExKeyboardError(pc_keyboard::Error);

/// pc-keyboard's `Keyboard` for the US 104-key layout and scan code set 1,
/// with Ctrl handled as an ordinary key. Its state (shift, caps lock, a
/// pending extended code) is the crate's own; `KeyDecoder` keeps a record
/// of what went in and what came out.
#[verifier::external_body]
pub struct Us104Keyboard {
    keyboard: Keyboard<layouts::Us104Key, ScancodeSet1>,
}

/// pc-keyboard's `Keyboard::new(Us104Key, ScancodeSet1, HandleControl::Ignore)`:
/// a decoder with no extended code pending and no modifier held.
#[verifier::external_body]
fn us104_set1_keyboard() -> Us104Keyboard {
    Us104Keyboard { keyboard: Keyboard::new(layouts::Us104Key, ScancodeSet1, HandleControl::Ignore) }
}

/// A keyboard decoder and the record of its use: the scan codes fed to it
/// and what each gave, and the key events processed and what each gave.
pub struct KeyDecoder {
    keyboard: Us104Keyboard,
    fed: Ghost<Seq<u8>>,
    scanned: Ghost<Seq<Result<Option<KeyEvent>, pc_keyboard::Error>>>,
    processed: Ghost<Seq<KeyEvent>>,
    decoded: Ghost<Seq<Option<DecodedKey>>>,
}

impl KeyDecoder {
    /// The scan codes fed to the decoder, oldest first.
    pub closed spec fn bytes_fed(&self) -> Seq<u8> {
        self.fed@
    }

    /// What the decoder gave for each scan code fed: an error, nothing yet
    /// (an extended prefix), or a key event.
    pub closed spec fn scan_results(&self) -> Seq<Result<Option<KeyEvent>, pc_keyboard::Error>> {
        self.scanned@
    }

    /// The key events processed, oldest first.
    pub closed spec fn events_processed(&self) -> Seq<KeyEvent> {
        self.processed@
    }

    /// What each processed key event gave: a key, or nothing.
    pub closed spec fn keys_decoded(&self) -> Seq<Option<DecodedKey>> {
        self.decoded@
    }

    /// A decoder for the US 104-key layout and scan code set 1 that has not
    /// been used: nothing fed, so no extended code pending and no modifier
    /// held.
    pub fn new() -> (r: KeyDecoder)
        ensures
            r.bytes_fed() == Seq::<u8>::empty(),
            r.scan_results() == Seq::<Result<Option<KeyEvent>, pc_keyboard::Error>>::empty(),
            r.events_processed() == Seq::<KeyEvent>::empty(),
            r.keys_decoded() == Seq::<Option<DecodedKey>>::empty(),
    {
        KeyDecoder {
            keyboard: us104_set1_keyboard(),
            fed: Ghost(Seq::empty()),
            scanned: Ghost(Seq::empty()),
            processed: Ghost(Seq::empty()),
            decoded: Ghost(Seq::empty()),
        }
    }

    /// pc-keyboard's `Keyboard::add_byte`: feeds one scan code to the decoder,
    /// which may complete a key event; the record gains the scan code and
    /// what came back. In scan code set 1 a code from 0x80 on is the extended
    /// prefix 0xE0 (no event yet) or a key release, whether or not an
    /// extended prefix came before it, so an event it completes is a key
    /// going up. Which event comes back otherwise depends on the decoder's
    /// state and is not stated.
    #[verifier::external_body]
    fn add_byte(&mut self, byte: u8) -> (r: Result<Option<KeyEvent>, pc_keyboard::Error>)
        ensures
            final(self).bytes_fed() == old(self).bytes_fed().push(byte),
            final(self).scan_results() == old(self).scan_results().push(r),
            final(self).events_processed() == old(self).events_processed(),
            final(self).keys_decoded() == old(self).keys_decoded(),
            byte >= 0x80 ==> (r matches Ok(Some(event)) ==> event.state is Up),
    {
        self.keyboard.keyboard.add_byte(byte)
    }

    /// pc-keyboard's `Keyboard::process_keyevent`: turns a key event into a
    /// character or a raw key, updating the modifier keys; the record gains
    /// the event and what came back. A key going up never yields one. Which
    /// key a key going down yields depends on the modifiers held and is not
    /// stated.
    #[verifier::external_body]
    fn process_keyevent(&mut self, event: KeyEvent) -> (r: Option<DecodedKey>)
        ensures
            final(self).bytes_fed() == old(self).bytes_fed(),
            final(self).scan_results() == old(self).scan_results(),
            final(self).events_processed() == old(self).events_processed().push(event),
            final(self).keys_decoded() == old(self).keys_decoded().push(r),
            event.state is Up ==> r is None,
    {
        self.keyboard.keyboard.process_keyevent(event)
    }
}

/// How `keyboard_read` answered, by the record: when the scan code completed
/// a key event, that event was processed and the key it gave (or, if none,
/// the scan code as an error) is the answer; otherwise nothing was
/// processed and the answer is the scan code as an error.
pub open spec fn read_answered(
    before: KeyDecoder,
    after: KeyDecoder,
    scan_code: u8,
    r: Result<DecodedKey, u8>,
) -> bool {
    match after.scan_results().last() {
        Ok(Some(event)) => {
            &&& after.events_processed() == before.events_processed().push(event)
            &&& after.keys_decoded().len() == before.keys_decoded().len() + 1
            &&& after.keys_decoded().drop_last() == before.keys_decoded()
            &&& r == match after.keys_decoded().last() {
                Some(key) => Ok(key),
                None => Err(scan_code),
            }
        },
        _ => {
            &&& after.events_processed() == before.events_processed()
            &&& after.keys_decoded() == before.keys_decoded()
            &&& r == Err::<DecodedKey, u8>(scan_code)
        },
    }
}

/// The answer to a scan code, given what the decoder made of it: the
/// decoded key, or the scan code itself when no key came out.
pub fn key_result(scan_code: u8, decoded: Option<DecodedKey>) -> (r: Result<DecodedKey, u8>)
    ensures
        r == match decoded {
            Some(key) => Ok(key),
            None => Err(scan_code),
        },
{
    match decoded {
        Some(key) => Ok(key),
        None => Err(scan_code),
    }
}

/// Feeds the scan code read from the keyboard's data port to the decoder.
/// Returns the decoded key when the scan code completes a key press that
/// yields one, else the scan code itself. Release codes (from 0x80 on)
/// never yield a key.
pub fn keyboard_read(keyboard: &mut KeyDecoder, scan_code: u8) -> (r: Result<DecodedKey, u8>)
    ensures
        final(keyboard).bytes_fed() == old(keyboard).bytes_fed().push(scan_code),
        final(keyboard).scan_results().len() == old(keyboard).scan_results().len() + 1,
        final(keyboard).scan_results().drop_last() == old(keyboard).scan_results(),
        read_answered(*old(keyboard), *final(keyboard), scan_code, r),
        r matches Err(code) ==> code == scan_code,
        scan_code >= 0x80 ==> r == Err::<DecodedKey, u8>(scan_code),
{
    let ghost before = *keyboard;
    let scanned = keyboard.add_byte(scan_code);
    let ghost after_scan = *keyboard;
    assert(after_scan.scan_results().last() == scanned);
    assert(after_scan.scan_results().drop_last() =~= before.scan_results());
    let mut decoded: Option<DecodedKey> = None;
    if let Ok(Some(key)) = scanned {
        decoded = keyboard.process_keyevent(key);
        assert(keyboard.keys_decoded().last() == decoded);
        assert(keyboard.keys_decoded().drop_last() =~= before.keys_decoded());
    }
    key_result(scan_code, decoded)
}

} // verus!
