//! The bridge from keyboard scancodes to text, through pc-keyboard's
//! decoder (US 104-key layout, scancode set 1).
use vstd::prelude::*;
use vstd::utf8::{encode_scalar, encode_utf8};
use pc_keyboard::layouts::Us104Key;
use pc_keyboard::{KeyEvent, PS2Keyboard, ScancodeSet1};

verus! {

/// pc-keyboard's key event, carried from `add_byte` to `process_keyevent`
/// unopened.
#[verifier::external_type_specification]
#[verifier::external_body]
pub struct ExKeyEvent(KeyEvent);

/// pc-keyboard's decoding error, only ever dropped.
#[verifier::external_type_specification]
#[verifier::external_body]
pub struct ExKeyboardError(pc_keyboard::Error);

/// A key as the decoder hands it out: a character, or the name of a key
/// that has none.
#[derive(Debug, Clone, PartialEq, Eq)]
pub enum DecodedKey {
    Unicode(char),
    RawKey(String),
}

/// The keyboard's decoding state: pc-keyboard's decoder for a US 104-key
/// layout in scancode set 1. Verus cannot declare the decoder type (its
/// parameters carry the crate's traits as bounds), so it is held here,
/// out of Verus's sight.
#[verifier::external_body]
pub struct Keyboard {
    decoder: PS2Keyboard<Us104Key, ScancodeSet1>,
}

/// The bytes handed to the decoder's scancode stage since it was made.
pub uninterp spec fn fed_of(k: Keyboard) -> Seq<u8>;

/// The key events handed to the decoder's event stage since it was made.
pub uninterp spec fn events_of(k: Keyboard) -> Seq<KeyEvent>;

/// What pc-keyboard's scancode stage (set 1) answers to the last of
/// `bytes`, having seen the ones before it from its start state.
pub uninterp spec fn event_after(bytes: Seq<u8>) -> Result<Option<KeyEvent>, pc_keyboard::Error>;

/// What pc-keyboard's event stage (US 104-key layout, Ctrl ignored) makes of
/// the last of `events`, having seen the ones before it from its start
/// state; a raw key is given its `Debug` name.
pub uninterp spec fn key_after(events: Seq<KeyEvent>) -> Option<DecodedKey>;

/// Relies on pc-keyboard's `PS2Keyboard::new`: a decoder in its start
/// state, with Ctrl combinations left as plain characters.
#[verifier::external_body]
fn new_decoder() -> (r: Keyboard)
    ensures
        fed_of(r) == Seq::<u8>::empty(),
        events_of(r) == Seq::<KeyEvent>::empty(),
{
    Keyboard {
        decoder: PS2Keyboard::new(
            ScancodeSet1::new(),
            Us104Key,
            pc_keyboard::HandleControl::Ignore,
        ),
    }
}

/// Relies on pc-keyboard's `PS2Keyboard::add_byte`, which advances only the
/// scancode stage's state machine by one byte and answers from it.
#[verifier::external_body]
fn add_byte(keyboard: &mut Keyboard, byte: u8) -> (r: Result<Option<KeyEvent>, pc_keyboard::Error>)
    ensures
        fed_of(*final(keyboard)) == fed_of(*old(keyboard)).push(byte),
        events_of(*final(keyboard)) == events_of(*old(keyboard)),
        r == event_after(fed_of(*final(keyboard))),
{
    keyboard.decoder.add_byte(byte)
}

/// Relies on pc-keyboard's `PS2Keyboard::process_keyevent`, which advances
/// only the event stage (its modifier state) by one event and turns the
/// event into a key; a raw key is named as its `Debug` text.
#[verifier::external_body]
fn process_keyevent(keyboard: &mut Keyboard, event: KeyEvent) -> (r: Option<DecodedKey>)
    ensures
        fed_of(*final(keyboard)) == fed_of(*old(keyboard)),
        events_of(*final(keyboard)) == events_of(*old(keyboard)).push(event),
        r == key_after(events_of(*final(keyboard))),
{
    match keyboard.decoder.process_keyevent(event) {
        Some(pc_keyboard::DecodedKey::Unicode(c)) => Some(DecodedKey::Unicode(c)),
        Some(pc_keyboard::DecodedKey::RawKey(k)) => Some(DecodedKey::RawKey(format!("{:?}", k))),
        None => None,
    }
}

impl Keyboard {
    /// A keyboard with no byte seen yet.
    pub fn new() -> (r: Keyboard)
        ensures
            fed_of(r) == Seq::<u8>::empty(),
            events_of(r) == Seq::<KeyEvent>::empty(),
    {
        new_decoder()
    }
}

/// The key event that `scancode` completes after the bytes `k` has seen,
/// if the scancode stage completes one without error.
pub open spec fn event_of_input(k: Keyboard, scancode: u8) -> Option<KeyEvent> {
    match event_after(fed_of(k).push(scancode)) {
        Ok(Some(ev)) => Some(ev),
        _ => None,
    }
}

/// Feeds one scancode byte to the decoder and returns the key it completes,
/// if any. A malformed sequence, or a byte that completes no event, gives
/// nothing: losing a keystroke is better than stopping.
pub fn process_input(keyboard: &mut Keyboard, scancode: u8) -> (r: Option<DecodedKey>)
    ensures
        fed_of(*final(keyboard)) == fed_of(*old(keyboard)).push(scancode),
        events_of(*final(keyboard)) == match event_of_input(*old(keyboard), scancode) {
            Some(ev) => events_of(*old(keyboard)).push(ev),
            None => events_of(*old(keyboard)),
        },
        r == match event_of_input(*old(keyboard), scancode) {
            Some(ev) => key_after(events_of(*old(keyboard)).push(ev)),
            None => None,
        },
{
    match add_byte(keyboard, scancode) {
        Ok(Some(event)) => process_keyevent(keyboard, event),
        Ok(None) => None,
        Err(_) => None,
    }
}

/// The UTF-8 bytes of `c`.
pub fn char_utf8(c: char) -> (r: Vec<u8>)
    ensures
        r@ == encode_utf8(seq![c]),
{
    let v = c as u32;
    let mut out: Vec<u8> = Vec::new();
    if v <= 0x7F {
        out.push((v & 0x7F) as u8);
    } else if v <= 0x7FF {
        out.push(0xC0 | ((v >> 6) & 0x1F) as u8);
        out.push(0x80 | (v & 0x3F) as u8);
    } else if v <= 0xFFFF && !(0xD800 <= v && v <= 0xDFFF) {
        out.push(0xE0 | ((v >> 12) & 0x0F) as u8);
        out.push(0x80 | ((v >> 6) & 0x3F) as u8);
        out.push(0x80 | (v & 0x3F) as u8);
    } else {
        out.push(0xF0 | ((v >> 18) & 0x7) as u8);
        out.push(0x80 | ((v >> 12) & 0x3F) as u8);
        out.push(0x80 | ((v >> 6) & 0x3F) as u8);
        out.push(0x80 | (v & 0x3F) as u8);
    }
    assert(seq![c].drop_first() =~= Seq::<char>::empty());
    assert(encode_utf8(seq![c]) == encode_scalar(v) + encode_utf8(Seq::<char>::empty()));
    assert(encode_utf8(seq![c]) =~= encode_scalar(v));
    assert(out@ =~= encode_scalar(v));
    out
}

/// The text that a decoded key sends to the output sink: a character as its
/// UTF-8 bytes, a raw key as its name; nothing when no key was decoded.
pub open spec fn spec_key_text(key: Option<DecodedKey>) -> Seq<u8> {
    match key {
        Some(DecodedKey::Unicode(c)) => encode_utf8(seq![c]),
        Some(DecodedKey::RawKey(name)) => encode_utf8(name@),
        None => seq![],
    }
}

/// The text that `key` sends to the output sink.
pub fn key_text(key: &Option<DecodedKey>) -> (r: Vec<u8>)
    ensures
        r@ == spec_key_text(*key),
{
    match key {
        Some(DecodedKey::Unicode(c)) => char_utf8(*c),
        Some(DecodedKey::RawKey(name)) => {
            let mut out: Vec<u8> = Vec::new();
            out.extend_from_slice(name.as_str().as_bytes());
            out
        },
        None => Vec::new(),
    }
}

} // verus!
