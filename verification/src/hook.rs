//! Keyboard-hook decisions of the VNKey front ends: which character a key
//! stands for, and what to do with a key event given the engine.
use vstd::prelude::*;

use crate::text::{ascii_upper, lower_char, spec_ascii_lower, spec_ascii_upper, spec_lower_char};
use crate::{spec_process_key, Engine, EngineOutput, EngineResult, EngineView};

verus! {

/// The keys the hooks tell apart.
#[derive(Debug, Clone, Copy, PartialEq, Eq, Structural)]
pub enum Key {
    KeyA,
    KeyB,
    KeyC,
    KeyD,
    KeyE,
    KeyF,
    KeyG,
    KeyH,
    KeyI,
    KeyJ,
    KeyK,
    KeyL,
    KeyM,
    KeyN,
    KeyO,
    KeyP,
    KeyQ,
    KeyR,
    KeyS,
    KeyT,
    KeyU,
    KeyV,
    KeyW,
    KeyX,
    KeyY,
    KeyZ,
    Num0,
    Num1,
    Num2,
    Num3,
    Num4,
    Num5,
    Num6,
    Num7,
    Num8,
    Num9,
    ShiftLeft,
    ShiftRight,
    Space,
    Return,
    Escape,
    Backspace,
    Other
}

/// The letter or digit printed on a key (lowercase), and whether it is a
/// letter.
pub open spec fn key_base(key: Key) -> Option<(char, bool)> {
    match key {
        Key::KeyA => Some(('a', true)),
        Key::KeyB => Some(('b', true)),
        Key::KeyC => Some(('c', true)),
        Key::KeyD => Some(('d', true)),
        Key::KeyE => Some(('e', true)),
        Key::KeyF => Some(('f', true)),
        Key::KeyG => Some(('g', true)),
        Key::KeyH => Some(('h', true)),
        Key::KeyI => Some(('i', true)),
        Key::KeyJ => Some(('j', true)),
        Key::KeyK => Some(('k', true)),
        Key::KeyL => Some(('l', true)),
        Key::KeyM => Some(('m', true)),
        Key::KeyN => Some(('n', true)),
        Key::KeyO => Some(('o', true)),
        Key::KeyP => Some(('p', true)),
        Key::KeyQ => Some(('q', true)),
        Key::KeyR => Some(('r', true)),
        Key::KeyS => Some(('s', true)),
        Key::KeyT => Some(('t', true)),
        Key::KeyU => Some(('u', true)),
        Key::KeyV => Some(('v', true)),
        Key::KeyW => Some(('w', true)),
        Key::KeyX => Some(('x', true)),
        Key::KeyY => Some(('y', true)),
        Key::KeyZ => Some(('z', true)),
        Key::Num0 => Some(('0', false)),
        Key::Num1 => Some(('1', false)),
        Key::Num2 => Some(('2', false)),
        Key::Num3 => Some(('3', false)),
        Key::Num4 => Some(('4', false)),
        Key::Num5 => Some(('5', false)),
        Key::Num6 => Some(('6', false)),
        Key::Num7 => Some(('7', false)),
        Key::Num8 => Some(('8', false)),
        Key::Num9 => Some(('9', false)),
        _ => None,
    }
}

fn key_base_exec(key: Key) -> (r: Option<(char, bool)>)
    ensures
        r == key_base(key),
{
    match key {
        Key::KeyA => Some(('a', true)),
        Key::KeyB => Some(('b', true)),
        Key::KeyC => Some(('c', true)),
        Key::KeyD => Some(('d', true)),
        Key::KeyE => Some(('e', true)),
        Key::KeyF => Some(('f', true)),
        Key::KeyG => Some(('g', true)),
        Key::KeyH => Some(('h', true)),
        Key::KeyI => Some(('i', true)),
        Key::KeyJ => Some(('j', true)),
        Key::KeyK => Some(('k', true)),
        Key::KeyL => Some(('l', true)),
        Key::KeyM => Some(('m', true)),
        Key::KeyN => Some(('n', true)),
        Key::KeyO => Some(('o', true)),
        Key::KeyP => Some(('p', true)),
        Key::KeyQ => Some(('q', true)),
        Key::KeyR => Some(('r', true)),
        Key::KeyS => Some(('s', true)),
        Key::KeyT => Some(('t', true)),
        Key::KeyU => Some(('u', true)),
        Key::KeyV => Some(('v', true)),
        Key::KeyW => Some(('w', true)),
        Key::KeyX => Some(('x', true)),
        Key::KeyY => Some(('y', true)),
        Key::KeyZ => Some(('z', true)),
        Key::Num0 => Some(('0', false)),
        Key::Num1 => Some(('1', false)),
        Key::Num2 => Some(('2', false)),
        Key::Num3 => Some(('3', false)),
        Key::Num4 => Some(('4', false)),
        Key::Num5 => Some(('5', false)),
        Key::Num6 => Some(('6', false)),
        Key::Num7 => Some(('7', false)),
        Key::Num8 => Some(('8', false)),
        Key::Num9 => Some(('9', false)),
        _ => None,
    }
}

/// A printed character under the shift state: letters are uppercased, and
/// shifted non-letters stand for no character.
pub open spec fn shifted(base: Option<(char, bool)>, shift: bool) -> Option<char> {
    match base {
        Some((c, is_letter)) => if !shift {
            Some(c)
        } else if is_letter {
            Some(spec_ascii_upper(c))
        } else {
            None
        },
        None => None,
    }
}

fn shifted_exec(base: Option<(char, bool)>, shift: bool) -> (r: Option<char>)
    ensures
        r == shifted(base, shift),
{
    match base {
        Some((c, is_letter)) => if !shift {
            Some(c)
        } else if is_letter {
            Some(ascii_upper(c))
        } else {
            None
        },
        None => None,
    }
}

/// The character a key types under the shift state (US layout): letters,
/// uppercased with shift; digits without shift; nothing otherwise.
pub fn key_to_char(key: Key, shift: bool) -> (r: Option<char>)
    ensures
        r == shifted(key_base(key), shift),
{
    shifted_exec(key_base_exec(key), shift)
}

/// The character printed on a macOS key code (US layout), and whether it
/// is a letter.
pub open spec fn mac_keycode_base(keycode: i64) -> Option<(char, bool)> {
    match keycode {
        0 => Some(('a', true)),
        1 => Some(('s', true)),
        2 => Some(('d', true)),
        3 => Some(('f', true)),
        4 => Some(('h', true)),
        5 => Some(('g', true)),
        6 => Some(('z', true)),
        7 => Some(('x', true)),
        8 => Some(('c', true)),
        9 => Some(('v', true)),
        11 => Some(('b', true)),
        12 => Some(('q', true)),
        13 => Some(('w', true)),
        14 => Some(('e', true)),
        15 => Some(('r', true)),
        16 => Some(('y', true)),
        17 => Some(('t', true)),
        18 => Some(('1', false)),
        19 => Some(('2', false)),
        20 => Some(('3', false)),
        21 => Some(('4', false)),
        22 => Some(('6', false)),
        23 => Some(('5', false)),
        24 => Some(('=', false)),
        25 => Some(('9', false)),
        26 => Some(('7', false)),
        28 => Some(('8', false)),
        29 => Some(('0', false)),
        31 => Some(('o', true)),
        32 => Some(('u', true)),
        34 => Some(('i', true)),
        35 => Some(('p', true)),
        37 => Some(('l', true)),
        38 => Some(('j', true)),
        40 => Some(('k', true)),
        41 => Some((';', false)),
        45 => Some(('n', true)),
        46 => Some(('m', true)),
        47 => Some(('.', false)),
        _ => None,
    }
}

fn mac_keycode_base_exec(keycode: i64) -> (r: Option<(char, bool)>)
    ensures
        r == mac_keycode_base(keycode),
{
    match keycode {
        0 => Some(('a', true)),
        1 => Some(('s', true)),
        2 => Some(('d', true)),
        3 => Some(('f', true)),
        4 => Some(('h', true)),
        5 => Some(('g', true)),
        6 => Some(('z', true)),
        7 => Some(('x', true)),
        8 => Some(('c', true)),
        9 => Some(('v', true)),
        11 => Some(('b', true)),
        12 => Some(('q', true)),
        13 => Some(('w', true)),
        14 => Some(('e', true)),
        15 => Some(('r', true)),
        16 => Some(('y', true)),
        17 => Some(('t', true)),
        18 => Some(('1', false)),
        19 => Some(('2', false)),
        20 => Some(('3', false)),
        21 => Some(('4', false)),
        22 => Some(('6', false)),
        23 => Some(('5', false)),
        24 => Some(('=', false)),
        25 => Some(('9', false)),
        26 => Some(('7', false)),
        28 => Some(('8', false)),
        29 => Some(('0', false)),
        31 => Some(('o', true)),
        32 => Some(('u', true)),
        34 => Some(('i', true)),
        35 => Some(('p', true)),
        37 => Some(('l', true)),
        38 => Some(('j', true)),
        40 => Some(('k', true)),
        41 => Some((';', false)),
        45 => Some(('n', true)),
        46 => Some(('m', true)),
        47 => Some(('.', false)),
        _ => None,
    }
}

/// Convert a macOS keyboard key code to a character (assuming US QWERTY
/// layout for Telex/VNI).
pub fn keycode_to_char(keycode: i64, shift: bool) -> (r: Option<char>)
    ensures
        r == shifted(mac_keycode_base(keycode), shift),
{
    shifted_exec(mac_keycode_base_exec(keycode), shift)
}

/// The key a macOS key code stands for, among letters and digits.
pub open spec fn mac_keycode_key(keycode: u16) -> Option<Key> {
    match keycode {
        0 => Some(Key::KeyA),
        1 => Some(Key::KeyS),
        2 => Some(Key::KeyD),
        3 => Some(Key::KeyF),
        5 => Some(Key::KeyG),
        4 => Some(Key::KeyH),
        38 => Some(Key::KeyJ),
        40 => Some(Key::KeyK),
        37 => Some(Key::KeyL),
        46 => Some(Key::KeyM),
        45 => Some(Key::KeyN),
        31 => Some(Key::KeyO),
        35 => Some(Key::KeyP),
        12 => Some(Key::KeyQ),
        15 => Some(Key::KeyR),
        11 => Some(Key::KeyB),
        8 => Some(Key::KeyC),
        14 => Some(Key::KeyE),
        34 => Some(Key::KeyI),
        17 => Some(Key::KeyT),
        32 => Some(Key::KeyU),
        9 => Some(Key::KeyV),
        13 => Some(Key::KeyW),
        7 => Some(Key::KeyX),
        16 => Some(Key::KeyY),
        6 => Some(Key::KeyZ),
        18 => Some(Key::Num1),
        19 => Some(Key::Num2),
        20 => Some(Key::Num3),
        21 => Some(Key::Num4),
        23 => Some(Key::Num5),
        22 => Some(Key::Num6),
        26 => Some(Key::Num7),
        28 => Some(Key::Num8),
        25 => Some(Key::Num9),
        29 => Some(Key::Num0),
        _ => None,
    }
}

/// The key a macOS key code stands for, among letters and digits.
pub fn key_for_keycode(keycode: u16) -> (r: Option<Key>)
    ensures
        r == mac_keycode_key(keycode),
{
    match keycode {
        0 => Some(Key::KeyA),
        1 => Some(Key::KeyS),
        2 => Some(Key::KeyD),
        3 => Some(Key::KeyF),
        5 => Some(Key::KeyG),
        4 => Some(Key::KeyH),
        38 => Some(Key::KeyJ),
        40 => Some(Key::KeyK),
        37 => Some(Key::KeyL),
        46 => Some(Key::KeyM),
        45 => Some(Key::KeyN),
        31 => Some(Key::KeyO),
        35 => Some(Key::KeyP),
        12 => Some(Key::KeyQ),
        15 => Some(Key::KeyR),
        11 => Some(Key::KeyB),
        8 => Some(Key::KeyC),
        14 => Some(Key::KeyE),
        34 => Some(Key::KeyI),
        17 => Some(Key::KeyT),
        32 => Some(Key::KeyU),
        9 => Some(Key::KeyV),
        13 => Some(Key::KeyW),
        7 => Some(Key::KeyX),
        16 => Some(Key::KeyY),
        6 => Some(Key::KeyZ),
        18 => Some(Key::Num1),
        19 => Some(Key::Num2),
        20 => Some(Key::Num3),
        21 => Some(Key::Num4),
        23 => Some(Key::Num5),
        22 => Some(Key::Num6),
        26 => Some(Key::Num7),
        28 => Some(Key::Num8),
        25 => Some(Key::Num9),
        29 => Some(Key::Num0),
        _ => None,
    }
}

/// The macOS key code of the key that types a (lowercase) character or its
/// accented forms; `0` (the `A` key) for any other character.
pub open spec fn keycode_for_lower(c: char) -> u16 {
    match c {
        'a' | 'á' | 'à' | 'ả' | 'ã' | 'ạ' | 'â' | 'ấ' | 'ầ' | 'ẩ' | 'ẫ' | 'ậ' | 'ă' | 'ắ' | 'ằ' | 'ẳ' | 'ẵ' | 'ặ' => 0,
        'b' => 11,
        'c' => 8,
        'd' | 'đ' => 2,
        'e' | 'é' | 'è' | 'ẻ' | 'ẽ' | 'ẹ' | 'ê' | 'ế' | 'ề' | 'ể' | 'ễ' | 'ệ' => 14,
        'f' => 3,
        'g' => 5,
        'h' => 4,
        'i' | 'í' | 'ì' | 'ỉ' | 'ĩ' | 'ị' => 34,
        'j' => 38,
        'k' => 40,
        'l' => 37,
        'm' => 46,
        'n' => 45,
        'o' | 'ó' | 'ò' | 'ỏ' | 'õ' | 'ọ' | 'ô' | 'ố' | 'ồ' | 'ổ' | 'ỗ' | 'ộ' | 'ơ' | 'ớ' | 'ờ' | 'ở' | 'ỡ' | 'ợ' => 31,
        'p' => 35,
        'q' => 12,
        'r' => 15,
        's' => 1,
        't' => 17,
        'u' | 'ú' | 'ù' | 'ủ' | 'ũ' | 'ụ' | 'ư' | 'ứ' | 'ừ' | 'ử' | 'ữ' | 'ự' => 32,
        'v' => 9,
        'w' => 13,
        'x' => 7,
        'y' | 'ý' | 'ỳ' | 'ỷ' | 'ỹ' | 'ỵ' => 16,
        'z' => 6,
        _ => 0,
    }
}

/// The macOS key code used to type a character: that of its lowercase
/// form's base letter.
pub open spec fn spec_char_to_keycode(c: char) -> u16 {
    keycode_for_lower(spec_lower_char(c))
}

/// Typing a letter back: the key code used to type an ASCII letter gives
/// that letter in lowercase without Shift and in uppercase with Shift; and
/// with Shift the digit row (key codes 18 to 29) types nothing.
pub proof fn lemma_keycode_round_trip(c: char, n: i64)
    ensures
        spec_is_ascii_letter(c) ==> shifted(mac_keycode_base(spec_char_to_keycode(c) as i64), false)
            == Some(spec_ascii_lower(c)),
        spec_is_ascii_letter(c) ==> shifted(mac_keycode_base(spec_char_to_keycode(c) as i64), true)
            == Some(spec_ascii_upper(c)),
        18 <= n <= 29 ==> shifted(mac_keycode_base(n), true) is None,
{
    if spec_is_ascii_letter(c) {
        let l = spec_ascii_lower(c);
        assert('a' <= l <= 'z');
        assert(l == 'a' || l == 'b' || l == 'c' || l == 'd' || l == 'e' || l == 'f' || l == 'g' || l == 'h' || l == 'i' || l == 'j' || l == 'k' || l == 'l' || l == 'm' || l == 'n' || l == 'o' || l == 'p' || l == 'q' || l == 'r' || l == 's' || l == 't' || l == 'u' || l == 'v' || l == 'w' || l == 'x' || l == 'y' || l == 'z') by {
            assert(97 <= l as int <= 122);
        }
        assert(spec_ascii_upper(c) == spec_ascii_upper(l));
    }
}

/// Whether `c` is an ASCII letter.
pub open spec fn spec_is_ascii_letter(c: char) -> bool {
    ('a' <= c && c <= 'z') || ('A' <= c && c <= 'Z')
}

pub fn char_to_keycode(c: char) -> (r: u16)
    ensures
        r == spec_char_to_keycode(c),
{
    let lower = lower_char(c);
    match lower {
        'a' | 'á' | 'à' | 'ả' | 'ã' | 'ạ' | 'â' | 'ấ' | 'ầ' | 'ẩ' | 'ẫ' | 'ậ' | 'ă' | 'ắ' | 'ằ' | 'ẳ' | 'ẵ' | 'ặ' => 0,
        'b' => 11,
        'c' => 8,
        'd' | 'đ' => 2,
        'e' | 'é' | 'è' | 'ẻ' | 'ẽ' | 'ẹ' | 'ê' | 'ế' | 'ề' | 'ể' | 'ễ' | 'ệ' => 14,
        'f' => 3,
        'g' => 5,
        'h' => 4,
        'i' | 'í' | 'ì' | 'ỉ' | 'ĩ' | 'ị' => 34,
        'j' => 38,
        'k' => 40,
        'l' => 37,
        'm' => 46,
        'n' => 45,
        'o' | 'ó' | 'ò' | 'ỏ' | 'õ' | 'ọ' | 'ô' | 'ố' | 'ồ' | 'ổ' | 'ỗ' | 'ộ' | 'ơ' | 'ớ' | 'ờ' | 'ở' | 'ỡ' | 'ợ' => 31,
        'p' => 35,
        'q' => 12,
        'r' => 15,
        's' => 1,
        't' => 17,
        'u' | 'ú' | 'ù' | 'ủ' | 'ũ' | 'ụ' | 'ư' | 'ứ' | 'ừ' | 'ử' | 'ữ' | 'ự' => 32,
        'v' => 9,
        'w' => 13,
        'x' => 7,
        'y' | 'ý' | 'ỳ' | 'ỷ' | 'ỹ' | 'ỵ' => 16,
        'z' => 6,
        _ => 0,
    }
}

/// The Shift bit of macOS event flags.
pub open spec fn shift_flag() -> u64 {
    0x00020000
}

pub open spec fn control_flag() -> u64 {
    0x00040000
}

pub open spec fn alternate_flag() -> u64 {
    0x00080000
}

pub open spec fn command_flag() -> u64 {
    0x00100000
}

/// Whether macOS event flags hold Shift.
pub fn has_shift(flags: u64) -> (r: bool)
    ensures
        r == (flags & shift_flag() != 0),
{
    (flags & 0x00020000) != 0
}


// ---------------------------------------------------------------------------
// Decisions on key events.
// ---------------------------------------------------------------------------

/// What a hook does with an intercepted key.
#[derive(Debug, Clone, PartialEq, Eq)]
pub enum HookAction {
    /// Let the key through.
    Pass,
    /// Swallow the key, send `backspaces` backspaces, then type `text`.
    Replace { backspaces: usize, text: String },
}

/// Model of `HookAction`.
pub enum HookActionView {
    Pass,
    Replace(nat, Seq<char>),
}

impl View for HookAction {
    type V = HookActionView;

    open spec fn view(&self) -> HookActionView {
        match self {
            HookAction::Pass => HookActionView::Pass,
            HookAction::Replace { backspaces, text } => HookActionView::Replace(
                *backspaces as nat,
                text@,
            ),
        }
    }
}

/// Kept and reset keys pass through; replacements are carried out.
pub open spec fn action_of(out: EngineOutput) -> HookActionView {
    match out {
        EngineOutput::Replace(bs, t) => HookActionView::Replace(bs, t),
        _ => HookActionView::Pass,
    }
}

/// The engine with no word.
pub open spec fn cleared(s: EngineView) -> EngineView {
    EngineView { buffer: Seq::empty(), raw: Seq::empty(), config: s.config }
}

/// A key that types `c` goes to the engine; a key that types nothing ends
/// the word and passes.
pub open spec fn spec_type_char(s: EngineView, c: Option<char>) -> (EngineView, HookActionView) {
    match c {
        Some(c) => {
            let (s2, out) = spec_process_key(s, c);
            (s2, action_of(out))
        },
        None => (cleared(s), HookActionView::Pass),
    }
}

fn reset_engine(engine: &mut Engine)
    ensures
        final(engine)@ == cleared(old(engine)@),
{
    engine.reset();
    assert(engine@.buffer =~= Seq::<char>::empty());
    assert(engine@.raw =~= Seq::<char>::empty());
}

fn type_char(engine: &mut Engine, c: Option<char>) -> (r: HookAction)
    ensures
        (final(engine)@, r@) == spec_type_char(old(engine)@, c),
{
    match c {
        Some(c) => match engine.process_key(c) {
            EngineResult::Replace { backspaces, text } => HookAction::Replace { backspaces, text },
            _ => HookAction::Pass,
        },
        None => {
            reset_engine(engine);
            HookAction::Pass
        },
    }
}

/// A key event as seen by a global keyboard hook.
#[derive(Debug, Clone, Copy, PartialEq, Eq)]
pub enum KeyEvent {
    Press(Key),
    Release(Key),
    Other,
}

pub open spec fn is_shift_key(k: Key) -> bool {
    k == Key::ShiftLeft || k == Key::ShiftRight
}

/// Space, Return, Escape and Backspace end the word being composed.
pub open spec fn is_word_reset_key(k: Key) -> bool {
    k == Key::Space || k == Key::Return || k == Key::Escape || k == Key::Backspace
}

/// A hook event on the engine and the Shift state: Shift presses and
/// releases only track Shift; Space, Return, Escape and Backspace end the
/// word; other presses type their character, under Shift, into the engine.
pub open spec fn spec_handle_event(s: EngineView, shift: bool, e: KeyEvent) -> (
    EngineView,
    bool,
    HookActionView,
) {
    match e {
        KeyEvent::Press(k) => if is_shift_key(k) {
            (s, true, HookActionView::Pass)
        } else if is_word_reset_key(k) {
            (cleared(s), shift, HookActionView::Pass)
        } else {
            let (s2, a) = spec_type_char(s, shifted(key_base(k), shift));
            (s2, shift, a)
        },
        KeyEvent::Release(k) => if is_shift_key(k) {
            (s, false, HookActionView::Pass)
        } else {
            (s, shift, HookActionView::Pass)
        },
        KeyEvent::Other => (s, shift, HookActionView::Pass),
    }
}

/// The state of a global keyboard hook: the engine and whether Shift is
/// held.
pub struct KeyboardState {
    pub engine: Engine,
    pub shift_pressed: bool,
}

impl KeyboardState {
    pub fn new(config: crate::EngineConfig) -> (r: Self)
        ensures
            r.engine@.buffer.len() == 0,
            r.engine@.raw.len() == 0,
            r.engine@.config == config,
            !r.shift_pressed,
    {
        KeyboardState { engine: Engine::new(config), shift_pressed: false }
    }

    /// Handles one event of the hook.
    pub fn handle_event(&mut self, event: KeyEvent) -> (r: HookAction)
        ensures
            (final(self).engine@, final(self).shift_pressed, r@) == spec_handle_event(
                old(self).engine@,
                old(self).shift_pressed,
                event,
            ),
    {
        match event {
            KeyEvent::Press(k) => {
                if k == Key::ShiftLeft || k == Key::ShiftRight {
                    self.shift_pressed = true;
                    return HookAction::Pass;
                }
                if k == Key::Space || k == Key::Return || k == Key::Escape || k == Key::Backspace {
                    reset_engine(&mut self.engine);
                    return HookAction::Pass;
                }
                let c = key_to_char(k, self.shift_pressed);
                type_char(&mut self.engine, c)
            },
            KeyEvent::Release(k) => {
                if k == Key::ShiftLeft || k == Key::ShiftRight {
                    self.shift_pressed = false;
                }
                HookAction::Pass
            },
            KeyEvent::Other => HookAction::Pass,
        }
    }
}

impl KeyboardState {
    /// Handles one event of the hook, unless the event was injected by the
    /// hook itself while it typed a replacement (`simulated`): such an event
    /// passes through and neither the engine nor the Shift state changes.
    pub fn handle_hook_event(&mut self, event: KeyEvent, simulated: bool) -> (r: HookAction)
        ensures
            simulated ==> final(self).engine@ == old(self).engine@ && final(self).shift_pressed
                == old(self).shift_pressed && r@ == HookActionView::Pass,
            !simulated ==> (final(self).engine@, final(self).shift_pressed, r@)
                == spec_handle_event(old(self).engine@, old(self).shift_pressed, event),
    {
        if simulated {
            HookAction::Pass
        } else {
            self.handle_event(event)
        }
    }
}

/// macOS key codes of Escape, Return, Tab and Backspace.
pub open spec fn is_mac_word_reset_keycode(keycode: int) -> bool {
    keycode == 53 || keycode == 36 || keycode == 48 || keycode == 51
}

/// A key-down event on macOS (daemon event tap): with Command, Control or
/// Option held, or on Escape, Return, Tab or Backspace, the word ends and the
/// key passes; otherwise the key types its character into the engine.
pub open spec fn spec_mac_key_down(s: EngineView, modifier_held: bool, keycode: i64, shift: bool) -> (
    EngineView,
    HookActionView,
) {
    if modifier_held || is_mac_word_reset_keycode(keycode as int) {
        (cleared(s), HookActionView::Pass)
    } else {
        spec_type_char(s, shifted(mac_keycode_base(keycode), shift))
    }
}

pub fn mac_key_down(engine: &mut Engine, modifier_held: bool, keycode: i64, shift: bool) -> (r:
    HookAction)
    ensures
        (final(engine)@, r@) == spec_mac_key_down(old(engine)@, modifier_held, keycode, shift),
{
    if modifier_held || keycode == 53 || keycode == 36 || keycode == 48 || keycode == 51 {
        reset_engine(engine);
        return HookAction::Pass;
    }
    let c = keycode_to_char(keycode, shift);
    type_char(engine, c)
}

/// Event flags of Control, Option or Command.
pub open spec fn has_command_modifier(flags: u64) -> bool {
    flags & (0x00040000u64 | 0x00080000u64 | 0x00100000u64) != 0
}

/// A key-down event in the control panel's event tap: nothing happens
/// unless the system layout is English; with Control, Option or Command
/// held, on Escape, Return, Tab or Backspace, or on a key that is no letter
/// or digit, the word ends and the key passes; otherwise the key types its
/// character (under the held Shift) into the engine.
pub open spec fn spec_tap_key_down(
    s: EngineView,
    flags: u64,
    keycode: u16,
    shift_held: bool,
    layout_is_english: bool,
) -> (EngineView, HookActionView) {
    if !layout_is_english {
        (s, HookActionView::Pass)
    } else if has_command_modifier(flags) || is_mac_word_reset_keycode(keycode as int) {
        (cleared(s), HookActionView::Pass)
    } else {
        match mac_keycode_key(keycode) {
            None => (cleared(s), HookActionView::Pass),
            Some(k) => spec_type_char(s, shifted(key_base(k), shift_held)),
        }
    }
}

pub fn tap_key_down(
    engine: &mut Engine,
    flags: u64,
    keycode: u16,
    shift_held: bool,
    layout_is_english: bool,
) -> (r: HookAction)
    ensures
        (final(engine)@, r@) == spec_tap_key_down(
            old(engine)@,
            flags,
            keycode,
            shift_held,
            layout_is_english,
        ),
{
    if !layout_is_english {
        return HookAction::Pass;
    }
    if (flags & (0x00040000u64 | 0x00080000u64 | 0x00100000u64)) != 0 || keycode == 53 || keycode
        == 36 || keycode == 48 || keycode == 51 {
        reset_engine(engine);
        return HookAction::Pass;
    }
    match key_for_keycode(keycode) {
        None => {
            reset_engine(engine);
            HookAction::Pass
        },
        Some(k) => {
            let c = key_to_char(k, shift_held);
            type_char(engine, c)
        },
    }
}

/// The character of a Windows virtual-key code, and whether the key ends
/// the word: letters (uppercased with Shift), digits (none with Shift),
/// Space; every other key types nothing and ends the word.
pub open spec fn windows_vk_char(vk: u32, shift: bool) -> (Option<char>, bool) {
    if 0x41 <= vk <= 0x5A {
        let c = ((vk - 0x41 + 97) as u8) as char;
        (Some(
            if shift {
                spec_ascii_upper(c)
            } else {
                c
            },
        ), false)
    } else if 0x30 <= vk <= 0x39 {
        if shift {
            (None, false)
        } else {
            (Some(((vk - 0x30 + 48) as u8) as char), false)
        }
    } else if vk == 0x20 {
        (Some(' '), false)
    } else {
        (None, true)
    }
}

fn windows_vk_char_exec(vk: u32, shift: bool) -> (r: (Option<char>, bool))
    ensures
        r == windows_vk_char(vk, shift),
{
    if 0x41 <= vk && vk <= 0x5A {
        let b: u8 = ((vk - 0x41) as u8) + 97;
        let c = b as char;
        (Some(
            if shift {
                ascii_upper(c)
            } else {
                c
            },
        ), false)
    } else if 0x30 <= vk && vk <= 0x39 {
        if shift {
            (None, false)
        } else {
            let b: u8 = ((vk - 0x30) as u8) + 48;
            (Some(b as char), false)
        }
    } else if vk == 0x20 {
        (Some(' '), false)
    } else {
        (None, true)
    }
}

/// A key-down event on Windows: with Control or Alt held the word ends and
/// the key passes; a key that types a character goes to the engine; a
/// shifted digit passes untouched; any other key ends the word.
pub open spec fn spec_windows_key_down(s: EngineView, shift: bool, ctrl: bool, alt: bool, vk: u32) -> (
    EngineView,
    HookActionView,
) {
    if ctrl || alt {
        (cleared(s), HookActionView::Pass)
    } else {
        let (c, ends_word) = windows_vk_char(vk, shift);
        match c {
            Some(ch) => spec_type_char(s, Some(ch)),
            None => if ends_word {
                (cleared(s), HookActionView::Pass)
            } else {
                (s, HookActionView::Pass)
            },
        }
    }
}

pub fn windows_key_down(engine: &mut Engine, shift: bool, ctrl: bool, alt: bool, vk: u32) -> (r:
    HookAction)
    ensures
        (final(engine)@, r@) == spec_windows_key_down(old(engine)@, shift, ctrl, alt, vk),
{
    if ctrl || alt {
        reset_engine(engine);
        return HookAction::Pass;
    }
    let (c, ends_word) = windows_vk_char_exec(vk, shift);
    match c {
        Some(ch) => type_char(engine, Some(ch)),
        None => {
            if ends_word {
                reset_engine(engine);
            }
            HookAction::Pass
        },
    }
}

/// Every letter key types the letter printed on it, lowercase without Shift
/// and uppercase with it; every digit key types its digit without Shift and
/// nothing with it; and no two keys type the same character.
pub proof fn lemma_keys_type_their_letters(k1: Key, k2: Key, shift: bool)
    ensures
        shifted(key_base(Key::KeyA), false) == Some('a') && shifted(key_base(Key::KeyA), true)
            == Some('A'),
        shifted(key_base(Key::KeyB), false) == Some('b') && shifted(key_base(Key::KeyB), true)
            == Some('B'),
        shifted(key_base(Key::KeyC), false) == Some('c') && shifted(key_base(Key::KeyC), true)
            == Some('C'),
        shifted(key_base(Key::KeyD), false) == Some('d') && shifted(key_base(Key::KeyD), true)
            == Some('D'),
        shifted(key_base(Key::KeyE), false) == Some('e') && shifted(key_base(Key::KeyE), true)
            == Some('E'),
        shifted(key_base(Key::KeyF), false) == Some('f') && shifted(key_base(Key::KeyF), true)
            == Some('F'),
        shifted(key_base(Key::KeyG), false) == Some('g') && shifted(key_base(Key::KeyG), true)
            == Some('G'),
        shifted(key_base(Key::KeyH), false) == Some('h') && shifted(key_base(Key::KeyH), true)
            == Some('H'),
        shifted(key_base(Key::KeyI), false) == Some('i') && shifted(key_base(Key::KeyI), true)
            == Some('I'),
        shifted(key_base(Key::KeyJ), false) == Some('j') && shifted(key_base(Key::KeyJ), true)
            == Some('J'),
        shifted(key_base(Key::KeyK), false) == Some('k') && shifted(key_base(Key::KeyK), true)
            == Some('K'),
        shifted(key_base(Key::KeyL), false) == Some('l') && shifted(key_base(Key::KeyL), true)
            == Some('L'),
        shifted(key_base(Key::KeyM), false) == Some('m') && shifted(key_base(Key::KeyM), true)
            == Some('M'),
        shifted(key_base(Key::KeyN), false) == Some('n') && shifted(key_base(Key::KeyN), true)
            == Some('N'),
        shifted(key_base(Key::KeyO), false) == Some('o') && shifted(key_base(Key::KeyO), true)
            == Some('O'),
        shifted(key_base(Key::KeyP), false) == Some('p') && shifted(key_base(Key::KeyP), true)
            == Some('P'),
        shifted(key_base(Key::KeyQ), false) == Some('q') && shifted(key_base(Key::KeyQ), true)
            == Some('Q'),
        shifted(key_base(Key::KeyR), false) == Some('r') && shifted(key_base(Key::KeyR), true)
            == Some('R'),
        shifted(key_base(Key::KeyS), false) == Some('s') && shifted(key_base(Key::KeyS), true)
            == Some('S'),
        shifted(key_base(Key::KeyT), false) == Some('t') && shifted(key_base(Key::KeyT), true)
            == Some('T'),
        shifted(key_base(Key::KeyU), false) == Some('u') && shifted(key_base(Key::KeyU), true)
            == Some('U'),
        shifted(key_base(Key::KeyV), false) == Some('v') && shifted(key_base(Key::KeyV), true)
            == Some('V'),
        shifted(key_base(Key::KeyW), false) == Some('w') && shifted(key_base(Key::KeyW), true)
            == Some('W'),
        shifted(key_base(Key::KeyX), false) == Some('x') && shifted(key_base(Key::KeyX), true)
            == Some('X'),
        shifted(key_base(Key::KeyY), false) == Some('y') && shifted(key_base(Key::KeyY), true)
            == Some('Y'),
        shifted(key_base(Key::KeyZ), false) == Some('z') && shifted(key_base(Key::KeyZ), true)
            == Some('Z'),
        shifted(key_base(Key::Num0), false) == Some('0') && shifted(key_base(Key::Num0), true) is None,
        shifted(key_base(Key::Num1), false) == Some('1') && shifted(key_base(Key::Num1), true) is None,
        shifted(key_base(Key::Num2), false) == Some('2') && shifted(key_base(Key::Num2), true) is None,
        shifted(key_base(Key::Num3), false) == Some('3') && shifted(key_base(Key::Num3), true) is None,
        shifted(key_base(Key::Num4), false) == Some('4') && shifted(key_base(Key::Num4), true) is None,
        shifted(key_base(Key::Num5), false) == Some('5') && shifted(key_base(Key::Num5), true) is None,
        shifted(key_base(Key::Num6), false) == Some('6') && shifted(key_base(Key::Num6), true) is None,
        shifted(key_base(Key::Num7), false) == Some('7') && shifted(key_base(Key::Num7), true) is None,
        shifted(key_base(Key::Num8), false) == Some('8') && shifted(key_base(Key::Num8), true) is None,
        shifted(key_base(Key::Num9), false) == Some('9') && shifted(key_base(Key::Num9), true) is None,
        (shifted(key_base(k1), shift) matches Some(c) && shifted(key_base(k2), shift) == Some(c))
            ==> k1 == k2,
{
}

/// The two readings of a macOS key code agree: the key a code stands for
/// types what is printed on that code, and every code printed with a letter
/// or a digit stands for a key.
pub proof fn lemma_mac_keycode_tables_agree(keycode: u16)
    ensures
        mac_keycode_key(keycode) matches Some(k) ==> key_base(k) == mac_keycode_base(
            keycode as i64,
        ),
        (mac_keycode_base(keycode as i64) matches Some((c, _)) && (('a' <= c <= 'z') || ('0' <= c
            <= '9'))) ==> mac_keycode_key(keycode) is Some,
{
}

/// Windows virtual-key codes of letters and digits are the ASCII codes of
/// the uppercase letter and of the digit: a letter key types that letter
/// (lowercase without Shift), a digit key its digit without Shift, and
/// neither ends the word.
pub proof fn lemma_windows_vk_codes(vk: u32, shift: bool)
    ensures
        0x41 <= vk <= 0x5A ==> windows_vk_char(vk, true) == (Some((vk as u8) as char), false)
            && windows_vk_char(vk, false) == (Some(((vk + 32) as u8) as char), false),
        0x30 <= vk <= 0x39 ==> windows_vk_char(vk, false) == (Some((vk as u8) as char), false)
            && windows_vk_char(vk, true) == (None::<char>, false),
{
    if 0x41 <= vk <= 0x5A {
        let c = ((vk - 0x41 + 97) as u8) as char;
        assert(spec_ascii_upper(c) == ((vk as u8) as char));
    }
}

} // verus!
