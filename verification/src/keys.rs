//! The window system's key events as keys for Neovim.
//!
//! A key without a place in the table is dropped: a character that nobody typed does more harm in a
//! buffer than one that is missing. That also drops the keys that an input method has taken.
use vstd::prelude::*;

use crate::input::{Key, Mods, NamedKey};

verus! {

/// The names that the window system gives to keys, as far as any of them is used.
#[derive(Clone, Copy, Debug, PartialEq, Eq, Structural)]
pub enum KeyName {
    Enter,
    Escape,
    Tab,
    Backspace,
    Delete,
    Insert,
    Home,
    End,
    PageUp,
    PageDown,
    ArrowUp,
    ArrowDown,
    ArrowLeft,
    ArrowRight,
    Space,
    F1,
    F2,
    F3,
    F4,
    F5,
    F6,
    F7,
    F8,
    F9,
    F10,
    F11,
    F12,
    F13,
    F14,
    F15,
    F16,
    F17,
    F18,
    F19,
    F20,
    F21,
    F22,
    F23,
    F24,
    /// Any other name, among them the one for keys that an input method has taken.
    Other,
}

/// What a key means in the current keyboard layout.
#[derive(Debug, PartialEq, Eq)]
pub enum LogicalKey {
    /// The text that it types.
    Character(String),
    Named(KeyName),
    /// The first half of a composed character.
    Dead,
    Unidentified,
}

/// Where a key sits on the keyboard, as far as that is looked at.
#[derive(Clone, Copy, Debug, PartialEq, Eq, Structural)]
pub enum PhysicalKey {
    KeyV,
    Other,
}

/// A key event of the window system.
#[derive(Debug, PartialEq, Eq)]
pub struct KeyEvent {
    pub physical_key: PhysicalKey,
    pub logical_key: LogicalKey,
    /// Whether the key went down, rather than up.
    pub pressed: bool,
}

// ---------------------------------------------------------------------------
// Modifiers
// ---------------------------------------------------------------------------

/// The bit of winit's modifier state that stands for Shift.
pub const SHIFT_BIT: u32 = 0x004;

/// The bit of winit's modifier state that stands for Ctrl.
pub const CONTROL_BIT: u32 = 0x020;

/// The bit of winit's modifier state that stands for Alt.
pub const ALT_BIT: u32 = 0x100;

/// winit's `ModifiersState::shift_key`, of the state with the given bits (winit's
/// `ModifiersState::from_bits_truncate`): whether the Shift bit is among them.
#[verifier::external_body]
fn shift_key(state: u32) -> (held: bool)
    ensures
        held == (state & SHIFT_BIT != 0),
{
    winit::keyboard::ModifiersState::from_bits_truncate(state).shift_key()
}

/// winit's `ModifiersState::control_key`, of the state with the given bits (winit's
/// `ModifiersState::from_bits_truncate`): whether the Ctrl bit is among them.
#[verifier::external_body]
fn control_key(state: u32) -> (held: bool)
    ensures
        held == (state & CONTROL_BIT != 0),
{
    winit::keyboard::ModifiersState::from_bits_truncate(state).control_key()
}

/// winit's `ModifiersState::alt_key`, of the state with the given bits (winit's
/// `ModifiersState::from_bits_truncate`): whether the Alt bit is among them.
#[verifier::external_body]
fn alt_key(state: u32) -> (held: bool)
    ensures
        held == (state & ALT_BIT != 0),
{
    winit::keyboard::ModifiersState::from_bits_truncate(state).alt_key()
}

/// The modifiers that are held, given the bits of winit's modifier state. The Windows key is left
/// to the system.
#[must_use]
pub fn mods(state: u32) -> (mods: Mods)
    ensures
        mods.ctrl == (state & CONTROL_BIT != 0),
        mods.alt == (state & ALT_BIT != 0),
        mods.shift == (state & SHIFT_BIT != 0),
{
    Mods { ctrl: control_key(state), alt: alt_key(state), shift: shift_key(state) }
}

// ---------------------------------------------------------------------------
// Keys
// ---------------------------------------------------------------------------

/// The number of a function key.
pub open spec fn function_number(name: KeyName) -> Option<u8> {
    match name {
        KeyName::F1 => Some(1),
        KeyName::F2 => Some(2),
        KeyName::F3 => Some(3),
        KeyName::F4 => Some(4),
        KeyName::F5 => Some(5),
        KeyName::F6 => Some(6),
        KeyName::F7 => Some(7),
        KeyName::F8 => Some(8),
        KeyName::F9 => Some(9),
        KeyName::F10 => Some(10),
        KeyName::F11 => Some(11),
        KeyName::F12 => Some(12),
        KeyName::F13 => Some(13),
        KeyName::F14 => Some(14),
        KeyName::F15 => Some(15),
        KeyName::F16 => Some(16),
        KeyName::F17 => Some(17),
        KeyName::F18 => Some(18),
        KeyName::F19 => Some(19),
        KeyName::F20 => Some(20),
        KeyName::F21 => Some(21),
        KeyName::F22 => Some(22),
        KeyName::F23 => Some(23),
        KeyName::F24 => Some(24),
        _ => None,
    }
}

/// Neovim's key for a key of the window system that has a name.
pub open spec fn named(name: KeyName) -> Option<NamedKey> {
    match name {
        KeyName::Enter => Some(NamedKey::Enter),
        KeyName::Escape => Some(NamedKey::Escape),
        KeyName::Tab => Some(NamedKey::Tab),
        KeyName::Backspace => Some(NamedKey::Backspace),
        KeyName::Delete => Some(NamedKey::Delete),
        KeyName::Insert => Some(NamedKey::Insert),
        KeyName::Home => Some(NamedKey::Home),
        KeyName::End => Some(NamedKey::End),
        KeyName::PageUp => Some(NamedKey::PageUp),
        KeyName::PageDown => Some(NamedKey::PageDown),
        KeyName::ArrowUp => Some(NamedKey::Up),
        KeyName::ArrowDown => Some(NamedKey::Down),
        KeyName::ArrowLeft => Some(NamedKey::Left),
        KeyName::ArrowRight => Some(NamedKey::Right),
        KeyName::Space => Some(NamedKey::Space),
        KeyName::Other => None,
        _ => Some(NamedKey::Function(function_number(name)->0)),
    }
}

/// Neovim's key for a key of the window system that has a name.
pub fn named_key(name: KeyName) -> (key: Option<NamedKey>)
    ensures
        key == named(name),
{
    let key = match name {
        KeyName::Enter => NamedKey::Enter,
        KeyName::Escape => NamedKey::Escape,
        KeyName::Tab => NamedKey::Tab,
        KeyName::Backspace => NamedKey::Backspace,
        KeyName::Delete => NamedKey::Delete,
        KeyName::Insert => NamedKey::Insert,
        KeyName::Home => NamedKey::Home,
        KeyName::End => NamedKey::End,
        KeyName::PageUp => NamedKey::PageUp,
        KeyName::PageDown => NamedKey::PageDown,
        KeyName::ArrowUp => NamedKey::Up,
        KeyName::ArrowDown => NamedKey::Down,
        KeyName::ArrowLeft => NamedKey::Left,
        KeyName::ArrowRight => NamedKey::Right,
        KeyName::Space => NamedKey::Space,
        // Neovim knows function keys up to 37; no keyboard has more than these.
        KeyName::F1 => NamedKey::Function(1),
        KeyName::F2 => NamedKey::Function(2),
        KeyName::F3 => NamedKey::Function(3),
        KeyName::F4 => NamedKey::Function(4),
        KeyName::F5 => NamedKey::Function(5),
        KeyName::F6 => NamedKey::Function(6),
        KeyName::F7 => NamedKey::Function(7),
        KeyName::F8 => NamedKey::Function(8),
        KeyName::F9 => NamedKey::Function(9),
        KeyName::F10 => NamedKey::Function(10),
        KeyName::F11 => NamedKey::Function(11),
        KeyName::F12 => NamedKey::Function(12),
        KeyName::F13 => NamedKey::Function(13),
        KeyName::F14 => NamedKey::Function(14),
        KeyName::F15 => NamedKey::Function(15),
        KeyName::F16 => NamedKey::Function(16),
        KeyName::F17 => NamedKey::Function(17),
        KeyName::F18 => NamedKey::Function(18),
        KeyName::F19 => NamedKey::Function(19),
        KeyName::F20 => NamedKey::Function(20),
        KeyName::F21 => NamedKey::Function(21),
        KeyName::F22 => NamedKey::Function(22),
        KeyName::F23 => NamedKey::Function(23),
        KeyName::F24 => NamedKey::Function(24),
        KeyName::Other => {
            return None;
        },
    };
    Some(key)
}

/// Neovim's key for a key event.
///
/// Ctrl+Shift+V is known by where the key sits, because what it types differs between keyboard
/// layouts. A composition that failed types two characters at once; the key is the first of them.
pub open spec fn converted(event: KeyEvent, mods: Mods) -> Option<Key> {
    if event.physical_key == PhysicalKey::KeyV && mods.ctrl && mods.shift && !mods.alt {
        Some(Key::Char('V'))
    } else {
        match event.logical_key {
            LogicalKey::Character(text) => if text@.len() > 0 {
                Some(Key::Char(text@[0]))
            } else {
                None
            },
            LogicalKey::Named(name) => match named(name) {
                Some(key) => Some(Key::Named(key)),
                None => None,
            },
            LogicalKey::Dead => None,
            LogicalKey::Unidentified => None,
        }
    }
}

/// Neovim's key for a key event, or `None` where there is none.
#[must_use]
pub fn convert(event: &KeyEvent, mods: Mods) -> (key: Option<Key>)
    ensures
        key == converted(*event, mods),
{
    if event.physical_key == PhysicalKey::KeyV && mods.ctrl && mods.shift && !mods.alt {
        return Some(Key::Char('V'));
    }
    match &event.logical_key {
        LogicalKey::Character(text) => {
            if text.as_str().is_empty() {
                None
            } else {
                Some(Key::Char(text.as_str().get_char(0)))
            }
        },
        LogicalKey::Named(name) => match named_key(*name) {
            Some(key) => Some(Key::Named(key)),
            None => None,
        },
        LogicalKey::Dead => None,
        LogicalKey::Unidentified => None,
    }
}

// ---------------------------------------------------------------------------
// Laws
// ---------------------------------------------------------------------------

/// The key at V with Ctrl and Shift is sent as `<C-S-V>` in every keyboard layout.
pub proof fn law_paste_works_in_every_layout(event: KeyEvent, mods: Mods)
    requires
        event.physical_key == PhysicalKey::KeyV,
        mods.ctrl && mods.shift && !mods.alt,
    ensures
        converted(event, mods) == Some(Key::Char('V')),
        crate::input::notation(converted(event, mods)->0, mods) == Some("<C-S-V>"@),
{
}

/// Different named keys stay different keys.
pub proof fn law_named_keys_stay_apart(a: KeyName, b: KeyName)
    requires
        named(a) is Some,
        named(a) == named(b),
    ensures
        a == b,
{
}

/// Every key with a known name has a key in Neovim, and the function keys keep their numbers, which
/// run from 1 to 24.
pub proof fn law_only_unknown_names_are_dropped(name: KeyName)
    ensures
        named(name) is None <==> name == KeyName::Other,
        named(name) matches Some(NamedKey::Function(n)) ==> function_number(name) == Some(n) && 1
            <= n <= 24,
{
}

/// Each key that has a name is sent, alone, in the notation that Neovim has for that very key.
pub proof fn law_named_keys_are_sent_in_their_notation(none: Mods)
    requires
        !none.ctrl && !none.alt && !none.shift,
    ensures
        crate::input::notation(Key::Named(named(KeyName::Enter)->0), none) == Some("<CR>"@),
        crate::input::notation(Key::Named(named(KeyName::Escape)->0), none) == Some("<Esc>"@),
        crate::input::notation(Key::Named(named(KeyName::Tab)->0), none) == Some("<Tab>"@),
        crate::input::notation(Key::Named(named(KeyName::Backspace)->0), none) == Some("<BS>"@),
        crate::input::notation(Key::Named(named(KeyName::Delete)->0), none) == Some("<Del>"@),
        crate::input::notation(Key::Named(named(KeyName::Insert)->0), none) == Some("<Insert>"@),
        crate::input::notation(Key::Named(named(KeyName::Home)->0), none) == Some("<Home>"@),
        crate::input::notation(Key::Named(named(KeyName::End)->0), none) == Some("<End>"@),
        crate::input::notation(Key::Named(named(KeyName::PageUp)->0), none) == Some("<PageUp>"@),
        crate::input::notation(Key::Named(named(KeyName::PageDown)->0), none) == Some("<PageDown>"@),
        crate::input::notation(Key::Named(named(KeyName::ArrowUp)->0), none) == Some("<Up>"@),
        crate::input::notation(Key::Named(named(KeyName::ArrowDown)->0), none) == Some("<Down>"@),
        crate::input::notation(Key::Named(named(KeyName::ArrowLeft)->0), none) == Some("<Left>"@),
        crate::input::notation(Key::Named(named(KeyName::ArrowRight)->0), none) == Some("<Right>"@),
        crate::input::notation(Key::Named(named(KeyName::Space)->0), none) == Some(" "@),
        named(KeyName::Other) is None,
{
    reveal_strlit(" ");
    assert(seq![' '] =~= " "@);
    reveal_strlit("CR");
    reveal_strlit("<CR>");
    assert(crate::input::notation(Key::Named(named(KeyName::Enter)->0), none)->0 =~= "<CR>"@);
    reveal_strlit("Esc");
    reveal_strlit("<Esc>");
    assert(crate::input::notation(Key::Named(named(KeyName::Escape)->0), none)->0 =~= "<Esc>"@);
    reveal_strlit("Tab");
    reveal_strlit("<Tab>");
    assert(crate::input::notation(Key::Named(named(KeyName::Tab)->0), none)->0 =~= "<Tab>"@);
    reveal_strlit("BS");
    reveal_strlit("<BS>");
    assert(crate::input::notation(Key::Named(named(KeyName::Backspace)->0), none)->0 =~= "<BS>"@);
    reveal_strlit("Del");
    reveal_strlit("<Del>");
    assert(crate::input::notation(Key::Named(named(KeyName::Delete)->0), none)->0 =~= "<Del>"@);
    reveal_strlit("Insert");
    reveal_strlit("<Insert>");
    assert(crate::input::notation(Key::Named(named(KeyName::Insert)->0), none)->0 =~= "<Insert>"@);
    reveal_strlit("Home");
    reveal_strlit("<Home>");
    assert(crate::input::notation(Key::Named(named(KeyName::Home)->0), none)->0 =~= "<Home>"@);
    reveal_strlit("End");
    reveal_strlit("<End>");
    assert(crate::input::notation(Key::Named(named(KeyName::End)->0), none)->0 =~= "<End>"@);
    reveal_strlit("PageUp");
    reveal_strlit("<PageUp>");
    assert(crate::input::notation(Key::Named(named(KeyName::PageUp)->0), none)->0 =~= "<PageUp>"@);
    reveal_strlit("PageDown");
    reveal_strlit("<PageDown>");
    assert(crate::input::notation(Key::Named(named(KeyName::PageDown)->0), none)->0 =~= "<PageDown>"@);
    reveal_strlit("Up");
    reveal_strlit("<Up>");
    assert(crate::input::notation(Key::Named(named(KeyName::ArrowUp)->0), none)->0 =~= "<Up>"@);
    reveal_strlit("Down");
    reveal_strlit("<Down>");
    assert(crate::input::notation(Key::Named(named(KeyName::ArrowDown)->0), none)->0 =~= "<Down>"@);
    reveal_strlit("Left");
    reveal_strlit("<Left>");
    assert(crate::input::notation(Key::Named(named(KeyName::ArrowLeft)->0), none)->0 =~= "<Left>"@);
    reveal_strlit("Right");
    reveal_strlit("<Right>");
    assert(crate::input::notation(Key::Named(named(KeyName::ArrowRight)->0), none)->0 =~= "<Right>"@);
}

/// Each function key is sent, alone, under its own number.
pub proof fn law_function_keys_are_sent_by_number(none: Mods)
    requires
        !none.ctrl && !none.alt && !none.shift,
    ensures
        crate::input::notation(Key::Named(named(KeyName::F1)->0), none) == Some("<F1>"@),
        crate::input::notation(Key::Named(named(KeyName::F2)->0), none) == Some("<F2>"@),
        crate::input::notation(Key::Named(named(KeyName::F3)->0), none) == Some("<F3>"@),
        crate::input::notation(Key::Named(named(KeyName::F4)->0), none) == Some("<F4>"@),
        crate::input::notation(Key::Named(named(KeyName::F5)->0), none) == Some("<F5>"@),
        crate::input::notation(Key::Named(named(KeyName::F6)->0), none) == Some("<F6>"@),
        crate::input::notation(Key::Named(named(KeyName::F7)->0), none) == Some("<F7>"@),
        crate::input::notation(Key::Named(named(KeyName::F8)->0), none) == Some("<F8>"@),
        crate::input::notation(Key::Named(named(KeyName::F9)->0), none) == Some("<F9>"@),
        crate::input::notation(Key::Named(named(KeyName::F10)->0), none) == Some("<F10>"@),
        crate::input::notation(Key::Named(named(KeyName::F11)->0), none) == Some("<F11>"@),
        crate::input::notation(Key::Named(named(KeyName::F12)->0), none) == Some("<F12>"@),
        crate::input::notation(Key::Named(named(KeyName::F13)->0), none) == Some("<F13>"@),
        crate::input::notation(Key::Named(named(KeyName::F14)->0), none) == Some("<F14>"@),
        crate::input::notation(Key::Named(named(KeyName::F15)->0), none) == Some("<F15>"@),
        crate::input::notation(Key::Named(named(KeyName::F16)->0), none) == Some("<F16>"@),
        crate::input::notation(Key::Named(named(KeyName::F17)->0), none) == Some("<F17>"@),
        crate::input::notation(Key::Named(named(KeyName::F18)->0), none) == Some("<F18>"@),
        crate::input::notation(Key::Named(named(KeyName::F19)->0), none) == Some("<F19>"@),
        crate::input::notation(Key::Named(named(KeyName::F20)->0), none) == Some("<F20>"@),
        crate::input::notation(Key::Named(named(KeyName::F21)->0), none) == Some("<F21>"@),
        crate::input::notation(Key::Named(named(KeyName::F22)->0), none) == Some("<F22>"@),
        crate::input::notation(Key::Named(named(KeyName::F23)->0), none) == Some("<F23>"@),
        crate::input::notation(Key::Named(named(KeyName::F24)->0), none) == Some("<F24>"@),
{
    reveal_strlit("F");
    reveal_with_fuel(crate::text::numeral, 3);
    reveal_strlit("<F1>");
    assert(crate::input::notation(Key::Named(named(KeyName::F1)->0), none)->0 =~= "<F1>"@);
    reveal_strlit("<F2>");
    assert(crate::input::notation(Key::Named(named(KeyName::F2)->0), none)->0 =~= "<F2>"@);
    reveal_strlit("<F3>");
    assert(crate::input::notation(Key::Named(named(KeyName::F3)->0), none)->0 =~= "<F3>"@);
    reveal_strlit("<F4>");
    assert(crate::input::notation(Key::Named(named(KeyName::F4)->0), none)->0 =~= "<F4>"@);
    reveal_strlit("<F5>");
    assert(crate::input::notation(Key::Named(named(KeyName::F5)->0), none)->0 =~= "<F5>"@);
    reveal_strlit("<F6>");
    assert(crate::input::notation(Key::Named(named(KeyName::F6)->0), none)->0 =~= "<F6>"@);
    reveal_strlit("<F7>");
    assert(crate::input::notation(Key::Named(named(KeyName::F7)->0), none)->0 =~= "<F7>"@);
    reveal_strlit("<F8>");
    assert(crate::input::notation(Key::Named(named(KeyName::F8)->0), none)->0 =~= "<F8>"@);
    reveal_strlit("<F9>");
    assert(crate::input::notation(Key::Named(named(KeyName::F9)->0), none)->0 =~= "<F9>"@);
    reveal_strlit("<F10>");
    assert(crate::input::notation(Key::Named(named(KeyName::F10)->0), none)->0 =~= "<F10>"@);
    reveal_strlit("<F11>");
    assert(crate::input::notation(Key::Named(named(KeyName::F11)->0), none)->0 =~= "<F11>"@);
    reveal_strlit("<F12>");
    assert(crate::input::notation(Key::Named(named(KeyName::F12)->0), none)->0 =~= "<F12>"@);
    reveal_strlit("<F13>");
    assert(crate::input::notation(Key::Named(named(KeyName::F13)->0), none)->0 =~= "<F13>"@);
    reveal_strlit("<F14>");
    assert(crate::input::notation(Key::Named(named(KeyName::F14)->0), none)->0 =~= "<F14>"@);
    reveal_strlit("<F15>");
    assert(crate::input::notation(Key::Named(named(KeyName::F15)->0), none)->0 =~= "<F15>"@);
    reveal_strlit("<F16>");
    assert(crate::input::notation(Key::Named(named(KeyName::F16)->0), none)->0 =~= "<F16>"@);
    reveal_strlit("<F17>");
    assert(crate::input::notation(Key::Named(named(KeyName::F17)->0), none)->0 =~= "<F17>"@);
    reveal_strlit("<F18>");
    assert(crate::input::notation(Key::Named(named(KeyName::F18)->0), none)->0 =~= "<F18>"@);
    reveal_strlit("<F19>");
    assert(crate::input::notation(Key::Named(named(KeyName::F19)->0), none)->0 =~= "<F19>"@);
    reveal_strlit("<F20>");
    assert(crate::input::notation(Key::Named(named(KeyName::F20)->0), none)->0 =~= "<F20>"@);
    reveal_strlit("<F21>");
    assert(crate::input::notation(Key::Named(named(KeyName::F21)->0), none)->0 =~= "<F21>"@);
    reveal_strlit("<F22>");
    assert(crate::input::notation(Key::Named(named(KeyName::F22)->0), none)->0 =~= "<F22>"@);
    reveal_strlit("<F23>");
    assert(crate::input::notation(Key::Named(named(KeyName::F23)->0), none)->0 =~= "<F23>"@);
    reveal_strlit("<F24>");
    assert(crate::input::notation(Key::Named(named(KeyName::F24)->0), none)->0 =~= "<F24>"@);
}

/// With modifiers, each key that has a name is sent under that name behind the marks of the
/// modifiers that are held: Alt, Ctrl, Shift.
pub proof fn law_modified_named_keys_are_sent_marked(name: KeyName, mods: Mods)
    requires
        mods.ctrl || mods.alt || mods.shift,
    ensures
        ({
            let head = seq!['<'] + (if mods.alt {
                "M-"@
            } else {
                Seq::empty()
            }) + (if mods.ctrl {
                "C-"@
            } else {
                Seq::empty()
            }) + (if mods.shift {
                "S-"@
            } else {
                Seq::empty()
            });
            let sent = crate::input::notation(Key::Named(named(name)->0), mods);
            &&& name == KeyName::Enter ==> sent == Some(head + "CR"@ + seq!['>'])
            &&& name == KeyName::Escape ==> sent == Some(head + "Esc"@ + seq!['>'])
            &&& name == KeyName::Tab ==> sent == Some(head + "Tab"@ + seq!['>'])
            &&& name == KeyName::Backspace ==> sent == Some(head + "BS"@ + seq!['>'])
            &&& name == KeyName::Delete ==> sent == Some(head + "Del"@ + seq!['>'])
            &&& name == KeyName::Insert ==> sent == Some(head + "Insert"@ + seq!['>'])
            &&& name == KeyName::Home ==> sent == Some(head + "Home"@ + seq!['>'])
            &&& name == KeyName::End ==> sent == Some(head + "End"@ + seq!['>'])
            &&& name == KeyName::PageUp ==> sent == Some(head + "PageUp"@ + seq!['>'])
            &&& name == KeyName::PageDown ==> sent == Some(head + "PageDown"@ + seq!['>'])
            &&& name == KeyName::ArrowUp ==> sent == Some(head + "Up"@ + seq!['>'])
            &&& name == KeyName::ArrowDown ==> sent == Some(head + "Down"@ + seq!['>'])
            &&& name == KeyName::ArrowLeft ==> sent == Some(head + "Left"@ + seq!['>'])
            &&& name == KeyName::ArrowRight ==> sent == Some(head + "Right"@ + seq!['>'])
            &&& name == KeyName::Space ==> sent == Some(head + "Space"@ + seq!['>'])
            &&& named(name) matches Some(NamedKey::Function(n)) ==> sent == Some(
                head + ("F"@ + crate::text::numeral(n as nat)) + seq!['>'],
            )
        }),
{
}

/// A key that types something is the first character that it types, whatever else it types and
/// wherever it sits; half-typed and unknown keys are none. Only Ctrl+Shift+V is known by its place.
pub proof fn law_keys_are_what_they_type(event: KeyEvent, mods: Mods)
    requires
        event.physical_key != PhysicalKey::KeyV || !mods.ctrl || !mods.shift || mods.alt,
    ensures
        match event.logical_key {
            LogicalKey::Character(text) => {
                &&& text@.len() > 0 ==> converted(event, mods) == Some(Key::Char(text@[0]))
                &&& text@.len() == 0 ==> converted(event, mods) is None
            },
            LogicalKey::Named(name) => {
                &&& name == KeyName::Other ==> converted(event, mods) is None
                &&& name != KeyName::Other ==> converted(event, mods) == Some(
                    Key::Named(named(name)->0),
                )
            },
            LogicalKey::Dead | LogicalKey::Unidentified => converted(event, mods) is None,
        },
{
}

/// The bits of winit's modifier state.
pub proof fn law_modifier_bits()
    ensures
        SHIFT_BIT == 0x4,
        CONTROL_BIT == 0x20,
        ALT_BIT == 0x100,
{
}

} // verus!
