//! The window system's key events as keys for Neovim.
use anvi::input::{Key, Mods, NamedKey};
use anvi::keys::{
    ALT_BIT, CONTROL_BIT, KeyEvent, KeyName, LogicalKey, PhysicalKey, SHIFT_BIT, convert, mods,
    named_key,
};
use winit::keyboard::ModifiersState;

fn typed(text: &str) -> KeyEvent {
    KeyEvent {
        physical_key: PhysicalKey::Other,
        logical_key: LogicalKey::Character(text.to_string()),
        pressed: true,
    }
}

#[test]
fn modifiers_are_read_from_winits_bits() {
    assert_eq!(SHIFT_BIT, ModifiersState::SHIFT.bits());
    assert_eq!(CONTROL_BIT, ModifiersState::CONTROL.bits());
    assert_eq!(ALT_BIT, ModifiersState::ALT.bits());
    for ctrl in [false, true] {
        for alt in [false, true] {
            for shift in [false, true] {
                for windows in [false, true] {
                    let mut state = ModifiersState::empty();
                    state.set(ModifiersState::CONTROL, ctrl);
                    state.set(ModifiersState::ALT, alt);
                    state.set(ModifiersState::SHIFT, shift);
                    state.set(ModifiersState::SUPER, windows);
                    assert_eq!(mods(state.bits()), Mods { ctrl, alt, shift });
                }
            }
        }
    }
    assert_eq!(mods(u32::MAX), Mods { ctrl: true, alt: true, shift: true });
}

#[test]
fn characters_are_taken_as_typed() {
    let none = Mods::default();
    assert_eq!(convert(&typed("a"), none), Some(Key::Char('a')));
    assert_eq!(convert(&typed("あ"), none), Some(Key::Char('あ')));
    // A dead key that could not be composed comes with the key after it.
    assert_eq!(convert(&typed("^q"), none), Some(Key::Char('^')));
    assert_eq!(convert(&typed(""), none), None);
}

#[test]
fn paste_is_known_by_where_the_key_sits() {
    let event = KeyEvent {
        physical_key: PhysicalKey::KeyV,
        logical_key: LogicalKey::Character("м".to_string()),
        pressed: true,
    };
    let ctrl_shift = Mods { ctrl: true, alt: false, shift: true };
    assert_eq!(convert(&event, ctrl_shift), Some(Key::Char('V')));
    assert_eq!(
        convert(&event, Mods { alt: true, ..ctrl_shift }),
        Some(Key::Char('м'))
    );
    assert_eq!(convert(&event, Mods::default()), Some(Key::Char('м')));
}

#[test]
fn named_keys_have_names_in_neovim() {
    assert_eq!(named_key(KeyName::ArrowUp), Some(NamedKey::Up));
    assert_eq!(named_key(KeyName::PageDown), Some(NamedKey::PageDown));
    assert_eq!(named_key(KeyName::Space), Some(NamedKey::Space));
    assert_eq!(named_key(KeyName::F1), Some(NamedKey::Function(1)));
    assert_eq!(named_key(KeyName::F24), Some(NamedKey::Function(24)));
    assert_eq!(named_key(KeyName::Other), None);
}

#[test]
fn half_typed_and_unknown_keys_are_dropped() {
    for logical_key in [
        LogicalKey::Dead,
        LogicalKey::Unidentified,
        LogicalKey::Named(KeyName::Other),
    ] {
        let event = KeyEvent { physical_key: PhysicalKey::Other, logical_key, pressed: true };
        assert_eq!(convert(&event, Mods::default()), None);
    }
}
