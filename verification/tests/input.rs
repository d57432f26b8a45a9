//! Keys and text in Neovim's notation.
use anvi::input::{Key, Mods, NamedKey, char_notation, encode_key, encode_text, is_control, wrap};

const NONE: Mods = Mods {
    ctrl: false,
    alt: false,
    shift: false,
};
const CTRL: Mods = Mods {
    ctrl: true,
    alt: false,
    shift: false,
};
const ALT: Mods = Mods {
    ctrl: false,
    alt: true,
    shift: false,
};
const SHIFT: Mods = Mods {
    ctrl: false,
    alt: false,
    shift: true,
};
const ALT_CTRL: Mods = Mods {
    ctrl: true,
    alt: true,
    shift: false,
};
const CTRL_SHIFT: Mods = Mods {
    ctrl: true,
    alt: false,
    shift: true,
};
const ALL: Mods = Mods {
    ctrl: true,
    alt: true,
    shift: true,
};

fn ch(c: char, mods: Mods) -> Option<String> {
    encode_key(Key::Char(c), mods)
}

fn named(key: NamedKey, mods: Mods) -> Option<String> {
    encode_key(Key::Named(key), mods)
}

fn some(text: &str) -> Option<String> {
    Some(text.to_owned())
}

#[test]
fn plain_characters_pass_through() {
    assert_eq!(ch('a', NONE), some("a"));
    assert_eq!(ch('A', SHIFT), some("A"));
    assert_eq!(ch('!', SHIFT), some("!"));
    assert_eq!(ch('あ', NONE), some("あ"));
}

#[test]
fn ctrl_shift_v_uses_a_distinct_canonical_notation() {
    assert_eq!(ch('v', CTRL_SHIFT), some("<C-S-V>"));
    assert_eq!(ch('V', CTRL_SHIFT), some("<C-S-V>"));
    assert_eq!(ch('v', CTRL), some("<C-v>"));
    assert_eq!(ch('v', ALT_CTRL), some("<M-C-v>"));
    assert_eq!(ch('v', SHIFT), some("v"));
}

#[test]
fn ctrl_and_alt_use_the_bracket_notation() {
    assert_eq!(ch('a', CTRL), some("<C-a>"));
    assert_eq!(ch('x', ALT), some("<M-x>"));
}

#[test]
fn the_modifier_order_is_alt_ctrl_shift() {
    assert_eq!(ch('x', ALT_CTRL), some("<M-C-x>"));
    assert_eq!(named(NamedKey::Tab, ALL), some("<M-C-S-Tab>"));
}

#[test]
fn shift_is_only_spelled_out_for_named_keys() {
    assert_eq!(named(NamedKey::Tab, SHIFT), some("<S-Tab>"));
    // A character comes with Shift applied: `<C-A>`, not `<C-S-a>`.
    assert_eq!(ch('A', CTRL_SHIFT), some("<C-A>"));
}

#[test]
fn the_less_than_sign_is_always_escaped() {
    assert_eq!(ch('<', NONE), some("<lt>"));
    assert_eq!(ch('<', SHIFT), some("<lt>"));
    assert_eq!(ch('<', CTRL), some("<C-lt>"));
    assert_eq!(ch('<', ALT), some("<M-lt>"));
}

#[test]
fn space_is_bare_unless_modified() {
    assert_eq!(named(NamedKey::Space, NONE), some(" "));
    assert_eq!(named(NamedKey::Space, CTRL), some("<C-Space>"));
    assert_eq!(named(NamedKey::Space, SHIFT), some("<S-Space>"));
}

#[test]
fn function_keys_are_numbered() {
    assert_eq!(named(NamedKey::Function(5), NONE), some("<F5>"));
    assert_eq!(named(NamedKey::Function(5), CTRL), some("<C-F5>"));
    assert_eq!(named(NamedKey::Function(12), NONE), some("<F12>"));
}

#[test]
fn named_keys_use_nvims_spelling() {
    assert_eq!(named(NamedKey::Enter, NONE), some("<CR>"));
    assert_eq!(named(NamedKey::Escape, NONE), some("<Esc>"));
    assert_eq!(named(NamedKey::Backspace, NONE), some("<BS>"));
    assert_eq!(named(NamedKey::Delete, NONE), some("<Del>"));
    assert_eq!(named(NamedKey::Insert, NONE), some("<Insert>"));
    assert_eq!(named(NamedKey::Home, NONE), some("<Home>"));
    assert_eq!(named(NamedKey::End, NONE), some("<End>"));
    assert_eq!(named(NamedKey::PageUp, NONE), some("<PageUp>"));
    assert_eq!(named(NamedKey::PageDown, NONE), some("<PageDown>"));
    assert_eq!(named(NamedKey::Up, NONE), some("<Up>"));
    assert_eq!(named(NamedKey::Down, NONE), some("<Down>"));
    assert_eq!(named(NamedKey::Left, NONE), some("<Left>"));
    assert_eq!(named(NamedKey::Right, NONE), some("<Right>"));
}

#[test]
fn control_characters_are_dropped() {
    // These are named keys; sent raw, a key would arrive twice.
    assert_eq!(ch('\r', NONE), None);
    assert_eq!(ch('\t', NONE), None);
    assert_eq!(ch('\u{1b}', NONE), None);
    assert_eq!(ch('\u{1}', CTRL), None);
}

#[test]
fn encode_text_only_escapes_the_less_than_sign() {
    assert_eq!(encode_text("a<b"), "a<lt>b");
    assert_eq!(encode_text("<<"), "<lt><lt>");
    assert_eq!(encode_text("plain"), "plain");
    assert_eq!(encode_text(""), "");
}

#[test]
fn encode_text_passes_japanese_through() {
    assert_eq!(encode_text("こんにちは"), "こんにちは");
    assert_eq!(encode_text("全角＜と半角<"), "全角＜と半角<lt>");
    assert_eq!(encode_text("絵文字🍣も"), "絵文字🍣も");
}

#[test]
fn every_control_character_is_recognised() {
    for code in 0..0x300u32 {
        let c = char::from_u32(code).unwrap();
        assert_eq!(is_control(c), c.is_control(), "{code:#x}");
    }
    assert!(!is_control('あ'));
    assert!(!is_control('\u{10ffff}'));
}

#[test]
fn paste_needs_exactly_ctrl_and_shift() {
    assert_eq!(ch('v', ALL), some("<M-C-v>"));
    assert_eq!(ch('V', ALT_CTRL), some("<M-C-V>"));
}

#[test]
fn no_modifier_is_empty() {
    assert!(NONE.is_empty());
    assert!(Mods::default().is_empty());
    assert!(!CTRL.is_empty());
    assert!(!ALT.is_empty());
    assert!(!SHIFT.is_empty());
}

#[test]
fn named_keys_spell_themselves() {
    assert_eq!(NamedKey::Enter.notation(), "CR");
    assert_eq!(NamedKey::Space.notation(), "Space");
    assert_eq!(NamedKey::Function(0).notation(), "F0");
    assert_eq!(NamedKey::Function(255).notation(), "F255");
}

#[test]
fn characters_and_brackets_are_spelled() {
    assert_eq!(char_notation('<'), "lt");
    assert_eq!(char_notation('x'), "x");
    assert_eq!(wrap("Tab", ALL, true), "<M-C-S-Tab>");
    assert_eq!(wrap("x", ALL, false), "<M-C-x>");
    assert_eq!(wrap("CR", NONE, true), "<CR>");
}

#[test]
fn text_is_escaped_piece_by_piece() {
    let whole = encode_text("a<b<c");
    let pieces = format!("{}{}", encode_text("a<"), encode_text("b<c"));
    assert_eq!(whole, pieces);
    assert_eq!(whole, "a<lt>b<lt>c");
    assert_eq!(encode_text("a\r\tb"), "a\r\tb");
}
