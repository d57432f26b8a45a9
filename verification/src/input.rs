//! Key presses and committed text in Neovim's key notation (`:h key-notation`).
//!
//! What the notation fixes here: modifiers come in the order `M-`, `C-`, `S-`; `S-` is only
//! spelled out for a [`NamedKey`], because a [`Key::Char`] arrives with the shift already applied;
//! and `<` is always written `<lt>`, because a bare one would start a notation.
use vstd::prelude::*;

use crate::text::decimal;

verus! {

/// A key that is no character.
#[derive(Clone, Copy, Debug, PartialEq, Eq, Structural)]
pub enum NamedKey {
    Enter,
    Escape,
    Tab,
    Backspace,
    Delete,
    Insert,
    Home,
    End,
    PageUp,
    PageDown,
    Up,
    Down,
    Left,
    Right,
    Space,
    /// A function key: `Function(5)` is F5.
    Function(u8),
}

/// A pressed key. A `Char` holds the character after keyboard layout and input method.
#[derive(Clone, Copy, Debug, PartialEq, Eq, Structural)]
pub enum Key {
    Char(char),
    Named(NamedKey),
}

/// The modifiers that are held. The Windows key is not among them: it belongs to the system.
#[derive(Clone, Copy, Debug, PartialEq, Eq, Structural)]
pub struct Mods {
    pub ctrl: bool,
    pub alt: bool,
    pub shift: bool,
}

impl Default for Mods {
    fn default() -> (mods: Mods)
        ensures
            mods == (Mods { ctrl: false, alt: false, shift: false }),
    {
        Mods { ctrl: false, alt: false, shift: false }
    }
}

impl Mods {
    /// Whether no modifier is held.
    #[must_use]
    pub fn is_empty(self) -> (empty: bool)
        ensures
            empty == (!self.ctrl && !self.alt && !self.shift),
    {
        !self.ctrl && !self.alt && !self.shift
    }
}

// ---------------------------------------------------------------------------
// The notation
// ---------------------------------------------------------------------------

/// Whether a character is a control character (general category Cc of Unicode).
pub open spec fn is_control_char(c: char) -> bool {
    c as u32 <= 0x1f || 0x7f <= c as u32 <= 0x9f
}

/// How Neovim spells a key inside `<...>`.
pub open spec fn spelling(key: NamedKey) -> Seq<char> {
    match key {
        NamedKey::Enter => "CR"@,
        NamedKey::Escape => "Esc"@,
        NamedKey::Tab => "Tab"@,
        NamedKey::Backspace => "BS"@,
        NamedKey::Delete => "Del"@,
        NamedKey::Insert => "Insert"@,
        NamedKey::Home => "Home"@,
        NamedKey::End => "End"@,
        NamedKey::PageUp => "PageUp"@,
        NamedKey::PageDown => "PageDown"@,
        NamedKey::Up => "Up"@,
        NamedKey::Down => "Down"@,
        NamedKey::Left => "Left"@,
        NamedKey::Right => "Right"@,
        NamedKey::Space => "Space"@,
        NamedKey::Function(n) => "F"@ + crate::text::numeral(n as nat),
    }
}

/// How Neovim spells a character inside `<...>`.
pub open spec fn char_spelling(c: char) -> Seq<char> {
    if c == '<' {
        "lt"@
    } else {
        seq![c]
    }
}

/// `mark` where the modifier is held, nothing where it is not.
pub open spec fn marked(held: bool, mark: Seq<char>) -> Seq<char> {
    if held {
        mark
    } else {
        Seq::empty()
    }
}

/// A spelled key in brackets, behind its modifiers.
pub open spec fn bracketed(body: Seq<char>, alt: bool, ctrl: bool, shift: bool) -> Seq<char> {
    seq!['<'] + marked(alt, "M-"@) + marked(ctrl, "C-"@) + marked(shift, "S-"@) + body + seq!['>']
}

/// One character of plain input.
pub open spec fn escaped_char(c: char) -> Seq<char> {
    if c == '<' {
        "<lt>"@
    } else {
        seq![c]
    }
}

/// A text with every `<` written `<lt>`.
pub open spec fn escaped(text: Seq<char>) -> Seq<char>
    decreases text.len(),
{
    if text.len() == 0 {
        Seq::empty()
    } else {
        escaped(text.drop_last()) + escaped_char(text.last())
    }
}

/// Whether this is Ctrl+Shift+V, which has a notation of its own.
pub open spec fn is_paste(key: Key, mods: Mods) -> bool {
    (key == Key::Char('v') || key == Key::Char('V')) && mods.ctrl && mods.shift && !mods.alt
}

/// What is sent for a key press, or `None` where nothing is.
pub open spec fn notation(key: Key, mods: Mods) -> Option<Seq<char>> {
    match key {
        Key::Char(c) => if is_paste(key, mods) {
            Some("<C-S-V>"@)
        } else if is_control_char(c) {
            None
        } else if mods.ctrl || mods.alt {
            Some(bracketed(char_spelling(c), mods.alt, mods.ctrl, false))
        } else {
            Some(escaped_char(c))
        },
        Key::Named(named) => if named == NamedKey::Space && !mods.ctrl && !mods.alt && !mods.shift {
            Some(seq![' '])
        } else {
            Some(bracketed(spelling(named), mods.alt, mods.ctrl, mods.shift))
        },
    }
}

// ---------------------------------------------------------------------------
// Encoding
// ---------------------------------------------------------------------------

impl NamedKey {
    /// What stands between the brackets. An unmodified space is sent bare and never gets here.
    pub fn notation(self) -> (text: String)
        ensures
            text@ == spelling(self),
    {
        match self {
            NamedKey::Enter => "CR".to_owned(),
            NamedKey::Escape => "Esc".to_owned(),
            NamedKey::Tab => "Tab".to_owned(),
            NamedKey::Backspace => "BS".to_owned(),
            NamedKey::Delete => "Del".to_owned(),
            NamedKey::Insert => "Insert".to_owned(),
            NamedKey::Home => "Home".to_owned(),
            NamedKey::End => "End".to_owned(),
            NamedKey::PageUp => "PageUp".to_owned(),
            NamedKey::PageDown => "PageDown".to_owned(),
            NamedKey::Up => "Up".to_owned(),
            NamedKey::Down => "Down".to_owned(),
            NamedKey::Left => "Left".to_owned(),
            NamedKey::Right => "Right".to_owned(),
            NamedKey::Space => "Space".to_owned(),
            NamedKey::Function(n) => {
                let mut text = "F".to_owned();
                text.append(decimal(n as u64).as_str());
                text
            },
        }
    }
}

/// Whether a character is a control character.
pub fn is_control(c: char) -> (control: bool)
    ensures
        control == is_control_char(c),
{
    let code: u32 = c as u32;
    code <= 0x1f || (0x7f <= code && code <= 0x9f)
}

/// Neovim's notation of a key press, or `None` where there is nothing to send.
///
/// There is nothing to send for a control character: keys that make one arrive as a [`NamedKey`],
/// and sending the character too would press the key twice.
#[must_use]
pub fn encode_key(key: Key, mods: Mods) -> (r: Option<String>)
    ensures
        r is Some <==> notation(key, mods) is Some,
        r is Some ==> r->0@ == notation(key, mods)->0,
{
    match key {
        Key::Char(c) => {
            if (c == 'v' || c == 'V') && mods.ctrl && mods.shift && !mods.alt {
                Some("<C-S-V>".to_owned())
            } else if is_control(c) {
                None
            } else if mods.ctrl || mods.alt {
                Some(wrap(char_notation(c).as_str(), mods, false))
            } else if c == '<' {
                Some("<lt>".to_owned())
            } else {
                let mut text = String::new();
                text.push(c);
                assert(text@ =~= seq![c]);
                Some(text)
            }
        },
        Key::Named(named) => {
            if named == NamedKey::Space && mods.is_empty() {
                let mut text = String::new();
                text.push(' ');
                assert(text@ =~= seq![' ']);
                Some(text)
            } else {
                Some(wrap(named.notation().as_str(), mods, true))
            }
        },
    }
}

/// Committed text in a form that can be sent as it is: `<` is escaped, everything else passes.
#[must_use]
pub fn encode_text(text: &str) -> (r: String)
    ensures
        r@ == escaped(text@),
{
    let mut r = String::new();
    let ghost all = text@;
    for c in it: text.chars()
        invariant
            it.seq() == all,
            r@ == escaped(all.take(it.index() as int)),
    {
        if c == '<' {
            r.append("<lt>");
        } else {
            r.push(c);
        }
        proof {
            let now = all.take(it.index() + 1);
            assert(now.drop_last() =~= all.take(it.index() as int));
            assert(now.last() == c);
            assert(r@ =~= escaped(now));
        }
    }
    assert(all.take(all.len() as int) =~= all);
    r
}

/// What stands between the brackets for a character.
pub fn char_notation(c: char) -> (text: String)
    ensures
        text@ == char_spelling(c),
{
    if c == '<' {
        "lt".to_owned()
    } else {
        let mut text = String::new();
        text.push(c);
        assert(text@ =~= seq![c]);
        text
    }
}

/// `<`, the modifiers, the body, `>`. Without `shift_allowed` there is no `S-`.
pub fn wrap(body: &str, mods: Mods, shift_allowed: bool) -> (text: String)
    ensures
        text@ == bracketed(body@, mods.alt, mods.ctrl, shift_allowed && mods.shift),
{
    let mut text = String::new();
    text.push('<');
    if mods.alt {
        text.append("M-");
    }
    if mods.ctrl {
        text.append("C-");
    }
    if shift_allowed && mods.shift {
        text.append("S-");
    }
    text.append(body);
    text.push('>');
    assert(text@ =~= bracketed(body@, mods.alt, mods.ctrl, shift_allowed && mods.shift));
    text
}

// ---------------------------------------------------------------------------
// Laws
// ---------------------------------------------------------------------------

/// Escaping works character by character: two texts sent one after the other are received like
/// the text that they make up.
pub proof fn law_escaping_is_piecewise(a: Seq<char>, b: Seq<char>)
    ensures
        escaped(a + b) == escaped(a) + escaped(b),
    decreases b.len(),
{
    if b.len() == 0 {
        assert(a + b =~= a);
        assert(escaped(a) + escaped(b) =~= escaped(a));
    } else {
        law_escaping_is_piecewise(a, b.drop_last());
        assert((a + b).drop_last() =~= a + b.drop_last());
        assert((a + b).last() == b.last());
        assert(escaped(a + b) =~= escaped(a) + escaped(b));
    }
}

/// What a receiver reads that takes `<lt>` for `<` and every other character for itself.
pub open spec fn received(sent: Seq<char>) -> Seq<char>
    decreases sent.len(),
{
    if sent.len() == 0 {
        Seq::empty()
    } else if sent.len() >= 4 && sent.take(4) == "<lt>"@ {
        seq!['<'] + received(sent.skip(4))
    } else {
        seq![sent[0]] + received(sent.skip(1))
    }
}

/// Committed text is received as it was committed, every character of it.
pub proof fn law_text_is_received_as_committed(text: Seq<char>)
    ensures
        received(escaped(text)) == text,
    decreases text.len(),
{
    reveal_strlit("<lt>");
    if text.len() > 0 {
        let one = seq![text[0]];
        let rest = text.skip(1);
        assert(one + rest =~= text);
        law_escaping_is_piecewise(one, rest);
        assert(one.drop_last() =~= Seq::empty());
        assert(escaped(one) =~= escaped_char(text[0])) by {
            assert(escaped(one.drop_last()) =~= Seq::empty());
        }
        law_text_is_received_as_committed(rest);
        let sent = escaped(text);
        if text[0] == '<' {
            assert(sent.take(4) =~= "<lt>"@);
            assert(sent.skip(4) =~= escaped(rest));
        } else {
            assert(sent[0] == text[0]);
            assert(sent.len() >= 4 ==> sent.take(4)[0] != "<lt>"@[0]);
            assert(sent.skip(1) =~= escaped(rest));
        }
        assert(received(sent) =~= one + rest);
    } else {
        assert(received(escaped(text)) =~= text);
    }
}

/// A `<` in what is sent for a text is never bare: it begins a `<lt>`.
pub proof fn law_no_bare_bracket(text: Seq<char>, i: int)
    requires
        0 <= i < escaped(text).len(),
        escaped(text)[i] == '<',
    ensures
        i + 4 <= escaped(text).len(),
        escaped(text).subrange(i, i + 4) == "<lt>"@,
    decreases text.len(),
{
    reveal_strlit("<lt>");
    let front = escaped(text.drop_last());
    if i < front.len() {
        law_no_bare_bracket(text.drop_last(), i);
        assert(escaped(text).subrange(i, i + 4) =~= front.subrange(i, i + 4));
    } else {
        assert(escaped_char(text.last())[i - front.len()] == '<');
        assert(escaped(text).subrange(i, i + 4) =~= "<lt>"@);
    }
}

/// A text without `<` passes through unchanged.
pub proof fn law_other_text_passes(text: Seq<char>)
    requires
        !text.contains('<'),
    ensures
        escaped(text) == text,
    decreases text.len(),
{
    if text.len() > 0 {
        let front = text.drop_last();
        assert forall|c: char| front.contains(c) implies text.contains(c) by {
            let i = choose|i: int| 0 <= i < front.len() && front[i] == c;
            assert(text[i] == c);
        }
        assert(text.contains(text.last()));
        law_other_text_passes(front);
        assert(escaped(text) =~= text);
    } else {
        assert(escaped(text) =~= text);
    }
}

/// Nothing is sent for a control character, and something for every other key.
pub proof fn law_only_control_characters_are_dropped(key: Key, mods: Mods)
    ensures
        notation(key, mods) is None <==> (key matches Key::Char(c) && is_control_char(c)),
{
}

/// Shift is never applied to a character a second time: beside Ctrl+Shift+V, holding it changes
/// nothing about what is sent.
pub proof fn law_shift_is_not_applied_twice(c: char, mods: Mods)
    requires
        !((c == 'v' || c == 'V') && mods.ctrl && !mods.alt),
    ensures
        notation(Key::Char(c), Mods { shift: true, ..mods }) == notation(
            Key::Char(c),
            Mods { shift: false, ..mods },
        ),
{
}

/// An unmodified character is sent like the committed text that holds only it.
pub proof fn law_plain_characters_are_text(c: char, mods: Mods)
    requires
        !mods.ctrl,
        !mods.alt,
        !is_control_char(c),
    ensures
        notation(Key::Char(c), mods) == Some(escaped(seq![c])),
{
    assert(seq![c].drop_last() =~= Seq::empty());
    assert(escaped(seq![c].drop_last()) =~= Seq::empty());
    assert(escaped(seq![c]) =~= escaped_char(c));
}

/// The names that Neovim has for keys; a function key is known by its number.
pub proof fn law_spellings(n: u8)
    ensures
        spelling(NamedKey::Enter) == "CR"@,
        spelling(NamedKey::Escape) == "Esc"@,
        spelling(NamedKey::Tab) == "Tab"@,
        spelling(NamedKey::Backspace) == "BS"@,
        spelling(NamedKey::Delete) == "Del"@,
        spelling(NamedKey::Insert) == "Insert"@,
        spelling(NamedKey::Home) == "Home"@,
        spelling(NamedKey::End) == "End"@,
        spelling(NamedKey::PageUp) == "PageUp"@,
        spelling(NamedKey::PageDown) == "PageDown"@,
        spelling(NamedKey::Up) == "Up"@,
        spelling(NamedKey::Down) == "Down"@,
        spelling(NamedKey::Left) == "Left"@,
        spelling(NamedKey::Right) == "Right"@,
        spelling(NamedKey::Space) == "Space"@,
        spelling(NamedKey::Function(n)) == "F"@ + crate::text::numeral(n as nat),
{
}

/// The control characters are those below the space and those from DEL to U+009F.
pub proof fn law_what_a_control_character_is(c: char)
    ensures
        (c as u32) < 0x20 ==> is_control_char(c),
        0x20 <= c as u32 && (c as u32) < 0x7f ==> !is_control_char(c),
        0x7f <= c as u32 && (c as u32) < 0xa0 ==> is_control_char(c),
        0xa0 <= c as u32 ==> !is_control_char(c),
{
}

/// Every character is escaped on its own and in its place: `<` is written `<lt>`, and any other
/// character is written as it is.
pub proof fn law_each_character_is_escaped_in_its_place(text: Seq<char>, c: char)
    ensures
        escaped(Seq::empty()) == Seq::<char>::empty(),
        escaped(text.push('<')) == escaped(text) + "<lt>"@,
        c != '<' ==> escaped(text.push(c)) == escaped(text).push(c),
{
    assert(text.push('<').drop_last() =~= text);
    assert(text.push(c).drop_last() =~= text);
    assert(escaped(text) + seq![c] =~= escaped(text).push(c));
}

/// A character that is typed without Ctrl and Alt is sent as it is, `<` as `<lt>`, and a control
/// character not at all. Shift makes no difference.
pub proof fn law_typed_characters_are_sent_as_they_are(c: char, shift: bool)
    ensures
        ({
            let sent = notation(Key::Char(c), Mods { ctrl: false, alt: false, shift });
            &&& (c as u32) < 0x20 || 0x7f <= (c as u32) <= 0x9f ==> sent is None
            &&& 0x20 <= (c as u32) < 0x7f || (c as u32) > 0x9f ==> sent == Some(
                if c == '<' {
                    "<lt>"@
                } else {
                    seq![c]
                },
            )
        }),
{
}

/// A character with Ctrl or Alt is sent in brackets behind the marks of those two, Alt first, and `<`
/// as `lt`. Ctrl+Shift+V alone has a notation of its own.
pub proof fn law_modified_characters_are_sent_marked(c: char, mods: Mods)
    requires
        mods.ctrl || mods.alt,
        0x20 <= c as u32 && (c as u32) < 0x7f || (c as u32) > 0x9f,
    ensures
        ({
            let body = if c == '<' {
                "lt"@
            } else {
                seq![c]
            };
            let marks = (if mods.alt {
                seq!['M', '-']
            } else {
                Seq::empty()
            }) + (if mods.ctrl {
                seq!['C', '-']
            } else {
                Seq::empty()
            });
            let paste = (c == 'v' || c == 'V') && mods.ctrl && mods.shift && !mods.alt;
            &&& paste ==> notation(Key::Char(c), mods) == Some("<C-S-V>"@)
            &&& !paste ==> notation(Key::Char(c), mods) == Some(
                seq!['<'] + marks + body + seq!['>'],
            )
        }),
{
    reveal_strlit("M-");
    reveal_strlit("C-");
    assert("M-"@ =~= seq!['M', '-']);
    assert("C-"@ =~= seq!['C', '-']);
    let body = if c == '<' {
        "lt"@
    } else {
        seq![c]
    };
    let marks = (if mods.alt {
        seq!['M', '-']
    } else {
        Seq::empty()
    }) + (if mods.ctrl {
        seq!['C', '-']
    } else {
        Seq::empty()
    });
    assert(bracketed(body, mods.alt, mods.ctrl, false) =~= seq!['<'] + marks + body + seq!['>']);
}

/// A key with a name is sent in brackets behind the marks of the modifiers that are held, Alt before
/// Ctrl before Shift. A space that stands alone is sent bare.
pub proof fn law_named_keys_are_sent_marked(key: NamedKey, mods: Mods)
    ensures
        ({
            let marks = (if mods.alt {
                seq!['M', '-']
            } else {
                Seq::empty()
            }) + (if mods.ctrl {
                seq!['C', '-']
            } else {
                Seq::empty()
            }) + (if mods.shift {
                seq!['S', '-']
            } else {
                Seq::empty()
            });
            let bare = key == NamedKey::Space && !mods.alt && !mods.ctrl && !mods.shift;
            &&& bare ==> notation(Key::Named(key), mods) == Some(seq![' '])
            &&& !bare ==> notation(Key::Named(key), mods) == Some(
                seq!['<'] + marks + spelling(key) + seq!['>'],
            )
        }),
{
    reveal_strlit("M-");
    reveal_strlit("C-");
    reveal_strlit("S-");
    assert("M-"@ =~= seq!['M', '-']);
    assert("C-"@ =~= seq!['C', '-']);
    assert("S-"@ =~= seq!['S', '-']);
    let marks = (if mods.alt {
        seq!['M', '-']
    } else {
        Seq::empty()
    }) + (if mods.ctrl {
        seq!['C', '-']
    } else {
        Seq::empty()
    }) + (if mods.shift {
        seq!['S', '-']
    } else {
        Seq::empty()
    });
    assert(bracketed(spelling(key), mods.alt, mods.ctrl, mods.shift) =~= seq!['<'] + marks
        + spelling(key) + seq!['>']);
}

/// What stands in brackets is the body, whole and last, behind a mark for each modifier that is
/// held, in the order Alt, Ctrl, Shift; and a character's body is itself, but for `<`.
pub proof fn law_brackets_hold_the_marks_and_the_body(
    body: Seq<char>,
    alt: bool,
    ctrl: bool,
    shift: bool,
    c: char,
)
    ensures
        bracketed(body, alt, ctrl, shift) == seq!['<'] + (if alt {
            "M-"@
        } else {
            Seq::empty()
        }) + (if ctrl {
            "C-"@
        } else {
            Seq::empty()
        }) + (if shift {
            "S-"@
        } else {
            Seq::empty()
        }) + body + seq!['>'],
        char_spelling('<') == "lt"@,
        c != '<' ==> char_spelling(c) == seq![c],
{
}

} // verus!
