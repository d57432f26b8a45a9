//! The register contents behind Neovim's `+` and `*`.
//!
//! The bundled Neovim has no clipboard of its own; its provider asks for the contents of the
//! Windows clipboard, which is one text, and hands back the lines of a yank. A yank of whole lines
//! arrives with an empty line at its end, so joining it gives a text that ends in a line break, and
//! such a text is pasted as whole lines again.
use vstd::prelude::*;

use crate::text::to_lines;

verus! {

/// How a register is put into a buffer.
#[derive(Clone, Copy, Debug, PartialEq, Eq, Structural)]
pub enum RegType {
    /// Inside a line.
    Charwise,
    /// As whole lines.
    Linewise,
}

impl RegType {
    /// Neovim's letter for it.
    pub open spec fn letter(self) -> Seq<char> {
        match self {
            RegType::Charwise => "v"@,
            RegType::Linewise => "V"@,
        }
    }

    /// Neovim's letter for it.
    pub fn as_nvim(self) -> (letter: String)
        ensures
            letter@ == self.letter(),
    {
        match self {
            RegType::Charwise => "v".to_owned(),
            RegType::Linewise => "V".to_owned(),
        }
    }
}

/// Whether the lines are those of a text that ends in a line break.
pub open spec fn ends_in_break(lines: Seq<Seq<char>>) -> bool {
    lines.len() > 1 && lines.last().len() == 0
}

/// The register lines of a clipboard text.
pub open spec fn register_lines(raw: Seq<char>) -> Seq<Seq<char>> {
    let lines = crate::text::split(raw);
    if ends_in_break(lines) {
        lines.drop_last()
    } else {
        lines
    }
}

/// The register type of a clipboard text.
pub open spec fn register_type(raw: Seq<char>) -> RegType {
    if ends_in_break(crate::text::split(raw)) {
        RegType::Linewise
    } else {
        RegType::Charwise
    }
}

/// The register that a clipboard text makes: its lines, whole if the text ends in a line break.
pub fn to_register(raw: &str) -> (register: (Vec<String>, RegType))
    ensures
        crate::text::texts(register.0@) == register_lines(raw@),
        register.1 == register_type(raw@),
{
    let mut lines = to_lines(raw);
    let ghost all = lines@;
    let last: usize = lines.len() - 1;
    assert(crate::text::texts(all)[last as int] == all[last as int]@);
    if last > 0 && lines[last].as_str().is_empty() {
        lines.pop();
        assert(crate::text::texts(lines@) =~= crate::text::texts(all).drop_last());
        (lines, RegType::Linewise)
    } else {
        (lines, RegType::Charwise)
    }
}

// ---------------------------------------------------------------------------
// Laws
// ---------------------------------------------------------------------------

/// Whole lines that were yanked are pasted as those whole lines: a yank of lines arrives with an
/// empty line at its end, and what is read back of it is the lines, line by line.
pub proof fn law_yanked_lines_come_back(lines: Seq<Seq<char>>)
    requires
        lines.len() > 0,
        forall|i: int| 0 <= i < lines.len() ==> crate::text::is_line(#[trigger] lines[i]),
    ensures
        register_lines(crate::text::joined(lines.push(Seq::empty()))) == lines,
        register_type(crate::text::joined(lines.push(Seq::empty()))) == RegType::Linewise,
{
    let sent = lines.push(Seq::empty());
    crate::text::law_lines_survive_the_text(sent);
    assert(sent.drop_last() =~= lines);
}

/// Text that was yanked inside a line is pasted inside a line, with the same lines.
pub proof fn law_yanked_text_comes_back(lines: Seq<Seq<char>>)
    requires
        lines.len() > 0,
        forall|i: int| 0 <= i < lines.len() ==> crate::text::is_line(#[trigger] lines[i]),
        !ends_in_break(lines),
    ensures
        register_lines(crate::text::joined(lines)) == lines,
        register_type(crate::text::joined(lines)) == RegType::Charwise,
{
    crate::text::law_lines_survive_the_text(lines);
}

/// Neovim's letters are `v` for text inside a line and `V` for whole lines.
pub proof fn law_register_letters(regtype: RegType)
    ensures
        regtype == RegType::Charwise ==> regtype.letter() == "v"@,
        regtype == RegType::Linewise ==> regtype.letter() == "V"@,
{
}

/// A clipboard text is pasted as whole lines exactly if it ends in a line break, whichever one.
pub proof fn law_a_final_break_makes_whole_lines(raw: Seq<char>)
    ensures
        register_type(raw) == RegType::Linewise <==> raw.len() > 0 && (raw.last() == '\r'
            || raw.last() == '\n'),
{
    lemma_final_break(raw);
}

/// No line of a clipboard text is lost: beside the empty one behind a final line break, a register
/// has every line of the text.
pub proof fn law_a_register_has_every_line(raw: Seq<char>)
    ensures
        raw.len() > 0 && (raw.last() == '\r' || raw.last() == '\n') ==> register_lines(raw).push(
            Seq::empty(),
        ) == crate::text::split(raw),
        raw.len() == 0 || (raw.last() != '\r' && raw.last() != '\n') ==> register_lines(raw)
            == crate::text::split(raw),
{
    lemma_final_break(raw);
    let lines = crate::text::split(raw);
    if ends_in_break(lines) {
        assert(lines.last() =~= Seq::empty());
        assert(lines.drop_last().push(Seq::empty()) =~= lines);
    }
}

/// What the lines of a text say of its end.
proof fn lemma_final_break(raw: Seq<char>)
    ensures
        ends_in_break(crate::text::split(raw)) <==> raw.len() > 0 && (raw.last() == '\r'
            || raw.last() == '\n'),
{
    let none = Seq::<char>::empty();
    crate::text::law_a_text_without_breaks_is_one_line(none);
    if raw.len() == 0 {
        assert(raw =~= none);
    } else if raw.last() == '\n' && raw.len() > 1 && raw[raw.len() - 2] == '\r' {
        let a = raw.take(raw.len() - 2);
        assert(raw =~= a + seq!['\r', '\n'] + none);
        crate::text::law_breaks_separate_lines(a, none);
        crate::text::lemma_split_nonempty(a);
    } else if raw.last() == '\n' || raw.last() == '\r' {
        let a = raw.drop_last();
        assert(raw =~= a + seq![raw.last()] + none);
        assert(a.len() > 0 ==> a.last() == raw[raw.len() - 2]);
        crate::text::law_breaks_separate_lines(a, none);
        crate::text::lemma_split_nonempty(a);
    } else {
        crate::text::law_the_last_line_ends_the_text(raw);
    }
}

} // verus!
