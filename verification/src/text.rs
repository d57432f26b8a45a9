//! Text shared by every other module: comparison, decimal numerals, and the two
//! directions of line normalisation.
//!
//! A Windows text field holds one string whose lines are separated by line breaks; Neovim
//! holds a list of lines. [`to_lines`] goes one way, [`to_crlf`] the other.
use vstd::prelude::*;

verus! {

/// The standard library's `String::push`: appends one character to the end.
pub assume_specification[ String::push ](s: &mut String, c: char)
    ensures
        final(s)@ == old(s)@.push(c),
;

/// The contents of a list of strings.
pub open spec fn texts(lines: Seq<String>) -> Seq<Seq<char>> {
    lines.map_values(|line: String| line@)
}

/// Whether two strings hold the same characters.
pub fn same(a: &str, b: &str) -> (r: bool)
    ensures
        r == (a@ == b@),
{
    a.to_owned() == b.to_owned()
}

/// Whether two lists hold the same strings in the same order.
pub fn same_lines(a: &Vec<String>, b: &Vec<String>) -> (r: bool)
    ensures
        r == (texts(a@) == texts(b@)),
{
    if a.len() != b.len() {
        assert(texts(a@).len() != texts(b@).len());
        return false;
    }
    for i in 0..a.len()
        invariant
            a.len() == b.len(),
            forall|j: int| 0 <= j < i ==> (#[trigger] a@[j])@ == b@[j]@,
    {
        if a[i] != b[i] {
            assert(texts(a@)[i as int] != texts(b@)[i as int]);
            return false;
        }
    }
    assert(texts(a@) =~= texts(b@));
    true
}

// ---------------------------------------------------------------------------
// Decimal numerals
// ---------------------------------------------------------------------------

/// The character of one decimal digit.
pub open spec fn digit(d: nat) -> char {
    (48 + d) as char
}

/// The decimal numeral of `n`, without leading zeros.
pub open spec fn numeral(n: nat) -> Seq<char>
    decreases n,
{
    if n < 10 {
        seq![digit(n)]
    } else {
        numeral(n / 10).push(digit(n % 10))
    }
}

/// The decimal numeral of `n`.
pub fn decimal(n: u64) -> (text: String)
    ensures
        text@ == numeral(n as nat),
    decreases n,
{
    let mut text = if n < 10 {
        String::new()
    } else {
        decimal(n / 10)
    };
    let low: u8 = (n % 10) as u8;
    text.push((48 + low) as char);
    text
}

// ---------------------------------------------------------------------------
// Lines to text
// ---------------------------------------------------------------------------

/// `lines` with CR LF between each two of them.
pub open spec fn joined(lines: Seq<Seq<char>>) -> Seq<char>
    decreases lines.len(),
{
    if lines.len() == 0 {
        Seq::empty()
    } else if lines.len() == 1 {
        lines[0]
    } else {
        joined(lines.drop_last()) + seq!['\r', '\n'] + lines.last()
    }
}

/// Joins the lines with CR LF, the line break of Windows text fields. Nothing follows the last
/// line: a list that ends in an empty line gives a text that ends in a line break.
pub fn to_crlf(lines: &Vec<String>) -> (text: String)
    ensures
        text@ == joined(texts(lines@)),
{
    let mut text = String::new();
    let ghost all = texts(lines@);
    for i in 0..lines.len()
        invariant
            all == texts(lines@),
            text@ == joined(all.take(i as int)),
    {
        if i > 0 {
            text.push('\r');
            text.push('\n');
        }
        text.append(lines[i].as_str());
        proof {
            let now = all.take(i + 1);
            assert(now.drop_last() =~= all.take(i as int));
            assert(now.last() == lines@[i as int]@);
            assert(seq!['\r', '\n'] =~= Seq::<char>::empty().push('\r').push('\n'));
            assert(text@ =~= joined(now));
        }
    }
    assert(all.take(lines.len() as int) =~= all);
    text
}

// ---------------------------------------------------------------------------
// Text to lines
// ---------------------------------------------------------------------------

/// `lines` with `head` put in front of the first of them.
pub open spec fn headed(head: Seq<char>, lines: Seq<Seq<char>>) -> Seq<Seq<char>> {
    lines.update(0, head + lines[0])
}

/// The lines of a text. CR LF, LF and CR each end a line; what follows the last of them is a line
/// too, so every text has at least one line.
pub open spec fn split(text: Seq<char>) -> Seq<Seq<char>>
    decreases text.len(),
{
    if text.len() == 0 {
        seq![Seq::empty()]
    } else if text[0] == '\r' && text.len() > 1 && text[1] == '\n' {
        seq![Seq::<char>::empty()] + split(text.skip(2))
    } else if text[0] == '\r' || text[0] == '\n' {
        seq![Seq::<char>::empty()] + split(text.skip(1))
    } else {
        headed(seq![text[0]], split(text.skip(1)))
    }
}

/// Every text has a first line.
pub(crate) proof fn lemma_split_nonempty(text: Seq<char>)
    ensures
        split(text).len() > 0,
    decreases text.len(),
{
    if text.len() > 0 {
        lemma_split_nonempty(text.skip(1));
        if text.len() > 1 {
            lemma_split_nonempty(text.skip(2));
        }
    }
}

/// What is left of `rest` once the LF of a CR LF whose CR has been read is skipped.
spec fn past_break(after_cr: bool, rest: Seq<char>) -> Seq<char> {
    if after_cr && rest.len() > 0 && rest[0] == '\n' {
        rest.skip(1)
    } else {
        rest
    }
}

/// Splits a text into its lines.
pub fn to_lines(text: &str) -> (lines: Vec<String>)
    ensures
        texts(lines@) == split(text@),
        lines.len() > 0,
{
    let mut lines: Vec<String> = Vec::new();
    let mut line = String::new();
    let mut after_cr = false;
    let ghost all = text@;
    proof {
        lemma_split_nonempty(all);
        assert(all.skip(0) =~= all);
        assert(headed(Seq::empty(), split(all)) =~= split(all));
        assert(texts(lines@) + headed(line@, split(all)) =~= split(all));
    }
    for c in it: text.chars()
        invariant
            it.seq() == all,
            split(all) == texts(lines@) + headed(
                line@,
                split(past_break(after_cr, all.skip(it.index() as int))),
            ),
            after_cr ==> line@.len() == 0,
    {
        let ghost rest = all.skip(it.index() as int);
        let ghost before = texts(lines@);
        let ghost head = line@;
        proof {
            assert(rest[0] == c);
            assert(rest.skip(1) =~= all.skip(it.index() + 1));
            lemma_split_nonempty(rest.skip(1));
            lemma_split_nonempty(past_break(true, rest.skip(1)));
        }
        if after_cr && c == '\n' {
            after_cr = false;
        } else if c == '\r' || c == '\n' {
            after_cr = c == '\r';
            lines.push(line);
            line = String::new();
            proof {
                let next = past_break(after_cr, rest.skip(1));
                assert(c == '\r' && rest.len() > 1 && rest[1] == '\n' ==> rest.skip(2) =~= next);
                assert(split(rest) =~= seq![Seq::<char>::empty()] + split(next));
                assert(headed(head, split(rest)) =~= seq![head] + split(next));
                assert(headed(line@, split(next)) =~= split(next));
                assert(texts(lines@) =~= before.push(head));
                assert(before + (seq![head] + split(next)) =~= texts(lines@) + split(next));
            }
        } else {
            after_cr = false;
            line.push(c);
            proof {
                let first = split(rest.skip(1))[0];
                assert(head + (seq![c] + first) =~= line@ + first);
                assert(headed(head, split(rest)) =~= headed(line@, split(rest.skip(1))));
            }
        }
    }
    proof {
        assert(all.skip(all.len() as int) =~= Seq::<char>::empty());
        assert(split(Seq::<char>::empty()) =~= seq![Seq::<char>::empty()]);
        assert(headed(line@, seq![Seq::<char>::empty()]) =~= seq![line@]);
        assert(texts(lines@).push(line@) =~= texts(lines@.push(line)));
    }
    lines.push(line);
    lines
}

// ---------------------------------------------------------------------------
// Laws
// ---------------------------------------------------------------------------

/// Whether a line holds no line break.
pub open spec fn is_line(line: Seq<char>) -> bool {
    forall|i: int| 0 <= i < line.len() ==> line[i] != '\r' && line[i] != '\n'
}

/// A text without a line break is its own only line.
proof fn lemma_split_line(line: Seq<char>)
    requires
        is_line(line),
    ensures
        split(line) == seq![line],
    decreases line.len(),
{
    if line.len() > 0 {
        assert forall|i: int| 0 <= i < line.skip(1).len() implies line.skip(1)[i] != '\r'
            && line.skip(1)[i] != '\n' by {
            assert(line.skip(1)[i] == line[i + 1]);
        }
        lemma_split_line(line.skip(1));
        assert(seq![line[0]] + line.skip(1) =~= line);
        assert(headed(seq![line[0]], seq![line.skip(1)]) =~= seq![line]);
    } else {
        assert(line =~= Seq::empty());
    }
}

/// A CR LF always separates the lines before it from the lines after it.
proof fn lemma_split_at_crlf(a: Seq<char>, b: Seq<char>)
    ensures
        split(a + seq!['\r', '\n'] + b) == split(a) + split(b),
    decreases a.len(),
{
    let sep = seq!['\r', '\n'];
    let whole = a + sep + b;
    if a.len() == 0 {
        assert(whole[0] == '\r' && whole[1] == '\n');
        assert(whole.skip(2) =~= b);
        assert(a =~= Seq::empty());
    } else {
        let one = a.skip(1) + sep + b;
        assert(whole.skip(1) =~= one);
        lemma_split_nonempty(a.skip(1));
        lemma_split_at_crlf(a.skip(1), b);
        if a[0] == '\r' && a.len() > 1 && a[1] == '\n' {
            assert(whole.skip(2) =~= a.skip(2) + sep + b);
            lemma_split_at_crlf(a.skip(2), b);
            assert(split(whole) =~= split(a) + split(b));
        } else if a[0] == '\r' || a[0] == '\n' {
            assert(a.len() == 1 ==> whole[1] == '\r');
            assert(split(whole) =~= split(a) + split(b));
        } else {
            assert(headed(seq![a[0]], split(a.skip(1)) + split(b)) =~= headed(
                seq![a[0]],
                split(a.skip(1)),
            ) + split(b));
        }
    }
}

/// Splitting a text that was joined from lines gives those lines back, as long as none of them
/// holds a line break itself.
pub proof fn law_lines_survive_the_text(lines: Seq<Seq<char>>)
    requires
        lines.len() > 0,
        forall|i: int| 0 <= i < lines.len() ==> is_line(#[trigger] lines[i]),
    ensures
        split(joined(lines)) == lines,
    decreases lines.len(),
{
    if lines.len() == 1 {
        lemma_split_line(lines[0]);
        assert(seq![lines[0]] =~= lines);
    } else {
        let front = lines.drop_last();
        assert forall|i: int| 0 <= i < front.len() implies is_line(#[trigger] front[i]) by {
            assert(front[i] == lines[i]);
        }
        law_lines_survive_the_text(front);
        lemma_split_line(lines.last());
        lemma_split_at_crlf(joined(front), lines.last());
        assert(front + seq![lines.last()] =~= lines);
    }
}

/// A list of lines that ends in an empty line joins to a text that ends in a line break.
pub proof fn law_trailing_empty_line_is_a_final_break(lines: Seq<Seq<char>>)
    requires
        lines.len() > 1,
        lines.last().len() == 0,
    ensures
        joined(lines) == joined(lines.drop_last()) + seq!['\r', '\n'],
{
    assert(joined(lines) =~= joined(lines.drop_last()) + seq!['\r', '\n']);
}

/// A list of strings is seen string by string.
pub proof fn law_lists_are_seen_whole(lines: Seq<String>)
    ensures
        texts(lines).len() == lines.len(),
        forall|i: int| 0 <= i < lines.len() ==> #[trigger] texts(lines)[i] == lines[i]@,
{
}

/// One more line puts a CR LF and the line behind the text, and takes nothing away; a single line
/// is its own text.
pub proof fn law_joining_adds_one_line(lines: Seq<Seq<char>>, line: Seq<char>)
    ensures
        joined(Seq::empty()) == Seq::<char>::empty(),
        joined(seq![line]) == line,
        lines.len() > 0 ==> joined(lines.push(line)) == joined(lines) + seq!['\r', '\n'] + line,
{
    assert(lines.push(line).drop_last() =~= lines);
}

/// A text without a line break is its own only line.
pub proof fn law_a_text_without_breaks_is_one_line(line: Seq<char>)
    requires
        !line.contains('\r'),
        !line.contains('\n'),
    ensures
        split(line) == seq![line],
{
    assert forall|i: int| 0 <= i < line.len() implies line[i] != '\r' && line[i] != '\n' by {
        assert(line.contains(line[i]));
    }
    lemma_split_line(line);
}

/// A line break separates the lines before it from the lines after it, and belongs to neither. A CR
/// and the LF behind it are one line break; any other CR or LF is one of its own.
pub proof fn law_breaks_separate_lines(a: Seq<char>, b: Seq<char>)
    ensures
        split(a + seq!['\r', '\n'] + b) == split(a) + split(b),
        a.len() == 0 || a.last() != '\r' ==> split(a + seq!['\n'] + b) == split(a) + split(b),
        b.len() == 0 || b[0] != '\n' ==> split(a + seq!['\r'] + b) == split(a) + split(b),
{
    lemma_split_at_crlf(a, b);
    if a.len() == 0 || a.last() != '\r' {
        lemma_split_at(a, '\n', b);
    }
    if b.len() == 0 || b[0] != '\n' {
        lemma_split_at(a, '\r', b);
    }
}

/// A line break of one character separates lines, unless it is half of a CR LF.
proof fn lemma_split_at(a: Seq<char>, c: char, b: Seq<char>)
    requires
        c == '\r' && (b.len() == 0 || b[0] != '\n') || c == '\n' && (a.len() == 0 || a.last()
            != '\r'),
    ensures
        split(a + seq![c] + b) == split(a) + split(b),
    decreases a.len(),
{
    let sep = seq![c];
    let whole = a + sep + b;
    if a.len() == 0 {
        assert(whole[0] == c);
        assert(b.len() > 0 ==> whole[1] == b[0]);
        assert(whole.skip(1) =~= b);
        assert(a =~= Seq::empty());
        assert(split(whole) =~= split(a) + split(b));
    } else {
        assert(a.len() > 1 ==> a.skip(1).last() == a.last());
        assert(whole.skip(1) =~= a.skip(1) + sep + b);
        lemma_split_nonempty(a.skip(1));
        lemma_split_at(a.skip(1), c, b);
        if a[0] == '\r' && a.len() > 1 && a[1] == '\n' {
            assert(a.len() > 2 ==> a.skip(2).last() == a.last());
            assert(whole.skip(2) =~= a.skip(2) + sep + b);
            lemma_split_at(a.skip(2), c, b);
            assert(split(whole) =~= split(a) + split(b));
        } else if a[0] == '\r' || a[0] == '\n' {
            assert(a.len() == 1 ==> whole[1] == c && a.last() == a[0]);
            assert(a.len() > 1 ==> whole[1] == a[1]);
            assert(split(whole) =~= split(a) + split(b));
        } else {
            assert(headed(seq![a[0]], split(a.skip(1)) + split(b)) =~= headed(
                seq![a[0]],
                split(a.skip(1)),
            ) + split(b));
        }
    }
}

/// The last line of a text that does not end in a line break holds the text's last character.
pub proof fn law_the_last_line_ends_the_text(text: Seq<char>)
    requires
        text.len() > 0,
        text.last() != '\r',
        text.last() != '\n',
    ensures
        split(text).len() > 0,
        split(text).last().len() > 0,
        split(text).last().last() == text.last(),
    decreases text.len(),
{
    lemma_split_nonempty(text.skip(1));
    if text.len() == 1 {
        assert(text.skip(1) =~= Seq::empty());
        assert(split(text.skip(1)) =~= seq![Seq::<char>::empty()]);
        assert(split(text) =~= seq![seq![text[0]]]) by {
            assert(seq![text[0]] + Seq::<char>::empty() =~= seq![text[0]]);
        }
    } else {
        law_the_last_line_ends_the_text(text.skip(1));
        if text[0] == '\r' && text[1] == '\n' {
            law_the_last_line_ends_the_text(text.skip(2));
        }
    }
}

/// A numeral below ten is that digit, and any other is the numeral of the tens with the last digit
/// behind it.
pub proof fn law_numerals_are_decimal(n: nat)
    ensures
        n < 10 ==> numeral(n).len() == 1 && numeral(n)[0] as int == '0' as int + n,
        n >= 10 ==> numeral(n) == numeral(n / 10) + numeral(n % 10),
{
    if n >= 10 {
        assert(numeral(n) =~= numeral(n / 10) + numeral(n % 10));
    }
}

} // verus!
