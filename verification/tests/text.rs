//! Lines, texts and registers.
use anvi::clipboard::{RegType, to_register};
use anvi::text::{decimal, same, same_lines, to_crlf, to_lines};
use anvi::value::{Value, read_lines, write_lines};

fn owned(lines: &[&str]) -> Vec<String> {
    lines.iter().map(|line| line.to_string()).collect()
}

#[test]
fn every_line_break_separates() {
    assert_eq!(to_lines(""), owned(&[""]));
    assert_eq!(to_lines("a"), owned(&["a"]));
    assert_eq!(to_lines("a\r\nb\nc\rd"), owned(&["a", "b", "c", "d"]));
    assert_eq!(to_lines("a\r\n"), owned(&["a", ""]));
    assert_eq!(to_lines("\n\r"), owned(&["", "", ""]));
    assert_eq!(to_lines("\r\r\n"), owned(&["", "", ""]));
    assert_eq!(to_lines("どこでも\nneovim"), owned(&["どこでも", "neovim"]));
}

#[test]
fn lines_are_joined_for_windows() {
    assert_eq!(to_crlf(&owned(&["a", "b"])), "a\r\nb");
    assert_eq!(to_crlf(&owned(&["a", ""])), "a\r\n");
    assert_eq!(to_crlf(&owned(&[""])), "");
    assert_eq!(to_crlf(&vec![]), "");
}

#[test]
fn lines_survive_the_text() {
    for lines in [
        owned(&[""]),
        owned(&["", ""]),
        owned(&["hello", "どこでも neovim", ""]),
        owned(&["<", "\t", "🍣"]),
    ] {
        assert_eq!(to_lines(&to_crlf(&lines)), lines);
    }
}

#[test]
fn a_clipboard_text_is_a_register() {
    assert_eq!(to_register("hello"), (owned(&["hello"]), RegType::Charwise));
    assert_eq!(to_register("L1\r\nL2\r\n"), (owned(&["L1", "L2"]), RegType::Linewise));
    assert_eq!(to_register(""), (owned(&[""]), RegType::Charwise));
    assert_eq!(to_register("\n"), (owned(&[""]), RegType::Linewise));
    assert_eq!(RegType::Charwise.as_nvim(), "v");
    assert_eq!(RegType::Linewise.as_nvim(), "V");
}

#[test]
fn yanked_lines_come_back_as_lines() {
    let yanked = owned(&["日本語", ""]);
    let text = to_crlf(&yanked);
    assert_eq!(text, "日本語\r\n");
    assert_eq!(to_register(&text), (owned(&["日本語"]), RegType::Linewise));
}

#[test]
fn numerals_have_no_leading_zeros() {
    for n in [0u64, 1, 9, 10, 19, 100, 65535, u64::MAX] {
        assert_eq!(decimal(n), n.to_string());
    }
}

#[test]
fn sameness_is_by_contents() {
    assert!(same("a", "a"));
    assert!(!same("a", "A"));
    assert!(same_lines(&owned(&["a", "b"]), &owned(&["a", "b"])));
    assert!(!same_lines(&owned(&["a", "b"]), &owned(&["a"])));
    assert!(!same_lines(&owned(&["a", "b"]), &owned(&["a", "c"])));
}

#[test]
fn written_lines_are_read_back() {
    let lines = owned(&["a", "", "日本語"]);
    assert_eq!(read_lines(&write_lines(&lines)), Ok(lines));
    assert_eq!(read_lines(&vec![Value::Text("a".to_string()), Value::Nil]), Err(1));
    assert_eq!(read_lines(&vec![]), Ok(vec![]));
}
