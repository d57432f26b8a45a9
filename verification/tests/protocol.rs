//! What Neovim tells its host, and what it asks for.
use anvi::protocol::{
    Culprit, Field, Flaw, HostEvent, Malformed, Message, Notified, OffLoop, Request, clipboard_get_reply,
    clipboard_set_reply, handle_notify, handle_request, is_redraw, parse_clipboard_set,
    parse_notification, string_field, warn_unexpected_payload,
};
use anvi::value::{Value, field, find};

fn s(text: &str) -> Value {
    Value::Text(text.to_owned())
}

#[test]
fn session_write_carries_the_lines() {
    let args = vec![Value::List(vec![s("a"), s("日本語")])];
    assert_eq!(
        parse_notification("session_write", &args),
        Ok(Some(HostEvent::SessionWrite(vec![
            "a".to_string(),
            "日本語".to_string()
        ])))
    );
}

#[test]
fn session_write_accepts_an_empty_buffer() {
    let args = vec![Value::List(vec![s("")])];
    assert_eq!(
        parse_notification("session_write", &args),
        Ok(Some(HostEvent::SessionWrite(vec![String::new()])))
    );
}

#[test]
fn session_write_with_a_non_array_payload_is_malformed() {
    assert!(parse_notification("session_write", &[s("oops")]).is_err());
    assert!(parse_notification("session_write", &[]).is_err());
    assert!(
        parse_notification("session_write", &[Value::List(vec![]), Value::List(vec![])]).is_err()
    );
}

#[test]
fn session_write_with_a_non_string_line_is_malformed() {
    let args = vec![Value::List(vec![s("a"), Value::Integer(7)])];
    assert!(parse_notification("session_write", &args).is_err());
}

#[test]
fn nil_payload_notifications_are_accepted() {
    assert_eq!(
        parse_notification("session_end", &[Value::Nil]),
        Ok(Some(HostEvent::SessionEnd))
    );
    assert_eq!(
        parse_notification("session_end", &[]),
        Ok(Some(HostEvent::SessionEnd))
    );
    assert_eq!(
        parse_notification("nvim_dying", &[Value::Nil]),
        Ok(Some(HostEvent::NvimDying))
    );
}

#[test]
fn session_end_survives_an_unexpected_payload() {
    assert_eq!(
        parse_notification("session_end", &[s("junk")]),
        Ok(Some(HostEvent::SessionEnd))
    );
}

#[test]
fn init_error_carries_kind_and_message() {
    let args = vec![Value::Dict(vec![
        (s("message"), s("boom")),
        (s("kind"), s("user_config_error")),
    ])];
    assert_eq!(
        parse_notification("init_error", &args),
        Ok(Some(HostEvent::InitError {
            kind: "user_config_error".to_string(),
            message: "boom".to_string(),
        }))
    );
}

#[test]
fn init_error_without_the_contract_fields_is_malformed() {
    let missing = vec![Value::Dict(vec![(s("kind"), s("user_config_error"))])];
    assert!(parse_notification("init_error", &missing).is_err());
    let wrong_type = vec![Value::Dict(vec![
        (s("kind"), s("user_config_error")),
        (s("message"), Value::Integer(1)),
    ])];
    assert!(parse_notification("init_error", &wrong_type).is_err());
    assert!(parse_notification("init_error", &[Value::Nil]).is_err());
}

#[test]
fn config_resolved_carries_the_dir_and_whether_it_loaded() {
    let args = vec![Value::Dict(vec![
        (s("dir"), s(r"C:\Users\me\.config\anvi")),
        (s("loaded"), Value::Boolean(false)),
    ])];
    assert_eq!(
        parse_notification("config_resolved", &args),
        Ok(Some(HostEvent::ConfigResolved {
            dir: r"C:\Users\me\.config\anvi".to_string(),
            loaded: false,
        }))
    );
}

#[test]
fn config_resolved_without_the_contract_fields_is_malformed() {
    let missing = vec![Value::Dict(vec![(s("dir"), s("x"))])];
    assert!(parse_notification("config_resolved", &missing).is_err());
    let wrong_type = vec![Value::Dict(vec![
        (s("dir"), s("x")),
        (s("loaded"), s("true")),
    ])];
    assert!(parse_notification("config_resolved", &wrong_type).is_err());
}

#[test]
fn unknown_notifications_are_ignored_not_errors() {
    assert_eq!(parse_notification("whatever", &[Value::Nil]), Ok(None));
}

#[test]
fn clipboard_set_carries_the_lines() {
    // A yank of whole lines comes with an empty line at its end.
    let args = vec![Value::List(vec![s("a"), s("日本語"), s("")])];
    assert_eq!(
        parse_clipboard_set(&args),
        Ok(vec!["a".to_string(), "日本語".to_string(), String::new()])
    );
}

#[test]
fn clipboard_set_with_a_non_string_line_is_malformed() {
    let args = vec![Value::List(vec![s("a"), Value::Integer(1)])];
    assert!(parse_clipboard_set(&args).is_err());
}

#[test]
fn clipboard_set_with_anything_but_the_lines_is_malformed() {
    assert!(parse_clipboard_set(&[]).is_err());
    assert!(
        parse_clipboard_set(&[Value::List(vec![s("a")]), s("v")]).is_err(),
        "an extra argument must not be tolerated"
    );
}

fn flaw(name: &str, args: &[Value]) -> (Message, Flaw) {
    match parse_notification(name, args) {
        Err(Malformed { message, flaw }) => (message, flaw),
        other => panic!("accepted: {other:?}"),
    }
}

#[test]
fn each_flaw_is_told_apart() {
    let lines = vec![Value::List(vec![s("a"), s("b"), Value::Nil, Value::Other])];
    assert_eq!(flaw("session_write", &lines), (Message::SessionWrite, Flaw::Line(2)));
    assert_eq!(flaw("session_write", &[]), (Message::SessionWrite, Flaw::Shape));
    let empty = vec![Value::Dict(vec![])];
    assert_eq!(flaw("init_error", &empty), (Message::InitError, Flaw::Missing(Field::Kind)));
    let kind = vec![Value::Dict(vec![(s("kind"), Value::Boolean(true))])];
    assert_eq!(flaw("init_error", &kind), (Message::InitError, Flaw::NotText(Field::Kind)));
    assert_eq!(
        flaw("config_resolved", &empty),
        (Message::ConfigResolved, Flaw::Missing(Field::Loaded))
    );
    let loaded = vec![Value::Dict(vec![(s("loaded"), s("true"))])];
    assert_eq!(
        flaw("config_resolved", &loaded),
        (Message::ConfigResolved, Flaw::NotBool(Field::Loaded))
    );
    let no_dir = vec![Value::Dict(vec![(s("loaded"), Value::Boolean(true))])];
    assert_eq!(
        flaw("config_resolved", &no_dir),
        (Message::ConfigResolved, Flaw::Missing(Field::Dir))
    );
}

#[test]
fn flaws_are_put_into_words() {
    let say = |message, flaw| Malformed { message, flaw }.complaint();
    assert_eq!(
        say(Message::SessionWrite, Flaw::Shape),
        "session_write expects one array of lines, got "
    );
    assert_eq!(
        say(Message::InitError, Flaw::Shape),
        "init_error expects one map with kind/message, got "
    );
    assert_eq!(
        say(Message::ConfigResolved, Flaw::Shape),
        "config_resolved expects one map with dir/loaded, got "
    );
    assert_eq!(
        say(Message::ClipboardSet, Flaw::Shape),
        "clipboard_set expects [lines], got "
    );
    assert_eq!(
        say(Message::ClipboardSet, Flaw::Line(3)),
        "clipboard_set line is not a string: "
    );
    assert_eq!(
        say(Message::InitError, Flaw::Missing(Field::Message)),
        "init_error payload has no `message` field: "
    );
    assert_eq!(
        say(Message::ConfigResolved, Flaw::NotText(Field::Dir)),
        "config_resolved `dir` is not a string: "
    );
    assert_eq!(
        say(Message::ConfigResolved, Flaw::NotBool(Field::Loaded)),
        "config_resolved `loaded` is not a bool: "
    );
}

fn culprit(name: &str, args: &[Value]) -> Culprit {
    match parse_notification(name, args) {
        Err(malformed) => malformed.culprit(args),
        other => panic!("accepted: {other:?}"),
    }
}

#[test]
fn the_culprit_is_found_in_the_payload() {
    let lines = vec![Value::List(vec![s("a"), Value::Nil])];
    assert_eq!(culprit("session_write", &lines), Culprit::Line(1));
    assert_eq!(culprit("session_write", &[]), Culprit::Payload);
    let no_message = vec![Value::Dict(vec![(s("kind"), s("k"))])];
    assert_eq!(culprit("init_error", &no_message), Culprit::Fields);
    let number = vec![Value::Dict(vec![
        (s("message"), Value::Integer(1)),
        (s("kind"), s("k")),
    ])];
    assert_eq!(culprit("init_error", &number), Culprit::Entry(0));
    let text = vec![Value::Dict(vec![(s("dir"), s("x")), (s("loaded"), s("true"))])];
    assert_eq!(culprit("config_resolved", &text), Culprit::Entry(1));
    let stray = Malformed { message: Message::InitError, flaw: Flaw::NotText(Field::Dir) };
    assert_eq!(stray.culprit(&[]), Culprit::Payload);
}

#[test]
fn the_first_of_two_fields_counts() {
    let fields = vec![
        (Value::Integer(1), s("no key")),
        (s("kind"), s("first")),
        (s("kind"), s("second")),
    ];
    assert_eq!(field(&fields, "kind"), Some(&s("first")));
    assert_eq!(field(&fields, "message"), None);
    assert_eq!(find(&fields, "kind"), Some(1));
    assert_eq!(find(&fields, "message"), None);
    assert_eq!(
        string_field(Message::InitError, &fields, Field::Kind),
        Ok("first".to_string())
    );
}

#[test]
fn notifications_are_sorted() {
    assert!(is_redraw("redraw"));
    assert!(!is_redraw("redraws"));
    assert_eq!(handle_notify("redraw", &[]), Notified::Redraw);
    assert_eq!(handle_notify("redraws", &[]), Notified::Unknown);
    assert_eq!(
        handle_notify("session_end", &[Value::Nil]),
        Notified::Host { event: HostEvent::SessionEnd, unexpected_payload: false }
    );
    assert_eq!(
        handle_notify("nvim_dying", &[s("junk")]),
        Notified::Host { event: HostEvent::NvimDying, unexpected_payload: true }
    );
    assert_eq!(
        handle_notify("session_write", &[]),
        Notified::Malformed(Malformed { message: Message::SessionWrite, flaw: Flaw::Shape })
    );
}

#[test]
fn only_empty_notifications_are_warned_about() {
    assert!(!warn_unexpected_payload("session_end", &[]));
    assert!(!warn_unexpected_payload("session_end", &[Value::Nil]));
    assert!(warn_unexpected_payload("session_end", &[Value::Nil, Value::Nil]));
    assert!(warn_unexpected_payload("nvim_dying", &[Value::Boolean(false)]));
    assert!(!warn_unexpected_payload("session_write", &[s("x")]));
}

#[test]
fn requests_are_sorted() {
    assert_eq!(handle_request("clipboard_get", &[]), Request::ReadClipboard);
    let lines = vec![Value::List(vec![s("ab"), s("ef"), s("")])];
    assert_eq!(
        handle_request("clipboard_set", &lines),
        Request::WriteClipboard("ab\r\nef\r\n".to_string())
    );
    assert_eq!(
        handle_request("clipboard_set", &[Value::List(vec![Value::Nil])]),
        Request::Malformed(Malformed { message: Message::ClipboardSet, flaw: Flaw::Line(0) })
    );
    assert_eq!(
        handle_request("x", &[]),
        Request::Unknown(
            "host が持つ request は clipboard_get / clipboard_set だけである: `x`".to_string()
        )
    );
}

#[test]
fn the_clipboard_is_answered_as_a_register() {
    assert_eq!(
        clipboard_get_reply(OffLoop::Done("L1\r\nL2\r\n".to_string())),
        Ok(Value::List(vec![Value::List(vec![s("L1"), s("L2")]), s("V")]))
    );
    assert_eq!(
        clipboard_get_reply(OffLoop::Done("hello".to_string())),
        Ok(Value::List(vec![Value::List(vec![s("hello")]), s("v")]))
    );
    assert_eq!(
        clipboard_get_reply(OffLoop::Failed("busy".to_string())),
        Err(s("クリップボード操作に失敗した: busy"))
    );
    assert_eq!(clipboard_set_reply(OffLoop::Done(())), Ok(Value::Nil));
    assert_eq!(
        clipboard_set_reply(OffLoop::Lost("panicked".to_string())),
        Err(s("クリップボード操作のタスクが落ちた: panicked"))
    );
    assert_eq!(OffLoop::Done(5).off_loop(), Ok(5));
}

#[test]
fn values_are_read_by_kind() {
    assert_eq!(s("a").as_str(), Some("a"));
    assert_eq!(Value::Other.as_str(), None);
    assert_eq!(Value::Boolean(true).as_bool(), Some(true));
    assert_eq!(s("true").as_bool(), None);
    assert_eq!(Value::Integer(-5).as_i64(), Some(-5));
    assert_eq!(Value::Integer(i128::from(i64::MAX) + 1).as_i64(), None);
    assert_eq!(Value::Nil.as_i64(), None);
}
