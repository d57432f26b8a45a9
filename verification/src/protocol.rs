//! What Neovim tells its host, and what it asks for.
//!
//! Notifications report on the session and on the configuration; `redraw` is one of them, but it is
//! passed on unread. Requests come from the clipboard provider and are answered in every case: an
//! unknown name and a payload that breaks the contract are answered with an error.
use vstd::prelude::*;

use crate::clipboard::to_register;
use crate::text::{same, to_crlf};
use crate::value::{field, find, read_lines, write_lines, Value};

verus! {

/// What happened to Neovim or in it.
#[derive(Debug, PartialEq, Eq)]
pub enum HostEvent {
    /// The buffer was saved with these lines.
    SessionWrite(Vec<String>),
    /// The editor was closed.
    SessionEnd,
    /// Neovim is about to go. A hint that comes early; the connection's end is what counts.
    NvimDying,
    /// The local configuration failed to load.
    InitError { kind: String, message: String },
    /// Where the local configuration was looked for, and whether it was there.
    ConfigResolved { dir: String, loaded: bool },
    /// The connection is gone, and Neovim with it.
    Disconnected,
}

/// A [`HostEvent`], by contents.
pub ghost enum News {
    SessionWrite(Seq<Seq<char>>),
    SessionEnd,
    NvimDying,
    InitError { kind: Seq<char>, message: Seq<char> },
    ConfigResolved { dir: Seq<char>, loaded: bool },
    Disconnected,
}

impl View for HostEvent {
    type V = News;

    open spec fn view(&self) -> News {
        match self {
            HostEvent::SessionWrite(lines) => News::SessionWrite(crate::text::texts(lines@)),
            HostEvent::SessionEnd => News::SessionEnd,
            HostEvent::NvimDying => News::NvimDying,
            HostEvent::InitError { kind, message } => News::InitError {
                kind: kind@,
                message: message@,
            },
            HostEvent::ConfigResolved { dir, loaded } => News::ConfigResolved {
                dir: dir@,
                loaded: *loaded,
            },
            HostEvent::Disconnected => News::Disconnected,
        }
    }
}

// ---------------------------------------------------------------------------
// Broken payloads
// ---------------------------------------------------------------------------

/// The messages that carry something.
#[derive(Clone, Copy, Debug, PartialEq, Eq, Structural)]
pub enum Message {
    SessionWrite,
    InitError,
    ConfigResolved,
    ClipboardSet,
}

/// The fields that messages carry.
#[derive(Clone, Copy, Debug, PartialEq, Eq, Structural)]
pub enum Field {
    Kind,
    Message,
    Dir,
    Loaded,
}

/// In what a payload breaks the contract.
#[derive(Clone, Copy, Debug, PartialEq, Eq, Structural)]
pub enum Flaw {
    /// It is not one value of the kind that the message carries.
    Shape,
    /// The line at this position is no text.
    Line(usize),
    /// There is no such field.
    Missing(Field),
    /// The field is no text.
    NotText(Field),
    /// The field is no truth value.
    NotBool(Field),
}

/// A payload that breaks the contract.
#[derive(Clone, Copy, Debug, PartialEq, Eq, Structural)]
pub struct Malformed {
    pub message: Message,
    pub flaw: Flaw,
}

impl Message {
    /// The message's name on the wire.
    pub open spec fn wire(self) -> Seq<char> {
        match self {
            Message::SessionWrite => "session_write"@,
            Message::InitError => "init_error"@,
            Message::ConfigResolved => "config_resolved"@,
            Message::ClipboardSet => "clipboard_set"@,
        }
    }

    /// What the message carries.
    pub open spec fn expected(self) -> Seq<char> {
        match self {
            Message::SessionWrite => "one array of lines"@,
            Message::InitError => "one map with kind/message"@,
            Message::ConfigResolved => "one map with dir/loaded"@,
            Message::ClipboardSet => "[lines]"@,
        }
    }

    /// The message's name on the wire.
    pub fn name(self) -> (name: String)
        ensures
            name@ == self.wire(),
    {
        match self {
            Message::SessionWrite => "session_write".to_owned(),
            Message::InitError => "init_error".to_owned(),
            Message::ConfigResolved => "config_resolved".to_owned(),
            Message::ClipboardSet => "clipboard_set".to_owned(),
        }
    }

    fn contents(self) -> (text: String)
        ensures
            text@ == self.expected(),
    {
        match self {
            Message::SessionWrite => "one array of lines".to_owned(),
            Message::InitError => "one map with kind/message".to_owned(),
            Message::ConfigResolved => "one map with dir/loaded".to_owned(),
            Message::ClipboardSet => "[lines]".to_owned(),
        }
    }
}

impl Field {
    /// The field's key on the wire.
    pub open spec fn wire(self) -> Seq<char> {
        match self {
            Field::Kind => "kind"@,
            Field::Message => "message"@,
            Field::Dir => "dir"@,
            Field::Loaded => "loaded"@,
        }
    }

    /// The field's key on the wire.
    pub fn key(self) -> (key: String)
        ensures
            key@ == self.wire(),
    {
        match self {
            Field::Kind => "kind".to_owned(),
            Field::Message => "message".to_owned(),
            Field::Dir => "dir".to_owned(),
            Field::Loaded => "loaded".to_owned(),
        }
    }
}

impl Malformed {
    /// What is said of the payload. The offending value is to follow.
    pub open spec fn said(self) -> Seq<char> {
        let name = self.message.wire();
        match self.flaw {
            Flaw::Shape => name + " expects "@ + self.message.expected() + ", got "@,
            Flaw::Line(_) => name + " line is not a string: "@,
            Flaw::Missing(field) => name + " payload has no `"@ + field.wire() + "` field: "@,
            Flaw::NotText(field) => name + " `"@ + field.wire() + "` is not a string: "@,
            Flaw::NotBool(field) => name + " `"@ + field.wire() + "` is not a bool: "@,
        }
    }

    /// A sentence for logs and error replies, up to where the offending value follows.
    pub fn complaint(self) -> (text: String)
        ensures
            text@ == self.said(),
    {
        let mut text = self.message.name();
        match self.flaw {
            Flaw::Shape => {
                text.append(" expects ");
                text.append(self.message.contents().as_str());
                text.append(", got ");
            },
            Flaw::Line(_) => {
                text.append(" line is not a string: ");
            },
            Flaw::Missing(field) => {
                text.append(" payload has no `");
                text.append(field.key().as_str());
                text.append("` field: ");
            },
            Flaw::NotText(field) => {
                text.append(" `");
                text.append(field.key().as_str());
                text.append("` is not a string: ");
            },
            Flaw::NotBool(field) => {
                text.append(" `");
                text.append(field.key().as_str());
                text.append("` is not a bool: ");
            },
        }
        text
    }
}

/// The part of a payload that a complaint is about.
#[derive(Clone, Copy, Debug, PartialEq, Eq, Structural)]
pub enum Culprit {
    /// All of it.
    Payload,
    /// The line at this position of its list.
    Line(usize),
    /// All of its dictionary.
    Fields,
    /// The value at this position of its dictionary.
    Entry(usize),
}

/// Where the value of a field stands, or all of the payload where there is no such value.
pub open spec fn entry(args: Seq<Value>, field: Field) -> Culprit {
    if args.len() == 1 && args[0] is Dict {
        match crate::value::position(args[0]->Dict_0@, field.wire(), 0) {
            Some(i) => Culprit::Entry(i as usize),
            None => Culprit::Payload,
        }
    } else {
        Culprit::Payload
    }
}

/// Where the value of a field stands, or all of the payload where there is no such value.
fn entry_of(args: &[Value], field: Field) -> (culprit: Culprit)
    ensures
        culprit == entry(args@, field),
{
    if args.len() == 1 {
        if let Value::Dict(fields) = &args[0] {
            if let Some(i) = find(fields, field.key().as_str()) {
                return Culprit::Entry(i);
            }
        }
    }
    Culprit::Payload
}

impl Malformed {
    /// The part of the payload that follows the complaint.
    pub fn culprit(self, args: &[Value]) -> (culprit: Culprit)
        ensures
            culprit == (match self.flaw {
                Flaw::Shape => Culprit::Payload,
                Flaw::Line(i) => Culprit::Line(i),
                Flaw::Missing(_) => Culprit::Fields,
                Flaw::NotText(field) => entry(args@, field),
                Flaw::NotBool(field) => entry(args@, field),
            }),
    {
        match self.flaw {
            Flaw::Shape => Culprit::Payload,
            Flaw::Line(i) => Culprit::Line(i),
            Flaw::Missing(_) => Culprit::Fields,
            Flaw::NotText(field) => entry_of(args, field),
            Flaw::NotBool(field) => entry_of(args, field),
        }
    }
}

/// The lines that a payload of one list of texts carries.
pub open spec fn line_payload(message: Message, args: Seq<Value>) -> Result<
    Seq<Seq<char>>,
    Malformed,
> {
    if args.len() == 1 && args[0] is List {
        let items = args[0]->List_0@;
        match crate::value::first_non_text(items, 0) {
            None => Ok(crate::value::item_texts(items)),
            Some(i) => Err(Malformed { message, flaw: Flaw::Line(i as usize) }),
        }
    } else {
        Err(Malformed { message, flaw: Flaw::Shape })
    }
}

/// A text field of a payload.
pub open spec fn text_field(
    message: Message,
    fields: Seq<(Value, Value)>,
    field: Field,
) -> Result<Seq<char>, Malformed> {
    match crate::value::lookup(fields, field.wire()) {
        None => Err(Malformed { message, flaw: Flaw::Missing(field) }),
        Some(value) => match value.text() {
            None => Err(Malformed { message, flaw: Flaw::NotText(field) }),
            Some(text) => Ok(text),
        },
    }
}

/// A truth value of a payload.
pub open spec fn bool_field(
    message: Message,
    fields: Seq<(Value, Value)>,
    field: Field,
) -> Result<bool, Malformed> {
    match crate::value::lookup(fields, field.wire()) {
        None => Err(Malformed { message, flaw: Flaw::Missing(field) }),
        Some(value) => match value {
            Value::Boolean(b) => Ok(b),
            _ => Err(Malformed { message, flaw: Flaw::NotBool(field) }),
        },
    }
}

/// Reads a payload of one list of lines.
fn parse_lines(message: Message, args: &[Value]) -> (r: Result<Vec<String>, Malformed>)
    ensures
        r is Ok <==> line_payload(message, args@) is Ok,
        r is Ok ==> crate::text::texts(r->Ok_0@) == line_payload(message, args@)->Ok_0,
        r is Err ==> line_payload(message, args@) == Err::<Seq<Seq<char>>, Malformed>(r->Err_0),
{
    if args.len() == 1 {
        if let Value::List(items) = &args[0] {
            return match read_lines(items) {
                Ok(lines) => Ok(lines),
                Err(i) => Err(Malformed { message, flaw: Flaw::Line(i) }),
            };
        }
    }
    Err(Malformed { message, flaw: Flaw::Shape })
}

/// A text field of a payload.
pub fn string_field(message: Message, fields: &Vec<(Value, Value)>, key: Field) -> (r: Result<
    String,
    Malformed,
>)
    ensures
        r is Ok <==> text_field(message, fields@, key) is Ok,
        r is Ok ==> r->Ok_0@ == text_field(message, fields@, key)->Ok_0,
        r is Err ==> text_field(message, fields@, key) == Err::<Seq<char>, Malformed>(r->Err_0),
{
    match field(fields, key.key().as_str()) {
        None => Err(Malformed { message, flaw: Flaw::Missing(key) }),
        Some(value) => match value.as_str() {
            None => Err(Malformed { message, flaw: Flaw::NotText(key) }),
            Some(text) => Ok(text.to_owned()),
        },
    }
}

/// A truth value of a payload.
fn truth_field(message: Message, fields: &Vec<(Value, Value)>, key: Field) -> (r: Result<
    bool,
    Malformed,
>)
    ensures
        r == bool_field(message, fields@, key),
{
    match field(fields, key.key().as_str()) {
        None => Err(Malformed { message, flaw: Flaw::Missing(key) }),
        Some(value) => match value.as_bool() {
            None => Err(Malformed { message, flaw: Flaw::NotBool(key) }),
            Some(b) => Ok(b),
        },
    }
}

// ---------------------------------------------------------------------------
// Notifications
// ---------------------------------------------------------------------------

/// What an `init_error` says.
pub open spec fn init_error_news(args: Seq<Value>) -> Result<News, Malformed> {
    let message = Message::InitError;
    if args.len() == 1 && args[0] is Dict {
        let fields = args[0]->Dict_0@;
        match text_field(message, fields, Field::Kind) {
            Err(e) => Err(e),
            Ok(kind) => match text_field(message, fields, Field::Message) {
                Err(e) => Err(e),
                Ok(text) => Ok(News::InitError { kind, message: text }),
            },
        }
    } else {
        Err(Malformed { message, flaw: Flaw::Shape })
    }
}

/// What a `config_resolved` says.
pub open spec fn config_resolved_news(args: Seq<Value>) -> Result<News, Malformed> {
    let message = Message::ConfigResolved;
    if args.len() == 1 && args[0] is Dict {
        let fields = args[0]->Dict_0@;
        match bool_field(message, fields, Field::Loaded) {
            Err(e) => Err(e),
            Ok(loaded) => match text_field(message, fields, Field::Dir) {
                Err(e) => Err(e),
                Ok(dir) => Ok(News::ConfigResolved { dir, loaded }),
            },
        }
    } else {
        Err(Malformed { message, flaw: Flaw::Shape })
    }
}

/// Whether a notification's name is known.
pub open spec fn known_notification(name: Seq<char>) -> bool {
    ||| name == "session_write"@
    ||| name == "session_end"@
    ||| name == "nvim_dying"@
    ||| name == "init_error"@
    ||| name == "config_resolved"@
}

/// What a notification with a known name says.
pub open spec fn news(name: Seq<char>, args: Seq<Value>) -> Result<News, Malformed> {
    if name == "session_write"@ {
        match line_payload(Message::SessionWrite, args) {
            Ok(lines) => Ok(News::SessionWrite(lines)),
            Err(e) => Err(e),
        }
    } else if name == "session_end"@ {
        Ok(News::SessionEnd)
    } else if name == "nvim_dying"@ {
        Ok(News::NvimDying)
    } else if name == "init_error"@ {
        init_error_news(args)
    } else {
        config_resolved_news(args)
    }
}

/// Reads a notification. `None` stands for an unknown name, an error for a payload that breaks the
/// contract.
///
/// The notifications that carry nothing are accepted whatever comes with them: a `session_end` that
/// were dropped would leave the host editing for ever.
pub fn parse_notification(name: &str, args: &[Value]) -> (r: Result<Option<HostEvent>, Malformed>)
    ensures
        r matches Ok(None) <==> !known_notification(name@),
        r matches Ok(Some(event)) ==> news(name@, args@) == Ok::<News, Malformed>(event@),
        r matches Err(e) ==> news(name@, args@) == Err::<News, Malformed>(e),
{
    if same(name, "session_write") {
        match parse_lines(Message::SessionWrite, args) {
            Ok(lines) => Ok(Some(HostEvent::SessionWrite(lines))),
            Err(e) => Err(e),
        }
    } else if same(name, "session_end") {
        Ok(Some(HostEvent::SessionEnd))
    } else if same(name, "nvim_dying") {
        Ok(Some(HostEvent::NvimDying))
    } else if same(name, "init_error") {
        match parse_init_error(args) {
            Ok(event) => Ok(Some(event)),
            Err(e) => Err(e),
        }
    } else if same(name, "config_resolved") {
        match parse_config_resolved(args) {
            Ok(event) => Ok(Some(event)),
            Err(e) => Err(e),
        }
    } else {
        Ok(None)
    }
}

fn parse_init_error(args: &[Value]) -> (r: Result<HostEvent, Malformed>)
    ensures
        r matches Ok(event) ==> init_error_news(args@) == Ok::<News, Malformed>(event@),
        r matches Err(e) ==> init_error_news(args@) == Err::<News, Malformed>(e),
{
    let message = Message::InitError;
    if args.len() == 1 {
        if let Value::Dict(fields) = &args[0] {
            let kind = match string_field(message, fields, Field::Kind) {
                Ok(kind) => kind,
                Err(e) => {
                    return Err(e);
                },
            };
            return match string_field(message, fields, Field::Message) {
                Ok(text) => Ok(HostEvent::InitError { kind, message: text }),
                Err(e) => Err(e),
            };
        }
    }
    Err(Malformed { message, flaw: Flaw::Shape })
}

fn parse_config_resolved(args: &[Value]) -> (r: Result<HostEvent, Malformed>)
    ensures
        r matches Ok(event) ==> config_resolved_news(args@) == Ok::<News, Malformed>(event@),
        r matches Err(e) ==> config_resolved_news(args@) == Err::<News, Malformed>(e),
{
    let message = Message::ConfigResolved;
    if args.len() == 1 {
        if let Value::Dict(fields) = &args[0] {
            let loaded = match truth_field(message, fields, Field::Loaded) {
                Ok(loaded) => loaded,
                Err(e) => {
                    return Err(e);
                },
            };
            return match string_field(message, fields, Field::Dir) {
                Ok(dir) => Ok(HostEvent::ConfigResolved { dir, loaded }),
                Err(e) => Err(e),
            };
        }
    }
    Err(Malformed { message, flaw: Flaw::Shape })
}

/// Whether a payload is what a notification that carries nothing should come with.
pub open spec fn is_nil_payload(args: Seq<Value>) -> bool {
    args.len() == 0 || (args.len() == 1 && args[0] is Nil)
}

/// Whether a notification came with a payload that it should not have. It is accepted all the same;
/// this is for a warning.
pub fn warn_unexpected_payload(name: &str, args: &[Value]) -> (unexpected: bool)
    ensures
        unexpected == ((name@ == "session_end"@ || name@ == "nvim_dying"@) && !is_nil_payload(
            args@,
        )),
{
    if !same(name, "session_end") && !same(name, "nvim_dying") {
        return false;
    }
    if args.len() == 1 {
        match &args[0] {
            Value::Nil => false,
            _ => true,
        }
    } else {
        args.len() != 0
    }
}

/// What is done with a notification.
#[derive(Debug, PartialEq, Eq)]
pub enum Notified {
    /// It is passed on to the screen, unread.
    Redraw,
    /// It is passed on to the host. A warning is due if it came with a payload that it should not
    /// have had.
    Host { event: HostEvent, unexpected_payload: bool },
    /// It is ignored, with a warning.
    Unknown,
    /// It is dropped, with an error in the log.
    Malformed(Malformed),
}

/// Whether a notification is for the screen.
pub fn is_redraw(name: &str) -> (r: bool)
    ensures
        r == (name@ == "redraw"@),
{
    same(name, "redraw")
}

/// Decides what is done with a notification.
pub fn handle_notify(name: &str, args: &[Value]) -> (r: Notified)
    ensures
        r is Redraw <==> name@ == "redraw"@,
        r is Unknown <==> name@ != "redraw"@ && !known_notification(name@),
        r matches Notified::Host { event, unexpected_payload } ==> {
            &&& news(name@, args@) == Ok::<News, Malformed>(event@)
            &&& unexpected_payload == ((name@ == "session_end"@ || name@ == "nvim_dying"@)
                && !is_nil_payload(args@))
        },
        r matches Notified::Malformed(e) ==> news(name@, args@) == Err::<News, Malformed>(e),
{
    proof {
        lemma_names_differ();
    }
    if is_redraw(name) {
        return Notified::Redraw;
    }
    match parse_notification(name, args) {
        Ok(Some(event)) => Notified::Host {
            event,
            unexpected_payload: warn_unexpected_payload(name, args),
        },
        Ok(None) => Notified::Unknown,
        Err(e) => Notified::Malformed(e),
    }
}

/// The names on the wire are different names.
proof fn lemma_names_differ()
    ensures
        !known_notification("redraw"@),
{
    reveal_strlit("redraw");
    reveal_strlit("session_write");
    reveal_strlit("session_end");
    reveal_strlit("nvim_dying");
    reveal_strlit("init_error");
    reveal_strlit("config_resolved");
    assert("redraw"@[0] == 'r');
}

// ---------------------------------------------------------------------------
// Requests
// ---------------------------------------------------------------------------

/// Reads what `clipboard_set` carries: the lines, and nothing else.
pub fn parse_clipboard_set(args: &[Value]) -> (r: Result<Vec<String>, Malformed>)
    ensures
        r is Ok <==> line_payload(Message::ClipboardSet, args@) is Ok,
        r is Ok ==> crate::text::texts(r->Ok_0@) == line_payload(
            Message::ClipboardSet,
            args@,
        )->Ok_0,
        r is Err ==> line_payload(Message::ClipboardSet, args@) == Err::<
            Seq<Seq<char>>,
            Malformed,
        >(r->Err_0),
{
    parse_lines(Message::ClipboardSet, args)
}

/// What a request asks for.
#[derive(Debug, PartialEq, Eq)]
pub enum Request {
    /// The clipboard is to be read; [`clipboard_get_reply`] answers.
    ReadClipboard,
    /// The clipboard is to be given this text; [`clipboard_set_reply`] answers.
    WriteClipboard(String),
    /// There is no such request. The answer is this error.
    Unknown(String),
    /// The payload breaks the contract. The answer is an error.
    Malformed(Malformed),
}

/// The error that answers a request with an unknown name.
pub open spec fn unknown_request(name: Seq<char>) -> Seq<char> {
    "host が持つ request は clipboard_get / clipboard_set だけである: `"@ + name + "`"@
}

/// Decides what a request asks for.
///
/// Nothing here asks Neovim anything back: it waits for the answer, and would wait for ever.
pub fn handle_request(name: &str, args: &[Value]) -> (r: Request)
    ensures
        r is ReadClipboard <==> name@ == "clipboard_get"@,
        r is WriteClipboard <==> name@ == "clipboard_set"@ && line_payload(
            Message::ClipboardSet,
            args@,
        ) is Ok,
        r is Malformed <==> name@ == "clipboard_set"@ && line_payload(
            Message::ClipboardSet,
            args@,
        ) is Err,
        r matches Request::WriteClipboard(text) ==> text@ == crate::text::joined(
            line_payload(Message::ClipboardSet, args@)->Ok_0,
        ),
        r matches Request::Malformed(e) ==> e == line_payload(
            Message::ClipboardSet,
            args@,
        )->Err_0,
        r matches Request::Unknown(error) ==> error@ == unknown_request(name@),
{
    proof {
        reveal_strlit("clipboard_get");
        reveal_strlit("clipboard_set");
        assert("clipboard_get"@[10] != "clipboard_set"@[10]);
    }
    if same(name, "clipboard_get") {
        Request::ReadClipboard
    } else if same(name, "clipboard_set") {
        match parse_clipboard_set(args) {
            Ok(lines) => Request::WriteClipboard(to_crlf(&lines)),
            Err(e) => Request::Malformed(e),
        }
    } else {
        let mut error = "host が持つ request は clipboard_get / clipboard_set だけである: `".to_owned();
        error.append(name);
        error.append("`");
        Request::Unknown(error)
    }
}

/// How an operation on the clipboard went. It runs outside of the connection's own task, because
/// the system's clipboard may keep its caller waiting.
#[derive(Debug, PartialEq, Eq)]
pub enum OffLoop<T> {
    Done(T),
    /// It failed, for this reason.
    Failed(String),
    /// Its task ended before it did, for this reason.
    Lost(String),
}

impl<T> OffLoop<T> {
    /// The error that answers an operation that did not succeed.
    pub open spec fn error(self) -> Seq<char> {
        match self {
            OffLoop::Done(_) => Seq::empty(),
            OffLoop::Failed(why) => "クリップボード操作に失敗した: "@ + why@,
            OffLoop::Lost(why) => "クリップボード操作のタスクが落ちた: "@ + why@,
        }
    }

    /// The operation's result, or the error to answer with.
    pub fn off_loop(self) -> (r: Result<T, String>)
        ensures
            r is Ok <==> self is Done,
            r matches Ok(value) ==> self == OffLoop::Done(value),
            r matches Err(error) ==> error@ == self.error(),
    {
        match self {
            OffLoop::Done(value) => Ok(value),
            OffLoop::Failed(why) => {
                let mut error = "クリップボード操作に失敗した: ".to_owned();
                error.append(why.as_str());
                Err(error)
            },
            OffLoop::Lost(why) => {
                let mut error = "クリップボード操作のタスクが落ちた: ".to_owned();
                error.append(why.as_str());
                Err(error)
            },
        }
    }
}

/// Whether a value is a register: its lines and its type.
pub open spec fn is_register(
    value: Value,
    lines: Seq<Seq<char>>,
    regtype: crate::clipboard::RegType,
) -> bool {
    &&& value is List
    &&& value->List_0@.len() == 2
    &&& value->List_0@[0] is List
    &&& crate::value::first_non_text(value->List_0@[0]->List_0@, 0) is None
    &&& crate::value::item_texts(value->List_0@[0]->List_0@) == lines
    &&& value->List_0@[1].text() == Some(regtype.letter())
}

/// The answer to `clipboard_get`, given the clipboard's text or why it could not be read.
pub fn clipboard_get_reply(read: OffLoop<String>) -> (r: Result<Value, Value>)
    ensures
        r is Ok <==> read is Done,
        r matches Ok(value) ==> is_register(
            value,
            crate::clipboard::register_lines(read->Done_0@),
            crate::clipboard::register_type(read->Done_0@),
        ),
        r matches Err(error) ==> error.text() == Some(read.error()),
{
    match read.off_loop() {
        Ok(raw) => {
            let (lines, regtype) = to_register(raw.as_str());
            let mut reply: Vec<Value> = Vec::new();
            reply.push(Value::List(write_lines(&lines)));
            reply.push(Value::Text(regtype.as_nvim()));
            Ok(Value::List(reply))
        },
        Err(error) => Err(Value::Text(error)),
    }
}

/// The answer to `clipboard_set`, given whether the clipboard could be written.
pub fn clipboard_set_reply(written: OffLoop<()>) -> (r: Result<Value, Value>)
    ensures
        r is Ok <==> written is Done,
        r matches Ok(value) ==> value is Nil,
        r matches Err(error) ==> error.text() == Some(written.error()),
{
    match written.off_loop() {
        Ok(_) => Ok(Value::Nil),
        Err(error) => Err(Value::Text(error)),
    }
}

// ---------------------------------------------------------------------------
// Laws
// ---------------------------------------------------------------------------

/// The end of a session and the end of Neovim are reported whatever comes with them.
pub proof fn law_ends_survive_any_payload(args: Seq<Value>)
    ensures
        news("session_end"@, args) == Ok::<News, Malformed>(News::SessionEnd),
        news("nvim_dying"@, args) == Ok::<News, Malformed>(News::NvimDying),
{
    reveal_strlit("session_write");
    reveal_strlit("session_end");
    reveal_strlit("nvim_dying");
    assert("session_write"@.len() != "session_end"@.len());
    assert("nvim_dying"@[0] == 'n');
    assert("session_end"@[0] == 's');
    assert("session_write"@[0] == 's');
}

/// The part of a payload that a complaint is about is there: a line at a position of the payload's
/// list that holds no text, all of its dictionary, or the value of the field that is complained of.
pub proof fn law_the_culprit_is_in_the_payload(message: Message, args: Seq<Value>, field: Field)
    ensures
        line_payload(message, args) matches Err(Malformed { flaw: Flaw::Line(i), .. }) ==> {
            &&& args.len() == 1 && args[0] is List
            &&& args[0]->List_0@.len() <= usize::MAX ==> i < args[0]->List_0@.len()
                && args[0]->List_0@[i as int].text() is None
        },
        args.len() == 1 && args[0] is Dict && crate::value::lookup(
            args[0]->Dict_0@,
            field.wire(),
        ) is Some && args[0]->Dict_0@.len() <= usize::MAX ==> {
            &&& entry(args, field) matches Culprit::Entry(i)
            &&& i < args[0]->Dict_0@.len()
            &&& args[0]->Dict_0@[i as int].0.text() == Some(field.wire())
            &&& crate::value::lookup(args[0]->Dict_0@, field.wire()) == Some(
                args[0]->Dict_0@[i as int].1,
            )
        },
{
    if args.len() == 1 && args[0] is List {
        lemma_first_non_text(args[0]->List_0@, 0);
    }
    if args.len() == 1 && args[0] is Dict {
        lemma_position(args[0]->Dict_0@, field.wire(), 0);
    }
}

/// The first position without a text is one.
proof fn lemma_first_non_text(items: Seq<Value>, from: nat)
    ensures
        crate::value::first_non_text(items, from) matches Some(i) ==> from <= i < items.len()
            && items[i as int].text() is None,
    decreases items.len() - from,
{
    if from < items.len() {
        lemma_first_non_text(items, from + 1);
    }
}

/// The position of a key holds the key.
proof fn lemma_position(fields: Seq<(Value, Value)>, key: Seq<char>, from: nat)
    ensures
        crate::value::position(fields, key, from) matches Some(i) ==> from <= i < fields.len()
            && fields[i as int].0.text() == Some(key),
    decreases fields.len() - from,
{
    if from < fields.len() {
        lemma_position(fields, key, from + 1);
    }
}

/// A payload carries lines exactly if it is one list whose items all are texts. Anything beside the
/// list, such as a register type, breaks the contract.
pub proof fn law_what_a_payload_of_lines_is(message: Message, args: Seq<Value>)
    ensures
        line_payload(message, args) is Ok <==> (args.len() == 1 && args[0] is List && forall|i: int|
            0 <= i < args[0]->List_0@.len() ==> (#[trigger] args[0]->List_0@[i]).text() is Some),
{
    if args.len() == 1 && args[0] is List {
        let items = args[0]->List_0@;
        lemma_no_non_text(items, 0);
    }
}

/// A list has no position without a text exactly if each of its items is one.
proof fn lemma_no_non_text(items: Seq<Value>, from: nat)
    ensures
        crate::value::first_non_text(items, from) is None <==> forall|i: int|
            from <= i < items.len() ==> (#[trigger] items[i]).text() is Some,
    decreases items.len() - from,
{
    if from < items.len() {
        lemma_no_non_text(items, from + 1);
        if items[from as int].text() is Some {
            assert forall|i: int| from <= i < items.len() && (forall|j: int|
                from + 1 <= j < items.len() ==> (#[trigger] items[j]).text()
                    is Some) implies (#[trigger] items[i]).text() is Some by {
                if i > from {
                    assert(items[i].text() is Some);
                }
            }
        }
    }
}

/// Where a payload is one list whose items all are texts, the lines that are read from it are as
/// many as the list's items, and each is the text of the item in its place, whichever message
/// carries them.
pub proof fn law_lines_are_read_whole(message: Message, args: Seq<Value>)
    requires
        args.len() == 1,
        args[0] is List,
        forall|i: int|
            0 <= i < args[0]->List_0@.len() ==> #[trigger] args[0]->List_0@[i] is Text,
    ensures
        line_payload(message, args) is Ok,
        line_payload(message, args)->Ok_0.len() == args[0]->List_0@.len(),
        forall|i: int|
            0 <= i < args[0]->List_0@.len() ==> #[trigger] line_payload(message, args)->Ok_0[i]
                == args[0]->List_0@[i]->Text_0@,
{
    crate::value::law_the_first_non_text_is_found(args[0]->List_0@);
    crate::value::law_item_texts_are_the_items(args[0]->List_0@);
}

/// A payload that is not one list is complained of as a whole, and a list by its first item that is
/// no text; the complaint is about the message that carries it.
pub proof fn law_broken_lines_are_complained_of(message: Message, args: Seq<Value>)
    ensures
        args.len() != 1 || !(args[0] is List) ==> line_payload(message, args) == Err::<
            Seq<Seq<char>>,
            Malformed,
        >(Malformed { message, flaw: Flaw::Shape }),
        forall|i: int|
            args.len() == 1 && args[0] is List && 0 <= i < args[0]->List_0@.len() && i <= usize::MAX
                && !(#[trigger] args[0]->List_0@[i] is Text) && (forall|j: int|
                0 <= j < i ==> #[trigger] args[0]->List_0@[j] is Text) ==> line_payload(
                message,
                args,
            ) == Err::<Seq<Seq<char>>, Malformed>(
                Malformed { message, flaw: Flaw::Line(i as usize) },
            ),
{
    if args.len() == 1 && args[0] is List {
        let items = args[0]->List_0@;
        crate::value::law_the_first_non_text_is_found(items);
        assert forall|i: int|
            0 <= i < items.len() && i <= usize::MAX && !(#[trigger] items[i] is Text) && (forall|
                j: int,
            |
                0 <= j < i ==> #[trigger] items[j] is Text) implies line_payload(message, args)
            == Err::<Seq<Seq<char>>, Malformed>(
            Malformed { message, flaw: Flaw::Line(i as usize) },
        ) by {
            let first = crate::value::first_non_text(items, 0);
            assert(first is Some);
            let k = first->0 as int;
            if k < i {
                assert(items[k] is Text);
            }
            if i < k {
                assert(items[i] is Text);
            }
        }
    }
}

/// The names under which messages and fields travel.
pub proof fn law_wire_names()
    ensures
        Message::SessionWrite.wire() == "session_write"@,
        Message::InitError.wire() == "init_error"@,
        Message::ConfigResolved.wire() == "config_resolved"@,
        Message::ClipboardSet.wire() == "clipboard_set"@,
        Field::Kind.wire() == "kind"@,
        Field::Message.wire() == "message"@,
        Field::Dir.wire() == "dir"@,
        Field::Loaded.wire() == "loaded"@,
{
}

/// Five notifications are known, and no other name is.
pub proof fn law_five_notifications_are_known(name: Seq<char>)
    ensures
        known_notification("session_write"@),
        known_notification("session_end"@),
        known_notification("nvim_dying"@),
        known_notification("init_error"@),
        known_notification("config_resolved"@),
        name != "session_write"@ && name != "session_end"@ && name != "nvim_dying"@ && name
            != "init_error"@ && name != "config_resolved"@ ==> !known_notification(name),
{
}

/// The five names are five.
proof fn lemma_known_names_differ()
    ensures
        "session_write"@ != "session_end"@,
        "session_write"@ != "nvim_dying"@,
        "session_write"@ != "init_error"@,
        "session_write"@ != "config_resolved"@,
        "session_end"@ != "init_error"@,
        "session_end"@ != "config_resolved"@,
        "nvim_dying"@ != "init_error"@,
        "nvim_dying"@ != "config_resolved"@,
        "init_error"@ != "config_resolved"@,
{
    reveal_strlit("session_write");
    reveal_strlit("session_end");
    reveal_strlit("nvim_dying");
    reveal_strlit("init_error");
    reveal_strlit("config_resolved");
    assert("session_write"@.len() != "session_end"@.len());
    assert("session_write"@[0] == 's');
    assert("session_end"@[0] == 's');
    assert("nvim_dying"@[0] == 'n');
    assert("init_error"@[0] == 'i');
    assert("config_resolved"@[0] == 'c');
}

/// A save that is reported is the save with every line of the report, in its place, and a report
/// that is not one list of texts is no save.
pub proof fn law_a_save_is_reported_whole(args: Seq<Value>)
    ensures
        match news("session_write"@, args) {
            Ok(News::SessionWrite(lines)) => {
                &&& args.len() == 1
                &&& args[0] is List
                &&& lines.len() == args[0]->List_0@.len()
                &&& forall|i: int|
                    0 <= i < lines.len() ==> args[0]->List_0@[i] is Text && #[trigger] lines[i]
                        == args[0]->List_0@[i]->Text_0@
            },
            Ok(_) => false,
            Err(e) => {
                &&& e.message == Message::SessionWrite
                &&& args.len() == 1 && args[0] is List ==> exists|i: int|
                    0 <= i < args[0]->List_0@.len() && !(#[trigger] args[0]->List_0@[i] is Text)
            },
        },
{
    lemma_known_names_differ();
    law_what_a_payload_of_lines_is(Message::SessionWrite, args);
    if args.len() == 1 && args[0] is List {
        let items = args[0]->List_0@;
        crate::value::law_the_first_non_text_is_found(items);
        crate::value::law_item_texts_are_the_items(items);
        if line_payload(Message::SessionWrite, args) is Err {
            assert(!(items[crate::value::first_non_text(items, 0)->0 as int] is Text));
        }
    }
}

/// A configuration error is reported with the text behind `kind` as its kind and the text behind
/// `message` as its message; a field that is missing or no text is complained of, `kind` first.
pub proof fn law_a_configuration_error_is_reported(args: Seq<Value>)
    ensures
        args.len() != 1 || !(args[0] is Dict) ==> news("init_error"@, args) == Err::<
            News,
            Malformed,
        >(Malformed { message: Message::InitError, flaw: Flaw::Shape }),
        args.len() == 1 && args[0] is Dict ==> {
            let kind = crate::value::lookup(args[0]->Dict_0@, "kind"@);
            let message = crate::value::lookup(args[0]->Dict_0@, "message"@);
            let flawed = |flaw: Flaw| Err::<News, Malformed>(
                Malformed { message: Message::InitError, flaw },
            );
            let r = news("init_error"@, args);
            &&& kind is None ==> r == flawed(Flaw::Missing(Field::Kind))
            &&& kind is Some && !(kind->0 is Text) ==> r == flawed(Flaw::NotText(Field::Kind))
            &&& kind is Some && kind->0 is Text && message is None ==> r == flawed(
                Flaw::Missing(Field::Message),
            )
            &&& kind is Some && kind->0 is Text && message is Some && !(message->0 is Text) ==> r
                == flawed(Flaw::NotText(Field::Message))
            &&& kind is Some && kind->0 is Text && message is Some && message->0 is Text ==> r
                == Ok::<News, Malformed>(
                News::InitError { kind: kind->0->Text_0@, message: message->0->Text_0@ },
            )
        },
{
    lemma_known_names_differ();
}

/// Where the configuration was looked for is reported with the text behind `dir` and the truth value
/// behind `loaded`; a field that is missing or of another kind is complained of, `loaded` first.
pub proof fn law_the_configuration_is_reported(args: Seq<Value>)
    ensures
        args.len() != 1 || !(args[0] is Dict) ==> news("config_resolved"@, args) == Err::<
            News,
            Malformed,
        >(Malformed { message: Message::ConfigResolved, flaw: Flaw::Shape }),
        args.len() == 1 && args[0] is Dict ==> {
            let loaded = crate::value::lookup(args[0]->Dict_0@, "loaded"@);
            let dir = crate::value::lookup(args[0]->Dict_0@, "dir"@);
            let flawed = |flaw: Flaw| Err::<News, Malformed>(
                Malformed { message: Message::ConfigResolved, flaw },
            );
            let r = news("config_resolved"@, args);
            &&& loaded is None ==> r == flawed(Flaw::Missing(Field::Loaded))
            &&& loaded is Some && !(loaded->0 is Boolean) ==> r == flawed(
                Flaw::NotBool(Field::Loaded),
            )
            &&& loaded is Some && loaded->0 is Boolean && dir is None ==> r == flawed(
                Flaw::Missing(Field::Dir),
            )
            &&& loaded is Some && loaded->0 is Boolean && dir is Some && !(dir->0 is Text) ==> r
                == flawed(Flaw::NotText(Field::Dir))
            &&& loaded is Some && loaded->0 is Boolean && dir is Some && dir->0 is Text ==> r
                == Ok::<News, Malformed>(
                News::ConfigResolved { dir: dir->0->Text_0@, loaded: loaded->0->Boolean_0 },
            )
        },
{
    lemma_known_names_differ();
}

/// A text field is the text behind its key, for each message and field; and a truth value likewise.
pub proof fn law_fields_are_read_by_their_keys(
    message: Message,
    fields: Seq<(Value, Value)>,
    field: Field,
)
    ensures
        match crate::value::lookup(fields, field.wire()) {
            None => {
                &&& text_field(message, fields, field) == Err::<Seq<char>, Malformed>(
                    Malformed { message, flaw: Flaw::Missing(field) },
                )
                &&& bool_field(message, fields, field) == Err::<bool, Malformed>(
                    Malformed { message, flaw: Flaw::Missing(field) },
                )
            },
            Some(Value::Text(text)) => {
                &&& text_field(message, fields, field) == Ok::<Seq<char>, Malformed>(text@)
                &&& bool_field(message, fields, field) == Err::<bool, Malformed>(
                    Malformed { message, flaw: Flaw::NotBool(field) },
                )
            },
            Some(Value::Boolean(b)) => {
                &&& text_field(message, fields, field) == Err::<Seq<char>, Malformed>(
                    Malformed { message, flaw: Flaw::NotText(field) },
                )
                &&& bool_field(message, fields, field) == Ok::<bool, Malformed>(b)
            },
            Some(_) => {
                &&& text_field(message, fields, field) == Err::<Seq<char>, Malformed>(
                    Malformed { message, flaw: Flaw::NotText(field) },
                )
                &&& bool_field(message, fields, field) == Err::<bool, Malformed>(
                    Malformed { message, flaw: Flaw::NotBool(field) },
                )
            },
        },
{
}

/// What a complaint says: the message's name first, then what is wrong, and the field by its key.
pub proof fn law_complaints(message: Message, field: Field, line: usize)
    ensures
        (Malformed { message: Message::SessionWrite, flaw: Flaw::Shape }).said() == "session_write"@
            + " expects "@ + "one array of lines"@ + ", got "@,
        (Malformed { message: Message::InitError, flaw: Flaw::Shape }).said() == "init_error"@
            + " expects "@ + "one map with kind/message"@ + ", got "@,
        (Malformed { message: Message::ConfigResolved, flaw: Flaw::Shape }).said()
            == "config_resolved"@ + " expects "@ + "one map with dir/loaded"@ + ", got "@,
        (Malformed { message: Message::ClipboardSet, flaw: Flaw::Shape }).said() == "clipboard_set"@
            + " expects "@ + "[lines]"@ + ", got "@,
        (Malformed { message, flaw: Flaw::Line(line) }).said() == message.wire()
            + " line is not a string: "@,
        (Malformed { message, flaw: Flaw::Missing(field) }).said() == message.wire()
            + " payload has no `"@ + field.wire() + "` field: "@,
        (Malformed { message, flaw: Flaw::NotText(field) }).said() == message.wire() + " `"@
            + field.wire() + "` is not a string: "@,
        (Malformed { message, flaw: Flaw::NotBool(field) }).said() == message.wire() + " `"@
            + field.wire() + "` is not a bool: "@,
{
}

/// A payload is nothing exactly if it has no value, or one that is nil.
pub proof fn law_what_a_nil_payload_is(args: Seq<Value>)
    ensures
        args.len() == 0 ==> is_nil_payload(args),
        args.len() == 1 ==> (is_nil_payload(args) <==> args[0] == Value::Nil),
        args.len() > 1 ==> !is_nil_payload(args),
{
}

/// What the errors that answer requests say: the unknown name, and the reason that was given.
pub proof fn law_request_errors(name: Seq<char>, why: String)
    ensures
        unknown_request(name)
            == "host が持つ request は clipboard_get / clipboard_set だけである: `"@ + name + "`"@,
        OffLoop::<()>::Failed(why).error() == "クリップボード操作に失敗した: "@ + why@,
        OffLoop::<()>::Lost(why).error() == "クリップボード操作のタスクが落ちた: "@ + why@,
        OffLoop::<String>::Failed(why).error() == "クリップボード操作に失敗した: "@ + why@,
        OffLoop::<String>::Lost(why).error() == "クリップボード操作のタスクが落ちた: "@ + why@,
{
}

/// A register is a list of two: the lines, one text for each in its place, and the letter of its
/// type.
pub proof fn law_a_register_is_lines_and_a_letter(
    value: Value,
    lines: Seq<Seq<char>>,
    regtype: crate::clipboard::RegType,
)
    requires
        is_register(value, lines, regtype),
    ensures
        value is List,
        value->List_0@.len() == 2,
        value->List_0@[0] is List,
        value->List_0@[0]->List_0@.len() == lines.len(),
        forall|i: int|
            0 <= i < lines.len() ==> #[trigger] value->List_0@[0]->List_0@[i] is Text
                && value->List_0@[0]->List_0@[i]->Text_0@ == lines[i],
        value->List_0@[1] is Text,
        value->List_0@[1]->Text_0@ == (match regtype {
            crate::clipboard::RegType::Charwise => "v"@,
            crate::clipboard::RegType::Linewise => "V"@,
        }),
{
    let items = value->List_0@[0]->List_0@;
    crate::value::law_the_first_non_text_is_found(items);
    crate::value::law_item_texts_are_the_items(items);
    assert forall|i: int| 0 <= i < lines.len() implies #[trigger] items[i] is Text
        && items[i]->Text_0@ == lines[i] by {
        assert(crate::value::item_texts(items)[i] == items[i]->Text_0@);
    }
}

/// What happened is seen with all that it carries.
pub proof fn law_events_are_seen_whole(lines: Vec<String>, a: String, b: String, flag: bool)
    ensures
        HostEvent::SessionWrite(lines)@ == News::SessionWrite(crate::text::texts(lines@)),
        HostEvent::SessionEnd@ == News::SessionEnd,
        HostEvent::NvimDying@ == News::NvimDying,
        HostEvent::Disconnected@ == News::Disconnected,
        (HostEvent::InitError { kind: a, message: b })@ == (News::InitError { kind: a@, message: b@ }),
        (HostEvent::ConfigResolved { dir: a, loaded: flag })@ == (News::ConfigResolved {
            dir: a@,
            loaded: flag,
        }),
{
}

} // verus!
