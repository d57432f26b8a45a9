//! The values that travel between Neovim and its host.
//!
//! They are MessagePack values. What the host reads of them are truth values, integers, texts,
//! lists and dictionaries; everything else is [`Value::Other`], which no reader accepts.
use vstd::prelude::*;

verus! {

/// One value.
#[derive(Debug, PartialEq, Eq)]
pub enum Value {
    Nil,
    Boolean(bool),
    /// MessagePack integers reach from `-2^63` to `2^64 - 1`.
    Integer(i128),
    /// A text in valid UTF-8.
    Text(String),
    List(Vec<Value>),
    /// Key and value pairs, in the order in which they came.
    Dict(Vec<(Value, Value)>),
    /// A floating-point number, raw bytes, an extension, or a text that is not valid UTF-8.
    Other,
}

impl Value {
    /// The text that a value is, if it is one.
    pub open spec fn text(self) -> Option<Seq<char>> {
        match self {
            Value::Text(text) => Some(text@),
            _ => None,
        }
    }

    /// The text that a value is, if it is one.
    pub fn as_str(&self) -> (r: Option<&str>)
        ensures
            r is Some <==> self.text() is Some,
            r is Some ==> r->0@ == self.text()->0,
    {
        match self {
            Value::Text(text) => Some(text.as_str()),
            _ => None,
        }
    }

    /// The truth value that a value is, if it is one.
    pub fn as_bool(&self) -> (r: Option<bool>)
        ensures
            r == (match *self {
                Value::Boolean(b) => Some(b),
                _ => None,
            }),
    {
        match self {
            Value::Boolean(b) => Some(*b),
            _ => None,
        }
    }

    /// The integer that a value is, if it is one and an `i64` holds it.
    pub fn as_i64(&self) -> (r: Option<i64>)
        ensures
            r is Some <==> (*self matches Value::Integer(n) && i64::MIN <= n <= i64::MAX),
            r is Some ==> r->0 == self->Integer_0,
    {
        match self {
            Value::Integer(n) => {
                let n: i128 = *n;
                if i64::MIN as i128 <= n && n <= i64::MAX as i128 {
                    Some(n as i64)
                } else {
                    None
                }
            },
            _ => None,
        }
    }
}

// ---------------------------------------------------------------------------
// Lists of lines
// ---------------------------------------------------------------------------

/// The first position from `from` on that holds no text.
pub open spec fn first_non_text(items: Seq<Value>, from: nat) -> Option<nat>
    decreases items.len() - from,
{
    if from >= items.len() {
        None
    } else if items[from as int].text() is None {
        Some(from)
    } else {
        first_non_text(items, from + 1)
    }
}

/// The texts of a list whose items all are texts.
pub open spec fn item_texts(items: Seq<Value>) -> Seq<Seq<char>> {
    items.map_values(|item: Value| item.text()->0)
}

/// Reads a list of lines, or says which item is no text.
pub fn read_lines(items: &Vec<Value>) -> (r: Result<Vec<String>, usize>)
    ensures
        r is Ok <==> first_non_text(items@, 0) is None,
        r is Ok ==> crate::text::texts(r->Ok_0@) == item_texts(items@),
        r is Err ==> first_non_text(items@, 0) == Some(r->Err_0 as nat),
{
    let mut lines: Vec<String> = Vec::with_capacity(items.len());
    for i in 0..items.len()
        invariant
            first_non_text(items@, 0) == first_non_text(items@, i as nat),
            lines.len() == i,
            forall|j: int| 0 <= j < i ==> (#[trigger] lines@[j])@ == items@[j].text()->0,
    {
        match items[i].as_str() {
            Some(line) => lines.push(line.to_owned()),
            None => {
                return Err(i);
            },
        }
    }
    assert(crate::text::texts(lines@) =~= item_texts(items@));
    Ok(lines)
}

/// Writes a list of lines. [`read_lines`] reads it back.
pub fn write_lines(lines: &Vec<String>) -> (items: Vec<Value>)
    ensures
        items.len() == lines.len(),
        first_non_text(items@, 0) is None,
        item_texts(items@) == crate::text::texts(lines@),
{
    let mut items: Vec<Value> = Vec::with_capacity(lines.len());
    for i in 0..lines.len()
        invariant
            items.len() == i,
            forall|j: int| 0 <= j < i ==> (#[trigger] items@[j]).text() == Some(lines@[j]@),
    {
        items.push(Value::Text(lines[i].clone()));
    }
    proof {
        lemma_all_text(items@, 0);
        assert(item_texts(items@) =~= crate::text::texts(lines@));
    }
    items
}

/// A list of texts has no position without one.
proof fn lemma_all_text(items: Seq<Value>, from: nat)
    requires
        forall|j: int| 0 <= j < items.len() ==> (#[trigger] items[j]).text() is Some,
    ensures
        first_non_text(items, from) is None,
    decreases items.len() - from,
{
    if from < items.len() {
        lemma_all_text(items, from + 1);
    }
}

// ---------------------------------------------------------------------------
// Dictionaries
// ---------------------------------------------------------------------------

/// The first position from `from` on whose key is the text `key`.
pub open spec fn position(fields: Seq<(Value, Value)>, key: Seq<char>, from: nat) -> Option<nat>
    decreases fields.len() - from,
{
    if from >= fields.len() {
        None
    } else if fields[from as int].0.text() == Some(key) {
        Some(from)
    } else {
        position(fields, key, from + 1)
    }
}

/// The value under a key. Where a key occurs twice, the first one counts.
pub open spec fn lookup(fields: Seq<(Value, Value)>, key: Seq<char>) -> Option<Value> {
    match position(fields, key, 0) {
        Some(i) => Some(fields[i as int].1),
        None => None,
    }
}

/// The position of a key. Where a key occurs twice, the first one counts.
pub fn find(fields: &Vec<(Value, Value)>, key: &str) -> (r: Option<usize>)
    ensures
        r is Some <==> position(fields@, key@, 0) is Some,
        r matches Some(i) ==> i < fields.len() && position(fields@, key@, 0) == Some(i as nat),
{
    for i in 0..fields.len()
        invariant
            position(fields@, key@, 0) == position(fields@, key@, i as nat),
    {
        if let Some(name) = fields[i].0.as_str() {
            if crate::text::same(name, key) {
                return Some(i);
            }
        }
    }
    None
}

/// The value under a key. Where a key occurs twice, the first one counts.
pub fn field<'a>(fields: &'a Vec<(Value, Value)>, key: &str) -> (r: Option<&'a Value>)
    ensures
        r is Some <==> lookup(fields@, key@) is Some,
        r is Some ==> *r->0 == lookup(fields@, key@)->0,
{
    match find(fields, key) {
        Some(i) => Some(&fields[i].1),
        None => None,
    }
}

// ---------------------------------------------------------------------------
// Laws
// ---------------------------------------------------------------------------

/// A value has a text exactly if it is one, and then that text.
pub proof fn law_only_texts_have_a_text(value: Value)
    ensures
        value.text() is Some <==> value is Text,
        value matches Value::Text(text) ==> value.text() == Some(text@),
{
}

/// The texts of a list are as many as its items, each in its item's place.
pub proof fn law_item_texts_are_the_items(items: Seq<Value>)
    ensures
        item_texts(items).len() == items.len(),
        forall|i: int|
            0 <= i < items.len() && items[i] is Text ==> #[trigger] item_texts(items)[i]
                == items[i]->Text_0@,
{
}

/// The first item without a text is one, and every item before it has a text; there is none exactly
/// if every item has one.
pub proof fn law_the_first_non_text_is_found(items: Seq<Value>)
    ensures
        match first_non_text(items, 0) {
            Some(i) => {
                &&& i < items.len()
                &&& !(items[i as int] is Text)
                &&& forall|j: int| 0 <= j < i ==> #[trigger] items[j] is Text
            },
            None => forall|j: int| 0 <= j < items.len() ==> #[trigger] items[j] is Text,
        },
{
    lemma_first_non_text_from(items, 0);
}

proof fn lemma_first_non_text_from(items: Seq<Value>, from: nat)
    ensures
        match first_non_text(items, from) {
            Some(i) => {
                &&& from <= i < items.len()
                &&& !(items[i as int] is Text)
                &&& forall|j: int| from <= j < i ==> #[trigger] items[j] is Text
            },
            None => forall|j: int| from <= j < items.len() ==> #[trigger] items[j] is Text,
        },
    decreases items.len() - from,
{
    if from < items.len() {
        lemma_first_non_text_from(items, from + 1);
    }
}

/// A key is looked up by its text alone, and the first of several counts: the value that is found
/// stands behind the key, no pair before it has the key, and where none is found no pair has it.
pub proof fn law_the_first_key_counts(fields: Seq<(Value, Value)>, key: Seq<char>)
    ensures
        match position(fields, key, 0) {
            Some(i) => {
                &&& i < fields.len()
                &&& fields[i as int].0 is Text
                &&& fields[i as int].0->Text_0@ == key
                &&& lookup(fields, key) == Some(fields[i as int].1)
                &&& forall|j: int|
                    0 <= j < i ==> !((#[trigger] fields[j]).0 is Text && fields[j].0->Text_0@
                        == key)
            },
            None => {
                &&& lookup(fields, key) is None
                &&& forall|j: int|
                    0 <= j < fields.len() ==> !((#[trigger] fields[j]).0 is Text
                        && fields[j].0->Text_0@ == key)
            },
        },
{
    lemma_position_from(fields, key, 0);
}

proof fn lemma_position_from(fields: Seq<(Value, Value)>, key: Seq<char>, from: nat)
    ensures
        match position(fields, key, from) {
            Some(i) => {
                &&& from <= i < fields.len()
                &&& fields[i as int].0 is Text
                &&& fields[i as int].0->Text_0@ == key
                &&& forall|j: int|
                    from <= j < i ==> !((#[trigger] fields[j]).0 is Text && fields[j].0->Text_0@
                        == key)
            },
            None => forall|j: int|
                from <= j < fields.len() ==> !((#[trigger] fields[j]).0 is Text
                    && fields[j].0->Text_0@ == key),
        },
    decreases fields.len() - from,
{
    if from < fields.len() {
        lemma_position_from(fields, key, from + 1);
    }
}

} // verus!
