//! TOML documents as plain values.
//!
//! Parsing is the work of the `toml` crate. What it returns is turned, entry
//! by entry, into `TomlValue`s, and the rest of the library reads only those.

use crate::error::ValueKind;
use crate::error::XfmtError;
use crate::text::option_text;
use crate::text::same_text;
use vstd::prelude::*;
use vstd::string::*;

verus! {

/// One value of a document. A float and a datetime are held as the text that
/// their `Display` writes; of an array only its kind is kept; a table is kept
/// as the parser made it, and `entries` lists what it holds.
#[derive(Debug, PartialEq)]
pub enum TomlValue {
    String(String),
    Integer(i64),
    Float(String),
    Boolean(bool),
    Datetime(String),
    Array,
    Table(toml::Table),
}

/// A value with its strings as text.
pub enum TomlValueView {
    String(Seq<char>),
    Integer(i64),
    Float(Seq<char>),
    Boolean(bool),
    Datetime(Seq<char>),
    Array,
    Table(toml::Table),
}

impl View for TomlValue {
    type V = TomlValueView;

    open spec fn view(&self) -> TomlValueView {
        match *self {
            TomlValue::String(v) => TomlValueView::String(v@),
            TomlValue::Integer(v) => TomlValueView::Integer(v),
            TomlValue::Float(v) => TomlValueView::Float(v@),
            TomlValue::Boolean(v) => TomlValueView::Boolean(v),
            TomlValue::Datetime(v) => TomlValueView::Datetime(v@),
            TomlValue::Array => TomlValueView::Array,
            TomlValue::Table(v) => TomlValueView::Table(v),
        }
    }
}

/// The entries of a document: keys and values as text, in order.
pub open spec fn entries_view(items: Seq<(String, TomlValue)>) -> Seq<(Seq<char>, TomlValueView)> {
    items.map_values(|item: (String, TomlValue)| (item.0@, item.1@))
}

/// What a table holds: its keys with their values, in the order in which the
/// table is walked, which is the order of the source where it was parsed.
pub uninterp spec fn table_entries(table: toml::Table) -> Seq<(Seq<char>, TomlValueView)>;

/// What `toml::from_str` makes of a text: the entries of the document's top
/// level, or `None` where the text is rejected.
pub uninterp spec fn toml_document(text: Seq<char>) -> Option<Seq<(Seq<char>, TomlValueView)>>;

/// Calls `toml::from_str` for a table. It succeeds exactly where
/// `toml_document` is `Some`, and the table then holds those entries.
#[verifier::external_body]
fn parse_table(text: &str) -> (r: Result<toml::Table, toml::de::Error>)
    ensures
        match r {
            Ok(table) => toml_document(text@) == Some(table_entries(table)),
            Err(_) => toml_document(text@) is None,
        },
{
    toml::from_str::<toml::Table>(text)
}

/// Walks a table with `toml::map::Map::iter` and hands out copies of its
/// entries in that order: these are `table_entries`. Each value keeps its
/// variant. A string, an integer, a boolean and a table are copied as they
/// are; a float and a datetime are written out by their `Display`; of an
/// array nothing is kept.
#[verifier::external_body]
fn table_items(table: &toml::Table) -> (r: Vec<(String, TomlValue)>)
    ensures
        entries_view(r@) == table_entries(*table),
{
    table.iter().map(|(key, value)| (key.clone(), match value {
        toml::Value::String(v) => TomlValue::String(v.clone()),
        toml::Value::Integer(v) => TomlValue::Integer(*v),
        toml::Value::Float(v) => TomlValue::Float(v.to_string()),
        toml::Value::Boolean(v) => TomlValue::Boolean(*v),
        toml::Value::Datetime(v) => TomlValue::Datetime(v.to_string()),
        toml::Value::Array(_) => TomlValue::Array,
        toml::Value::Table(v) => TomlValue::Table(v.clone()),
    })).collect()
}

/// The message of a `toml::de::Error`, as its `Display` writes it. Nothing is
/// claimed of the text.
#[verifier::external_body]
fn error_message(error: &toml::de::Error) -> (r: String) {
    error.to_string()
}

/// Parses a document into the entries of its top level, in the order of the
/// text.
pub fn parse(text: &str) -> (r: Result<Vec<(String, TomlValue)>, XfmtError>)
    ensures
        match toml_document(text@) {
            Some(entries) => r matches Ok(items) && entries_view(items@) == entries,
            None => r == Err::<Vec<(String, TomlValue)>, XfmtError>(XfmtError::Parse),
        },
{
    match parse_table(text) {
        Ok(table) => Ok(table_items(&table)),
        Err(_) => Err(XfmtError::Parse),
    }
}

/// Why a text is no document, in the parser's words: `None` where it is one.
pub fn parse_failure(text: &str) -> (r: Option<String>)
    ensures
        r is Some <==> toml_document(text@) is None,
{
    match parse_table(text) {
        Ok(_) => None,
        Err(error) => Some(error_message(&error)),
    }
}

/// The character of a decimal digit.
pub open spec fn digit_char(digit: int) -> char {
    if digit == 0 {
        '0'
    } else if digit == 1 {
        '1'
    } else if digit == 2 {
        '2'
    } else if digit == 3 {
        '3'
    } else if digit == 4 {
        '4'
    } else if digit == 5 {
        '5'
    } else if digit == 6 {
        '6'
    } else if digit == 7 {
        '7'
    } else if digit == 8 {
        '8'
    } else {
        '9'
    }
}

/// A natural number in decimal, without leading zeros.
pub open spec fn decimal_digits(n: nat) -> Seq<char>
    decreases n,
{
    if n < 10 {
        seq![digit_char(n as int)]
    } else {
        decimal_digits(n / 10).push(digit_char((n % 10) as int))
    }
}

/// An integer in decimal, with a minus sign where it is negative.
pub open spec fn decimal(value: int) -> Seq<char> {
    if value < 0 {
        seq!['-'] + decimal_digits((-value) as nat)
    } else {
        decimal_digits(value as nat)
    }
}

fn digit_text(digit: u64) -> (r: &'static str)
    requires
        digit < 10,
    ensures
        r@ == seq![digit_char(digit as int)],
{
    proof {
        reveal_strlit("0");
        reveal_strlit("1");
        reveal_strlit("2");
        reveal_strlit("3");
        reveal_strlit("4");
        reveal_strlit("5");
        reveal_strlit("6");
        reveal_strlit("7");
        reveal_strlit("8");
        reveal_strlit("9");
    }
    let text = if digit == 0 {
        "0"
    } else if digit == 1 {
        "1"
    } else if digit == 2 {
        "2"
    } else if digit == 3 {
        "3"
    } else if digit == 4 {
        "4"
    } else if digit == 5 {
        "5"
    } else if digit == 6 {
        "6"
    } else if digit == 7 {
        "7"
    } else if digit == 8 {
        "8"
    } else {
        "9"
    };
    assert(text@ =~= seq![digit_char(digit as int)]);
    text
}

fn natural_text(n: u64) -> (r: String)
    ensures
        r@ == decimal_digits(n as nat),
    decreases n,
{
    if n < 10 {
        digit_text(n).to_owned()
    } else {
        let mut text = natural_text(n / 10);
        text.append(digit_text(n % 10));
        text
    }
}

/// Writes an integer in decimal, as `Display` does.
pub fn integer_text(value: i64) -> (r: String)
    ensures
        r@ == decimal(value as int),
{
    if value < 0 {
        let magnitude: u64 = (-(value as i128)) as u64;
        let digits = natural_text(magnitude);
        proof {
            reveal_strlit("-");
            assert("-"@ =~= seq!['-']);
        }
        "-".to_owned().concat(digits.as_str())
    } else {
        natural_text(value as u64)
    }
}

/// Writes a boolean as `true` or `false`.
pub fn boolean_text(value: bool) -> (r: String)
    ensures
        r@ == boolean_word(value),
{
    proof {
        reveal_strlit("true");
        reveal_strlit("false");
    }
    let text = if value {
        "true"
    } else {
        "false"
    };
    assert(text@ =~= boolean_word(value));
    text.to_owned()
}

/// The word for a boolean.
pub open spec fn boolean_word(value: bool) -> Seq<char> {
    if value {
        seq!['t', 'r', 'u', 'e']
    } else {
        seq!['f', 'a', 'l', 's', 'e']
    }
}

impl TomlValueView {
    /// The kind of the value.
    pub open spec fn kind(self) -> ValueKind {
        match self {
            TomlValueView::String(_) => ValueKind::String,
            TomlValueView::Integer(_) => ValueKind::Integer,
            TomlValueView::Float(_) => ValueKind::Float,
            TomlValueView::Boolean(_) => ValueKind::Boolean,
            TomlValueView::Datetime(_) => ValueKind::Datetime,
            TomlValueView::Array => ValueKind::Array,
            TomlValueView::Table(_) => ValueKind::Table,
        }
    }

    /// The text of a scalar: a string as it is, an integer in decimal, a
    /// boolean as its word, a float and a datetime as they were written out.
    /// An array or a table has none.
    pub open spec fn scalar_text(self) -> Option<Seq<char>> {
        match self {
            TomlValueView::String(v) => Some(v),
            TomlValueView::Integer(v) => Some(decimal(v as int)),
            TomlValueView::Float(v) => Some(v),
            TomlValueView::Boolean(v) => Some(boolean_word(v)),
            TomlValueView::Datetime(v) => Some(v),
            TomlValueView::Array => None,
            TomlValueView::Table(_) => None,
        }
    }
}

impl TomlValue {
    /// The kind of the value.
    pub fn kind(&self) -> (r: ValueKind)
        ensures
            r == self@.kind(),
    {
        match self {
            TomlValue::String(_) => ValueKind::String,
            TomlValue::Integer(_) => ValueKind::Integer,
            TomlValue::Float(_) => ValueKind::Float,
            TomlValue::Boolean(_) => ValueKind::Boolean,
            TomlValue::Datetime(_) => ValueKind::Datetime,
            TomlValue::Array => ValueKind::Array,
            TomlValue::Table(_) => ValueKind::Table,
        }
    }

    /// The entries of a table, in its order; `None` for any other value.
    pub fn entries(&self) -> (r: Option<Vec<(String, TomlValue)>>)
        ensures
            match self@ {
                TomlValueView::Table(table) => r matches Some(items) && entries_view(items@)
                    == table_entries(table),
                _ => r is None,
            },
    {
        match self {
            TomlValue::Table(table) => Some(table_items(table)),
            _ => None,
        }
    }

    /// The text of a scalar; `None` for an array or a table.
    pub fn scalar_text(&self) -> (r: Option<String>)
        ensures
            option_text(r) == self@.scalar_text(),
    {
        match self {
            TomlValue::String(v) => Some(v.clone()),
            TomlValue::Integer(v) => Some(integer_text(*v)),
            TomlValue::Float(v) => Some(v.clone()),
            TomlValue::Boolean(v) => Some(boolean_text(*v)),
            TomlValue::Datetime(v) => Some(v.clone()),
            TomlValue::Array => None,
            TomlValue::Table(_) => None,
        }
    }
}

/// The value of the first entry whose key is `key`.
pub open spec fn lookup(entries: Seq<(Seq<char>, TomlValueView)>, key: Seq<char>) -> Option<
    TomlValueView,
>
    decreases entries.len(),
{
    if entries.len() == 0 {
        None
    } else if entries[0].0 == key {
        Some(entries[0].1)
    } else {
        lookup(entries.drop_first(), key)
    }
}

/// The value of the first entry whose key is `key`.
pub fn find_value<'a>(items: &'a Vec<(String, TomlValue)>, key: &str) -> (r: Option<&'a TomlValue>)
    ensures
        match r {
            Some(value) => lookup(entries_view(items@), key@) == Some(value@),
            None => lookup(entries_view(items@), key@) is None,
        },
{
    let ghost entries = entries_view(items@);
    let mut index: usize = 0;
    assert(entries.skip(0) =~= entries);
    while index < items.len()
        invariant
            index <= items.len(),
            entries == entries_view(items@),
            lookup(entries, key@) == lookup(entries.skip(index as int), key@),
        decreases items.len() - index,
    {
        let ghost rest = entries.skip(index as int);
        assert(rest[0] == (items@[index as int].0@, items@[index as int].1@));
        assert(rest.drop_first() =~= entries.skip(index + 1));
        if same_text(items[index].0.as_str(), key) {
            return Some(&items[index].1);
        }
        index += 1;
    }
    None
}

} // verus!
