use vstd::prelude::*;

verus! {

/// `toml::Value`: a value of a TOML document. Nothing inside it is visible here; what it
/// holds is read through the functions below.
#[verifier::external_type_specification]
#[verifier::external_body]
pub struct ExValue(toml::Value);

/// The text that a TOML string value holds; `None` for a value of another kind.
pub uninterp spec fn value_text(v: toml::Value) -> Option<Seq<char>>;

/// The items that a TOML array holds, in order; `None` for a value of another kind.
pub uninterp spec fn value_items(v: toml::Value) -> Option<Seq<toml::Value>>;

/// The entries that a TOML table holds, by key; `None` for a value of another kind.
pub uninterp spec fn value_fields(v: toml::Value) -> Option<Map<Seq<char>, toml::Value>>;

/// The table that `toml::Table`'s `FromStr` reads from a text, if it accepts the text.
pub uninterp spec fn document_parsed(text: Seq<char>) -> Option<toml::Value>;

/// The text that `toml::to_string` writes for a value, if it writes one.
pub uninterp spec fn document_rendered(v: toml::Value) -> Option<Seq<char>>;

/// The entry of a table under a key, if it has one.
pub open spec fn lookup(fields: Map<Seq<char>, toml::Value>, key: Seq<char>) -> Option<toml::Value> {
    if fields.contains_key(key) {
        Some(fields[key])
    } else {
        None
    }
}

/// Parses a document with `toml::Table`'s `FromStr`. Not proved: that the result is what
/// that crate reads, and that what it reads is a table.
#[verifier::external_body]
pub(crate) fn parse_document(text: &str) -> (r: Option<toml::Value>)
    ensures
        r == document_parsed(text@),
        r is Some ==> value_fields(r.unwrap()) is Some,
{
    match text.parse::<toml::Table>() {
        Ok(table) => Some(toml::Value::Table(table)),
        Err(_) => None,
    }
}

/// Writes a document with `toml::to_string`. Not proved: that the result is what that
/// crate writes.
#[verifier::external_body]
pub(crate) fn render_document(v: &toml::Value) -> (r: Option<String>)
    ensures
        match r {
            Some(text) => document_rendered(*v) == Some(text@),
            None => document_rendered(*v) is None,
        },
{
    match toml::to_string(v) {
        Ok(text) => Some(text),
        Err(_) => None,
    }
}

/// Reads a string value with `toml::Value::as_str`. Not proved: that the result is the
/// text the value holds, and `None` for every other kind of value.
#[verifier::external_body]
pub(crate) fn text_of(v: &toml::Value) -> (r: Option<String>)
    ensures
        match r {
            Some(text) => value_text(*v) == Some(text@),
            None => value_text(*v) is None,
        },
{
    match v.as_str() {
        Some(text) => Some(text.to_owned()),
        None => None,
    }
}

/// Reads an array with `toml::Value::as_array`. Not proved: that the result holds the
/// array's items in order, and is `None` for every other kind of value.
#[verifier::external_body]
pub(crate) fn items_of(v: &toml::Value) -> (r: Option<Vec<toml::Value>>)
    ensures
        match r {
            Some(items) => value_items(*v) == Some(items@),
            None => value_items(*v) is None,
        },
{
    match v.as_array() {
        Some(items) => Some(items.clone()),
        None => None,
    }
}

/// Looks a key up with `toml::Value::get`. Not proved: that the result is the table's
/// entry under the key, and `None` where the value is no table or has no such key.
#[verifier::external_body]
pub(crate) fn field_of(v: &toml::Value, key: &str) -> (r: Option<toml::Value>)
    ensures
        r == match value_fields(*v) {
            Some(fields) => lookup(fields, key@),
            None => None,
        },
{
    match v.get(key) {
        Some(item) => Some(item.clone()),
        None => None,
    }
}

/// Makes a string value, `toml::Value::String`. Not proved: that it holds the text and is
/// neither array nor table.
#[verifier::external_body]
pub(crate) fn text_value(text: &str) -> (v: toml::Value)
    ensures
        value_text(v) == Some(text@),
        value_items(v) is None,
        value_fields(v) is None,
{
    toml::Value::String(text.to_owned())
}

/// Makes an array, `toml::Value::Array`. Not proved: that it holds the items in order and
/// is neither string nor table.
#[verifier::external_body]
pub(crate) fn list_value(items: Vec<toml::Value>) -> (v: toml::Value)
    ensures
        value_items(v) == Some(items@),
        value_text(v) is None,
        value_fields(v) is None,
{
    toml::Value::Array(items)
}

/// Makes an empty table, `toml::Table::new`. Not proved: that it holds no entry and is
/// neither string nor array.
#[verifier::external_body]
pub(crate) fn empty_table() -> (v: toml::Value)
    ensures
        value_fields(v) == Some(Map::<Seq<char>, toml::Value>::empty()),
        value_text(v) is None,
        value_items(v) is None,
{
    toml::Value::Table(toml::Table::new())
}

/// Sets a table's entry with `toml::Table::insert`. Not proved: that afterwards the table
/// holds the item under the key, in place of what was there, and every other entry as
/// before.
#[verifier::external_body]
pub(crate) fn set_field(v: &mut toml::Value, key: &str, item: toml::Value)
    requires
        value_fields(*old(v)) is Some,
    ensures
        value_fields(*final(v)) == Some(value_fields(*old(v)).unwrap().insert(key@, item)),
        value_text(*final(v)) is None,
        value_items(*final(v)) is None,
{
    if let Some(table) = v.as_table_mut() {
        table.insert(key.to_owned(), item);
    }
}

/// A document without any entry: the table to start from where nothing was written yet.
pub fn empty_document() -> (doc: toml::Value)
    ensures
        value_fields(doc) == Some(Map::<Seq<char>, toml::Value>::empty()),
        value_text(doc) is None,
        value_items(doc) is None,
{
    empty_table()
}

} // verus!
