//! Flat TOML records: a document whose top-level keys carry the fields of a value.
//!
//! The TOML grammar itself is the `toml` crate's business. This module declares the
//! crate's table type, names what its parser and its writer compute, and wraps the
//! few table methods the record types need. Everything marked `external_body` here
//! is believed, not proved.

use vstd::prelude::*;

verus! {

/// `toml::Value`, one value of a TOML document. Opaque to the verifier.
#[verifier::external_type_specification]
#[verifier::external_body]
pub struct ExTomlValue(toml::Value);

/// `toml::map::Map`, the table type of the `toml` crate. Opaque to the verifier;
/// what a table holds is spoken of through [`table_fields`].
#[verifier::external_type_specification]
#[verifier::external_body]
#[verifier::reject_recursive_types(K)]
#[verifier::reject_recursive_types(V)]
pub struct ExTomlMap<K, V>(toml::map::Map<K, V>);

/// `toml::ser::Error`, the failure of the `toml` writer.
#[verifier::external_type_specification]
#[verifier::external_body]
pub struct ExTomlWriteError(toml::ser::Error);

/// The fields of a record as mathematics: each top-level key with `Some(text)` where
/// its value is a TOML string and `None` where it is a value of any other kind.
pub type Fields = Map<Seq<char>, Option<Seq<char>>>;

/// What a table holds, as [`Fields`].
pub uninterp spec fn table_fields(table: toml::map::Map<String, toml::Value>) -> Fields;

/// What `toml::from_str` makes of a text read as a `toml::Value`: `None` where the
/// text is not a TOML document, else the top-level fields of the document.
pub uninterp spec fn toml_parsed(text: Seq<char>) -> Option<Fields>;

/// The text that `toml::to_string` writes for a table holding exactly these fields.
pub uninterp spec fn toml_written(fields: Fields) -> Seq<char>;

/// Every field is a TOML string.
pub open spec fn all_text(fields: Fields) -> bool {
    forall|key: Seq<char>| fields.dom().contains(key) ==> (#[trigger] fields[key]) is Some
}

/// Whether a key is one of the five that the two record types are written with.
pub open spec fn is_record_key(key: Seq<char>) -> bool {
    ||| key == "subject_credentials"@
    ||| key == "public_key"@
    ||| key == "issuer_credentials"@
    ||| key == "signature"@
    ||| key == "signatory_credentials"@
}

/// Every key is one of the five record keys.
pub open spec fn record_keys_only(fields: Fields) -> bool {
    forall|key: Seq<char>| #[trigger] fields.dom().contains(key) ==> is_record_key(key)
}

/// One field of a record, as looked up by its key.
#[derive(Debug, Clone, PartialEq, Eq)]
pub enum Field {
    /// The record has no such key.
    Missing,
    /// The key carries a TOML string.
    Text(String),
    /// The key carries a value of another kind: a number, a date, an array, a table.
    Other,
}

/// A [`Field`] as mathematics.
pub enum FieldView {
    Missing,
    Text(Seq<char>),
    Other,
}

impl View for Field {
    type V = FieldView;

    open spec fn view(&self) -> FieldView {
        match self {
            Field::Missing => FieldView::Missing,
            Field::Text(text) => FieldView::Text(text@),
            Field::Other => FieldView::Other,
        }
    }
}

/// The field that `fields` holds under `key`.
pub open spec fn field_of(fields: Fields, key: Seq<char>) -> FieldView {
    if !fields.dom().contains(key) {
        FieldView::Missing
    } else {
        match fields[key] {
            Some(text) => FieldView::Text(text),
            None => FieldView::Other,
        }
    }
}

/// Calls `toml::from_str` for a `toml::Value` and hands out the document's root table.
///
/// Believed: the call succeeds exactly on the texts for which [`toml_parsed`] is
/// `Some`, and the table then holds the fields that [`toml_parsed`] names. Reading a
/// `toml::Value` (rather than a bare table) makes a key that occurs twice an error.
#[verifier::external_body]
pub(crate) fn parse_table(text: &str) -> (table: Option<toml::map::Map<String, toml::Value>>)
    ensures
        table is Some <==> toml_parsed(text@) is Some,
        table matches Some(t) ==> Some(table_fields(t)) == toml_parsed(text@),
{
    match toml::from_str::<toml::Value>(text) {
        Ok(toml::Value::Table(table)) => Some(table),
        _ => None,
    }
}

/// Calls `toml::map::Map::get` and tells a string value from the other kinds.
///
/// Believed: the answer is the table's entry under `key`.
#[verifier::external_body]
pub(crate) fn table_field(table: &toml::map::Map<String, toml::Value>, key: &str) -> (field: Field)
    ensures
        field@ == field_of(table_fields(*table), key@),
{
    match table.get(key) {
        None => Field::Missing,
        Some(toml::Value::String(text)) => Field::Text(text.clone()),
        Some(_) => Field::Other,
    }
}

/// Calls `toml::map::Map::new`. Believed: the new table holds nothing.
#[verifier::external_body]
pub(crate) fn table_new() -> (table: toml::map::Map<String, toml::Value>)
    ensures
        table_fields(table) == Fields::empty(),
{
    toml::map::Map::new()
}

/// Calls `toml::map::Map::insert` with a string value.
///
/// Believed: afterwards the table holds `text` under `key`, in place of whatever it
/// held there before, and every other entry is untouched.
#[verifier::external_body]
pub(crate) fn table_insert(table: &mut toml::map::Map<String, toml::Value>, key: &str, text: &str)
    ensures
        table_fields(*final(table)) == table_fields(*old(table)).insert(key@, Some(text@)),
{
    table.insert(key.to_owned(), toml::Value::String(text.to_owned()));
}

/// Calls `toml::to_string` on a table.
///
/// Believed, for a table whose keys are among the five record keys and whose values
/// are all strings: the writer does not fail; the text is a function of the fields
/// alone, named [`toml_written`]; and the parser reads that text back as the same
/// fields. The writer puts each of these keys bare and each string between double
/// quotes on one line, and escapes quotes, backslashes and control characters, which
/// are exactly the escapes the parser undoes. Other keys are left out: the parser
/// keeps one key for itself and reads a table that begins with it as a date.
#[verifier::external_body]
pub(crate) fn table_write(table: &toml::map::Map<String, toml::Value>) -> (text: Result<String, toml::ser::Error>)
    requires
        all_text(table_fields(*table)),
        record_keys_only(table_fields(*table)),
    ensures
        text is Ok,
        text matches Ok(t) ==> t@ == toml_written(table_fields(*table)),
        text matches Ok(t) ==> toml_parsed(t@) == Some(table_fields(*table)),
{
    toml::to_string(table)
}

/// Why a text could not be read as a record.
#[derive(Debug, Clone, Copy, PartialEq, Eq)]
pub enum ParseError {
    /// The text is not a TOML document.
    Malformed,
    /// A field that must be there is absent.
    MissingField,
    /// A field is there, but its value is not a string.
    NotText,
}

/// The text of a field that must be present.
pub open spec fn required_text(field: FieldView) -> Result<Seq<char>, ParseError> {
    match field {
        FieldView::Text(text) => Ok(text),
        FieldView::Missing => Err(ParseError::MissingField),
        FieldView::Other => Err(ParseError::NotText),
    }
}

/// The text of a field that may be absent.
pub open spec fn optional_text(field: FieldView) -> Result<Option<Seq<char>>, ParseError> {
    match field {
        FieldView::Text(text) => Ok(Some(text)),
        FieldView::Missing => Ok(None),
        FieldView::Other => Err(ParseError::NotText),
    }
}

/// Takes the text out of a field that must be present.
pub fn take_required(field: Field) -> (result: Result<String, ParseError>)
    ensures
        match result {
            Ok(text) => required_text(field@) == Ok::<Seq<char>, ParseError>(text@),
            Err(e) => required_text(field@) == Err::<Seq<char>, ParseError>(e),
        },
{
    match field {
        Field::Text(text) => Ok(text),
        Field::Missing => Err(ParseError::MissingField),
        Field::Other => Err(ParseError::NotText),
    }
}

/// Takes the text out of a field that may be absent.
pub fn take_optional(field: Field) -> (result: Result<Option<String>, ParseError>)
    ensures
        match result {
            Ok(Some(text)) => optional_text(field@) == Ok::<Option<Seq<char>>, ParseError>(
                Some(text@),
            ),
            Ok(None) => optional_text(field@) == Ok::<Option<Seq<char>>, ParseError>(None),
            Err(e) => optional_text(field@) == Err::<Option<Seq<char>>, ParseError>(e),
        },
{
    match field {
        Field::Text(text) => Ok(Some(text)),
        Field::Missing => Ok(None),
        Field::Other => Err(ParseError::NotText),
    }
}

/// The five keys of the two record types differ in length, so no two of them are
/// the same text.
pub proof fn lemma_keys_differ()
    ensures
        "subject_credentials"@.len() == 19,
        "public_key"@.len() == 10,
        "issuer_credentials"@.len() == 18,
        "signature"@.len() == 9,
        "signatory_credentials"@.len() == 21,
{
    reveal_strlit("subject_credentials");
    reveal_strlit("public_key");
    reveal_strlit("issuer_credentials");
    reveal_strlit("signature");
    reveal_strlit("signatory_credentials");
}

} // verus!
