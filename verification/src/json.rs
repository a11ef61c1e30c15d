//! JSON documents, read and written by `serde_json`.
//!
//! The library reads a document by looking values up at JSON pointers, and
//! writes one as a flat object of named values. Both ways a value is a
//! [`Field`]: a string by its content, anything else by its JSON text.

use vstd::prelude::*;

verus! {

/// A value found in a JSON document.
#[derive(Debug)]
pub enum Field {
    /// A JSON string, by its content.
    Text(String),
    /// Any other JSON value, by its compact JSON text.
    Raw(String),
}

/// A [`Field`] as specifications see it.
pub enum FieldView {
    Text(Seq<char>),
    Raw(Seq<char>),
}

impl View for Field {
    type V = FieldView;

    open spec fn view(&self) -> FieldView {
        match self {
            Field::Text(text) => FieldView::Text(text@),
            Field::Raw(json) => FieldView::Raw(json@),
        }
    }
}

/// An optional field as specifications see it.
pub open spec fn optional_view(field: Option<Field>) -> Option<FieldView> {
    match field {
        Some(value) => Some(value@),
        None => None,
    }
}

/// The looked-up fields of a document as specifications see them.
pub open spec fn fields_view(fields: Seq<Option<Field>>) -> Seq<Option<FieldView>> {
    fields.map_values(|field: Option<Field>| optional_view(field))
}

/// The text of each pointer.
pub open spec fn pointers_view(pointers: Seq<&str>) -> Seq<Seq<char>> {
    pointers.map_values(|pointer: &str| pointer@)
}

/// What `serde_json` finds in the document `body` at each of `pointers`:
/// nothing at all where `body` is not JSON, else one entry per pointer, in
/// order, empty where the document has no value there.
pub uninterp spec fn json_lookup(body: Seq<u8>, pointers: Seq<Seq<char>>) -> Option<
    Seq<Option<FieldView>>,
>;

/// Parses `body` with `serde_json::from_slice` and looks each pointer up with
/// `serde_json::Value::pointer`. A string is handed out by its content, any
/// other value by the text that `serde_json` prints for it. Nothing is proved
/// of it: the contract names what was found, and says that there is one entry
/// for each pointer.
#[verifier::external_body]
pub(crate) fn lookup(body: &[u8], pointers: &Vec<&'static str>) -> (found: Option<Vec<Option<Field>>>)
    ensures
        match found {
            Some(fields) => json_lookup(body@, pointers_view(pointers@)) == Some(
                fields_view(fields@),
            ) && fields@.len() == pointers@.len(),
            None => json_lookup(body@, pointers_view(pointers@)) is None,
        },
{
    let document: serde_json::Value = serde_json::from_slice(body).ok()?;
    let mut found = Vec::new();
    for pointer in pointers {
        found.push(match document.pointer(pointer) {
            Some(serde_json::Value::String(text)) => Some(Field::Text(text.clone())),
            Some(other) => Some(Field::Raw(other.to_string())),
            None => None,
        });
    }
    Some(found)
}

/// Optional text as specifications see it.
pub open spec fn text_view(text: Option<String>) -> Option<Seq<char>> {
    match text {
        Some(s) => Some(s@),
        None => None,
    }
}

/// The entries of an object as specifications see them.
pub open spec fn entries_view(entries: Seq<(String, Field)>) -> Seq<(Seq<char>, FieldView)> {
    entries.map_values(|entry: (String, Field)| (entry.0@, entry.1@))
}

/// The compact JSON text that `serde_json` prints for the object with the
/// given entries, a later entry replacing an earlier one of the same name;
/// nothing where the JSON text of some entry is not JSON.
pub uninterp spec fn json_object(entries: Seq<(Seq<char>, FieldView)>) -> Option<Seq<char>>;

/// Fills a `serde_json::Map` with `insert`, reading the JSON text of an entry
/// with `serde_json::from_str`, and prints it with `serde_json::to_string`.
/// Nothing is proved of it: the contract only names the text that comes out.
#[verifier::external_body]
pub(crate) fn render_object(entries: &Vec<(String, Field)>) -> (text: Option<String>)
    ensures
        text_view(text) == json_object(entries_view(entries@)),
{
    let mut object = serde_json::Map::new();
    for (name, value) in entries {
        object.insert(name.clone(), match value {
            Field::Text(text) => serde_json::Value::String(text.clone()),
            Field::Raw(json) => serde_json::from_str(json).ok()?,
        });
    }
    serde_json::to_string(&object).ok()
}

} // verus!
