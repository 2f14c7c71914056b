use vstd::prelude::*;

verus! {

/// What a JSON request body holds under one key of its top-level object.
#[derive(Clone, Debug, PartialEq, Eq)]
pub enum JsonEntry {
    /// The body is not an object, or the object has no such key.
    Missing,
    /// The key is present, but its value is not a JSON string.
    NotText,
    /// The key is present and holds this string.
    Text(String),
}

/// Mathematical model of a [`JsonEntry`].
pub enum JsonEntryView {
    Missing,
    NotText,
    Text(Seq<char>),
}

impl View for JsonEntry {
    type V = JsonEntryView;

    open spec fn view(&self) -> JsonEntryView {
        match self {
            JsonEntry::Missing => JsonEntryView::Missing,
            JsonEntry::NotText => JsonEntryView::NotText,
            JsonEntry::Text(s) => JsonEntryView::Text(s@),
        }
    }
}

/// The view of an optional entry: `None` stands for a body that is not JSON.
pub open spec fn entry_view(e: Option<JsonEntry>) -> Option<JsonEntryView> {
    match e {
        None => None,
        Some(x) => Some(x@),
    }
}

/// What serde_json makes of `body` looked up at `key`: `None` where the bytes
/// do not decode as one JSON value, else the entry found under `key`.
pub uninterp spec fn json_entry(body: Seq<u8>, key: Seq<char>) -> Option<JsonEntryView>;

/// Relies on `serde_json::from_slice::<Value>` to decode the body (it fails on
/// bytes that are not exactly one JSON value, empty input included) and on
/// `Value::get` with a string index, which finds nothing unless the value is
/// an object holding that key.
#[verifier::external_body]
pub(crate) fn read_entry(body: &[u8], key: &str) -> (r: Option<JsonEntry>)
    ensures
        entry_view(r) == json_entry(body@, key@),
        body@.len() == 0 ==> r is None,
{
    match serde_json::from_slice::<serde_json::Value>(body) {
        Err(_) => None,
        Ok(v) => Some(match v.get(key) {
            None => JsonEntry::Missing,
            Some(serde_json::Value::String(s)) => JsonEntry::Text(s.clone()),
            Some(_) => JsonEntry::NotText,
        }),
    }
}

} // verus!
