//! JSON documents.
//!
//! JSON values that the translators only carry along are held as JSON text
//! (`String`). Where a translator has to look inside a document it parses it
//! with `serde_json` through [`parse_json`], which hands back the facts that
//! the translators read.

use vstd::prelude::*;

verus! {

/// What the translators read from a parsed JSON document.
pub struct JsonDoc {
    /// The document re-serialised by `serde_json` in compact form.
    pub canonical: String,
    /// The value itself, when the document is a JSON string.
    pub as_str: Option<String>,
    /// Whether the document is a JSON object.
    pub is_object: bool,
    /// Whether the document is an object with a `"type"` member.
    pub has_type_key: bool,
    /// The `"name"` member, when the document is an object whose `"name"` is a string.
    pub name_str: Option<String>,
    /// The `"arguments"` member re-serialised in compact form, when present.
    pub arguments_text: Option<String>,
    /// `function.name`, when the document is an object whose `"function"`
    /// member is an object with a string `"name"`.
    pub function_name: Option<String>,
}

/// The model of a [`JsonDoc`].
pub struct JsonDocModel {
    pub canonical: Seq<char>,
    pub as_str: Option<Seq<char>>,
    pub is_object: bool,
    pub has_type_key: bool,
    pub name_str: Option<Seq<char>>,
    pub arguments_text: Option<Seq<char>>,
    pub function_name: Option<Seq<char>>,
}

/// Character sequence of an optional string.
pub open spec fn opt_seq(o: Option<String>) -> Option<Seq<char>> {
    match o {
        Some(s) => Some(s@),
        None => None,
    }
}

impl View for JsonDoc {
    type V = JsonDocModel;

    open spec fn view(&self) -> JsonDocModel {
        JsonDocModel {
            canonical: self.canonical@,
            as_str: opt_seq(self.as_str),
            is_object: self.is_object,
            has_type_key: self.has_type_key,
            name_str: opt_seq(self.name_str),
            arguments_text: opt_seq(self.arguments_text),
            function_name: opt_seq(self.function_name),
        }
    }
}

/// What `serde_json::from_str::<serde_json::Value>` makes of a text: `None`
/// when the text is not a JSON document.
pub uninterp spec fn spec_parse_json(text: Seq<char>) -> Option<JsonDocModel>;

/// `serde_json::from_str::<serde_json::Value>`: parses `text` and reads the
/// facts of [`JsonDoc`] off the parsed value; `None` when parsing fails. The
/// result is named by `spec_parse_json`.
#[verifier::external_body]
pub(crate) fn parse_json(text: &str) -> (r: Option<JsonDoc>)
    ensures
        match r {
            Some(d) => spec_parse_json(text@) == Some(d@),
            None => spec_parse_json(text@) is None,
        },
{
    let v: serde_json::Value = serde_json::from_str(text).ok()?;
    Some(JsonDoc {
        canonical: v.to_string(),
        as_str: v.as_str().map(String::from),
        is_object: v.is_object(),
        has_type_key: v.get("type").is_some(),
        name_str: v.get("name").and_then(|n| n.as_str()).map(String::from),
        arguments_text: v.get("arguments").map(|a| a.to_string()),
        function_name: v.pointer("/function/name").and_then(|n| n.as_str()).map(String::from),
    })
}

/// Whether `text` is a JSON object that has a `type` member when `key` is
/// `type`.
pub open spec fn json_object_with(text: Seq<char>, key: Seq<char>) -> bool {
    spec_parse_json(text) matches Some(d) && d.is_object && (key == "type"@ ==> d.has_type_key)
}

/// What `serde_json` gives for the JSON object `text` with the string
/// member `key: value` inserted (replacing a member of that name), written
/// back in compact form.
pub uninterp spec fn spec_json_insert_str(text: Seq<char>, key: Seq<char>, value: Seq<char>) -> Seq<char>;

/// `serde_json::Map::insert` on the object that `text` holds, followed by
/// `serde_json::Value::to_string`. Besides naming the result, the contract
/// claims that it is again a JSON object, which has the member `key`: a
/// parsed map keeps what was inserted into it.
#[verifier::external_body]
pub(crate) fn json_insert_str(text: &str, key: &str, value: &str) -> (r: String)
    requires
        spec_parse_json(text@) matches Some(d) && d.is_object,
    ensures
        r@ == spec_json_insert_str(text@, key@, value@),
        json_object_with(r@, key@),
{
    let mut v: serde_json::Value = match serde_json::from_str(text) {
        Ok(v) => v,
        Err(_) => return text.to_string(),
    };
    if let Some(obj) = v.as_object_mut() {
        obj.insert(key.to_string(), serde_json::Value::String(value.to_string()));
    }
    v.to_string()
}

/// The JSON string literal `serde_json` writes for a text: quoted, with the
/// characters that JSON requires escaped.
pub uninterp spec fn spec_json_string(s: Seq<char>) -> Seq<char>;

/// `serde_json::Value::to_string` on a `serde_json::Value::String`: the
/// JSON literal for `s`, named by `spec_json_string`.
#[verifier::external_body]
pub(crate) fn json_string(s: &str) -> (r: String)
    ensures
        r@ == spec_json_string(s@),
{
    serde_json::Value::String(s.to_string()).to_string()
}

/// A JSON text as `serde_json` writes it back in compact form; the text
/// itself when it is not JSON.
pub open spec fn canonical_json_spec(text: Seq<char>) -> Seq<char> {
    match spec_parse_json(text) {
        Some(d) => d.canonical,
        None => text,
    }
}

/// A JSON text in compact form (see [`canonical_json_spec`]).
pub fn canonical_json(text: &str) -> (r: String)
    ensures
        r@ == canonical_json_spec(text@),
{
    match parse_json(text) {
        Some(d) => d.canonical,
        None => text.to_owned(),
    }
}

/// What `serde_json::to_string_pretty` writes for the value of a JSON text;
/// `None` when the text is not JSON.
pub uninterp spec fn spec_json_pretty(text: Seq<char>) -> Option<Seq<char>>;

/// `serde_json::from_str::<serde_json::Value>` followed by
/// `serde_json::to_string_pretty`: the value of `text` written with
/// indentation, named by `spec_json_pretty`. The contract also claims that
/// there is such a rendering exactly when the text parses, since writing a
/// parsed value cannot fail.
#[verifier::external_body]
pub(crate) fn json_pretty(text: &str) -> (r: Option<String>)
    ensures
        match r {
            Some(p) => spec_json_pretty(text@) == Some(p@),
            None => spec_json_pretty(text@) is None,
        },
        r is Some <==> spec_parse_json(text@) is Some,
{
    let v: serde_json::Value = serde_json::from_str(text).ok()?;
    serde_json::to_string_pretty(&v).ok()
}

/// The message of the error `serde_json` reports for a text that is not
/// JSON.
pub uninterp spec fn spec_json_error(text: Seq<char>) -> Seq<char>;

/// `serde_json::from_str::<serde_json::Value>`, keeping only the error: its
/// message when the text is not JSON (named by `spec_json_error`), `None`
/// when it is.
#[verifier::external_body]
pub(crate) fn json_error(text: &str) -> (r: Option<String>)
    ensures
        match r {
            Some(e) => spec_parse_json(text@) is None && e@ == spec_json_error(text@),
            None => spec_parse_json(text@) is Some,
        },
{
    match serde_json::from_str::<serde_json::Value>(text) {
        Ok(_) => None,
        Err(e) => Some(e.to_string()),
    }
}

} // verus!
