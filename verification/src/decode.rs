//! Decoding the server's answer to a create request: a JSON object that holds
//! the new document's key as a string under the name `key`.

use vstd::prelude::*;
use crate::error::FlowError;
use crate::post::PostResult;
use crate::text::{owned_option, same_text};

verus! {

/// serde_json's error, carried from the parser to where it is mapped.
#[verifier::external_type_specification]
#[verifier::external_body]
pub struct ExJsonError(serde_json::Error);

/// The fields of the JSON object that a text holds, as serde_json reads it: in
/// ascending order of their names, each name once, each with its text where its
/// value is a string. `None` where the text is not one JSON object.
pub uninterp spec fn json_object_fields(body: Seq<char>) -> Option<
    Seq<(Seq<char>, Option<Seq<char>>)>,
>;

/// The mathematical value of a list of fields.
pub open spec fn fields_view(fields: Seq<(String, Option<String>)>) -> Seq<
    (Seq<char>, Option<Seq<char>>),
> {
    Seq::new(fields.len(), |i: int| (fields[i].0@, owned_option(fields[i].1)))
}

/// Calls `serde_json::from_str` for a map from names to JSON values, and hands
/// the map out as a list, each value that is a string as its text. What the
/// parser makes of a text depends on the text alone; it is only named here.
#[verifier::external_body]
fn read_object(body: &str) -> (r: Result<Vec<(String, Option<String>)>, serde_json::Error>)
    ensures
        match r {
            Ok(fields) => json_object_fields(body@) == Some(fields_view(fields@)),
            Err(_) => json_object_fields(body@) is None,
        },
{
    match serde_json::from_str::<std::collections::BTreeMap<String, serde_json::Value>>(body) {
        Ok(object) => Ok(object.into_iter().map(|(name, value)| match value {
            serde_json::Value::String(text) => (name, Some(text)),
            serde_json::Value::Null => (name, None),
            serde_json::Value::Bool(_) => (name, None),
            serde_json::Value::Number(_) => (name, None),
            serde_json::Value::Array(_) => (name, None),
            serde_json::Value::Object(_) => (name, None),
        }).collect()),
        Err(e) => Err(e),
    }
}

/// The text of the first field at or after `from` that is called `name`, where
/// there is such a field and its value is a string.
pub open spec fn field_text_from(
    fields: Seq<(Seq<char>, Option<Seq<char>>)>,
    name: Seq<char>,
    from: int,
) -> Option<Seq<char>>
    decreases fields.len() - from,
{
    if from < 0 || from >= fields.len() {
        None
    } else if fields[from].0 == name {
        fields[from].1
    } else {
        field_text_from(fields, name, from + 1)
    }
}

/// What decoding gives for what the parser read: the text under `key`, or the
/// decode failure where the text is no object, holds no `key`, or holds
/// something other than a string there.
pub open spec fn decode_spec(parsed: Option<Seq<(Seq<char>, Option<Seq<char>>)>>) -> Result<
    Seq<char>,
    FlowError,
> {
    match parsed {
        Some(fields) => match field_text_from(fields, "key"@, 0) {
            Some(key) => Ok(key),
            None => Err(FlowError::DecodeFailed),
        },
        None => Err(FlowError::DecodeFailed),
    }
}

/// Finds the text of the first field called `name`.
pub fn find_text(fields: &Vec<(String, Option<String>)>, name: &str) -> (r: Option<String>)
    ensures
        owned_option(r) == field_text_from(fields_view(fields@), name@, 0),
{
    let ghost all = fields_view(fields@);
    let mut i: usize = 0;
    while i < fields.len()
        invariant
            i <= fields.len(),
            all == fields_view(fields@),
            field_text_from(all, name@, i as int) == field_text_from(all, name@, 0),
        decreases fields.len() - i,
    {
        if same_text(fields[i].0.as_str(), name) {
            return match &fields[i].1 {
                Some(text) => Some(text.clone()),
                None => None,
            };
        }
        i += 1;
    }
    None
}

/// Takes the new document's key from the fields of the server's answer.
pub fn result_of_fields(fields: &Vec<(String, Option<String>)>) -> (r: Result<
    PostResult,
    FlowError,
>)
    ensures
        match decode_spec(Some(fields_view(fields@))) {
            Ok(key) => r matches Ok(p) && p@ == key,
            Err(e) => r matches Err(f) && f == e,
        },
{
    match find_text(fields, "key") {
        Some(key) => Ok(PostResult { key: key }),
        None => Err(FlowError::DecodeFailed),
    }
}

/// Decodes the server's answer to a create request. It succeeds exactly where
/// the answer is a JSON object with a string under `key`.
pub fn decode_post_result(body: &str) -> (r: Result<PostResult, FlowError>)
    ensures
        match decode_spec(json_object_fields(body@)) {
            Ok(key) => r matches Ok(p) && p@ == key,
            Err(e) => r matches Err(f) && f == e,
        },
{
    match read_object(body) {
        Ok(fields) => result_of_fields(&fields),
        Err(_) => Err(FlowError::DecodeFailed),
    }
}

} // verus!
