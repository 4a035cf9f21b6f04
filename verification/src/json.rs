//! JSON documents, read with `serde_json`. Verus sees a parsed object only
//! through [`members`]; what is stated here of `serde_json` is believed, not
//! proved.

use vstd::prelude::*;

verus! {

/// `serde_json::Value`, any JSON value. Nothing inside it is visible here.
#[verifier::external_type_specification]
#[verifier::external_body]
pub struct ExValue(serde_json::Value);

/// `serde_json::Error`, why a text could not be parsed.
#[verifier::external_type_specification]
#[verifier::external_body]
pub struct ExError(serde_json::Error);

/// `serde_json::Map`, the members of a JSON object. What it holds is
/// spoken of through [`members`].
#[verifier::external_type_specification]
#[verifier::external_body]
#[verifier::reject_recursive_types(K)]
#[verifier::reject_recursive_types(V)]
pub struct ExMap<K, V>(serde_json::Map<K, V>);

/// What the logic reads of one member of a JSON object.
#[derive(Clone, Debug, PartialEq, Eq)]
pub enum Member {
    /// The literal `null`.
    Null,
    /// A JSON string, unescaped.
    Text(String),
    /// A boolean, a number, an array or an object.
    Other,
}

/// A [`Member`] with its text as a sequence of characters.
pub enum MemberModel {
    Null,
    Text(Seq<char>),
    Other,
}

impl View for Member {
    type V = MemberModel;

    open spec fn view(&self) -> MemberModel {
        match self {
            Member::Null => MemberModel::Null,
            Member::Text(text) => MemberModel::Text(text@),
            Member::Other => MemberModel::Other,
        }
    }
}

/// The members of a parsed JSON object, by key: for each key that the
/// object has, what stands under it.
pub uninterp spec fn members(doc: serde_json::Map<String, serde_json::Value>) -> Map<
    Seq<char>,
    MemberModel,
>;

/// The members of the JSON object that `body` spells, or `None` where `body`
/// is not the text of one JSON object.
pub uninterp spec fn json_object(body: Seq<char>) -> Option<Map<Seq<char>, MemberModel>>;

/// `serde_json::from_str` at `serde_json::Map<String, Value>`. Parsing is a
/// function of the text alone; [`json_object`] is the name of its outcome,
/// and nothing more is claimed of it.
#[verifier::external_body]
pub(crate) fn parse_object(body: &str) -> (parsed: Result<
    serde_json::Map<String, serde_json::Value>,
    serde_json::Error,
>)
    ensures
        match parsed {
            Ok(doc) => json_object(body@) == Some(members(doc)),
            Err(_) => json_object(body@) is None,
        },
{
    serde_json::from_str(body)
}

/// `serde_json::Map::get`, with the value found told apart by its variant:
/// a key of the object gives what stands under it, any other key nothing.
#[verifier::external_body]
pub(crate) fn member(doc: &serde_json::Map<String, serde_json::Value>, key: &str) -> (found: Option<
    Member,
>)
    ensures
        match found {
            Some(m) => members(*doc).contains_key(key@) && members(*doc)[key@] == m@,
            None => !members(*doc).contains_key(key@),
        },
{
    match doc.get(key) {
        None => None,
        Some(serde_json::Value::Null) => Some(Member::Null),
        Some(serde_json::Value::String(text)) => Some(Member::Text(text.clone())),
        Some(serde_json::Value::Bool(_)) => Some(Member::Other),
        Some(serde_json::Value::Number(_)) => Some(Member::Other),
        Some(serde_json::Value::Array(_)) => Some(Member::Other),
        Some(serde_json::Value::Object(_)) => Some(Member::Other),
    }
}

} // verus!
