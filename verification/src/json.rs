//! The members of a JSON object, as far as the decoder reads them.

use vstd::prelude::*;

verus! {

/// `serde_json::Error`: why a text is no JSON of the kind asked for.
#[verifier::external_type_specification]
#[verifier::external_body]
pub struct ExJsonError(serde_json::Error);

/// The words that the `Display` of `serde_json::Error` writes of an error.
pub uninterp spec fn json_error_words(error: serde_json::Error) -> Seq<char>;

/// The `Display` of `serde_json::Error`: the error in the words of
/// `serde_json`, with the line and column where it stands.
#[verifier::external_body]
pub(crate) fn json_error_message(error: &serde_json::Error) -> (words: String)
    ensures
        words@ == json_error_words(*error),
{
    format!("{}", error)
}

/// What a member of a JSON object holds. Of a number, a list and an object
/// only the kind is kept.
#[derive(Debug, PartialEq, Eq)]
pub enum JsonField {
    Null,
    Bool(bool),
    Number,
    Text(String),
    Array,
    Object,
}

/// The mathematical value of a [`JsonField`].
pub enum JsonFieldView {
    Null,
    Bool(bool),
    Number,
    Text(Seq<char>),
    Array,
    Object,
}

impl View for JsonField {
    type V = JsonFieldView;

    open spec fn view(&self) -> JsonFieldView {
        match self {
            JsonField::Null => JsonFieldView::Null,
            JsonField::Bool(b) => JsonFieldView::Bool(*b),
            JsonField::Number => JsonFieldView::Number,
            JsonField::Text(s) => JsonFieldView::Text(s@),
            JsonField::Array => JsonFieldView::Array,
            JsonField::Object => JsonFieldView::Object,
        }
    }
}

impl DeepView for JsonField {
    type V = JsonFieldView;

    open spec fn deep_view(&self) -> JsonFieldView {
        self@
    }
}

/// The members of the JSON object that `serde_json::from_str` reads `text`
/// as, each key with what its value holds; `None` where `text` is not the
/// text of one JSON object.
pub uninterp spec fn json_object(text: Seq<char>) -> Option<Seq<(Seq<char>, JsonFieldView)>>;

/// `serde_json::from_str` at `serde_json::Map<String, serde_json::Value>`:
/// the members of the object that `text` holds, each value reduced to a
/// [`JsonField`]; an error where `text` is not one JSON object.
#[verifier::external_body]
pub(crate) fn parse_object(text: &str) -> (r: Result<Vec<(String, JsonField)>, serde_json::Error>)
    ensures
        match r {
            Ok(members) => json_object(text@) == Some(members.deep_view()),
            Err(_) => json_object(text@) is None,
        },
{
    let map = serde_json::from_str::<serde_json::Map<String, serde_json::Value>>(text)?;
    Ok(map.into_iter().map(|(key, value)| (key, match value {
        serde_json::Value::Null => JsonField::Null,
        serde_json::Value::Bool(b) => JsonField::Bool(b),
        serde_json::Value::Number(_) => JsonField::Number,
        serde_json::Value::String(s) => JsonField::Text(s),
        serde_json::Value::Array(_) => JsonField::Array,
        serde_json::Value::Object(_) => JsonField::Object,
    })).collect())
}

/// The value of the first member of `members` whose key is `key`.
pub open spec fn member(members: Seq<(Seq<char>, JsonFieldView)>, key: Seq<char>) -> Option<JsonFieldView>
    decreases members.len(),
{
    if members.len() == 0 {
        None
    } else if members[0].0 == key {
        Some(members[0].1)
    } else {
        member(members.drop_first(), key)
    }
}

/// Looks a member up by its key.
pub fn find_member<'a>(members: &'a Vec<(String, JsonField)>, key: &str) -> (r: Option<&'a JsonField>)
    ensures
        r.deep_view() == member(members.deep_view(), key@),
{
    let mut i: usize = 0;
    assert(members.deep_view().skip(0) =~= members.deep_view());
    while i < members.len()
        invariant
            i <= members.len(),
            member(members.deep_view(), key@) == member(members.deep_view().skip(i as int), key@),
        decreases members.len() - i,
    {
        proof {
            let rest = members.deep_view().skip(i as int);
            assert(rest[0] == members.deep_view()[i as int]);
            assert(rest.drop_first() =~= members.deep_view().skip(i + 1));
        }
        if crate::text::same_text(members[i].0.as_str(), key) {
            return Some(&members[i].1);
        }
        i += 1;
    }
    None
}

} // verus!
