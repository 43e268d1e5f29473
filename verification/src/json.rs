//! JSON documents as plain values, and the reader that produces them.

use vstd::prelude::*;

verus! {

/// A JSON document. A number is kept as its text; an object keeps its members
/// in the order in which the reader hands them out.
#[derive(Debug, PartialEq, Eq)]
pub enum JsonValue {
    Null,
    Bool(bool),
    Number(String),
    Text(String),
    Array(Vec<JsonValue>),
    Object(Vec<(String, JsonValue)>),
}

/// The value of the first member called `key`, if there is one.
pub open spec fn member(fields: Seq<(String, JsonValue)>, key: Seq<char>) -> Option<JsonValue>
    decreases fields.len(),
{
    if fields.len() == 0 {
        None
    } else if fields[0].0@ == key {
        Some(fields[0].1)
    } else {
        member(fields.drop_first(), key)
    }
}

/// Looking a name up in the members from position `from` on finds what the
/// first of them holds, or goes on behind it.
pub proof fn lemma_member_step(fields: Seq<(String, JsonValue)>, from: int, key: Seq<char>)
    requires
        0 <= from < fields.len(),
    ensures
        member(fields.skip(from), key) == if fields[from].0@ == key {
            Some(fields[from].1)
        } else {
            member(fields.skip(from + 1), key)
        },
{
    let rest = fields.skip(from);
    assert(rest[0] == fields[from]);
    assert(rest.drop_first() =~= fields.skip(from + 1));
}

/// The document that a text holds, or the reader's complaint about the text.
pub open spec fn document(text: Seq<char>) -> Result<JsonValue, Seq<char>> {
    match json_reading(text) {
        Ok(v) => Ok(json_copy(v)),
        Err(m) => Err(m),
    }
}

impl JsonValue {
    /// Reads a text as JSON: the document, or the reader's complaint.
    pub fn from_text(text: &str) -> (out: Result<JsonValue, String>)
        ensures
            match out {
                Ok(v) => document(text@) == Ok::<JsonValue, Seq<char>>(v),
                Err(m) => document(text@) == Err::<JsonValue, Seq<char>>(m@),
            },
    {
        match read_json(text) {
            Ok(outside) => Ok(copy_outside(&outside)),
            Err(m) => Err(m),
        }
    }

    /// The members of an object; no members for any other value.
    pub open spec fn members(self) -> Seq<(String, JsonValue)> {
        match self {
            JsonValue::Object(fields) => fields@,
            _ => Seq::empty(),
        }
    }

    /// The member called `key` of an object; nothing for any other value.
    pub fn get(&self, key: &str) -> (out: Option<&JsonValue>)
        ensures
            match out {
                Some(v) => member(self.members(), key@) == Some(*v),
                None => member(self.members(), key@) is None,
            },
    {
        match self {
            JsonValue::Object(fields) => {
                let wanted = key.to_owned();
                let mut i: usize = 0;
                assert(fields@.skip(0) =~= fields@);
                while i < fields.len()
                    invariant
                        i <= fields.len(),
                        wanted@ == key@,
                        self.members() == fields@,
                        member(fields@, key@) == member(fields@.skip(i as int), key@),
                    decreases fields.len() - i,
                {
                    proof {
                        lemma_member_step(fields@, i as int, key@);
                    }
                    if fields[i].0 == wanted {
                        return Some(&fields[i].1);
                    }
                    i += 1;
                }
                assert(fields@.skip(i as int).len() == 0);
                None
            },
            _ => None,
        }
    }

    /// The string that a JSON string holds; nothing for any other value.
    pub open spec fn text(self) -> Option<Seq<char>> {
        match self {
            JsonValue::Text(s) => Some(s@),
            _ => None,
        }
    }

    /// The string that a JSON string holds; nothing for any other value.
    pub fn as_text(&self) -> (out: Option<&String>)
        ensures
            match out {
                Some(s) => self.text() == Some(s@),
                None => self.text() is None,
            },
    {
        match self {
            JsonValue::Text(s) => Some(s),
            _ => None,
        }
    }
}

/// The outside reader's document type, carried through unopened.
#[verifier::external_type_specification]
#[verifier::external_body]
pub struct ExOutsideJson(serde_json::Value);

/// What `serde_json::from_str` makes of a text: the document, or the text of
/// its complaint. The reader looks at nothing but the text.
pub uninterp spec fn json_reading(text: Seq<char>) -> Result<serde_json::Value, Seq<char>>;

/// The document that an outside document holds, as a `JsonValue`.
pub uninterp spec fn json_copy(v: serde_json::Value) -> JsonValue;

/// Calls `serde_json::from_str` for a `serde_json::Value`. The contract claims
/// only that the outcome is the one that `json_reading` names for this text:
/// the document on success, the error's text on failure.
#[verifier::external_body]
pub(crate) fn read_json(text: &str) -> (out: Result<serde_json::Value, String>)
    ensures
        match out {
            Ok(v) => json_reading(text@) == Ok::<serde_json::Value, Seq<char>>(v),
            Err(e) => json_reading(text@) == Err::<serde_json::Value, Seq<char>>(e@),
        },
{
    match serde_json::from_str::<serde_json::Value>(text) {
        Ok(v) => Ok(v),
        Err(e) => Err(e.to_string()),
    }
}

/// Copies a `serde_json::Value` into a `JsonValue`, variant by variant: a
/// number as the text that `serde_json::Number` prints, the members of an
/// object in the order in which `serde_json::Map` hands them out. The contract
/// claims only that the copy is the one that `json_copy` names for this
/// document.
#[verifier::external_body]
pub(crate) fn copy_outside(v: &serde_json::Value) -> (out: JsonValue)
    ensures
        out == json_copy(*v),
{
    match v {
        serde_json::Value::Null => JsonValue::Null,
        serde_json::Value::Bool(b) => JsonValue::Bool(*b),
        serde_json::Value::Number(n) => JsonValue::Number(n.to_string()),
        serde_json::Value::String(s) => JsonValue::Text(s.clone()),
        serde_json::Value::Array(a) => JsonValue::Array(a.iter().map(copy_outside).collect()),
        serde_json::Value::Object(m) => JsonValue::Object(
            m.iter().map(|(k, x)| (k.clone(), copy_outside(x))).collect(),
        ),
    }
}

} // verus!
