//! Decoding of the service's answer: the envelope `{"value": {...}}` around
//! one joke.
use vstd::prelude::*;
use vstd::string::StringExecFns;
use crate::error::{Error, ErrorKind};
use crate::joke::{Joke, JokeView, ApiResponse, unescape_content};
use crate::json::{Json, json_of_text, json_of_value, parse_json, member};
use crate::text::unescape;

verus! {

/// Whether every element of `items` is a string.
pub open spec fn all_strings(items: Seq<Json>) -> bool {
    forall|i: int| 0 <= i < items.len() ==> #[trigger] items[i] is Str
}

/// The texts of a sequence of strings.
pub open spec fn strings_of(items: Seq<Json>) -> Seq<Seq<char>> {
    items.map_values(|x: Json| x->Str_0)
}

/// The joke that an envelope carries, before its text is unescaped: the
/// envelope is an object with a member `value`, itself an object with an
/// integer `id`, a string `joke` and an array of strings `categories`.
/// Other members are ignored.
pub open spec fn payload_of(doc: Json) -> Option<JokeView> {
    match doc {
        Json::Object(env) => if env.contains_key("value"@) {
            match env["value"@] {
                Json::Object(p) => if p.contains_key("id"@) && p.contains_key("joke"@)
                    && p.contains_key("categories"@) && p["id"@] is UInt && p["joke"@] is Str
                    && p["categories"@] is Array && all_strings(p["categories"@]->Array_0) {
                    Some(
                        JokeView {
                            id: p["id"@]->UInt_0,
                            content: p["joke"@]->Str_0,
                            categories: strings_of(p["categories"@]->Array_0),
                        },
                    )
                } else {
                    None
                },
                _ => None,
            }
        } else {
            None
        },
        _ => None,
    }
}

/// The joke that a parsed answer yields: the envelope's payload with its
/// text unescaped.
pub open spec fn decoded(doc: Json) -> Option<JokeView> {
    match payload_of(doc) {
        Some(p) => Some(JokeView { content: unescape(p.content), ..p }),
        None => None,
    }
}

/// The joke that an answer's text yields, if it parses to an envelope.
pub open spec fn decoded_text(text: Seq<char>) -> Option<JokeView> {
    match json_of_text(text) {
        Some(doc) => decoded(doc),
        None => None,
    }
}

/// The joke of a parsed answer, or the `Api` error where the answer is not
/// the expected envelope.
pub fn decode_value(doc: &serde_json::Value) -> (r: Result<Joke, Error>)
    ensures
        match r {
            Ok(j) => decoded(json_of_value(*doc)) == Some(j@) && j.wf(),
            Err(e) => decoded(json_of_value(*doc)) is None && e.kind == ErrorKind::Api
                && e.cause is None,
        },
{
    match read_payload(doc) {
        Some(p) => Ok(unescape_content(p)),
        None => Err(Error::api()),
    }
}

/// The joke of an answer's text, or the `Api` error where the text is not
/// JSON or not the expected envelope.
pub fn decode(text: &str) -> (r: Result<Joke, Error>)
    ensures
        match r {
            Ok(j) => decoded_text(text@) == Some(j@) && j.wf(),
            Err(e) => decoded_text(text@) is None && e.kind == ErrorKind::Api && e.cause is None,
        },
{
    match parse_json(text) {
        Some(doc) => decode_value(&doc),
        None => Err(Error::api()),
    }
}

/// The envelope's payload, read member by member.
#[verifier::loop_isolation(false)]
fn read_payload(doc: &serde_json::Value) -> (r: Option<ApiResponse>)
    ensures
        match r {
            Some(p) => payload_of(json_of_value(*doc)) == Some(
                JokeView { id: p.id, content: p.joke@, categories: p.categories.deep_view() },
            ),
            None => payload_of(json_of_value(*doc)) is None,
        },
{
    let value = match member(doc, "value") {
        Some(v) => v,
        None => return None,
    };
    let id = match member(value, "id") {
        Some(v) => v,
        None => return None,
    };
    let joke = match member(value, "joke") {
        Some(v) => v,
        None => return None,
    };
    let categories = match member(value, "categories") {
        Some(v) => v,
        None => return None,
    };
    let id = match id.as_u64() {
        Some(n) => n,
        None => return None,
    };
    let joke = match joke.as_str() {
        Some(s) => String::from_str(s),
        None => return None,
    };
    let items = match categories.as_array() {
        Some(items) => items,
        None => return None,
    };
    let ghost elems = json_of_value(*categories)->Array_0;
    let mut names: Vec<String> = Vec::new();
    let mut i: usize = 0;
    while i < items.len()
        invariant
            i <= items@.len(),
            items@.len() == elems.len(),
            forall|k: int| 0 <= k < elems.len() ==> json_of_value(#[trigger] items@[k]) == elems[k],
            forall|k: int| 0 <= k < i ==> #[trigger] elems[k] is Str,
            names@.len() == i,
            forall|k: int| 0 <= k < i ==> (#[trigger] names@[k])@ == elems[k]->Str_0,
        decreases items@.len() - i,
    {
        match items[i].as_str() {
            Some(s) => {
                names.push(String::from_str(s));
            },
            None => {
                assert(json_of_value(items@[i as int]) == elems[i as int]);
                assert(!all_strings(elems));
                return None;
            },
        }
        i = i + 1;
    }
    assert(names.deep_view() =~= strings_of(elems)) by {
        assert forall|k: int| 0 <= k < elems.len() implies names.deep_view()[k] == strings_of(elems)[k] by {
            assert(names@[k]@ == elems[k]->Str_0);
        }
    }
    Some(ApiResponse { id, joke, categories: names })
}

} // verus!
