//! The joke record handed to callers.
use vstd::prelude::*;
use crate::text::{entity_free, unescape, unescape_quotes};

verus! {

/// A joke from the database: its id, its text and its category tags.
#[derive(Debug, Clone)]
pub struct Joke {
    pub id: u64,
    pub content: String,
    pub categories: Vec<String>,
}

/// What a joke is, as plain values.
pub struct JokeView {
    pub id: u64,
    pub content: Seq<char>,
    pub categories: Seq<Seq<char>>,
}

impl View for Joke {
    type V = JokeView;

    open spec fn view(&self) -> JokeView {
        JokeView { id: self.id, content: self.content@, categories: self.categories.deep_view() }
    }
}

impl Joke {
    /// A joke whose text holds no `&quot;` entity.
    pub open spec fn wf(&self) -> bool {
        entity_free(self.content@)
    }
}

/// The payload of the service's envelope, before its text is unescaped.
pub(crate) struct ApiResponse {
    pub(crate) id: u64,
    pub(crate) joke: String,
    pub(crate) categories: Vec<String>,
}

/// The joke of a payload: same id and categories, with the text unescaped.
pub(crate) fn unescape_content(response: ApiResponse) -> (r: Joke)
    ensures
        r@ == (JokeView {
            id: response.id,
            content: unescape(response.joke@),
            categories: response.categories.deep_view(),
        }),
        r.wf(),
{
    let content = unescape_quotes(response.joke.as_str());
    Joke { id: response.id, content, categories: response.categories }
}

} // verus!
