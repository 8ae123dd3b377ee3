//! The client: one request per call, from URL to joke or error.
use vstd::prelude::*;
use crate::error::{Error, ErrorKind};
use crate::joke::Joke;
use crate::request::{Scheme, Target, names_view, request_url, url_of};
use crate::response::{decode, decoded_text};

verus! {

/// How a call ends, given what the transport handed back: a body is
/// decoded, a transport failure is passed on as it is.
pub open spec fn answers(fetched: Result<String, Error>, r: Result<Joke, Error>) -> bool {
    match fetched {
        Ok(body) => match r {
            Ok(j) => decoded_text(body@) == Some(j@) && j.wf(),
            Err(e) => decoded_text(body@) is None && e.kind == ErrorKind::Api && e.cause is None,
        },
        Err(e) => r == Err::<Joke, Error>(e),
    }
}

/// The result of a call whose transport handed back `fetched`: the joke of
/// the body, or the first failure met.
pub fn finish(fetched: Result<String, Error>) -> (r: Result<Joke, Error>)
    ensures
        answers(fetched, r),
{
    match fetched {
        Ok(body) => decode(body.as_str()),
        Err(e) => Err(e),
    }
}

/// A client of the service. It holds only the scheme that its requests use;
/// each call hands its URL to a transport function, which performs one GET
/// and returns the body, or an `IO` or `Network` error.
#[derive(Debug, Clone, Copy)]
pub struct ApiClient {
    scheme: Scheme,
}

impl ApiClient {
    pub closed spec fn spec_scheme(&self) -> Scheme {
        self.scheme
    }

    /// A client that uses plain `http`.
    pub fn new() -> (r: ApiClient)
        ensures
            r.spec_scheme() == Scheme::Plain,
    {
        ApiClient { scheme: Scheme::Plain }
    }

    /// A client that uses the given scheme.
    pub fn with_scheme(scheme: Scheme) -> (r: ApiClient)
        ensures
            r.spec_scheme() == scheme,
    {
        ApiClient { scheme }
    }

    /// The scheme that this client's requests use.
    pub fn scheme(&self) -> (r: Scheme)
        ensures
            r == self.spec_scheme(),
    {
        self.scheme
    }

    /// The URL of a request of this client.
    pub fn url(&self, target: Target, names: Option<(&str, &str)>) -> (r: String)
        ensures
            r@ == url_of(self.spec_scheme(), target, names_view(names)),
    {
        request_url(self.scheme, target, names)
    }

    /// Performs one request: builds its URL, hands it to `fetch` once, and
    /// decodes what came back.
    pub fn request<F: Fn(&str) -> Result<String, Error>>(
        &self,
        target: Target,
        names: Option<(&str, &str)>,
        fetch: F,
    ) -> (r: Result<Joke, Error>)
        requires
            forall|u: &str| fetch.requires((u,)),
        ensures
            exists|u: &str, fetched: Result<String, Error>|
                u@ == url_of(self.spec_scheme(), target, names_view(names)) && fetch.ensures((u,), fetched) && answers(fetched, r),
    {
        let url = self.url(target, names);
        let u = url.as_str();
        let fetched = fetch(u);
        let ghost seen = fetched;
        let r = finish(fetched);
        assert(fetch.ensures((u,), seen) && answers(seen, r));
        r
    }

    /// A random joke.
    pub fn next<F: Fn(&str) -> Result<String, Error>>(&self, fetch: F) -> (r: Result<Joke, Error>)
        requires
            forall|u: &str| fetch.requires((u,)),
        ensures
            exists|u: &str, fetched: Result<String, Error>|
                u@ == url_of(self.spec_scheme(), Target::Random, None) && fetch.ensures((u,), fetched)
                    && answers(fetched, r),
    {
        self.request(Target::Random, None, fetch)
    }

    /// A random joke, with `first` and `last` in place of the default name.
    pub fn next_with_names<F: Fn(&str) -> Result<String, Error>>(
        &self,
        first: &str,
        last: &str,
        fetch: F,
    ) -> (r: Result<Joke, Error>)
        requires
            forall|u: &str| fetch.requires((u,)),
        ensures
            exists|u: &str, fetched: Result<String, Error>|
                u@ == url_of(self.spec_scheme(), Target::Random, Some((first@, last@)))
                    && fetch.ensures((u,), fetched) && answers(fetched, r),
    {
        self.request(Target::Random, Some((first, last)), fetch)
    }

    /// The joke with the given id. The id is sent as it is; the service may
    /// answer with a joke of another id.
    pub fn get_by_id<F: Fn(&str) -> Result<String, Error>>(&self, id: u64, fetch: F) -> (r: Result<
        Joke,
        Error,
    >)
        requires
            forall|u: &str| fetch.requires((u,)),
        ensures
            exists|u: &str, fetched: Result<String, Error>|
                u@ == url_of(self.spec_scheme(), Target::ById(id), None) && fetch.ensures(
                    (u,),
                    fetched,
                ) && answers(fetched, r),
    {
        self.request(Target::ById(id), None, fetch)
    }

    /// The joke with the given id, with `first` and `last` in place of the
    /// default name.
    pub fn get_by_id_with_names<F: Fn(&str) -> Result<String, Error>>(
        &self,
        id: u64,
        first: &str,
        last: &str,
        fetch: F,
    ) -> (r: Result<Joke, Error>)
        requires
            forall|u: &str| fetch.requires((u,)),
        ensures
            exists|u: &str, fetched: Result<String, Error>|
                u@ == url_of(self.spec_scheme(), Target::ById(id), Some((first@, last@)))
                    && fetch.ensures((u,), fetched) && answers(fetched, r),
    {
        self.request(Target::ById(id), Some((first, last)), fetch)
    }
}

/// Decoding is deterministic: two bodies with the same text end two calls
/// alike, with equal jokes or both with the `Api` error.
pub proof fn lemma_same_body_same_answer(
    body1: String,
    body2: String,
    r1: Result<Joke, Error>,
    r2: Result<Joke, Error>,
)
    requires
        body1@ == body2@,
        answers(Ok(body1), r1),
        answers(Ok(body2), r2),
    ensures
        r1 is Ok <==> r2 is Ok,
        r1 is Ok ==> r1->Ok_0@ == r2->Ok_0@,
        r1 is Err ==> r1->Err_0@ == r2->Err_0@,
{
}

} // verus!
