use vstd::prelude::*;

use crate::envelope::{
    header_of, header_reads, no_source, search_of, search_reads, user_source_of, user_source_reads,
    users_of_hits, ESActionInfo, ESActionResult, ESError, ESSearchResult,
};
use crate::envelope::optional_result;
use crate::json::{lookup, JsonValue};
use crate::query::{is_search_json, QueryInput, SearchInput};
use crate::text::{decimal, decimal_text};
use crate::user::User;

verus! {

/// Where the store is reached, and how each call to it is addressed.
pub struct ElasticSearchClient {
    pub address: String,
}

#[derive(Clone, Copy, Debug, PartialEq, Eq, Structural)]
pub enum Method {
    Get,
    Post,
}

/// One request to the store: its method, its address and its JSON body.
#[derive(Debug, PartialEq)]
pub struct Request {
    pub method: Method,
    pub url: String,
    pub body: Option<JsonValue>,
}

/// What came back for one request.
#[derive(Debug, PartialEq)]
pub enum Reply {
    /// The request failed on its way: no answer came.
    Unreachable,
    /// An answer came whose body is not JSON.
    NotJson,
    /// An answer with a JSON body.
    Json(JsonValue),
}

/// What reading one user comes to.
#[derive(Debug, PartialEq)]
pub enum Lookup {
    Found(User),
    /// The store answered, with no document.
    NotFound,
    /// The call failed.
    Failed,
}

fn concat(a: &str, b: &str) -> (r: String)
    ensures
        r@ == a@ + b@,
{
    let mut s = a.to_owned();
    s.append(b);
    s
}

impl ElasticSearchClient {
    /// A client for the store at `http://{host}:{port}`.
    pub fn new(host: String, port: u16) -> (r: Self)
        ensures
            r.address@ == "http://"@ + host@ + ":"@ + decimal(port as nat),
    {
        let mut address = concat("http://", host.as_str());
        address.append(":");
        let digits = decimal_text(port as u64);
        address.append(digits.as_str());
        ElasticSearchClient { address }
    }

    /// The address of one document: `{address}/{index}/_doc/{id}`.
    pub fn entity_url(&self, index: &str, id: &str) -> (r: String)
        ensures
            r@ == self.address@ + "/"@ + index@ + "/_doc/"@ + id@,
    {
        let mut s = concat(self.address.as_str(), "/");
        s.append(index);
        s.append("/_doc/");
        s.append(id);
        s
    }

    /// The address of a text search: `{address}/_search?q={query}`.
    pub fn search_url_with_query(&self, query: &str) -> (r: String)
        ensures
            r@ == self.address@ + "/_search?q="@ + query@,
    {
        let mut s = concat(self.address.as_str(), "/_search?q=");
        s.append(query);
        s
    }

    /// The address of a structured search: `{address}/_search`.
    pub fn search_url(&self) -> (r: String)
        ensures
            r@ == self.address@ + "/_search"@,
    {
        concat(self.address.as_str(), "/_search")
    }

    /// Stores `document` under `id` in `index`.
    pub fn post_request(&self, index: &str, id: &str, document: JsonValue) -> (r: Request)
        ensures
            r.method == Method::Post,
            r.url@ == self.address@ + "/"@ + index@ + "/_doc/"@ + id@,
            r.body == Some(document),
    {
        Request { method: Method::Post, url: self.entity_url(index, id), body: Some(document) }
    }

    /// Reads the document stored under `id` in `index`.
    pub fn get_request(&self, index: &str, id: &str) -> (r: Request)
        ensures
            r.method == Method::Get,
            r.url@ == self.address@ + "/"@ + index@ + "/_doc/"@ + id@,
            r.body is None,
    {
        Request { method: Method::Get, url: self.entity_url(index, id), body: None }
    }

    /// A search. Raw text goes in the address with a `GET`, as the store
    /// reads its text syntax only there; a structured query goes in the body
    /// of a `POST`. The body carries `from`, `size` and the query either way.
    pub fn search_request(&self, input: &SearchInput) -> (r: Request)
        ensures
            r.body matches Some(b) && is_search_json(b, *input),
            input.query matches QueryInput::Text(q) ==> r.method == Method::Get && r.url@
                == self.address@ + "/_search?q="@ + q@,
            !(input.query is Text) ==> r.method == Method::Post && r.url@ == self.address@
                + "/_search"@,
    {
        let body = input.to_json();
        match &input.query {
            QueryInput::Text(q) => Request {
                method: Method::Get,
                url: self.search_url_with_query(q.as_str()),
                body: Some(body),
            },
            _ => Request { method: Method::Post, url: self.search_url(), body: Some(body) },
        }
    }
}

/// `r` is what the reply to a write means.
pub open spec fn is_post_answer(reply: Reply, r: Result<ESActionInfo<()>, ESError>) -> bool {
    match reply {
        Reply::Unreachable => r == Err::<ESActionInfo<()>, ESError>(ESError::ConnectionError),
        Reply::NotJson => r == Err::<ESActionInfo<()>, ESError>(ESError::DeserializationError),
        Reply::Json(j) => {
            &&& r is Ok == (header_reads(j) && no_source(j))
            &&& r matches Err(e) ==> e == ESError::DeserializationError
            &&& r matches Ok(info) ==> header_of(j, info) && info.source is None
        },
    }
}

/// `r` is what the reply to a read of one user means.
pub open spec fn is_get_answer(reply: Reply, r: Result<ESActionInfo<User>, ESError>) -> bool {
    match reply {
        Reply::Unreachable => r == Err::<ESActionInfo<User>, ESError>(ESError::ConnectionError),
        Reply::NotJson => r == Err::<ESActionInfo<User>, ESError>(ESError::DeserializationError),
        Reply::Json(j) => {
            &&& r is Ok == (header_reads(j) && user_source_reads(j))
            &&& r matches Err(e) ==> e == ESError::DeserializationError
            &&& r matches Ok(info) ==> header_of(j, info) && user_source_of(j, info.source)
        },
    }
}

/// `r` says whether the write of `user` worked: only a result tag of
/// `created` counts.
pub open spec fn is_create_outcome(
    user: User,
    answer: Result<ESActionInfo<()>, ESError>,
    r: Option<User>,
) -> bool {
    &&& r is Some == (answer matches Ok(info) && info.result == Some(ESActionResult::Created))
    &&& r matches Some(u) ==> u == user
}

/// `r` is what a read of one user comes to.
pub open spec fn is_lookup_outcome(answer: Result<ESActionInfo<User>, ESError>, r: Lookup) -> bool {
    match answer {
        Ok(info) => match info.source {
            Some(u) => r == Lookup::Found(u),
            None => r is NotFound,
        },
        Err(_) => r is Failed,
    }
}

/// The answer to a write: a failed transport is a connection error, a body
/// that is not JSON or not the answer's shape a deserialization error.
pub fn post_answer(reply: Reply) -> (r: Result<ESActionInfo<()>, ESError>)
    ensures
        is_post_answer(reply, r),
{
    match reply {
        Reply::Unreachable => Err(ESError::ConnectionError),
        Reply::NotJson => Err(ESError::DeserializationError),
        Reply::Json(j) => ESActionInfo::<()>::from_json(&j),
    }
}

/// The answer to a read of one user; a missing document is no error.
pub fn get_answer(reply: Reply) -> (r: Result<ESActionInfo<User>, ESError>)
    ensures
        is_get_answer(reply, r),
{
    match reply {
        Reply::Unreachable => Err(ESError::ConnectionError),
        Reply::NotJson => Err(ESError::DeserializationError),
        Reply::Json(j) => ESActionInfo::<User>::from_json(&j),
    }
}

/// The answer to a search.
pub fn search_answer(reply: Reply) -> (r: Result<ESSearchResult, ESError>)
    ensures
        reply is Unreachable ==> r == Err::<ESSearchResult, ESError>(ESError::ConnectionError),
        reply is NotJson ==> r == Err::<ESSearchResult, ESError>(ESError::DeserializationError),
        reply matches Reply::Json(j) ==> {
            &&& r is Ok == search_reads(j)
            &&& r matches Err(e) ==> e == ESError::DeserializationError
            &&& r matches Ok(s) ==> search_of(j, s)
        },
{
    match reply {
        Reply::Unreachable => Err(ESError::ConnectionError),
        Reply::NotJson => Err(ESError::DeserializationError),
        Reply::Json(j) => ESSearchResult::from_json(j),
    }
}

/// Whether storing a new user worked: it did exactly when the store tagged
/// the write `created`, whatever its `created` flag says. Gives the user back
/// on success.
pub fn create_outcome(user: User, answer: Result<ESActionInfo<()>, ESError>) -> (r: Option<User>)
    ensures
        is_create_outcome(user, answer, r),
{
    match answer {
        Ok(info) => if info.is_result_type(ESActionResult::Created) {
            Some(user)
        } else {
            None
        },
        Err(_) => None,
    }
}

/// What a read of one user comes to: an answer without a document is "not
/// found", which is no failure of the call.
pub fn lookup_outcome(answer: Result<ESActionInfo<User>, ESError>) -> (r: Lookup)
    ensures
        is_lookup_outcome(answer, r),
{
    match answer {
        Ok(info) => match info.source {
            Some(u) => Lookup::Found(u),
            None => Lookup::NotFound,
        },
        Err(_) => Lookup::Failed,
    }
}

/// The users a search found, or `None` where the search failed.
pub fn search_outcome(answer: Result<ESSearchResult, ESError>) -> (r: Option<Vec<User>>)
    ensures
        r is Some == answer is Ok,
        r matches Some(us) ==> users_of_hits(answer->Ok_0.hits.hits@, us@),
{
    match answer {
        Ok(found) => Some(found.users()),
        Err(_) => None,
    }
}

/// A write counts as done exactly when the store's answer reads and its
/// result tag is `created`; a `created` flag of `true` beside another tag,
/// or beside none, does not make it so.
pub proof fn lemma_created_tag_decides(
    user: User,
    j: JsonValue,
    answer: Result<ESActionInfo<()>, ESError>,
    r: Option<User>,
)
    requires
        is_post_answer(Reply::Json(j), answer),
        is_create_outcome(user, answer, r),
    ensures
        r is Some == (header_reads(j) && no_source(j) && optional_result(lookup(j, "result"@)) == Some(
            Some(ESActionResult::Created),
        )),
{
}

/// An answer to a read that reads but carries no document is "not found":
/// neither a failed call nor an unreadable answer.
pub proof fn lemma_missing_document_not_found(
    j: JsonValue,
    answer: Result<ESActionInfo<User>, ESError>,
    r: Lookup,
)
    requires
        header_reads(j),
        no_source(j),
        is_get_answer(Reply::Json(j), answer),
        is_lookup_outcome(answer, r),
    ensures
        answer is Ok,
        r is NotFound,
{
}

} // verus!
