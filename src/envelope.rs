use vstd::prelude::*;

use crate::json::{lookup, same_text, take_member, JsonValue};
use crate::user::{is_user_json, read_text, required_text, user_of_json, User};

verus! {

/// Why a call to the store failed.
#[derive(Clone, Copy, Debug, PartialEq, Eq, Structural)]
pub enum ESError {
    /// The request did not reach the store, or no answer came back.
    ConnectionError,
    /// The answer did not have the expected shape.
    DeserializationError,
    NotFoundError,
    InvalidAddressError,
}

/// The result tag of a write; only `created` is known.
#[derive(Clone, Copy, Debug, PartialEq, Eq, Structural)]
pub enum ESActionResult {
    Created,
}

/// The store's answer to a write or a read of one document.
#[derive(Debug, PartialEq)]
pub struct ESActionInfo<T> {
    pub index: String,
    pub _type: String,
    pub id: String,
    pub version: u64,
    pub result: Option<ESActionResult>,
    pub created: Option<bool>,
    pub found: Option<bool>,
    /// The document; absent where the store found none.
    pub source: Option<T>,
}

impl<T> ESActionInfo<T> {
    /// The `created` flag, false where the store sent none.
    pub fn created(&self) -> (r: bool)
        ensures
            r == (self.created == Some(true)),
    {
        match self.created {
            Some(b) => b,
            None => false,
        }
    }

    /// The result tag is `result`. The `created` and `found` flags play no
    /// part.
    pub fn is_result_type(&self, result: ESActionResult) -> (r: bool)
        ensures
            r == (self.result == Some(result)),
    {
        match &self.result {
            Some(res) => *res == result,
            None => false,
        }
    }
}

/// The store's answer to a search.
#[derive(Debug, PartialEq)]
pub struct ESSearchResult {
    pub took: u64,
    pub timed_out: bool,
    pub hits: ESSearchResultHits,
}

#[derive(Debug, PartialEq)]
pub struct ESSearchResultHits {
    /// The store's count of matches, in a shape of its own choosing.
    pub total: JsonValue,
    pub hits: Vec<ESSearchResultHit>,
}

/// One match: where it is stored and the document as stored.
#[derive(Debug, PartialEq)]
pub struct ESSearchResultHit {
    pub id: String,
    pub index: String,
    pub source: JsonValue,
}

/// The positions of the hits whose documents read as users, in order.
pub open spec fn user_hits(hs: Seq<ESSearchResultHit>) -> Seq<int>
    decreases hs.len(),
{
    if hs.len() == 0 {
        Seq::empty()
    } else {
        let rest = user_hits(hs.drop_last());
        if is_user_json(hs.last().source) {
            rest.push(hs.len() - 1)
        } else {
            rest
        }
    }
}

/// `us` are the users that the hits `hs` hold, in order: one for each hit
/// whose document reads as a user, none for any other.
pub open spec fn users_of_hits(hs: Seq<ESSearchResultHit>, us: Seq<User>) -> bool {
    &&& us.len() == user_hits(hs).len()
    &&& forall|k: int|
        0 <= k < us.len() ==> #[trigger] user_of_json(hs[user_hits(hs)[k]].source, us[k])
}

proof fn lemma_user_hits_bounded(hs: Seq<ESSearchResultHit>)
    ensures
        forall|k: int| 0 <= k < user_hits(hs).len() ==> 0 <= #[trigger] user_hits(hs)[k] < hs.len(),
    decreases hs.len(),
{
    if hs.len() > 0 {
        let rest = user_hits(hs.drop_last());
        lemma_user_hits_bounded(hs.drop_last());
        assert(forall|k: int| 0 <= k < rest.len() ==> #[trigger] user_hits(hs)[k] == rest[k]);
    }
}

/// Of a well-formed hit followed by one whose document does not read as a
/// user, exactly one user comes out: the first hit's.
pub proof fn lemma_malformed_hit_dropped(
    good: ESSearchResultHit,
    bad: ESSearchResultHit,
    us: Seq<User>,
)
    requires
        is_user_json(good.source),
        !is_user_json(bad.source),
        users_of_hits(seq![good, bad], us),
    ensures
        us.len() == 1,
        user_of_json(good.source, us[0]),
{
    let hs = seq![good, bad];
    assert(hs.drop_last() =~= seq![good]);
    assert(seq![good].drop_last() =~= Seq::<ESSearchResultHit>::empty());
    assert(hs.last() == bad);
    assert(seq![good].last() == good);
    assert(user_hits(seq![good].drop_last()) =~= Seq::<int>::empty());
    assert(user_hits(seq![good]) =~= seq![0int]);
    assert(user_hits(hs) == user_hits(seq![good]));
    assert(hs[0] == good);
    assert(user_of_json(hs[user_hits(hs)[0]].source, us[0]));
}

impl ESSearchResult {
    /// The users among the hits. A hit whose document does not read as a
    /// user is left out; the others keep their order.
    pub fn users(&self) -> (r: Vec<User>)
        ensures
            users_of_hits(self.hits.hits@, r@),
    {
        let hs = &self.hits.hits;
        let mut out: Vec<User> = Vec::new();
        let mut i: usize = 0;
        while i < hs.len()
            invariant
                i <= hs@.len(),
                users_of_hits(hs@.subrange(0, i as int), out@),
            decreases hs@.len() - i,
        {
            let ghost pre = hs@.subrange(0, i + 1);
            assert(pre.drop_last() =~= hs@.subrange(0, i as int));
            proof {
                lemma_user_hits_bounded(pre.drop_last());
            }
            assert(forall|k: int| 0 <= k < i ==> pre[k] == hs@.subrange(0, i as int)[k]);
            match User::from_json(&hs[i].source) {
                Some(u) => {
                    out.push(u);
                },
                None => {},
            }
            assert(users_of_hits(pre, out@));
            i = i + 1;
        }
        assert(hs@.subrange(0, hs@.len() as int) =~= hs@);
        out
    }
}

pub open spec fn present(f: Option<&JsonValue>) -> Option<JsonValue> {
    match f {
        Some(v) => Some(*v),
        None => None,
    }
}

/// A member that must be a whole number that fits `u64`.
pub open spec fn required_u64(f: Option<JsonValue>) -> Option<u64> {
    match f {
        Some(JsonValue::UInt(n)) => Some(n),
        _ => None,
    }
}

/// A member that must be `true` or `false`.
pub open spec fn required_bool(f: Option<JsonValue>) -> Option<bool> {
    match f {
        Some(JsonValue::Bool(b)) => Some(b),
        _ => None,
    }
}

/// A member that may be missing or `null`, or else `true` or `false`; the
/// outer `None` marks any other value.
pub open spec fn optional_flag(f: Option<JsonValue>) -> Option<Option<bool>> {
    match f {
        None => Some(None),
        Some(JsonValue::Null) => Some(None),
        Some(JsonValue::Bool(b)) => Some(Some(b)),
        _ => None,
    }
}

/// A result tag that may be missing or `null`, or else `"created"`.
pub open spec fn optional_result(f: Option<JsonValue>) -> Option<Option<ESActionResult>> {
    match f {
        None => Some(None),
        Some(JsonValue::Null) => Some(None),
        Some(JsonValue::Str(s)) => if s@ == "created"@ {
            Some(Some(ESActionResult::Created))
        } else {
            None
        },
        _ => None,
    }
}

pub open spec fn is_number(j: JsonValue) -> bool {
    j is UInt || j is Int || j is Decimal
}

/// A member that may be missing or `null`, or else a number.
pub open spec fn optional_number(f: Option<JsonValue>) -> bool {
    match f {
        None => true,
        Some(v) => v is Null || is_number(v),
    }
}

/// `j` is an object with the members every answer about one document has.
pub open spec fn header_reads(j: JsonValue) -> bool {
    &&& j is Object
    &&& required_text(lookup(j, "_index"@)) is Some
    &&& required_text(lookup(j, "_type"@)) is Some
    &&& required_text(lookup(j, "_id"@)) is Some
    &&& required_u64(lookup(j, "_version"@)) is Some
    &&& optional_result(lookup(j, "result"@)) is Some
    &&& optional_flag(lookup(j, "created"@)) is Some
    &&& optional_flag(lookup(j, "found"@)) is Some
}

/// The fields of `info` but its document are those that `j` gives.
pub open spec fn header_of<T>(j: JsonValue, info: ESActionInfo<T>) -> bool {
    &&& required_text(lookup(j, "_index"@)) == Some(info.index@)
    &&& required_text(lookup(j, "_type"@)) == Some(info._type@)
    &&& required_text(lookup(j, "_id"@)) == Some(info.id@)
    &&& required_u64(lookup(j, "_version"@)) == Some(info.version)
    &&& optional_result(lookup(j, "result"@)) == Some(info.result)
    &&& optional_flag(lookup(j, "created"@)) == Some(info.created)
    &&& optional_flag(lookup(j, "found"@)) == Some(info.found)
}

/// `j` carries no document: `_source` is missing or `null`.
pub open spec fn no_source(j: JsonValue) -> bool {
    lookup(j, "_source"@) is None || lookup(j, "_source"@) == Some(JsonValue::Null)
}

/// `j` carries no document, or one that reads as a user.
pub open spec fn user_source_reads(j: JsonValue) -> bool {
    no_source(j) || is_user_json(lookup(j, "_source"@)->0)
}

/// `s` is the user that `j` carries, if any.
pub open spec fn user_source_of(j: JsonValue, s: Option<User>) -> bool {
    if no_source(j) {
        s is None
    } else {
        s matches Some(u) && user_of_json(lookup(j, "_source"@)->0, u)
    }
}

/// `j` reads as one hit: `_id` and `_index` strings, a numeric `_score`,
/// and a `_source` of any kind.
pub open spec fn hit_reads(j: JsonValue) -> bool {
    &&& j is Object
    &&& required_text(lookup(j, "_id"@)) is Some
    &&& required_text(lookup(j, "_index"@)) is Some
    &&& lookup(j, "_score"@) matches Some(v) && is_number(v)
    &&& lookup(j, "_source"@) is Some
}

pub open spec fn hit_of(j: JsonValue, h: ESSearchResultHit) -> bool {
    &&& required_text(lookup(j, "_id"@)) == Some(h.id@)
    &&& required_text(lookup(j, "_index"@)) == Some(h.index@)
    &&& lookup(j, "_source"@) == Some(h.source)
}

/// `j` reads as the hits of a search: a `total` of any kind, an optional
/// numeric `max_score`, and an array of hits that all read.
pub open spec fn hits_reads(j: JsonValue) -> bool {
    &&& j is Object
    &&& lookup(j, "total"@) is Some
    &&& optional_number(lookup(j, "max_score"@))
    &&& match lookup(j, "hits"@) {
        Some(JsonValue::Array(items)) => forall|k: int|
            0 <= k < items@.len() ==> #[trigger] hit_reads(items@[k]),
        _ => false,
    }
}

pub open spec fn hits_of(j: JsonValue, h: ESSearchResultHits) -> bool {
    &&& lookup(j, "total"@) == Some(h.total)
    &&& match lookup(j, "hits"@) {
        Some(JsonValue::Array(items)) => items@.len() == h.hits@.len() && forall|k: int|
            0 <= k < items@.len() ==> #[trigger] hit_of(items@[k], h.hits@[k]),
        _ => false,
    }
}

/// `j` reads as the answer to a search.
pub open spec fn search_reads(j: JsonValue) -> bool {
    &&& j is Object
    &&& required_u64(lookup(j, "took"@)) is Some
    &&& required_bool(lookup(j, "timed_out"@)) is Some
    &&& lookup(j, "hits"@) matches Some(h) && hits_reads(h)
}

pub open spec fn search_of(j: JsonValue, r: ESSearchResult) -> bool {
    &&& required_u64(lookup(j, "took"@)) == Some(r.took)
    &&& required_bool(lookup(j, "timed_out"@)) == Some(r.timed_out)
    &&& lookup(j, "hits"@) matches Some(h) && hits_of(h, r.hits)
}

fn read_u64(f: Option<&JsonValue>) -> (r: Option<u64>)
    ensures
        r == required_u64(present(f)),
{
    match f {
        Some(JsonValue::UInt(n)) => Some(*n),
        _ => None,
    }
}

fn read_bool(f: Option<&JsonValue>) -> (r: Option<bool>)
    ensures
        r == required_bool(present(f)),
{
    match f {
        Some(JsonValue::Bool(b)) => Some(*b),
        _ => None,
    }
}

fn read_flag(f: Option<&JsonValue>) -> (r: Option<Option<bool>>)
    ensures
        r == optional_flag(present(f)),
{
    match f {
        None => Some(None),
        Some(JsonValue::Null) => Some(None),
        Some(JsonValue::Bool(b)) => Some(Some(*b)),
        _ => None,
    }
}

fn read_result(f: Option<&JsonValue>) -> (r: Option<Option<ESActionResult>>)
    ensures
        r == optional_result(present(f)),
{
    match f {
        None => Some(None),
        Some(JsonValue::Null) => Some(None),
        Some(JsonValue::Str(s)) => if same_text(s.as_str(), "created") {
            Some(Some(ESActionResult::Created))
        } else {
            None
        },
        _ => None,
    }
}

fn number_or_absent(f: Option<&JsonValue>) -> (r: bool)
    ensures
        r == optional_number(present(f)),
{
    match f {
        None => true,
        Some(JsonValue::Null) => true,
        Some(v) => is_number_value(v),
    }
}

fn is_number_value(v: &JsonValue) -> (r: bool)
    ensures
        r == is_number(*v),
{
    match v {
        JsonValue::UInt(_) => true,
        JsonValue::Int(_) => true,
        JsonValue::Decimal(_) => true,
        _ => false,
    }
}

/// The members every answer about one document has; the document is left
/// out.
fn read_header(j: &JsonValue) -> (r: Option<ESActionInfo<()>>)
    ensures
        r is Some == header_reads(*j),
        r matches Some(h) ==> header_of(*j, h) && h.source is None,
{
    match j {
        JsonValue::Object(_) => {},
        _ => return None,
    }
    let index = match read_text(j.get("_index")) {
        Some(t) => t,
        None => return None,
    };
    let _type = match read_text(j.get("_type")) {
        Some(t) => t,
        None => return None,
    };
    let id = match read_text(j.get("_id")) {
        Some(t) => t,
        None => return None,
    };
    let version = match read_u64(j.get("_version")) {
        Some(n) => n,
        None => return None,
    };
    let result = match read_result(j.get("result")) {
        Some(o) => o,
        None => return None,
    };
    let created = match read_flag(j.get("created")) {
        Some(o) => o,
        None => return None,
    };
    let found = match read_flag(j.get("found")) {
        Some(o) => o,
        None => return None,
    };
    Some(ESActionInfo { index, _type, id, version, result, created, found, source: None })
}

impl ESActionInfo<()> {
    /// Reads the answer to a write, which carries no document.
    pub fn from_json(j: &JsonValue) -> (r: Result<Self, ESError>)
        ensures
            r is Ok == (header_reads(*j) && no_source(*j)),
            r matches Err(e) ==> e == ESError::DeserializationError,
            r matches Ok(info) ==> header_of(*j, info) && info.source is None,
    {
        let h = match read_header(j) {
            Some(h) => h,
            None => return Err(ESError::DeserializationError),
        };
        match j.get("_source") {
            None => Ok(h),
            Some(JsonValue::Null) => Ok(h),
            Some(_) => Err(ESError::DeserializationError),
        }
    }
}

impl ESActionInfo<User> {
    /// Reads the answer to a read of one user. A missing document is no
    /// error; one that does not read as a user is.
    pub fn from_json(j: &JsonValue) -> (r: Result<Self, ESError>)
        ensures
            r is Ok == (header_reads(*j) && user_source_reads(*j)),
            r matches Err(e) ==> e == ESError::DeserializationError,
            r matches Ok(info) ==> header_of(*j, info) && user_source_of(*j, info.source),
    {
        let h = match read_header(j) {
            Some(h) => h,
            None => return Err(ESError::DeserializationError),
        };
        let source = match j.get("_source") {
            None => None,
            Some(JsonValue::Null) => None,
            Some(doc) => match User::from_json(doc) {
                Some(u) => Some(u),
                None => return Err(ESError::DeserializationError),
            },
        };
        let ESActionInfo { index, _type, id, version, result, created, found, source: _ } = h;
        Ok(ESActionInfo { index, _type, id, version, result, created, found, source })
    }
}

fn hit_from_json(j: JsonValue) -> (r: Option<ESSearchResultHit>)
    ensures
        r is Some == hit_reads(j),
        r matches Some(h) ==> hit_of(j, h),
{
    let id = match read_text(j.get("_id")) {
        Some(t) => t,
        None => return None,
    };
    let index = match read_text(j.get("_index")) {
        Some(t) => t,
        None => return None,
    };
    match j.get("_score") {
        Some(v) => if !is_number_value(v) {
            return None;
        },
        None => return None,
    }
    let ghost whole = j;
    let mut es = match j {
        JsonValue::Object(es) => es,
        _ => return None,
    };
    assert(lookup(whole, "_source"@) == crate::json::member(es@, "_source"@));
    let source = match take_member(&mut es, "_source") {
        Some(v) => v,
        None => return None,
    };
    Some(ESSearchResultHit { id, index, source })
}

fn hits_list(items: Vec<JsonValue>) -> (r: Option<Vec<ESSearchResultHit>>)
    ensures
        r is Some == forall|k: int| 0 <= k < items@.len() ==> #[trigger] hit_reads(items@[k]),
        r matches Some(hs) ==> hs@.len() == items@.len() && forall|k: int|
            0 <= k < items@.len() ==> #[trigger] hit_of(items@[k], hs@[k]),
{
    let ghost all = items@;
    let n = items.len();
    let mut rest = items;
    let mut hits: Vec<ESSearchResultHit> = Vec::new();
    let mut i: usize = 0;
    while i < n
        invariant
            i <= n == all.len(),
            all == items@,
            rest@ == all.skip(i as int),
            hits@.len() == i,
            forall|k: int| 0 <= k < i ==> #[trigger] hit_reads(all[k]),
            forall|k: int| 0 <= k < i ==> #[trigger] hit_of(all[k], hits@[k]),
        decreases n - i,
    {
        assert(rest@[0] == all[i as int]);
        let item = rest.remove(0);
        assert(rest@ =~= all.skip(i + 1));
        let ghost before = hits@;
        match hit_from_json(item) {
            Some(h) => {
                hits.push(h);
            },
            None => {
                assert(!hit_reads(all[i as int]));
                return None;
            },
        }
        assert forall|k: int| 0 <= k < i + 1 implies #[trigger] hit_of(all[k], hits@[k]) by {
            if k < i {
                assert(hits@[k] == before[k]);
                assert(hit_of(all[k], before[k]));
            }
        }
        i = i + 1;
    }
    Some(hits)
}

fn hits_from_json(j: JsonValue) -> (r: Option<ESSearchResultHits>)
    ensures
        r is Some == hits_reads(j),
        r matches Some(h) ==> hits_of(j, h),
{
    if !number_or_absent(j.get("max_score")) {
        return None;
    }
    let ghost whole = j;
    let mut es = match j {
        JsonValue::Object(es) => es,
        _ => return None,
    };
    proof {
        reveal_strlit("total");
        reveal_strlit("hits");
    }
    assert("hits"@.len() == 4 && "total"@.len() == 5);
    assert("hits"@ != "total"@);
    let total = match take_member(&mut es, "total") {
        Some(v) => v,
        None => return None,
    };
    let listed = take_member(&mut es, "hits");
    let mut items = match listed {
        Some(JsonValue::Array(items)) => items,
        _ => return None,
    };
    let hits = match hits_list(items) {
        Some(v) => v,
        None => return None,
    };
    Some(ESSearchResultHits { total, hits })
}

impl ESSearchResult {
    /// Reads the answer to a search. The hits' documents are kept as they
    /// came; see `users`.
    pub fn from_json(j: JsonValue) -> (r: Result<Self, ESError>)
        ensures
            r is Ok == search_reads(j),
            r matches Err(e) ==> e == ESError::DeserializationError,
            r matches Ok(s) ==> search_of(j, s),
    {
        let took = match read_u64(j.get("took")) {
            Some(n) => n,
            None => return Err(ESError::DeserializationError),
        };
        let timed_out = match read_bool(j.get("timed_out")) {
            Some(b) => b,
            None => return Err(ESError::DeserializationError),
        };
        let mut es = match j {
            JsonValue::Object(es) => es,
            _ => return Err(ESError::DeserializationError),
        };
        let hits = match take_member(&mut es, "hits") {
            Some(h) => match hits_from_json(h) {
                Some(h) => h,
                None => return Err(ESError::DeserializationError),
            },
            None => return Err(ESError::DeserializationError),
        };
        Ok(ESSearchResult { took, timed_out, hits })
    }
}

} // verus!
