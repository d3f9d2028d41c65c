use vstd::prelude::*;

use crate::json::{is_text, JsonValue};

verus! {

/// A search as it is sent to the store: the query and the window of hits.
#[derive(Debug, PartialEq)]
pub struct SearchInput {
    pub from: Option<u64>,
    pub size: Option<u64>,
    pub query: QueryInput,
}

/// The three shapes a query takes.
#[derive(Debug, PartialEq)]
pub enum QueryInput {
    /// Raw text in the store's query-string syntax.
    Text(String),
    /// Structured clauses, sent as a body.
    Bool(QueryDSLInput),
    /// Every document.
    MatchAll,
}

/// The clause lists of a boolean query; an absent or empty list is left out
/// of the serialized form.
#[derive(Debug, PartialEq)]
pub struct QueryDSLInput {
    pub must: Option<Vec<MatchClause>>,
    pub must_not: Option<Vec<MatchClause>>,
    pub filter: Option<Vec<FilterClause>>,
    pub should: Option<Vec<TermClause>>,
}

/// A full-text match of `search` against the field `name`.
#[derive(Debug, PartialEq)]
pub struct MatchClause {
    pub name: String,
    pub search: String,
}

#[derive(Debug, PartialEq)]
pub enum FilterClause {
    Term(TermClause),
    Range(RangeClause),
}

/// An exact match of `value` on the field `name`.
#[derive(Debug, PartialEq)]
pub struct TermClause {
    pub name: String,
    pub value: String,
}

/// A comparison of the field `name` against `value`.
#[derive(Debug, PartialEq)]
pub struct RangeClause {
    pub name: String,
    pub operation: FilterClauseRangeOp,
    pub value: String,
}

#[derive(Clone, Copy, Debug, PartialEq, Eq, Structural)]
pub enum FilterClauseRangeOp {
    Gte,
    Lte,
    Gt,
    Lt,
    Eq,
    Neq,
}

/// The key under which an operator is written inside a range clause.
pub open spec fn op_key(op: FilterClauseRangeOp) -> Seq<char> {
    match op {
        FilterClauseRangeOp::Gte => "gte"@,
        FilterClauseRangeOp::Lte => "lte"@,
        FilterClauseRangeOp::Gt => "gt"@,
        FilterClauseRangeOp::Lt => "lt"@,
        FilterClauseRangeOp::Eq => "eq"@,
        FilterClauseRangeOp::Neq => "neq"@,
    }
}

/// The value of `j` when it is an object with exactly one member, named `key`.
pub open spec fn sole_member(j: JsonValue, key: Seq<char>) -> Option<JsonValue> {
    match j {
        JsonValue::Object(es) => if es@.len() == 1 && es@[0].0@ == key {
            Some(es@[0].1)
        } else {
            None
        },
        _ => None,
    }
}

/// `j` is `{ outer: { field: text } }`.
pub open spec fn is_field_clause(j: JsonValue, outer: Seq<char>, field: Seq<char>, text: Seq<char>) -> bool {
    match sole_member(j, outer) {
        Some(inner) => match sole_member(inner, field) {
            Some(v) => is_text(v, text),
            None => false,
        },
        None => false,
    }
}

/// `j` is `{ "match": { name: search } }`.
pub open spec fn is_match_json(j: JsonValue, c: MatchClause) -> bool {
    is_field_clause(j, "match"@, c.name@, c.search@)
}

/// `j` is `{ "term": { name: value } }`.
pub open spec fn is_term_json(j: JsonValue, c: TermClause) -> bool {
    is_field_clause(j, "term"@, c.name@, c.value@)
}

/// `j` is `{ "range": { name: { op: value } } }`.
pub open spec fn is_range_json(j: JsonValue, c: RangeClause) -> bool {
    match sole_member(j, "range"@) {
        Some(inner) => match sole_member(inner, c.name@) {
            Some(cmp) => match sole_member(cmp, op_key(c.operation)) {
                Some(v) => is_text(v, c.value@),
                None => false,
            },
            None => false,
        },
        None => false,
    }
}

/// A filter clause is written as the clause it holds, with no tag of its own.
pub open spec fn is_filter_json(j: JsonValue, c: FilterClause) -> bool {
    match c {
        FilterClause::Term(t) => is_term_json(j, t),
        FilterClause::Range(r) => is_range_json(j, r),
    }
}

/// `j` is an array whose items are the clauses `cs`, in order.
pub open spec fn is_match_list_json(j: JsonValue, cs: Seq<MatchClause>) -> bool {
    match j {
        JsonValue::Array(items) => items@.len() == cs.len() && forall|k: int|
            0 <= k < cs.len() ==> #[trigger] is_match_json(items@[k], cs[k]),
        _ => false,
    }
}

pub open spec fn is_filter_list_json(j: JsonValue, cs: Seq<FilterClause>) -> bool {
    match j {
        JsonValue::Array(items) => items@.len() == cs.len() && forall|k: int|
            0 <= k < cs.len() ==> #[trigger] is_filter_json(items@[k], cs[k]),
        _ => false,
    }
}

pub open spec fn is_term_list_json(j: JsonValue, cs: Seq<TermClause>) -> bool {
    match j {
        JsonValue::Array(items) => items@.len() == cs.len() && forall|k: int|
            0 <= k < cs.len() ==> #[trigger] is_term_json(items@[k], cs[k]),
        _ => false,
    }
}

/// A clause list that is present and not empty.
pub open spec fn listed<T>(o: Option<Vec<T>>) -> bool {
    o matches Some(v) && v@.len() > 0
}

pub open spec fn key_if(present: bool, key: Seq<char>) -> Seq<Seq<char>> {
    if present {
        seq![key]
    } else {
        Seq::empty()
    }
}

/// The member names of a boolean query's serialized form, in order: one for
/// each clause list that is present and not empty.
pub open spec fn dsl_keys(d: QueryDSLInput) -> Seq<Seq<char>> {
    key_if(listed(d.must), "must"@) + key_if(listed(d.must_not), "must_not"@) + key_if(
        listed(d.filter),
        "filter"@,
    ) + key_if(listed(d.should), "should"@)
}

/// The member `e` of a boolean query's serialized form holds the clause list
/// that its name says.
pub open spec fn fits_dsl(e: (String, JsonValue), d: QueryDSLInput) -> bool {
    &&& e.0@ == "must"@ ==> (d.must matches Some(v) && is_match_list_json(e.1, v@))
    &&& e.0@ == "must_not"@ ==> (d.must_not matches Some(v) && is_match_list_json(e.1, v@))
    &&& e.0@ == "filter"@ ==> (d.filter matches Some(v) && is_filter_list_json(e.1, v@))
    &&& e.0@ == "should"@ ==> (d.should matches Some(v) && is_term_list_json(e.1, v@))
}

/// `j` is the serialized form of the boolean query `d`.
pub open spec fn is_dsl_json(j: JsonValue, d: QueryDSLInput) -> bool {
    match j {
        JsonValue::Object(es) => es@.map_values(|e: (String, JsonValue)| e.0@) == dsl_keys(d)
            && forall|k: int| 0 <= k < es@.len() ==> #[trigger] fits_dsl(es@[k], d),
        _ => false,
    }
}

/// `j` is the serialized form of `q`. Raw text travels outside the body, so
/// its place in the body is `null`.
pub open spec fn is_query_json(j: JsonValue, q: QueryInput) -> bool {
    match q {
        QueryInput::Text(_) => j is Null,
        QueryInput::Bool(d) => match sole_member(j, "bool"@) {
            Some(b) => is_dsl_json(b, d),
            None => false,
        },
        QueryInput::MatchAll => match sole_member(j, "match_all"@) {
            Some(b) => b matches JsonValue::Object(es) && es@.len() == 0,
            None => false,
        },
    }
}

pub open spec fn is_count_json(j: JsonValue, n: Option<u64>) -> bool {
    match n {
        Some(k) => j == JsonValue::UInt(k),
        None => j is Null,
    }
}

/// `j` is the body of the search `s`: `from`, `size` and `query`, in that order.
pub open spec fn is_search_json(j: JsonValue, s: SearchInput) -> bool {
    match j {
        JsonValue::Object(es) => {
            &&& es@.len() == 3
            &&& es@[0].0@ == "from"@ && is_count_json(es@[0].1, s.from)
            &&& es@[1].0@ == "size"@ && is_count_json(es@[1].1, s.size)
            &&& es@[2].0@ == "query"@ && is_query_json(es@[2].1, s.query)
        },
        _ => false,
    }
}

impl FilterClauseRangeOp {
    /// The key under which the operator is written.
    pub fn key(&self) -> (r: String)
        ensures
            r@ == op_key(*self),
    {
        match self {
            FilterClauseRangeOp::Gte => "gte".to_owned(),
            FilterClauseRangeOp::Lte => "lte".to_owned(),
            FilterClauseRangeOp::Gt => "gt".to_owned(),
            FilterClauseRangeOp::Lt => "lt".to_owned(),
            FilterClauseRangeOp::Eq => "eq".to_owned(),
            FilterClauseRangeOp::Neq => "neq".to_owned(),
        }
    }
}

impl MatchClause {
    pub fn new(name: String, search: String) -> (r: Self)
        ensures
            r.name == name,
            r.search == search,
    {
        Self { name, search }
    }

    pub fn to_json(&self) -> (r: JsonValue)
        ensures
            is_match_json(r, *self),
    {
        let inner = JsonValue::single(self.name.clone(), JsonValue::Str(self.search.clone()));
        JsonValue::single("match".to_owned(), inner)
    }
}

impl TermClause {
    pub fn to_json(&self) -> (r: JsonValue)
        ensures
            is_term_json(r, *self),
    {
        let inner = JsonValue::single(self.name.clone(), JsonValue::Str(self.value.clone()));
        JsonValue::single("term".to_owned(), inner)
    }
}

impl RangeClause {
    pub fn to_json(&self) -> (r: JsonValue)
        ensures
            is_range_json(r, *self),
    {
        let cmp = JsonValue::single(self.operation.key(), JsonValue::Str(self.value.clone()));
        let inner = JsonValue::single(self.name.clone(), cmp);
        JsonValue::single("range".to_owned(), inner)
    }
}

impl FilterClause {
    pub fn to_json(&self) -> (r: JsonValue)
        ensures
            is_filter_json(r, *self),
    {
        match self {
            FilterClause::Term(t) => t.to_json(),
            FilterClause::Range(c) => c.to_json(),
        }
    }
}

fn match_list_json(cs: &Vec<MatchClause>) -> (r: JsonValue)
    ensures
        is_match_list_json(r, cs@),
{
    let mut items: Vec<JsonValue> = Vec::new();
    let mut i: usize = 0;
    while i < cs.len()
        invariant
            i <= cs@.len(),
            items@.len() == i,
            forall|k: int| 0 <= k < i ==> #[trigger] is_match_json(items@[k], cs@[k]),
        decreases cs@.len() - i,
    {
        items.push(cs[i].to_json());
        i = i + 1;
    }
    JsonValue::Array(items)
}

fn filter_list_json(cs: &Vec<FilterClause>) -> (r: JsonValue)
    ensures
        is_filter_list_json(r, cs@),
{
    let mut items: Vec<JsonValue> = Vec::new();
    let mut i: usize = 0;
    while i < cs.len()
        invariant
            i <= cs@.len(),
            items@.len() == i,
            forall|k: int| 0 <= k < i ==> #[trigger] is_filter_json(items@[k], cs@[k]),
        decreases cs@.len() - i,
    {
        items.push(cs[i].to_json());
        i = i + 1;
    }
    JsonValue::Array(items)
}

fn term_list_json(cs: &Vec<TermClause>) -> (r: JsonValue)
    ensures
        is_term_list_json(r, cs@),
{
    let mut items: Vec<JsonValue> = Vec::new();
    let mut i: usize = 0;
    while i < cs.len()
        invariant
            i <= cs@.len(),
            items@.len() == i,
            forall|k: int| 0 <= k < i ==> #[trigger] is_term_json(items@[k], cs@[k]),
        decreases cs@.len() - i,
    {
        items.push(cs[i].to_json());
        i = i + 1;
    }
    JsonValue::Array(items)
}

impl QueryDSLInput {
    /// A boolean query with no clauses at all.
    pub fn empty() -> (r: Self)
        ensures
            r.must is None && r.must_not is None && r.filter is None && r.should is None,
    {
        QueryDSLInput { must: None, must_not: None, filter: None, should: None }
    }

    pub fn to_json(&self) -> (r: JsonValue)
        ensures
            is_dsl_json(r, *self),
    {
        proof {
            reveal_strlit("must");
            reveal_strlit("must_not");
            reveal_strlit("filter");
            reveal_strlit("should");
        }
        assert("must"@.len() == 4 && "must_not"@.len() == 8);
        assert("filter"@[0] == 'f' && "should"@[0] == 's' && "must"@[0] == 'm');
        assert("must"@ != "must_not"@);
        assert("must"@ != "filter"@);
        assert("must"@ != "should"@);
        assert("must_not"@ != "filter"@);
        assert("must_not"@ != "should"@);
        assert("filter"@ != "should"@);
        let ghost d = *self;
        let mut es: Vec<(String, JsonValue)> = Vec::new();
        if let Some(v) = &self.must {
            if v.len() > 0 {
                let ghost before = es@;
                es.push(("must".to_owned(), match_list_json(v)));
                assert(fits_dsl(es@[before.len() as int], d));
                assert(forall|k: int| 0 <= k < before.len() ==> es@[k] == before[k]);
            }
        }
        assert(es@.map_values(|e: (String, JsonValue)| e.0@) =~= key_if(listed(d.must), "must"@));
        if let Some(v) = &self.must_not {
            if v.len() > 0 {
                let ghost before = es@;
                es.push(("must_not".to_owned(), match_list_json(v)));
                assert(fits_dsl(es@[before.len() as int], d));
                assert(forall|k: int| 0 <= k < before.len() ==> es@[k] == before[k]);
            }
        }
        assert(es@.map_values(|e: (String, JsonValue)| e.0@) =~= key_if(listed(d.must), "must"@)
            + key_if(listed(d.must_not), "must_not"@));
        if let Some(v) = &self.filter {
            if v.len() > 0 {
                let ghost before = es@;
                es.push(("filter".to_owned(), filter_list_json(v)));
                assert(fits_dsl(es@[before.len() as int], d));
                assert(forall|k: int| 0 <= k < before.len() ==> es@[k] == before[k]);
            }
        }
        assert(es@.map_values(|e: (String, JsonValue)| e.0@) =~= key_if(listed(d.must), "must"@)
            + key_if(listed(d.must_not), "must_not"@) + key_if(listed(d.filter), "filter"@));
        if let Some(v) = &self.should {
            if v.len() > 0 {
                let ghost before = es@;
                es.push(("should".to_owned(), term_list_json(v)));
                assert(fits_dsl(es@[before.len() as int], d));
                assert(forall|k: int| 0 <= k < before.len() ==> es@[k] == before[k]);
            }
        }
        assert(es@.map_values(|e: (String, JsonValue)| e.0@) =~= dsl_keys(d));
        assert(forall|k: int| 0 <= k < es@.len() ==> #[trigger] fits_dsl(es@[k], d));
        JsonValue::Object(es)
    }
}

impl QueryInput {
    pub fn to_json(&self) -> (r: JsonValue)
        ensures
            is_query_json(r, *self),
    {
        match self {
            QueryInput::Text(_) => JsonValue::Null,
            QueryInput::Bool(d) => JsonValue::single("bool".to_owned(), d.to_json()),
            QueryInput::MatchAll => JsonValue::single(
                "match_all".to_owned(),
                JsonValue::Object(Vec::new()),
            ),
        }
    }
}

fn count_json(n: Option<u64>) -> (r: JsonValue)
    ensures
        is_count_json(r, n),
{
    match n {
        Some(k) => JsonValue::UInt(k),
        None => JsonValue::Null,
    }
}

impl SearchInput {
    pub fn new(query: QueryInput, size: Option<u64>, from: Option<u64>) -> (r: Self)
        ensures
            r.query == query,
            r.size == size,
            r.from == from,
    {
        Self { query, from, size }
    }

    /// The body sent with the search.
    pub fn to_json(&self) -> (r: JsonValue)
        ensures
            is_search_json(r, *self),
    {
        let mut es: Vec<(String, JsonValue)> = Vec::new();
        es.push(("from".to_owned(), count_json(self.from)));
        es.push(("size".to_owned(), count_json(self.size)));
        es.push(("query".to_owned(), self.query.to_json()));
        JsonValue::Object(es)
    }
}

} // verus!

verus! {

/// A boolean query whose `must_not`, `filter` and `should` lists are absent or
/// empty is written with no member for them: `must` is the only member left,
/// and only where that list has clauses.
pub proof fn lemma_bool_writes_only_must(d: QueryDSLInput, j: JsonValue)
    requires
        !listed(d.must_not),
        !listed(d.filter),
        !listed(d.should),
        is_query_json(j, QueryInput::Bool(d)),
    ensures
        sole_member(j, "bool"@) matches Some(b) && (b matches JsonValue::Object(es) && es@.map_values(
            |e: (String, JsonValue)| e.0@,
        ) == key_if(listed(d.must), "must"@)),
{
    assert(dsl_keys(d) =~= key_if(listed(d.must), "must"@));
}

/// Every document is matched by the object `{ "match_all": {} }` and nothing
/// else.
pub proof fn lemma_match_all_shape(j: JsonValue)
    requires
        is_query_json(j, QueryInput::MatchAll),
    ensures
        j matches JsonValue::Object(es) && (es@.len() == 1 && es@[0].0@ == "match_all"@ && (
        es@[0].1 matches JsonValue::Object(inner) && inner@.len() == 0)),
{
}

} // verus!
