use vstd::prelude::*;

use crate::query::{MatchClause, QueryDSLInput, QueryInput, SearchInput};
use crate::text::{parse_u64, parsed_u64};

verus! {

/// The value given for `key` among the parameters: the first pair that
/// names it.
pub open spec fn param(ps: Seq<(String, String)>, key: Seq<char>) -> Option<Seq<char>>
    decreases ps.len(),
{
    if ps.len() == 0 {
        None
    } else if ps[0].0@ == key {
        Some(ps[0].1@)
    } else {
        param(ps.drop_first(), key)
    }
}

/// The fields a structured search may name, in the order their clauses are
/// written.
pub open spec fn searchable_fields() -> Seq<Seq<char>> {
    seq!["name"@, "id"@, "job"@, "relationship_status"@, "age"@]
}

/// One (field, value) pair for each of `fields` that the parameters give, in
/// the order of `fields`.
pub open spec fn match_terms(ps: Seq<(String, String)>, fields: Seq<Seq<char>>) -> Seq<
    (Seq<char>, Seq<char>),
>
    decreases fields.len(),
{
    if fields.len() == 0 {
        Seq::empty()
    } else {
        let rest = match_terms(ps, fields.drop_last());
        match param(ps, fields.last()) {
            Some(v) => rest.push((fields.last(), v)),
            None => rest,
        }
    }
}

/// At least one searchable field is among the parameters.
pub open spec fn names_a_field(ps: Seq<(String, String)>) -> bool {
    exists|k: int| 0 <= k < searchable_fields().len() && #[trigger] param(ps, searchable_fields()[k]) is Some
}

pub open spec fn clause_pairs(cs: Seq<MatchClause>) -> Seq<(Seq<char>, Seq<char>)> {
    cs.map_values(|c: MatchClause| (c.name@, c.search@))
}

/// The number given for `key`, or `default` where it is absent or not a
/// number.
pub open spec fn count_param(ps: Seq<(String, String)>, key: Seq<char>, default: u64) -> u64 {
    match param(ps, key) {
        Some(t) => match parsed_u64(t) {
            Some(n) => n,
            None => default,
        },
        None => default,
    }
}

/// The value given for `key`.
pub fn param_value<'a>(params: &'a Vec<(String, String)>, key: &str) -> (r: Option<&'a String>)
    ensures
        r is Some ==> param(params@, key@) == Some(r->0@),
        r is None ==> param(params@, key@) is None,
{
    let mut i: usize = 0;
    assert(params@.skip(0) =~= params@);
    while i < params.len()
        invariant
            0 <= i <= params@.len(),
            param(params@, key@) == param(params@.skip(i as int), key@),
        decreases params@.len() - i,
    {
        assert(params@.skip(i as int).drop_first() =~= params@.skip(i + 1));
        assert(params@.skip(i as int)[0] == params@[i as int]);
        if crate::json::same_text(params[i].0.as_str(), key) {
            return Some(&params[i].1);
        }
        i = i + 1;
    }
    None
}

proof fn lemma_terms_empty(ps: Seq<(String, String)>, fields: Seq<Seq<char>>)
    ensures
        (match_terms(ps, fields).len() == 0) == (forall|k: int|
            0 <= k < fields.len() ==> #[trigger] param(ps, fields[k]) is None),
    decreases fields.len(),
{
    if fields.len() > 0 {
        lemma_terms_empty(ps, fields.drop_last());
        assert(forall|k: int| 0 <= k < fields.len() - 1 ==> fields.drop_last()[k] == fields[k]);
        if param(ps, fields.last()) is None {
            assert forall|k: int| 0 <= k < fields.drop_last().len() && #[trigger] param(ps, fields[k]) is None
                implies param(ps, fields.drop_last()[k]) is None by {}
        }
    }
}

/// Turns the parameters of a search request into the search sent to the
/// store. A `query` parameter makes a text search and outweighs every other
/// field; otherwise each searchable field given becomes a `must` clause; with
/// none of them every document matches. `size` and `from` that are absent or
/// not numbers fall back to 30 and 0.
pub fn search_input(params: &Vec<(String, String)>) -> (r: SearchInput)
    ensures
        param(params@, "query"@) matches Some(t) ==> (r.query matches QueryInput::Text(s) && s@ == t),
        param(params@, "query"@) is None && names_a_field(params@) ==> (r.query matches QueryInput::Bool(d)
            && d.must matches Some(v) && clause_pairs(v@) == match_terms(params@, searchable_fields())
            && d.must_not is None && d.filter is None && d.should is None),
        param(params@, "query"@) is None && !names_a_field(params@) ==> r.query is MatchAll,
        r.size == Some(count_param(params@, "size"@, 30)),
        r.from == Some(count_param(params@, "from"@, 0)),
{
    let query = match param_value(params, "query") {
        Some(t) => QueryInput::Text(t.clone()),
        None => {
            let fields: Vec<&str> = vec!["name", "id", "job", "relationship_status", "age"];
            assert(fields@.map_values(|f: &str| f@) =~= searchable_fields());
            let mut must: Vec<MatchClause> = Vec::new();
            let mut i: usize = 0;
            while i < fields.len()
                invariant
                    i <= fields@.len(),
                    fields@.map_values(|f: &str| f@) == searchable_fields(),
                    clause_pairs(must@) == match_terms(
                        params@,
                        searchable_fields().subrange(0, i as int),
                    ),
                decreases fields@.len() - i,
            {
                let ghost prefix = searchable_fields().subrange(0, i + 1);
                assert(prefix.drop_last() =~= searchable_fields().subrange(0, i as int));
                assert(prefix.last() == fields@[i as int]@);
                match param_value(params, fields[i]) {
                    Some(v) => {
                        must.push(MatchClause::new(fields[i].to_owned(), v.clone()));
                        assert(clause_pairs(must@) =~= match_terms(params@, prefix));
                    },
                    None => {},
                }
                i = i + 1;
            }
            assert(searchable_fields().subrange(0, 5) =~= searchable_fields());
            proof {
                lemma_terms_empty(params@, searchable_fields());
            }
            if must.len() > 0 {
                let mut d = QueryDSLInput::empty();
                d.must = Some(must);
                QueryInput::Bool(d)
            } else {
                QueryInput::MatchAll
            }
        },
    };
    let size = match param_value(params, "size") {
        Some(t) => match parse_u64(t.as_str()) {
            Some(n) => n,
            None => 30,
        },
        None => 30,
    };
    let from = match param_value(params, "from") {
        Some(t) => match parse_u64(t.as_str()) {
            Some(n) => n,
            None => 0,
        },
        None => 0,
    };
    SearchInput::new(query, Some(size), Some(from))
}

} // verus!
