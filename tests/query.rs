use user_search::{
    search_input, FilterClause, FilterClauseRangeOp, JsonValue, MatchClause, QueryDSLInput,
    QueryInput, RangeClause, SearchInput, TermClause,
};

fn text(s: &str) -> JsonValue {
    JsonValue::Str(s.to_string())
}

fn obj(members: Vec<(&str, JsonValue)>) -> JsonValue {
    JsonValue::Object(members.into_iter().map(|(k, v)| (k.to_string(), v)).collect())
}

fn params(pairs: &[(&str, &str)]) -> Vec<(String, String)> {
    pairs.iter().map(|(k, v)| (k.to_string(), v.to_string())).collect()
}

fn clause(name: &str, search: &str) -> MatchClause {
    MatchClause::new(name.to_string(), search.to_string())
}

#[test]
fn verify_query_input() {
    let term = FilterClause::Term(TermClause { name: String::from("a"), value: String::from("b") });
    assert_eq!(term.to_json(), obj(vec![("term", obj(vec![("a", text("b"))]))]));
    let range = FilterClause::Range(RangeClause {
        name: String::from("a"),
        operation: FilterClauseRangeOp::Gte,
        value: String::from("b"),
    });
    assert_eq!(
        range.to_json(),
        obj(vec![("range", obj(vec![("a", obj(vec![("gte", text("b"))]))]))])
    );
}

#[test]
fn range_operators_keep_their_names() {
    let ops = [
        (FilterClauseRangeOp::Gte, "gte"),
        (FilterClauseRangeOp::Lte, "lte"),
        (FilterClauseRangeOp::Gt, "gt"),
        (FilterClauseRangeOp::Lt, "lt"),
        (FilterClauseRangeOp::Eq, "eq"),
        (FilterClauseRangeOp::Neq, "neq"),
    ];
    for (op, key) in ops {
        assert_eq!(op.key(), key);
        let r = RangeClause { name: "age".to_string(), operation: op, value: "3".to_string() };
        assert_eq!(r.to_json(), obj(vec![("range", obj(vec![("age", obj(vec![(key, text("3"))]))]))]));
    }
}

#[test]
fn match_clause_shape() {
    assert_eq!(
        clause("name", "bob").to_json(),
        obj(vec![("match", obj(vec![("name", text("bob"))]))])
    );
}

#[test]
fn query_parameter_wins_over_fields() {
    let s = search_input(&params(&[("name", "ann"), ("query", "bob OR ann"), ("age", "3")]));
    assert_eq!(s.query, QueryInput::Text("bob OR ann".to_string()));
}

#[test]
fn fields_become_must_clauses_in_field_order() {
    let s = search_input(&params(&[
        ("age", "30"),
        ("job", "cook"),
        ("color", "red"),
        ("name", "ann"),
    ]));
    let mut expected = QueryDSLInput::empty();
    expected.must = Some(vec![clause("name", "ann"), clause("job", "cook"), clause("age", "30")]);
    assert_eq!(s.query, QueryInput::Bool(expected));
}

#[test]
fn every_searchable_field_is_used() {
    let s = search_input(&params(&[
        ("relationship_status", "single"),
        ("id", "x1"),
        ("name", "ann"),
        ("job", "cook"),
        ("age", "30"),
    ]));
    let mut expected = QueryDSLInput::empty();
    expected.must = Some(vec![
        clause("name", "ann"),
        clause("id", "x1"),
        clause("job", "cook"),
        clause("relationship_status", "single"),
        clause("age", "30"),
    ]);
    assert_eq!(s.query, QueryInput::Bool(expected));
}

#[test]
fn no_known_field_matches_all() {
    assert_eq!(search_input(&params(&[("color", "red")])).query, QueryInput::MatchAll);
    assert_eq!(search_input(&Vec::new()).query, QueryInput::MatchAll);
}

#[test]
fn size_and_from_defaults() {
    let s = search_input(&params(&[("from", "abc")]));
    assert_eq!(s.from, Some(0));
    assert_eq!(s.size, Some(30));
    let s = search_input(&Vec::new());
    assert_eq!((s.size, s.from), (Some(30), Some(0)));
}

#[test]
fn size_and_from_parsed() {
    let s = search_input(&params(&[("size", "10"), ("from", "+5")]));
    assert_eq!((s.size, s.from), (Some(10), Some(5)));
    let s = search_input(&params(&[("size", "18446744073709551615"), ("from", "-1")]));
    assert_eq!((s.size, s.from), (Some(u64::MAX), Some(0)));
    let s = search_input(&params(&[("size", "18446744073709551616"), ("from", "")]));
    assert_eq!((s.size, s.from), (Some(30), Some(0)));
    let s = search_input(&params(&[("size", "+"), ("from", "1 ")]));
    assert_eq!((s.size, s.from), (Some(30), Some(0)));
}

#[test]
fn bool_query_writes_only_must() {
    let mut d = QueryDSLInput::empty();
    d.must = Some(vec![clause("name", "ann")]);
    d.should = Some(Vec::new());
    let j = QueryInput::Bool(d).to_json();
    let must = JsonValue::Array(vec![obj(vec![("match", obj(vec![("name", text("ann"))]))])]);
    assert_eq!(j, obj(vec![("bool", obj(vec![("must", must)]))]));
}

#[test]
fn bool_query_writes_lists_in_order() {
    let d = QueryDSLInput {
        must: None,
        must_not: Some(vec![clause("job", "cook")]),
        filter: Some(vec![FilterClause::Term(TermClause {
            name: "age".to_string(),
            value: "3".to_string(),
        })]),
        should: Some(vec![TermClause { name: "name".to_string(), value: "ann".to_string() }]),
    };
    let j = d.to_json();
    let keys: Vec<String> = match &j {
        JsonValue::Object(es) => es.iter().map(|(k, _)| k.clone()).collect(),
        _ => panic!("not an object"),
    };
    assert_eq!(keys, vec!["must_not", "filter", "should"]);
}

#[test]
fn match_all_shape() {
    assert_eq!(QueryInput::MatchAll.to_json(), obj(vec![("match_all", obj(vec![]))]));
}

#[test]
fn text_query_has_null_body_query() {
    let s = SearchInput::new(QueryInput::Text("bob".to_string()), Some(30), Some(0));
    assert_eq!(
        s.to_json(),
        obj(vec![("from", JsonValue::UInt(0)), ("size", JsonValue::UInt(30)), ("query", JsonValue::Null)])
    );
    let s = SearchInput::new(QueryInput::MatchAll, None, Some(7));
    assert_eq!(
        s.to_json(),
        obj(vec![
            ("from", JsonValue::UInt(7)),
            ("size", JsonValue::Null),
            ("query", obj(vec![("match_all", obj(vec![]))])),
        ])
    );
}
