use user_search::client::{create_outcome, get_answer, lookup_outcome, post_answer, search_answer, search_outcome};
use user_search::{
    ESActionInfo, ESActionResult, ESError, ESSearchResult, JsonValue, Lookup, RelationshipStatus,
    Reply, User, UserInput,
};

const ID: &str = "67e55044-10b1-426f-9247-bb680e5fe0c8";

fn text(s: &str) -> JsonValue {
    JsonValue::Str(s.to_string())
}

fn obj(members: Vec<(&str, JsonValue)>) -> JsonValue {
    JsonValue::Object(members.into_iter().map(|(k, v)| (k.to_string(), v)).collect())
}

fn user_doc() -> JsonValue {
    obj(vec![
        ("id", text(ID)),
        ("name", text("Ann")),
        ("age", JsonValue::UInt(30)),
        ("job", text("cook")),
        ("relationship_status", text("married")),
    ])
}

fn header(extra: Vec<(&str, JsonValue)>) -> JsonValue {
    let mut members = vec![
        ("_index", text("users")),
        ("_type", text("_doc")),
        ("_id", text("abc123")),
        ("_version", JsonValue::UInt(1)),
    ];
    members.extend(extra);
    obj(members)
}

fn ann() -> User {
    User::with_id(
        UserInput {
            name: "Ann".to_string(),
            age: 30,
            job: Some("cook".to_string()),
            relationship_status: Some(RelationshipStatus::Married),
        },
        ID.to_string(),
    )
}

fn hit(source: JsonValue) -> JsonValue {
    obj(vec![
        ("_id", text("h")),
        ("_index", text("users")),
        ("_score", JsonValue::Decimal("1.5".to_string())),
        ("_source", source),
    ])
}

fn search_body(hits: Vec<JsonValue>) -> JsonValue {
    obj(vec![
        ("took", JsonValue::UInt(3)),
        ("timed_out", JsonValue::Bool(false)),
        (
            "hits",
            obj(vec![
                ("total", obj(vec![("value", JsonValue::UInt(2)), ("relation", text("eq"))])),
                ("max_score", JsonValue::Null),
                ("hits", JsonValue::Array(hits)),
            ]),
        ),
    ])
}

#[test]
fn user_reads_from_document() {
    assert_eq!(User::from_json(&user_doc()), Some(ann()));
}

#[test]
fn user_round_trips_through_document() {
    assert_eq!(User::from_json(&ann().to_json()), Some(ann()));
}

#[test]
fn user_id_is_made_canonical() {
    let doc = obj(vec![
        ("id", text("67E55044-10B1-426F-9247-BB680E5FE0C8")),
        ("name", text("Ann")),
        ("age", JsonValue::UInt(30)),
    ]);
    let u = User::from_json(&doc).unwrap();
    assert_eq!(u.id, ID);
    assert_eq!(u.job, None);
    assert_eq!(u.relationship_status, None);
}

#[test]
fn malformed_users_are_refused() {
    let cases = vec![
        obj(vec![("id", text(ID)), ("age", JsonValue::UInt(3))]),
        obj(vec![("id", text("not-an-id")), ("name", text("A")), ("age", JsonValue::UInt(3))]),
        obj(vec![("id", text(ID)), ("name", text("A")), ("age", JsonValue::UInt(256))]),
        obj(vec![("id", text(ID)), ("name", text("A")), ("age", JsonValue::Int(-1))]),
        obj(vec![("id", text(ID)), ("name", text("A")), ("age", JsonValue::UInt(3)), ("job", JsonValue::UInt(1))]),
        obj(vec![
            ("id", text(ID)),
            ("name", text("A")),
            ("age", JsonValue::UInt(3)),
            ("relationship_status", text("Single")),
        ]),
        text("Ann"),
    ];
    for c in cases {
        assert_eq!(User::from_json(&c), None);
    }
}

#[test]
fn fresh_users_get_distinct_ids() {
    let input = UserInput { name: "Bo".to_string(), age: 4, job: None, relationship_status: None };
    let a = User::from_input(input.clone());
    let b = User::from_input(input);
    assert_eq!(a.id.chars().count(), 36);
    assert_ne!(a.id, b.id);
    assert_eq!(a.name, "Bo");
}

#[test]
fn malformed_hit_is_dropped() {
    let missing_name = obj(vec![("id", text(ID)), ("age", JsonValue::UInt(30))]);
    let result = ESSearchResult::from_json(search_body(vec![hit(user_doc()), hit(missing_name)])).unwrap();
    assert_eq!(result.hits.hits.len(), 2);
    assert_eq!(result.users(), vec![ann()]);
    assert_eq!(search_outcome(Ok(result)), Some(vec![ann()]));
}

#[test]
fn search_answer_errors() {
    assert_eq!(search_answer(Reply::Unreachable), Err(ESError::ConnectionError));
    assert_eq!(search_answer(Reply::NotJson), Err(ESError::DeserializationError));
    let no_took = obj(vec![("timed_out", JsonValue::Bool(false))]);
    assert_eq!(search_answer(Reply::Json(no_took)), Err(ESError::DeserializationError));
    let bad_score = obj(vec![("_id", text("h")), ("_index", text("u")), ("_score", JsonValue::Null), ("_source", user_doc())]);
    assert_eq!(
        search_answer(Reply::Json(search_body(vec![bad_score]))),
        Err(ESError::DeserializationError)
    );
    assert_eq!(search_outcome(Err(ESError::ConnectionError)), None);
}

#[test]
fn created_tag_decides_success() {
    let created = post_answer(Reply::Json(header(vec![("result", text("created"))])));
    assert!(created.as_ref().unwrap().is_result_type(ESActionResult::Created));
    assert_eq!(create_outcome(ann(), created), Some(ann()));

    let flag_only = post_answer(Reply::Json(header(vec![("created", JsonValue::Bool(true))])));
    let info = flag_only.as_ref().unwrap();
    assert!(info.created());
    assert!(!info.is_result_type(ESActionResult::Created));
    assert_eq!(create_outcome(ann(), flag_only), None);

    let updated = post_answer(Reply::Json(header(vec![("result", text("updated")), ("created", JsonValue::Bool(true))])));
    assert_eq!(updated, Err(ESError::DeserializationError));
    assert_eq!(create_outcome(ann(), updated), None);
}

#[test]
fn post_answer_errors() {
    assert_eq!(post_answer(Reply::Unreachable), Err(ESError::ConnectionError));
    assert_eq!(post_answer(Reply::NotJson), Err(ESError::DeserializationError));
    let no_type = obj(vec![("_index", text("users")), ("_id", text("a")), ("_version", JsonValue::UInt(1))]);
    assert_eq!(post_answer(Reply::Json(no_type)), Err(ESError::DeserializationError));
    assert_eq!(create_outcome(ann(), Err(ESError::ConnectionError)), None);
}

#[test]
fn missing_document_is_not_found() {
    let answer = get_answer(Reply::Json(header(vec![("found", JsonValue::Bool(false))])));
    let info = answer.as_ref().unwrap();
    assert_eq!(info.found, Some(false));
    assert!(info.source.is_none());
    assert_eq!(lookup_outcome(answer), Lookup::NotFound);
}

#[test]
fn found_document_is_read() {
    let answer = get_answer(Reply::Json(header(vec![("found", JsonValue::Bool(true)), ("_source", user_doc())])));
    assert_eq!(lookup_outcome(answer), Lookup::Found(ann()));
    let broken = get_answer(Reply::Json(header(vec![("_source", text("x"))])));
    assert_eq!(broken, Err(ESError::DeserializationError));
    assert_eq!(lookup_outcome(broken), Lookup::Failed);
    assert_eq!(lookup_outcome(get_answer(Reply::Unreachable)), Lookup::Failed);
}

#[test]
fn created_flag_reads() {
    let info: ESActionInfo<()> = post_answer(Reply::Json(header(vec![]))).unwrap();
    assert!(!info.created());
    assert_eq!(info.version, 1);
    assert_eq!(info.id, "abc123");
}
