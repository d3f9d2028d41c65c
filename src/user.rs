use vstd::prelude::*;

use crate::json::{lookup, same_text, JsonValue};

verus! {

#[derive(Clone, Copy, Debug, PartialEq, Eq, Structural)]
pub enum RelationshipStatus {
    Single,
    Married,
}

/// What a client sends to create a user: everything but the identifier.
#[derive(Clone, Debug, PartialEq)]
pub struct UserInput {
    pub name: String,
    pub age: u8,
    pub job: Option<String>,
    pub relationship_status: Option<RelationshipStatus>,
}

/// A stored user. The identifier is assigned once, when the user is made.
#[derive(Clone, Debug, PartialEq)]
pub struct User {
    pub id: String,
    pub name: String,
    pub age: u8,
    pub job: Option<String>,
    pub relationship_status: Option<RelationshipStatus>,
}

/// The canonical (hyphenated, lower-case) text of the identifier that `s`
/// spells, or `None` where `s` spells none.
pub uninterp spec fn uuid_text(s: Seq<char>) -> Option<Seq<char>>;

/// Relies on `uuid::Uuid::new_v4`: a random identifier, written by its
/// `Display` in the 36-character hyphenated form.
#[verifier::external_body]
fn fresh_id() -> (r: String)
    ensures
        r@.len() == 36,
{
    uuid::Uuid::new_v4().to_string()
}

/// Relies on `uuid::Uuid::parse_str` to read an identifier, and on the
/// `Display` of `uuid::Uuid` to write it back in canonical form.
#[verifier::external_body]
fn canonical_id(s: &str) -> (r: Option<String>)
    ensures
        match r {
            Some(t) => uuid_text(s@) == Some(t@),
            None => uuid_text(s@) is None,
        },
{
    uuid::Uuid::parse_str(s).ok().map(|u| u.to_string())
}

pub open spec fn text_view(o: Option<String>) -> Option<Seq<char>> {
    match o {
        Some(s) => Some(s@),
        None => None,
    }
}

/// A member that must be a string.
pub open spec fn required_text(f: Option<JsonValue>) -> Option<Seq<char>> {
    match f {
        Some(JsonValue::Str(s)) => Some(s@),
        _ => None,
    }
}

/// A member that must be a whole number from 0 to 255.
pub open spec fn required_byte(f: Option<JsonValue>) -> Option<u8> {
    match f {
        Some(JsonValue::UInt(n)) => if n <= 255 {
            Some(n as u8)
        } else {
            None
        },
        _ => None,
    }
}

/// A member that may be missing or `null`, or else a string; the outer
/// `None` marks any other value.
pub open spec fn optional_text(f: Option<JsonValue>) -> Option<Option<Seq<char>>> {
    match f {
        None => Some(None),
        Some(JsonValue::Null) => Some(None),
        Some(JsonValue::Str(s)) => Some(Some(s@)),
        _ => None,
    }
}

/// A member that may be missing or `null`, or else `"single"` or `"married"`.
pub open spec fn optional_status(f: Option<JsonValue>) -> Option<Option<RelationshipStatus>> {
    match f {
        None => Some(None),
        Some(JsonValue::Null) => Some(None),
        Some(JsonValue::Str(s)) => if s@ == "single"@ {
            Some(Some(RelationshipStatus::Single))
        } else if s@ == "married"@ {
            Some(Some(RelationshipStatus::Married))
        } else {
            None
        },
        _ => None,
    }
}

/// The identifier a document gives, in canonical form.
pub open spec fn document_id(j: JsonValue) -> Option<Seq<char>> {
    match required_text(lookup(j, "id"@)) {
        Some(t) => uuid_text(t),
        None => None,
    }
}

/// `j` is an object that reads as a user: an identifier, a name, an age
/// that fits a byte, and optional job and relationship status of the right
/// kinds. Members it does not know are ignored.
pub open spec fn is_user_json(j: JsonValue) -> bool {
    &&& j is Object
    &&& document_id(j) is Some
    &&& required_text(lookup(j, "name"@)) is Some
    &&& required_byte(lookup(j, "age"@)) is Some
    &&& optional_text(lookup(j, "job"@)) is Some
    &&& optional_status(lookup(j, "relationship_status"@)) is Some
}

/// `u` is what the document `j` reads as.
pub open spec fn user_of_json(j: JsonValue, u: User) -> bool {
    &&& document_id(j) == Some(u.id@)
    &&& required_text(lookup(j, "name"@)) == Some(u.name@)
    &&& required_byte(lookup(j, "age"@)) == Some(u.age)
    &&& optional_text(lookup(j, "job"@)) == Some(text_view(u.job))
    &&& optional_status(lookup(j, "relationship_status"@)) == Some(u.relationship_status)
}

pub(crate) fn read_text(f: Option<&JsonValue>) -> (r: Option<String>)
    ensures
        text_view(r) == required_text(match f {
            Some(v) => Some(*v),
            None => None,
        }),
{
    match f {
        Some(JsonValue::Str(s)) => Some(s.clone()),
        _ => None,
    }
}

fn read_byte(f: Option<&JsonValue>) -> (r: Option<u8>)
    ensures
        r == required_byte(match f {
            Some(v) => Some(*v),
            None => None,
        }),
{
    match f {
        Some(JsonValue::UInt(n)) => if *n <= 255 {
            Some(*n as u8)
        } else {
            None
        },
        _ => None,
    }
}

fn read_optional_text(f: Option<&JsonValue>) -> (r: Option<Option<String>>)
    ensures
        match r {
            Some(o) => optional_text(match f {
                Some(v) => Some(*v),
                None => None,
            }) == Some(text_view(o)),
            None => optional_text(match f {
                Some(v) => Some(*v),
                None => None,
            }) is None,
        },
{
    match f {
        None => Some(None),
        Some(JsonValue::Null) => Some(None),
        Some(JsonValue::Str(s)) => Some(Some(s.clone())),
        _ => None,
    }
}

fn read_status(f: Option<&JsonValue>) -> (r: Option<Option<RelationshipStatus>>)
    ensures
        r == optional_status(match f {
            Some(v) => Some(*v),
            None => None,
        }),
{
    match f {
        None => Some(None),
        Some(JsonValue::Null) => Some(None),
        Some(JsonValue::Str(s)) => if same_text(s.as_str(), "single") {
            Some(Some(RelationshipStatus::Single))
        } else if same_text(s.as_str(), "married") {
            Some(Some(RelationshipStatus::Married))
        } else {
            None
        },
        _ => None,
    }
}

pub open spec fn status_text(s: RelationshipStatus) -> Seq<char> {
    match s {
        RelationshipStatus::Single => "single"@,
        RelationshipStatus::Married => "married"@,
    }
}

/// `j` is a member that holds the optional text `t`, `null` for none.
pub open spec fn is_optional_text_json(j: JsonValue, t: Option<Seq<char>>) -> bool {
    match t {
        Some(s) => j matches JsonValue::Str(v) && v@ == s,
        None => j is Null,
    }
}

/// `j` is the stored form of `u`: `id`, `name`, `age`, `job` and
/// `relationship_status`, in that order, with `null` for what is absent.
pub open spec fn is_user_document(j: JsonValue, u: User) -> bool {
    match j {
        JsonValue::Object(es) => {
            &&& es@.len() == 5
            &&& es@[0].0@ == "id"@ && is_optional_text_json(es@[0].1, Some(u.id@))
            &&& es@[1].0@ == "name"@ && is_optional_text_json(es@[1].1, Some(u.name@))
            &&& es@[2].0@ == "age"@ && es@[2].1 == JsonValue::UInt(u.age as u64)
            &&& es@[3].0@ == "job"@ && is_optional_text_json(es@[3].1, text_view(u.job))
            &&& es@[4].0@ == "relationship_status"@ && is_optional_text_json(
                es@[4].1,
                match u.relationship_status {
                    Some(s) => Some(status_text(s)),
                    None => None,
                },
            )
        },
        _ => false,
    }
}

impl RelationshipStatus {
    /// The name under which the status is stored.
    pub fn as_text(&self) -> (r: String)
        ensures
            r@ == status_text(*self),
    {
        match self {
            RelationshipStatus::Single => "single".to_owned(),
            RelationshipStatus::Married => "married".to_owned(),
        }
    }
}

impl User {
    /// The stored form of the user.
    pub fn to_json(&self) -> (r: JsonValue)
        ensures
            is_user_document(r, *self),
    {
        let mut es: Vec<(String, JsonValue)> = Vec::new();
        es.push(("id".to_owned(), JsonValue::Str(self.id.clone())));
        es.push(("name".to_owned(), JsonValue::Str(self.name.clone())));
        es.push(("age".to_owned(), JsonValue::UInt(self.age as u64)));
        let job = match &self.job {
            Some(t) => JsonValue::Str(t.clone()),
            None => JsonValue::Null,
        };
        es.push(("job".to_owned(), job));
        let status = match &self.relationship_status {
            Some(s) => JsonValue::Str(s.as_text()),
            None => JsonValue::Null,
        };
        es.push(("relationship_status".to_owned(), status));
        JsonValue::Object(es)
    }

    /// Makes a user from the client's input, with a fresh identifier.
    pub fn from_input(input: UserInput) -> (r: User)
        ensures
            r.id@.len() == 36,
            r.name == input.name,
            r.age == input.age,
            r.job == input.job,
            r.relationship_status == input.relationship_status,
    {
        User::with_id(input, fresh_id())
    }

    /// Makes a user from the client's input and the identifier given.
    pub fn with_id(input: UserInput, id: String) -> (r: User)
        ensures
            r.id == id,
            r.name == input.name,
            r.age == input.age,
            r.job == input.job,
            r.relationship_status == input.relationship_status,
    {
        let UserInput { name, age, job, relationship_status } = input;
        User { id, name, age, job, relationship_status }
    }

    /// Reads a stored document as a user; `None` where it is not one.
    pub fn from_json(j: &JsonValue) -> (r: Option<User>)
        ensures
            r is Some == is_user_json(*j),
            r matches Some(u) ==> user_of_json(*j, u),
    {
        match j {
            JsonValue::Object(_) => {},
            _ => return None,
        }
        let id = match read_text(j.get("id")) {
            Some(t) => match canonical_id(t.as_str()) {
                Some(c) => c,
                None => return None,
            },
            None => return None,
        };
        let name = match read_text(j.get("name")) {
            Some(t) => t,
            None => return None,
        };
        let age = match read_byte(j.get("age")) {
            Some(n) => n,
            None => return None,
        };
        let job = match read_optional_text(j.get("job")) {
            Some(o) => o,
            None => return None,
        };
        let relationship_status = match read_status(j.get("relationship_status")) {
            Some(o) => o,
            None => return None,
        };
        Some(User { id, name, age, job, relationship_status })
    }
}

} // verus!

verus! {

/// The stored form of a user reads back as that same user, provided its
/// identifier is already in canonical form.
pub proof fn lemma_user_document_reads_back(j: JsonValue, u: User)
    requires
        is_user_document(j, u),
        uuid_text(u.id@) == Some(u.id@),
    ensures
        is_user_json(j),
        user_of_json(j, u),
{
    reveal_strlit("id");
    reveal_strlit("name");
    reveal_strlit("age");
    reveal_strlit("job");
    reveal_strlit("relationship_status");
    reveal_strlit("single");
    reveal_strlit("married");
    let es = j->Object_0@;
    assert("id"@.len() == 2 && "age"@.len() == 3 && "job"@.len() == 3 && "name"@.len() == 4);
    assert("relationship_status"@.len() == 19 && "age"@[0] == 'a' && "job"@[0] == 'j');
    assert("single"@.len() == 6 && "married"@.len() == 7);
    assert(es.drop_first().drop_first().drop_first().drop_first().drop_first().len() == 0);
    reveal_with_fuel(crate::json::member, 6);
}

} // verus!
