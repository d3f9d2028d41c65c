use vstd::prelude::*;

verus! {

/// A JSON document as the query builder produces it and as the response
/// mapping reads it. Objects keep their members in order.
#[derive(Debug, PartialEq)]
pub enum JsonValue {
    Null,
    Bool(bool),
    /// A number that is a non-negative integer fitting in `u64`.
    UInt(u64),
    /// A negative integer.
    Int(i64),
    /// Any other number, as its decimal text.
    Decimal(String),
    Str(String),
    Array(Vec<JsonValue>),
    Object(Vec<(String, JsonValue)>),
}

/// The value of the first member named `key`, if any.
pub open spec fn member(entries: Seq<(String, JsonValue)>, key: Seq<char>) -> Option<JsonValue>
    decreases entries.len(),
{
    if entries.len() == 0 {
        None
    } else if entries[0].0@ == key {
        Some(entries[0].1)
    } else {
        member(entries.drop_first(), key)
    }
}

/// `j` is a string whose text is `s`.
pub open spec fn is_text(j: JsonValue, s: Seq<char>) -> bool {
    j matches JsonValue::Str(t) && t@ == s
}

/// The value of the first member named `key` of an object.
pub open spec fn lookup(j: JsonValue, key: Seq<char>) -> Option<JsonValue> {
    match j {
        JsonValue::Object(es) => member(es@, key),
        _ => None,
    }
}

impl JsonValue {
    /// The object `{ key: value }`.
    pub fn single(key: String, value: JsonValue) -> (r: JsonValue)
        ensures
            r matches JsonValue::Object(es) && es@.len() == 1 && es@[0].0@ == key@
                && es@[0].1 == value,
    {
        let mut es: Vec<(String, JsonValue)> = Vec::new();
        es.push((key, value));
        JsonValue::Object(es)
    }

    /// The value of the first member of an object named `key`; `None` for a
    /// value that is not an object.
    pub fn get(&self, key: &str) -> (r: Option<&JsonValue>)
        ensures
            r is Some ==> lookup(*self, key@) == Some(*r->0),
            r is None ==> lookup(*self, key@) is None,
    {
        match self {
            JsonValue::Object(es) => {
                let mut i: usize = 0;
                assert(es@.skip(0) =~= es@);
                while i < es.len()
                    invariant
                        0 <= i <= es@.len(),
                        lookup(*self, key@) == member(es@, key@),
                        member(es@, key@) == member(es@.skip(i as int), key@),
                    decreases es@.len() - i,
                {
                    assert(es@.skip(i as int).drop_first() =~= es@.skip(i + 1));
                    assert(es@.skip(i as int)[0] == es@[i as int]);
                    if same_text(es[i].0.as_str(), key) {
                        return Some(&es[i].1);
                    }
                    i = i + 1;
                }
                None
            },
            _ => None,
        }
    }
}

proof fn lemma_member_remove(es: Seq<(String, JsonValue)>, i: int, key: Seq<char>)
    requires
        0 <= i < es.len(),
        es[i].0@ != key,
    ensures
        member(es.remove(i), key) == member(es, key),
    decreases es.len(),
{
    if i == 0 {
        assert(es.remove(0) =~= es.drop_first());
    } else {
        assert(es.remove(i).drop_first() =~= es.drop_first().remove(i - 1));
        assert(es.remove(i)[0] == es[0]);
        lemma_member_remove(es.drop_first(), i - 1, key);
    }
}

/// Moves the first member named `key` out of `es`. The other names keep
/// their first values.
pub fn take_member(es: &mut Vec<(String, JsonValue)>, key: &str) -> (r: Option<JsonValue>)
    ensures
        r == member(old(es)@, key@),
        forall|k: Seq<char>| k != key@ ==> #[trigger] member(final(es)@, k) == member(old(es)@, k),
{
    let mut i: usize = 0;
    assert(es@.skip(0) =~= es@);
    while i < es.len()
        invariant
            0 <= i <= es@.len(),
            es@ == old(es)@,
            member(es@, key@) == member(es@.skip(i as int), key@),
        decreases es@.len() - i,
    {
        assert(es@.skip(i as int).drop_first() =~= es@.skip(i + 1));
        assert(es@.skip(i as int)[0] == es@[i as int]);
        if same_text(es[i].0.as_str(), key) {
            let ghost before = es@;
            let (_, value) = es.remove(i);
            assert forall|k: Seq<char>| k != key@ implies #[trigger] member(es@, k) == member(before, k) by {
                lemma_member_remove(before, i as int, k);
            }
            return Some(value);
        }
        i = i + 1;
    }
    None
}

/// Compares two strings character by character.
pub fn same_text(a: &str, b: &str) -> (r: bool)
    ensures
        r == (a@ == b@),
{
    let n = a.unicode_len();
    if n != b.unicode_len() {
        return false;
    }
    let mut i: usize = 0;
    while i < n
        invariant
            n == a@.len() == b@.len(),
            0 <= i <= n,
            a@.subrange(0, i as int) == b@.subrange(0, i as int),
        decreases n - i,
    {
        if a.get_char(i) != b.get_char(i) {
            return false;
        }
        assert(a@.subrange(0, i + 1) =~= a@.subrange(0, i as int).push(a@[i as int]));
        assert(b@.subrange(0, i + 1) =~= b@.subrange(0, i as int).push(b@[i as int]));
        i = i + 1;
    }
    assert(a@ =~= a@.subrange(0, n as int));
    assert(b@ =~= b@.subrange(0, n as int));
    true
}

} // verus!
