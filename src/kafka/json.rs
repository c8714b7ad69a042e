use vstd::prelude::*;

verus! {

/// A JSON document as a tree, the payload carried by an envelope.
/// A number keeps its literal text, so no precision is lost in transit.
#[derive(Debug)]
pub enum JsonValue {
    Null,
    Bool(bool),
    Number(String),
    Str(String),
    Array(Vec<JsonValue>),
    Object(Vec<(String, JsonValue)>),
}

/// `i` is the first position of a member named `key`.
pub open spec fn first_key_at(fields: Seq<(String, JsonValue)>, key: Seq<char>, i: int) -> bool {
    &&& 0 <= i < fields.len()
    &&& fields[i].0@ == key
    &&& forall|j: int| 0 <= j < i ==> fields[j].0@ != key
}

/// What looking up `key` in an object yields: its first member of that name.
pub open spec fn member(fields: Seq<(String, JsonValue)>, key: Seq<char>) -> Option<JsonValue> {
    if exists|i: int| first_key_at(fields, key, i) {
        Some(fields[choose|i: int| first_key_at(fields, key, i)].1)
    } else {
        None
    }
}

pub proof fn lemma_first_key_unique(fields: Seq<(String, JsonValue)>, key: Seq<char>, i: int, j: int)
    requires
        first_key_at(fields, key, i),
        first_key_at(fields, key, j),
    ensures
        i == j,
{
}

pub proof fn lemma_member_at(fields: Seq<(String, JsonValue)>, key: Seq<char>, i: int)
    requires
        first_key_at(fields, key, i),
    ensures
        member(fields, key) == Some(fields[i].1),
{
    let c = choose|k: int| first_key_at(fields, key, k);
    lemma_first_key_unique(fields, key, i, c);
}

pub proof fn lemma_member_absent(fields: Seq<(String, JsonValue)>, key: Seq<char>)
    requires
        forall|i: int| 0 <= i < fields.len() ==> fields[i].0@ != key,
    ensures
        member(fields, key) == None::<JsonValue>,
{
}

/// Compares two strings character by character.
pub fn text_eq(a: &str, b: &str) -> (r: bool)
    ensures
        r == (a@ == b@),
{
    let x = a.to_owned();
    let y = b.to_owned();
    x == y
}

/// Finds the first member named `key`.
pub fn find_member(fields: &Vec<(String, JsonValue)>, key: &str) -> (r: Option<usize>)
    ensures
        match r {
            Some(i) => first_key_at(fields@, key@, i as int),
            None => forall|i: int| 0 <= i < fields@.len() ==> fields@[i].0@ != key@,
        },
{
    let mut i: usize = 0;
    while i < fields.len()
        invariant
            i <= fields@.len(),
            forall|j: int| 0 <= j < i ==> fields@[j].0@ != key@,
        decreases fields@.len() - i,
    {
        if text_eq(fields[i].0.as_str(), key) {
            return Some(i);
        }
        i += 1;
    }
    None
}

/// Looks up `key` in an object's members.
pub fn get_member<'a>(fields: &'a Vec<(String, JsonValue)>, key: &str) -> (r: Option<&'a JsonValue>)
    ensures
        match r {
            Some(v) => member(fields@, key@) == Some(*v),
            None => member(fields@, key@) == None::<JsonValue>,
        },
{
    match find_member(fields, key) {
        Some(i) => {
            proof {
                lemma_member_at(fields@, key@, i as int);
            }
            Some(&fields[i].1)
        },
        None => {
            proof {
                lemma_member_absent(fields@, key@);
            }
            None
        },
    }
}

/// A member pair: the name and its value.
pub fn json_member(key: &str, value: JsonValue) -> (r: (String, JsonValue))
    ensures
        r.0@ == key@,
        r.1 == value,
{
    (key.to_owned(), value)
}

} // verus!
