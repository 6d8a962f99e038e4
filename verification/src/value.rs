//! A structured JSON-like value: the wire language of the dispatch boundary.
//!
//! Boundary requests and replies are trees of `Value`s. Objects are kept as
//! ordered key/value lists; field lookup takes the first binding of a key,
//! so a value with duplicate keys reads like its first occurrence.

use vstd::prelude::*;

verus! {

/// A JSON-like value crossing the dispatch boundary.
///
/// Numbers are integers: nothing in the bridged state is fractional, and
/// keeping the numeric domain exact lets every consumer of a payload state
/// precisely which values it accepts.
#[derive(Debug, PartialEq)]
pub enum Value {
    Null,
    Bool(bool),
    Int(i64),
    Str(String),
    Arr(Vec<Value>),
    Obj(Vec<(String, Value)>),
}

/// The first binding of `key` in an object's field list, if any.
pub open spec fn lookup_spec(fields: Seq<(String, Value)>, key: Seq<char>) -> Option<Value>
    decreases fields.len(),
{
    if fields.len() == 0 {
        None
    } else if fields[0].0@ == key {
        Some(fields[0].1)
    } else {
        lookup_spec(fields.drop_first(), key)
    }
}

/// Field lookup on a value: `None` unless the value is an object holding `key`.
pub open spec fn get_spec(v: Value, key: Seq<char>) -> Option<Value> {
    match v {
        Value::Obj(fields) => lookup_spec(fields@, key),
        _ => None,
    }
}

/// Looking a key up finds the binding at the first index whose key matches.
pub proof fn lemma_lookup_at_first_match(fields: Seq<(String, Value)>, key: Seq<char>, i: int)
    requires
        0 <= i < fields.len(),
        fields[i].0@ == key,
        forall|j: int| 0 <= j < i ==> fields[j].0@ != key,
    ensures
        lookup_spec(fields, key) == Some(fields[i].1),
    decreases i,
{
    if i > 0 {
        lemma_lookup_at_first_match(fields.drop_first(), key, i - 1);
    }
}

/// Looking a key up that no binding carries finds nothing.
pub proof fn lemma_lookup_no_match(fields: Seq<(String, Value)>, key: Seq<char>)
    requires
        forall|j: int| 0 <= j < fields.len() ==> fields[j].0@ != key,
    ensures
        lookup_spec(fields, key) is None,
    decreases fields.len(),
{
    if fields.len() > 0 {
        lemma_lookup_no_match(fields.drop_first(), key);
    }
}

/// The index of the first binding of `key` in a field list, if any.
pub fn find_key(fields: &Vec<(String, Value)>, key: &str) -> (r: Option<usize>)
    ensures
        match r {
            Some(i) => {
                &&& i < fields@.len()
                &&& fields@[i as int].0@ == key@
                &&& forall|j: int| 0 <= j < i ==> fields@[j].0@ != key@
                &&& lookup_spec(fields@, key@) == Some(fields@[i as int].1)
            },
            None => lookup_spec(fields@, key@) is None,
        },
{
    let owned_key: String = key.to_owned();
    let n = fields.len();
    let mut i: usize = 0;
    while i < n
        invariant
            n == fields@.len(),
            i <= n,
            forall|j: int| 0 <= j < i ==> fields@[j].0@ != key@,
            owned_key@ == key@,
        decreases n - i,
    {
        if fields[i].0 == owned_key {
            proof {
                lemma_lookup_at_first_match(fields@, key@, i as int);
            }
            return Some(i);
        }
        i = i + 1;
    }
    proof {
        lemma_lookup_no_match(fields@, key@);
    }
    None
}

impl Value {
    /// A borrowed view of the field named `key`, reading the value as an
    /// object; `None` when the value is no object or has no such field.
    pub fn get<'a>(&'a self, key: &str) -> (r: Option<&'a Value>)
        ensures
            match r {
                Some(f) => get_spec(*self, key@) == Some(*f),
                None => get_spec(*self, key@) is None,
            },
    {
        match self {
            Value::Obj(fields) => match find_key(fields, key) {
                Some(i) => Some(&fields[i].1),
                None => None,
            },
            _ => None,
        }
    }
}

} // verus!
