//! The application state that the bridge manages, and its wire encoding.
//!
//! `AppState` is the single authoritative value of the system: a counter and
//! a theme. `state_to_value` writes it as the canonical boundary object
//! `{"counter": .., "theme": {"is_dark": ..}}`, and `value_to_state` reads
//! such an object back, rejecting anything that does not fit the schema.

use vstd::prelude::*;

use crate::error::ActionError;
use crate::value::{get_spec, Value};

verus! {

/// The theme part of the application state.
#[derive(Debug, Clone, Copy, PartialEq, Eq, Structural)]
pub struct ThemeState {
    pub is_dark: bool,
}

/// The application state owned by the state container.
#[derive(Debug, Clone, Copy, PartialEq, Eq, Structural)]
pub struct AppState {
    pub counter: i32,
    pub theme: ThemeState,
}

impl AppState {
    /// The state a fresh container starts from: counter 0, dark theme.
    pub open spec fn initial_spec() -> AppState {
        AppState { counter: 0, theme: ThemeState { is_dark: true } }
    }
}

impl Default for AppState {
    fn default() -> (r: AppState)
        ensures
            r == AppState::initial_spec(),
    {
        AppState { counter: 0, theme: ThemeState { is_dark: true } }
    }
}

/// The state described by a boundary value, if the value fits the schema:
/// an object whose `counter` field is an integer in `i32` range and whose
/// `theme` field is an object with a boolean `is_dark` field. Other fields
/// are ignored; a missing or ill-typed required field rejects the value.
pub open spec fn value_to_state_spec(v: Value) -> Option<AppState> {
    match get_spec(v, "counter"@) {
        Some(Value::Int(c)) => if i32::MIN <= c <= i32::MAX {
            match get_spec(v, "theme"@) {
                Some(t) => match get_spec(t, "is_dark"@) {
                    Some(Value::Bool(d)) => Some(
                        AppState { counter: c as i32, theme: ThemeState { is_dark: d } },
                    ),
                    _ => None,
                },
                _ => None,
            }
        } else {
            None
        },
        _ => None,
    }
}

/// The canonical wire encoding of a state: exactly the two fields
/// `counter` and `theme`, in that order, with `theme` holding exactly
/// `is_dark`.
pub open spec fn is_state_value(v: Value, s: AppState) -> bool {
    &&& v matches Value::Obj(fields)
    &&& fields@.len() == 2
    &&& fields@[0].0@ == "counter"@
    &&& fields@[0].1 == Value::Int(s.counter as i64)
    &&& fields@[1].0@ == "theme"@
    &&& fields@[1].1 matches Value::Obj(theme_fields)
    &&& theme_fields@.len() == 1
    &&& theme_fields@[0].0@ == "is_dark"@
    &&& theme_fields@[0].1 == Value::Bool(s.theme.is_dark)
}

/// Any canonically encoded state decodes back to itself: writing a state
/// with `state_to_value` and reading it with `value_to_state` round-trips.
pub proof fn lemma_state_value_roundtrip(v: Value, s: AppState)
    requires
        is_state_value(v, s),
    ensures
        value_to_state_spec(v) == Some(s),
{
    reveal_strlit("counter");
    reveal_strlit("theme");
    reveal_strlit("is_dark");
    assert("counter"@.len() == 7);
    assert("theme"@.len() == 5);
    let fields = v->Obj_0;
    crate::value::lemma_lookup_at_first_match(fields@, "counter"@, 0);
    crate::value::lemma_lookup_at_first_match(fields@, "theme"@, 1);
    let theme_fields = fields@[1].1->Obj_0;
    crate::value::lemma_lookup_at_first_match(theme_fields@, "is_dark"@, 0);
    assert(get_spec(v, "counter"@) == Some(fields@[0].1));
    assert(get_spec(v, "theme"@) == Some(fields@[1].1));
    assert(get_spec(fields@[1].1, "is_dark"@) == Some(theme_fields@[0].1));
}

/// Serialize a state into its canonical boundary object.
pub fn state_to_value(s: &AppState) -> (r: Value)
    ensures
        is_state_value(r, *s),
        value_to_state_spec(r) == Some(*s),
{
    let theme_fields: Vec<(String, Value)> = vec![
        ("is_dark".to_owned(), Value::Bool(s.theme.is_dark)),
    ];
    let fields: Vec<(String, Value)> = vec![
        ("counter".to_owned(), Value::Int(s.counter as i64)),
        ("theme".to_owned(), Value::Obj(theme_fields)),
    ];
    let r = Value::Obj(fields);
    proof {
        lemma_state_value_roundtrip(r, *s);
    }
    r
}

/// Deserialize a boundary value into a state, rejecting values that do not
/// fit the schema with a `Deserialization` error.
pub fn value_to_state(v: &Value) -> (r: Result<AppState, ActionError>)
    ensures
        match value_to_state_spec(*v) {
            Some(s) => r == Ok::<AppState, ActionError>(s),
            None => r == Err::<AppState, ActionError>(ActionError::Deserialization),
        },
{
    let counter: i32 = match v.get("counter") {
        Some(c) => match c {
            Value::Int(c64) => {
                if i32::MIN as i64 <= *c64 && *c64 <= i32::MAX as i64 {
                    *c64 as i32
                } else {
                    return Err(ActionError::Deserialization);
                }
            },
            _ => {
                return Err(ActionError::Deserialization);
            },
        },
        None => {
            return Err(ActionError::Deserialization);
        },
    };
    let is_dark: bool = match v.get("theme") {
        Some(t) => match t.get("is_dark") {
            Some(d) => match d {
                Value::Bool(b) => *b,
                _ => {
                    return Err(ActionError::Deserialization);
                },
            },
            None => {
                return Err(ActionError::Deserialization);
            },
        },
        None => {
            return Err(ActionError::Deserialization);
        },
    };
    Ok(AppState { counter, theme: ThemeState { is_dark } })
}

} // verus!
