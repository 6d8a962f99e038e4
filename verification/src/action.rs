//! Actions: the tagged requests that ask the reducer to transform state.
//!
//! A boundary value becomes a [`ZubridgeAction`] in one of two ways. The
//! strict reading, [`parse_action`], demands an object with a string `type`
//! field and fails fast otherwise. The lenient reading,
//! [`extract_action`], tolerates front ends that label their actions
//! differently: it also accepts `action_type`, or a nested `action`
//! object, and falls back to the tag `UNKNOWN` rather than failing,
//! leaving rejection to the reducer.
//!
//! [`CounterAction`] is the closed vocabulary of the counter app: boundary
//! objects tagged `COUNTER:INCREMENT`, `COUNTER:DECREMENT`, `COUNTER:RESET`,
//! `THEME:TOGGLE` or `COUNTER:SET` (integer payload, defaulting to 0 when
//! absent).

use vstd::prelude::*;

use crate::error::ActionError;
use crate::value::{find_key, get_spec, Value};

verus! {

/// An action crossing the boundary: a string label and an optional payload.
#[derive(Debug, PartialEq)]
pub struct ZubridgeAction {
    /// A string label for the action.
    pub action_type: String,
    /// An optional payload for the action.
    pub payload: Option<Value>,
}

/// The strict reading of a boundary value as an action: the value must be
/// an object whose `type` field is a string. A missing `payload` field and
/// an explicit `null` both read as no payload, the way an optional field
/// reads from JSON.
pub open spec fn raw_action_spec(v: Value) -> Option<ZubridgeAction> {
    match get_spec(v, "type"@) {
        Some(Value::Str(t)) => Some(
            ZubridgeAction {
                action_type: t,
                payload: match get_spec(v, "payload"@) {
                    Some(Value::Null) => None,
                    other => other,
                },
            },
        ),
        _ => None,
    }
}

/// Read a boundary value as an action, failing fast with `MalformedAction`
/// when the `type` field is absent or not a string.
pub fn parse_action(v: Value) -> (r: Result<ZubridgeAction, ActionError>)
    ensures
        match raw_action_spec(v) {
            Some(a) => r == Ok::<ZubridgeAction, ActionError>(a),
            None => r == Err::<ZubridgeAction, ActionError>(ActionError::MalformedAction),
        },
{
    match v {
        Value::Obj(mut fields) => {
            let action_type: String = match find_key(&fields, "type") {
                Some(i) => match &fields[i].1 {
                    Value::Str(t) => t.clone(),
                    _ => {
                        return Err(ActionError::MalformedAction);
                    },
                },
                None => {
                    return Err(ActionError::MalformedAction);
                },
            };
            let payload: Option<Value> = match find_key(&fields, "payload") {
                Some(j) => match fields.remove(j).1 {
                    Value::Null => None,
                    p => Some(p),
                },
                None => None,
            };
            Ok(ZubridgeAction { action_type, payload })
        },
        _ => Err(ActionError::MalformedAction),
    }
}

/// Encode an action as a boundary value: the object
/// `{"type": .., "payload": ..}`, writing a missing payload as `null`.
/// Reading the encoding back with [`parse_action`] recovers the action,
/// since an explicit `null` reads as no payload again.
pub fn action_to_value(a: ZubridgeAction) -> (r: Value)
    ensures
        r matches Value::Obj(fields) && fields@.len() == 2,
        get_spec(r, "type"@) == Some(Value::Str(a.action_type)),
        get_spec(r, "payload"@) == Some(
            match a.payload {
                Some(p) => p,
                None => Value::Null,
            },
        ),
{
    let payload_value: Value = match a.payload {
        Some(p) => p,
        None => Value::Null,
    };
    let fields: Vec<(String, Value)> = vec![
        ("type".to_owned(), Value::Str(a.action_type)),
        ("payload".to_owned(), payload_value),
    ];
    let r = Value::Obj(fields);
    proof {
        reveal_strlit("type");
        reveal_strlit("payload");
        let fs = r->Obj_0;
        crate::value::lemma_lookup_at_first_match(fs@, "type"@, 0);
        assert("type"@.len() == 4);
        assert("payload"@.len() == 7);
        crate::value::lemma_lookup_at_first_match(fs@, "payload"@, 1);
    }
    r
}

/// The action label the lenient reading settles on: the value's
/// `action_type` field, else its `type` field, else the `action_type` field
/// of its nested `action` object; `UNKNOWN` when the winning field is not a
/// string or no field is found at all.
pub open spec fn extract_type_spec(v: Value) -> Seq<char> {
    match get_spec(v, "action_type"@) {
        Some(t) => str_tag_or_unknown_spec(t),
        None => match get_spec(v, "type"@) {
            Some(t) => str_tag_or_unknown_spec(t),
            None => match get_spec(v, "action"@) {
                Some(a) => match get_spec(a, "action_type"@) {
                    Some(t) => str_tag_or_unknown_spec(t),
                    None => "UNKNOWN"@,
                },
                None => "UNKNOWN"@,
            },
        },
    }
}

/// A candidate tag value reads as itself when it is a string, else as
/// `UNKNOWN`.
pub open spec fn str_tag_or_unknown_spec(t: Value) -> Seq<char> {
    match t {
        Value::Str(s) => s@,
        _ => "UNKNOWN"@,
    }
}

/// The payload the lenient reading settles on: the value's own `payload`
/// field, else the `payload` field of its nested `action` object.
pub open spec fn extract_payload_spec(v: Value) -> Option<Value> {
    match get_spec(v, "payload"@) {
        Some(p) => Some(p),
        None => match get_spec(v, "action"@) {
            Some(a) => get_spec(a, "payload"@),
            None => None,
        },
    }
}

/// Clone a candidate tag into an owned label, standing in `UNKNOWN` for
/// anything that is not a string.
fn str_tag_or_unknown(t: &Value) -> (r: String)
    ensures
        r@ == str_tag_or_unknown_spec(*t),
{
    match t {
        Value::Str(s) => s.clone(),
        _ => "UNKNOWN".to_owned(),
    }
}

/// Read a boundary value as an action without ever failing: accept the
/// label from `action_type`, `type` or a nested `action` object, and fall
/// back to the tag `UNKNOWN` so that rejection is the reducer's decision.
pub fn extract_action(v: Value) -> (a: ZubridgeAction)
    ensures
        a.action_type@ == extract_type_spec(v),
        a.payload == extract_payload_spec(v),
{
    let action_type: String = match v.get("action_type") {
        Some(t) => str_tag_or_unknown(t),
        None => match v.get("type") {
            Some(t) => str_tag_or_unknown(t),
            None => match v.get("action") {
                Some(a) => match a.get("action_type") {
                    Some(t) => str_tag_or_unknown(t),
                    None => "UNKNOWN".to_owned(),
                },
                None => "UNKNOWN".to_owned(),
            },
        },
    };
    let payload: Option<Value> = match v {
        Value::Obj(mut fields) => match find_key(&fields, "payload") {
            Some(i) => Some(fields.remove(i).1),
            None => match find_key(&fields, "action") {
                Some(j) => match fields.remove(j).1 {
                    Value::Obj(mut inner) => match find_key(&inner, "payload") {
                        Some(k) => Some(inner.remove(k).1),
                        None => None,
                    },
                    _ => None,
                },
                None => None,
            },
        },
        _ => None,
    };
    ZubridgeAction { action_type, payload }
}

/// The typed actions of the counter application.
#[derive(Debug, Clone, Copy, PartialEq, Eq, Structural)]
pub enum CounterAction {
    Increment,
    Decrement,
    Reset,
    ToggleTheme,
    SetCounter { payload: i32 },
}

/// Whether a label and payload pair reads as a `CounterAction`.
pub open spec fn counter_parts_ok(t: Seq<char>, p: Option<Value>) -> bool {
    ||| t == "COUNTER:INCREMENT"@
    ||| t == "COUNTER:DECREMENT"@
    ||| t == "COUNTER:RESET"@
    ||| t == "THEME:TOGGLE"@
    ||| (t == "COUNTER:SET"@ && match p {
        None => true,
        Some(Value::Int(i)) => i32::MIN <= i <= i32::MAX,
        Some(_) => false,
    })
}

/// The `CounterAction` a label and payload pair reads as, when it reads as
/// one. A missing `COUNTER:SET` payload defaults to 0.
pub open spec fn counter_parts_action(t: Seq<char>, p: Option<Value>) -> CounterAction {
    if t == "COUNTER:INCREMENT"@ {
        CounterAction::Increment
    } else if t == "COUNTER:DECREMENT"@ {
        CounterAction::Decrement
    } else if t == "COUNTER:RESET"@ {
        CounterAction::Reset
    } else if t == "THEME:TOGGLE"@ {
        CounterAction::ToggleTheme
    } else {
        match p {
            None => CounterAction::SetCounter { payload: 0 },
            Some(Value::Int(i)) => CounterAction::SetCounter { payload: i as i32 },
            Some(_) => CounterAction::SetCounter { payload: 0 },
        }
    }
}

/// The error a label and payload pair is rejected with, when it does not
/// read as a `CounterAction`: an unknown label is reported as such, and a
/// known label with an ill-shaped payload as an invalid payload.
pub open spec fn counter_parts_err(e: ActionError, t: Seq<char>, p: Option<Value>) -> bool {
    if t == "COUNTER:SET"@ {
        e matches ActionError::InvalidPayload(u) && u@ == t
    } else {
        e matches ActionError::UnknownActionType(u) && u@ == t
    }
}

/// Read a label and payload pair as a `CounterAction`, rejecting unknown
/// labels and ill-shaped `COUNTER:SET` payloads.
pub fn counter_action_from_parts(t: &String, p: Option<&Value>) -> (r: Result<
    CounterAction,
    ActionError,
>)
    ensures
        match r {
            Ok(a) => counter_parts_ok(t@, opt_deref_spec(p)) && a == counter_parts_action(
                t@,
                opt_deref_spec(p),
            ),
            Err(e) => {
                &&& !counter_parts_ok(t@, opt_deref_spec(p))
                &&& counter_parts_err(e, t@, opt_deref_spec(p))
                &&& e == (if t@ == "COUNTER:SET"@ {
                    ActionError::InvalidPayload(*t)
                } else {
                    ActionError::UnknownActionType(*t)
                })
            },
        },
{
    if *t == "COUNTER:INCREMENT".to_owned() {
        Ok(CounterAction::Increment)
    } else if *t == "COUNTER:DECREMENT".to_owned() {
        Ok(CounterAction::Decrement)
    } else if *t == "COUNTER:RESET".to_owned() {
        Ok(CounterAction::Reset)
    } else if *t == "THEME:TOGGLE".to_owned() {
        Ok(CounterAction::ToggleTheme)
    } else if *t == "COUNTER:SET".to_owned() {
        match p {
            None => Ok(CounterAction::SetCounter { payload: 0 }),
            Some(Value::Int(i)) => {
                if i32::MIN as i64 <= *i && *i <= i32::MAX as i64 {
                    Ok(CounterAction::SetCounter { payload: *i as i32 })
                } else {
                    Err(ActionError::InvalidPayload(t.clone()))
                }
            },
            Some(_) => Err(ActionError::InvalidPayload(t.clone())),
        }
    } else {
        Err(ActionError::UnknownActionType(t.clone()))
    }
}

/// The contents of an optional borrowed value.
pub open spec fn opt_deref_spec(p: Option<&Value>) -> Option<Value> {
    match p {
        Some(x) => Some(*x),
        None => None,
    }
}

/// The strict reading of a boundary value as a `CounterAction`: an object
/// whose string `type` field carries one of the counter labels, with the
/// payload taken from the `payload` field.
pub open spec fn parse_counter_action_spec(v: Value) -> Result<CounterAction, ActionError> {
    match get_spec(v, "type"@) {
        Some(Value::Str(t)) => if counter_parts_ok(t@, get_spec(v, "payload"@)) {
            Ok(counter_parts_action(t@, get_spec(v, "payload"@)))
        } else {
            if t@ == "COUNTER:SET"@ {
                Err(ActionError::InvalidPayload(t))
            } else {
                Err(ActionError::UnknownActionType(t))
            }
        },
        _ => Err(ActionError::MalformedAction),
    }
}

/// Read a boundary value as a `CounterAction`.
pub fn parse_counter_action(v: &Value) -> (r: Result<CounterAction, ActionError>)
    ensures
        r == parse_counter_action_spec(*v),
{
    match v.get("type") {
        Some(tv) => match tv {
            Value::Str(t) => counter_action_from_parts(t, v.get("payload")),
            _ => Err(ActionError::MalformedAction),
        },
        None => Err(ActionError::MalformedAction),
    }
}

} // verus!
