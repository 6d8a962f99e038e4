use zubridge::error::ActionError;
use zubridge::state::{state_to_value, value_to_state, AppState, ThemeState};
use zubridge::value::Value;

fn obj(fields: Vec<(&str, Value)>) -> Value {
    Value::Obj(fields.into_iter().map(|(k, v)| (k.to_string(), v)).collect())
}

#[test]
fn get_reads_the_first_binding_of_a_key() {
    let v = obj(vec![
        ("a", Value::Int(1)),
        ("b", Value::Int(2)),
        ("a", Value::Int(3)),
    ]);
    assert_eq!(v.get("a"), Some(&Value::Int(1)));
    assert_eq!(v.get("b"), Some(&Value::Int(2)));
    assert_eq!(v.get("c"), None);
}

#[test]
fn get_on_a_non_object_finds_nothing() {
    assert_eq!(Value::Int(4).get("a"), None);
    assert_eq!(Value::Null.get("a"), None);
    assert_eq!(Value::Arr(vec![Value::Int(1)]).get("a"), None);
}

#[test]
fn state_encodes_to_the_canonical_object() {
    let s = AppState { counter: -17, theme: ThemeState { is_dark: false } };
    let v = state_to_value(&s);
    assert_eq!(
        v,
        obj(vec![
            ("counter", Value::Int(-17)),
            ("theme", obj(vec![("is_dark", Value::Bool(false))])),
        ])
    );
}

#[test]
fn state_decoding_accepts_extra_fields_and_any_order() {
    let v = obj(vec![
        ("label", Value::Str("ignored".to_string())),
        ("theme", obj(vec![("is_dark", Value::Bool(true)), ("accent", Value::Null)])),
        ("counter", Value::Int(3)),
    ]);
    assert_eq!(
        value_to_state(&v),
        Ok(AppState { counter: 3, theme: ThemeState { is_dark: true } })
    );
}

#[test]
fn state_decoding_rejects_missing_or_ill_typed_fields() {
    let no_theme = obj(vec![("counter", Value::Int(3))]);
    assert_eq!(value_to_state(&no_theme), Err(ActionError::Deserialization));

    let bad_counter = obj(vec![
        ("counter", Value::Str("3".to_string())),
        ("theme", obj(vec![("is_dark", Value::Bool(true))])),
    ]);
    assert_eq!(value_to_state(&bad_counter), Err(ActionError::Deserialization));

    let big_counter = obj(vec![
        ("counter", Value::Int(i64::from(i32::MAX) + 1)),
        ("theme", obj(vec![("is_dark", Value::Bool(true))])),
    ]);
    assert_eq!(value_to_state(&big_counter), Err(ActionError::Deserialization));

    let bad_theme = obj(vec![
        ("counter", Value::Int(0)),
        ("theme", obj(vec![("is_dark", Value::Int(1))])),
    ]);
    assert_eq!(value_to_state(&bad_theme), Err(ActionError::Deserialization));
}

#[test]
fn state_encoding_round_trips_through_decoding() {
    let states = vec![
        AppState { counter: 0, theme: ThemeState { is_dark: true } },
        AppState { counter: i32::MAX, theme: ThemeState { is_dark: false } },
        AppState { counter: i32::MIN, theme: ThemeState { is_dark: true } },
    ];
    for s in states {
        assert_eq!(value_to_state(&state_to_value(&s)), Ok(s));
    }
}

#[test]
fn error_messages_name_the_offending_label() {
    assert_eq!(
        ActionError::UnknownActionType("X".to_string()).message(),
        "Unknown action type: X"
    );
    assert_eq!(
        ActionError::InvalidPayload("SET_COUNTER".to_string()).message(),
        "Invalid payload for action type: SET_COUNTER"
    );
    assert_eq!(
        ActionError::MissingPayload("SET_THEME".to_string()).message(),
        "Missing payload for action type: SET_THEME"
    );
    assert_eq!(ActionError::Deserialization.message(), "Failed to deserialize state");
    assert!(!ActionError::MalformedAction.message().is_empty());
}
