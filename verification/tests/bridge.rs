use zubridge::action::ZubridgeAction;
use zubridge::error::ActionError;
use zubridge::tray::handle_tray_selection;
use zubridge::gateway::{Zubridge, ZubridgeOptions};
use zubridge::manager::AppStateManager;
use zubridge::state::{AppState, ThemeState};
use zubridge::value::Value;

fn obj(fields: Vec<(&str, Value)>) -> Value {
    Value::Obj(fields.into_iter().map(|(k, v)| (k.to_string(), v)).collect())
}

fn state_value(counter: i64, is_dark: bool) -> Value {
    obj(vec![
        ("counter", Value::Int(counter)),
        ("theme", obj(vec![("is_dark", Value::Bool(is_dark))])),
    ])
}

fn action(label: &str, payload: Option<Value>) -> ZubridgeAction {
    ZubridgeAction {
        action_type: label.to_string(),
        payload,
    }
}

fn default_gateway() -> Zubridge {
    Zubridge::new(AppStateManager::new(), ZubridgeOptions::default())
}

/// A failure reply must carry the unchanged state, `success: false` and a
/// non-empty message.
fn assert_failure_reply(reply: &Value, counter: i64, is_dark: bool) {
    assert_eq!(reply.get("state"), Some(&state_value(counter, is_dark)));
    assert_eq!(reply.get("success"), Some(&Value::Bool(false)));
    match reply.get("error") {
        Some(Value::Str(msg)) => assert!(!msg.is_empty()),
        other => panic!("failure reply without error message: {:?}", other),
    }
}

#[test]
fn initial_state_is_counter_zero_dark_theme() {
    let manager = AppStateManager::new();
    let state = manager.get_state();
    assert_eq!(state, AppState { counter: 0, theme: ThemeState { is_dark: true } });
    assert_eq!(manager.get_initial_state(), state_value(0, true));
}

#[test]
fn increment_from_initial_state_notifies_counter_one() {
    let mut gateway = default_gateway();
    let outcome = gateway.dispatch_action(action("INCREMENT_COUNTER", None));
    assert_eq!(outcome.reply, state_value(1, true));
    assert_eq!(outcome.notification, Some(state_value(1, true)));
}

#[test]
fn set_counter_to_forty_two() {
    let mut gateway = default_gateway();
    let outcome = gateway.dispatch_action(action("SET_COUNTER", Some(Value::Int(42))));
    assert_eq!(outcome.reply, state_value(42, true));
    assert_eq!(gateway.manager.get_state().counter, 42);
}

#[test]
fn set_counter_with_string_payload_fails_without_notification() {
    let mut gateway = default_gateway();
    let outcome =
        gateway.dispatch_action(action("SET_COUNTER", Some(Value::Str("abc".to_string()))));
    assert_failure_reply(&outcome.reply, 0, true);
    assert_eq!(outcome.notification, None);
    assert_eq!(gateway.manager.get_state().counter, 0);
}

#[test]
fn bogus_action_fails_and_preserves_state() {
    let mut gateway = default_gateway();
    gateway.dispatch_action(action("SET_COUNTER", Some(Value::Int(7))));
    let outcome = gateway.dispatch_action(action("BOGUS_ACTION", None));
    assert_failure_reply(&outcome.reply, 7, true);
    assert_eq!(outcome.notification, None);
    assert_eq!(gateway.manager.get_state().counter, 7);
}

#[test]
fn two_increments_count_to_exactly_two() {
    let mut gateway = default_gateway();
    gateway.dispatch_action(action("INCREMENT_COUNTER", None));
    gateway.dispatch_action(action("INCREMENT_COUNTER", None));
    assert_eq!(gateway.manager.get_state().counter, 2);
}

#[test]
fn reads_are_idempotent() {
    let mut manager = AppStateManager::new();
    manager.dispatch(&action("INCREMENT_COUNTER", None)).unwrap();
    assert_eq!(manager.get_state(), manager.get_state());
}

#[test]
fn replace_state_round_trips() {
    let mut gateway = default_gateway();
    let replacement = state_value(7, false);
    let outcome = gateway.handle_replace_state(&replacement);
    assert_eq!(outcome.reply, state_value(7, false));
    assert_eq!(outcome.notification, Some(state_value(7, false)));
    assert_eq!(
        gateway.manager.get_state(),
        AppState { counter: 7, theme: ThemeState { is_dark: false } }
    );
    assert_eq!(gateway.handle_get_initial_state(), state_value(7, false));
}

#[test]
fn replace_state_rejects_ill_shaped_values() {
    let mut gateway = default_gateway();
    let outcome = gateway.handle_replace_state(&obj(vec![("counter", Value::Bool(true))]));
    assert_failure_reply(&outcome.reply, 0, true);
    assert_eq!(outcome.notification, None);
    assert_eq!(gateway.manager.get_state().counter, 0);
}

#[test]
fn every_rejection_leaves_the_state_alone() {
    let mut manager = AppStateManager::new();
    manager.dispatch(&action("SET_COUNTER", Some(Value::Int(5)))).unwrap();
    let before = manager.get_state();

    let unknown = manager.dispatch(&action("BOGUS_ACTION", None));
    assert_eq!(unknown, Err(ActionError::UnknownActionType("BOGUS_ACTION".to_string())));
    assert_eq!(manager.get_state(), before);

    let invalid = manager.dispatch(&action("SET_COUNTER", Some(Value::Str("abc".to_string()))));
    assert_eq!(invalid, Err(ActionError::InvalidPayload("SET_COUNTER".to_string())));
    assert_eq!(manager.get_state(), before);

    let missing = manager.dispatch(&action("SET_COUNTER", None));
    assert_eq!(missing, Err(ActionError::MissingPayload("SET_COUNTER".to_string())));
    assert_eq!(manager.get_state(), before);

    let bad_blob = manager.dispatch(&action("SET_STATE", Some(Value::Int(3))));
    assert_eq!(bad_blob, Err(ActionError::Deserialization));
    assert_eq!(manager.get_state(), before);
}

#[test]
fn string_reducer_covers_every_label() {
    let mut manager = AppStateManager::new();

    let after_inc = manager.dispatch(&action("INCREMENT_COUNTER", None)).unwrap();
    assert_eq!(after_inc.counter, 1);

    let after_dec = manager.dispatch(&action("DECREMENT_COUNTER", None)).unwrap();
    assert_eq!(after_dec.counter, 0);

    let after_toggle = manager.dispatch(&action("TOGGLE_THEME", None)).unwrap();
    assert!(!after_toggle.theme.is_dark);

    let after_theme = manager.dispatch(&action("SET_THEME", Some(Value::Bool(true)))).unwrap();
    assert!(after_theme.theme.is_dark);

    let blob = state_value(-3, false);
    let after_set_state = manager.dispatch(&action("SET_STATE", Some(blob))).unwrap();
    assert_eq!(after_set_state, AppState { counter: -3, theme: ThemeState { is_dark: false } });
}

#[test]
fn counter_wraps_at_the_integer_bounds() {
    let mut manager = AppStateManager::new();
    manager.dispatch(&action("SET_COUNTER", Some(Value::Int(i64::from(i32::MAX))))).unwrap();
    let wrapped = manager.dispatch(&action("INCREMENT_COUNTER", None)).unwrap();
    assert_eq!(wrapped.counter, i32::MIN);
    let back = manager.dispatch(&action("DECREMENT_COUNTER", None)).unwrap();
    assert_eq!(back.counter, i32::MAX);
}

#[test]
fn out_of_range_set_counter_is_invalid() {
    let mut manager = AppStateManager::new();
    let r = manager.dispatch(&action("SET_COUNTER", Some(Value::Int(i64::from(i32::MAX) + 1))));
    assert_eq!(r, Err(ActionError::InvalidPayload("SET_COUNTER".to_string())));
    assert_eq!(manager.get_state().counter, 0);
}

#[test]
fn raw_dispatch_without_type_field_is_malformed() {
    let mut gateway = default_gateway();
    let outcome = gateway.handle_dispatch_action(obj(vec![("payload", Value::Int(1))]));
    assert_failure_reply(&outcome.reply, 0, true);
    assert_eq!(outcome.notification, None);
}

#[test]
fn raw_dispatch_applies_a_well_formed_action() {
    let mut gateway = default_gateway();
    let outcome = gateway.handle_dispatch_action(obj(vec![
        ("type", Value::Str("SET_COUNTER".to_string())),
        ("payload", Value::Int(12)),
    ]));
    assert_eq!(outcome.reply, state_value(12, true));
    assert_eq!(outcome.notification, Some(state_value(12, true)));
}

#[test]
fn disabling_auto_emit_suppresses_notifications() {
    let options = ZubridgeOptions {
        auto_emit_updates: false,
        ..ZubridgeOptions::default()
    };
    let mut gateway = Zubridge::new(AppStateManager::new(), options);
    let outcome = gateway.dispatch_action(action("INCREMENT_COUNTER", None));
    assert_eq!(outcome.reply, state_value(1, true));
    assert_eq!(outcome.notification, None);
}

#[test]
fn default_options_use_the_stock_names() {
    let options = ZubridgeOptions::default();
    assert_eq!(options.event_name, "zubridge://state-update");
    assert_eq!(options.get_state_command, "zubridge.get-initial-state");
    assert_eq!(options.dispatch_command, "zubridge.dispatch-action");
    assert!(options.auto_emit_updates);

    let gateway = default_gateway();
    assert_eq!(gateway.get_event_name(), "zubridge://state-update");
}

#[test]
fn tray_helpers_mutate_like_their_actions() {
    let mut manager = AppStateManager::new();
    manager.increment();
    manager.increment();
    assert_eq!(manager.get_state().counter, 2);
    manager.decrement();
    assert_eq!(manager.get_state().counter, 1);
    manager.toggle_theme();
    assert!(!manager.get_state().theme.is_dark);
    manager.reset();
    assert_eq!(manager.get_state(), AppState { counter: 0, theme: ThemeState { is_dark: false } });
}

#[test]
fn dispatch_all_applies_actions_in_order_and_survives_failures() {
    let mut manager = AppStateManager::new();
    let actions = vec![
        action("INCREMENT_COUNTER", None),
        action("BOGUS_ACTION", None),
        action("INCREMENT_COUNTER", None),
        action("SET_COUNTER", Some(Value::Str("abc".to_string()))),
        action("TOGGLE_THEME", None),
    ];
    manager.dispatch_all(&actions);
    assert_eq!(
        manager.get_state(),
        AppState { counter: 2, theme: ThemeState { is_dark: false } }
    );
}

#[test]
fn tray_selections_drive_the_container() {
    let mut manager = AppStateManager::new();
    assert!(handle_tray_selection(&mut manager, "increment"));
    assert!(handle_tray_selection(&mut manager, "increment"));
    assert!(handle_tray_selection(&mut manager, "decrement"));
    assert_eq!(manager.get_state().counter, 1);
    assert!(handle_tray_selection(&mut manager, "toggle_theme"));
    assert!(!manager.get_state().theme.is_dark);
    assert!(handle_tray_selection(&mut manager, "reset_counter"));
    assert_eq!(manager.get_state().counter, 0);

    let before = manager.get_state();
    assert!(!handle_tray_selection(&mut manager, "show_window"));
    assert!(!handle_tray_selection(&mut manager, "quit"));
    assert_eq!(manager.get_state(), before);
}
