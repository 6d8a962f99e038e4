//! The plain command surface: free functions over a borrowed container,
//! one per boundary command.
//!
//! `dispatch_action` is the tolerant dispatch pipeline: it extracts a
//! label and payload leniently (accepting `action_type`, `type`, or a
//! nested `action` object), reads them as a
//! typed counter action, commits the result, and answers with the new
//! state; a value that reads as no counter action is rejected with a typed
//! error and the state is left untouched. The caller broadcasts the `Ok`
//! reply on the update channel.

use vstd::prelude::*;

use crate::action::{
    counter_action_from_parts, counter_parts_action, counter_parts_err, counter_parts_ok,
    extract_action, extract_payload_spec, extract_type_spec, CounterAction, ZubridgeAction,
};
use crate::error::ActionError;
use crate::manager::AppStateManager;
use crate::reducer::apply_counter_action_spec;
use crate::state::{is_state_value, state_to_value, value_to_state_spec, AppState};
use crate::value::Value;

verus! {

/// The current state, encoded for the boundary. Never mutates state.
pub fn get_initial_state(manager: &AppStateManager) -> (r: Value)
    ensures
        is_state_value(r, manager.snapshot()),
{
    manager.get_initial_state()
}

/// Replace the whole state with a boundary value, validating it against
/// the state schema first.
pub fn set_state(manager: &mut AppStateManager, state: &Value) -> (r: Result<(), ActionError>)
    ensures
        match value_to_state_spec(*state) {
            Some(s) => r == Ok::<(), ActionError>(()) && final(manager).snapshot() == s,
            None => r == Err::<(), ActionError>(ActionError::Deserialization)
                && final(manager).snapshot() == old(manager).snapshot(),
        },
{
    manager.replace_state(state)
}

/// Dispatch one leniently read boundary value. The label and payload are
/// extracted as [`extract_action`] does, read as a typed counter action,
/// and applied; the reply is the new state, canonically encoded. A value
/// that reads as no counter action leaves the state untouched and is
/// answered with the error naming the offending label.
pub fn dispatch_action(manager: &mut AppStateManager, raw: Value) -> (r: Result<Value, ActionError>)
    ensures
        match r {
            Ok(rv) => {
                &&& counter_parts_ok(extract_type_spec(raw), extract_payload_spec(raw))
                &&& final(manager).snapshot() == apply_counter_action_spec(
                    old(manager).snapshot(),
                    counter_parts_action(extract_type_spec(raw), extract_payload_spec(raw)),
                )
                &&& is_state_value(rv, final(manager).snapshot())
            },
            Err(e) => {
                &&& !counter_parts_ok(extract_type_spec(raw), extract_payload_spec(raw))
                &&& final(manager).snapshot() == old(manager).snapshot()
                &&& counter_parts_err(e, extract_type_spec(raw), extract_payload_spec(raw))
            },
        },
{
    let action: ZubridgeAction = extract_action(raw);
    let parsed: Result<CounterAction, ActionError> = counter_action_from_parts(
        &action.action_type,
        action.payload.as_ref(),
    );
    match parsed {
        Ok(counter_action) => {
            manager.apply_counter(counter_action);
            let committed: AppState = manager.get_state();
            Ok(state_to_value(&committed))
        },
        Err(e) => Err(e),
    }
}

} // verus!
