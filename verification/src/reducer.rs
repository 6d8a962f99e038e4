//! The reducers: the only code paths that compute a new state from an old
//! one.
//!
//! [`app_reducer`] is the string-keyed reducer of the bridge: it matches on
//! the action label (`INCREMENT_COUNTER`, `DECREMENT_COUNTER`,
//! `SET_COUNTER`, `TOGGLE_THEME`, `SET_THEME`, `SET_STATE`) and either
//! returns the transformed state or rejects the action with a typed error,
//! leaving the state untouched. An unrecognized label is an error, never a
//! silent no-op. [`apply_counter_action`] is the total reducer over the
//! closed [`CounterAction`] vocabulary.
//!
//! Counter arithmetic wraps around at the `i32` bounds, so no action can
//! make the reducer fail on arithmetic alone.

use vstd::prelude::*;

use crate::action::{CounterAction, ZubridgeAction};
use crate::error::ActionError;
use crate::state::{value_to_state_spec, AppState, ThemeState};
use crate::value::Value;
use crate::state::value_to_state;

verus! {

/// The counter after one increment, wrapping at the upper bound.
pub open spec fn wrapping_inc_spec(c: i32) -> i32 {
    if c == i32::MAX {
        i32::MIN
    } else {
        (c + 1) as i32
    }
}

/// The counter after one decrement, wrapping at the lower bound.
pub open spec fn wrapping_dec_spec(c: i32) -> i32 {
    if c == i32::MIN {
        i32::MAX
    } else {
        (c - 1) as i32
    }
}

/// What each `CounterAction` does to the state.
pub open spec fn apply_counter_action_spec(s: AppState, a: CounterAction) -> AppState {
    match a {
        CounterAction::Increment => AppState { counter: wrapping_inc_spec(s.counter), ..s },
        CounterAction::Decrement => AppState { counter: wrapping_dec_spec(s.counter), ..s },
        CounterAction::Reset => AppState { counter: 0, ..s },
        CounterAction::ToggleTheme => AppState {
            theme: ThemeState { is_dark: !s.theme.is_dark },
            ..s
        },
        CounterAction::SetCounter { payload } => AppState { counter: payload, ..s },
    }
}

/// Apply a typed counter action to a state. Total: every `CounterAction`
/// yields a new state.
pub fn apply_counter_action(state: AppState, action: CounterAction) -> (r: AppState)
    ensures
        r == apply_counter_action_spec(state, action),
{
    match action {
        CounterAction::Increment => {
            let c: i32 = if state.counter == i32::MAX {
                i32::MIN
            } else {
                state.counter + 1
            };
            AppState { counter: c, ..state }
        },
        CounterAction::Decrement => {
            let c: i32 = if state.counter == i32::MIN {
                i32::MAX
            } else {
                state.counter - 1
            };
            AppState { counter: c, ..state }
        },
        CounterAction::Reset => AppState { counter: 0, ..state },
        CounterAction::ToggleTheme => AppState {
            theme: ThemeState { is_dark: !state.theme.is_dark },
            ..state
        },
        CounterAction::SetCounter { payload } => AppState { counter: payload, ..state },
    }
}

/// What the string-keyed reducer decides for a state and an action: the new
/// state, or the error the action is rejected with. A rejection never
/// changes the state.
pub open spec fn reduce_spec(s: AppState, a: ZubridgeAction) -> Result<AppState, ActionError> {
    let t = a.action_type@;
    if t == "INCREMENT_COUNTER"@ {
        Ok(AppState { counter: wrapping_inc_spec(s.counter), ..s })
    } else if t == "DECREMENT_COUNTER"@ {
        Ok(AppState { counter: wrapping_dec_spec(s.counter), ..s })
    } else if t == "SET_COUNTER"@ {
        match a.payload {
            Some(Value::Int(p)) => if i32::MIN <= p <= i32::MAX {
                Ok(AppState { counter: p as i32, ..s })
            } else {
                Err(ActionError::InvalidPayload(a.action_type))
            },
            Some(_) => Err(ActionError::InvalidPayload(a.action_type)),
            None => Err(ActionError::MissingPayload(a.action_type)),
        }
    } else if t == "TOGGLE_THEME"@ {
        Ok(AppState { theme: ThemeState { is_dark: !s.theme.is_dark }, ..s })
    } else if t == "SET_THEME"@ {
        match a.payload {
            Some(Value::Bool(d)) => Ok(AppState { theme: ThemeState { is_dark: d }, ..s }),
            Some(_) => Err(ActionError::InvalidPayload(a.action_type)),
            None => Err(ActionError::MissingPayload(a.action_type)),
        }
    } else if t == "SET_STATE"@ {
        match a.payload {
            Some(p) => match value_to_state_spec(p) {
                Some(ns) => Ok(ns),
                None => Err(ActionError::Deserialization),
            },
            None => Err(ActionError::MissingPayload(a.action_type)),
        }
    } else {
        Err(ActionError::UnknownActionType(a.action_type))
    }
}

/// The string-keyed reducer. On success the state is replaced by the
/// reduced state; on failure it is left exactly as it was and the error is
/// returned to the caller.
pub fn app_reducer(state: &mut AppState, action: &ZubridgeAction) -> (r: Result<(), ActionError>)
    ensures
        match reduce_spec(*old(state), *action) {
            Ok(ns) => r == Ok::<(), ActionError>(()) && *final(state) == ns,
            Err(e) => r == Err::<(), ActionError>(e) && *final(state) == *old(state),
        },
{
    if action.action_type == "INCREMENT_COUNTER".to_owned() {
        state.counter = if state.counter == i32::MAX {
            i32::MIN
        } else {
            state.counter + 1
        };
        Ok(())
    } else if action.action_type == "DECREMENT_COUNTER".to_owned() {
        state.counter = if state.counter == i32::MIN {
            i32::MAX
        } else {
            state.counter - 1
        };
        Ok(())
    } else if action.action_type == "SET_COUNTER".to_owned() {
        match &action.payload {
            Some(Value::Int(p)) => {
                if i32::MIN as i64 <= *p && *p <= i32::MAX as i64 {
                    state.counter = *p as i32;
                    Ok(())
                } else {
                    Err(ActionError::InvalidPayload(action.action_type.clone()))
                }
            },
            Some(_) => Err(ActionError::InvalidPayload(action.action_type.clone())),
            None => Err(ActionError::MissingPayload(action.action_type.clone())),
        }
    } else if action.action_type == "TOGGLE_THEME".to_owned() {
        state.theme.is_dark = !state.theme.is_dark;
        Ok(())
    } else if action.action_type == "SET_THEME".to_owned() {
        match &action.payload {
            Some(Value::Bool(d)) => {
                state.theme.is_dark = *d;
                Ok(())
            },
            Some(_) => Err(ActionError::InvalidPayload(action.action_type.clone())),
            None => Err(ActionError::MissingPayload(action.action_type.clone())),
        }
    } else if action.action_type == "SET_STATE".to_owned() {
        match &action.payload {
            Some(p) => match value_to_state(p) {
                Ok(ns) => {
                    *state = ns;
                    Ok(())
                },
                Err(e) => Err(e),
            },
            None => Err(ActionError::MissingPayload(action.action_type.clone())),
        }
    } else {
        Err(ActionError::UnknownActionType(action.action_type.clone()))
    }
}

/// One committed dispatch step: the reduced state on success, the old state
/// on failure.
pub open spec fn step_spec(s: AppState, a: ZubridgeAction) -> AppState {
    match reduce_spec(s, a) {
        Ok(ns) => ns,
        Err(_) => s,
    }
}

/// The state after a whole sequence of dispatches has been applied in
/// order, each one committing on success and rolling back on failure.
pub open spec fn apply_all_spec(s: AppState, actions: Seq<ZubridgeAction>) -> AppState
    decreases actions.len(),
{
    if actions.len() == 0 {
        s
    } else {
        apply_all_spec(step_spec(s, actions[0]), actions.drop_first())
    }
}

/// A rejected action leaves the state exactly as it was: dispatching an
/// action whose reduction fails commits nothing.
pub proof fn lemma_failure_preserves_state(s: AppState, a: ZubridgeAction)
    requires
        reduce_spec(s, a) is Err,
    ensures
        step_spec(s, a) == s,
{
}

/// Serialized dispatch composes: running one batch of actions after
/// another equals running their concatenation. Every dispatch holds the
/// container exclusively, so any concurrent schedule is some interleaving
/// of the callers' actions into a single sequence, and this lemma says the
/// resulting state is that sequence's sequential application.
pub proof fn lemma_serial_composition(s: AppState, a: Seq<ZubridgeAction>, b: Seq<ZubridgeAction>)
    ensures
        apply_all_spec(s, a + b) == apply_all_spec(apply_all_spec(s, a), b),
    decreases a.len(),
{
    if a.len() == 0 {
        assert(a + b =~= b);
    } else {
        lemma_serial_composition(step_spec(s, a[0]), a.drop_first(), b);
        assert((a + b).drop_first() =~= a.drop_first() + b);
    }
}

} // verus!
