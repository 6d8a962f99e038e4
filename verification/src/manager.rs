//! The state container: the single owner of the authoritative state.
//!
//! Every mutation needs `&mut` access, so the type system enforces the
//! mutual exclusion the design asks for: whoever holds the container (in
//! the application, behind one mutex) applies actions one at a time, and no
//! reader ever observes a half-applied dispatch. A failed dispatch returns
//! a typed error and provably leaves the state untouched.

use vstd::prelude::*;

use crate::action::{
    counter_action_from_parts, parse_counter_action_spec, CounterAction, ZubridgeAction,
};
use crate::error::ActionError;
use crate::reducer::{
    app_reducer, apply_all_spec, apply_counter_action, apply_counter_action_spec, reduce_spec,
};
use crate::response::{error_response, is_error_response};
use crate::state::{is_state_value, state_to_value, value_to_state, value_to_state_spec, AppState};
use crate::value::Value;

verus! {

/// The state container. It owns the one authoritative `AppState`; all
/// reads take a snapshot and all writes go through a reducer.
pub struct AppStateManager {
    state: AppState,
}

impl AppStateManager {
    /// The state the container currently holds.
    pub closed spec fn snapshot(self) -> AppState {
        self.state
    }

    /// A fresh container holding the initial state.
    pub fn new() -> (r: AppStateManager)
        ensures
            r.snapshot() == AppState::initial_spec(),
    {
        AppStateManager { state: AppState::default() }
    }

    /// A snapshot of the current state. Reading never changes anything:
    /// two reads with no dispatch between them return equal values.
    pub fn get_state(&self) -> (r: AppState)
        ensures
            r == self.snapshot(),
    {
        self.state
    }

    /// Increment the counter, wrapping at the `i32` upper bound.
    pub fn increment(&mut self)
        ensures
            final(self).snapshot() == apply_counter_action_spec(
                old(self).snapshot(),
                CounterAction::Increment,
            ),
    {
        self.state = apply_counter_action(self.state, CounterAction::Increment);
    }

    /// Decrement the counter, wrapping at the `i32` lower bound.
    pub fn decrement(&mut self)
        ensures
            final(self).snapshot() == apply_counter_action_spec(
                old(self).snapshot(),
                CounterAction::Decrement,
            ),
    {
        self.state = apply_counter_action(self.state, CounterAction::Decrement);
    }

    /// Reset the counter to zero, leaving the theme alone.
    pub fn reset(&mut self)
        ensures
            final(self).snapshot() == apply_counter_action_spec(
                old(self).snapshot(),
                CounterAction::Reset,
            ),
    {
        self.state = apply_counter_action(self.state, CounterAction::Reset);
    }

    /// Flip the theme between dark and light, leaving the counter alone.
    pub fn toggle_theme(&mut self)
        ensures
            final(self).snapshot() == apply_counter_action_spec(
                old(self).snapshot(),
                CounterAction::ToggleTheme,
            ),
    {
        self.state = apply_counter_action(self.state, CounterAction::ToggleTheme);
    }

    /// Apply one typed counter action and commit the result. Total: a
    /// typed action always yields a next state.
    pub fn apply_counter(&mut self, action: CounterAction)
        ensures
            final(self).snapshot() == apply_counter_action_spec(old(self).snapshot(), action),
    {
        self.state = apply_counter_action(self.state, action);
    }

    /// Apply one action through the string-keyed reducer. On success the
    /// container commits and returns the new state; on failure it keeps
    /// the old state and returns the error.
    pub fn dispatch(&mut self, action: &ZubridgeAction) -> (r: Result<AppState, ActionError>)
        ensures
            match reduce_spec(old(self).snapshot(), *action) {
                Ok(ns) => r == Ok::<AppState, ActionError>(ns) && final(self).snapshot() == ns,
                Err(e) => r == Err::<AppState, ActionError>(e) && final(self).snapshot()
                    == old(self).snapshot(),
            },
    {
        match app_reducer(&mut self.state, action) {
            Ok(()) => Ok(self.state),
            Err(e) => Err(e),
        }
    }

    /// Dispatch a whole sequence of actions, one at a time. The resulting
    /// state is exactly the sequential application of the actions in the
    /// given order, each failed action preserving the state it found: this
    /// is the serializability of the container made concrete. Every
    /// dispatch holds the container exclusively, so a set of concurrent
    /// callers always ends in the state some interleaving of their actions
    /// reaches — never in a partial or interleaved update.
    pub fn dispatch_all(&mut self, actions: &Vec<ZubridgeAction>)
        ensures
            final(self).snapshot() == apply_all_spec(old(self).snapshot(), actions@),
    {
        let n = actions.len();
        let mut i: usize = 0;
        proof {
            assert(actions@.skip(0) =~= actions@);
        }
        while i < n
            invariant
                n == actions@.len(),
                i <= n,
                apply_all_spec(old(self).snapshot(), actions@) == apply_all_spec(
                    self.snapshot(),
                    actions@.skip(i as int),
                ),
            decreases n - i,
        {
            let ghost pre = self.snapshot();
            let _ = self.dispatch(&actions[i]);
            proof {
                assert(actions@.skip(i as int).drop_first() =~= actions@.skip(i as int + 1));
                assert(self.snapshot() == crate::reducer::step_spec(pre, actions@[i as int]));
            }
            i = i + 1;
        }
        proof {
            assert(actions@.skip(n as int) =~= Seq::<ZubridgeAction>::empty());
        }
    }

    /// Replace the whole state with a boundary value, after validating it
    /// against the state schema; an ill-shaped value is rejected and the
    /// old state kept.
    pub fn replace_state(&mut self, new_state: &Value) -> (r: Result<(), ActionError>)
        ensures
            match value_to_state_spec(*new_state) {
                Some(s) => r == Ok::<(), ActionError>(()) && final(self).snapshot() == s,
                None => r == Err::<(), ActionError>(ActionError::Deserialization)
                    && final(self).snapshot() == old(self).snapshot(),
            },
    {
        match value_to_state(new_state) {
            Ok(s) => {
                self.state = s;
                Ok(())
            },
            Err(e) => Err(e),
        }
    }

    /// The current state, canonically encoded for the boundary. Never
    /// mutates anything.
    pub fn get_initial_state(&self) -> (r: Value)
        ensures
            is_state_value(r, self.snapshot()),
    {
        state_to_value(&self.state)
    }

    /// Dispatch a boundary value carrying a `CounterAction`. On success
    /// the reply is the new state, canonically encoded; on failure the
    /// reply is the failure object carrying the unchanged state, a
    /// `success: false` flag and the error message.
    pub fn dispatch_action(&mut self, action: Value) -> (r: Value)
        ensures
            match parse_counter_action_spec(action) {
                Ok(a) => {
                    &&& final(self).snapshot() == apply_counter_action_spec(
                        old(self).snapshot(),
                        a,
                    )
                    &&& is_state_value(r, final(self).snapshot())
                },
                Err(e) => {
                    &&& final(self).snapshot() == old(self).snapshot()
                    &&& is_error_response(r, old(self).snapshot(), e)
                },
            },
    {
        let parsed: Result<CounterAction, ActionError> = match action.get("type") {
            Some(tv) => match tv {
                Value::Str(t) => counter_action_from_parts(t, action.get("payload")),
                _ => Err(ActionError::MalformedAction),
            },
            None => Err(ActionError::MalformedAction),
        };
        match parsed {
            Ok(a) => {
                self.state = apply_counter_action(self.state, a);
                state_to_value(&self.state)
            },
            Err(e) => error_response(&self.state, &e),
        }
    }
}

/// The minimal contract a pluggable state manager offers the bridge: read
/// the current state encoded for the boundary, and apply one boundary
/// action, answering with the boundary reply. Applications with their own
/// state shape implement this to plug into the same transport glue.
pub trait StateManager {
    /// The current state, encoded for the boundary.
    fn get_initial_state(&self) -> Value;

    /// Apply a boundary action and return the boundary reply.
    fn dispatch_action(&mut self, action: Value) -> Value;
}

impl StateManager for AppStateManager {
    fn get_initial_state(&self) -> Value {
        AppStateManager::get_initial_state(self)
    }

    fn dispatch_action(&mut self, action: Value) -> Value {
        AppStateManager::dispatch_action(self, action)
    }
}

/// Reads are idempotent: two snapshots of the same container, taken with
/// no dispatch between them, are the same state.
pub proof fn lemma_reads_idempotent(m: AppStateManager, r1: AppState, r2: AppState)
    requires
        r1 == m.snapshot(),
        r2 == m.snapshot(),
    ensures
        r1 == r2,
{
}

} // verus!
