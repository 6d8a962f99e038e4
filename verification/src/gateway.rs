//! The dispatch gateway: the boundary-facing face of the bridge.
//!
//! The gateway owns the state container and the configuration, translates
//! boundary values into container calls, and decides what, if anything, is
//! broadcast on the notification channel after a successful mutation. It
//! does not perform the broadcast itself: each outcome carries the value to
//! publish, and the transport glue around the library sends it under the
//! configured event name. A failed publish can therefore never roll back a
//! committed state change.

use vstd::prelude::*;

use crate::action::{raw_action_spec, ZubridgeAction};
use crate::error::ActionError;
use crate::manager::AppStateManager;
use crate::reducer::reduce_spec;
use crate::response::{error_response, is_error_response};
use crate::state::{is_state_value, state_to_value, value_to_state_spec, AppState};
use crate::value::Value;

verus! {

/// Configuration of the gateway: how its boundary-facing identifiers are
/// named and whether successful mutations are broadcast. None of it
/// affects mutation semantics.
#[derive(Debug, Clone, PartialEq, Eq)]
pub struct ZubridgeOptions {
    /// The event name to use for state updates.
    pub event_name: String,
    /// The command name under which the boundary reads the state.
    pub get_state_command: String,
    /// The command name under which the boundary dispatches actions.
    pub dispatch_command: String,
    /// Whether a successful mutation is broadcast on the event channel.
    pub auto_emit_updates: bool,
}

impl Default for ZubridgeOptions {
    /// The stock wiring: state updates on `zubridge://state-update`, the
    /// standard command names, broadcasting enabled.
    fn default() -> (r: ZubridgeOptions)
        ensures
            r.event_name@ == "zubridge://state-update"@,
            r.get_state_command@ == "zubridge.get-initial-state"@,
            r.dispatch_command@ == "zubridge.dispatch-action"@,
            r.auto_emit_updates == true,
    {
        ZubridgeOptions {
            event_name: "zubridge://state-update".to_owned(),
            get_state_command: "zubridge.get-initial-state".to_owned(),
            dispatch_command: "zubridge.dispatch-action".to_owned(),
            auto_emit_updates: true,
        }
    }
}

/// What one boundary request came to: the reply to hand back to the
/// caller, and the state value to broadcast, if this mutation is to be
/// announced.
#[derive(Debug, PartialEq)]
pub struct DispatchOutcome {
    /// The reply for the caller: a state on success, a failure object
    /// carrying the unchanged state otherwise.
    pub reply: Value,
    /// The state to publish on the notification channel, when the request
    /// mutated the state and broadcasting is enabled.
    pub notification: Option<Value>,
}

/// What a strict boundary dispatch decides: the action is read strictly
/// from the raw value, then reduced; a value without a string `type` field
/// is rejected outright.
pub open spec fn gateway_dispatch_spec(s: AppState, raw: Value) -> Result<AppState, ActionError> {
    match raw_action_spec(raw) {
        Some(a) => reduce_spec(s, a),
        None => Err(ActionError::MalformedAction),
    }
}

/// The dispatch gateway: the state container plus its boundary wiring.
pub struct Zubridge {
    /// The state container all requests go through.
    pub manager: AppStateManager,
    /// The boundary wiring of this gateway.
    pub options: ZubridgeOptions,
}

impl Zubridge {
    /// A gateway around a container, wired as the options say.
    pub fn new(manager: AppStateManager, options: ZubridgeOptions) -> (r: Zubridge)
        ensures
            r.manager == manager,
            r.options == options,
    {
        Zubridge { manager, options }
    }

    /// The event name used for state updates.
    pub fn get_event_name(&self) -> (r: String)
        ensures
            r == self.options.event_name,
    {
        self.options.event_name.clone()
    }

    /// Replace the boundary wiring. The state is untouched: options never
    /// affect mutation semantics.
    pub fn set_options(&mut self, options: ZubridgeOptions)
        ensures
            final(self).options == options,
            final(self).manager == old(self).manager,
    {
        self.options = options;
    }

    /// The current state, encoded for the boundary. Never mutates state.
    pub fn handle_get_initial_state(&self) -> (r: Value)
        ensures
            is_state_value(r, self.manager.snapshot()),
    {
        self.manager.get_initial_state()
    }

    /// Dispatch one typed action: reduce it, commit on success, and build
    /// the boundary reply. On success the reply is the new state and, when
    /// broadcasting is enabled, the notification carries the same state;
    /// on failure the reply is the failure object over the unchanged state
    /// and nothing is broadcast.
    pub fn dispatch_action(&mut self, action: ZubridgeAction) -> (r: DispatchOutcome)
        ensures
            final(self).options == old(self).options,
            match reduce_spec(old(self).manager.snapshot(), action) {
                Ok(ns) => {
                    &&& final(self).manager.snapshot() == ns
                    &&& is_state_value(r.reply, ns)
                    &&& if old(self).options.auto_emit_updates {
                        r.notification matches Some(n) && is_state_value(n, ns)
                    } else {
                        r.notification is None
                    }
                },
                Err(e) => {
                    &&& final(self).manager.snapshot() == old(self).manager.snapshot()
                    &&& is_error_response(r.reply, old(self).manager.snapshot(), e)
                    &&& r.notification is None
                },
            },
    {
        match self.manager.dispatch(&action) {
            Ok(new_state) => {
                let reply = state_to_value(&new_state);
                let notification: Option<Value> = if self.options.auto_emit_updates {
                    Some(state_to_value(&new_state))
                } else {
                    None
                };
                DispatchOutcome { reply, notification }
            },
            Err(e) => {
                let current = self.manager.get_state();
                DispatchOutcome {
                    reply: error_response(&current, &e),
                    notification: None,
                }
            },
        }
    }

    /// Dispatch one raw boundary value: read it strictly as an action,
    /// then proceed as [`Zubridge::dispatch_action`] does. A value without
    /// a string `type` field is answered with the failure object and
    /// mutates nothing.
    pub fn handle_dispatch_action(&mut self, raw: Value) -> (r: DispatchOutcome)
        ensures
            final(self).options == old(self).options,
            match gateway_dispatch_spec(old(self).manager.snapshot(), raw) {
                Ok(ns) => {
                    &&& final(self).manager.snapshot() == ns
                    &&& is_state_value(r.reply, ns)
                    &&& if old(self).options.auto_emit_updates {
                        r.notification matches Some(n) && is_state_value(n, ns)
                    } else {
                        r.notification is None
                    }
                },
                Err(e) => {
                    &&& final(self).manager.snapshot() == old(self).manager.snapshot()
                    &&& is_error_response(r.reply, old(self).manager.snapshot(), e)
                    &&& r.notification is None
                },
            },
    {
        match crate::action::parse_action(raw) {
            Ok(action) => self.dispatch_action(action),
            Err(e) => {
                let current = self.manager.get_state();
                DispatchOutcome {
                    reply: error_response(&current, &e),
                    notification: None,
                }
            },
        }
    }

    /// Replace the whole state with a raw boundary value. A value that
    /// fits the state schema is committed, answered with its canonical
    /// encoding and broadcast like any other successful mutation; anything
    /// else is answered with the failure object and mutates nothing.
    pub fn handle_replace_state(&mut self, raw: &Value) -> (r: DispatchOutcome)
        ensures
            final(self).options == old(self).options,
            match value_to_state_spec(*raw) {
                Some(s) => {
                    &&& final(self).manager.snapshot() == s
                    &&& is_state_value(r.reply, s)
                    &&& if old(self).options.auto_emit_updates {
                        r.notification matches Some(n) && is_state_value(n, s)
                    } else {
                        r.notification is None
                    }
                },
                None => {
                    &&& final(self).manager.snapshot() == old(self).manager.snapshot()
                    &&& is_error_response(
                        r.reply,
                        old(self).manager.snapshot(),
                        ActionError::Deserialization,
                    )
                    &&& r.notification is None
                },
            },
    {
        match self.manager.replace_state(raw) {
            Ok(()) => {
                let committed = self.manager.get_state();
                let reply = state_to_value(&committed);
                let notification: Option<Value> = if self.options.auto_emit_updates {
                    Some(state_to_value(&committed))
                } else {
                    None
                };
                DispatchOutcome { reply, notification }
            },
            Err(e) => {
                let current = self.manager.get_state();
                DispatchOutcome {
                    reply: error_response(&current, &e),
                    notification: None,
                }
            },
        }
    }
}

} // verus!
