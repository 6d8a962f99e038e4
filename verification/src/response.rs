//! The failure reply of the dispatch boundary.
//!
//! A failed dispatch still answers with the authoritative state, so the
//! caller can resynchronize without a follow-up read: the reply is the
//! object `{"state": .., "success": false, "error": ..}` carrying the
//! unchanged current state and a non-empty diagnostic.

use vstd::prelude::*;

use crate::error::{lemma_message_nonempty, ActionError};
use crate::state::{is_state_value, state_to_value, AppState};
use crate::value::Value;

verus! {

/// The shape of a failure reply: exactly the fields `state` (the unchanged
/// current state, canonically encoded), `success` (false) and `error` (the
/// non-empty message of `e`), in that order.
pub open spec fn is_error_response(v: Value, s: AppState, e: ActionError) -> bool {
    &&& v matches Value::Obj(fields)
    &&& fields@.len() == 3
    &&& fields@[0].0@ == "state"@
    &&& is_state_value(fields@[0].1, s)
    &&& fields@[1].0@ == "success"@
    &&& fields@[1].1 == Value::Bool(false)
    &&& fields@[2].0@ == "error"@
    &&& fields@[2].1 matches Value::Str(m) && m@ == e.message_spec() && m@.len() > 0
}

/// Build the failure reply for a rejected request: the unchanged state, a
/// `success: false` flag, and the error's message.
pub fn error_response(s: &AppState, e: &ActionError) -> (r: Value)
    ensures
        is_error_response(r, *s, *e),
{
    let msg = e.message();
    proof {
        lemma_message_nonempty(*e);
    }
    let fields: Vec<(String, Value)> = vec![
        ("state".to_owned(), state_to_value(s)),
        ("success".to_owned(), Value::Bool(false)),
        ("error".to_owned(), Value::Str(msg)),
    ];
    Value::Obj(fields)
}

} // verus!
