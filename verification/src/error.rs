//! Typed failures of the dispatch pipeline.
//!
//! Every rejected action is reported to the caller as one of these values;
//! none of them aborts the process, and none of them changes the state. The
//! variants that carry a `String` carry the action type they reject, so a
//! caller can tell which request failed and why.

use vstd::prelude::*;
use vstd::string::StringExecFns;

verus! {

/// Why an action or a state blob was rejected.
#[derive(Debug, Clone, PartialEq, Eq)]
pub enum ActionError {
    /// The dispatched value was not an object with a string `type` field.
    MalformedAction,
    /// The `type` field parsed, but no reducer branch handles it.
    UnknownActionType(String),
    /// The action type is known, but its payload has the wrong shape.
    InvalidPayload(String),
    /// The action type is known and requires a payload, but none was given.
    MissingPayload(String),
    /// A full-state blob did not match the state schema.
    Deserialization,
}

impl ActionError {
    /// The human-readable message of this error.
    pub open spec fn message_spec(self) -> Seq<char> {
        match self {
            ActionError::MalformedAction => "Action must be an object with a string 'type' field"@,
            ActionError::UnknownActionType(t) => "Unknown action type: "@ + t@,
            ActionError::InvalidPayload(t) => "Invalid payload for action type: "@ + t@,
            ActionError::MissingPayload(t) => "Missing payload for action type: "@ + t@,
            ActionError::Deserialization => "Failed to deserialize state"@,
        }
    }

    /// Render the error for the boundary: a diagnostic the caller can show.
    pub fn message(&self) -> (r: String)
        ensures
            r@ == self.message_spec(),
    {
        match self {
            ActionError::MalformedAction => {
                "Action must be an object with a string 'type' field".to_owned()
            },
            ActionError::UnknownActionType(t) => {
                "Unknown action type: ".to_owned().concat(t.as_str())
            },
            ActionError::InvalidPayload(t) => {
                "Invalid payload for action type: ".to_owned().concat(t.as_str())
            },
            ActionError::MissingPayload(t) => {
                "Missing payload for action type: ".to_owned().concat(t.as_str())
            },
            ActionError::Deserialization => "Failed to deserialize state".to_owned(),
        }
    }
}

/// No error renders as an empty message: a failure response always carries
/// a non-empty diagnostic.
pub proof fn lemma_message_nonempty(e: ActionError)
    ensures
        e.message_spec().len() > 0,
{
    reveal_strlit("Action must be an object with a string 'type' field");
    reveal_strlit("Unknown action type: ");
    reveal_strlit("Invalid payload for action type: ");
    reveal_strlit("Missing payload for action type: ");
    reveal_strlit("Failed to deserialize state");
}

} // verus!
