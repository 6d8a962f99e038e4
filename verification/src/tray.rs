//! The decision core of the tray menu: which menu selection mutates what.
//!
//! The tray itself — icons, menus, windows — is shell I/O and lives outside
//! the library. What is verified here is the mapping the tray glue relies
//! on: a clicked menu item either applies one state mutation (and then the
//! glue refreshes the menu and broadcasts the new state) or touches nothing
//! (and the glue shows a window, quits, or ignores the click).

use vstd::prelude::*;

use crate::action::CounterAction;
use crate::manager::AppStateManager;
use crate::reducer::apply_counter_action_spec;
use crate::state::AppState;

verus! {

/// The state after a tray menu selection: the four state-changing items
/// apply their counter action; every other item leaves the state alone.
pub open spec fn tray_selection_spec(s: AppState, id: Seq<char>) -> AppState {
    if id == "increment"@ {
        apply_counter_action_spec(s, CounterAction::Increment)
    } else if id == "decrement"@ {
        apply_counter_action_spec(s, CounterAction::Decrement)
    } else if id == "reset_counter"@ {
        apply_counter_action_spec(s, CounterAction::Reset)
    } else if id == "toggle_theme"@ {
        apply_counter_action_spec(s, CounterAction::ToggleTheme)
    } else {
        s
    }
}

/// Apply one tray menu selection to the container. Returns whether the
/// selection mutated the state, so the caller knows to refresh the menu
/// and broadcast the update; `show_window`, `quit` and unknown items
/// mutate nothing and are the caller's to handle.
pub fn handle_tray_selection(manager: &mut AppStateManager, id: &str) -> (changed: bool)
    ensures
        final(manager).snapshot() == tray_selection_spec(old(manager).snapshot(), id@),
        changed == {
            ||| id@ == "increment"@
            ||| id@ == "decrement"@
            ||| id@ == "reset_counter"@
            ||| id@ == "toggle_theme"@
        },
{
    let owned_id: String = id.to_owned();
    if owned_id == "increment".to_owned() {
        manager.increment();
        true
    } else if owned_id == "decrement".to_owned() {
        manager.decrement();
        true
    } else if owned_id == "reset_counter".to_owned() {
        manager.reset();
        true
    } else if owned_id == "toggle_theme".to_owned() {
        manager.toggle_theme();
        true
    } else {
        false
    }
}

} // verus!
