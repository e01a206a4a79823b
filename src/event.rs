use vstd::prelude::*;

verus! {

/// What the application does in answer to a menu selection.
#[derive(PartialEq, Eq, Structural, Clone, Copy, Debug)]
pub enum MenuAction {
    /// End the process with a success status.
    Quit,
    /// Nothing: the host toolkit handles the item itself, if at all.
    Ignore,
}

/// The action owed to a selection of the item with identifier `id`: only
/// `"quit"` ends the process.
pub open spec fn action_for(id: Seq<char>) -> MenuAction {
    if id == "quit"@ {
        MenuAction::Quit
    } else {
        MenuAction::Ignore
    }
}

/// Decides what to do when the user selects the item `menu_item_id`.
pub fn handle_menu_event(menu_item_id: &str) -> (r: MenuAction)
    ensures
        r == action_for(menu_item_id@),
{
    if menu_item_id.to_owned() == "quit".to_owned() {
        MenuAction::Quit
    } else {
        MenuAction::Ignore
    }
}

} // verus!
