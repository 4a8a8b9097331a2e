use vstd::prelude::*;

verus! {

/// Id of the menu item that ends the process.
pub const QUIT_ID: &'static str = "quit";

/// Text of the quit item.
pub const QUIT_TEXT: &'static str = "Quit Radiolite";

/// Exit code of a process ended from the menu.
pub const QUIT_EXIT_CODE: i32 = 0;

/// One item of the tray's context menu.
#[derive(Debug, PartialEq, Eq)]
pub struct MenuEntry {
    pub id: String,
    pub text: String,
    pub enabled: bool,
}

/// The tray's context menu: a single enabled quit item.
pub fn tray_menu() -> (r: Vec<MenuEntry>)
    ensures
        r@.len() == 1,
        r@[0].id@ == QUIT_ID@,
        r@[0].text@ == QUIT_TEXT@,
        r@[0].enabled,
{
    let mut items: Vec<MenuEntry> = Vec::new();
    items.push(
        MenuEntry { id: String::from_str(QUIT_ID), text: String::from_str(QUIT_TEXT), enabled: true },
    );
    items
}

/// What selecting a menu item does.
#[derive(Clone, Copy, Debug, PartialEq, Eq, Structural)]
pub enum MenuAction {
    /// End the process with this exit code.
    Exit(i32),
    /// Keep running.
    Ignore,
}

/// The action for the menu item with id `id`: the quit item ends the process
/// with exit code 0, any other id is ignored.
pub open spec fn menu_action_spec(id: Seq<char>) -> MenuAction {
    if id == QUIT_ID@ {
        MenuAction::Exit(QUIT_EXIT_CODE)
    } else {
        MenuAction::Ignore
    }
}

/// Dispatches a selection of the menu item with id `id`.
pub fn menu_action(id: &str) -> (r: MenuAction)
    ensures
        r == menu_action_spec(id@),
{
    let selected = String::from_str(id);
    let quit = String::from_str(QUIT_ID);
    if selected == quit {
        MenuAction::Exit(QUIT_EXIT_CODE)
    } else {
        MenuAction::Ignore
    }
}

/// Only the quit item ends the process, and it always does so with exit
/// code 0; every other id leaves the process running.
pub proof fn lemma_only_quit_exits(id: Seq<char>)
    ensures
        menu_action_spec(QUIT_ID@) == MenuAction::Exit(0),
        id != QUIT_ID@ ==> menu_action_spec(id) == MenuAction::Ignore,
        (menu_action_spec(id) is Exit) <==> id == QUIT_ID@,
{
}

} // verus!
