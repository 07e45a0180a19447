//! The tray menu: its items, and what a selection of one of them asks for.
use vstd::prelude::*;

use crate::text::same_text;

verus! {

/// Identifier of the menu item that ends the application.
pub open spec fn quit_id() -> Seq<char> {
    seq!['q', 'u', 'i', 't']
}

/// Label shown for the menu item that ends the application.
pub open spec fn quit_label() -> Seq<char> {
    seq!['Q', 'u', 'i', 't']
}

/// Identifier of the menu item that ends the application.
pub fn quit_item_id() -> (r: &'static str)
    ensures
        r@ == quit_id(),
{
    proof {
        reveal_strlit("quit");
    }
    "quit"
}

/// One entry of the tray menu. Items carry no keyboard shortcut.
pub struct MenuItemDef {
    pub id: String,
    pub label: String,
    pub enabled: bool,
}

impl MenuItemDef {
    /// The enabled item `quit`, labelled `Quit`.
    pub fn quit() -> (r: MenuItemDef)
        ensures
            r.id@ == quit_id(),
            r.label@ == quit_label(),
            r.enabled,
    {
        proof {
            reveal_strlit("Quit");
        }
        MenuItemDef { id: String::from_str(quit_item_id()), label: String::from_str("Quit"), enabled: true }
    }
}

/// What a selection in the tray menu asks of the application.
#[derive(PartialEq, Eq, Structural, Clone, Copy, Debug)]
pub enum MenuAction {
    /// End the process with status 0.
    Quit,
    /// Do nothing: the identifier is not one this menu acts on.
    Ignore,
}

/// The action for a selection of the item with identifier `id`: `Quit` for
/// `quit`, `Ignore` for every other identifier.
pub fn menu_action(id: &str) -> (r: MenuAction)
    ensures
        r == (if id@ == quit_id() { MenuAction::Quit } else { MenuAction::Ignore }),
{
    if same_text(id, quit_item_id()) {
        MenuAction::Quit
    } else {
        MenuAction::Ignore
    }
}

impl MenuAction {
    /// The status the process ends with for this action, if it ends.
    pub fn exit_code(&self) -> (r: Option<i32>)
        ensures
            r == (match self {
                MenuAction::Quit => Some(0i32),
                MenuAction::Ignore => None,
            }),
    {
        match self {
            MenuAction::Quit => Some(0),
            MenuAction::Ignore => None,
        }
    }
}

} // verus!

verus! {

/// No two items of `items` share an identifier.
pub open spec fn ids_distinct(items: Seq<MenuItemDef>) -> bool {
    forall|i: int, j: int| 0 <= i < j < items.len() ==> items[i].id@ != items[j].id@
}

/// A menu of the tray icon: its items in order, with distinct identifiers,
/// so that a selection names at most one of them.
pub struct TrayMenu {
    items: Vec<MenuItemDef>,
}

impl View for TrayMenu {
    type V = Seq<MenuItemDef>;

    closed spec fn view(&self) -> Seq<MenuItemDef> {
        self.items@
    }
}

impl TrayMenu {
    pub open spec fn wf(&self) -> bool {
        ids_distinct(self@)
    }

    /// A menu of `items`, in order; `None` where two of them share an identifier.
    pub fn with_items(items: Vec<MenuItemDef>) -> (r: Option<TrayMenu>)
        ensures
            r is Some <==> ids_distinct(items@),
            r matches Some(m) ==> m@ == items@ && m.wf(),
    {
        let n = items.len();
        let mut i: usize = 0;
        while i < n
            invariant
                n == items@.len(),
                i <= n,
                forall|a: int, b: int| 0 <= a < b < i ==> items@[a].id@ != items@[b].id@,
            decreases n - i,
        {
            let mut j: usize = 0;
            while j < i
                invariant
                    n == items@.len(),
                    j <= i < n,
                    forall|b: int| 0 <= b < j ==> items@[b].id@ != items@[i as int].id@,
                decreases i - j,
            {
                if same_text(items[j].id.as_str(), items[i].id.as_str()) {
                    return None;
                }
                j = j + 1;
            }
            i = i + 1;
        }
        Some(TrayMenu { items })
    }

    /// The menu of the tray icon: the quit item alone.
    pub fn tray() -> (r: TrayMenu)
        ensures
            r.wf(),
            r@.len() == 1,
            r@[0].id@ == quit_id(),
            r@[0].label@ == quit_label(),
            r@[0].enabled,
    {
        let items = vec![MenuItemDef::quit()];
        assert(ids_distinct(items@));
        TrayMenu { items }
    }

    /// The items, in order.
    pub fn items(&self) -> (r: &[MenuItemDef])
        ensures
            r@ == self@,
    {
        self.items.as_slice()
    }
}

} // verus!
