//! The tray menu. It has an item for every hotkey, so that no mode depends on one.

use crate::hotkeys::{REQ_INTERACT, REQ_SETTINGS, REQ_VISIBILITY};
use crate::text::str_eq;
use vstd::prelude::*;

verus! {

/// How a menu item looks.
#[derive(Debug, Clone, Copy, PartialEq, Eq, Structural)]
pub enum ItemKind {
    Plain,
    /// With a mark that shows whether it is on.
    Check,
    /// Plain, below a line.
    Separated,
}

/// One menu item.
#[derive(Debug, Clone, Copy, PartialEq, Eq)]
pub struct TrayItem {
    pub id: &'static str,
    pub label: &'static str,
    pub kind: ItemKind,
}

/// What the tray asks for.
#[derive(Debug, Clone, Copy, PartialEq, Eq, Structural)]
pub enum TrayAction {
    /// The same as a hotkey request.
    Press(u8),
    /// Start on login, or not, as the item's mark says; and remember it.
    Autostart,
    Quit,
    Nothing,
}

/// The number of menu items.
pub const TRAY_LEN: usize = 5;

/// The menu items by their place: id, label and looks.
pub open spec fn menu_item(i: int) -> (Seq<char>, Seq<char>, ItemKind) {
    if i == 0 {
        ("interact"@, "Interact mode on / off"@, ItemKind::Plain)
    } else if i == 1 {
        ("settings"@, "Settings mode on / off"@, ItemKind::Plain)
    } else if i == 2 {
        ("visibility"@, "Show / hide overlay"@, ItemKind::Plain)
    } else if i == 3 {
        ("autostart"@, "Start on login"@, ItemKind::Check)
    } else {
        ("quit"@, "Quit StarPlatform HUD"@, ItemKind::Separated)
    }
}

/// What choosing a menu item asks for.
pub open spec fn menu_action(id: Seq<char>) -> TrayAction {
    if id == "interact"@ {
        TrayAction::Press(REQ_INTERACT)
    } else if id == "settings"@ {
        TrayAction::Press(REQ_SETTINGS)
    } else if id == "visibility"@ {
        TrayAction::Press(REQ_VISIBILITY)
    } else if id == "autostart"@ {
        TrayAction::Autostart
    } else if id == "quit"@ {
        TrayAction::Quit
    } else {
        TrayAction::Nothing
    }
}

/// The menu items, in order.
pub fn tray_items() -> (r: Vec<TrayItem>)
    ensures
        r@.len() == TRAY_LEN,
        forall|i: int|
            0 <= i < TRAY_LEN ==> ((#[trigger] r@[i]).id@, r@[i].label@, r@[i].kind) == menu_item(i),
{
    let mut items: Vec<TrayItem> = Vec::new();
    items.push(
        TrayItem { id: "interact", label: "Interact mode on / off", kind: ItemKind::Plain },
    );
    items.push(
        TrayItem { id: "settings", label: "Settings mode on / off", kind: ItemKind::Plain },
    );
    items.push(
        TrayItem { id: "visibility", label: "Show / hide overlay", kind: ItemKind::Plain },
    );
    items.push(TrayItem { id: "autostart", label: "Start on login", kind: ItemKind::Check });
    items.push(
        TrayItem { id: "quit", label: "Quit StarPlatform HUD", kind: ItemKind::Separated },
    );
    items
}

/// What choosing a menu item asks for.
pub fn tray_action(id: &str) -> (r: TrayAction)
    ensures
        r == menu_action(id@),
{
    if str_eq(id, "interact") {
        TrayAction::Press(REQ_INTERACT)
    } else if str_eq(id, "settings") {
        TrayAction::Press(REQ_SETTINGS)
    } else if str_eq(id, "visibility") {
        TrayAction::Press(REQ_VISIBILITY)
    } else if str_eq(id, "autostart") {
        TrayAction::Autostart
    } else if str_eq(id, "quit") {
        TrayAction::Quit
    } else {
        TrayAction::Nothing
    }
}

/// What a click on the tray icon asks for.
pub open spec fn click_action(left: bool, released: bool) -> TrayAction {
    if left && released {
        TrayAction::Press(REQ_INTERACT)
    } else {
        TrayAction::Nothing
    }
}

/// What a click on the tray icon asks for: letting go of the left button switches interact mode, the
/// cheapest way out.
pub fn tray_click(left: bool, released: bool) -> (r: TrayAction)
    ensures
        r == if left && released {
            TrayAction::Press(REQ_INTERACT)
        } else {
            TrayAction::Nothing
        },
        r == click_action(left, released),
{
    if left && released {
        TrayAction::Press(REQ_INTERACT)
    } else {
        TrayAction::Nothing
    }
}

/// Every item asks for something, no two ask for the same, and every hotkey action has an item.
pub proof fn law_tray_covers_hotkeys(i: int, j: int, req: u8)
    requires
        0 <= i < TRAY_LEN,
        0 <= j < TRAY_LEN,
    ensures
        menu_action(menu_item(i).0) != TrayAction::Nothing,
        menu_action(menu_item(i).0) == menu_action(menu_item(j).0) ==> i == j,
        req == REQ_INTERACT || req == REQ_SETTINGS || req == REQ_VISIBILITY ==> exists|k: int|
            0 <= k < TRAY_LEN && menu_action((#[trigger] menu_item(k)).0) == TrayAction::Press(req),
{
    reveal_strlit("interact");
    reveal_strlit("settings");
    reveal_strlit("visibility");
    reveal_strlit("autostart");
    reveal_strlit("quit");
    assert("interact"@.len() == 8 && "settings"@.len() == 8 && "visibility"@.len() == 10
        && "autostart"@.len() == 9 && "quit"@.len() == 4);
    assert("interact"@[0] != "settings"@[0]);
    assert(menu_action(menu_item(0).0) == TrayAction::Press(REQ_INTERACT));
    assert(menu_action(menu_item(1).0) == TrayAction::Press(REQ_SETTINGS));
    assert(menu_action(menu_item(2).0) == TrayAction::Press(REQ_VISIBILITY));
    assert(menu_action(menu_item(3).0) == TrayAction::Autostart);
    assert(menu_action(menu_item(4).0) == TrayAction::Quit);
}

/// Each item asks for what it is named after, and no other id asks for anything.
pub proof fn law_items_do_what_they_say(id: Seq<char>)
    ensures
        (menu_action(id) == TrayAction::Press(REQ_INTERACT)) == (id == "interact"@),
        (menu_action(id) == TrayAction::Press(REQ_SETTINGS)) == (id == "settings"@),
        (menu_action(id) == TrayAction::Press(REQ_VISIBILITY)) == (id == "visibility"@),
        (menu_action(id) is Autostart) == (id == "autostart"@),
        (menu_action(id) is Quit) == (id == "quit"@),
        menu_action(id) is Nothing == (id != "interact"@ && id != "settings"@ && id
            != "visibility"@ && id != "autostart"@ && id != "quit"@),
        menu_action(id) matches TrayAction::Press(req) ==> req == REQ_INTERACT || req
            == REQ_SETTINGS || req == REQ_VISIBILITY,
{
    reveal_strlit("interact");
    reveal_strlit("settings");
    reveal_strlit("visibility");
    reveal_strlit("autostart");
    reveal_strlit("quit");
    assert("interact"@.len() == 8 && "settings"@.len() == 8 && "visibility"@.len() == 10
        && "autostart"@.len() == 9 && "quit"@.len() == 4);
    assert("interact"@[0] != "settings"@[0]);
}

/// Quitting stands last, below a line, and only what is on or off carries a mark.
pub proof fn law_menu_looks(i: int)
    requires
        0 <= i < TRAY_LEN,
    ensures
        (menu_action(menu_item(i).0) is Quit) == (i == TRAY_LEN - 1),
        (menu_item(i).2 is Separated) == (i == TRAY_LEN - 1),
        (menu_item(i).2 is Check) == (menu_action(menu_item(i).0) is Autostart),
{
    law_items_do_what_they_say(menu_item(i).0);
    law_tray_covers_hotkeys(i, 3, REQ_INTERACT);
    law_tray_covers_hotkeys(i, 4, REQ_INTERACT);
    law_items_do_what_they_say("autostart"@);
    law_items_do_what_they_say("quit"@);
}

/// The icon answers only to the left button being let go, with interact mode.
pub proof fn law_icon(left: bool, released: bool)
    ensures
        !left || !released ==> click_action(left, released) is Nothing,
        left && released ==> click_action(left, released) == menu_action("interact"@),
{
}

} // verus!
