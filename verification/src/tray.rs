//! The system tray menu: its items for the current state, and what a click
//! on an item asks for.

use vstd::prelude::*;
use crate::text::str_eq;

verus! {

/// One entry of the tray menu.
pub enum TrayItem {
    Item { id: String, label: String },
    Separator,
}

/// An item as (identifier, label), or `None` for a separator.
pub open spec fn item_view(i: TrayItem) -> Option<(Seq<char>, Seq<char>)> {
    match i {
        TrayItem::Item { id, label } => Some((id@, label@)),
        TrayItem::Separator => None,
    }
}

/// The menu for the given state: start/stop, show/hide overlay, a separator,
/// settings, a separator, quit.
pub open spec fn tray_menu_spec(is_listening: bool, overlay_visible: bool) -> Seq<
    Option<(Seq<char>, Seq<char>)>,
> {
    seq![
        Some(("start_stop"@, if is_listening { "⏹ Stop Listening"@ } else { "▶ Start Listening"@ })),
        Some(("toggle_overlay"@, if overlay_visible { "🙈 Hide Overlay"@ } else { "👁 Show Overlay"@ })),
        None,
        Some(("settings"@, "⚙ Settings"@)),
        None,
        Some(("quit"@, "✕ Quit AetherEcho"@)),
    ]
}

fn item(id: &str, label: &str) -> (i: TrayItem)
    ensures
        item_view(i) == Some((id@, label@)),
{
    TrayItem::Item { id: String::from_str(id), label: String::from_str(label) }
}

/// The tray menu for the current listening and overlay state.
pub fn tray_menu(is_listening: bool, overlay_visible: bool) -> (m: Vec<TrayItem>)
    ensures
        m@.len() == 6,
        forall|i: int|
            0 <= i < 6 ==> item_view(#[trigger] m@[i]) == tray_menu_spec(is_listening, overlay_visible)[i],
{
    let mut m: Vec<TrayItem> = Vec::new();
    if is_listening {
        m.push(item("start_stop", "⏹ Stop Listening"));
    } else {
        m.push(item("start_stop", "▶ Start Listening"));
    }
    if overlay_visible {
        m.push(item("toggle_overlay", "🙈 Hide Overlay"));
    } else {
        m.push(item("toggle_overlay", "👁 Show Overlay"));
    }
    m.push(TrayItem::Separator);
    m.push(item("settings", "⚙ Settings"));
    m.push(TrayItem::Separator);
    m.push(item("quit", "✕ Quit AetherEcho"));
    m
}

/// What a click on a tray item asks for.
pub enum TrayAction {
    ToggleListening,
    ToggleOverlay,
    ShowSettings,
    Quit,
    Ignore,
}

/// The action of the item with this identifier; unknown identifiers are ignored.
pub fn tray_action(id: &str) -> (a: TrayAction)
    ensures
        id@ == "start_stop"@ ==> a is ToggleListening,
        id@ == "toggle_overlay"@ ==> a is ToggleOverlay,
        id@ == "settings"@ ==> a is ShowSettings,
        id@ == "quit"@ ==> a is Quit,
        id@ != "start_stop"@ && id@ != "toggle_overlay"@ && id@ != "settings"@ && id@
            != "quit"@ ==> a is Ignore,
{
    proof {
        lemma_menu_ids_distinct();
    }
    if str_eq(id, "start_stop") {
        TrayAction::ToggleListening
    } else if str_eq(id, "toggle_overlay") {
        TrayAction::ToggleOverlay
    } else if str_eq(id, "settings") {
        TrayAction::ShowSettings
    } else if str_eq(id, "quit") {
        TrayAction::Quit
    } else {
        TrayAction::Ignore
    }
}

proof fn lemma_menu_ids_distinct()
    ensures
        "start_stop"@ != "toggle_overlay"@,
        "start_stop"@ != "settings"@,
        "start_stop"@ != "quit"@,
        "toggle_overlay"@ != "settings"@,
        "toggle_overlay"@ != "quit"@,
        "settings"@ != "quit"@,
{
    reveal_strlit("start_stop");
    reveal_strlit("toggle_overlay");
    reveal_strlit("settings");
    reveal_strlit("quit");
    assert("start_stop"@.len() != "toggle_overlay"@.len());
    assert("start_stop"@.len() != "settings"@.len());
    assert("start_stop"@.len() != "quit"@.len());
    assert("toggle_overlay"@.len() != "settings"@.len());
    assert("toggle_overlay"@.len() != "quit"@.len());
    assert("settings"@.len() != "quit"@.len());
}

} // verus!
