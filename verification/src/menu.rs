//! Construction of the fixed six-entry tray menu.

use vstd::prelude::*;
use crate::ids::{MenuId, spec_label};

verus! {

/// One entry of the tray menu: its identifier, its user-visible label, and
/// whether it is enabled. Entries are created once at startup and immutable
/// thereafter.
pub struct MenuEntry {
    pub id: MenuId,
    pub label: String,
    pub enabled: bool,
}

/// Build one enabled menu entry with the fixed label of its identifier.
fn entry_of(id: MenuId) -> (e: MenuEntry)
    ensures
        e.id == id,
        e.label@ == spec_label(id),
        e.enabled,
{
    let label_str = id.label();
    MenuEntry { id, label: label_str.to_owned(), enabled: true }
}

/// Law: menu construction always yields exactly the six entries, in the fixed
/// order show, hide, click_through, reset_pos, autostart, quit, each with its
/// fixed label and each enabled — so exactly one entry exists per identifier.
pub fn menu_entries() -> (entries: Vec<MenuEntry>)
    ensures
        entries@.len() == 6,
        entries@[0].id == MenuId::Show,
        entries@[1].id == MenuId::Hide,
        entries@[2].id == MenuId::ClickThrough,
        entries@[3].id == MenuId::ResetPos,
        entries@[4].id == MenuId::Autostart,
        entries@[5].id == MenuId::Quit,
        forall|i: int| 0 <= i < 6 ==> (#[trigger] entries@[i]).label@ == spec_label(
            entries@[i].id,
        ),
        forall|i: int| 0 <= i < 6 ==> (#[trigger] entries@[i]).enabled,
{
    let mut entries: Vec<MenuEntry> = Vec::new();
    entries.push(entry_of(MenuId::Show));
    entries.push(entry_of(MenuId::Hide));
    entries.push(entry_of(MenuId::ClickThrough));
    entries.push(entry_of(MenuId::ResetPos));
    entries.push(entry_of(MenuId::Autostart));
    entries.push(entry_of(MenuId::Quit));
    entries
}

} // verus!
