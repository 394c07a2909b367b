//! The closed set of tray-menu identifiers and notification names.

use vstd::prelude::*;
use vstd::string::StrSliceExecFns;

verus! {

/// Identifier of one tray-menu entry. The set is closed: identifiers are never
/// added, removed or duplicated at runtime.
#[derive(Clone, Copy, Debug, PartialEq, Eq, Structural)]
pub enum MenuId {
    Show,
    Hide,
    ClickThrough,
    ResetPos,
    Autostart,
    Quit,
}

/// Name of a notification the tray layer can send to the main window.
/// Notifications are fire-and-forget and carry no payload.
#[derive(Clone, Copy, Debug, PartialEq, Eq, Structural)]
pub enum Notification {
    ToggleClickThrough,
    ResetPosition,
    ToggleAutostart,
}

/// The identifier token of a menu entry, as the host shell reports it back
/// when the entry is clicked.
pub open spec fn spec_identifier(id: MenuId) -> Seq<char> {
    match id {
        MenuId::Show => "show"@,
        MenuId::Hide => "hide"@,
        MenuId::ClickThrough => "click_through"@,
        MenuId::ResetPos => "reset_pos"@,
        MenuId::Autostart => "autostart"@,
        MenuId::Quit => "quit"@,
    }
}

/// The fixed, user-visible label of a menu entry.
pub open spec fn spec_label(id: MenuId) -> Seq<char> {
    match id {
        MenuId::Show => "Show"@,
        MenuId::Hide => "Hide"@,
        MenuId::ClickThrough => "Toggle Click-Through"@,
        MenuId::ResetPos => "Reset Position"@,
        MenuId::Autostart => "Start at Login"@,
        MenuId::Quit => "Quit"@,
    }
}

/// The wire name of a notification, as the main window receives it.
pub open spec fn spec_notification_name(n: Notification) -> Seq<char> {
    match n {
        Notification::ToggleClickThrough => "toggle-click-through"@,
        Notification::ResetPosition => "reset-position"@,
        Notification::ToggleAutostart => "toggle-autostart"@,
    }
}

/// Which menu identifier, if any, a raw token denotes. Anything outside the
/// six fixed tokens denotes none.
pub open spec fn spec_parse_id(s: Seq<char>) -> Option<MenuId> {
    if s == spec_identifier(MenuId::Show) {
        Some(MenuId::Show)
    } else if s == spec_identifier(MenuId::Hide) {
        Some(MenuId::Hide)
    } else if s == spec_identifier(MenuId::ClickThrough) {
        Some(MenuId::ClickThrough)
    } else if s == spec_identifier(MenuId::ResetPos) {
        Some(MenuId::ResetPos)
    } else if s == spec_identifier(MenuId::Autostart) {
        Some(MenuId::Autostart)
    } else if s == spec_identifier(MenuId::Quit) {
        Some(MenuId::Quit)
    } else {
        None
    }
}

/// Law: parsing is a left inverse of the identifier token, so every fixed
/// identifier is recognized and denotes itself alone.
pub proof fn lemma_parse_identifier(id: MenuId)
    ensures
        spec_parse_id(spec_identifier(id)) == Some(id),
{
    reveal_strlit("show");
    reveal_strlit("hide");
    reveal_strlit("click_through");
    reveal_strlit("reset_pos");
    reveal_strlit("autostart");
    reveal_strlit("quit");
    assert("hide"@[0] != "show"@[0]);
    assert("click_through"@.len() != "show"@.len());
    assert("click_through"@.len() != "hide"@.len());
    assert("reset_pos"@.len() != "show"@.len());
    assert("reset_pos"@.len() != "hide"@.len());
    assert("reset_pos"@.len() != "click_through"@.len());
    assert("autostart"@.len() != "show"@.len());
    assert("autostart"@.len() != "hide"@.len());
    assert("autostart"@.len() != "click_through"@.len());
    assert("autostart"@[0] != "reset_pos"@[0]);
    assert("quit"@[0] != "show"@[0]);
    assert("quit"@[0] != "hide"@[0]);
    assert("quit"@.len() != "click_through"@.len());
    assert("quit"@.len() != "reset_pos"@.len());
    assert("quit"@.len() != "autostart"@.len());
}

impl MenuId {
    /// The identifier token of this entry.
    pub fn identifier(&self) -> (r: &'static str)
        ensures
            r@ == spec_identifier(*self),
    {
        match self {
            MenuId::Show => "show",
            MenuId::Hide => "hide",
            MenuId::ClickThrough => "click_through",
            MenuId::ResetPos => "reset_pos",
            MenuId::Autostart => "autostart",
            MenuId::Quit => "quit",
        }
    }

    /// The fixed label of this entry.
    pub fn label(&self) -> (r: &'static str)
        ensures
            r@ == spec_label(*self),
    {
        match self {
            MenuId::Show => "Show",
            MenuId::Hide => "Hide",
            MenuId::ClickThrough => "Toggle Click-Through",
            MenuId::ResetPos => "Reset Position",
            MenuId::Autostart => "Start at Login",
            MenuId::Quit => "Quit",
        }
    }
}

impl Notification {
    /// The wire name of this notification.
    pub fn name(&self) -> (r: &'static str)
        ensures
            r@ == spec_notification_name(*self),
    {
        match self {
            Notification::ToggleClickThrough => "toggle-click-through",
            Notification::ResetPosition => "reset-position",
            Notification::ToggleAutostart => "toggle-autostart",
        }
    }
}

/// Character-by-character string equality.
fn str_eq(a: &str, b: &str) -> (r: bool)
    ensures
        r == (a@ == b@),
{
    let alen: usize = a.unicode_len();
    let blen: usize = b.unicode_len();
    if alen != blen {
        return false;
    }
    let mut i: usize = 0;
    while i < alen
        invariant
            alen == a@.len(),
            blen == b@.len(),
            alen == blen,
            i <= alen,
            forall|k: int| 0 <= k < i ==> a@[k] == b@[k],
        decreases alen - i,
    {
        if a.get_char(i) != b.get_char(i) {
            return false;
        }
        i = i + 1;
    }
    proof {
        assert(a@ =~= b@);
    }
    true
}

/// Parse a raw menu-event token into the menu identifier it denotes, or
/// `None` for any token outside the fixed set.
pub fn parse_id(s: &str) -> (r: Option<MenuId>)
    ensures
        r == spec_parse_id(s@),
{
    if str_eq(s, "show") {
        Some(MenuId::Show)
    } else if str_eq(s, "hide") {
        Some(MenuId::Hide)
    } else if str_eq(s, "click_through") {
        Some(MenuId::ClickThrough)
    } else if str_eq(s, "reset_pos") {
        Some(MenuId::ResetPos)
    } else if str_eq(s, "autostart") {
        Some(MenuId::Autostart)
    } else if str_eq(s, "quit") {
        Some(MenuId::Quit)
    } else {
        None
    }
}

} // verus!
