//! What the system tray asks for: each signal from the tray is mapped to
//! the one action that the host has to carry out.
//!
//! The router only decides. Showing and hiding the window, switching the
//! proxy and ending the process are for the host to perform.

use vstd::prelude::*;
use crate::text::same_text;

verus! {

/// The id of the menu item that shows the main window.
pub const ITEM_SHOW: &'static str = "show";

/// The id of the menu item that hides the main window.
pub const ITEM_HIDE: &'static str = "hide";

/// The id of the menu item that switches the proxy on.
pub const ITEM_ENABLE_PROXY: &'static str = "enable_proxy";

/// The id of the menu item that switches the proxy off.
pub const ITEM_DISABLE_PROXY: &'static str = "disable_proxy";

/// The id of the menu item that ends the application.
pub const ITEM_QUIT: &'static str = "quit";

/// What the host does in answer to a signal from the tray.
#[derive(Debug, Clone, Copy, PartialEq, Eq)]
pub enum TrayAction {
    /// Show the main window and give it the focus.
    ShowWindow,
    /// Hide the main window, which thereby gives up the focus.
    HideWindow,
    /// Switch the proxy on. How that is done is for the host to supply.
    EnableProxy,
    /// Switch the proxy off. How that is done is for the host to supply.
    DisableProxy,
    /// End the process at once. Nothing is saved, as nothing is persistent.
    Quit,
    /// Accept the signal and do nothing beyond noting it.
    Ignore,
}

/// The action for an activation of the tray icon: a visible window is
/// hidden, any other is shown.
pub open spec fn click_action(window_visible: bool) -> TrayAction {
    if window_visible {
        TrayAction::HideWindow
    } else {
        TrayAction::ShowWindow
    }
}

/// The action for the menu item with the given id. An id outside the five
/// known ones, such as that of a submenu entry, is accepted and ignored.
pub open spec fn menu_action(id: Seq<char>) -> TrayAction {
    if id == ITEM_SHOW@ {
        TrayAction::ShowWindow
    } else if id == ITEM_HIDE@ {
        TrayAction::HideWindow
    } else if id == ITEM_ENABLE_PROXY@ {
        TrayAction::EnableProxy
    } else if id == ITEM_DISABLE_PROXY@ {
        TrayAction::DisableProxy
    } else if id == ITEM_QUIT@ {
        TrayAction::Quit
    } else {
        TrayAction::Ignore
    }
}

/// Decides what an activation of the tray icon leads to, given whether the
/// main window is visible at that moment.
pub fn on_left_click(window_visible: bool) -> (action: TrayAction)
    ensures
        action == click_action(window_visible),
{
    if window_visible {
        TrayAction::HideWindow
    } else {
        TrayAction::ShowWindow
    }
}

/// Decides what the selection of the menu item `id` leads to.
pub fn on_menu_item(id: &str) -> (action: TrayAction)
    ensures
        action == menu_action(id@),
{
    if same_text(id, ITEM_SHOW) {
        TrayAction::ShowWindow
    } else if same_text(id, ITEM_HIDE) {
        TrayAction::HideWindow
    } else if same_text(id, ITEM_ENABLE_PROXY) {
        TrayAction::EnableProxy
    } else if same_text(id, ITEM_DISABLE_PROXY) {
        TrayAction::DisableProxy
    } else if same_text(id, ITEM_QUIT) {
        TrayAction::Quit
    } else {
        TrayAction::Ignore
    }
}

} // verus!
