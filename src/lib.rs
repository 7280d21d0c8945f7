//! A tray controller for a single application window: the menu it offers and
//! the decisions it takes on tray and menu events, as a verified state machine.
//!
//! The host drives a [`Controller`]: it hands over each tray event, carries
//! out the [`Action`] that comes back, and answers with the outcome, until the
//! action is `Wait`, `LogVisibilityError`, `Exit` or `Abort`.

mod controller;
mod host;
mod laws;
mod menu;

pub use controller::{
    menu_choice, step, Action, Controller, Fault, Input, MenuChoice, Stage, TrayEvent,
    QUIT_EXIT_CODE,
};
pub use host::{HostState, ProcessState, WindowState};
pub use laws::{
    lemma_click_hides_visible_window, lemma_click_shows_hidden_window, lemma_clicks_alternate,
    lemma_hide_item_hides, lemma_hide_item_without_window_aborts, lemma_quit_exits,
    lemma_unknown_item_ignored,
};
pub use menu::{hide_id, main_window_label, quit_id, tray_menu, MenuEntry};
