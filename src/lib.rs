//! Decision core of a tray utility: the shared station label, the steps that
//! mirror it onto the tray icon, the tray-click visibility toggle of the
//! content window, and the tray menu.

mod greeting;
mod label;
mod menu;
mod toggle;
mod tray_sync;

pub use greeting::greet;
pub use label::{
    label_after_update, lemma_last_update_wins, lemma_update_then_read, LabelStore, INITIAL_LABEL,
};
pub use menu::{
    lemma_only_quit_exits, menu_action, menu_action_spec, tray_menu, MenuAction, MenuEntry,
    QUIT_EXIT_CODE, QUIT_ID, QUIT_TEXT,
};
pub use toggle::{
    is_toggle_click, lemma_other_events_keep_visibility, lemma_primary_click_toggles, run_actions,
    toggle_step, toggles_window, window_answer, MouseButton, MouseButtonState, TogglePhase,
    ToggleRun, TrayIconEvent, WindowAction, WindowReply, WINDOW_ID,
};
pub use tray_sync::{
    applied_step, error_message, lemma_missing_tray, lookup_step, outcome_view,
    update_tray_title, SyncPhase, TitleSync, TitleSyncView, TrayCommand, TrayCommandView,
    TrayError, TrayErrorView, TrayOp, TRAY_ID,
};
