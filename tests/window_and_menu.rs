use radiolite::{
    menu_action, toggles_window, tray_menu, MenuAction, MouseButton, MouseButtonState, ToggleRun,
    TrayIconEvent, WindowAction, WindowReply, QUIT_ID, WINDOW_ID,
};

struct FakeWindow {
    present: bool,
    visible: Option<bool>,
    focused: bool,
    moved: bool,
}

/// Runs the handling of `ev` against `w`, returning the actions issued.
fn handle(ev: TrayIconEvent, w: &mut FakeWindow) -> Vec<WindowAction> {
    let (mut run, mut action) = ToggleRun::begin(ev);
    let mut seen = vec![action];
    while action != WindowAction::Done {
        let reply = match action {
            WindowAction::LookupWindow => WindowReply::WindowPresent(w.present),
            WindowAction::QueryVisibility => WindowReply::Visibility(w.visible),
            WindowAction::MoveToTrayCenter => {
                w.moved = true;
                WindowReply::Ack
            }
            WindowAction::Hide => {
                w.visible = Some(false);
                w.focused = false;
                WindowReply::Ack
            }
            WindowAction::Show => {
                w.visible = Some(true);
                WindowReply::Ack
            }
            WindowAction::Focus => {
                w.focused = true;
                WindowReply::Ack
            }
            _ => WindowReply::Ack,
        };
        action = run.step(reply);
        seen.push(action);
        assert!(seen.len() < 20);
    }
    assert!(run.is_done());
    seen
}

fn primary_click() -> TrayIconEvent {
    TrayIconEvent::Click { button: MouseButton::Left, button_state: MouseButtonState::Up }
}

#[test]
fn primary_click_toggles_hidden_shown_hidden() {
    let mut w = FakeWindow { present: true, visible: Some(false), focused: false, moved: false };
    let acts = handle(primary_click(), &mut w);
    assert_eq!(
        acts,
        vec![
            WindowAction::ForwardToPositioner,
            WindowAction::LookupWindow,
            WindowAction::MoveToTrayCenter,
            WindowAction::QueryVisibility,
            WindowAction::Show,
            WindowAction::Focus,
            WindowAction::Done,
        ]
    );
    assert_eq!(w.visible, Some(true));
    assert!(w.focused);
    assert!(w.moved);
    handle(primary_click(), &mut w);
    assert_eq!(w.visible, Some(false));
}

#[test]
fn primary_click_hides_visible_window() {
    let mut w = FakeWindow { present: true, visible: Some(true), focused: true, moved: false };
    let acts = handle(primary_click(), &mut w);
    assert!(acts.contains(&WindowAction::Hide));
    assert!(!acts.contains(&WindowAction::Show));
    assert_eq!(w.visible, Some(false));
}

#[test]
fn failed_visibility_query_shows_window() {
    let mut w = FakeWindow { present: true, visible: None, focused: false, moved: false };
    let acts = handle(primary_click(), &mut w);
    assert!(acts.contains(&WindowAction::Show));
    assert!(acts.contains(&WindowAction::Focus));
    assert_eq!(w.visible, Some(true));
}

#[test]
fn missing_window_is_left_alone() {
    let mut w = FakeWindow { present: false, visible: Some(false), focused: false, moved: false };
    let acts = handle(primary_click(), &mut w);
    assert_eq!(
        acts,
        vec![WindowAction::ForwardToPositioner, WindowAction::LookupWindow, WindowAction::Done]
    );
    assert!(!w.moved);
}

#[test]
fn other_events_do_not_change_visibility() {
    let events = [
        TrayIconEvent::Click { button: MouseButton::Right, button_state: MouseButtonState::Up },
        TrayIconEvent::Click { button: MouseButton::Left, button_state: MouseButtonState::Down },
        TrayIconEvent::Click { button: MouseButton::Middle, button_state: MouseButtonState::Up },
        TrayIconEvent::DoubleClick { button: MouseButton::Left },
        TrayIconEvent::Enter,
        TrayIconEvent::Move,
        TrayIconEvent::Leave,
    ];
    for ev in events {
        assert!(!toggles_window(ev));
        let mut w = FakeWindow { present: true, visible: Some(true), focused: false, moved: false };
        let acts = handle(ev, &mut w);
        assert_eq!(acts, vec![WindowAction::ForwardToPositioner, WindowAction::Done]);
        assert_eq!(w.visible, Some(true));
    }
    assert!(toggles_window(primary_click()));
}

#[test]
fn quit_item_exits_with_zero() {
    assert_eq!(menu_action("quit"), MenuAction::Exit(0));
    assert_eq!(menu_action(QUIT_ID), MenuAction::Exit(0));
}

#[test]
fn other_menu_ids_are_ignored() {
    assert_eq!(menu_action("settings"), MenuAction::Ignore);
    assert_eq!(menu_action(""), MenuAction::Ignore);
    assert_eq!(menu_action("Quit"), MenuAction::Ignore);
}

#[test]
fn menu_has_single_quit_item() {
    let items = tray_menu();
    assert_eq!(items.len(), 1);
    assert_eq!(items[0].id, "quit");
    assert_eq!(items[0].text, "Quit Radiolite");
    assert!(items[0].enabled);
    assert_eq!(WINDOW_ID, "main");
}
