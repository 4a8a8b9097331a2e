use vstd::prelude::*;

verus! {

/// Logical id of the content window.
pub const WINDOW_ID: &'static str = "main";

#[derive(Clone, Copy, Debug, PartialEq, Eq, Structural)]
pub enum MouseButton {
    Left,
    Right,
    Middle,
}

#[derive(Clone, Copy, Debug, PartialEq, Eq, Structural)]
pub enum MouseButtonState {
    /// The button was released.
    Up,
    /// The button was pressed.
    Down,
}

/// An input event on the tray icon, reduced to what the toggle reads.
#[derive(Clone, Copy, Debug, PartialEq, Eq, Structural)]
pub enum TrayIconEvent {
    Click { button: MouseButton, button_state: MouseButtonState },
    DoubleClick { button: MouseButton },
    Enter,
    Move,
    Leave,
}

/// A completed primary-button click: the only event that toggles the window.
pub open spec fn is_toggle_click(ev: TrayIconEvent) -> bool {
    ev == TrayIconEvent::Click { button: MouseButton::Left, button_state: MouseButtonState::Up }
}

/// Decides whether `ev` toggles the window.
pub fn toggles_window(ev: TrayIconEvent) -> (r: bool)
    ensures
        r == is_toggle_click(ev),
{
    match ev {
        TrayIconEvent::Click { button: MouseButton::Left, button_state: MouseButtonState::Up } => {
            true
        },
        _ => false,
    }
}

/// What the caller must do next on behalf of one tray event.
#[derive(Clone, Copy, Debug, PartialEq, Eq, Structural)]
pub enum WindowAction {
    /// Hand the event to the window positioner.
    ForwardToPositioner,
    /// Resolve the window by `WINDOW_ID`; answer `WindowPresent`.
    LookupWindow,
    /// Anchor the window at the tray icon's center, best effort.
    MoveToTrayCenter,
    /// Ask whether the window is visible; answer `Visibility`.
    QueryVisibility,
    Hide,
    Show,
    /// Give the window input focus, best effort.
    Focus,
    /// The event is fully handled.
    Done,
}

/// The caller's answer to the last action. Actions whose outcome is ignored
/// are answered with `Ack`.
#[derive(Clone, Copy, Debug, PartialEq, Eq, Structural)]
pub enum WindowReply {
    Ack,
    WindowPresent(bool),
    /// Whether the window is visible; `None` when the query failed.
    Visibility(Option<bool>),
}

/// The action a handling waits on.
#[derive(Clone, Copy, Debug, PartialEq, Eq, Structural)]
pub enum TogglePhase {
    Forwarding { toggle: bool },
    LookingUp,
    Moving,
    Querying,
    Hiding,
    Showing,
    Focusing,
    Done,
}

/// The next phase and action, given the answer to the pending action. A
/// window that is not answered as present is left alone; a visibility that
/// is not answered as visible counts as hidden, so the window is shown.
pub open spec fn toggle_step(p: TogglePhase, reply: WindowReply) -> (TogglePhase, WindowAction) {
    match p {
        TogglePhase::Forwarding { toggle } => if toggle {
            (TogglePhase::LookingUp, WindowAction::LookupWindow)
        } else {
            (TogglePhase::Done, WindowAction::Done)
        },
        TogglePhase::LookingUp => if reply == WindowReply::WindowPresent(true) {
            (TogglePhase::Moving, WindowAction::MoveToTrayCenter)
        } else {
            (TogglePhase::Done, WindowAction::Done)
        },
        TogglePhase::Moving => (TogglePhase::Querying, WindowAction::QueryVisibility),
        TogglePhase::Querying => if reply == WindowReply::Visibility(Some(true)) {
            (TogglePhase::Hiding, WindowAction::Hide)
        } else {
            (TogglePhase::Showing, WindowAction::Show)
        },
        TogglePhase::Showing => (TogglePhase::Focusing, WindowAction::Focus),
        _ => (TogglePhase::Done, WindowAction::Done),
    }
}

/// The handling of one tray event.
pub struct ToggleRun {
    phase: TogglePhase,
}

impl View for ToggleRun {
    type V = TogglePhase;

    closed spec fn view(&self) -> TogglePhase {
        self.phase
    }
}

impl ToggleRun {
    /// Starts handling `ev`; every event goes to the positioner first.
    pub fn begin(ev: TrayIconEvent) -> (r: (ToggleRun, WindowAction))
        ensures
            r.0@ == (TogglePhase::Forwarding { toggle: is_toggle_click(ev) }),
            r.1 == WindowAction::ForwardToPositioner,
    {
        (ToggleRun { phase: TogglePhase::Forwarding { toggle: toggles_window(ev) } }, WindowAction::ForwardToPositioner)
    }

    /// Takes the answer to the pending action and gives the next one.
    pub fn step(&mut self, reply: WindowReply) -> (a: WindowAction)
        ensures
            (final(self)@, a) == toggle_step(old(self)@, reply),
    {
        let (p, a) = match self.phase {
            TogglePhase::Forwarding { toggle } => if toggle {
                (TogglePhase::LookingUp, WindowAction::LookupWindow)
            } else {
                (TogglePhase::Done, WindowAction::Done)
            },
            TogglePhase::LookingUp => match reply {
                WindowReply::WindowPresent(true) => (TogglePhase::Moving, WindowAction::MoveToTrayCenter),
                _ => (TogglePhase::Done, WindowAction::Done),
            },
            TogglePhase::Moving => (TogglePhase::Querying, WindowAction::QueryVisibility),
            TogglePhase::Querying => match reply {
                WindowReply::Visibility(Some(true)) => (TogglePhase::Hiding, WindowAction::Hide),
                _ => (TogglePhase::Showing, WindowAction::Show),
            },
            TogglePhase::Showing => (TogglePhase::Focusing, WindowAction::Focus),
            _ => (TogglePhase::Done, WindowAction::Done),
        };
        self.phase = p;
        a
    }

    /// Whether the event is fully handled.
    pub fn is_done(&self) -> (r: bool)
        ensures
            r == (self@ == TogglePhase::Done),
    {
        match self.phase {
            TogglePhase::Done => true,
            _ => false,
        }
    }
}

/// The answer that a window gives to the action pending in phase `p`: it
/// reports `present` when looked up and `visible` when queried.
pub open spec fn window_answer(p: TogglePhase, present: bool, visible: Option<bool>) -> WindowReply {
    match p {
        TogglePhase::LookingUp => WindowReply::WindowPresent(present),
        TogglePhase::Querying => WindowReply::Visibility(visible),
        _ => WindowReply::Ack,
    }
}

/// The actions issued from phase `p` on, at most `fuel` of them, when every
/// action is answered as `window_answer` says.
pub open spec fn run_actions(p: TogglePhase, present: bool, visible: Option<bool>, fuel: nat) -> Seq<
    WindowAction,
>
    decreases fuel,
{
    if fuel == 0 || p == TogglePhase::Done {
        seq![]
    } else {
        let (q, a) = toggle_step(p, window_answer(p, present, visible));
        seq![a] + run_actions(q, present, visible, (fuel - 1) as nat)
    }
}

/// A completed primary click on an existing window hides it when it is
/// visible, and shows and then focuses it when it is hidden or its
/// visibility cannot be read. The window is moved to the tray icon first.
pub proof fn lemma_primary_click_toggles(visible: Option<bool>)
    ensures
        run_actions(
            TogglePhase::Forwarding { toggle: is_toggle_click(TrayIconEvent::Click { button: MouseButton::Left, button_state: MouseButtonState::Up }) },
            true,
            visible,
            8,
        ) == if visible == Some(true) {
            seq![
                WindowAction::LookupWindow,
                WindowAction::MoveToTrayCenter,
                WindowAction::QueryVisibility,
                WindowAction::Hide,
                WindowAction::Done,
            ]
        } else {
            seq![
                WindowAction::LookupWindow,
                WindowAction::MoveToTrayCenter,
                WindowAction::QueryVisibility,
                WindowAction::Show,
                WindowAction::Focus,
                WindowAction::Done,
            ]
        },
{
    reveal_with_fuel(run_actions, 8);
}

/// Any other tray event, such as a secondary click or pointer movement, is
/// only forwarded to the positioner: the window is neither shown nor hidden.
pub proof fn lemma_other_events_keep_visibility(ev: TrayIconEvent, present: bool, visible: Option<bool>)
    requires
        !is_toggle_click(ev),
    ensures
        run_actions(TogglePhase::Forwarding { toggle: is_toggle_click(ev) }, present, visible, 8)
            == seq![WindowAction::Done],
        !run_actions(TogglePhase::Forwarding { toggle: is_toggle_click(ev) }, present, visible, 8).contains(WindowAction::Hide),
        !run_actions(TogglePhase::Forwarding { toggle: is_toggle_click(ev) }, present, visible, 8).contains(WindowAction::Show),
{
    reveal_with_fuel(run_actions, 2);
    let acts = run_actions(TogglePhase::Forwarding { toggle: false }, present, visible, 8);
    assert(acts[0] == WindowAction::Done);
}

} // verus!
