use vstd::prelude::*;
use crate::label::{label_after_update, LabelStore};

verus! {

/// Logical id under which the tray icon is registered.
pub const TRAY_ID: &'static str = "main";

/// The two properties of the tray icon that mirror the label.
#[derive(Clone, Copy, Debug, PartialEq, Eq, Structural)]
pub enum TrayOp {
    Title,
    Tooltip,
}

/// Why mirroring a label onto the tray icon failed.
#[derive(Debug, PartialEq, Eq)]
pub enum TrayError {
    /// No tray icon is registered under `TRAY_ID`.
    TrayNotFound,
    /// Setting one property failed, with the platform's message.
    TraySetFailed(TrayOp, String),
}

pub enum TrayErrorView {
    TrayNotFound,
    TraySetFailed(TrayOp, Seq<char>),
}

impl View for TrayError {
    type V = TrayErrorView;

    open spec fn view(&self) -> TrayErrorView {
        match self {
            TrayError::TrayNotFound => TrayErrorView::TrayNotFound,
            TrayError::TraySetFailed(op, m) => TrayErrorView::TraySetFailed(*op, m@),
        }
    }
}

/// The text handed back to the window content for an error.
pub open spec fn error_message(e: TrayErrorView) -> Seq<char> {
    match e {
        TrayErrorView::TrayNotFound => "Tray icon not found"@,
        TrayErrorView::TraySetFailed(TrayOp::Title, m) => "Failed to set title: "@ + m,
        TrayErrorView::TraySetFailed(TrayOp::Tooltip, m) => "Failed to set tooltip: "@ + m,
    }
}

impl TrayError {
    /// The text handed back to the window content for this error.
    pub fn message(&self) -> (r: String)
        ensures
            r@ == error_message(self@),
    {
        match self {
            TrayError::TrayNotFound => String::from_str("Tray icon not found"),
            TrayError::TraySetFailed(TrayOp::Title, m) => {
                String::from_str("Failed to set title: ").concat(m.as_str())
            },
            TrayError::TraySetFailed(TrayOp::Tooltip, m) => {
                String::from_str("Failed to set tooltip: ").concat(m.as_str())
            },
        }
    }
}

/// What the caller must do next to mirror a label onto the tray icon.
#[derive(Debug, PartialEq, Eq)]
pub enum TrayCommand {
    /// Resolve the tray icon by `TRAY_ID`, then call `on_lookup`.
    LookupTray,
    /// Set the icon's title, then call `on_applied` with the outcome.
    SetTitle(String),
    /// Set the icon's tooltip, then call `on_applied` with the outcome.
    SetTooltip(String),
    /// Nothing is left to do; this is the result of the update.
    Finish(Result<(), TrayError>),
}

pub enum TrayCommandView {
    LookupTray,
    SetTitle(Seq<char>),
    SetTooltip(Seq<char>),
    Finish(Result<(), TrayErrorView>),
}

impl View for TrayCommand {
    type V = TrayCommandView;

    open spec fn view(&self) -> TrayCommandView {
        match self {
            TrayCommand::LookupTray => TrayCommandView::LookupTray,
            TrayCommand::SetTitle(t) => TrayCommandView::SetTitle(t@),
            TrayCommand::SetTooltip(t) => TrayCommandView::SetTooltip(t@),
            TrayCommand::Finish(Ok(())) => TrayCommandView::Finish(Ok(())),
            TrayCommand::Finish(Err(e)) => TrayCommandView::Finish(Err(e@)),
        }
    }
}

/// Where a sync stands: which answer it waits for.
#[derive(Clone, Copy, Debug, PartialEq, Eq, Structural)]
pub enum SyncPhase {
    AwaitTray,
    AwaitTitle,
    AwaitTooltip,
    Done,
}

pub struct TitleSyncView {
    pub title: Seq<char>,
    pub phase: SyncPhase,
}

/// One pass of mirroring `title` onto the tray icon: resolve the icon, set
/// its title, then its tooltip, stopping at the first failure.
pub struct TitleSync {
    title: String,
    phase: SyncPhase,
}

impl View for TitleSync {
    type V = TitleSyncView;

    closed spec fn view(&self) -> TitleSyncView {
        TitleSyncView { title: self.title@, phase: self.phase }
    }
}

/// The next state and command once the tray icon was looked up.
pub open spec fn lookup_step(s: TitleSyncView, found: bool) -> (TitleSyncView, TrayCommandView) {
    if found {
        (TitleSyncView { phase: SyncPhase::AwaitTitle, ..s }, TrayCommandView::SetTitle(s.title))
    } else {
        (
            TitleSyncView { phase: SyncPhase::Done, ..s },
            TrayCommandView::Finish(Err(TrayErrorView::TrayNotFound)),
        )
    }
}

/// The next state and command once a property was set, with the outcome of
/// that call (its error message on failure).
pub open spec fn applied_step(s: TitleSyncView, outcome: Result<(), Seq<char>>) -> (
    TitleSyncView,
    TrayCommandView,
) {
    let done = TitleSyncView { phase: SyncPhase::Done, ..s };
    match (s.phase, outcome) {
        (SyncPhase::AwaitTitle, Ok(())) => (
            TitleSyncView { phase: SyncPhase::AwaitTooltip, ..s },
            TrayCommandView::SetTooltip(s.title),
        ),
        (SyncPhase::AwaitTitle, Err(m)) => (
            done,
            TrayCommandView::Finish(Err(TrayErrorView::TraySetFailed(TrayOp::Title, m))),
        ),
        (SyncPhase::AwaitTooltip, Ok(())) => (done, TrayCommandView::Finish(Ok(()))),
        (_, Err(m)) => (
            done,
            TrayCommandView::Finish(Err(TrayErrorView::TraySetFailed(TrayOp::Tooltip, m))),
        ),
        (_, Ok(())) => (done, TrayCommandView::Finish(Ok(()))),
    }
}

pub open spec fn outcome_view(outcome: Result<(), String>) -> Result<(), Seq<char>> {
    match outcome {
        Ok(()) => Ok(()),
        Err(m) => Err(m@),
    }
}

impl TitleSync {
    /// A sync of `title` that has not yet looked up the tray icon.
    pub fn start(title: String) -> (r: TitleSync)
        ensures
            r@ == (TitleSyncView { title: title@, phase: SyncPhase::AwaitTray }),
    {
        TitleSync { title, phase: SyncPhase::AwaitTray }
    }

    /// The title being mirrored.
    pub fn title(&self) -> (r: String)
        ensures
            r@ == self@.title,
    {
        self.title.clone()
    }

    /// Which answer the sync waits for.
    pub fn phase(&self) -> (r: SyncPhase)
        ensures
            r == self@.phase,
    {
        self.phase
    }

    /// Takes the result of looking up the tray icon.
    pub fn on_lookup(&mut self, found: bool) -> (c: TrayCommand)
        requires
            old(self)@.phase == SyncPhase::AwaitTray,
        ensures
            (final(self)@, c@) == lookup_step(old(self)@, found),
    {
        if found {
            self.phase = SyncPhase::AwaitTitle;
            TrayCommand::SetTitle(self.title.clone())
        } else {
            self.phase = SyncPhase::Done;
            TrayCommand::Finish(Err(TrayError::TrayNotFound))
        }
    }

    /// Takes the outcome of setting the title or the tooltip.
    pub fn on_applied(&mut self, outcome: Result<(), String>) -> (c: TrayCommand)
        requires
            old(self)@.phase == SyncPhase::AwaitTitle || old(self)@.phase
                == SyncPhase::AwaitTooltip,
        ensures
            (final(self)@, c@) == applied_step(old(self)@, outcome_view(outcome)),
    {
        let setting_title = match self.phase {
            SyncPhase::AwaitTitle => true,
            _ => false,
        };
        match outcome {
            Ok(()) => {
                if setting_title {
                    self.phase = SyncPhase::AwaitTooltip;
                    TrayCommand::SetTooltip(self.title.clone())
                } else {
                    self.phase = SyncPhase::Done;
                    TrayCommand::Finish(Ok(()))
                }
            },
            Err(m) => {
                self.phase = SyncPhase::Done;
                let op = if setting_title {
                    TrayOp::Title
                } else {
                    TrayOp::Tooltip
                };
                TrayCommand::Finish(Err(TrayError::TraySetFailed(op, m)))
            },
        }
    }
}

/// Takes a new label from the window content: writes it to the store, then
/// starts mirroring it onto the tray icon. The write never fails the call;
/// the result of the update is the `Finish` command the sync ends with.
pub fn update_tray_title(store: &mut LabelStore, title: String) -> (r: (TitleSync, TrayCommand))
    ensures
        final(store)@ == label_after_update(old(store)@, title@),
        r.0@ == (TitleSyncView { title: title@, phase: SyncPhase::AwaitTray }),
        r.1@ == TrayCommandView::LookupTray,
{
    store.set(title.clone());
    (TitleSync::start(title), TrayCommand::LookupTray)
}

/// An update made while no tray icon is registered still leaves the store
/// holding the new title, and its sync ends at once with the error whose
/// message is "Tray icon not found".
pub proof fn lemma_missing_tray(current: Seq<char>, title: Seq<char>)
    ensures
        label_after_update(current, title) == title,
        lookup_step(TitleSyncView { title, phase: SyncPhase::AwaitTray }, false) == (
            TitleSyncView { title, phase: SyncPhase::Done },
            TrayCommandView::Finish(Err(TrayErrorView::TrayNotFound)),
        ),
        error_message(TrayErrorView::TrayNotFound) == "Tray icon not found"@,
{
}

} // verus!
