use vstd::prelude::*;

use crate::menu::{hide_id, hide_id_spec, quit_id, quit_id_spec};

verus! {

/// Exit code of a quit asked for from the tray menu.
pub const QUIT_EXIT_CODE: i32 = 0;

/// An event that the host delivers from the tray icon; `P` is the host's
/// screen position type.
#[derive(Debug, PartialEq, Eq)]
pub enum TrayEvent<P> {
    /// Primary-button click on the icon, at this screen position.
    LeftClick(P),
    /// Selection of the menu item with this identifier.
    MenuItemClick(String),
    /// Any other tray event (right click, double click, ...).
    Other,
}

/// What the controller is told: a new event, or the answer to its last action.
#[derive(Debug, PartialEq, Eq)]
pub enum Input<P> {
    /// A tray event.
    Tray(TrayEvent<P>),
    /// The window's own content asks to hide that window.
    HideRequested,
    /// The window named "main" was found.
    WindowFound,
    /// No window is registered as "main".
    WindowMissing,
    /// The visibility query answered.
    VisibilityIs(bool),
    /// The visibility query failed.
    VisibilityUnknown,
    /// The last window command succeeded.
    Done,
    /// The last window command failed.
    Failed,
}

/// Why the process has to be aborted.
#[derive(PartialEq, Eq, Structural, Clone, Copy, Debug)]
pub enum Fault {
    WindowMissing,
    HideFailed,
    ShowFailed,
    FocusFailed,
    MoveFailed,
    /// An answer arrived that does not fit the action last asked for.
    OutOfTurn,
}

/// What the host is to do next.
#[derive(Debug, PartialEq, Eq)]
pub enum Action<P> {
    /// Nothing more for this event.
    Wait,
    /// Look the main window up by name; answer `WindowFound` or `WindowMissing`.
    LookUpMainWindow,
    /// Ask whether the window is visible; answer `VisibilityIs` or `VisibilityUnknown`.
    QueryVisibility,
    /// Window commands; answer `Done` or `Failed`.
    Hide,
    Show,
    Focus,
    SetPosition(P),
    /// Report that visibility could not be queried; nothing more for this event.
    LogVisibilityError,
    /// End the process with this code.
    Exit(i32),
    /// Abort the process with a diagnostic.
    Abort(Fault),
}

/// Where the controller stands within the handling of one event.
#[derive(Debug, PartialEq, Eq)]
pub enum Stage<P> {
    Idle,
    /// Looking up the window to toggle it, after a click at this position.
    FindingToToggle(P),
    /// Looking up the window to hide it.
    FindingToHide,
    /// Asking whether the window is visible, after a click at this position.
    Querying(P),
    Hiding,
    /// Showing the window; it is then focused and moved to this position.
    Showing(P),
    Focusing(P),
    Moving,
}

/// The transition table: the next stage and the action to take, for a stage
/// and an input. A new event starts over in any stage.
pub open spec fn next<P>(stage: Stage<P>, input: Input<P>) -> (Stage<P>, Action<P>) {
    match input {
        Input::Tray(TrayEvent::LeftClick(p)) => (Stage::FindingToToggle(p), Action::LookUpMainWindow),
        Input::Tray(TrayEvent::MenuItemClick(id)) => match menu_choice_spec(id@) {
            MenuChoice::Quit => (Stage::Idle, Action::Exit(QUIT_EXIT_CODE)),
            MenuChoice::Hide => (Stage::FindingToHide, Action::LookUpMainWindow),
            MenuChoice::Unknown => (Stage::Idle, Action::Wait),
        },
        Input::Tray(TrayEvent::Other) => (Stage::Idle, Action::Wait),
        Input::HideRequested => (Stage::Hiding, Action::Hide),
        _ => after(stage, input),
    }
}

/// The part of the table for answers to an action.
pub open spec fn after<P>(stage: Stage<P>, input: Input<P>) -> (Stage<P>, Action<P>) {
    match (stage, input) {
        (Stage::FindingToToggle(p), Input::WindowFound) => (Stage::Querying(p), Action::QueryVisibility),
        (Stage::FindingToHide, Input::WindowFound) => (Stage::Hiding, Action::Hide),
        (Stage::FindingToToggle(_), Input::WindowMissing) => (Stage::Idle, Action::Abort(Fault::WindowMissing)),
        (Stage::FindingToHide, Input::WindowMissing) => (Stage::Idle, Action::Abort(Fault::WindowMissing)),
        (Stage::Querying(_), Input::VisibilityIs(true)) => (Stage::Hiding, Action::Hide),
        (Stage::Querying(p), Input::VisibilityIs(false)) => (Stage::Showing(p), Action::Show),
        (Stage::Querying(_), Input::VisibilityUnknown) => (Stage::Idle, Action::LogVisibilityError),
        (Stage::Hiding, Input::Done) => (Stage::Idle, Action::Wait),
        (Stage::Hiding, Input::Failed) => (Stage::Idle, Action::Abort(Fault::HideFailed)),
        (Stage::Showing(p), Input::Done) => (Stage::Focusing(p), Action::Focus),
        (Stage::Showing(_), Input::Failed) => (Stage::Idle, Action::Abort(Fault::ShowFailed)),
        (Stage::Focusing(p), Input::Done) => (Stage::Moving, Action::SetPosition(p)),
        (Stage::Focusing(_), Input::Failed) => (Stage::Idle, Action::Abort(Fault::FocusFailed)),
        (Stage::Moving, Input::Done) => (Stage::Idle, Action::Wait),
        (Stage::Moving, Input::Failed) => (Stage::Idle, Action::Abort(Fault::MoveFailed)),
        _ => (Stage::Idle, Action::Abort(Fault::OutOfTurn)),
    }
}

/// Which of the two menu items an identifier names.
#[derive(Debug, PartialEq, Eq)]
pub enum MenuChoice {
    Quit,
    Hide,
    Unknown,
}

/// The item named by an identifier; identifiers are compared exactly.
pub open spec fn menu_choice_spec(id: Seq<char>) -> MenuChoice {
    if id == quit_id_spec() {
        MenuChoice::Quit
    } else if id == hide_id_spec() {
        MenuChoice::Hide
    } else {
        MenuChoice::Unknown
    }
}

/// Tells which menu item an identifier names.
pub fn menu_choice(id: &String) -> (r: MenuChoice)
    ensures
        r == menu_choice_spec(id@),
{
    let quit = String::from_str(quit_id());
    let hide = String::from_str(hide_id());
    if *id == quit {
        MenuChoice::Quit
    } else if *id == hide {
        MenuChoice::Hide
    } else {
        MenuChoice::Unknown
    }
}

/// Takes one step of the table.
pub fn step<P>(stage: Stage<P>, input: Input<P>) -> (r: (Stage<P>, Action<P>))
    ensures
        r == next(stage, input),
{
    match input {
        Input::Tray(TrayEvent::LeftClick(p)) => (Stage::FindingToToggle(p), Action::LookUpMainWindow),
        Input::Tray(TrayEvent::MenuItemClick(id)) => match menu_choice(&id) {
            MenuChoice::Quit => (Stage::Idle, Action::Exit(QUIT_EXIT_CODE)),
            MenuChoice::Hide => (Stage::FindingToHide, Action::LookUpMainWindow),
            MenuChoice::Unknown => (Stage::Idle, Action::Wait),
        },
        Input::Tray(TrayEvent::Other) => (Stage::Idle, Action::Wait),
        Input::HideRequested => (Stage::Hiding, Action::Hide),
        Input::WindowFound => match stage {
            Stage::FindingToToggle(p) => (Stage::Querying(p), Action::QueryVisibility),
            Stage::FindingToHide => (Stage::Hiding, Action::Hide),
            _ => (Stage::Idle, Action::Abort(Fault::OutOfTurn)),
        },
        Input::WindowMissing => match stage {
            Stage::FindingToToggle(_) | Stage::FindingToHide => (Stage::Idle, Action::Abort(Fault::WindowMissing)),
            _ => (Stage::Idle, Action::Abort(Fault::OutOfTurn)),
        },
        Input::VisibilityIs(visible) => match stage {
            Stage::Querying(p) => if visible {
                (Stage::Hiding, Action::Hide)
            } else {
                (Stage::Showing(p), Action::Show)
            },
            _ => (Stage::Idle, Action::Abort(Fault::OutOfTurn)),
        },
        Input::VisibilityUnknown => match stage {
            Stage::Querying(_) => (Stage::Idle, Action::LogVisibilityError),
            _ => (Stage::Idle, Action::Abort(Fault::OutOfTurn)),
        },
        Input::Done => match stage {
            Stage::Hiding | Stage::Moving => (Stage::Idle, Action::Wait),
            Stage::Showing(p) => (Stage::Focusing(p), Action::Focus),
            Stage::Focusing(p) => (Stage::Moving, Action::SetPosition(p)),
            _ => (Stage::Idle, Action::Abort(Fault::OutOfTurn)),
        },
        Input::Failed => match stage {
            Stage::Hiding => (Stage::Idle, Action::Abort(Fault::HideFailed)),
            Stage::Showing(_) => (Stage::Idle, Action::Abort(Fault::ShowFailed)),
            Stage::Focusing(_) => (Stage::Idle, Action::Abort(Fault::FocusFailed)),
            Stage::Moving => (Stage::Idle, Action::Abort(Fault::MoveFailed)),
            _ => (Stage::Idle, Action::Abort(Fault::OutOfTurn)),
        },
    }
}

/// The tray controller: holds the stage of the event in hand.
pub struct Controller<P> {
    stage: Stage<P>,
}

impl<P> Controller<P> {
    /// The stage of the event in hand.
    pub closed spec fn stage_spec(&self) -> Stage<P> {
        self.stage
    }

    /// A controller with no event in hand.
    pub fn new() -> (r: Self)
        ensures
            r.stage_spec() is Idle,
    {
        Controller { stage: Stage::Idle }
    }

    /// True between events: no answer is awaited.
    pub fn is_idle(&self) -> (r: bool)
        ensures
            r == (self.stage_spec() is Idle),
    {
        match self.stage {
            Stage::Idle => true,
            _ => false,
        }
    }

    /// Feeds one input to the controller and returns the action to take.
    pub fn handle(&mut self, input: Input<P>) -> (r: Action<P>)
        ensures
            (final(self).stage_spec(), r) == next(old(self).stage_spec(), input),
    {
        let mut stage = Stage::Idle;
        core::mem::swap(&mut stage, &mut self.stage);
        let (next_stage, action) = step(stage, input);
        self.stage = next_stage;
        action
    }

    /// The window's own content asks to hide it: the same as `Input::HideRequested`.
    pub fn hide_window(&mut self) -> (r: Action<P>)
        ensures
            final(self).stage_spec() is Hiding,
            r is Hide,
    {
        self.handle(Input::HideRequested)
    }
}

} // verus!
