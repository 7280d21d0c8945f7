//! A model of the host: how the window and the process respond to the
//! controller's actions. It gives meaning to a whole event, from the first
//! input to the last action, so that laws over events can be stated.
use vstd::prelude::*;

use crate::controller::{next, Action, Fault, Input, Stage};

verus! {

/// The main window as the host holds it.
pub struct WindowState<P> {
    pub visible: bool,
    pub focused: bool,
    pub position: P,
}

pub enum ProcessState {
    Running,
    Exited(i32),
    Aborted(Fault),
}

pub struct HostState<P> {
    /// The window registered as "main", if any.
    pub window: Option<WindowState<P>>,
    pub process: ProcessState,
    /// How many diagnostics were written.
    pub logged: nat,
}

/// How the host carries out an action: its new state and the answer handed
/// back to the controller (none when the event is finished).
pub open spec fn respond<P>(h: HostState<P>, a: Action<P>) -> (HostState<P>, Option<Input<P>>) {
    match a {
        Action::Wait => (h, None),
        Action::LookUpMainWindow => (h, Some(if h.window is Some { Input::WindowFound } else { Input::WindowMissing })),
        Action::QueryVisibility => match h.window {
            Some(w) => (h, Some(Input::VisibilityIs(w.visible))),
            None => (h, Some(Input::VisibilityUnknown)),
        },
        Action::Hide => match h.window {
            Some(w) => (HostState { window: Some(WindowState { visible: false, ..w }), ..h }, Some(Input::Done)),
            None => (h, Some(Input::Failed)),
        },
        Action::Show => match h.window {
            Some(w) => (HostState { window: Some(WindowState { visible: true, ..w }), ..h }, Some(Input::Done)),
            None => (h, Some(Input::Failed)),
        },
        Action::Focus => match h.window {
            Some(w) => (HostState { window: Some(WindowState { focused: true, ..w }), ..h }, Some(Input::Done)),
            None => (h, Some(Input::Failed)),
        },
        Action::SetPosition(p) => match h.window {
            Some(w) => (HostState { window: Some(WindowState { position: p, ..w }), ..h }, Some(Input::Done)),
            None => (h, Some(Input::Failed)),
        },
        Action::LogVisibilityError => (HostState { logged: h.logged + 1, ..h }, None),
        Action::Exit(code) => (HostState { process: ProcessState::Exited(code), ..h }, None),
        Action::Abort(f) => (HostState { process: ProcessState::Aborted(f), ..h }, None),
    }
}

/// Runs the controller against the host from an input until the event is
/// finished, or `fuel` further answers have been given: the final stage, the
/// final host state and the actions taken, in order.
pub open spec fn settle<P>(stage: Stage<P>, h: HostState<P>, input: Input<P>, fuel: nat) -> (Stage<P>, HostState<P>, Seq<Action<P>>)
    decreases fuel,
{
    let (s1, a) = next(stage, input);
    let (h1, answer) = respond(h, a);
    match answer {
        Some(i) if fuel > 0 => {
            let (s2, h2, t) = settle(s1, h1, i, (fuel - 1) as nat);
            (s2, h2, seq![a] + t)
        },
        _ => (s1, h1, seq![a]),
    }
}

/// More answers than any event needs.
pub open spec fn event_fuel() -> nat {
    8
}

/// One input handled to its end by an idle controller: the host state after
/// it and the actions taken.
pub open spec fn deliver<P>(h: HostState<P>, input: Input<P>) -> (HostState<P>, Seq<Action<P>>) {
    let (_, h1, t) = settle(Stage::Idle, h, input, event_fuel());
    (h1, t)
}

} // verus!
