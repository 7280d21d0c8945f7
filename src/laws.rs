//! What holds of whole events, proved against the host model.
use vstd::prelude::*;

use crate::controller::{next, Action, Fault, Input, Stage, TrayEvent, QUIT_EXIT_CODE};
use crate::host::{deliver, settle, HostState, ProcessState, WindowState};
use crate::menu::{hide_id_spec, quit_id_spec};

verus! {

pub open spec fn left_click<P>(p: P) -> Input<P> {
    Input::Tray(TrayEvent::LeftClick(p))
}

/// The host state after a left click at each position of `ps`, in order.
pub open spec fn clicks<P>(h: HostState<P>, ps: Seq<P>) -> HostState<P>
    decreases ps.len(),
{
    if ps.len() == 0 {
        h
    } else {
        deliver(clicks(h, ps.drop_last()), left_click(ps.last())).0
    }
}

/// A left click on a hidden window shows it, focuses it and moves it to the
/// click's position, in that order.
pub proof fn lemma_click_shows_hidden_window<P>(h: HostState<P>, p: P)
    requires
        h.window matches Some(w) && !w.visible,
    ensures
        deliver(h, left_click(p)).0 == (HostState {
            window: Some(WindowState { visible: true, focused: true, position: p }),
            ..h
        }),
        deliver(h, left_click(p)).1 == seq![
            Action::<P>::LookUpMainWindow,
            Action::QueryVisibility,
            Action::Show,
            Action::Focus,
            Action::SetPosition(p),
            Action::Wait,
        ],
{
    reveal_with_fuel(settle, 7);
    assert(deliver(h, left_click(p)).1 =~= seq![
        Action::<P>::LookUpMainWindow,
        Action::QueryVisibility,
        Action::Show,
        Action::Focus,
        Action::SetPosition(p),
        Action::Wait,
    ]);
}

/// A left click on a visible window hides it and changes nothing else.
pub proof fn lemma_click_hides_visible_window<P>(h: HostState<P>, p: P)
    requires
        h.window matches Some(w) && w.visible,
    ensures
        deliver(h, left_click(p)).0 == (HostState {
            window: Some(WindowState { visible: false, ..h.window->0 }),
            ..h
        }),
        deliver(h, left_click(p)).1 == seq![
            Action::<P>::LookUpMainWindow,
            Action::QueryVisibility,
            Action::Hide,
            Action::Wait,
        ],
{
    reveal_with_fuel(settle, 5);
    assert(deliver(h, left_click(p)).1 =~= seq![
        Action::<P>::LookUpMainWindow,
        Action::QueryVisibility,
        Action::Hide,
        Action::Wait,
    ]);
}

/// From a hidden window, left clicks alternate between showing and hiding it.
/// After an odd number of clicks it is visible and focused, at the position
/// of the last click; after an even number it is hidden, at the position of
/// the click before the last (hiding does not move it). The process keeps
/// running and nothing is logged.
pub proof fn lemma_clicks_alternate<P>(h: HostState<P>, ps: Seq<P>)
    requires
        h.window matches Some(w) && !w.visible,
    ensures
        clicks(h, ps).window is Some,
        clicks(h, ps).process == h.process,
        clicks(h, ps).logged == h.logged,
        clicks(h, ps).window->0.visible == (ps.len() % 2 == 1),
        ps.len() % 2 == 1 ==> clicks(h, ps).window->0.focused,
        ps.len() % 2 == 1 ==> clicks(h, ps).window->0.position == ps.last(),
        ps.len() % 2 == 0 && ps.len() > 0 ==> clicks(h, ps).window->0.position == ps[ps.len() - 2],
        ps.len() == 0 ==> clicks(h, ps) == h,
    decreases ps.len(),
{
    if ps.len() > 0 {
        let before = ps.drop_last();
        lemma_clicks_alternate(h, before);
        let hb = clicks(h, before);
        if before.len() % 2 == 0 {
            lemma_click_shows_hidden_window(hb, ps.last());
        } else {
            lemma_click_hides_visible_window(hb, ps.last());
            assert(before.last() == ps[ps.len() - 2]);
        }
    }
}

/// Choosing "quit" ends the process with code 0, from any stage of the
/// controller and whatever the window's state; the window is not touched.
pub proof fn lemma_quit_exits<P>(h: HostState<P>, stage: Stage<P>, id: String)
    requires
        id@ == quit_id_spec(),
    ensures
        next(stage, Input::Tray(TrayEvent::MenuItemClick(id))) == (Stage::<P>::Idle, Action::<P>::Exit(0)),
        deliver(h, Input::Tray(TrayEvent::MenuItemClick(id))).0 == (HostState {
            process: ProcessState::Exited(0),
            ..h
        }),
        deliver(h, Input::<P>::Tray(TrayEvent::MenuItemClick(id))).1 == seq![Action::<P>::Exit(0)],
{
    reveal_with_fuel(settle, 2);
    assert(QUIT_EXIT_CODE == 0);
    assert(deliver(h, Input::<P>::Tray(TrayEvent::MenuItemClick(id))).1 =~= seq![Action::<P>::Exit(0)]);
}

/// Choosing "hide" hides the main window and changes nothing else; on a
/// window that is already hidden it still issues the hide, which succeeds,
/// and leaves the host as it was.
pub proof fn lemma_hide_item_hides<P>(h: HostState<P>, id: String)
    requires
        id@ == hide_id_spec(),
        h.window is Some,
    ensures
        deliver(h, Input::Tray(TrayEvent::MenuItemClick(id))).0 == (HostState {
            window: Some(WindowState { visible: false, ..h.window->0 }),
            ..h
        }),
        deliver(h, Input::<P>::Tray(TrayEvent::MenuItemClick(id))).1 == seq![
            Action::<P>::LookUpMainWindow,
            Action::Hide,
            Action::Wait,
        ],
        !h.window->0.visible ==> deliver(h, Input::Tray(TrayEvent::MenuItemClick(id))).0 == h,
{
    reveal_with_fuel(settle, 4);
    assert(quit_id_spec() != hide_id_spec()) by {
        assert(quit_id_spec()[0] != hide_id_spec()[0]);
    }
    assert(deliver(h, Input::<P>::Tray(TrayEvent::MenuItemClick(id))).1 =~= seq![
        Action::<P>::LookUpMainWindow,
        Action::Hide,
        Action::Wait,
    ]);
}

/// Choosing "hide" when no window is registered as "main" aborts the process.
pub proof fn lemma_hide_item_without_window_aborts<P>(h: HostState<P>, id: String)
    requires
        id@ == hide_id_spec(),
        h.window is None,
    ensures
        deliver(h, Input::Tray(TrayEvent::MenuItemClick(id))).0 == (HostState {
            process: ProcessState::Aborted(Fault::WindowMissing),
            ..h
        }),
        deliver(h, Input::<P>::Tray(TrayEvent::MenuItemClick(id))).1 == seq![
            Action::<P>::LookUpMainWindow,
            Action::Abort(Fault::WindowMissing),
        ],
{
    reveal_with_fuel(settle, 3);
    assert(quit_id_spec() != hide_id_spec()) by {
        assert(quit_id_spec()[0] != hide_id_spec()[0]);
    }
    assert(deliver(h, Input::<P>::Tray(TrayEvent::MenuItemClick(id))).1 =~= seq![
        Action::<P>::LookUpMainWindow,
        Action::Abort(Fault::WindowMissing),
    ]);
}

/// A menu item other than "quit" and "hide" changes nothing: the host stays
/// as it was and the controller is idle.
pub proof fn lemma_unknown_item_ignored<P>(h: HostState<P>, stage: Stage<P>, id: String)
    requires
        id@ != quit_id_spec(),
        id@ != hide_id_spec(),
    ensures
        next(stage, Input::Tray(TrayEvent::MenuItemClick(id))) == (Stage::<P>::Idle, Action::<P>::Wait),
        deliver(h, Input::Tray(TrayEvent::MenuItemClick(id))).0 == h,
        deliver(h, Input::<P>::Tray(TrayEvent::MenuItemClick(id))).1 == seq![Action::<P>::Wait],
{
    reveal_with_fuel(settle, 2);
    assert(deliver(h, Input::<P>::Tray(TrayEvent::MenuItemClick(id))).1 =~= seq![Action::<P>::Wait]);
}

} // verus!
