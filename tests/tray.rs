use tray_window::{
    hide_id, main_window_label, menu_choice, quit_id, step, tray_menu, Action, Controller, Fault,
    Input, MenuChoice, MenuEntry, Stage, TrayEvent, QUIT_EXIT_CODE,
};

type Pos = (i32, i32);

#[derive(Debug, Clone, PartialEq)]
struct FakeWindow {
    visible: bool,
    focused: bool,
    position: Pos,
}

/// A host that carries out the controller's actions on one window.
struct FakeHost {
    window: Option<FakeWindow>,
    exit_code: Option<i32>,
    aborted: Option<Fault>,
    logged: u32,
    hide_calls: u32,
    query_fails: bool,
    failing_action: Option<&'static str>,
}

impl FakeHost {
    fn with_window(visible: bool, position: Pos) -> FakeHost {
        FakeHost {
            window: Some(FakeWindow { visible, focused: false, position }),
            exit_code: None,
            aborted: None,
            logged: 0,
            hide_calls: 0,
            query_fails: false,
            failing_action: None,
        }
    }

    fn without_window() -> FakeHost {
        FakeHost { window: None, ..FakeHost::with_window(false, (0, 0)) }
    }

    fn command(&mut self, name: &'static str, change: impl FnOnce(&mut FakeWindow)) -> Input<Pos> {
        if self.failing_action == Some(name) {
            return Input::Failed;
        }
        match self.window.as_mut() {
            Some(w) => {
                change(w);
                Input::Done
            }
            None => Input::Failed,
        }
    }

    /// Carries out one action; `None` when the event is finished.
    fn perform(&mut self, action: &Action<Pos>) -> Option<Input<Pos>> {
        match action {
            Action::Wait => None,
            Action::LookUpMainWindow => Some(if self.window.is_some() {
                Input::WindowFound
            } else {
                Input::WindowMissing
            }),
            Action::QueryVisibility => Some(match (&self.window, self.query_fails) {
                (Some(w), false) => Input::VisibilityIs(w.visible),
                _ => Input::VisibilityUnknown,
            }),
            Action::Hide => {
                self.hide_calls += 1;
                Some(self.command("hide", |w| w.visible = false))
            }
            Action::Show => Some(self.command("show", |w| w.visible = true)),
            Action::Focus => Some(self.command("focus", |w| w.focused = true)),
            Action::SetPosition(p) => {
                let p = *p;
                Some(self.command("move", move |w| w.position = p))
            }
            Action::LogVisibilityError => {
                self.logged += 1;
                None
            }
            Action::Exit(code) => {
                self.exit_code = Some(*code);
                None
            }
            Action::Abort(f) => {
                self.aborted = Some(*f);
                None
            }
        }
    }
}

/// Hands one input to the controller and runs the event to its end.
fn run(host: &mut FakeHost, ctl: &mut Controller<Pos>, input: Input<Pos>) -> Vec<Action<Pos>> {
    let mut trace = Vec::new();
    let mut next = Some(input);
    while let Some(i) = next {
        let action = ctl.handle(i);
        next = host.perform(&action);
        trace.push(action);
    }
    trace
}

fn click(p: Pos) -> Input<Pos> {
    Input::Tray(TrayEvent::LeftClick(p))
}

fn menu(id: &str) -> Input<Pos> {
    Input::Tray(TrayEvent::MenuItemClick(id.to_string()))
}

#[test]
fn scenario_click_show_click_hide_then_quit() {
    let mut host = FakeHost::with_window(false, (0, 0));
    let mut ctl = Controller::new();

    run(&mut host, &mut ctl, click((100, 200)));
    assert_eq!(
        host.window,
        Some(FakeWindow { visible: true, focused: true, position: (100, 200) })
    );

    run(&mut host, &mut ctl, click((5, 7)));
    let w = host.window.clone().unwrap();
    assert!(!w.visible);
    assert_eq!(w.position, (100, 200));

    let trace = run(&mut host, &mut ctl, menu("quit"));
    assert_eq!(trace, vec![Action::Exit(0)]);
    assert_eq!(host.exit_code, Some(0));
    assert!(ctl.is_idle());
}

#[test]
fn left_clicks_alternate_from_hidden() {
    let mut host = FakeHost::with_window(false, (1, 1));
    let mut ctl = Controller::new();
    let points = [(10, 20), (30, 40), (50, 60), (70, 80), (90, 100)];
    for (n, p) in points.iter().enumerate() {
        run(&mut host, &mut ctl, click(*p));
        let w = host.window.clone().unwrap();
        if n % 2 == 0 {
            assert!(w.visible);
            assert!(w.focused);
            assert_eq!(w.position, *p);
        } else {
            assert!(!w.visible);
            assert_eq!(w.position, points[n - 1]);
        }
    }
    assert_eq!(host.exit_code, None);
    assert_eq!(host.aborted, None);
}

#[test]
fn click_on_hidden_window_shows_focuses_then_moves() {
    let mut host = FakeHost::with_window(false, (0, 0));
    let mut ctl = Controller::new();
    let trace = run(&mut host, &mut ctl, click((3, 4)));
    assert_eq!(
        trace,
        vec![
            Action::LookUpMainWindow,
            Action::QueryVisibility,
            Action::Show,
            Action::Focus,
            Action::SetPosition((3, 4)),
            Action::Wait,
        ]
    );
}

#[test]
fn click_on_visible_window_only_hides() {
    let mut host = FakeHost::with_window(true, (9, 9));
    let mut ctl = Controller::new();
    let trace = run(&mut host, &mut ctl, click((3, 4)));
    assert_eq!(
        trace,
        vec![Action::LookUpMainWindow, Action::QueryVisibility, Action::Hide, Action::Wait]
    );
    assert_eq!(
        host.window,
        Some(FakeWindow { visible: false, focused: false, position: (9, 9) })
    );
}

#[test]
fn quit_exits_with_zero_whatever_the_window() {
    for host in [
        FakeHost::with_window(true, (1, 2)),
        FakeHost::with_window(false, (1, 2)),
        FakeHost::without_window(),
    ] {
        let mut host = host;
        let before = host.window.clone();
        let mut ctl = Controller::new();
        let trace = run(&mut host, &mut ctl, menu("quit"));
        assert_eq!(trace, vec![Action::Exit(QUIT_EXIT_CODE)]);
        assert_eq!(host.exit_code, Some(0));
        assert_eq!(host.window, before);
    }
}

#[test]
fn quit_from_a_stage_in_progress() {
    let (stage, action) = step(Stage::Querying((1, 1)), menu("quit"));
    assert_eq!(stage, Stage::Idle);
    assert_eq!(action, Action::Exit(0));
}

#[test]
fn hide_item_on_hidden_window_still_hides_without_abort() {
    let mut host = FakeHost::with_window(false, (4, 4));
    let before = host.window.clone();
    let mut ctl = Controller::new();
    let trace = run(&mut host, &mut ctl, menu("hide"));
    assert_eq!(trace, vec![Action::LookUpMainWindow, Action::Hide, Action::Wait]);
    assert_eq!(host.hide_calls, 1);
    assert_eq!(host.aborted, None);
    assert_eq!(host.window, before);
}

#[test]
fn hide_item_on_visible_window_hides_it() {
    let mut host = FakeHost::with_window(true, (4, 4));
    let mut ctl = Controller::new();
    run(&mut host, &mut ctl, menu("hide"));
    assert_eq!(
        host.window,
        Some(FakeWindow { visible: false, focused: false, position: (4, 4) })
    );
}

#[test]
fn hide_item_without_window_aborts() {
    let mut host = FakeHost::without_window();
    let mut ctl = Controller::new();
    let trace = run(&mut host, &mut ctl, menu("hide"));
    assert_eq!(
        trace,
        vec![Action::LookUpMainWindow, Action::Abort(Fault::WindowMissing)]
    );
    assert_eq!(host.aborted, Some(Fault::WindowMissing));
}

#[test]
fn click_without_window_aborts() {
    let mut host = FakeHost::without_window();
    let mut ctl = Controller::new();
    run(&mut host, &mut ctl, click((1, 1)));
    assert_eq!(host.aborted, Some(Fault::WindowMissing));
}

#[test]
fn unknown_item_changes_nothing() {
    for id in ["", "Quit", "hide ", "about", "quitx"] {
        let mut host = FakeHost::with_window(true, (2, 3));
        let before = host.window.clone();
        let mut ctl = Controller::new();
        let trace = run(&mut host, &mut ctl, menu(id));
        assert_eq!(trace, vec![Action::Wait]);
        assert_eq!(host.window, before);
        assert_eq!(host.exit_code, None);
        assert_eq!(host.aborted, None);
        assert!(ctl.is_idle());
    }
}

#[test]
fn other_tray_event_is_ignored() {
    let mut host = FakeHost::with_window(false, (2, 3));
    let mut ctl = Controller::new();
    let trace = run(&mut host, &mut ctl, Input::Tray(TrayEvent::Other));
    assert_eq!(trace, vec![Action::Wait]);
    assert_eq!(host.window.unwrap().visible, false);
}

#[test]
fn failed_visibility_query_is_logged_and_dropped() {
    let mut host = FakeHost::with_window(false, (2, 3));
    host.query_fails = true;
    let before = host.window.clone();
    let mut ctl = Controller::new();
    let trace = run(&mut host, &mut ctl, click((8, 8)));
    assert_eq!(
        trace,
        vec![Action::LookUpMainWindow, Action::QueryVisibility, Action::LogVisibilityError]
    );
    assert_eq!(host.logged, 1);
    assert_eq!(host.aborted, None);
    assert_eq!(host.window, before);
}

#[test]
fn failed_window_commands_abort() {
    let cases = [
        (false, "show", Fault::ShowFailed),
        (false, "focus", Fault::FocusFailed),
        (false, "move", Fault::MoveFailed),
        (true, "hide", Fault::HideFailed),
    ];
    for (visible, name, fault) in cases {
        let mut host = FakeHost::with_window(visible, (0, 0));
        host.failing_action = Some(name);
        let mut ctl = Controller::new();
        let trace = run(&mut host, &mut ctl, click((1, 1)));
        assert_eq!(trace.last(), Some(&Action::Abort(fault)));
        assert_eq!(host.aborted, Some(fault));
        assert!(ctl.is_idle());
    }
}

#[test]
fn answer_out_of_turn_aborts() {
    let mut ctl: Controller<Pos> = Controller::new();
    assert_eq!(ctl.handle(Input::Done), Action::Abort(Fault::OutOfTurn));
    let (stage, action) = step(Stage::Hiding, Input::<Pos>::WindowFound);
    assert_eq!(stage, Stage::Idle);
    assert_eq!(action, Action::Abort(Fault::OutOfTurn));
}

#[test]
fn hide_window_command_hides_the_calling_window() {
    let mut host = FakeHost::with_window(true, (6, 6));
    let mut ctl = Controller::new();
    let first = ctl.hide_window();
    assert_eq!(first, Action::Hide);
    let answer = host.perform(&first).unwrap();
    assert_eq!(ctl.handle(answer), Action::Wait);
    assert_eq!(host.window.unwrap().visible, false);

    let mut failing = FakeHost::with_window(true, (6, 6));
    failing.failing_action = Some("hide");
    let mut ctl = Controller::new();
    let first = ctl.hide_window();
    let answer = failing.perform(&first).unwrap();
    assert_eq!(ctl.handle(answer), Action::Abort(Fault::HideFailed));
}

#[test]
fn tray_menu_is_quit_separator_hide() {
    let items = tray_menu();
    assert_eq!(
        items,
        vec![
            MenuEntry::Item { id: "quit".to_string(), label: "關閉程式".to_string() },
            MenuEntry::Separator,
            MenuEntry::Item { id: "hide".to_string(), label: "隱藏視窗".to_string() },
        ]
    );
}

#[test]
fn identifiers_and_window_label() {
    assert_eq!(quit_id(), "quit");
    assert_eq!(hide_id(), "hide");
    assert_eq!(main_window_label(), "main");
    assert_eq!(menu_choice(&"quit".to_string()), MenuChoice::Quit);
    assert_eq!(menu_choice(&"hide".to_string()), MenuChoice::Hide);
    assert_eq!(menu_choice(&"hid".to_string()), MenuChoice::Unknown);
}
