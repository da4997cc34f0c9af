use gmon::tui::KeyOutcome;
use gmon::tui::plan_input;
use gmon::settings::LogLevel;
use gmon::tui::{
    clamp_selection, global_key, quit_on_escape, GlobalKey, InterfaceError, Key, LogBufferData,
    ServerSettingsOpts, ServerViewFocus, ServerViewOpts, TuiAction, TuiInterface,
    TuiInterfaceDashboard, TuiInterfaceLogs, TuiInterfaceOpts, TuiInterfaceServerSettings,
    TuiInterfaceServerView, TuiInterfaceType, TuiState,
};

fn view_opts(id: &str) -> Option<TuiInterfaceOpts> {
    Some(TuiInterfaceOpts::ServerView(ServerViewOpts::new(id.to_string())))
}

fn settings_opts(id: &str) -> Option<TuiInterfaceOpts> {
    Some(TuiInterfaceOpts::ServerSettings(ServerSettingsOpts {
        server_id: id.to_string(),
    }))
}

#[test]
fn opens_plain_interfaces_without_options() {
    for t in [
        TuiInterfaceType::Dashboard,
        TuiInterfaceType::Logs,
        TuiInterfaceType::Settings,
        TuiInterfaceType::About,
        TuiInterfaceType::ServerNew,
    ] {
        let iface = TuiInterface::new_interface(t, None).unwrap();
        assert_eq!(iface.get_type(), t);
        let iface = TuiInterface::new_interface(t, view_opts("x")).unwrap();
        assert_eq!(iface.get_type(), t);
    }
}

#[test]
fn server_interfaces_need_their_options() {
    let err = TuiInterface::new_interface(TuiInterfaceType::ServerView, None).unwrap_err();
    assert_eq!(err, InterfaceError::ServerViewNoOpts);
    assert_eq!(
        err.message(),
        "Expected ServerViewOpts for ServerView interface, got None"
    );

    let err = TuiInterface::new_interface(TuiInterfaceType::ServerView, settings_opts("a"))
        .unwrap_err();
    assert_eq!(err, InterfaceError::ServerViewWrongOpts);
    assert_eq!(
        err.message(),
        "Expected ServerViewOpts for ServerView interface, got different options"
    );

    let err = TuiInterface::new_interface(TuiInterfaceType::ServerSettings, None).unwrap_err();
    assert_eq!(err, InterfaceError::ServerSettingsNoOpts);
    assert_eq!(
        err.message(),
        "Expected ServerSettingsOpts for ServerSettings interface, got None"
    );

    let err = TuiInterface::new_interface(TuiInterfaceType::ServerSettings, view_opts("a"))
        .unwrap_err();
    assert_eq!(err, InterfaceError::ServerSettingsWrongOpts);
    assert_eq!(
        err.message(),
        "Expected ServerSettingsOpts for ServerSettings interface, got different options"
    );

    match TuiInterface::new_interface(TuiInterfaceType::ServerView, view_opts("srv-1")).unwrap() {
        TuiInterface::ServerView(c) => {
            assert_eq!(c.interface.server_id, "srv-1");
            assert_eq!(c.interface.focus, ServerViewFocus::Users);
            assert_eq!(c.interface.users_selected, 0);
        }
        other => panic!("unexpected interface {:?}", other),
    }
    match TuiInterface::new_interface(TuiInterfaceType::ServerSettings, settings_opts("srv-2"))
        .unwrap()
    {
        TuiInterface::ServerSettings(c) => assert_eq!(c.interface.server_id, "srv-2"),
        other => panic!("unexpected interface {:?}", other),
    }
}

#[test]
fn titles_parents_and_bindings() {
    let dash = TuiInterface::new_interface(TuiInterfaceType::Dashboard, None).unwrap();
    assert_eq!(dash.title(), "Dashboard");
    assert!(dash.is_top_level());
    assert_eq!(dash.parent(), None);
    assert_eq!(
        dash.get_key_bindings(),
        vec![("Esc".to_string(), "Quit".to_string())]
    );

    let new = TuiInterface::new_interface(TuiInterfaceType::ServerNew, None).unwrap();
    assert_eq!(new.title(), "Add Server");
    assert!(!new.is_top_level());
    assert_eq!(new.parent(), Some(TuiInterfaceType::Dashboard));
    assert_eq!(new.get_key_bindings().len(), 4);
    assert_eq!(new.get_key_bindings()[3], ("Enter".to_string(), "Add".to_string()));

    let settings =
        TuiInterface::new_interface(TuiInterfaceType::ServerSettings, settings_opts("a")).unwrap();
    assert_eq!(settings.title(), "Server Settings");
    assert_eq!(settings.parent(), Some(TuiInterfaceType::ServerView));

    let view = TuiInterface::new_interface(TuiInterfaceType::ServerView, view_opts("a")).unwrap();
    assert_eq!(view.title(), "Server View");
    assert_eq!(view.get_key_bindings().len(), 5);

    let logs = TuiInterface::new_interface(TuiInterfaceType::Logs, None).unwrap();
    assert_eq!(logs.get_key_bindings()[2], ("End".to_string(), "Jump to latest".to_string()));
}

#[test]
fn a_refused_change_keeps_the_interface() {
    let mut state = TuiState::default();
    assert_eq!(state.interface.get_type(), TuiInterfaceType::Dashboard);

    assert_eq!(
        state.change_interface(TuiInterfaceType::ServerView, None),
        Err(InterfaceError::ServerViewNoOpts)
    );
    assert_eq!(state.interface.get_type(), TuiInterfaceType::Dashboard);

    assert_eq!(state.change_interface(TuiInterfaceType::Logs, None), Ok(()));
    assert_eq!(state.interface.get_type(), TuiInterfaceType::Logs);
}

#[test]
fn global_keys() {
    let t = TuiInterfaceType::Logs;
    assert_eq!(global_key(t, Key::Char('c'), true), GlobalKey::Exit);
    assert_eq!(global_key(t, Key::Char('c'), false), GlobalKey::Ignore);
    assert_eq!(global_key(t, Key::F(1), false), GlobalKey::Switch(TuiInterfaceType::Dashboard));
    assert_eq!(global_key(t, Key::F(2), false), GlobalKey::Switch(TuiInterfaceType::Settings));
    assert_eq!(global_key(t, Key::F(3), false), GlobalKey::Ignore);
    assert_eq!(global_key(t, Key::F(4), false), GlobalKey::Switch(TuiInterfaceType::About));
    assert_eq!(global_key(t, Key::F(5), false), GlobalKey::Ignore);
}

#[test]
fn dashboard_moves_and_opens_the_selection() {
    let ids = vec!["a".to_string(), "b".to_string()];
    let mut dash = TuiInterfaceDashboard::default();
    assert_eq!(dash.selected, 0);

    assert!(matches!(dash.handle_key(Key::Up, &ids), TuiAction::Stay));
    assert_eq!(dash.selected, 0);
    dash.handle_key(Key::Char('j'), &ids);
    dash.handle_key(Key::Down, &ids);
    dash.handle_key(Key::Down, &ids);
    assert_eq!(dash.selected, 3);

    match dash.handle_key(Key::Enter, &ids) {
        TuiAction::ChangeInterface(t, Some(TuiInterfaceOpts::ServerView(o))) => {
            assert_eq!(t, TuiInterfaceType::ServerView);
            assert_eq!(o.server_id, "b");
        }
        other => panic!("unexpected action {:?}", other),
    }
    dash.handle_key(Key::Char('k'), &ids);
    assert_eq!(dash.selected, 2);

    assert!(matches!(dash.handle_key(Key::Enter, &Vec::new()), TuiAction::Stay));
    assert!(matches!(dash.handle_key(Key::Esc, &ids), TuiAction::Exit));
    assert!(matches!(dash.handle_key(Key::Char('q'), &ids), TuiAction::Exit));

    assert_eq!(clamp_selection(5, 2), 1);
    assert_eq!(clamp_selection(0, 0), 0);
    assert_eq!(clamp_selection(1, 4), 1);
}

#[test]
fn logs_scroll_within_the_content() {
    let mut logs = TuiInterfaceLogs::default();
    let (offset, top) = logs.layout(10, 4);
    assert_eq!((offset, top), (0, 6));

    assert!(!logs.handle_key(Key::Up));
    assert!(!logs.handle_key(Key::Char('k')));
    assert_eq!(logs.scroll_offset, 2);
    assert_eq!(logs.layout(10, 4), (2, 4));

    for _ in 0..10 {
        logs.handle_key(Key::Up);
    }
    assert_eq!(logs.scroll_offset, 6);
    assert_eq!(logs.layout(10, 4), (6, 0));

    logs.handle_key(Key::Down);
    assert_eq!(logs.scroll_offset, 5);
    logs.handle_key(Key::End);
    assert_eq!(logs.scroll_offset, 0);
    logs.handle_key(Key::Char('j'));
    assert_eq!(logs.scroll_offset, 0);

    assert!(logs.handle_key(Key::Esc));
    assert!(logs.handle_key(Key::Char('q')));

    // The content shrank below the view: nothing to scroll.
    logs.scroll_offset = 3;
    assert_eq!(logs.layout(2, 4), (0, 0));
}

fn line(message: &str) -> LogBufferData {
    LogBufferData {
        level: LogLevel::Info,
        message: message.to_string(),
        timestamp_ms: 0,
    }
}

#[test]
fn logs_freeze_while_scrolled() {
    let mut logs = TuiInterfaceLogs::default();

    let first = logs.snapshot(Some(vec![line("one")])).unwrap();
    assert_eq!(first.buffer_snapshot.len(), 1);

    logs.scroll_offset = 1;
    let frozen = logs.snapshot(Some(vec![line("one"), line("two")])).unwrap();
    assert_eq!(frozen.buffer_snapshot.len(), 1);
    assert_eq!(frozen.buffer_snapshot[0].message, "one");

    logs.scroll_offset = 0;
    let fresh = logs.snapshot(Some(vec![line("one"), line("two")])).unwrap();
    assert_eq!(fresh.buffer_snapshot.len(), 2);
    assert!(logs.snapshot(None).is_none());
    assert_eq!(logs.previous_buffer.len(), 2);
}

#[test]
fn server_view_panels() {
    let mut view = TuiInterfaceServerView::new("srv".to_string());
    assert_eq!(view.focus, ServerViewFocus::Users);

    view.handle_key(Key::Down, 3);
    view.handle_key(Key::Down, 3);
    view.handle_key(Key::Down, 3);
    assert_eq!(view.users_selected, 2);
    view.handle_key(Key::Home, 3);
    assert_eq!(view.users_selected, 0);
    view.handle_key(Key::End, 3);
    assert_eq!(view.users_selected, 2);

    view.handle_key(Key::Tab, 3);
    assert_eq!(view.focus, ServerViewFocus::Vars);
    view.handle_key(Key::Char('j'), 5);
    assert_eq!(view.vars_selected, 1);
    assert_eq!(view.users_selected, 2);
    view.handle_key(Key::Up, 5);
    view.handle_key(Key::Up, 5);
    assert_eq!(view.vars_selected, 0);

    match view.handle_key(Key::Esc, 5) {
        TuiAction::ChangeInterface(t, None) => assert_eq!(t, TuiInterfaceType::Dashboard),
        other => panic!("unexpected action {:?}", other),
    }

    match view.handle_key(Key::Char('e'), 5) {
        TuiAction::ChangeInterface(t, Some(TuiInterfaceOpts::ServerSettings(o))) => {
            assert_eq!(t, TuiInterfaceType::ServerSettings);
            assert_eq!(o.server_id, "srv");
        }
        other => panic!("unexpected action {:?}", other),
    }
    assert_eq!(view.vars_selected, 0);

    let ids = vec!["x".to_string(), "srv".to_string(), "srv".to_string()];
    assert_eq!(view.get_server_by_id(&ids), Some(1));
    assert_eq!(view.get_server_by_id(&vec!["x".to_string()]), None);
}

#[test]
fn settings_and_about_keys() {
    assert!(matches!(quit_on_escape(Key::Esc), TuiAction::Exit));
    assert!(matches!(quit_on_escape(Key::Char('x')), TuiAction::Stay));

    let settings = TuiInterfaceServerSettings::new("srv".to_string());
    match settings.handle_key(Key::Char('q')) {
        TuiAction::ChangeInterface(t, Some(TuiInterfaceOpts::ServerView(o))) => {
            assert_eq!(t, TuiInterfaceType::ServerView);
            assert_eq!(o.server_id, "srv");
        }
        other => panic!("unexpected action {:?}", other),
    }
    assert!(matches!(settings.handle_key(Key::Enter), TuiAction::Stay));
}

fn steps_text(steps: &[gmon::tui::InputStep]) -> Vec<String> {
    steps
        .iter()
        .map(|s| match s {
            gmon::tui::InputStep::Exit => "exit".to_string(),
            gmon::tui::InputStep::ChangeInterface(t, o) => format!("{:?}/{}", t, o.is_some()),
        })
        .collect()
}

#[test]
fn input_plans_put_the_interface_first() {
    let t = TuiInterfaceType::Dashboard;
    assert_eq!(steps_text(&plan_input(t, TuiAction::Stay, Key::Char('x'), false)), Vec::<String>::new());
    assert_eq!(steps_text(&plan_input(t, TuiAction::Exit, Key::Char('c'), true)), vec!["exit"]);
    assert_eq!(steps_text(&plan_input(t, TuiAction::Stay, Key::Char('c'), true)), vec!["exit"]);
    assert_eq!(steps_text(&plan_input(t, TuiAction::Stay, Key::F(1), false)), Vec::<String>::new());
    assert_eq!(steps_text(&plan_input(t, TuiAction::Stay, Key::F(3), false)), vec!["Logs/false"]);
    assert_eq!(
        steps_text(&plan_input(
            t,
            TuiAction::ChangeInterface(TuiInterfaceType::ServerView, view_opts("a")),
            Key::F(4),
            false
        )),
        vec!["ServerView/true", "About/false"]
    );
    assert_eq!(
        steps_text(&plan_input(
            TuiInterfaceType::Logs,
            TuiAction::ChangeInterface(TuiInterfaceType::Dashboard, None),
            Key::Esc,
            false
        )),
        vec!["Dashboard/false"]
    );
}

#[test]
fn dashboard_n_opens_the_add_server_form() {
    let mut dash = TuiInterfaceDashboard::default();
    dash.selected = 2;
    match dash.handle_key(Key::Char('n'), &vec!["a".to_string()]) {
        TuiAction::ChangeInterface(t, None) => assert_eq!(t, TuiInterfaceType::ServerNew),
        other => panic!("unexpected action {:?}", other),
    }
    assert_eq!(dash.selected, 2);
}

#[test]
fn the_log_buffer_keeps_the_newest_messages() {
    use_buffer();
}

fn use_buffer() {
    let mut buffer = Vec::new();
    for m in ["a", "b", "c", "d"] {
        gmon::tui::push_log_entry(&mut buffer, line(m), 3);
    }
    let messages: Vec<&str> = buffer.iter().map(|l| l.message.as_str()).collect();
    assert_eq!(messages, vec!["b", "c", "d"]);

    gmon::tui::push_log_entry(&mut buffer, line("e"), 1);
    assert_eq!(buffer.len(), 1);
    assert_eq!(buffer[0].message, "e");

    gmon::tui::push_log_entry(&mut buffer, line("f"), 0);
    assert!(buffer.is_empty());
}

#[test]
fn keys_go_to_the_shown_interface() {
    use_dispatch();
}

fn use_dispatch() {
    let ids = vec!["a".to_string(), "b".to_string()];

    let mut dash = TuiInterface::new_interface(TuiInterfaceType::Dashboard, None).unwrap();
    assert!(matches!(dash.handle_key(Key::Down, &ids, 0, 0), KeyOutcome::Action(TuiAction::Stay)));
    match dash.handle_key(Key::Enter, &ids, 0, 0) {
        KeyOutcome::Action(TuiAction::ChangeInterface(t, Some(TuiInterfaceOpts::ServerView(o)))) => {
            assert_eq!(t, TuiInterfaceType::ServerView);
            assert_eq!(o.server_id, "b");
        }
        other => panic!("unexpected outcome {:?}", other),
    }

    let mut logs = TuiInterface::new_interface(TuiInterfaceType::Logs, None).unwrap();
    assert!(matches!(logs.handle_key(Key::Char('q'), &ids, 0, 0), KeyOutcome::Cancel));
    assert!(matches!(logs.handle_key(Key::Up, &ids, 0, 0), KeyOutcome::Action(TuiAction::Stay)));

    let mut about = TuiInterface::new_interface(TuiInterfaceType::About, None).unwrap();
    assert!(matches!(about.handle_key(Key::Esc, &ids, 0, 0), KeyOutcome::Action(TuiAction::Exit)));

    let mut view = TuiInterface::new_interface(TuiInterfaceType::ServerView, view_opts("a")).unwrap();
    view.handle_key(Key::End, &ids, 4, 9);
    view.handle_key(Key::Tab, &ids, 4, 9);
    view.handle_key(Key::End, &ids, 4, 9);
    match &view {
        TuiInterface::ServerView(c) => {
            assert_eq!(c.interface.users_selected, 3);
            assert_eq!(c.interface.vars_selected, 8);
        }
        other => panic!("unexpected interface {:?}", other),
    }

    let mut form = TuiInterface::new_interface(TuiInterfaceType::ServerNew, None).unwrap();
    assert!(matches!(form.handle_key(Key::Enter, &ids, 0, 0), KeyOutcome::Submit));
    form.handle_key(Key::Char('x'), &ids, 0, 0);
    match &form {
        TuiInterface::ServerNew(c) => assert_eq!(c.interface.address, "x"),
        other => panic!("unexpected interface {:?}", other),
    }
    match form.handle_key(Key::Esc, &ids, 0, 0) {
        KeyOutcome::Action(TuiAction::ChangeInterface(t, None)) => {
            assert_eq!(t, TuiInterfaceType::Dashboard)
        }
        other => panic!("unexpected outcome {:?}", other),
    }

    let mut settings =
        TuiInterface::new_interface(TuiInterfaceType::ServerSettings, settings_opts("s")).unwrap();
    assert!(matches!(
        settings.handle_key(Key::Char('q'), &ids, 0, 0),
        KeyOutcome::Action(TuiAction::ChangeInterface(TuiInterfaceType::ServerView, Some(_)))
    ));
}

#[test]
fn keys_other_than_down_work_at_the_largest_selection() {
    let mut dash = TuiInterfaceDashboard::default();
    dash.selected = usize::MAX;
    match dash.handle_key(Key::Char('n'), &vec!["a".to_string()]) {
        TuiAction::ChangeInterface(t, None) => assert_eq!(t, TuiInterfaceType::ServerNew),
        other => panic!("unexpected action {:?}", other),
    }
    match dash.handle_key(Key::Enter, &vec!["a".to_string()]) {
        TuiAction::ChangeInterface(_, Some(TuiInterfaceOpts::ServerView(o))) => {
            assert_eq!(o.server_id, "a")
        }
        other => panic!("unexpected action {:?}", other),
    }
    dash.handle_key(Key::Up, &Vec::new());
    assert_eq!(dash.selected, usize::MAX - 1);
}

#[test]
fn a_changed_interface_is_the_one_asked_for() {
    let mut state = TuiState::default();
    match &state.interface {
        TuiInterface::Dashboard(c) => assert_eq!(c.interface.selected, 0),
        other => panic!("unexpected interface {:?}", other),
    }
    state.change_interface(TuiInterfaceType::ServerView, view_opts("srv-9")).unwrap();
    match &state.interface {
        TuiInterface::ServerView(c) => {
            assert_eq!(c.interface.server_id, "srv-9");
            assert_eq!(c.interface.vars_selected, 0);
        }
        other => panic!("unexpected interface {:?}", other),
    }
}
