use gmon::form::{FormError, FormKey, ResolveOutcome, ServerNewField, TuiInterfaceServerNew};
use gmon::server::{ServerLatencyType, ServerQueryType, DEFAULT_QUERY_INTERVAL, DEFAULT_QUERY_TIMEOUT};
use gmon::store::ServerStore;
use gmon::tui::{Key, TuiAction, TuiInterfaceOpts, TuiInterfaceType};

fn form() -> TuiInterfaceServerNew {
    TuiInterfaceServerNew {
        address: "127.0.0.1".to_string(),
        port: "27015".to_string(),
        ..Default::default()
    }
}

/// Checks the form and builds the record as if its address resolved.
fn build_record(form: &TuiInterfaceServerNew) -> Result<ServerStore, FormError> {
    let target = form.parse_target()?;
    form.build_record(target, ResolveOutcome::Resolved)
}

fn position(field: ServerNewField) -> usize {
    ServerNewField::ALL.iter().position(|f| *f == field).unwrap()
}

#[test]
fn guesses_the_query_type_from_the_port() {
    let record = build_record(&form()).expect("failed to build");

    assert_eq!(record.query_type, ServerQueryType::A2s);
    assert_eq!(record.port, 27015);
    assert_eq!(record.query_interval, DEFAULT_QUERY_INTERVAL);
    assert_eq!(record.query_timeout, DEFAULT_QUERY_TIMEOUT);
    assert_eq!(record.display_name, None);
}

#[test]
fn uses_the_query_port_when_given() {
    let mut form = form();

    form.query_port = "27016".to_string();
    form.query_type = Some(ServerQueryType::Quake3);
    form.name = " My Server ".to_string();

    let record = build_record(&form).expect("failed to build");

    assert_eq!(record.port_query, Some(27016));
    assert_eq!(record.query_type, ServerQueryType::Quake3);
    assert_eq!(record.display_name.as_deref(), Some("My Server"));
}

#[test]
fn rejects_bad_input() {
    let mut empty = form();
    empty.address = String::new();
    assert!(build_record(&empty).is_err());

    let mut with_port = form();
    with_port.address = "127.0.0.1:27015".to_string();
    assert!(build_record(&with_port).is_err());

    let mut bad_port = form();
    bad_port.port = "0".to_string();
    assert!(build_record(&bad_port).is_err());

    // Port 1234 matches no protocol, so the user has to pick one.
    let mut unknown_port = form();
    unknown_port.port = "1234".to_string();
    assert!(build_record(&unknown_port).is_err());

    let mut zero_interval = form();
    zero_interval.interval = "0".to_string();
    assert!(build_record(&zero_interval).is_err());
}

#[test]
fn cycles_choice_fields() {
    let mut form = form();

    form.focus = ServerNewField::ALL
        .iter()
        .position(|f| *f == ServerNewField::QueryType)
        .unwrap();

    form.cycle(true);
    assert_eq!(form.query_type, Some(ServerQueryType::ALL[0]));

    form.cycle(false);
    assert_eq!(form.query_type, None);

    form.cycle(false);
    assert_eq!(
        form.query_type,
        Some(ServerQueryType::ALL[ServerQueryType::ALL.len() - 1])
    );

    form.focus = ServerNewField::ALL
        .iter()
        .position(|f| *f == ServerNewField::Save)
        .unwrap();

    assert!(form.save);
    form.cycle(true);
    assert!(!form.save);
}

#[test]
fn only_accepts_digits_in_numeric_fields() {
    let mut form = form();

    form.focus = ServerNewField::ALL
        .iter()
        .position(|f| *f == ServerNewField::Port)
        .unwrap();

    form.port.clear();
    form.insert('2');
    form.insert('a');
    form.insert('7');

    assert_eq!(form.port, "27");

    form.focus = ServerNewField::ALL
        .iter()
        .position(|f| *f == ServerNewField::Name)
        .unwrap();

    form.insert('a');
    form.insert('!');

    assert_eq!(form.name, "a!");
}

#[test]
fn a_new_form_starts_with_the_defaults() {
    let form = TuiInterfaceServerNew::new();

    assert_eq!(form.address, "");
    assert_eq!(form.port, "");
    assert_eq!(form.query_type, None);
    assert_eq!(form.interval, "1000");
    assert_eq!(form.timeout, "2000");
    assert_eq!(form.latency_type, ServerLatencyType::SelfInfo);
    assert!(form.save);
    assert_eq!(form.focus, 0);
    assert_eq!(form.error, None);
    assert_eq!(form.field(), ServerNewField::Address);
}

#[test]
fn error_messages_name_the_problem() {
    let mut empty = form();
    empty.address = "   ".to_string();
    assert_eq!(empty.parse_target(), Err(FormError::AddressRequired));
    assert_eq!(FormError::AddressRequired.message(), "An address is required.");

    let mut spaced = form();
    spaced.address = "my host".to_string();
    let err = spaced.parse_target().unwrap_err();
    assert_eq!(err, FormError::AddressWithPort);
    assert_eq!(err.message(), "Enter the address without a port, e.g. 127.0.0.1.");

    let mut bad_port = form();
    bad_port.port = "70000".to_string();
    let err = bad_port.parse_target().unwrap_err();
    assert_eq!(err, FormError::NotAPort { label: "Port".to_string() });
    assert_eq!(err.message(), "Port must be a number between 1 and 65535.");

    let mut bad_query_port = form();
    bad_query_port.query_port = "x".to_string();
    let err = bad_query_port.parse_target().unwrap_err();
    assert_eq!(err.message(), "Query port must be a number between 1 and 65535.");

    let mut unknown = form();
    unknown.port = "1234".to_string();
    let err = unknown.parse_target().unwrap_err();
    assert_eq!(err, FormError::UnknownQueryPort { port: 1234 });
    assert_eq!(err.message(), "Can't guess a query type for port 1234. Pick one instead.");

    let mut zero_timeout = form();
    zero_timeout.timeout = "0".to_string();
    let err = build_record(&zero_timeout).unwrap_err();
    assert_eq!(err.message(), "Timeout must be a number greater than 0.");

    let mut zero_interval = form();
    zero_interval.interval = " ".to_string();
    let err = build_record(&zero_interval).unwrap_err();
    assert_eq!(err.message(), "Interval must be a number greater than 0.");
}

#[test]
fn a_failed_resolution_is_reported() {
    let form = form();
    let target = form.parse_target().unwrap();
    let err = form
        .build_record(
            target,
            ResolveOutcome::Failed { reason: "no such host".to_string() },
        )
        .unwrap_err();
    assert_eq!(err.message(), "Failed to resolve '127.0.0.1': no such host");

    let target = form.parse_target().unwrap();
    let err = form.build_record(target, ResolveOutcome::TimedOut).unwrap_err();
    assert_eq!(err.message(), "Timed out resolving '127.0.0.1'.");
}

#[test]
fn the_query_port_picks_the_protocol_guess() {
    let mut form = form();
    form.port = "1234".to_string();
    form.query_port = "25565".to_string();
    form.address = "  play.example.org ".to_string();
    form.interval = " 500 ".to_string();

    let record = build_record(&form).unwrap();
    assert_eq!(record.query_type, ServerQueryType::Minecraft);
    assert_eq!(record.ip, "play.example.org");
    assert_eq!(record.port, 1234);
    assert_eq!(record.port_query, Some(25565));
    assert_eq!(record.query_interval, 500);
    assert_eq!(record.latency_interval, None);
    assert_eq!(record.latency_history_size, 100);
    assert_eq!(record.id, "");
}

#[test]
fn focus_wraps_around_the_fields() {
    let mut form = form();
    form.focus_prev();
    assert_eq!(form.focus, 8);
    assert_eq!(form.field(), ServerNewField::Save);
    form.focus_next();
    assert_eq!(form.focus, 0);
    form.focus_next();
    assert_eq!(form.field(), ServerNewField::Port);
}

#[test]
fn backspace_removes_what_was_typed() {
    let mut form = form();
    form.focus = position(ServerNewField::Address);
    form.insert('9');
    assert_eq!(form.address, "127.0.0.19");
    form.backspace();
    assert_eq!(form.address, "127.0.0.1");

    form.focus = position(ServerNewField::Save);
    form.insert('x');
    form.backspace();
    assert_eq!(form.address, "127.0.0.1");
    assert!(form.save);
}

#[test]
fn control_characters_are_not_typed() {
    let mut form = form();
    form.focus = position(ServerNewField::Name);
    form.insert('\u{7}');
    form.insert('\n');
    assert_eq!(form.name, "");
}

#[test]
fn latency_choice_cycles_both_ways() {
    let mut form = form();
    form.focus = position(ServerNewField::LatencyType);
    form.cycle(false);
    assert_eq!(form.latency_type, ServerLatencyType::Icmp);
    form.cycle(true);
    assert_eq!(form.latency_type, ServerLatencyType::SelfInfo);
    form.cycle(true);
    assert_eq!(form.latency_type, ServerLatencyType::SelfUsers);
}

#[test]
fn shows_choice_values() {
    let mut form = form();
    assert_eq!(form.value(ServerNewField::QueryType), "Auto (from port)");
    assert_eq!(form.value(ServerNewField::Save), "Yes");
    assert_eq!(form.value(ServerNewField::Port), "27015");
    form.save = false;
    assert_eq!(form.value(ServerNewField::Save), "No");
    form.query_type = Some(ServerQueryType::A2s);
    let shown = form.value(ServerNewField::QueryType);
    assert!(shown.starts_with(ServerQueryType::A2s.name()));
    assert!(shown.ends_with(')'));
}

#[test]
fn keys_edit_the_form() {
    let mut form = form();
    match form.handle_key(Key::Esc) {
        FormKey::Action(TuiAction::ChangeInterface(t, None)) => {
            assert_eq!(t, TuiInterfaceType::Dashboard)
        }
        other => panic!("unexpected key result {:?}", other),
    }
    assert!(matches!(form.handle_key(Key::Enter), FormKey::Submit));
    assert!(matches!(form.handle_key(Key::Tab), FormKey::Action(TuiAction::Stay)));
    assert_eq!(form.field(), ServerNewField::Port);
    form.handle_key(Key::Char('1'));
    assert_eq!(form.port, "270151");
    form.handle_key(Key::Backspace);
    assert_eq!(form.port, "27015");
    form.handle_key(Key::Tab);
    form.handle_key(Key::Char(' '));
    assert_eq!(form.query_type, Some(ServerQueryType::A2s));
    form.handle_key(Key::Left);
    assert_eq!(form.query_type, None);
    form.handle_key(Key::BackTab);
    form.handle_key(Key::Up);
    assert_eq!(form.field(), ServerNewField::Address);
    form.handle_key(Key::Char(' '));
    assert_eq!(form.address, "127.0.0.1 ");
}

#[test]
fn submission_outcomes() {
    let mut form = form();
    match form.finish_submit(Ok("abc".to_string())) {
        TuiAction::ChangeInterface(t, Some(TuiInterfaceOpts::ServerView(o))) => {
            assert_eq!(t, TuiInterfaceType::ServerView);
            assert_eq!(o.server_id, "abc");
        }
        other => panic!("unexpected action {:?}", other),
    }
    assert_eq!(form.error, None);

    let action = form.finish_submit(Err("boom".to_string()));
    assert!(matches!(action, TuiAction::Stay));
    assert_eq!(form.error.as_deref(), Some("boom"));
}

#[test]
fn keys_work_with_any_focus() {
    let mut form = form();
    form.focus = usize::MAX;
    assert_eq!(form.field(), ServerNewField::Save);
    form.handle_key(Key::Right);
    assert!(!form.save);
    match form.handle_key(Key::Esc) {
        FormKey::Action(TuiAction::ChangeInterface(t, None)) => {
            assert_eq!(t, TuiInterfaceType::Dashboard)
        }
        other => panic!("unexpected key result {:?}", other),
    }
    form.handle_key(Key::Tab);
    assert_eq!(form.focus, (usize::MAX % 9 + 1) % 9);
    form.focus = usize::MAX;
    form.handle_key(Key::Up);
    assert_eq!(form.focus, (usize::MAX % 9 + 8) % 9);
}
