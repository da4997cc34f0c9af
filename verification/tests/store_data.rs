use gmon::settings::{format_log_levels, parse_log_levels};
use gmon::server::{ServerLatencyType, ServerQueryType};
use gmon::settings::{LogLevel, Settings, SettingsOverrides};
use gmon::store::{
    fmt_store_path, parse_store_type, JsonStateData, JsonStore, RowError, ServerRow, ServerStore,
    StoreError, StoreKind,
};

fn record(id: &str, ip: &str, port: u16) -> ServerStore {
    ServerStore {
        id: id.to_string(),
        ip: ip.to_string(),
        port,
        ..Default::default()
    }
}

#[test]
fn adding_then_fetching_finds_the_server() {
    let mut data = JsonStateData::default();
    assert_eq!(data.add(&record("a", "1.1.1.1", 1)), Ok(()));
    assert_eq!(data.add(&record("b", "2.2.2.2", 2)), Ok(()));

    let a = data.fetch_by_id("a").unwrap();
    assert_eq!(a.ip, "1.1.1.1");
    let b = data.fetch_by_addr("2.2.2.2", 2).unwrap();
    assert_eq!(b.id, "b");
    assert!(data.fetch_by_id("c").is_none());
    assert!(data.fetch_by_addr("2.2.2.2", 3).is_none());

    let all = data.fetch_all();
    let ids: Vec<&str> = all.iter().map(|s| s.id.as_str()).collect();
    assert_eq!(ids, vec!["a", "b"]);
}

#[test]
fn adding_a_known_id_is_refused() {
    let mut data = JsonStateData::default();
    data.add(&record("a", "1.1.1.1", 1)).unwrap();
    let err = data.add(&record("a", "9.9.9.9", 9)).unwrap_err();
    assert_eq!(
        err,
        StoreError::AlreadyExists {
            id: "a".to_string(),
            ip: "9.9.9.9".to_string(),
            port: 9
        }
    );
    assert_eq!(err.message(), "Server with ID a or address 9.9.9.9:9 already exists");
    assert_eq!(data.servers.len(), 1);
}

#[test]
fn updating_replaces_by_id_or_address() {
    let mut data = JsonStateData::default();
    data.add(&record("a", "1.1.1.1", 1)).unwrap();
    data.add(&record("b", "2.2.2.2", 2)).unwrap();

    let mut changed = record("b", "3.3.3.3", 3);
    changed.query_interval = 9000;
    assert_eq!(data.update(&changed), Ok(()));
    assert_eq!(data.fetch_by_id("b").unwrap().query_interval, 9000);
    assert_eq!(data.fetch_by_id("a").unwrap().ip, "1.1.1.1");

    // Same address, new id: the stored entry is replaced.
    assert_eq!(data.update(&record("z", "1.1.1.1", 1)), Ok(()));
    assert!(data.fetch_by_id("a").is_none());
    assert_eq!(data.fetch_by_id("z").unwrap().ip, "1.1.1.1");
    assert_eq!(data.servers.len(), 2);

    let err = data.update(&record("q", "4.4.4.4", 4)).unwrap_err();
    assert_eq!(err, StoreError::NotFoundForUpdate { id: "q".to_string() });
    assert_eq!(err.message(), "Server with ID q not found for update");
}

#[test]
fn deleting_removes_the_server() {
    let mut data = JsonStateData::default();
    data.add(&record("a", "1.1.1.1", 1)).unwrap();
    data.add(&record("b", "2.2.2.2", 2)).unwrap();

    assert_eq!(data.delete(&record("a", "", 0)), Ok(()));
    assert!(data.fetch_by_id("a").is_none());
    assert_eq!(data.servers.len(), 1);

    let err = data.delete(&record("a", "", 0)).unwrap_err();
    assert_eq!(err, StoreError::NotFoundForDeletion { id: "a".to_string() });
    assert_eq!(err.message(), "Server with ID a not found for deletion");

    assert_eq!(data.delete(&record("other", "2.2.2.2", 2)), Ok(()));
    assert!(data.servers.is_empty());
}

#[test]
fn adding_then_deleting_restores_the_list() {
    let mut data = JsonStateData::default();
    data.add(&record("a", "1.1.1.1", 1)).unwrap();
    data.add(&record("c", "5.5.5.5", 5)).unwrap();
    data.delete(&record("c", "5.5.5.5", 5)).unwrap();
    let ids: Vec<String> = data.fetch_all().into_iter().map(|s| s.id).collect();
    assert_eq!(ids, vec!["a".to_string()]);
}

#[test]
fn json_store_file_gets_the_extension() {
    let store = JsonStore::new("store".to_string());
    assert_eq!(store.store_path, "store.json");
    assert!(store.store_fmt.servers.is_empty());
    assert_eq!(store.store_fmt.settings.log_max_buffer_size, 250);
    assert!(!store.rw_lock);

    let nested = JsonStore::new("data/gmon".to_string());
    assert_eq!(nested.store_path, "data/gmon.json");
}

#[test]
fn store_paths_expand_the_home_directory() {
    assert_eq!(
        fmt_store_path("~/gmon/store".to_string(), Some("/home/me".to_string())),
        "/home/me/gmon/store"
    );
    assert_eq!(fmt_store_path("~/x".to_string(), None), "~/x");
    assert_eq!(
        fmt_store_path("/abs/store".to_string(), Some("/home/me".to_string())),
        "/abs/store"
    );
    assert_eq!(fmt_store_path("~".to_string(), Some("/home/me".to_string())), "~");
}

#[test]
fn store_kinds_by_name() {
    assert_eq!(parse_store_type("json"), Some(StoreKind::Json));
    assert_eq!(parse_store_type("sqlite"), Some(StoreKind::Sqlite));
    assert_eq!(parse_store_type("JSON"), None);
    assert_eq!(parse_store_type(""), None);
    assert_eq!(StoreKind::Json.name(), "json");
    assert_eq!(StoreKind::Sqlite.name(), "sqlite");
}

fn row(query_type: i32, latency_type: i32) -> ServerRow {
    ServerRow {
        id: "id-1".to_string(),
        ip: "127.0.0.1".to_string(),
        port: 27015,
        display_name: Some("Name".to_string()),
        port_query: Some(27016),
        query_interval: 1500,
        query_timeout: -1,
        query_type,
        latency_interval: Some(700),
        latency_timeout: None,
        latency_type,
        latency_history_size: 42,
    }
}

#[test]
fn rows_become_records() {
    let rec = row(1, 6).into_record().unwrap();
    assert_eq!(rec.id, "id-1");
    assert_eq!(rec.query_type, ServerQueryType::Quake3);
    assert_eq!(rec.latency_type, ServerLatencyType::Icmp);
    assert_eq!(rec.query_interval, 1500);
    assert_eq!(rec.query_timeout, u64::MAX);
    assert_eq!(rec.latency_interval, Some(700));
    assert_eq!(rec.latency_timeout, None);
    assert_eq!(rec.latency_history_size, 42);

    assert_eq!(row(7, 0).into_record().unwrap_err(), RowError::UnknownQueryType(7));
    assert_eq!(row(0, -1).into_record().unwrap_err(), RowError::UnknownLatencyType(-1));
}

#[test]
fn records_become_parameters_and_back() {
    let mut rec = record("id-9", "10.0.0.1", 2302);
    rec.query_type = ServerQueryType::FiveM;
    rec.latency_type = ServerLatencyType::A2sRules;
    rec.query_timeout = u64::MAX;
    rec.latency_interval = Some(5);

    let p = rec.to_params().unwrap();
    assert_eq!(p.query_type, 6);
    assert_eq!(p.latency_type, 5);
    assert_eq!(p.query_timeout, -1);
    assert_eq!(p.query_interval, 1000);
    assert_eq!(p.latency_history_size, 100);

    let back = ServerRow {
        id: p.id,
        ip: p.ip,
        port: p.port,
        display_name: p.display_name,
        port_query: p.port_query,
        query_interval: p.query_interval,
        query_timeout: p.query_timeout,
        query_type: p.query_type,
        latency_interval: p.latency_interval,
        latency_timeout: p.latency_timeout,
        latency_type: p.latency_type,
        latency_history_size: p.latency_history_size as u32,
    }
    .into_record()
    .unwrap();
    assert_eq!(back.query_timeout, u64::MAX);
    assert_eq!(back.query_type, ServerQueryType::FiveM);
    assert_eq!(back.latency_type, ServerLatencyType::A2sRules);
    assert_eq!(back.latency_interval, Some(5));
    assert_eq!(back.id, rec.id);
    assert_eq!(back.ip, rec.ip);
    assert_eq!(back.port, rec.port);
    assert_eq!(back.display_name, rec.display_name);
    assert_eq!(back.port_query, rec.port_query);
    assert_eq!(back.query_interval, rec.query_interval);
    assert_eq!(back.latency_timeout, rec.latency_timeout);
    assert_eq!(back.latency_history_size, rec.latency_history_size);

    assert_eq!(record("", "x", 1).to_params().unwrap_err(), RowError::EmptyId);
}

#[test]
fn codes_round_trip() {
    for (i, t) in ServerQueryType::ALL.iter().enumerate() {
        assert_eq!(t.code(), i as i32);
        assert_eq!(ServerQueryType::from_code(t.code()), Some(*t));
        assert_eq!(ServerQueryType::at(i), *t);
        assert_eq!(t.index(), i);
    }
    assert_eq!(ServerQueryType::from_code(-1), None);
    for code in 0..7 {
        let t = ServerLatencyType::from_code(code).unwrap();
        assert_eq!(t.code(), code);
    }
    assert_eq!(ServerLatencyType::from_code(7), None);
    assert_eq!(ServerLatencyType::default(), ServerLatencyType::SelfInfo);
}

#[test]
fn settings_defaults_and_overrides() {
    let defaults = Settings::default();
    assert_eq!(
        defaults.log_levels,
        vec![LogLevel::Info, LogLevel::Warn, LogLevel::Error, LogLevel::Fatal]
    );
    assert_eq!(defaults.log_path, None);
    assert_eq!(defaults.log_max_buffer_size, 250);
    assert_eq!(defaults.tui_draw_interval, 500);
    assert_eq!(defaults.tui_input_poll_interval, 500);

    let mut s = Settings::default();
    s.apply_overrides(&SettingsOverrides {
        draw_interval: Some(100),
        log_path: Some("/tmp/gmon.log".to_string()),
        log_levels: Some(vec![LogLevel::Trace]),
        ..Default::default()
    });
    assert_eq!(s.tui_draw_interval, 100);
    assert_eq!(s.tui_input_poll_interval, 500);
    assert_eq!(s.log_max_buffer_size, 250);
    assert_eq!(s.log_path.as_deref(), Some("/tmp/gmon.log"));
    assert_eq!(s.log_levels, vec![LogLevel::Trace]);

    let mut t = Settings::default();
    t.apply_overrides(&SettingsOverrides::default());
    assert_eq!(t.tui_draw_interval, 500);
    assert_eq!(t.log_levels.len(), 4);

    assert_eq!(LogLevel::Warn.label(), "WARN");
    assert_eq!(LogLevel::Trace.label(), "TRACE");
}

#[test]
fn log_levels_read_and_write_as_lists() {
    assert_eq!(
        parse_log_levels("info,warn,error,fatal"),
        vec![LogLevel::Info, LogLevel::Warn, LogLevel::Error, LogLevel::Fatal]
    );
    assert_eq!(parse_log_levels(" debug , trace"), vec![LogLevel::Debug, LogLevel::Trace]);
    assert_eq!(parse_log_levels("info,loud,,fatal"), vec![LogLevel::Info, LogLevel::Fatal]);
    assert_eq!(parse_log_levels(""), Vec::<LogLevel>::new());

    let levels = vec![LogLevel::Trace, LogLevel::Error, LogLevel::Trace];
    let text = format_log_levels(&levels);
    assert_eq!(text, "trace,error,trace");
    assert_eq!(parse_log_levels(&text), levels);
    assert_eq!(format_log_levels(&Vec::new()), "");
    assert_eq!(LogLevel::Warn.name(), "warn");
}

#[test]
fn settings_store_as_key_value_pairs() {
    let mut s = Settings::default();
    s.log_path = Some("/var/log/gmon.log".to_string());
    s.tui_draw_interval = 250;

    let pairs = s.to_map();
    let view: Vec<(&str, &str)> = pairs.iter().map(|(k, v)| (k.as_str(), v.as_str())).collect();
    assert_eq!(
        view,
        vec![
            ("log_levels", "info,warn,error,fatal"),
            ("log_path", "/var/log/gmon.log"),
            ("log_max_buffer_size", "250"),
            ("tui_draw_interval", "250"),
            ("tui_input_poll_interval", "500"),
        ]
    );

    let back = Settings::from_map(&pairs).unwrap();
    assert_eq!(back.log_levels, s.log_levels);
    assert_eq!(back.log_path, s.log_path);
    assert_eq!(back.tui_draw_interval, 250);
    assert_eq!(back.tui_input_poll_interval, 500);
    assert_eq!(back.log_max_buffer_size, 250);

    let empty = Settings::from_map(&Vec::new()).unwrap();
    assert_eq!(empty.tui_draw_interval, 500);
    assert_eq!(empty.log_levels.len(), 4);

    let odd = vec![
        ("unknown".to_string(), "x".to_string()),
        ("tui_input_poll_interval".to_string(), "+75".to_string()),
    ];
    assert_eq!(Settings::from_map(&odd).unwrap().tui_input_poll_interval, 75);

    let bad = vec![("tui_draw_interval".to_string(), "fast".to_string())];
    let err = Settings::from_map(&bad).unwrap_err();
    assert_eq!(
        err,
        gmon::settings::SettingsError::InvalidNumber {
            key: "tui_draw_interval".to_string(),
            value: "fast".to_string()
        }
    );
    assert_eq!(err.message(), "Invalid value 'fast' for setting 'tui_draw_interval'");
}

#[test]
fn store_files_get_their_kind_extension() {
    assert_eq!(StoreKind::Json.file_path("store"), "store.json");
    assert_eq!(StoreKind::Sqlite.file_path("store"), "store.db");
    assert_eq!(StoreKind::Sqlite.file_path("/home/me/.config/gmon/store"), "/home/me/.config/gmon/store.db");
    assert_eq!(StoreKind::Sqlite.extension(), "db");
    assert_eq!(StoreKind::Json.extension(), "json");
}

#[test]
fn adding_a_known_address_is_refused() {
    let mut data = JsonStateData::default();
    data.add(&record("a", "1.1.1.1", 1)).unwrap();
    let err = data.add(&record("b", "1.1.1.1", 1)).unwrap_err();
    assert_eq!(
        err,
        StoreError::AlreadyExists {
            id: "b".to_string(),
            ip: "1.1.1.1".to_string(),
            port: 1
        }
    );
    assert_eq!(err.message(), "Server with ID b or address 1.1.1.1:1 already exists");
    assert_eq!(data.servers.len(), 1);
    assert_eq!(data.add(&record("b", "1.1.1.1", 2)), Ok(()));
}

#[test]
fn store_files_in_directories_get_the_extension() {
    assert_eq!(JsonStore::new("a/store".to_string()).store_path, "a/store.json");
    assert_eq!(JsonStore::new("a/store.v1".to_string()).store_path, "a/store.v1.json");
    assert_eq!(JsonStore::new("data/a:b".to_string()).store_path, "data/a:b.json");
    assert_eq!(
        StoreKind::Sqlite.file_path("/home/me/.config/gmon/store"),
        "/home/me/.config/gmon/store.db"
    );
}
