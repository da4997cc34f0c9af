use gmon::view::{general_rows, graph_column, latency_grade, scaled_level, LatencyGrade};
use gmon::server::{Server, ServerLatencyType, ServerQueryType};
use gmon::view::{
    display_name, flags_text, format_duration, format_elapsed, format_last_updated,
    last_samples, latency_totals, latency_type_label, ping_text, players_text, query_text,
    scale_max, sort_users_by_score, sort_vars_by_name, str_le, user_columns, ServerData,
    ServerLatency, ServerStatus, ServerUser, ServerVar,
};

#[test]
fn formats_relative_times() {
    let now = chrono::Utc::now().timestamp_millis() as u64;

    assert_eq!(format_last_updated(None, now), "Unknown");
    assert_eq!(format_last_updated(Some(now), now), "0s ago");
    assert_eq!(format_last_updated(Some(now - 120_000), now), "2m ago");
    assert_eq!(format_last_updated(Some(now - 7_200_000), now), "2h ago");
}

#[test]
fn last_update_is_measured_against_the_given_time() {
    assert_eq!(format_last_updated(Some(1_000), 3_601_000), "1h ago");
    assert_eq!(format_last_updated(Some(5_000), 1_000), "0s ago");
    assert_eq!(format_last_updated(None, 0), "Unknown");
}

#[test]
fn elapsed_time_uses_the_largest_whole_unit() {
    assert_eq!(format_elapsed(10_000, 10_000), "0s ago");
    assert_eq!(format_elapsed(69_999, 10_000), "59s ago");
    assert_eq!(format_elapsed(70_000, 10_000), "1m ago");
    assert_eq!(format_elapsed(3_600_000, 0), "1h ago");
    assert_eq!(format_elapsed(86_399_999, 0), "23h ago");
    assert_eq!(format_elapsed(3 * 86_400_000, 0), "3d ago");
    // A refresh stamped in the future counts as just now.
    assert_eq!(format_elapsed(1_000, 50_000), "0s ago");
}

#[test]
fn durations_pad_to_two_digits() {
    assert_eq!(format_duration(0), "00:00");
    assert_eq!(format_duration(65), "01:05");
    assert_eq!(format_duration(3599), "59:59");
    assert_eq!(format_duration(3600), "01:00:00");
    assert_eq!(format_duration(3723), "01:02:03");
    assert_eq!(format_duration(360_000), "100:00:00");
}

#[test]
fn status_texts() {
    assert_eq!(ServerStatus::Online.text(), "Online");
    assert_eq!(ServerStatus::Error(404).text(), "Error (404)");
    assert_eq!(ServerStatus::Offline.text(), "Offline");
    assert_eq!(ServerStatus::Unknown.text(), "Unknown");
}

fn server() -> Server {
    Server {
        ip: "10.1.2.3".to_string(),
        port: 27015,
        ..Default::default()
    }
}

#[test]
fn names_prefer_the_display_name() {
    let mut data = ServerData::default();
    let mut srv = server();

    assert_eq!(display_name(&srv, &data), "10.1.2.3:27015");
    data.srv_name = Some("Reported".to_string());
    assert_eq!(display_name(&srv, &data), "Reported");
    srv.display_name = Some("Mine".to_string());
    assert_eq!(display_name(&srv, &data), "Mine");
}

#[test]
fn query_text_shows_a_separate_query_port() {
    let mut srv = server();
    srv.query_type = ServerQueryType::A2s;
    let plain = query_text(&srv);
    assert_eq!(plain, ServerQueryType::A2s.name());

    srv.port_query = Some(27016);
    assert_eq!(query_text(&srv), format!("{} (port 27016)", ServerQueryType::A2s.name()));

    srv.port_query = Some(27015);
    assert_eq!(query_text(&srv), plain);
}

#[test]
fn players_and_flags() {
    let mut data = ServerData {
        users_cur: 5,
        users_max: 20,
        ..Default::default()
    };
    assert_eq!(players_text(&data), "5/20");
    data.bots_cur = Some(0);
    assert_eq!(players_text(&data), "5/20");
    data.bots_cur = Some(3);
    assert_eq!(players_text(&data), "5/20 (3 bots)");

    assert_eq!(flags_text(&data), "");
    data.is_dedicated = true;
    assert_eq!(flags_text(&data), "Dedicated");
    data.is_secure = true;
    data.is_public = true;
    assert_eq!(flags_text(&data), "Secure, Dedicated, Public");
    data.is_dedicated = false;
    assert_eq!(flags_text(&data), "Secure, Public");
}

#[test]
fn latency_labels() {
    assert_eq!(latency_type_label(&ServerLatencyType::SelfInfo), "Self Info");
    assert_eq!(latency_type_label(&ServerLatencyType::A2sPlayers), "A2S Players");
    assert_eq!(latency_type_label(&ServerLatencyType::Icmp), "ICMP");
}

fn user(name: &str, score: i64, ping: Option<u32>, duration: u64) -> ServerUser {
    ServerUser {
        name: name.to_string(),
        score,
        ping,
        duration,
    }
}

#[test]
fn scoreboard_orders_by_score_keeping_ties() {
    let users = vec![
        user("a", 5, None, 0),
        user("b", 9, None, 0),
        user("c", 5, None, 0),
        user("d", -1, None, 0),
        user("e", 9, None, 0),
    ];
    let sorted = sort_users_by_score(&users);
    let names: Vec<&str> = sorted.iter().map(|u| u.name.as_str()).collect();
    assert_eq!(names, vec!["b", "e", "a", "c", "d"]);
    assert_eq!(users.len(), 5);
}

#[test]
fn scoreboard_columns_follow_the_data() {
    let none = vec![user("a", 0, None, 0)];
    assert_eq!(user_columns(&none), (false, false));
    let some = vec![user("a", 0, None, 0), user("b", 0, Some(30), 12)];
    assert_eq!(user_columns(&some), (true, true));
    assert_eq!(user_columns(&Vec::new()), (false, false));

    assert_eq!(ping_text(None), "-");
    assert_eq!(ping_text(Some(42)), "42");
}

fn var(name: &str, value: &str) -> ServerVar {
    ServerVar {
        name: name.to_string(),
        value: value.to_string(),
    }
}

#[test]
fn variables_order_by_name() {
    let vars = vec![var("sv_gravity", "800"), var("mp_timelimit", "30"), var("mp_fraglimit", "0"), var("mp_timelimit", "x")];
    let sorted = sort_vars_by_name(&vars);
    let pairs: Vec<(&str, &str)> = sorted
        .iter()
        .map(|v| (v.name.as_str(), v.value.as_str()))
        .collect();
    assert_eq!(
        pairs,
        vec![
            ("mp_fraglimit", "0"),
            ("mp_timelimit", "30"),
            ("mp_timelimit", "x"),
            ("sv_gravity", "800"),
        ]
    );

    assert!(str_le("abc", "abd"));
    assert!(str_le("ab", "abc"));
    assert!(str_le("same", "same"));
    assert!(!str_le("b", "a"));
    assert!(!str_le("abc", "ab"));
}

fn sample(online: bool, val: u64) -> ServerLatency {
    ServerLatency { online, val }
}

#[test]
fn latency_history_figures() {
    let history = vec![
        sample(true, 30),
        sample(false, 0),
        sample(true, 10),
        sample(true, 50),
        sample(false, 99),
    ];

    let totals = latency_totals(&history);
    assert_eq!(totals.total, 5);
    assert_eq!(totals.online, 3);
    assert_eq!(totals.offline, 2);
    assert_eq!(totals.min, Some(10));
    assert_eq!(totals.max, Some(50));
    assert_eq!(totals.sum, 90);

    assert_eq!(scale_max(&history), 50);
    assert_eq!(scale_max(&vec![sample(false, 500)]), 1);
    assert_eq!(scale_max(&Vec::new()), 1);

    let last = last_samples(&history, 2);
    assert_eq!(last, vec![sample(true, 50), sample(false, 99)]);
    assert_eq!(last_samples(&history, 10).len(), 5);

    let empty = latency_totals(&Vec::new());
    assert_eq!(empty.total, 0);
    assert_eq!(empty.min, None);
    assert_eq!(empty.max, None);
}

#[test]
fn graph_levels_scale_to_the_largest_answer() {
    assert_eq!(scaled_level(0, 100, 7), 0);
    assert_eq!(scaled_level(100, 100, 7), 7);
    assert_eq!(scaled_level(500, 100, 7), 7);
    assert_eq!(scaled_level(50, 100, 7), 4); // 3.5 rounds up
    assert_eq!(scaled_level(49, 100, 7), 3); // 3.43
    assert_eq!(scaled_level(1, 3, 8), 3); // 2.67

    // 30 of 40 over two rows of eighths: 12 eighths, a full bottom cell
    // and half a cell above it.
    assert_eq!(graph_column(sample(true, 30), 40, 2), vec![4, 8]);
    assert_eq!(graph_column(sample(true, 0), 40, 3), vec![0, 0, 0]);
    assert_eq!(graph_column(sample(true, 40), 40, 3), vec![8, 8, 8]);
    assert_eq!(graph_column(sample(false, 5), 40, 3), vec![8, 8, 8]);
    assert_eq!(graph_column(sample(true, 10), 40, 0), Vec::<u8>::new());

    assert_eq!(latency_grade(79_999), LatencyGrade::Good);
    assert_eq!(latency_grade(80_000), LatencyGrade::Fair);
    assert_eq!(latency_grade(149_999), LatencyGrade::Fair);
    assert_eq!(latency_grade(150_000), LatencyGrade::Poor);
}

#[test]
fn general_panel_rows() {
    let srv = server();
    let data = ServerData::default();
    let rows = general_rows(&srv, &data, ServerStatus::Offline, "Unknown".to_string());
    let labels: Vec<&str> = rows.iter().map(|r| r.0).collect();
    assert_eq!(labels, vec!["Status", "Address", "Query", "Players", "Updated"]);
    assert_eq!(rows[0].1, "Offline");
    assert_eq!(rows[1].1, "10.1.2.3:27015");
    assert_eq!(rows[3].1, "0/0");
    assert_eq!(rows[4].1, "Unknown");

    let data = ServerData {
        game_name: Some("Counter-Strike".to_string()),
        game_dir: Some("cstrike".to_string()),
        map_name: Some("de_dust2".to_string()),
        os: Some("Linux".to_string()),
        version: Some("1.0".to_string()),
        is_secure: true,
        users_cur: 3,
        users_max: 16,
        ..Default::default()
    };
    let rows = general_rows(&srv, &data, ServerStatus::Online, "2m ago".to_string());
    let pairs: Vec<(&str, &str)> = rows.iter().map(|r| (r.0, r.1.as_str())).collect();
    assert_eq!(&pairs[3..], &[
        ("Game", "Counter-Strike"),
        ("Game Dir", "cstrike"),
        ("Map", "de_dust2"),
        ("Players", "3/16"),
        ("OS", "Linux"),
        ("Version", "1.0"),
        ("Flags", "Secure"),
        ("Updated", "2m ago"),
    ]);
}
