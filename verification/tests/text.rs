use gmon::text::{pad_end, pad_start};
use gmon::server::{Query, ServerQueryType};
use gmon::text::{
    chars_of, char_is_whitespace, decimal_string, parse_unsigned_chars, push_decimal_pad2,
    string_of, trim_chars, truncate_str,
};

#[test]
fn truncates_long_text_with_an_ellipsis() {
    assert_eq!(truncate_str("hello", 5), "hello");
    assert_eq!(truncate_str("hello", 10), "hello");
    assert_eq!(truncate_str("hello world", 6), "hello…");
    assert_eq!(truncate_str("héllo wörld", 4), "hél…");
    assert_eq!(truncate_str("abc", 0), "…");
    assert_eq!(truncate_str("", 0), "");
}

#[test]
fn trims_whitespace_on_both_ends() {
    assert_eq!(string_of(&trim_chars("  a b \t\n")), "a b");
    assert_eq!(string_of(&trim_chars("   ")), "");
    assert_eq!(string_of(&trim_chars("x")), "x");
    assert!(char_is_whitespace(' '));
    assert!(char_is_whitespace('\u{3000}'));
    assert!(!char_is_whitespace('a'));
    assert_eq!(chars_of("añb"), vec!['a', 'ñ', 'b']);
}

#[test]
fn parses_unsigned_numbers_like_str_parse() {
    let p = |s: &str, max: u64| parse_unsigned_chars(&chars_of(s), max);
    assert_eq!(p("27015", 65535), Some(27015));
    assert_eq!(p("+12", 65535), Some(12));
    assert_eq!(p("65535", 65535), Some(65535));
    assert_eq!(p("65536", 65535), None);
    assert_eq!(p("", 65535), None);
    assert_eq!(p("+", 65535), None);
    assert_eq!(p("-1", 65535), None);
    assert_eq!(p("1a", 65535), None);
    assert_eq!(p("007", 65535), Some(7));
    assert_eq!(p("18446744073709551615", u64::MAX), Some(u64::MAX));
    assert_eq!(p("18446744073709551616", u64::MAX), None);
}

#[test]
fn decimal_text() {
    assert_eq!(decimal_string(0), "0");
    assert_eq!(decimal_string(1234567890), "1234567890");
    let mut s = String::new();
    push_decimal_pad2(&mut s, 7);
    push_decimal_pad2(&mut s, 42);
    push_decimal_pad2(&mut s, 123);
    assert_eq!(s, "0742123");
}

#[test]
fn guesses_protocols_from_well_known_ports() {
    assert_eq!(Query::get_query_type_from_port(27015), Some(ServerQueryType::A2s));
    assert_eq!(Query::get_query_type_from_port(27030), Some(ServerQueryType::A2s));
    assert_eq!(Query::get_query_type_from_port(27031), None);
    assert_eq!(Query::get_query_type_from_port(25565), Some(ServerQueryType::Minecraft));
    assert_eq!(Query::get_query_type_from_port(19132), Some(ServerQueryType::Bedrock));
    assert_eq!(Query::get_query_type_from_port(28960), Some(ServerQueryType::Quake3));
    assert_eq!(Query::get_query_type_from_port(30120), Some(ServerQueryType::FiveM));
    assert_eq!(Query::get_query_type_from_port(80), None);
}

#[test]
fn pads_to_a_width() {
    assert_eq!(pad_end("ab", 5), "ab   ");
    assert_eq!(pad_end("abcdef", 3), "abcdef");
    assert_eq!(pad_start("3/16", 5), " 3/16");
    assert_eq!(pad_start("12/100", 5), "12/100");
    assert_eq!(pad_end("é", 2), "é ");
    assert_eq!(pad_end("x", 4), format!("{:<4}", "x"));
    assert_eq!(pad_start("x", 4), format!("{:>4}", "x"));
}

#[test]
fn protocols_and_latency_methods_by_name() {
    use_names();
}

fn use_names() {
    for t in ServerQueryType::ALL {
        assert_eq!(ServerQueryType::from_name(t.name()), Some(t));
    }
    assert_eq!(ServerQueryType::from_name("cod4"), Some(ServerQueryType::Quake3));
    assert_eq!(ServerQueryType::from_name("source"), Some(ServerQueryType::A2s));
    assert_eq!(ServerQueryType::from_name("mcquery"), Some(ServerQueryType::GameSpy3));
    assert_eq!(ServerQueryType::from_name("mcpe"), Some(ServerQueryType::Bedrock));
    assert_eq!(ServerQueryType::from_name("java"), Some(ServerQueryType::Minecraft));
    assert_eq!(ServerQueryType::from_name("gamespy"), Some(ServerQueryType::GameSpy1));
    assert_eq!(ServerQueryType::from_name("citizenfx"), Some(ServerQueryType::FiveM));
    assert_eq!(ServerQueryType::from_name("A2S"), None);
    assert_eq!(ServerQueryType::from_name("doom"), None);

    for t in gmon::server::ServerLatencyType::ALL {
        assert_eq!(gmon::server::ServerLatencyType::from_name(t.name()), Some(t));
    }
    assert_eq!(
        gmon::server::ServerLatencyType::from_name("query-users"),
        Some(gmon::server::ServerLatencyType::A2sPlayers)
    );
    assert_eq!(gmon::server::ServerLatencyType::from_name("ping"), None);
}
