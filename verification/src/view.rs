//! What the terminal interface shows about a server: its name, status,
//! players and flags, relative times, the scoreboard order of its users and
//! the figures of its latency history.
use vstd::prelude::*;
use crate::server::{addr_text, Server, ServerLatencyType};
use crate::text::{chars_of, decimal, decimal_pad2, push_decimal, push_decimal_pad2, string_push};

verus! {

/// The status of a server or of one of its queries.
#[derive(Debug, Clone, Copy, PartialEq, Eq, Structural)]
pub enum ServerStatus {
    Online,
    /// The query answered with an error code.
    Error(u16),
    Offline,
    Unknown,
}

impl ServerStatus {
    pub open spec fn spec_text(self) -> Seq<char> {
        match self {
            ServerStatus::Online => "Online"@,
            ServerStatus::Error(code) => "Error ("@ + decimal(code as nat) + ")"@,
            ServerStatus::Offline => "Offline"@,
            ServerStatus::Unknown => "Unknown"@,
        }
    }

    /// The status as shown: `Online`, `Error (code)`, `Offline` or `Unknown`.
    pub fn text(&self) -> (r: String)
        ensures
            r@ == self.spec_text(),
    {
        match self {
            ServerStatus::Online => String::from_str("Online"),
            ServerStatus::Error(code) => {
                let mut r = String::from_str("Error (");
                push_decimal(&mut r, *code as u64);
                string_push(&mut r, ')');
                proof {
                    reveal_strlit(")");
                }
                assert(r@ =~= self.spec_text());
                r
            },
            ServerStatus::Offline => String::from_str("Offline"),
            ServerStatus::Unknown => String::from_str("Unknown"),
        }
    }
}

/// The status of each of a server's queries.
#[derive(Debug, Clone, Copy, PartialEq, Eq, Structural)]
pub struct ServerStatuses {
    pub query_info: ServerStatus,
    pub query_users: ServerStatus,
    pub query_vars: ServerStatus,
}

/// One latency sample: whether the server answered and how long it took,
/// in microseconds.
#[derive(Debug, Clone, Copy, PartialEq, Eq, Structural)]
pub struct ServerLatency {
    pub online: bool,
    pub val: u64,
}

/// A player on a server.
#[derive(Debug)]
pub struct ServerUser {
    pub name: String,
    pub score: i64,
    pub ping: Option<u32>,
    /// How long the player has been connected, in seconds.
    pub duration: u64,
}

impl Clone for ServerUser {
    fn clone(&self) -> (r: Self)
        ensures
            r == *self,
    {
        ServerUser {
            name: self.name.clone(),
            score: self.score,
            ping: self.ping,
            duration: self.duration,
        }
    }
}

/// What a server reported about itself.
#[derive(Debug, Default)]
pub struct ServerData {
    pub srv_name: Option<String>,
    pub map_name: Option<String>,
    pub game_name: Option<String>,
    /// The game's directory, for games that report one.
    pub game_dir: Option<String>,
    /// The operating system the server runs on.
    pub os: Option<String>,
    pub version: Option<String>,
    pub users_cur: u32,
    pub users_max: u32,
    pub bots_cur: Option<u32>,
    pub is_secure: bool,
    pub is_dedicated: bool,
    pub is_public: bool,
    /// When the data was last refreshed, in milliseconds since the Unix
    /// epoch.
    pub last_updated: Option<u64>,
    pub users: Vec<ServerUser>,
    pub vars: Vec<ServerVar>,
}

pub open spec fn opt_view(o: Option<String>) -> Option<Seq<char>> {
    match o {
        Some(s) => Some(s@),
        None => None,
    }
}

/// The name a server is shown under: its display name, else the name it
/// reports, else its address.
pub open spec fn spec_display_name(
    display_name: Option<Seq<char>>,
    reported: Option<Seq<char>>,
    ip: Seq<char>,
    port: u16,
) -> Seq<char> {
    match display_name {
        Some(n) => n,
        None => match reported {
            Some(n) => n,
            None => addr_text(ip, port),
        },
    }
}

pub fn display_name(server: &Server, data: &ServerData) -> (r: String)
    ensures
        r@ == spec_display_name(
            opt_view(server.display_name),
            opt_view(data.srv_name),
            server.ip@,
            server.port,
        ),
{
    match &server.display_name {
        Some(n) => n.clone(),
        None => match &data.srv_name {
            Some(n) => n.clone(),
            None => server.to_addr(),
        },
    }
}

pub open spec fn spec_query_text(server: Server) -> Seq<char> {
    if server.spec_query_port() != server.port {
        server.query_type.spec_name() + " (port "@ + decimal(server.spec_query_port() as nat)
            + ")"@
    } else {
        server.query_type.spec_name()
    }
}

/// The protocol, with the query port when queries go to another port than
/// the game port.
pub fn query_text(server: &Server) -> (r: String)
    ensures
        r@ == spec_query_text(*server),
{
    let mut r = String::from_str(server.query_type.name());
    let qp = server.query_port();
    if qp != server.port {
        r.append(" (port ");
        push_decimal(&mut r, qp as u64);
        r.append(")");
    }
    r
}

pub open spec fn spec_players_text(data: ServerData) -> Seq<char> {
    let base = decimal(data.users_cur as nat) + "/"@ + decimal(data.users_max as nat);
    match data.bots_cur {
        Some(b) => if b > 0 {
            base + " ("@ + decimal(b as nat) + " bots)"@
        } else {
            base
        },
        None => base,
    }
}

/// Players as `current/max`, with the bots when there are any.
pub fn players_text(data: &ServerData) -> (r: String)
    ensures
        r@ == spec_players_text(*data),
{
    let mut r = String::new();
    push_decimal(&mut r, data.users_cur as u64);
    r.append("/");
    push_decimal(&mut r, data.users_max as u64);
    match data.bots_cur {
        Some(b) => {
            if b > 0 {
                r.append(" (");
                push_decimal(&mut r, b as u64);
                r.append(" bots)");
            }
        },
        None => {},
    }
    r
}

pub open spec fn spec_flags(data: ServerData) -> Seq<Seq<char>> {
    let a: Seq<Seq<char>> = if data.is_secure { seq!["Secure"@] } else { seq![] };
    let b: Seq<Seq<char>> = if data.is_dedicated { seq!["Dedicated"@] } else { seq![] };
    let c: Seq<Seq<char>> = if data.is_public { seq!["Public"@] } else { seq![] };
    a + b + c
}

/// Joins words with `", "`.
pub open spec fn join_comma(words: Seq<Seq<char>>) -> Seq<char>
    decreases words.len(),
{
    if words.len() == 0 {
        seq![]
    } else if words.len() == 1 {
        words[0]
    } else {
        join_comma(words.drop_last()) + ", "@ + words.last()
    }
}

/// The server's flags joined with commas (empty when it has none).
pub fn flags_text(data: &ServerData) -> (r: String)
    ensures
        r@ == join_comma(spec_flags(*data)),
{
    proof {
        reveal_strlit("Secure");
        reveal_strlit("Dedicated");
        reveal_strlit("Public");
        reveal_strlit(", ");
    }
    let mut r = String::new();
    let ghost mut words: Seq<Seq<char>> = seq![];
    if data.is_secure {
        r.append("Secure");
        proof {
            words = words.push("Secure"@);
        }
        assert(r@ =~= join_comma(words));
    }
    if data.is_dedicated {
        if r.as_str().unicode_len() > 0 {
            r.append(", ");
        }
        r.append("Dedicated");
        proof {
            assert(words.push("Dedicated"@).drop_last() =~= words);
            words = words.push("Dedicated"@);
        }
        assert(r@ =~= join_comma(words));
    }
    if data.is_public {
        if r.as_str().unicode_len() > 0 {
            r.append(", ");
        }
        r.append("Public");
        proof {
            assert(words.push("Public"@).drop_last() =~= words);
            words = words.push("Public"@);
        }
        assert(r@ =~= join_comma(words));
    }
    assert(words =~= spec_flags(*data));
    r
}

/// A line of a panel that is shown only when the value is known.
pub open spec fn opt_row(label: Seq<char>, value: Option<Seq<char>>) -> Seq<(Seq<char>, Seq<char>)> {
    match value {
        Some(v) => seq![(label, v)],
        None => seq![],
    }
}

/// The lines of the server view's general panel, as (label, value) pairs:
/// status, address and protocol; the game, its directory and the map when
/// known; the players; the OS and version when known; the flags when there
/// are any; and when the data was refreshed (`updated`).
pub open spec fn spec_general_rows(
    server: Server,
    data: ServerData,
    status: ServerStatus,
    updated: Seq<char>,
) -> Seq<(Seq<char>, Seq<char>)> {
    let flags = spec_flags(data);
    seq![
        ("Status"@, status.spec_text()),
        ("Address"@, addr_text(server.ip@, server.port)),
        ("Query"@, spec_query_text(server)),
    ] + opt_row("Game"@, opt_view(data.game_name)) + opt_row(
        "Game Dir"@,
        opt_view(data.game_dir),
    ) + opt_row("Map"@, opt_view(data.map_name)) + seq![("Players"@, spec_players_text(data))]
        + opt_row("OS"@, opt_view(data.os)) + opt_row("Version"@, opt_view(data.version)) + (
    if flags.len() > 0 {
        seq![("Flags"@, join_comma(flags))]
    } else {
        seq![]
    }) + seq![("Updated"@, updated)]
}

/// The texts of a list of (label, value) lines.
pub open spec fn rows_view(rows: Seq<(&'static str, String)>) -> Seq<(Seq<char>, Seq<char>)> {
    rows.map_values(|p: (&'static str, String)| (p.0@, p.1@))
}

fn push_row(rows: &mut Vec<(&'static str, String)>, label: &'static str, value: String)
    ensures
        rows_view(final(rows)@) == rows_view(old(rows)@).push((label@, value@)),
{
    rows.push((label, value));
    assert(rows_view(rows@) =~= rows_view(old(rows)@).push((label@, value@)));
}

fn push_opt_row(rows: &mut Vec<(&'static str, String)>, label: &'static str, value: &Option<String>)
    ensures
        rows_view(final(rows)@) == rows_view(old(rows)@) + opt_row(label@, opt_view(*value)),
{
    match value {
        Some(v) => push_row(rows, label, v.clone()),
        None => {
            assert(rows_view(rows@) =~= rows_view(old(rows)@) + opt_row(label@, opt_view(*value)));
        },
    }
}

/// The lines of the server view's general panel; `updated` is the text of
/// when the data was last refreshed.
pub fn general_rows(server: &Server, data: &ServerData, status: ServerStatus, updated: String) -> (r:
    Vec<(&'static str, String)>)
    ensures
        rows_view(r@) == spec_general_rows(*server, *data, status, updated@),
{
    proof {
        reveal_strlit("Secure");
        reveal_strlit("Dedicated");
        reveal_strlit("Public");
    }
    let mut rows: Vec<(&'static str, String)> = Vec::new();
    assert(rows_view(rows@) =~= seq![]);
    push_row(&mut rows, "Status", status.text());
    push_row(&mut rows, "Address", server.to_addr());
    push_row(&mut rows, "Query", query_text(server));
    let ghost head = rows_view(rows@);
    push_opt_row(&mut rows, "Game", &data.game_name);
    push_opt_row(&mut rows, "Game Dir", &data.game_dir);
    push_opt_row(&mut rows, "Map", &data.map_name);
    push_row(&mut rows, "Players", players_text(data));
    push_opt_row(&mut rows, "OS", &data.os);
    push_opt_row(&mut rows, "Version", &data.version);
    let ghost before_flags = rows_view(rows@);
    if data.is_secure || data.is_dedicated || data.is_public {
        push_row(&mut rows, "Flags", flags_text(data));
    }
    assert(spec_flags(*data).len() > 0 <==> (data.is_secure || data.is_dedicated
        || data.is_public));
    push_row(&mut rows, "Updated", updated);
    assert(rows_view(rows@) =~= spec_general_rows(*server, *data, status, updated@));
    rows
}

pub open spec fn spec_format_duration(seconds: u64) -> Seq<char> {
    let h = seconds / 3600;
    let m = (seconds % 3600) / 60;
    let s = seconds % 60;
    if h > 0 {
        decimal_pad2(h as nat) + ":"@ + decimal_pad2(m as nat) + ":"@ + decimal_pad2(s as nat)
    } else {
        decimal_pad2(m as nat) + ":"@ + decimal_pad2(s as nat)
    }
}

/// A connection time as `hh:mm:ss`, or `mm:ss` under an hour.
pub fn format_duration(seconds: u64) -> (r: String)
    ensures
        r@ == spec_format_duration(seconds),
{
    proof {
        reveal_strlit(":");
    }
    let h = seconds / 3600;
    let m = (seconds % 3600) / 60;
    let s = seconds % 60;
    let mut r = String::new();
    if h > 0 {
        push_decimal_pad2(&mut r, h);
        string_push(&mut r, ':');
    }
    push_decimal_pad2(&mut r, m);
    string_push(&mut r, ':');
    push_decimal_pad2(&mut r, s);
    assert(r@ =~= spec_format_duration(seconds));
    r
}

pub open spec fn spec_format_elapsed(now_ms: u64, last_updated: u64) -> Seq<char> {
    let ago: int = if now_ms > last_updated { now_ms - last_updated } else { 0 };
    let secs = ago / 1000;
    if secs < 60 {
        decimal(secs as nat) + "s ago"@
    } else if secs < 3600 {
        decimal((secs / 60) as nat) + "m ago"@
    } else if secs < 86400 {
        decimal((secs / 3600) as nat) + "h ago"@
    } else {
        decimal((secs / 86400) as nat) + "d ago"@
    }
}

/// How long before `now_ms` the data was refreshed, in the largest whole
/// unit: seconds, minutes, hours or days.
pub fn format_elapsed(now_ms: u64, last_updated: u64) -> (r: String)
    ensures
        r@ == spec_format_elapsed(now_ms, last_updated),
{
    let ago = if now_ms > last_updated {
        now_ms - last_updated
    } else {
        0
    };
    let secs = ago / 1000;
    let mut r = String::new();
    if secs < 60 {
        push_decimal(&mut r, secs);
        r.append("s ago");
    } else if secs < 3600 {
        push_decimal(&mut r, secs / 60);
        r.append("m ago");
    } else if secs < 86400 {
        push_decimal(&mut r, secs / 3600);
        r.append("h ago");
    } else {
        push_decimal(&mut r, secs / 86400);
        r.append("d ago");
    }
    r
}

/// How long before `now_ms` (milliseconds since the Unix epoch) the data
/// was refreshed; `Unknown` when it never was.
pub fn format_last_updated(last_updated: Option<u64>, now_ms: u64) -> (r: String)
    ensures
        last_updated is None ==> r@ == "Unknown"@,
        last_updated matches Some(t) ==> r@ == spec_format_elapsed(now_ms, t),
{
    match last_updated {
        None => String::from_str("Unknown"),
        Some(t) => format_elapsed(now_ms, t),
    }
}

pub open spec fn spec_latency_type_label(t: ServerLatencyType) -> Seq<char> {
    match t {
        ServerLatencyType::SelfInfo => "Self Info"@,
        ServerLatencyType::SelfUsers => "Self Users"@,
        ServerLatencyType::SelfVars => "Self Vars"@,
        ServerLatencyType::A2sInfo => "A2S Info"@,
        ServerLatencyType::A2sPlayers => "A2S Players"@,
        ServerLatencyType::A2sRules => "A2S Rules"@,
        ServerLatencyType::Icmp => "ICMP"@,
    }
}

/// The latency method as the latency panel names it.
pub fn latency_type_label(t: &ServerLatencyType) -> (r: &'static str)
    ensures
        r@ == spec_latency_type_label(*t),
{
    match t {
        ServerLatencyType::SelfInfo => "Self Info",
        ServerLatencyType::SelfUsers => "Self Users",
        ServerLatencyType::SelfVars => "Self Vars",
        ServerLatencyType::A2sInfo => "A2S Info",
        ServerLatencyType::A2sPlayers => "A2S Players",
        ServerLatencyType::A2sRules => "A2S Rules",
        ServerLatencyType::Icmp => "ICMP",
    }
}

/// A word with its first letter in upper case.
pub open spec fn capitalized(w: Seq<char>) -> Seq<char> {
    if w.len() > 0 && 'a' <= w[0] && w[0] <= 'z' {
        seq![((w[0] as int) - 32) as char] + w.skip(1)
    } else {
        w
    }
}

/// What an A2S query asks for, by the request that asks it: `info` is
/// `A2S_INFO`, `users` is `A2S_PLAYER` and `vars` is `A2S_RULES`.
pub open spec fn a2s_request_word(kind: Seq<char>) -> Seq<char> {
    if kind == "info"@ {
        "Info"@
    } else if kind == "users"@ {
        "Players"@
    } else if kind == "vars"@ {
        "Rules"@
    } else {
        kind
    }
}

/// The label a latency method's name calls for: `self-<kind>` is "Self"
/// and the kind, `query-<kind>` is "A2S" and the request that asks for the
/// kind, and `icmp` is "ICMP".
pub open spec fn latency_label_of_name(name: Seq<char>) -> Seq<char> {
    if name == "icmp"@ {
        "ICMP"@
    } else if name.len() > 5 && name.take(5) == "self-"@ {
        "Self "@ + capitalized(name.skip(5))
    } else if name.len() > 6 && name.take(6) == "query-"@ {
        "A2S "@ + a2s_request_word(name.skip(6))
    } else {
        name
    }
}

/// The latency panel names the method that measured the latency: its label
/// is the one its name (as given with `--latency-type`) calls for.
pub proof fn lemma_latency_label_names_method(t: ServerLatencyType)
    ensures
        spec_latency_type_label(t) == latency_label_of_name(t.spec_name()),
{
    reveal_strlit("self-info");
    reveal_strlit("self-users");
    reveal_strlit("self-vars");
    reveal_strlit("query-info");
    reveal_strlit("query-users");
    reveal_strlit("query-vars");
    reveal_strlit("icmp");
    reveal_strlit("self-");
    reveal_strlit("query-");
    reveal_strlit("info");
    reveal_strlit("users");
    reveal_strlit("vars");
    reveal_strlit("Self ");
    reveal_strlit("A2S ");
    reveal_strlit("Info");
    reveal_strlit("Players");
    reveal_strlit("Rules");
    reveal_strlit("ICMP");
    reveal_strlit("Self Info");
    reveal_strlit("Self Users");
    reveal_strlit("Self Vars");
    reveal_strlit("A2S Info");
    reveal_strlit("A2S Players");
    reveal_strlit("A2S Rules");
    match t {
        ServerLatencyType::SelfInfo => {
            assert("self-info"@.take(5) =~= "self-"@);
            assert("self-info"@.skip(5) =~= "info"@);
            assert("Self "@ + capitalized("info"@) =~= "Self Info"@);
        },
        ServerLatencyType::SelfUsers => {
            assert("self-users"@.take(5) =~= "self-"@);
            assert("self-users"@.skip(5) =~= "users"@);
            assert("Self "@ + capitalized("users"@) =~= "Self Users"@);
        },
        ServerLatencyType::SelfVars => {
            assert("self-vars"@.take(5) =~= "self-"@);
            assert("self-vars"@.skip(5) =~= "vars"@);
            assert("Self "@ + capitalized("vars"@) =~= "Self Vars"@);
        },
        ServerLatencyType::A2sInfo => {
            assert("query-info"@.len() > 6 && "icmp"@.len() == 4);
            assert("query-info"@.take(5)[0] != "self-"@[0]);
            assert("query-info"@.take(6) =~= "query-"@);
            assert("query-info"@.skip(6) =~= "info"@);
            assert("A2S "@ + "Info"@ =~= "A2S Info"@);
        },
        ServerLatencyType::A2sPlayers => {
            assert("query-users"@.len() > 6 && "icmp"@.len() == 4);
            assert("query-users"@.take(5)[0] != "self-"@[0]);
            assert("query-users"@.take(6) =~= "query-"@);
            assert("query-users"@.skip(6) =~= "users"@);
            assert("users"@ != "info"@);
            assert("A2S "@ + "Players"@ =~= "A2S Players"@);
        },
        ServerLatencyType::A2sRules => {
            assert("query-vars"@.len() > 6 && "icmp"@.len() == 4);
            assert("query-vars"@.take(5)[0] != "self-"@[0]);
            assert("query-vars"@.take(6) =~= "query-"@);
            assert("query-vars"@.skip(6) =~= "vars"@);
            assert("vars"@ != "info"@);
            assert("vars"@ != "users"@);
            assert("A2S "@ + "Rules"@ =~= "A2S Rules"@);
        },
        ServerLatencyType::Icmp => {},
    }
}

/// Where a user goes in a list ordered by score, highest first: after every
/// user with at least its score.
pub open spec fn score_insert_pos(s: Seq<ServerUser>, x: ServerUser) -> int
    decreases s.len(),
{
    if s.len() == 0 {
        0
    } else if s[0].score < x.score {
        0
    } else {
        1 + score_insert_pos(s.drop_first(), x)
    }
}

pub open spec fn insert_by_score(s: Seq<ServerUser>, x: ServerUser) -> Seq<ServerUser> {
    let p = score_insert_pos(s, x);
    s.take(p) + seq![x] + s.skip(p)
}

/// Users ordered by score, highest first, users with equal scores in the
/// order they came in (what a stable sort gives).
pub open spec fn sorted_by_score(s: Seq<ServerUser>) -> Seq<ServerUser>
    decreases s.len(),
{
    if s.len() == 0 {
        s
    } else {
        insert_by_score(sorted_by_score(s.drop_last()), s.last())
    }
}

pub open spec fn scores_descending(s: Seq<ServerUser>) -> bool {
    forall|i: int, j: int| 0 <= i < j < s.len() ==> s[i].score >= s[j].score
}

proof fn lemma_score_insert_pos(s: Seq<ServerUser>, x: ServerUser)
    ensures
        0 <= score_insert_pos(s, x) <= s.len(),
        forall|k: int| 0 <= k < score_insert_pos(s, x) ==> s[k].score >= x.score,
        score_insert_pos(s, x) < s.len() ==> s[score_insert_pos(s, x)].score < x.score,
    decreases s.len(),
{
    if s.len() > 0 && s[0].score >= x.score {
        lemma_score_insert_pos(s.drop_first(), x);
        assert forall|k: int| 0 <= k < score_insert_pos(s, x) implies s[k].score >= x.score by {
            if k > 0 {
                assert(s[k] == s.drop_first()[k - 1]);
            }
        }
    }
}

proof fn lemma_score_insert_pos_unique(s: Seq<ServerUser>, x: ServerUser, p: int)
    requires
        0 <= p <= s.len(),
        forall|k: int| 0 <= k < p ==> s[k].score >= x.score,
        p < s.len() ==> s[p].score < x.score,
    ensures
        score_insert_pos(s, x) == p,
    decreases s.len(),
{
    if s.len() > 0 && p > 0 {
        lemma_score_insert_pos_unique(s.drop_first(), x, p - 1);
    }
}

proof fn lemma_insert_keeps_order(s: Seq<ServerUser>, x: ServerUser)
    requires
        scores_descending(s),
    ensures
        scores_descending(insert_by_score(s, x)),
        insert_by_score(s, x).len() == s.len() + 1,
{
    lemma_score_insert_pos(s, x);
    let p = score_insert_pos(s, x);
    let r = insert_by_score(s, x);
    assert(r.len() == s.len() + 1);
    assert forall|i: int, j: int| 0 <= i < j < r.len() implies r[i].score >= r[j].score by {
        if i < p {
            assert(r[i] == s[i]);
        } else if i == p {
            assert(r[i] == x);
            assert(r[j] == s[j - 1]);
            assert(s[j - 1].score <= s[p].score);
        } else {
            assert(r[i] == s[i - 1]);
        }
        if j < p {
            assert(r[j] == s[j]);
        } else if j == p {
            assert(r[j] == x);
        } else {
            assert(r[j] == s[j - 1]);
        }
    }
}

/// The scoreboard order lists every user once, highest score first.
pub proof fn lemma_sorted_by_score(s: Seq<ServerUser>)
    ensures
        scores_descending(sorted_by_score(s)),
        sorted_by_score(s).len() == s.len(),
        sorted_by_score(s).to_multiset() =~= s.to_multiset(),
    decreases s.len(),
{
    if s.len() > 0 {
        let rest = sorted_by_score(s.drop_last());
        lemma_sorted_by_score(s.drop_last());
        lemma_insert_keeps_order(rest, s.last());
        let p = score_insert_pos(rest, s.last());
        lemma_score_insert_pos(rest, s.last());
        vstd::seq_lib::lemma_multiset_commutative(rest.take(p) + seq![s.last()], rest.skip(p));
        vstd::seq_lib::lemma_multiset_commutative(rest.take(p), seq![s.last()]);
        vstd::seq_lib::lemma_multiset_commutative(rest.take(p), rest.skip(p));
        assert(rest.take(p) + rest.skip(p) =~= rest);
        vstd::seq_lib::lemma_multiset_commutative(s.drop_last(), seq![s.last()]);
        assert(s.drop_last() + seq![s.last()] =~= s);
    }
}

/// A sequence none of whose elements satisfies `pred` filters to nothing.
proof fn lemma_filter_none<A>(s: Seq<A>, pred: spec_fn(A) -> bool)
    requires
        forall|i: int| 0 <= i < s.len() ==> !pred(#[trigger] s[i]),
    ensures
        s.filter(pred) =~= Seq::<A>::empty(),
    decreases s.len(),
{
    reveal(Seq::filter);
    if s.len() > 0 {
        lemma_filter_none(s.drop_last(), pred);
        assert(!pred(s[s.len() - 1]));
    }
}

/// Whether a user has the score.
pub open spec fn score_is(k: i64) -> spec_fn(ServerUser) -> bool {
    |u: ServerUser| u.score == k
}

/// The users with a score, in their order.
pub open spec fn users_with_score(s: Seq<ServerUser>, k: i64) -> Seq<ServerUser> {
    s.filter(score_is(k))
}

/// The scoreboard order is stable: for every score, the users with that
/// score come out in the order they came in.
pub proof fn lemma_sorted_by_score_stable(s: Seq<ServerUser>, k: i64)
    ensures
        users_with_score(sorted_by_score(s), k) == users_with_score(s, k),
    decreases s.len(),
{
    let pred = score_is(k);
    if s.len() > 0 {
        let x = s.last();
        let rest = sorted_by_score(s.drop_last());
        lemma_sorted_by_score_stable(s.drop_last(), k);
        lemma_sorted_by_score(s.drop_last());
        lemma_score_insert_pos(rest, x);
        let p = score_insert_pos(rest, x);
        let front = rest.take(p);
        let back = rest.skip(p);
        Seq::filter_distributes_over_add(front + seq![x], back, pred);
        Seq::filter_distributes_over_add(front, seq![x], pred);
        Seq::filter_distributes_over_add(front, back, pred);
        assert(front + back =~= rest);
        s.drop_last().lemma_filter_push(x, pred);
        assert(s.drop_last().push(x) =~= s);
        reveal_with_fuel(Seq::filter, 2);
        assert(seq![x].drop_last() =~= Seq::<ServerUser>::empty());
        if x.score == k {
            assert forall|i: int| 0 <= i < back.len() implies !pred(#[trigger] back[i]) by {
                assert(back[i] == rest[p + i]);
                assert(rest[p].score < x.score);
            }
            lemma_filter_none(back, pred);
            assert(front.filter(pred) + seq![x].filter(pred) + back.filter(pred) =~= rest.filter(
                pred,
            ).push(x));
        } else {
            assert(front.filter(pred) + seq![x].filter(pred) + back.filter(pred) =~= rest.filter(
                pred,
            ));
        }
    }
}

/// The users in scoreboard order: highest score first, ties in the order
/// they came in.
pub fn sort_users_by_score(users: &Vec<ServerUser>) -> (r: Vec<ServerUser>)
    ensures
        r@ == sorted_by_score(users@),
        scores_descending(r@),
        r@.to_multiset() == users@.to_multiset(),
        forall|k: i64| #[trigger] users_with_score(r@, k) == users_with_score(users@, k),
{
    proof {
        lemma_sorted_by_score(users@);
        assert forall|k: i64| #[trigger] users_with_score(sorted_by_score(users@), k)
            == users_with_score(users@, k) by {
            lemma_sorted_by_score_stable(users@, k);
        }
    }
    let mut out: Vec<ServerUser> = Vec::new();
    let mut i: usize = 0;
    while i < users.len()
        invariant
            i <= users@.len(),
            out@ == sorted_by_score(users@.take(i as int)),
        decreases users@.len() - i,
    {
        let x = users[i].clone();
        let mut p: usize = 0;
        while p < out.len() && out[p].score >= x.score
            invariant
                p <= out@.len(),
                forall|k: int| 0 <= k < p ==> out@[k].score >= x.score,
            decreases out@.len() - p,
        {
            p = p + 1;
        }
        proof {
            lemma_score_insert_pos_unique(out@, x, p as int);
            assert(users@.take(i + 1).drop_last() =~= users@.take(i as int));
        }
        let ghost before = out@;
        out.insert(p, x);
        assert(out@ =~= insert_by_score(before, x));
        i = i + 1;
    }
    assert(users@.take(users@.len() as int) =~= users@);
    out
}

/// Whether any user has a known ping, and whether any has a connection
/// time; the scoreboard shows those columns only then.
pub fn user_columns(users: &Vec<ServerUser>) -> (r: (bool, bool))
    ensures
        r.0 == exists|i: int| 0 <= i < users@.len() && (#[trigger] users@[i]).ping is Some,
        r.1 == exists|i: int| 0 <= i < users@.len() && (#[trigger] users@[i]).duration > 0,
{
    let mut has_ping = false;
    let mut has_duration = false;
    let mut i: usize = 0;
    while i < users.len()
        invariant
            i <= users@.len(),
            has_ping == exists|k: int| 0 <= k < i && (#[trigger] users@[k]).ping is Some,
            has_duration == exists|k: int| 0 <= k < i && (#[trigger] users@[k]).duration > 0,
        decreases users@.len() - i,
    {
        if users[i].ping.is_some() {
            has_ping = true;
        }
        if users[i].duration > 0 {
            has_duration = true;
        }
        i = i + 1;
    }
    (has_ping, has_duration)
}

/// A user's ping as shown, `-` when unknown.
pub fn ping_text(ping: Option<u32>) -> (r: String)
    ensures
        match ping {
            Some(p) => r@ == decimal(p as nat),
            None => r@ == "-"@,
        },
{
    match ping {
        Some(p) => crate::text::decimal_string(p as u64),
        None => String::from_str("-"),
    }
}

/// The most recent `n` samples of a latency history, oldest first.
pub fn last_samples(history: &Vec<ServerLatency>, n: usize) -> (r: Vec<ServerLatency>)
    ensures
        r@ == history@.skip(if history@.len() > n { history@.len() - n } else { 0 }),
{
    let start = if history.len() > n {
        history.len() - n
    } else {
        0
    };
    let mut r: Vec<ServerLatency> = Vec::new();
    let mut i: usize = start;
    while i < history.len()
        invariant
            start <= i <= history@.len(),
            r@ == history@.subrange(start as int, i as int),
        decreases history@.len() - i,
    {
        r.push(history[i]);
        i = i + 1;
        assert(r@ =~= history@.subrange(start as int, i as int));
    }
    assert(history@.subrange(start as int, history@.len() as int) =~= history@.skip(start as int));
    r
}

/// The largest answered latency among the samples, at least 1 (also when
/// none answered): the top of the graph's scale.
pub open spec fn spec_scale_max(samples: Seq<ServerLatency>) -> u64
    decreases samples.len(),
{
    if samples.len() == 0 {
        1
    } else {
        let rest = spec_scale_max(samples.drop_last());
        let x = samples.last();
        if x.online && x.val > rest {
            x.val
        } else {
            rest
        }
    }
}

pub fn scale_max(samples: &Vec<ServerLatency>) -> (r: u64)
    ensures
        r == spec_scale_max(samples@),
        r >= 1,
        forall|i: int| 0 <= i < samples@.len() && (#[trigger] samples@[i]).online ==> samples@[i].val <= r,
{
    let mut m: u64 = 1;
    let mut i: usize = 0;
    while i < samples.len()
        invariant
            i <= samples@.len(),
            m == spec_scale_max(samples@.take(i as int)),
            m >= 1,
            forall|k: int| 0 <= k < i && (#[trigger] samples@[k]).online ==> samples@[k].val <= m,
        decreases samples@.len() - i,
    {
        assert(samples@.take(i + 1).drop_last() =~= samples@.take(i as int));
        if samples[i].online && samples[i].val > m {
            m = samples[i].val;
        }
        i = i + 1;
    }
    assert(samples@.take(samples@.len() as int) =~= samples@);
    m
}

/// `val / max` of `steps` levels, rounded to the nearest level (halves
/// up); values above the scale get the top level.
pub open spec fn spec_scaled_level(val: u64, max: u64, steps: u64) -> int {
    if val >= max {
        steps as int
    } else {
        (2 * val * steps + max) / (2 * max as int)
    }
}

/// How many of `steps` levels a bar of latency `val` fills on a scale that
/// tops out at `max`: the sparkline uses 7 steps, the detail graph 8 per
/// row.
pub fn scaled_level(val: u64, max: u64, steps: u64) -> (r: u64)
    requires
        max >= 1,
        steps <= 0xffff_ffff,
    ensures
        r == spec_scaled_level(val, max, steps),
        r <= steps,
        val == 0 ==> r == 0,
{
    if val >= max {
        return steps;
    }
    let v = val as u128;
    let m = max as u128;
    let s = steps as u128;
    assert(v * s <= 0xffff_ffff_ffff_ffff * 0xffff_ffff) by (nonlinear_arith)
        requires
            v <= 0xffff_ffff_ffff_ffff,
            s <= 0xffff_ffff,
    ;
    let vs = v * s;
    assert(2 * vs + m == 2 * val * steps + max) by (nonlinear_arith)
        requires
            vs == v * s,
            v == val,
            s == steps,
            m == max,
    ;
    let q = (2 * vs + m) / (2 * m);
    assert(q <= s) by (nonlinear_arith)
        requires
            vs == v * s,
            q == (2 * vs + m) / (2 * m),
            v < m,
            m >= 1,
    ;
    assert(v == 0 ==> q == 0) by (nonlinear_arith)
        requires
            vs == v * s,
            q == (2 * vs + m) / (2 * m),
            m >= 1,
    ;
    q as u64
}

/// The fill of one cell of a bar that is `units` eighths high, for the
/// row `row` counted from the bottom: 0 (empty) to 8 (full).
pub open spec fn spec_cell_level(units: int, row: int) -> int {
    let start = row * 8;
    if units <= start {
        0
    } else if units - start < 8 {
        units - start
    } else {
        8
    }
}

/// The fill levels of one column of the detail graph, top row first: a
/// sample without an answer fills the whole column, an answer fills
/// `scaled_level(val, max, 8 * height)` eighths from the bottom.
pub fn graph_column(sample: ServerLatency, max: u64, height: u16) -> (r: Vec<u8>)
    requires
        max >= 1,
    ensures
        r@.len() == height,
        forall|y: int|
            0 <= y < height ==> (#[trigger] r@[y]) as int == (if sample.online {
                spec_cell_level(
                    spec_scaled_level(sample.val, max, (8 * height) as u64),
                    height - 1 - y,
                )
            } else {
                8
            }),
{
    let units: u64 = if sample.online {
        scaled_level(sample.val, max, 8 * (height as u64))
    } else {
        0
    };
    let mut r: Vec<u8> = Vec::new();
    let mut y: u16 = 0;
    while y < height
        invariant
            y <= height,
            r@.len() == y,
            units <= 8 * height,
            sample.online ==> units == spec_scaled_level(sample.val, max, (8 * height) as u64),
            forall|k: int|
                0 <= k < y ==> (#[trigger] r@[k]) as int == (if sample.online {
                    spec_cell_level(units as int, height - 1 - k)
                } else {
                    8
                }),
        decreases height - y,
    {
        let level: u8 = if !sample.online {
            8
        } else {
            let start: u64 = 8 * ((height - 1 - y) as u64);
            if units <= start {
                0
            } else if units - start < 8 {
                (units - start) as u8
            } else {
                8
            }
        };
        r.push(level);
        y = y + 1;
    }
    r
}

/// How a latency is judged: under 80 ms good, under 150 ms fair, else
/// poor.
#[derive(Debug, Clone, Copy, PartialEq, Eq, Structural)]
pub enum LatencyGrade {
    Good,
    Fair,
    Poor,
}

pub open spec fn spec_latency_grade(val: u64) -> LatencyGrade {
    if val < 80_000 {
        LatencyGrade::Good
    } else if val < 150_000 {
        LatencyGrade::Fair
    } else {
        LatencyGrade::Poor
    }
}

/// The grade of a latency of `val` microseconds.
pub fn latency_grade(val: u64) -> (r: LatencyGrade)
    ensures
        r == spec_latency_grade(val),
{
    if val < 80_000 {
        LatencyGrade::Good
    } else if val < 150_000 {
        LatencyGrade::Fair
    } else {
        LatencyGrade::Poor
    }
}

/// The counts and sums the latency panel's statistics are made from.
#[derive(Debug, Clone, Copy, PartialEq, Eq)]
pub struct LatencyTotals {
    /// All samples.
    pub total: usize,
    /// Samples without an answer.
    pub offline: usize,
    /// Samples with an answer.
    pub online: usize,
    /// The smallest and largest answered latency, when any answered.
    pub min: Option<u64>,
    pub max: Option<u64>,
    /// The sum of the answered latencies.
    pub sum: u128,
}

pub open spec fn spec_online_count(s: Seq<ServerLatency>) -> nat
    decreases s.len(),
{
    if s.len() == 0 {
        0
    } else {
        spec_online_count(s.drop_last()) + if s.last().online { 1nat } else { 0nat }
    }
}

pub open spec fn spec_online_sum(s: Seq<ServerLatency>) -> nat
    decreases s.len(),
{
    if s.len() == 0 {
        0
    } else {
        spec_online_sum(s.drop_last()) + if s.last().online { s.last().val as nat } else { 0nat }
    }
}

proof fn lemma_online_bounds(s: Seq<ServerLatency>)
    ensures
        spec_online_count(s) <= s.len(),
        spec_online_sum(s) <= spec_online_count(s) * 0xffff_ffff_ffff_ffff,
    decreases s.len(),
{
    if s.len() > 0 {
        lemma_online_bounds(s.drop_last());
    }
}

/// Totals over a latency history: how many samples, how many answered and
/// how many did not, the least and greatest answered latency and their sum.
pub fn latency_totals(history: &Vec<ServerLatency>) -> (r: LatencyTotals)
    ensures
        r.total == history@.len(),
        r.online == spec_online_count(history@),
        r.offline == history@.len() - spec_online_count(history@),
        r.sum == spec_online_sum(history@),
        r.min is None <==> r.online == 0,
        r.max is None <==> r.online == 0,
        r.min matches Some(lo) ==> (exists|i: int|
            0 <= i < history@.len() && (#[trigger] history@[i]).online && history@[i].val == lo)
            && (forall|i: int|
            0 <= i < history@.len() && (#[trigger] history@[i]).online ==> lo <= history@[i].val),
        r.max matches Some(hi) ==> (exists|i: int|
            0 <= i < history@.len() && (#[trigger] history@[i]).online && history@[i].val == hi)
            && (forall|i: int|
            0 <= i < history@.len() && (#[trigger] history@[i]).online ==> history@[i].val <= hi),
{
    let mut online: usize = 0;
    let mut sum: u128 = 0;
    let mut min: Option<u64> = None;
    let mut max: Option<u64> = None;
    let ghost mut min_at: int = 0;
    let ghost mut max_at: int = 0;
    let mut i: usize = 0;
    while i < history.len()
        invariant
            i <= history@.len(),
            online == spec_online_count(history@.take(i as int)),
            sum == spec_online_sum(history@.take(i as int)),
            online <= i,
            min is None <==> online == 0,
            max is None <==> online == 0,
            min is None ==> forall|k: int| 0 <= k < i ==> !(#[trigger] history@[k]).online,
            min matches Some(lo) ==> 0 <= min_at < i && history@[min_at].online
                && history@[min_at].val == lo && (forall|k: int|
                0 <= k < i && (#[trigger] history@[k]).online ==> lo <= history@[k].val),
            max matches Some(hi) ==> 0 <= max_at < i && history@[max_at].online
                && history@[max_at].val == hi && (forall|k: int|
                0 <= k < i && (#[trigger] history@[k]).online ==> history@[k].val <= hi),
        decreases history@.len() - i,
    {
        assert(history@.take(i + 1).drop_last() =~= history@.take(i as int));
        proof {
            lemma_online_bounds(history@.take(i as int));
            assert(sum <= (i as int) * 0xffff_ffff_ffff_ffff) by (nonlinear_arith)
                requires
                    sum <= online * 0xffff_ffff_ffff_ffff,
                    online <= i,
            ;
        }
        let x = history[i];
        let ghost old_min = min;
        let ghost old_max = max;
        if x.online {
            online = online + 1;
            sum = sum + x.val as u128;
            let new_min = match min {
                Some(lo) => x.val < lo,
                None => true,
            };
            if new_min {
                min = Some(x.val);
                proof {
                    min_at = i as int;
                }
            }
            let new_max = match max {
                Some(hi) => x.val > hi,
                None => true,
            };
            if new_max {
                max = Some(x.val);
                proof {
                    max_at = i as int;
                }
            }
        }
        proof {
            if let Some(lo) = min {
                assert forall|k: int|
                    0 <= k < i + 1 && (#[trigger] history@[k]).online implies lo
                    <= history@[k].val by {
                    if k < i {
                        if let Some(olo) = old_min {
                            assert(olo <= history@[k].val);
                        }
                    } else {
                        assert(history@[k] == x);
                    }
                }
            }
            if let Some(hi) = max {
                assert forall|k: int|
                    0 <= k < i + 1 && (#[trigger] history@[k]).online implies history@[k].val
                    <= hi by {
                    if k < i {
                        if let Some(ohi) = old_max {
                            assert(history@[k].val <= ohi);
                        }
                    } else {
                        assert(history@[k] == x);
                    }
                }
            }
        }
        i = i + 1;
    }
    assert(history@.take(history@.len() as int) =~= history@);
    assert(min matches Some(lo) ==> history@[min_at].val == lo);
    assert(max matches Some(hi) ==> history@[max_at].val == hi);
    LatencyTotals { total: history.len(), offline: history.len() - online, online, min, max, sum }
}

/// A server variable.
#[derive(Debug)]
pub struct ServerVar {
    pub name: String,
    pub value: String,
}

impl Clone for ServerVar {
    fn clone(&self) -> (r: Self)
        ensures
            r == *self,
    {
        ServerVar { name: self.name.clone(), value: self.value.clone() }
    }
}

/// `a` comes no later than `b` in the order of `str`'s comparison:
/// character by character, a prefix first.
pub open spec fn chars_le(a: Seq<char>, b: Seq<char>) -> bool
    decreases a.len(),
{
    if a.len() == 0 {
        true
    } else if b.len() == 0 {
        false
    } else if a[0] != b[0] {
        a[0] < b[0]
    } else {
        chars_le(a.drop_first(), b.drop_first())
    }
}

proof fn lemma_chars_le_total(a: Seq<char>, b: Seq<char>)
    ensures
        chars_le(a, b) || chars_le(b, a),
    decreases a.len(),
{
    if a.len() > 0 && b.len() > 0 && a[0] == b[0] {
        lemma_chars_le_total(a.drop_first(), b.drop_first());
    }
}

proof fn lemma_chars_le_trans(a: Seq<char>, b: Seq<char>, c: Seq<char>)
    requires
        chars_le(a, b),
        chars_le(b, c),
    ensures
        chars_le(a, c),
    decreases a.len(),
{
    if a.len() > 0 && b.len() > 0 && c.len() > 0 && a[0] == b[0] && b[0] == c[0] {
        lemma_chars_le_trans(a.drop_first(), b.drop_first(), c.drop_first());
    }
}

/// Compares two texts the way `str`'s ordering does.
pub fn str_le(a: &str, b: &str) -> (r: bool)
    ensures
        r == chars_le(a@, b@),
{
    let x = chars_of(a);
    let y = chars_of(b);
    let mut i: usize = 0;
    assert(a@.skip(0) =~= a@);
    assert(b@.skip(0) =~= b@);
    while i < x.len() && i < y.len() && x[i] == y[i]
        invariant
            x@ == a@,
            y@ == b@,
            i <= x@.len(),
            i <= y@.len(),
            chars_le(a@, b@) == chars_le(a@.skip(i as int), b@.skip(i as int)),
        decreases x@.len() - i,
    {
        assert(a@.skip(i as int).drop_first() =~= a@.skip(i + 1));
        assert(b@.skip(i as int).drop_first() =~= b@.skip(i + 1));
        i = i + 1;
    }
    if i == x.len() {
        true
    } else if i == y.len() {
        false
    } else {
        x[i] < y[i]
    }
}

/// Where a variable goes in a list ordered by name: after every variable
/// whose name comes no later.
pub open spec fn name_insert_pos(s: Seq<ServerVar>, x: ServerVar) -> int
    decreases s.len(),
{
    if s.len() == 0 {
        0
    } else if !chars_le(s[0].name@, x.name@) {
        0
    } else {
        1 + name_insert_pos(s.drop_first(), x)
    }
}

pub open spec fn insert_by_name(s: Seq<ServerVar>, x: ServerVar) -> Seq<ServerVar> {
    let p = name_insert_pos(s, x);
    s.take(p) + seq![x] + s.skip(p)
}

/// Variables ordered by name, equal names in the order they came in (what a
/// stable sort gives).
pub open spec fn sorted_by_name(s: Seq<ServerVar>) -> Seq<ServerVar>
    decreases s.len(),
{
    if s.len() == 0 {
        s
    } else {
        insert_by_name(sorted_by_name(s.drop_last()), s.last())
    }
}

pub open spec fn names_ascending(s: Seq<ServerVar>) -> bool {
    forall|i: int, j: int| 0 <= i < j < s.len() ==> chars_le(s[i].name@, s[j].name@)
}

proof fn lemma_name_insert_pos(s: Seq<ServerVar>, x: ServerVar)
    ensures
        0 <= name_insert_pos(s, x) <= s.len(),
        forall|k: int| 0 <= k < name_insert_pos(s, x) ==> chars_le(s[k].name@, x.name@),
        name_insert_pos(s, x) < s.len() ==> !chars_le(s[name_insert_pos(s, x)].name@, x.name@),
    decreases s.len(),
{
    if s.len() > 0 && chars_le(s[0].name@, x.name@) {
        lemma_name_insert_pos(s.drop_first(), x);
        assert forall|k: int| 0 <= k < name_insert_pos(s, x) implies chars_le(
            s[k].name@,
            x.name@,
        ) by {
            if k > 0 {
                assert(s[k] == s.drop_first()[k - 1]);
            }
        }
    }
}

proof fn lemma_name_insert_pos_unique(s: Seq<ServerVar>, x: ServerVar, p: int)
    requires
        0 <= p <= s.len(),
        forall|k: int| 0 <= k < p ==> chars_le(s[k].name@, x.name@),
        p < s.len() ==> !chars_le(s[p].name@, x.name@),
    ensures
        name_insert_pos(s, x) == p,
    decreases s.len(),
{
    if s.len() > 0 && p > 0 {
        lemma_name_insert_pos_unique(s.drop_first(), x, p - 1);
    }
}

proof fn lemma_insert_keeps_name_order(s: Seq<ServerVar>, x: ServerVar)
    requires
        names_ascending(s),
    ensures
        names_ascending(insert_by_name(s, x)),
        insert_by_name(s, x).len() == s.len() + 1,
{
    lemma_name_insert_pos(s, x);
    let p = name_insert_pos(s, x);
    let r = insert_by_name(s, x);
    assert forall|i: int, j: int| 0 <= i < j < r.len() implies chars_le(r[i].name@, r[j].name@) by {
        if i < p {
            assert(r[i] == s[i]);
        } else if i == p {
            assert(r[i] == x);
        } else {
            assert(r[i] == s[i - 1]);
        }
        if j < p {
            assert(r[j] == s[j]);
        } else if j == p {
            assert(r[j] == x);
        } else {
            assert(r[j] == s[j - 1]);
        }
        if i == p && j > p {
            lemma_chars_le_total(s[p].name@, x.name@);
            if j - 1 > p {
                lemma_chars_le_trans(x.name@, s[p].name@, s[j - 1].name@);
            }
        }
        if i < p && j == p {
        }
        if i < p && j > p {
            lemma_chars_le_total(s[p].name@, x.name@);
        }
    }
}

/// Name order lists every variable once, names ascending.
pub proof fn lemma_sorted_by_name(s: Seq<ServerVar>)
    ensures
        names_ascending(sorted_by_name(s)),
        sorted_by_name(s).len() == s.len(),
        sorted_by_name(s).to_multiset() =~= s.to_multiset(),
    decreases s.len(),
{
    if s.len() > 0 {
        let rest = sorted_by_name(s.drop_last());
        lemma_sorted_by_name(s.drop_last());
        lemma_insert_keeps_name_order(rest, s.last());
        let p = name_insert_pos(rest, s.last());
        lemma_name_insert_pos(rest, s.last());
        vstd::seq_lib::lemma_multiset_commutative(rest.take(p) + seq![s.last()], rest.skip(p));
        vstd::seq_lib::lemma_multiset_commutative(rest.take(p), seq![s.last()]);
        vstd::seq_lib::lemma_multiset_commutative(rest.take(p), rest.skip(p));
        assert(rest.take(p) + rest.skip(p) =~= rest);
        vstd::seq_lib::lemma_multiset_commutative(s.drop_last(), seq![s.last()]);
        assert(s.drop_last() + seq![s.last()] =~= s);
    }
}

proof fn lemma_chars_le_refl(a: Seq<char>)
    ensures
        chars_le(a, a),
    decreases a.len(),
{
    if a.len() > 0 {
        lemma_chars_le_refl(a.drop_first());
    }
}

/// Whether a variable has the name.
pub open spec fn name_is(n: Seq<char>) -> spec_fn(ServerVar) -> bool {
    |v: ServerVar| v.name@ == n
}

/// The variables with a name, in their order.
pub open spec fn vars_named(s: Seq<ServerVar>, n: Seq<char>) -> Seq<ServerVar> {
    s.filter(name_is(n))
}

/// The order by name is stable: for every name, the variables with that
/// name come out in the order they came in.
pub proof fn lemma_sorted_by_name_stable(s: Seq<ServerVar>, n: Seq<char>)
    ensures
        vars_named(sorted_by_name(s), n) == vars_named(s, n),
    decreases s.len(),
{
    let pred = name_is(n);
    if s.len() > 0 {
        let x = s.last();
        let rest = sorted_by_name(s.drop_last());
        lemma_sorted_by_name_stable(s.drop_last(), n);
        lemma_sorted_by_name(s.drop_last());
        lemma_name_insert_pos(rest, x);
        let p = name_insert_pos(rest, x);
        let front = rest.take(p);
        let back = rest.skip(p);
        Seq::filter_distributes_over_add(front + seq![x], back, pred);
        Seq::filter_distributes_over_add(front, seq![x], pred);
        Seq::filter_distributes_over_add(front, back, pred);
        assert(front + back =~= rest);
        s.drop_last().lemma_filter_push(x, pred);
        assert(s.drop_last().push(x) =~= s);
        reveal_with_fuel(Seq::filter, 2);
        assert(seq![x].drop_last() =~= Seq::<ServerVar>::empty());
        if x.name@ == n {
            lemma_chars_le_refl(x.name@);
            assert forall|i: int| 0 <= i < back.len() implies !pred(#[trigger] back[i]) by {
                assert(back[i] == rest[p + i]);
                if i > 0 {
                    assert(chars_le(rest[p].name@, rest[p + i].name@));
                }
            }
            lemma_filter_none(back, pred);
            assert(front.filter(pred) + seq![x].filter(pred) + back.filter(pred) =~= rest.filter(
                pred,
            ).push(x));
        } else {
            assert(front.filter(pred) + seq![x].filter(pred) + back.filter(pred) =~= rest.filter(
                pred,
            ));
        }
    }
}

/// The variables ordered by name, equal names in the order they came in.
pub fn sort_vars_by_name(vars: &Vec<ServerVar>) -> (r: Vec<ServerVar>)
    ensures
        r@ == sorted_by_name(vars@),
        names_ascending(r@),
        r@.to_multiset() == vars@.to_multiset(),
        forall|n: Seq<char>| #[trigger] vars_named(r@, n) == vars_named(vars@, n),
{
    proof {
        lemma_sorted_by_name(vars@);
        assert forall|n: Seq<char>| #[trigger] vars_named(sorted_by_name(vars@), n) == vars_named(
            vars@,
            n,
        ) by {
            lemma_sorted_by_name_stable(vars@, n);
        }
    }
    let mut out: Vec<ServerVar> = Vec::new();
    let mut i: usize = 0;
    while i < vars.len()
        invariant
            i <= vars@.len(),
            out@ == sorted_by_name(vars@.take(i as int)),
        decreases vars@.len() - i,
    {
        let x = vars[i].clone();
        let mut p: usize = 0;
        while p < out.len() && str_le(out[p].name.as_str(), x.name.as_str())
            invariant
                p <= out@.len(),
                forall|k: int| 0 <= k < p ==> chars_le(out@[k].name@, x.name@),
            decreases out@.len() - p,
        {
            p = p + 1;
        }
        proof {
            lemma_name_insert_pos_unique(out@, x, p as int);
            assert(vars@.take(i + 1).drop_last() =~= vars@.take(i as int));
        }
        let ghost before = out@;
        out.insert(p, x);
        assert(out@ =~= insert_by_name(before, x));
        i = i + 1;
    }
    assert(vars@.take(vars@.len() as int) =~= vars@);
    out
}

} // verus!
