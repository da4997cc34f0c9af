//! General settings, their defaults and the command-line overrides applied
//! on top of the stored values.
use vstd::prelude::*;
use crate::text::{
    chars_of, decimal, is_whitespace, text_is, lemma_parse_decimal, parse_unsigned, parse_unsigned_chars,
    push_decimal, string_of, string_push, trim, trim_chars,
};

verus! {

/// Severity of a log message.
#[derive(Debug, Clone, Copy, PartialEq, Eq, Structural, Hash)]
pub enum LogLevel {
    Trace,
    Debug,
    Info,
    Warn,
    Error,
    Fatal,
}

impl LogLevel {
    pub open spec fn spec_label(self) -> Seq<char> {
        match self {
            LogLevel::Trace => "TRACE"@,
            LogLevel::Debug => "DEBUG"@,
            LogLevel::Info => "INFO"@,
            LogLevel::Warn => "WARN"@,
            LogLevel::Error => "ERROR"@,
            LogLevel::Fatal => "FATAL"@,
        }
    }

    /// The level's name in capitals, as log lines show it.
    pub fn label(&self) -> (r: &'static str)
        ensures
            r@ == self.spec_label(),
    {
        match self {
            LogLevel::Trace => "TRACE",
            LogLevel::Debug => "DEBUG",
            LogLevel::Info => "INFO",
            LogLevel::Warn => "WARN",
            LogLevel::Error => "ERROR",
            LogLevel::Fatal => "FATAL",
        }
    }
}

impl LogLevel {
    pub open spec fn spec_name(self) -> Seq<char> {
        match self {
            LogLevel::Trace => "trace"@,
            LogLevel::Debug => "debug"@,
            LogLevel::Info => "info"@,
            LogLevel::Warn => "warn"@,
            LogLevel::Error => "error"@,
            LogLevel::Fatal => "fatal"@,
        }
    }

    /// The level's name as the command line and the store write it.
    pub fn name(&self) -> (r: &'static str)
        ensures
            r@ == self.spec_name(),
    {
        match self {
            LogLevel::Trace => "trace",
            LogLevel::Debug => "debug",
            LogLevel::Info => "info",
            LogLevel::Warn => "warn",
            LogLevel::Error => "error",
            LogLevel::Fatal => "fatal",
        }
    }
}

/// The level a name stands for, if it is one.
pub open spec fn spec_level_from_name(s: Seq<char>) -> Option<LogLevel> {
    if s == "trace"@ {
        Some(LogLevel::Trace)
    } else if s == "debug"@ {
        Some(LogLevel::Debug)
    } else if s == "info"@ {
        Some(LogLevel::Info)
    } else if s == "warn"@ {
        Some(LogLevel::Warn)
    } else if s == "error"@ {
        Some(LogLevel::Error)
    } else if s == "fatal"@ {
        Some(LogLevel::Fatal)
    } else {
        None
    }
}

/// The level a name stands for, if it is one.
pub fn level_from_name(v: &Vec<char>) -> (r: Option<LogLevel>)
    ensures
        r == spec_level_from_name(v@),
{
    if text_is(v, "trace") {
        Some(LogLevel::Trace)
    } else if text_is(v, "debug") {
        Some(LogLevel::Debug)
    } else if text_is(v, "info") {
        Some(LogLevel::Info)
    } else if text_is(v, "warn") {
        Some(LogLevel::Warn)
    } else if text_is(v, "error") {
        Some(LogLevel::Error)
    } else if text_is(v, "fatal") {
        Some(LogLevel::Fatal)
    } else {
        None
    }
}

/// The pieces of a text between its commas (one piece when it has none).
pub open spec fn split_commas(s: Seq<char>) -> Seq<Seq<char>>
    decreases s.len(),
{
    if s.len() == 0 {
        seq![Seq::empty()]
    } else {
        let init = split_commas(s.drop_last());
        if s.last() == ',' {
            init.push(Seq::empty())
        } else {
            init.update(init.len() - 1, init.last().push(s.last()))
        }
    }
}

/// The levels named by the pieces, each trimmed; pieces that name no level
/// are left out.
pub open spec fn levels_of(pieces: Seq<Seq<char>>) -> Seq<LogLevel>
    decreases pieces.len(),
{
    if pieces.len() == 0 {
        seq![]
    } else {
        let init = levels_of(pieces.drop_last());
        match spec_level_from_name(trim(pieces.last())) {
            Some(l) => init.push(l),
            None => init,
        }
    }
}

/// The levels of a comma-separated list such as `info,warn,error,fatal`.
pub open spec fn spec_parse_log_levels(s: Seq<char>) -> Seq<LogLevel> {
    levels_of(split_commas(s))
}

/// The names of levels joined with commas.
pub open spec fn join_levels(ls: Seq<LogLevel>) -> Seq<char>
    decreases ls.len(),
{
    if ls.len() == 0 {
        seq![]
    } else if ls.len() == 1 {
        ls[0].spec_name()
    } else {
        join_levels(ls.drop_last()) + seq![','] + ls.last().spec_name()
    }
}

proof fn lemma_split_len(s: Seq<char>)
    ensures
        split_commas(s).len() >= 1,
    decreases s.len(),
{
    if s.len() > 0 {
        lemma_split_len(s.drop_last());
    }
}

/// The levels named in a comma-separated list; names are trimmed and
/// unknown names skipped.
pub fn parse_log_levels(text: &str) -> (r: Vec<LogLevel>)
    ensures
        r@ == spec_parse_log_levels(text@),
{
    let v = chars_of(text);
    let mut out: Vec<LogLevel> = Vec::new();
    let mut cur: Vec<char> = Vec::new();
    let ghost mut done: Seq<Seq<char>> = seq![];
    let mut i: usize = 0;
    assert(v@.take(0) =~= Seq::<char>::empty());
    while i < v.len()
        invariant
            i <= v@.len(),
            v@ == text@,
            split_commas(v@.take(i as int)) == done.push(cur@),
            out@ == levels_of(done),
        decreases v@.len() - i,
    {
        let c = v[i];
        proof {
            lemma_split_len(v@.take(i as int));
            assert(v@.take(i + 1).drop_last() =~= v@.take(i as int));
        }
        if c == ',' {
            let piece = string_of(cur.as_slice());
            let t = trim_chars(piece.as_str());
            match level_from_name(&t) {
                Some(l) => out.push(l),
                None => {},
            }
            proof {
                assert(done.push(cur@).drop_last() =~= done);
                done = done.push(cur@);
            }
            cur = Vec::new();
        } else {
            cur.push(c);
            assert(split_commas(v@.take(i + 1)) =~= done.push(cur@));
        }
        i = i + 1;
    }
    assert(v@.take(v@.len() as int) =~= v@);
    let piece = string_of(cur.as_slice());
    let t = trim_chars(piece.as_str());
    proof {
        assert(done.push(cur@).drop_last() =~= done);
    }
    match level_from_name(&t) {
        Some(l) => out.push(l),
        None => {},
    }
    out
}

/// The levels' names joined with commas.
pub fn format_log_levels(levels: &Vec<LogLevel>) -> (r: String)
    ensures
        r@ == join_levels(levels@),
{
    let mut r = String::new();
    let mut i: usize = 0;
    assert(levels@.take(0) =~= Seq::<LogLevel>::empty());
    while i < levels.len()
        invariant
            i <= levels@.len(),
            r@ == join_levels(levels@.take(i as int)),
        decreases levels@.len() - i,
    {
        let ghost before = r@;
        if i > 0 {
            string_push(&mut r, ',');
        }
        r.append(levels[i].name());
        proof {
            assert(levels@.take(i + 1).drop_last() =~= levels@.take(i as int));
            assert(levels@.take(i + 1).last() == levels@[i as int]);
            if i == 0 {
                assert(r@ =~= levels@[0].spec_name());
            } else {
                assert(r@ =~= before + seq![','] + levels@[i as int].spec_name());
            }
        }
        i = i + 1;
    }
    assert(levels@.take(levels@.len() as int) =~= levels@);
    r
}

/// What a level's name is made of: no comma, nothing to trim, and it names
/// the level.
proof fn lemma_name_facts(l: LogLevel)
    ensures
        l.spec_name().len() > 0,
        forall|i: int| 0 <= i < l.spec_name().len() ==> l.spec_name()[i] != ',',
        trim(l.spec_name()) == l.spec_name(),
        spec_level_from_name(l.spec_name()) == Some(l),
{
    reveal_strlit("trace");
    reveal_strlit("debug");
    reveal_strlit("info");
    reveal_strlit("warn");
    reveal_strlit("error");
    reveal_strlit("fatal");
    let n = l.spec_name();
    assert(!is_whitespace(n[0]));
    assert(!is_whitespace(n.last()));
    assert(crate::text::trim_start(n) == n);
    assert(trim(n) == n);
}

proof fn lemma_split_without_comma(b: Seq<char>)
    requires
        forall|i: int| 0 <= i < b.len() ==> b[i] != ',',
    ensures
        split_commas(b) == seq![b],
    decreases b.len(),
{
    if b.len() > 0 {
        lemma_split_without_comma(b.drop_last());
        assert(b.drop_last().push(b.last()) =~= b);
        assert(seq![b.drop_last()].update(0, b) =~= seq![b]);
    } else {
        assert(b =~= Seq::<char>::empty());
    }
}

proof fn lemma_split_after_comma(x: Seq<char>, b: Seq<char>)
    requires
        forall|i: int| 0 <= i < b.len() ==> b[i] != ',',
    ensures
        split_commas(x + seq![','] + b) == split_commas(x).push(b),
    decreases b.len(),
{
    let s = x + seq![','] + b;
    if b.len() == 0 {
        assert(s.drop_last() =~= x);
        assert(b =~= Seq::<char>::empty());
    } else {
        lemma_split_after_comma(x, b.drop_last());
        assert(s.drop_last() =~= x + seq![','] + b.drop_last());
        assert(s.last() == b.last());
        assert(b.drop_last().push(b.last()) =~= b);
        assert(split_commas(x).push(b.drop_last()).update(split_commas(x).len() as int, b)
            =~= split_commas(x).push(b));
    }
}

/// The names of levels.
pub open spec fn level_names(ls: Seq<LogLevel>) -> Seq<Seq<char>> {
    ls.map_values(|l: LogLevel| l.spec_name())
}

proof fn lemma_split_join(ls: Seq<LogLevel>)
    requires
        ls.len() >= 1,
    ensures
        split_commas(join_levels(ls)) == level_names(ls),
    decreases ls.len(),
{
    lemma_name_facts(ls.last());
    if ls.len() == 1 {
        lemma_split_without_comma(ls[0].spec_name());
        assert(level_names(ls) =~= seq![ls[0].spec_name()]);
    } else {
        lemma_split_join(ls.drop_last());
        lemma_split_after_comma(join_levels(ls.drop_last()), ls.last().spec_name());
        assert(level_names(ls) =~= level_names(ls.drop_last()).push(ls.last().spec_name()));
    }
}

proof fn lemma_levels_of_names(ls: Seq<LogLevel>)
    ensures
        levels_of(level_names(ls)) == ls,
    decreases ls.len(),
{
    if ls.len() > 0 {
        lemma_levels_of_names(ls.drop_last());
        lemma_name_facts(ls.last());
        assert(level_names(ls).drop_last() =~= level_names(ls.drop_last()));
        assert(ls.drop_last().push(ls.last()) =~= ls);
    } else {
        assert(level_names(ls) =~= Seq::<Seq<char>>::empty());
    }
}

/// Reading back a written list of levels gives the same levels, in the
/// same order.
pub proof fn lemma_log_levels_round_trip(ls: Seq<LogLevel>)
    ensures
        spec_parse_log_levels(join_levels(ls)) == ls,
{
    if ls.len() == 0 {
        reveal_strlit("trace");
        reveal_strlit("debug");
        reveal_strlit("info");
        reveal_strlit("warn");
        reveal_strlit("error");
        reveal_strlit("fatal");
        let e = Seq::<char>::empty();
        assert(split_commas(e) == seq![e]);
        assert(seq![e].drop_last() =~= Seq::<Seq<char>>::empty());
        assert(trim(e) =~= e);
        assert(spec_level_from_name(e) is None);
        assert(join_levels(ls) =~= e);
        assert(levels_of(seq![e]) == levels_of(Seq::<Seq<char>>::empty()));
        assert(levels_of(Seq::<Seq<char>>::empty()) =~= Seq::<LogLevel>::empty());
        assert(ls =~= Seq::<LogLevel>::empty());
    } else {
        lemma_split_join(ls);
        lemma_levels_of_names(ls);
    }
}

/// Settings kept in the store.
#[derive(Debug)]
pub struct Settings {
    /// The levels of the messages that are logged.
    pub log_levels: Vec<LogLevel>,
    /// A file every message is written to as well.
    pub log_path: Option<String>,
    /// How many messages the log buffer keeps.
    pub log_max_buffer_size: usize,
    /// How often the terminal interface is redrawn, in milliseconds.
    pub tui_draw_interval: u64,
    /// How often user input is polled, in milliseconds.
    pub tui_input_poll_interval: u64,
}

pub open spec fn default_log_levels() -> Seq<LogLevel> {
    seq![LogLevel::Info, LogLevel::Warn, LogLevel::Error, LogLevel::Fatal]
}

pub(crate) fn copy_levels(v: &Vec<LogLevel>) -> (r: Vec<LogLevel>)
    ensures
        r@ == v@,
{
    let mut r: Vec<LogLevel> = Vec::new();
    let mut i: usize = 0;
    while i < v.len()
        invariant
            i <= v@.len(),
            r@ == v@.take(i as int),
        decreases v@.len() - i,
    {
        r.push(v[i]);
        i = i + 1;
        assert(r@ =~= v@.take(i as int));
    }
    assert(r@ =~= v@);
    r
}

impl Clone for Settings {
    fn clone(&self) -> (r: Self)
        ensures
            r.log_levels@ == self.log_levels@,
            r.log_path == self.log_path,
            r.log_max_buffer_size == self.log_max_buffer_size,
            r.tui_draw_interval == self.tui_draw_interval,
            r.tui_input_poll_interval == self.tui_input_poll_interval,
    {
        Settings {
            log_levels: copy_levels(&self.log_levels),
            log_path: crate::store::clone_opt_string(&self.log_path),
            log_max_buffer_size: self.log_max_buffer_size,
            tui_draw_interval: self.tui_draw_interval,
            tui_input_poll_interval: self.tui_input_poll_interval,
        }
    }
}

impl Default for Settings {
    fn default() -> (r: Self)
        ensures
            r.log_levels@ == default_log_levels(),
            r.log_path is None,
            r.log_max_buffer_size == 250,
            r.tui_draw_interval == 500,
            r.tui_input_poll_interval == 500,
    {
        let mut levels: Vec<LogLevel> = Vec::new();
        levels.push(LogLevel::Info);
        levels.push(LogLevel::Warn);
        levels.push(LogLevel::Error);
        levels.push(LogLevel::Fatal);
        assert(levels@ =~= default_log_levels());
        Settings {
            log_levels: levels,
            log_path: None,
            log_max_buffer_size: 250,
            tui_draw_interval: 500,
            tui_input_poll_interval: 500,
        }
    }
}

/// Settings given on the command line, which take precedence over the
/// stored ones.
#[derive(Debug, Default)]
pub struct SettingsOverrides {
    pub draw_interval: Option<u64>,
    pub input_poll_interval: Option<u64>,
    pub log_max_buffer_size: Option<usize>,
    pub log_path: Option<String>,
    pub log_levels: Option<Vec<LogLevel>>,
}

impl Settings {
    /// Replaces every setting that the command line gives.
    pub fn apply_overrides(&mut self, o: &SettingsOverrides)
        ensures
            final(self).tui_draw_interval == (match o.draw_interval {
                Some(v) => v,
                None => old(self).tui_draw_interval,
            }),
            final(self).tui_input_poll_interval == (match o.input_poll_interval {
                Some(v) => v,
                None => old(self).tui_input_poll_interval,
            }),
            final(self).log_max_buffer_size == (match o.log_max_buffer_size {
                Some(v) => v,
                None => old(self).log_max_buffer_size,
            }),
            final(self).log_path == (match o.log_path {
                Some(p) => Some(p),
                None => old(self).log_path,
            }),
            final(self).log_levels@ == (match o.log_levels {
                Some(l) => l@,
                None => old(self).log_levels@,
            }),
    {
        if let Some(v) = o.draw_interval {
            self.tui_draw_interval = v;
        }
        if let Some(v) = o.input_poll_interval {
            self.tui_input_poll_interval = v;
        }
        if let Some(v) = o.log_max_buffer_size {
            self.log_max_buffer_size = v;
        }
        if let Some(p) = &o.log_path {
            self.log_path = Some(p.clone());
        }
        if let Some(l) = &o.log_levels {
            self.log_levels = copy_levels(l);
        }
    }
}


/// Settings with their texts as character sequences.
pub struct SettingsView {
    pub log_levels: Seq<LogLevel>,
    pub log_path: Option<Seq<char>>,
    pub log_max_buffer_size: usize,
    pub tui_draw_interval: u64,
    pub tui_input_poll_interval: u64,
}

impl View for Settings {
    type V = SettingsView;

    open spec fn view(&self) -> SettingsView {
        SettingsView {
            log_levels: self.log_levels@,
            log_path: match self.log_path {
                Some(p) => Some(p@),
                None => None,
            },
            log_max_buffer_size: self.log_max_buffer_size,
            tui_draw_interval: self.tui_draw_interval,
            tui_input_poll_interval: self.tui_input_poll_interval,
        }
    }
}

/// The settings a store without any holds.
pub open spec fn default_settings() -> SettingsView {
    SettingsView {
        log_levels: default_log_levels(),
        log_path: None,
        log_max_buffer_size: 250,
        tui_draw_interval: 500,
        tui_input_poll_interval: 500,
    }
}

/// The key/value pairs settings are stored as: the levels as a
/// comma-separated list, the log file when there is one, and the numbers
/// in decimal.
pub open spec fn spec_settings_pairs(s: SettingsView) -> Seq<(Seq<char>, Seq<char>)> {
    seq![("log_levels"@, join_levels(s.log_levels))] + match s.log_path {
        Some(p) => seq![("log_path"@, p)],
        None => seq![],
    } + seq![
        ("log_max_buffer_size"@, decimal(s.log_max_buffer_size as nat)),
        ("tui_draw_interval"@, decimal(s.tui_draw_interval as nat)),
        ("tui_input_poll_interval"@, decimal(s.tui_input_poll_interval as nat)),
    ]
}

/// The texts of stored key/value pairs.
pub open spec fn pairs_view(pairs: Seq<(String, String)>) -> Seq<(Seq<char>, Seq<char>)> {
    pairs.map_values(|p: (String, String)| (p.0@, p.1@))
}

/// One stored pair applied to settings: a known key sets its setting, a
/// number that does not parse is refused with its key and value, and an
/// unknown key is ignored.
pub open spec fn apply_pair(s: SettingsView, key: Seq<char>, value: Seq<char>) -> Result<
    SettingsView,
    (Seq<char>, Seq<char>),
> {
    if key == "log_levels"@ {
        Ok(SettingsView { log_levels: spec_parse_log_levels(value), ..s })
    } else if key == "log_path"@ {
        Ok(SettingsView { log_path: Some(value), ..s })
    } else if key == "log_max_buffer_size"@ {
        match parse_unsigned(value, usize::MAX as int) {
            Some(n) => Ok(SettingsView { log_max_buffer_size: n as usize, ..s }),
            None => Err((key, value)),
        }
    } else if key == "tui_draw_interval"@ {
        match parse_unsigned(value, u64::MAX as int) {
            Some(n) => Ok(SettingsView { tui_draw_interval: n as u64, ..s }),
            None => Err((key, value)),
        }
    } else if key == "tui_input_poll_interval"@ {
        match parse_unsigned(value, u64::MAX as int) {
            Some(n) => Ok(SettingsView { tui_input_poll_interval: n as u64, ..s }),
            None => Err((key, value)),
        }
    } else {
        Ok(s)
    }
}

/// Settings read from stored pairs, in order, over the defaults.
pub open spec fn settings_from_pairs(pairs: Seq<(Seq<char>, Seq<char>)>) -> Result<
    SettingsView,
    (Seq<char>, Seq<char>),
>
    decreases pairs.len(),
{
    if pairs.len() == 0 {
        Ok(default_settings())
    } else {
        match settings_from_pairs(pairs.drop_last()) {
            Ok(s) => apply_pair(s, pairs.last().0, pairs.last().1),
            Err(e) => Err(e),
        }
    }
}

/// A stored setting that could not be read.
#[derive(Debug, PartialEq, Eq)]
pub enum SettingsError {
    /// The value of a numeric setting is not a number in range.
    InvalidNumber { key: String, value: String },
}

impl SettingsError {
    pub open spec fn spec_message(&self) -> Seq<char> {
        match self {
            SettingsError::InvalidNumber { key, value } => "Invalid value '"@ + value@
                + "' for setting '"@ + key@ + "'"@,
        }
    }

    /// The error's text.
    pub fn message(&self) -> (r: String)
        ensures
            r@ == self.spec_message(),
    {
        match self {
            SettingsError::InvalidNumber { key, value } => {
                let mut r = String::from_str("Invalid value '");
                r.append(value.as_str());
                r.append("' for setting '");
                r.append(key.as_str());
                r.append("'");
                r
            },
        }
    }
}

fn push_pair(pairs: &mut Vec<(String, String)>, key: &str, value: String)
    ensures
        pairs_view(final(pairs)@) == pairs_view(old(pairs)@).push((key@, value@)),
{
    pairs.push((String::from_str(key), value));
    assert(pairs_view(pairs@) =~= pairs_view(old(pairs)@).push((key@, value@)));
}

fn number_text(n: u64) -> (r: String)
    ensures
        r@ == decimal(n as nat),
{
    let mut r = String::new();
    push_decimal(&mut r, n);
    assert(r@ =~= decimal(n as nat));
    r
}

/// A stored number, or the error naming its key and value.
fn parse_number(key: &String, value: &String, max: u64) -> (r: Result<u64, SettingsError>)
    ensures
        match parse_unsigned(value@, max as int) {
            Some(n) => r matches Ok(m) && m as int == n,
            None => r matches Err(SettingsError::InvalidNumber { key: k, value: v }) && k@
                == key@ && v@ == value@,
        },
{
    let v = chars_of(value.as_str());
    match parse_unsigned_chars(v.as_slice(), max) {
        Some(n) => Ok(n),
        None => Err(SettingsError::InvalidNumber { key: key.clone(), value: value.clone() }),
    }
}

impl Settings {
    /// The settings as stored key/value pairs.
    pub fn to_map(&self) -> (r: Vec<(String, String)>)
        ensures
            pairs_view(r@) == spec_settings_pairs(self@),
    {
        let mut r: Vec<(String, String)> = Vec::new();
        assert(pairs_view(r@) =~= Seq::<(Seq<char>, Seq<char>)>::empty());
        push_pair(&mut r, "log_levels", format_log_levels(&self.log_levels));
        match &self.log_path {
            Some(p) => push_pair(&mut r, "log_path", p.clone()),
            None => {},
        }
        push_pair(&mut r, "log_max_buffer_size", number_text(self.log_max_buffer_size as u64));
        push_pair(&mut r, "tui_draw_interval", number_text(self.tui_draw_interval));
        push_pair(&mut r, "tui_input_poll_interval", number_text(self.tui_input_poll_interval));
        assert(pairs_view(r@) =~= spec_settings_pairs(self@));
        r
    }

    /// Applies one stored pair.
    fn apply_pair(&mut self, key: &String, value: &String) -> (r: Result<(), SettingsError>)
        ensures
            match apply_pair(old(self)@, key@, value@) {
                Ok(s) => r is Ok && final(self)@ == s,
                Err((k, v)) => r matches Err(SettingsError::InvalidNumber { key: ek, value: ev })
                    && ek@ == k && ev@ == v,
            },
    {
        assert(usize::MAX as u64 == usize::MAX);
        let k = chars_of(key.as_str());
        if text_is(&k, "log_levels") {
            self.log_levels = parse_log_levels(value.as_str());
        } else if text_is(&k, "log_path") {
            self.log_path = Some(value.clone());
        } else if text_is(&k, "log_max_buffer_size") {
            match parse_number(key, value, usize::MAX as u64) {
                Ok(n) => {
                    assert(n <= usize::MAX);
                    self.log_max_buffer_size = n as usize;
                },
                Err(e) => return Err(e),
            }
        } else if text_is(&k, "tui_draw_interval") {
            match parse_number(key, value, u64::MAX) {
                Ok(n) => self.tui_draw_interval = n,
                Err(e) => return Err(e),
            }
        } else if text_is(&k, "tui_input_poll_interval") {
            match parse_number(key, value, u64::MAX) {
                Ok(n) => self.tui_input_poll_interval = n,
                Err(e) => return Err(e),
            }
        }
        Ok(())
    }

    /// Settings read from stored key/value pairs, in order, over the
    /// defaults; unknown keys are ignored and a number that does not parse
    /// is an error. A later pair overrides an earlier one with the same
    /// key; the settings table holds each key once, so each known key
    /// takes the value stored for it.
    pub fn from_map(pairs: &Vec<(String, String)>) -> (r: Result<Settings, SettingsError>)
        ensures
            match settings_from_pairs(pairs_view(pairs@)) {
                Ok(v) => r matches Ok(s) && s@ == v,
                Err((k, v)) => r matches Err(SettingsError::InvalidNumber { key: ek, value: ev })
                    && ek@ == k && ev@ == v,
            },
    {
        let mut s = Settings::default();
        let mut i: usize = 0;
        assert(pairs_view(pairs@).take(0) =~= Seq::<(Seq<char>, Seq<char>)>::empty());
        assert(s@ =~= default_settings());
        while i < pairs.len()
            invariant
                i <= pairs@.len(),
                settings_from_pairs(pairs_view(pairs@).take(i as int)) == Ok::<
                    SettingsView,
                    (Seq<char>, Seq<char>),
                >(s@),
            decreases pairs@.len() - i,
        {
            proof {
                assert(pairs_view(pairs@).take(i + 1).drop_last() =~= pairs_view(pairs@).take(
                    i as int,
                ));
            }
            let ghost before = s@;
            match s.apply_pair(&pairs[i].0, &pairs[i].1) {
                Ok(()) => {},
                Err(e) => {
                    proof {
                        lemma_error_stays(pairs_view(pairs@), i as int + 1);
                        assert(pairs_view(pairs@).take(pairs@.len() as int) =~= pairs_view(pairs@));
                    }
                    return Err(e);
                },
            }
            i = i + 1;
        }
        assert(pairs_view(pairs@).take(pairs@.len() as int) =~= pairs_view(pairs@));
        Ok(s)
    }
}

/// Once a prefix of the pairs is refused, all of them are, with the same
/// error.
proof fn lemma_error_stays(pairs: Seq<(Seq<char>, Seq<char>)>, k: int)
    requires
        0 <= k <= pairs.len(),
        settings_from_pairs(pairs.take(k)) is Err,
    ensures
        settings_from_pairs(pairs) == settings_from_pairs(pairs.take(k)),
    decreases pairs.len() - k,
{
    if k < pairs.len() {
        assert(pairs.take(k + 1).drop_last() =~= pairs.take(k));
        lemma_error_stays(pairs, k + 1);
    } else {
        assert(pairs.take(k) =~= pairs);
    }
}

proof fn lemma_pairs_step(
    p: Seq<(Seq<char>, Seq<char>)>,
    k: int,
    before: SettingsView,
    after: SettingsView,
)
    requires
        0 <= k < p.len(),
        settings_from_pairs(p.take(k)) == Ok::<SettingsView, (Seq<char>, Seq<char>)>(before),
        apply_pair(before, p[k].0, p[k].1) == Ok::<SettingsView, (Seq<char>, Seq<char>)>(after),
    ensures
        settings_from_pairs(p.take(k + 1)) == Ok::<SettingsView, (Seq<char>, Seq<char>)>(after),
{
    assert(p.take(k + 1).drop_last() =~= p.take(k));
    assert(p.take(k + 1).last() == p[k]);
}

/// Storing settings and reading them back gives the same settings.
pub proof fn lemma_settings_map_round_trip(s: SettingsView)
    ensures
        settings_from_pairs(spec_settings_pairs(s)) == Ok::<SettingsView, (Seq<char>, Seq<char>)>(s),
{
    reveal_strlit("log_levels");
    reveal_strlit("log_path");
    reveal_strlit("log_max_buffer_size");
    reveal_strlit("tui_draw_interval");
    reveal_strlit("tui_input_poll_interval");
    assert("log_levels"@.len() == 10);
    assert("log_path"@.len() == 8);
    assert("log_max_buffer_size"@.len() == 19);
    assert("tui_draw_interval"@.len() == 17);
    assert("tui_input_poll_interval"@.len() == 23);
    lemma_log_levels_round_trip(s.log_levels);
    lemma_parse_decimal(s.log_max_buffer_size as nat, usize::MAX as int);
    lemma_parse_decimal(s.tui_draw_interval as nat, u64::MAX as int);
    lemma_parse_decimal(s.tui_input_poll_interval as nat, u64::MAX as int);
    let p = spec_settings_pairs(s);
    let d = default_settings();
    let s1 = SettingsView { log_levels: s.log_levels, ..d };
    let s2 = SettingsView { log_path: s.log_path, ..s1 };
    let s3 = SettingsView { log_max_buffer_size: s.log_max_buffer_size, ..s2 };
    let s4 = SettingsView { tui_draw_interval: s.tui_draw_interval, ..s3 };
    assert(p.take(0) =~= Seq::<(Seq<char>, Seq<char>)>::empty());
    assert(settings_from_pairs(p.take(0)) == Ok::<SettingsView, (Seq<char>, Seq<char>)>(d));
    assert(p[0] == ("log_levels"@, join_levels(s.log_levels)));
    assert(apply_pair(d, p[0].0, p[0].1) == Ok::<SettingsView, (Seq<char>, Seq<char>)>(s1));
    lemma_pairs_step(p, 0, d, s1);
    let m: int = if s.log_path is Some {
        assert(p[1] == ("log_path"@, s.log_path.unwrap()));
        assert(apply_pair(s1, "log_path"@, s.log_path.unwrap()) is Ok);
        assert(apply_pair(s1, "log_path"@, s.log_path.unwrap())->Ok_0.log_path == s.log_path);
        assert(apply_pair(s1, p[1].0, p[1].1) == Ok::<SettingsView, (Seq<char>, Seq<char>)>(s2));
        lemma_pairs_step(p, 1, s1, s2);
        2
    } else {
        assert(s1 == s2);
        1
    };
    assert(p[m] == ("log_max_buffer_size"@, decimal(s.log_max_buffer_size as nat)));
    assert(apply_pair(s2, p[m].0, p[m].1) == Ok::<SettingsView, (Seq<char>, Seq<char>)>(s3));
    lemma_pairs_step(p, m, s2, s3);
    assert(p[m + 1] == ("tui_draw_interval"@, decimal(s.tui_draw_interval as nat)));
    assert(apply_pair(s3, p[m + 1].0, p[m + 1].1) == Ok::<SettingsView, (Seq<char>, Seq<char>)>(s4));
    lemma_pairs_step(p, m + 1, s3, s4);
    assert(p[m + 2] == ("tui_input_poll_interval"@, decimal(s.tui_input_poll_interval as nat)));
    assert(apply_pair(s4, p[m + 2].0, p[m + 2].1) == Ok::<SettingsView, (Seq<char>, Seq<char>)>(s));
    lemma_pairs_step(p, m + 2, s4, s);
    assert(p.take(m + 3) =~= p);
}

} // verus!
