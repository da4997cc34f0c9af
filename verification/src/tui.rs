//! The terminal interface as a state machine: which interface is shown,
//! what each one is called and offers, and how keys move between them.
use vstd::prelude::*;
use crate::form::{FormKey, ServerNewFormView, TuiInterfaceServerNew};
use crate::server::Server;
use crate::settings::LogLevel;
use crate::view::{ServerData, ServerLatency, ServerStatus, ServerStatuses};

verus! {

/// A key press, with the outside terminal's key codes reduced to the ones
/// the interface reacts to.
#[derive(Debug, Clone, Copy, PartialEq, Eq, Structural)]
pub enum Key {
    Char(char),
    Enter,
    Esc,
    Tab,
    BackTab,
    Up,
    Down,
    Left,
    Right,
    Backspace,
    Home,
    End,
    F(u8),
    Other,
}

/// The kinds of interface.
#[derive(Debug, Clone, Copy, PartialEq, Eq, Structural, Hash)]
pub enum TuiInterfaceType {
    Dashboard,
    Logs,
    Settings,
    About,
    ServerView,
    ServerNew,
    ServerSettings,
}

impl TuiInterfaceType {
    pub open spec fn spec_title(self) -> Seq<char> {
        match self {
            TuiInterfaceType::Dashboard => "Dashboard"@,
            TuiInterfaceType::Logs => "Logs"@,
            TuiInterfaceType::Settings => "Settings"@,
            TuiInterfaceType::About => "About"@,
            TuiInterfaceType::ServerView => "Server View"@,
            TuiInterfaceType::ServerNew => "Add Server"@,
            TuiInterfaceType::ServerSettings => "Server Settings"@,
        }
    }

    /// Top-level interfaces can be reached from anywhere.
    pub open spec fn spec_is_top_level(self) -> bool {
        self is Dashboard || self is Logs || self is Settings || self is About
    }

    /// The interface that going back leads to.
    pub open spec fn spec_parent(self) -> Option<TuiInterfaceType> {
        match self {
            TuiInterfaceType::ServerView => Some(TuiInterfaceType::Dashboard),
            TuiInterfaceType::ServerNew => Some(TuiInterfaceType::Dashboard),
            TuiInterfaceType::ServerSettings => Some(TuiInterfaceType::ServerView),
            _ => None,
        }
    }

    /// The key bindings shown in the footer, as (key, action) pairs.
    pub open spec fn spec_key_bindings(self) -> Seq<(Seq<char>, Seq<char>)> {
        match self {
            TuiInterfaceType::Dashboard => seq![("Esc"@, "Quit"@)],
            TuiInterfaceType::Logs => seq![
                ("Esc"@, "Quit"@),
                ("↑↓"@, "Scroll"@),
                ("End"@, "Jump to latest"@),
            ],
            TuiInterfaceType::Settings => seq![("Esc"@, "Quit"@)],
            TuiInterfaceType::About => seq![("Esc"@, "Quit"@)],
            TuiInterfaceType::ServerView => seq![
                ("Esc"@, "Back"@),
                ("Tab"@, "Switch panel"@),
                ("↑↓"@, "Select"@),
                ("Home/End"@, "Jump"@),
                ("e"@, "Edit"@),
            ],
            TuiInterfaceType::ServerNew => seq![
                ("Esc"@, "Cancel"@),
                ("↑↓/Tab"@, "Field"@),
                ("←→"@, "Change"@),
                ("Enter"@, "Add"@),
            ],
            TuiInterfaceType::ServerSettings => seq![("Esc"@, "Back"@)],
        }
    }
}

/// An interface is top-level exactly when it has no parent.
pub proof fn lemma_top_level_iff_no_parent(t: TuiInterfaceType)
    ensures
        t.spec_is_top_level() <==> t.spec_parent() is None,
{
}

/// Following parents from any interface reaches a top-level one in at most
/// two steps.
pub proof fn lemma_parents_reach_top_level(t: TuiInterfaceType)
    ensures
        t.spec_is_top_level() || t.spec_parent().unwrap().spec_is_top_level()
            || t.spec_parent().unwrap().spec_parent().unwrap().spec_is_top_level(),
{
}

/// What a server view is opened on.
#[derive(Debug, Default)]
pub struct ServerViewOpts {
    pub server_id: String,
}

impl ServerViewOpts {
    pub fn new(server_id: String) -> (r: Self)
        ensures
            r.server_id == server_id,
    {
        Self { server_id }
    }
}

/// What a server's settings interface is opened on.
#[derive(Debug, Default)]
pub struct ServerSettingsOpts {
    pub server_id: String,
}

/// The options an interface is opened with.
#[derive(Debug)]
pub enum TuiInterfaceOpts {
    ServerView(ServerViewOpts),
    ServerSettings(ServerSettingsOpts),
}

/// What the interface asks the application to do after a key press.
#[derive(Debug)]
pub enum TuiAction {
    /// Nothing to do.
    Stay,
    ChangeInterface(TuiInterfaceType, Option<TuiInterfaceOpts>),
    Exit,
}

/// An interface together with the state it keeps between draws.
#[derive(Debug, Clone, Copy, PartialEq, Eq)]
pub struct TuiInterfaceContext<T> {
    pub interface: T,
}

impl<T> TuiInterfaceContext<T> {
    /// A context around the interface's default state.
    pub fn new() -> (r: Self) where T: Default
        ensures
            call_ensures(T::default, (), r.interface),
    {
        Self { interface: T::default() }
    }

    /// A context around the interface made from `opts`.
    pub fn new_with_opts<V>(opts: V) -> (r: Self) where T: From<V>
        ensures
            call_ensures(T::from, (opts,), r.interface),
    {
        Self { interface: T::from(opts) }
    }
}

/// The dashboard: a list of servers, one of them selected.
#[derive(Debug, Clone)]
pub struct TuiInterfaceDashboard {
    pub selected: usize,
}

impl Default for TuiInterfaceDashboard {
    fn default() -> (r: Self)
        ensures
            r.selected == 0,
    {
        Self { selected: 0 }
    }
}

/// The settings interface.
#[derive(Debug, Clone)]
pub struct TuiInterfaceSettings {}

impl Default for TuiInterfaceSettings {
    fn default() -> (r: Self) {
        Self {  }
    }
}

/// The about interface.
#[derive(Debug, Clone)]
pub struct TuiInterfaceAbout {}

impl Default for TuiInterfaceAbout {
    fn default() -> (r: Self) {
        Self {  }
    }
}

/// One buffered log message.
#[derive(Debug)]
pub struct LogBufferData {
    pub level: LogLevel,
    pub message: String,
    /// When the message was logged, in milliseconds since the Unix epoch.
    pub timestamp_ms: i64,
}

impl Clone for LogBufferData {
    fn clone(&self) -> (r: Self)
        ensures
            r == *self,
    {
        LogBufferData {
            level: self.level,
            message: self.message.clone(),
            timestamp_ms: self.timestamp_ms,
        }
    }
}

/// The log buffer after a message is added: the newest `max` messages,
/// oldest first.
pub open spec fn spec_buffer_push(
    buffer: Seq<LogBufferData>,
    entry: LogBufferData,
    max: usize,
) -> Seq<LogBufferData> {
    let all = buffer.push(entry);
    if all.len() > max {
        all.skip(all.len() - max)
    } else {
        all
    }
}

/// Adds a message to the log buffer, dropping the oldest messages beyond
/// `max`.
pub fn push_log_entry(buffer: &mut Vec<LogBufferData>, entry: LogBufferData, max: usize)
    ensures
        final(buffer)@ == spec_buffer_push(old(buffer)@, entry, max),
{
    let ghost all = old(buffer)@.push(entry);
    buffer.push(entry);
    let ghost mut dropped: int = 0;
    while buffer.len() > max
        invariant
            0 <= dropped <= all.len(),
            buffer@ == all.skip(dropped),
            dropped > 0 ==> all.len() - dropped >= max,
        decreases buffer@.len(),
    {
        buffer.remove(0);
        proof {
            dropped = dropped + 1;
        }
        assert(buffer@ =~= all.skip(dropped));
    }
    proof {
        if all.len() > max {
            assert(dropped == all.len() - max);
        } else {
            assert(all.skip(dropped) =~= all);
        }
    }
}

/// The log buffer never holds more than its size allows, once it does not
/// to begin with, and the newest message is always kept.
pub proof fn lemma_buffer_push_bounded(buffer: Seq<LogBufferData>, entry: LogBufferData, max: usize)
    requires
        buffer.len() <= max,
        max > 0,
    ensures
        spec_buffer_push(buffer, entry, max).len() <= max,
        spec_buffer_push(buffer, entry, max).last() == entry,
{
}

/// The logs interface: how far it is scrolled up from the newest line, the
/// sizes seen at the last draw, and the lines shown while scrolled.
#[derive(Debug)]
pub struct TuiInterfaceLogs {
    pub scroll_offset: usize,
    pub content_len: usize,
    pub viewport_height: usize,
    pub previous_buffer: Vec<LogBufferData>,
}

impl Default for TuiInterfaceLogs {
    fn default() -> (r: Self)
        ensures
            r.scroll_offset == 0,
            r.content_len == 0,
            r.viewport_height == 0,
            r.previous_buffer@.len() == 0,
    {
        Self { scroll_offset: 0, content_len: 0, viewport_height: 0, previous_buffer: Vec::new() }
    }
}

/// Which of the two list panels of the server view has focus.
#[derive(Debug, Clone, Copy, PartialEq, Eq, Structural)]
pub enum ServerViewFocus {
    Users,
    Vars,
}

impl Default for ServerViewFocus {
    fn default() -> (r: Self)
        ensures
            r == ServerViewFocus::Users,
    {
        ServerViewFocus::Users
    }
}

/// The view of one server.
#[derive(Debug)]
pub struct TuiInterfaceServerView {
    pub server_id: String,
    pub focus: ServerViewFocus,
    pub users_selected: usize,
    pub vars_selected: usize,
}

impl Default for TuiInterfaceServerView {
    fn default() -> (r: Self)
        ensures
            r.server_id@.len() == 0,
            r.focus == ServerViewFocus::Users,
            r.users_selected == 0,
            r.vars_selected == 0,
    {
        Self::new(String::new())
    }
}

impl TuiInterfaceServerView {
    /// A view of the server with the id, the users panel focused.
    pub fn new(server_id: String) -> (r: Self)
        ensures
            r.server_id == server_id,
            r.focus == ServerViewFocus::Users,
            r.users_selected == 0,
            r.vars_selected == 0,
    {
        Self { server_id, focus: ServerViewFocus::Users, users_selected: 0, vars_selected: 0 }
    }
}

impl From<ServerViewOpts> for TuiInterfaceServerView {
    fn from(opts: ServerViewOpts) -> (r: Self)
        ensures
            r.server_id == opts.server_id,
            r.focus == ServerViewFocus::Users,
            r.users_selected == 0,
            r.vars_selected == 0,
    {
        Self::new(opts.server_id)
    }
}

impl vstd::std_specs::convert::FromSpecImpl<ServerViewOpts> for TuiInterfaceServerView {
    open spec fn obeys_from_spec() -> bool {
        true
    }

    open spec fn from_spec(opts: ServerViewOpts) -> TuiInterfaceServerView {
        TuiInterfaceServerView {
            server_id: opts.server_id,
            focus: ServerViewFocus::Users,
            users_selected: 0,
            vars_selected: 0,
        }
    }
}

/// The settings of one server.
#[derive(Debug)]
pub struct TuiInterfaceServerSettings {
    pub server_id: String,
}

impl Default for TuiInterfaceServerSettings {
    fn default() -> (r: Self)
        ensures
            r.server_id@.len() == 0,
    {
        Self::new(String::new())
    }
}

impl TuiInterfaceServerSettings {
    pub fn new(server_id: String) -> (r: Self)
        ensures
            r.server_id == server_id,
    {
        Self { server_id }
    }
}

impl From<ServerSettingsOpts> for TuiInterfaceServerSettings {
    fn from(opts: ServerSettingsOpts) -> (r: Self)
        ensures
            r.server_id == opts.server_id,
    {
        Self { server_id: opts.server_id }
    }
}

impl vstd::std_specs::convert::FromSpecImpl<ServerSettingsOpts> for TuiInterfaceServerSettings {
    open spec fn obeys_from_spec() -> bool {
        true
    }

    open spec fn from_spec(opts: ServerSettingsOpts) -> TuiInterfaceServerSettings {
        TuiInterfaceServerSettings { server_id: opts.server_id }
    }
}

/// The interface currently shown, with its state.
#[derive(Debug)]
pub enum TuiInterface {
    Dashboard(TuiInterfaceContext<TuiInterfaceDashboard>),
    Logs(TuiInterfaceContext<TuiInterfaceLogs>),
    Settings(TuiInterfaceContext<TuiInterfaceSettings>),
    About(TuiInterfaceContext<TuiInterfaceAbout>),
    ServerView(TuiInterfaceContext<TuiInterfaceServerView>),
    ServerNew(TuiInterfaceContext<TuiInterfaceServerNew>),
    ServerSettings(TuiInterfaceContext<TuiInterfaceServerSettings>),
}

/// Why an interface could not be opened.
#[derive(Debug, Clone, Copy, PartialEq, Eq, Structural)]
pub enum InterfaceError {
    /// The server view was asked for with options of another interface.
    ServerViewWrongOpts,
    /// The server view was asked for without options.
    ServerViewNoOpts,
    /// The server settings were asked for with options of another interface.
    ServerSettingsWrongOpts,
    /// The server settings were asked for without options.
    ServerSettingsNoOpts,
}

impl InterfaceError {
    pub open spec fn spec_message(self) -> Seq<char> {
        match self {
            InterfaceError::ServerViewWrongOpts =>
                "Expected ServerViewOpts for ServerView interface, got different options"@,
            InterfaceError::ServerViewNoOpts =>
                "Expected ServerViewOpts for ServerView interface, got None"@,
            InterfaceError::ServerSettingsWrongOpts =>
                "Expected ServerSettingsOpts for ServerSettings interface, got different options"@,
            InterfaceError::ServerSettingsNoOpts =>
                "Expected ServerSettingsOpts for ServerSettings interface, got None"@,
        }
    }

    /// The error's text.
    pub fn message(&self) -> (r: &'static str)
        ensures
            r@ == self.spec_message(),
    {
        match self {
            InterfaceError::ServerViewWrongOpts =>
                "Expected ServerViewOpts for ServerView interface, got different options",
            InterfaceError::ServerViewNoOpts =>
                "Expected ServerViewOpts for ServerView interface, got None",
            InterfaceError::ServerSettingsWrongOpts =>
                "Expected ServerSettingsOpts for ServerSettings interface, got different options",
            InterfaceError::ServerSettingsNoOpts =>
                "Expected ServerSettingsOpts for ServerSettings interface, got None",
        }
    }
}

/// The outcome of opening an interface of type `t` with `opts`: the error,
/// if any, else nothing.
pub open spec fn spec_open_error(t: TuiInterfaceType, opts: Option<TuiInterfaceOpts>) -> Option<InterfaceError> {
    match t {
        TuiInterfaceType::ServerView => match opts {
            Some(TuiInterfaceOpts::ServerView(_)) => None,
            Some(_) => Some(InterfaceError::ServerViewWrongOpts),
            None => Some(InterfaceError::ServerViewNoOpts),
        },
        TuiInterfaceType::ServerSettings => match opts {
            Some(TuiInterfaceOpts::ServerSettings(_)) => None,
            Some(_) => Some(InterfaceError::ServerSettingsWrongOpts),
            None => Some(InterfaceError::ServerSettingsNoOpts),
        },
        _ => None,
    }
}

/// `i` is the interface that opening `t` with `opts` gives: the dashboard
/// with the first server selected, the logs at the newest line with nothing
/// measured or kept yet, the server view on the server the options name
/// with the users panel focused and nothing selected, an empty form, and
/// the server settings of the server the options name.
pub open spec fn opened_as(i: TuiInterface, t: TuiInterfaceType, opts: Option<TuiInterfaceOpts>) -> bool {
    match i {
        TuiInterface::Dashboard(c) => t == TuiInterfaceType::Dashboard && c.interface.selected == 0,
        TuiInterface::Logs(c) => {
            &&& t == TuiInterfaceType::Logs
            &&& c.interface.scroll_offset == 0
            &&& c.interface.content_len == 0
            &&& c.interface.viewport_height == 0
            &&& c.interface.previous_buffer@.len() == 0
        },
        TuiInterface::Settings(_) => t == TuiInterfaceType::Settings,
        TuiInterface::About(_) => t == TuiInterfaceType::About,
        TuiInterface::ServerView(c) => {
            &&& t == TuiInterfaceType::ServerView
            &&& opts matches Some(TuiInterfaceOpts::ServerView(o))
            &&& c.interface.server_id == o.server_id
            &&& c.interface.focus == ServerViewFocus::Users
            &&& c.interface.users_selected == 0
            &&& c.interface.vars_selected == 0
        },
        TuiInterface::ServerNew(c) => t == TuiInterfaceType::ServerNew && c.interface@
            == crate::form::new_form_view(),
        TuiInterface::ServerSettings(c) => {
            &&& t == TuiInterfaceType::ServerSettings
            &&& opts matches Some(TuiInterfaceOpts::ServerSettings(o))
            &&& c.interface.server_id == o.server_id
        },
    }
}

impl TuiInterface {
    pub open spec fn spec_type(&self) -> TuiInterfaceType {
        match self {
            TuiInterface::Dashboard(_) => TuiInterfaceType::Dashboard,
            TuiInterface::Logs(_) => TuiInterfaceType::Logs,
            TuiInterface::Settings(_) => TuiInterfaceType::Settings,
            TuiInterface::About(_) => TuiInterfaceType::About,
            TuiInterface::ServerView(_) => TuiInterfaceType::ServerView,
            TuiInterface::ServerNew(_) => TuiInterfaceType::ServerNew,
            TuiInterface::ServerSettings(_) => TuiInterfaceType::ServerSettings,
        }
    }

    /// Opens an interface of the given type. The server view and the server
    /// settings need their own options; the other interfaces start from
    /// their defaults and ignore any options.
    pub fn new_interface(interface_type: TuiInterfaceType, opts: Option<TuiInterfaceOpts>) -> (r:
        Result<Self, InterfaceError>)
        ensures
            match spec_open_error(interface_type, opts) {
                Some(e) => r == Err::<Self, InterfaceError>(e),
                None => r matches Ok(i) && i.spec_type() == interface_type && opened_as(
                    i,
                    interface_type,
                    opts,
                ),
            },
    {
        match interface_type {
            TuiInterfaceType::Dashboard => Ok(TuiInterface::Dashboard(TuiInterfaceContext::new())),
            TuiInterfaceType::Logs => Ok(TuiInterface::Logs(TuiInterfaceContext::new())),
            TuiInterfaceType::Settings => Ok(TuiInterface::Settings(TuiInterfaceContext::new())),
            TuiInterfaceType::About => Ok(TuiInterface::About(TuiInterfaceContext::new())),
            TuiInterfaceType::ServerNew => Ok(TuiInterface::ServerNew(TuiInterfaceContext::new())),
            TuiInterfaceType::ServerView => match opts {
                Some(TuiInterfaceOpts::ServerView(o)) => Ok(
                    TuiInterface::ServerView(TuiInterfaceContext::new_with_opts(o)),
                ),
                Some(_) => Err(InterfaceError::ServerViewWrongOpts),
                None => Err(InterfaceError::ServerViewNoOpts),
            },
            TuiInterfaceType::ServerSettings => match opts {
                Some(TuiInterfaceOpts::ServerSettings(o)) => Ok(
                    TuiInterface::ServerSettings(TuiInterfaceContext::new_with_opts(o)),
                ),
                Some(_) => Err(InterfaceError::ServerSettingsWrongOpts),
                None => Err(InterfaceError::ServerSettingsNoOpts),
            },
        }
    }

    /// The kind of the interface.
    pub fn get_type(&self) -> (r: TuiInterfaceType)
        ensures
            r == self.spec_type(),
    {
        match self {
            TuiInterface::Dashboard(_) => TuiInterfaceType::Dashboard,
            TuiInterface::Logs(_) => TuiInterfaceType::Logs,
            TuiInterface::Settings(_) => TuiInterfaceType::Settings,
            TuiInterface::About(_) => TuiInterfaceType::About,
            TuiInterface::ServerView(_) => TuiInterfaceType::ServerView,
            TuiInterface::ServerNew(_) => TuiInterfaceType::ServerNew,
            TuiInterface::ServerSettings(_) => TuiInterfaceType::ServerSettings,
        }
    }

    /// The interface's title.
    pub fn title(&self) -> (r: String)
        ensures
            r@ == self.spec_type().spec_title(),
    {
        let s = match self {
            TuiInterface::Dashboard(_) => "Dashboard",
            TuiInterface::Logs(_) => "Logs",
            TuiInterface::Settings(_) => "Settings",
            TuiInterface::About(_) => "About",
            TuiInterface::ServerView(_) => "Server View",
            TuiInterface::ServerNew(_) => "Add Server",
            TuiInterface::ServerSettings(_) => "Server Settings",
        };
        String::from_str(s)
    }

    /// Whether the interface can be reached from anywhere.
    pub fn is_top_level(&self) -> (r: bool)
        ensures
            r == self.spec_type().spec_is_top_level(),
    {
        match self {
            TuiInterface::Dashboard(_) => true,
            TuiInterface::Logs(_) => true,
            TuiInterface::Settings(_) => true,
            TuiInterface::About(_) => true,
            TuiInterface::ServerView(_) => false,
            TuiInterface::ServerNew(_) => false,
            TuiInterface::ServerSettings(_) => false,
        }
    }

    /// The interface that going back leads to.
    pub fn parent(&self) -> (r: Option<TuiInterfaceType>)
        ensures
            r == self.spec_type().spec_parent(),
    {
        match self {
            TuiInterface::ServerView(_) => Some(TuiInterfaceType::Dashboard),
            TuiInterface::ServerNew(_) => Some(TuiInterfaceType::Dashboard),
            TuiInterface::ServerSettings(_) => Some(TuiInterfaceType::ServerView),
            _ => None,
        }
    }

    /// The key bindings shown in the footer.
    pub fn get_key_bindings(&self) -> (r: Vec<(String, String)>)
        ensures
            r@.len() == self.spec_type().spec_key_bindings().len(),
            forall|i: int|
                0 <= i < r@.len() ==> (#[trigger] r@[i]).0@ == self.spec_type().spec_key_bindings()[i].0
                    && r@[i].1@ == self.spec_type().spec_key_bindings()[i].1,
    {
        let mut r: Vec<(String, String)> = Vec::new();
        match self {
            TuiInterface::Logs(_) => {
                r.push((String::from_str("Esc"), String::from_str("Quit")));
                r.push((String::from_str("↑↓"), String::from_str("Scroll")));
                r.push((String::from_str("End"), String::from_str("Jump to latest")));
            },
            TuiInterface::ServerView(_) => {
                r.push((String::from_str("Esc"), String::from_str("Back")));
                r.push((String::from_str("Tab"), String::from_str("Switch panel")));
                r.push((String::from_str("↑↓"), String::from_str("Select")));
                r.push((String::from_str("Home/End"), String::from_str("Jump")));
                r.push((String::from_str("e"), String::from_str("Edit")));
            },
            TuiInterface::ServerNew(_) => {
                r.push((String::from_str("Esc"), String::from_str("Cancel")));
                r.push((String::from_str("↑↓/Tab"), String::from_str("Field")));
                r.push((String::from_str("←→"), String::from_str("Change")));
                r.push((String::from_str("Enter"), String::from_str("Add")));
            },
            TuiInterface::ServerSettings(_) => {
                r.push((String::from_str("Esc"), String::from_str("Back")));
            },
            _ => {
                r.push((String::from_str("Esc"), String::from_str("Quit")));
            },
        }
        r
    }
}

/// What the shown interface makes of a key press.
#[derive(Debug)]
pub enum KeyOutcome {
    /// The interface asks for this.
    Action(TuiAction),
    /// The add-server form asks to be checked and its server added.
    Submit,
    /// The logs interface asks the application to stop.
    Cancel,
}

impl TuiInterface {
    /// Whether the interface can take the key: on the dashboard, Down/`j`
    /// needs room below the selection.
    pub open spec fn spec_key_ready(&self, key: Key) -> bool {
        match self {
            TuiInterface::Dashboard(c) => (key == Key::Down || key == Key::Char('j'))
                ==> c.interface.selected < usize::MAX,
            _ => true,
        }
    }

    /// Hands a key to the shown interface. `server_ids` are the monitored
    /// servers in dashboard order; `users_len` and `vars_len` are the
    /// lengths of the viewed server's panels.
    pub fn handle_key(
        &mut self,
        key: Key,
        server_ids: &Vec<String>,
        users_len: usize,
        vars_len: usize,
    ) -> (r: KeyOutcome)
        requires
            old(self).spec_key_ready(key),
        ensures
            final(self).spec_type() == old(self).spec_type(),
            match (*old(self), *final(self)) {
                (TuiInterface::Dashboard(a), TuiInterface::Dashboard(b)) => r matches KeyOutcome::Action(
                    act,
                ) && dashboard_key_done(a.interface, key, server_ids@, b.interface, act),
                (TuiInterface::Logs(a), TuiInterface::Logs(b)) => logs_key_done(
                    a.interface,
                    key,
                    b.interface,
                ) && ((key == Key::Esc || key == Key::Char('q')) ==> r is Cancel) && (!(key
                    == Key::Esc || key == Key::Char('q')) ==> (r matches KeyOutcome::Action(act)
                    && act is Stay)),
                (TuiInterface::Settings(a), TuiInterface::Settings(b)) => a == b && (r matches KeyOutcome::Action(
                    act,
                ) && quit_key_done(key, act)),
                (TuiInterface::About(a), TuiInterface::About(b)) => a == b && (r matches KeyOutcome::Action(
                    act,
                ) && quit_key_done(key, act)),
                (TuiInterface::ServerView(a), TuiInterface::ServerView(b)) => r matches KeyOutcome::Action(
                    act,
                ) && server_view_key_done(
                    a.interface,
                    key,
                    match a.interface.focus {
                        ServerViewFocus::Users => users_len,
                        ServerViewFocus::Vars => vars_len,
                    },
                    b.interface,
                    act,
                ),
                (TuiInterface::ServerNew(a), TuiInterface::ServerNew(b)) => {
                    &&& key == Key::Esc ==> (r matches KeyOutcome::Action(
                        TuiAction::ChangeInterface(t, None),
                    ) && t == TuiInterfaceType::Dashboard) && b.interface@ == a.interface@
                    &&& key == Key::Enter ==> r is Submit && b.interface@ == a.interface@
                    &&& !(key == Key::Esc || key == Key::Enter) ==> (r matches KeyOutcome::Action(
                        act,
                    ) && act is Stay) && b.interface@ == a.interface@.after_key(key)
                },
                (TuiInterface::ServerSettings(a), TuiInterface::ServerSettings(b)) => a == b && (
                r matches KeyOutcome::Action(act) && server_settings_key_done(a.interface, key, act)),
                _ => false,
            },
    {
        match self {
            TuiInterface::Dashboard(c) => KeyOutcome::Action(c.interface.handle_key(key, server_ids)),
            TuiInterface::Logs(c) => if c.interface.handle_key(key) {
                KeyOutcome::Cancel
            } else {
                KeyOutcome::Action(TuiAction::Stay)
            },
            TuiInterface::Settings(_) | TuiInterface::About(_) => KeyOutcome::Action(quit_on_escape(key)),
            TuiInterface::ServerView(c) => {
                let len = match c.interface.focus {
                    ServerViewFocus::Users => users_len,
                    ServerViewFocus::Vars => vars_len,
                };
                KeyOutcome::Action(c.interface.handle_key(key, len))
            },
            TuiInterface::ServerNew(c) => match c.interface.handle_key(key) {
                FormKey::Submit => KeyOutcome::Submit,
                FormKey::Action(a) => KeyOutcome::Action(a),
            },
            TuiInterface::ServerSettings(c) => KeyOutcome::Action(c.interface.handle_key(key)),
        }
    }
}

/// Opening an interface that needs no options always works and gives an
/// interface of the asked type.
pub proof fn lemma_open_plain_interface(t: TuiInterfaceType, opts: Option<TuiInterfaceOpts>)
    requires
        !(t is ServerView || t is ServerSettings),
    ensures
        spec_open_error(t, opts) is None,
{
}

/// The state of the terminal interface.
#[derive(Debug)]
pub struct TuiState {
    pub interface: TuiInterface,
}

impl Default for TuiState {
    fn default() -> (r: Self)
        ensures
            r.interface.spec_type() == TuiInterfaceType::Dashboard,
            opened_as(r.interface, TuiInterfaceType::Dashboard, None),
    {
        match TuiInterface::new_interface(TuiInterfaceType::Dashboard, None) {
            Ok(interface) => TuiState { interface },
            Err(_) => TuiState {
                interface: TuiInterface::Dashboard(TuiInterfaceContext::new()),
            },
        }
    }
}

impl TuiState {
    /// Replaces the interface by the one `new_interface` opens for the type
    /// and options; when it cannot be opened the current one stays.
    pub fn change_interface(
        &mut self,
        interface_type: TuiInterfaceType,
        opts: Option<TuiInterfaceOpts>,
    ) -> (r: Result<(), InterfaceError>)
        ensures
            match spec_open_error(interface_type, opts) {
                Some(e) => r == Err::<(), InterfaceError>(e) && final(self).interface
                    == old(self).interface,
                None => r is Ok && final(self).interface.spec_type() == interface_type && opened_as(
                    final(self).interface,
                    interface_type,
                    opts,
                ),
            },
    {
        match TuiInterface::new_interface(interface_type, opts) {
            Ok(interface) => {
                self.interface = interface;
                Ok(())
            },
            Err(e) => Err(e),
        }
    }
}

/// What a key does regardless of the interface shown.
#[derive(Debug, Clone, Copy, PartialEq, Eq, Structural)]
pub enum GlobalKey {
    Ignore,
    Exit,
    Switch(TuiInterfaceType),
}

pub open spec fn spec_global_key(current: TuiInterfaceType, key: Key, ctrl: bool) -> GlobalKey {
    let target = match key {
        Key::F(1) => Some(TuiInterfaceType::Dashboard),
        Key::F(2) => Some(TuiInterfaceType::Settings),
        Key::F(3) => Some(TuiInterfaceType::Logs),
        Key::F(4) => Some(TuiInterfaceType::About),
        _ => None,
    };
    if key == Key::Char('c') && ctrl {
        GlobalKey::Exit
    } else {
        match target {
            Some(t) => if t == current {
                GlobalKey::Ignore
            } else {
                GlobalKey::Switch(t)
            },
            None => GlobalKey::Ignore,
        }
    }
}

/// Ctrl+C exits; F1 to F4 switch to the dashboard, settings, logs and about
/// interfaces, unless that one is shown already.
pub fn global_key(current: TuiInterfaceType, key: Key, ctrl: bool) -> (r: GlobalKey)
    ensures
        r == spec_global_key(current, key, ctrl),
{
    if key == Key::Char('c') && ctrl {
        return GlobalKey::Exit;
    }
    let target = match key {
        Key::F(1) => TuiInterfaceType::Dashboard,
        Key::F(2) => TuiInterfaceType::Settings,
        Key::F(3) => TuiInterfaceType::Logs,
        Key::F(4) => TuiInterfaceType::About,
        _ => return GlobalKey::Ignore,
    };
    if target == current {
        GlobalKey::Ignore
    } else {
        GlobalKey::Switch(target)
    }
}

/// F1 opens the dashboard, F2 the settings, F3 the logs and F4 the about
/// interface from every interface, top-level or not, with or without Ctrl;
/// the key does nothing when that interface is already shown.
pub proof fn lemma_function_keys_switch(current: TuiInterfaceType, ctrl: bool)
    ensures
        current != TuiInterfaceType::Dashboard ==> spec_global_key(current, Key::F(1), ctrl)
            == GlobalKey::Switch(TuiInterfaceType::Dashboard),
        current != TuiInterfaceType::Settings ==> spec_global_key(current, Key::F(2), ctrl)
            == GlobalKey::Switch(TuiInterfaceType::Settings),
        current != TuiInterfaceType::Logs ==> spec_global_key(current, Key::F(3), ctrl)
            == GlobalKey::Switch(TuiInterfaceType::Logs),
        current != TuiInterfaceType::About ==> spec_global_key(current, Key::F(4), ctrl)
            == GlobalKey::Switch(TuiInterfaceType::About),
        current == TuiInterfaceType::Dashboard ==> spec_global_key(current, Key::F(1), ctrl)
            == GlobalKey::Ignore,
        current == TuiInterfaceType::Settings ==> spec_global_key(current, Key::F(2), ctrl)
            == GlobalKey::Ignore,
        current == TuiInterfaceType::Logs ==> spec_global_key(current, Key::F(3), ctrl)
            == GlobalKey::Ignore,
        current == TuiInterfaceType::About ==> spec_global_key(current, Key::F(4), ctrl)
            == GlobalKey::Ignore,
{
}

/// Keys other than Ctrl+C and F1 to F4 mean nothing globally, and Ctrl+C
/// exits from every interface.
pub proof fn lemma_other_keys_ignored(current: TuiInterfaceType, key: Key, ctrl: bool)
    ensures
        key == Key::Char('c') && ctrl ==> spec_global_key(current, key, ctrl) == GlobalKey::Exit,
        !(key == Key::Char('c') && ctrl) && !(key == Key::F(1) || key == Key::F(2) || key
            == Key::F(3) || key == Key::F(4)) ==> spec_global_key(current, key, ctrl)
            == GlobalKey::Ignore,
{
}

/// One thing the input loop does after a key press.
#[derive(Debug)]
pub enum InputStep {
    /// Open an interface in place of the current one.
    ChangeInterface(TuiInterfaceType, Option<TuiInterfaceOpts>),
    /// Stop the application and the input loop.
    Exit,
}

/// The steps a global key adds after the interface has handled it.
pub open spec fn spec_global_steps(current: TuiInterfaceType, key: Key, ctrl: bool) -> Seq<
    InputStep,
> {
    match spec_global_key(current, key, ctrl) {
        GlobalKey::Exit => seq![InputStep::Exit],
        GlobalKey::Switch(t) => seq![InputStep::ChangeInterface(t, None)],
        GlobalKey::Ignore => seq![],
    }
}

/// What the input loop does with a key press, in order, given the interface
/// that was shown when the key arrived and the action that interface asked
/// for. The interface's action comes first; an exit ends the loop at once,
/// so the key is then not looked at as a global key.
pub open spec fn spec_plan_input(
    current: TuiInterfaceType,
    action: TuiAction,
    key: Key,
    ctrl: bool,
) -> Seq<InputStep> {
    match action {
        TuiAction::Exit => seq![InputStep::Exit],
        TuiAction::ChangeInterface(t, o) => seq![InputStep::ChangeInterface(t, o)]
            + spec_global_steps(current, key, ctrl),
        TuiAction::Stay => spec_global_steps(current, key, ctrl),
    }
}

/// Plans the steps that follow a key press: first what the interface asked
/// for, then, unless that was an exit, what the key means globally (Ctrl+C
/// exits; F1 to F4 switch interfaces).
pub fn plan_input(current: TuiInterfaceType, action: TuiAction, key: Key, ctrl: bool) -> (r: Vec<
    InputStep,
>)
    ensures
        r@ == spec_plan_input(current, action, key, ctrl),
{
    let mut steps: Vec<InputStep> = Vec::new();
    match action {
        TuiAction::Exit => {
            steps.push(InputStep::Exit);
            return steps;
        },
        TuiAction::ChangeInterface(t, o) => {
            steps.push(InputStep::ChangeInterface(t, o));
        },
        TuiAction::Stay => {},
    }
    let ghost before = steps@;
    match global_key(current, key, ctrl) {
        GlobalKey::Exit => steps.push(InputStep::Exit),
        GlobalKey::Switch(t) => steps.push(InputStep::ChangeInterface(t, None)),
        GlobalKey::Ignore => {},
    }
    assert(steps@ =~= before + spec_global_steps(current, key, ctrl));
    steps
}

/// An exit asked for by the interface ends the key's handling: nothing
/// follows it, whatever the key.
pub proof fn lemma_exit_ends_input(current: TuiInterfaceType, key: Key, ctrl: bool)
    ensures
        spec_plan_input(current, TuiAction::Exit, key, ctrl) == seq![InputStep::Exit],
{
}

/// Ctrl+C always leads to an exit, as the last step.
pub proof fn lemma_ctrl_c_exits(current: TuiInterfaceType, action: TuiAction)
    ensures
        ({
            let s = spec_plan_input(current, action, Key::Char('c'), true);
            s.len() > 0 && s.last() == InputStep::Exit
        }),
{
}

/// A selection clamped to a list of `len` entries (0 for an empty list).
pub open spec fn spec_clamp_selection(selected: usize, len: usize) -> usize {
    let last: usize = if len > 0 { (len - 1) as usize } else { 0 };
    if selected < last { selected } else { last }
}

pub fn clamp_selection(selected: usize, len: usize) -> (r: usize)
    ensures
        r == spec_clamp_selection(selected, len),
        len > 0 ==> r < len,
        r <= selected,
{
    let last = if len > 0 {
        len - 1
    } else {
        0
    };
    if selected < last {
        selected
    } else {
        last
    }
}

/// What a key does on the dashboard: Esc or `q` quit; Up/`k` and Down/`j`
/// move the selection; Enter opens the selected server (clamped to the
/// list), if there is one; `n` opens the form that adds a server.
pub open spec fn dashboard_key_done(
    before: TuiInterfaceDashboard,
    key: Key,
    server_ids: Seq<String>,
    after: TuiInterfaceDashboard,
    r: TuiAction,
) -> bool {
    &&& (key == Key::Esc || key == Key::Char('q')) ==> r is Exit && after.selected
        == before.selected
    &&& (key == Key::Up || key == Key::Char('k')) ==> r is Stay && after.selected == (
    if before.selected > 0 {
        before.selected - 1
    } else {
        0
    })
    &&& (key == Key::Down || key == Key::Char('j')) ==> r is Stay && after.selected
        == before.selected + 1
    &&& key == Key::Enter ==> after.selected == before.selected && (if server_ids.len() == 0 {
        r is Stay
    } else {
        r matches TuiAction::ChangeInterface(t, Some(TuiInterfaceOpts::ServerView(o))) && t
            == TuiInterfaceType::ServerView && o.server_id == server_ids[spec_clamp_selection(
            before.selected,
            server_ids.len() as usize,
        ) as int]
    })
    &&& key == Key::Char('n') ==> after.selected == before.selected && (r matches
        TuiAction::ChangeInterface(t, None) && t == TuiInterfaceType::ServerNew)
    &&& !(key == Key::Esc || key == Key::Char('q') || key == Key::Up || key == Key::Char('k')
        || key == Key::Down || key == Key::Char('j') || key == Key::Enter || key == Key::Char(
        'n',
    )) ==> r is Stay && after.selected == before.selected
}

impl TuiInterfaceDashboard {
    /// Handles a key on the dashboard (see `dashboard_key_done`).
    pub fn handle_key(&mut self, key: Key, server_ids: &Vec<String>) -> (r: TuiAction)
        requires
            (key == Key::Down || key == Key::Char('j')) ==> old(self).selected < usize::MAX,
        ensures
            dashboard_key_done(*old(self), key, server_ids@, *final(self), r),
    {
        match key {
            Key::Esc | Key::Char('q') => TuiAction::Exit,
            Key::Up | Key::Char('k') => {
                if self.selected > 0 {
                    self.selected = self.selected - 1;
                }
                TuiAction::Stay
            },
            Key::Down | Key::Char('j') => {
                self.selected = self.selected + 1;
                TuiAction::Stay
            },
            Key::Enter => {
                if server_ids.len() == 0 {
                    return TuiAction::Stay;
                }
                let i = clamp_selection(self.selected, server_ids.len());
                TuiAction::ChangeInterface(
                    TuiInterfaceType::ServerView,
                    Some(TuiInterfaceOpts::ServerView(ServerViewOpts { server_id: server_ids[i].clone() })),
                )
            },
            Key::Char('n') => TuiAction::ChangeInterface(TuiInterfaceType::ServerNew, None),
            _ => TuiAction::Stay,
        }
    }
}

/// How far the logs can scroll up: the lines that do not fit.
pub open spec fn spec_max_scroll(content_len: usize, viewport_height: usize) -> usize {
    if content_len > viewport_height { (content_len - viewport_height) as usize } else { 0 }
}

/// The logs' scroll offset after a key: Up/`k` one line further up, but
/// no further than `max`; Down/`j` one line back down; End to the newest
/// line; other keys leave it.
pub open spec fn spec_scroll_after(key: Key, offset: usize, max: usize) -> usize {
    match key {
        Key::Up | Key::Char('k') => if offset + 1 < max {
            (offset + 1) as usize
        } else {
            max
        },
        Key::Down | Key::Char('j') => if offset > 0 {
            (offset - 1) as usize
        } else {
            0
        },
        Key::End => 0,
        _ => offset,
    }
}

/// What a key does to the logs: Up/`k` scrolls one line towards older
/// messages (no further than the content allows), Down/`j` one line back,
/// End to the newest line; nothing else changes.
pub open spec fn logs_key_done(before: TuiInterfaceLogs, key: Key, after: TuiInterfaceLogs) -> bool {
    &&& after.content_len == before.content_len
    &&& after.viewport_height == before.viewport_height
    &&& after.previous_buffer == before.previous_buffer
    &&& after.scroll_offset == spec_scroll_after(
        key,
        before.scroll_offset,
        spec_max_scroll(before.content_len, before.viewport_height),
    )
}

impl TuiInterfaceLogs {
    /// Scrolls the logs for a key (see `logs_key_done`); Esc or `q` asks the
    /// application to stop, which the result reports.
    pub fn handle_key(&mut self, key: Key) -> (cancel: bool)
        ensures
            cancel == (key == Key::Esc || key == Key::Char('q')),
            logs_key_done(*old(self), key, *final(self)),
    {
        let max_scroll = if self.content_len > self.viewport_height {
            self.content_len - self.viewport_height
        } else {
            0
        };
        match key {
            Key::Esc | Key::Char('q') => {
                return true;
            },
            Key::Up | Key::Char('k') => {
                let up = if self.scroll_offset < usize::MAX {
                    self.scroll_offset + 1
                } else {
                    self.scroll_offset
                };
                self.scroll_offset = if up < max_scroll {
                    up
                } else {
                    max_scroll
                };
            },
            Key::Down | Key::Char('j') => {
                if self.scroll_offset > 0 {
                    self.scroll_offset = self.scroll_offset - 1;
                }
            },
            Key::End => {
                self.scroll_offset = 0;
            },
            _ => {},
        }
        false
    }

    /// Records the number of lines and the height of the view at a draw,
    /// and returns the scroll offset to draw with (clamped to what can
    /// scroll) and the first line to show.
    pub fn layout(&mut self, lines_tot: usize, inner_height: usize) -> (r: (usize, usize))
        ensures
            final(self).content_len == lines_tot,
            final(self).viewport_height == inner_height,
            final(self).scroll_offset == old(self).scroll_offset,
            r.0 == (if old(self).scroll_offset < spec_max_scroll(lines_tot, inner_height) {
                old(self).scroll_offset
            } else {
                spec_max_scroll(lines_tot, inner_height)
            }),
            r.0 + inner_height >= lines_tot ==> r.1 == 0,
            r.0 + inner_height < lines_tot ==> r.1 == lines_tot - inner_height - r.0,
            r.1 + inner_height + r.0 <= lines_tot || r.1 == 0,
    {
        self.content_len = lines_tot;
        self.viewport_height = inner_height;
        let max_scroll = if lines_tot > inner_height {
            lines_tot - inner_height
        } else {
            0
        };
        let offset = if self.scroll_offset < max_scroll {
            self.scroll_offset
        } else {
            max_scroll
        };
        let top = if lines_tot > inner_height + offset {
            lines_tot - inner_height - offset
        } else {
            0
        };
        (offset, top)
    }
}

/// Scrolling the logs up a line and then down a line returns to the same
/// place, while there is a line further up to scroll to.
pub proof fn lemma_logs_scroll_round_trip(offset: usize, max: usize)
    requires
        offset < max,
    ensures
        spec_scroll_after(Key::Down, spec_scroll_after(Key::Up, offset, max), max) == offset,
{
}

/// Scrolling never goes past the oldest line that can be shown.
pub proof fn lemma_logs_scroll_bounded(key: Key, offset: usize, max: usize)
    requires
        offset <= max,
    ensures
        spec_scroll_after(key, offset, max) <= max,
{
}

/// What a key does in the server view: Esc or `q` go back to the
/// dashboard; `e` opens the server's settings; Tab switches panels; Up/`k`,
/// Down/`j`, Home and End move the selection of the focused panel, whose
/// list holds `len` entries.
pub open spec fn server_view_key_done(
    before: TuiInterfaceServerView,
    key: Key,
    len: usize,
    after: TuiInterfaceServerView,
    r: TuiAction,
) -> bool {
    &&& after.server_id == before.server_id
    &&& (key == Key::Esc || key == Key::Char('q')) ==> (r matches TuiAction::ChangeInterface(t, o)
        && t == TuiInterfaceType::Dashboard && o is None)
    &&& key == Key::Char('e') ==> (r matches TuiAction::ChangeInterface(
        t,
        Some(TuiInterfaceOpts::ServerSettings(o)),
    ) && t == TuiInterfaceType::ServerSettings && o.server_id == before.server_id)
    &&& !(key == Key::Esc || key == Key::Char('q') || key == Key::Char('e')) ==> r is Stay
    &&& key == Key::Tab ==> after.focus != before.focus && after.users_selected
        == before.users_selected && after.vars_selected == before.vars_selected
    &&& key != Key::Tab ==> after.focus == before.focus
    &&& after.focus == before.focus ==> after.spec_selected() == (match key {
        Key::Up | Key::Char('k') => if before.spec_selected() > 0 {
            (before.spec_selected() - 1) as usize
        } else {
            0
        },
        Key::Down | Key::Char('j') => if len > 0 && before.spec_selected() + 1 < len {
            (before.spec_selected() + 1) as usize
        } else {
            before.spec_selected()
        },
        Key::Home => 0,
        Key::End => if len > 0 {
            (len - 1) as usize
        } else {
            0
        },
        _ => before.spec_selected(),
    })
    &&& after.focus == ServerViewFocus::Users && before.focus == ServerViewFocus::Users
        ==> after.vars_selected == before.vars_selected
    &&& after.focus == ServerViewFocus::Vars && before.focus == ServerViewFocus::Vars
        ==> after.users_selected == before.users_selected
}

impl TuiInterfaceServerView {
    /// The selection of the focused panel.
    pub open spec fn spec_selected(&self) -> usize {
        match self.focus {
            ServerViewFocus::Users => self.users_selected,
            ServerViewFocus::Vars => self.vars_selected,
        }
    }

    /// Handles a key in the server view (see `server_view_key_done`); `len`
    /// is the length of the focused panel's list.
    pub fn handle_key(&mut self, key: Key, len: usize) -> (r: TuiAction)
        ensures
            server_view_key_done(*old(self), key, len, *final(self), r),
    {
        let sel = match self.focus {
            ServerViewFocus::Users => self.users_selected,
            ServerViewFocus::Vars => self.vars_selected,
        };
        let new_sel = match key {
            Key::Esc | Key::Char('q') => {
                return TuiAction::ChangeInterface(TuiInterfaceType::Dashboard, None);
            },
            Key::Char('e') => {
                return TuiAction::ChangeInterface(
                    TuiInterfaceType::ServerSettings,
                    Some(
                        TuiInterfaceOpts::ServerSettings(
                            ServerSettingsOpts { server_id: self.server_id.clone() },
                        ),
                    ),
                );
            },
            Key::Tab => {
                self.focus = match self.focus {
                    ServerViewFocus::Users => ServerViewFocus::Vars,
                    ServerViewFocus::Vars => ServerViewFocus::Users,
                };
                return TuiAction::Stay;
            },
            Key::Up | Key::Char('k') => if sel > 0 {
                sel - 1
            } else {
                0
            },
            Key::Down | Key::Char('j') => if len > 0 && sel < len - 1 {
                sel + 1
            } else {
                sel
            },
            Key::Home => 0,
            Key::End => if len > 0 {
                len - 1
            } else {
                0
            },
            _ => sel,
        };
        match self.focus {
            ServerViewFocus::Users => self.users_selected = new_sel,
            ServerViewFocus::Vars => self.vars_selected = new_sel,
        }
        TuiAction::Stay
    }
}

/// What a key does in a server's settings: Esc or `q` go back to the
/// server's view; other keys do nothing.
pub open spec fn server_settings_key_done(s: TuiInterfaceServerSettings, key: Key, r: TuiAction) -> bool {
    &&& (key == Key::Esc || key == Key::Char('q')) ==> (r matches TuiAction::ChangeInterface(
        t,
        Some(TuiInterfaceOpts::ServerView(o)),
    ) && t == TuiInterfaceType::ServerView && o.server_id == s.server_id)
    &&& !(key == Key::Esc || key == Key::Char('q')) ==> r is Stay
}

impl TuiInterfaceServerSettings {
    /// Handles a key in a server's settings (see `server_settings_key_done`).
    pub fn handle_key(&self, key: Key) -> (r: TuiAction)
        ensures
            server_settings_key_done(*self, key, r),
    {
        match key {
            Key::Esc | Key::Char('q') => TuiAction::ChangeInterface(
                TuiInterfaceType::ServerView,
                Some(TuiInterfaceOpts::ServerView(ServerViewOpts { server_id: self.server_id.clone() })),
            ),
            _ => TuiAction::Stay,
        }
    }
}

/// What a key does in the settings and about interfaces: Esc or `q` quit;
/// other keys do nothing.
pub open spec fn quit_key_done(key: Key, r: TuiAction) -> bool {
    &&& (key == Key::Esc || key == Key::Char('q')) ==> r is Exit
    &&& !(key == Key::Esc || key == Key::Char('q')) ==> r is Stay
}

/// Handles a key in the settings and about interfaces (see
/// `quit_key_done`).
pub fn quit_on_escape(key: Key) -> (r: TuiAction)
    ensures
        quit_key_done(key, r),
{
    match key {
        Key::Esc | Key::Char('q') => TuiAction::Exit,
        _ => TuiAction::Stay,
    }
}

impl TuiInterfaceServerView {
    /// The position of this view's server among the running servers, by id.
    pub fn get_server_by_id(&self, server_ids: &Vec<String>) -> (r: Option<usize>)
        ensures
            match r {
                Some(i) => i < server_ids@.len() && server_ids@[i as int]@ == self.server_id@
                    && forall|k: int| 0 <= k < i ==> (#[trigger] server_ids@[k])@ != self.server_id@,
                None => forall|k: int|
                    0 <= k < server_ids@.len() ==> (#[trigger] server_ids@[k])@ != self.server_id@,
            },
    {
        let mut i: usize = 0;
        while i < server_ids.len()
            invariant
                i <= server_ids@.len(),
                forall|k: int| 0 <= k < i ==> (#[trigger] server_ids@[k])@ != self.server_id@,
            decreases server_ids@.len() - i,
        {
            if server_ids[i] == self.server_id {
                return Some(i);
            }
            i = i + 1;
        }
        None
    }
}

/// What the logs interface draws.
#[derive(Debug, Default)]
pub struct TuiInterfaceLogsDrawData {
    pub buffer_snapshot: Vec<LogBufferData>,
}

pub(crate) fn copy_buffer(v: &Vec<LogBufferData>) -> (r: Vec<LogBufferData>)
    ensures
        r@ == v@,
{
    let mut r: Vec<LogBufferData> = Vec::new();
    let mut i: usize = 0;
    while i < v.len()
        invariant
            i <= v@.len(),
            r@ == v@.take(i as int),
        decreases v@.len() - i,
    {
        r.push(v[i].clone());
        i = i + 1;
        assert(r@ =~= v@.take(i as int));
    }
    assert(r@ =~= v@);
    r
}

impl TuiInterfaceLogs {
    /// The lines to draw. While scrolled up, the lines kept from before, so
    /// that they do not move; otherwise the current buffer, which is kept
    /// for later. `current` is `None` when the buffer could not be read, and
    /// then there is nothing to draw.
    pub fn snapshot(&mut self, current: Option<Vec<LogBufferData>>) -> (r: Option<
        TuiInterfaceLogsDrawData,
    >)
        ensures
            final(self).scroll_offset == old(self).scroll_offset,
            final(self).content_len == old(self).content_len,
            final(self).viewport_height == old(self).viewport_height,
            old(self).scroll_offset > 0 ==> final(self).previous_buffer@
                == old(self).previous_buffer@ && (r matches Some(d) && d.buffer_snapshot@
                == old(self).previous_buffer@),
            old(self).scroll_offset == 0 ==> match current {
                Some(b) => final(self).previous_buffer@ == b@ && (r matches Some(d)
                    && d.buffer_snapshot@ == b@),
                None => r is None && final(self).previous_buffer@ == old(self).previous_buffer@,
            },
    {
        if self.scroll_offset > 0 {
            return Some(TuiInterfaceLogsDrawData { buffer_snapshot: copy_buffer(&self.previous_buffer) });
        }
        match current {
            Some(b) => {
                self.previous_buffer = copy_buffer(&b);
                Some(TuiInterfaceLogsDrawData { buffer_snapshot: b })
            },
            None => None,
        }
    }
}

/// A server as the dashboard shows it.
#[derive(Debug)]
pub struct ServerTableSnapshow {
    pub id: String,
    pub latency_history: Vec<ServerLatency>,
    pub server: Server,
    pub data: ServerData,
    pub status: ServerStatus,
}

/// What the dashboard draws.
#[derive(Debug, Default)]
pub struct TuiInterfaceDashboardDrawData {
    pub server_snapshots: Vec<ServerTableSnapshow>,
}

/// What the server view draws.
#[derive(Debug)]
pub struct TuiInterfaceServerViewDrawData {
    pub id: String,
    pub server: Server,
    pub data: ServerData,
    pub latency_history: Vec<ServerLatency>,
    pub statuses: ServerStatuses,
    pub status: ServerStatus,
}

/// The add-server form draws from its own state only.
#[derive(Debug, Default)]
pub struct TuiInterfaceServerNewDrawData {}

/// The settings interface draws from nothing yet.
#[derive(Debug, Default)]
pub struct TuiInterfaceSettingsDrawData {}

/// The about interface draws from nothing but constants.
#[derive(Debug, Default)]
pub struct TuiInterfaceAboutDrawData {}

/// The server settings interface draws from nothing yet.
#[derive(Debug, Default)]
pub struct TuiInterfaceServerSettingsDrawData {}

/// What an interface draws, by interface.
#[derive(Debug)]
pub enum TuiInterfaceDrawData {
    Dashboard(TuiInterfaceDashboardDrawData),
    Logs(TuiInterfaceLogsDrawData),
    Settings(TuiInterfaceSettingsDrawData),
    About(TuiInterfaceAboutDrawData),
    ServerView(TuiInterfaceServerViewDrawData),
    ServerNew(TuiInterfaceServerNewDrawData),
    ServerSettings(TuiInterfaceServerSettingsDrawData),
}

} // verus!
