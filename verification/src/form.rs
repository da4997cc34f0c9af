//! The "add server" form: its fields, how keys edit them, and how a filled
//! form is checked and turned into a stored server record.
use vstd::prelude::*;
use crate::server::{
    spec_query_type_from_port, Query, ServerLatencyType, ServerQueryType,
    DEFAULT_LATENCY_HISTORY_SIZE, DEFAULT_QUERY_INTERVAL, DEFAULT_QUERY_TIMEOUT,
};
use crate::store::ServerStore;
use crate::tui::{Key, ServerViewOpts, TuiAction, TuiInterfaceOpts, TuiInterfaceType};
use crate::text::{
    char_is_whitespace, chars_of, decimal, decimal_string, is_ascii_digit, is_control,
    is_whitespace, parse_unsigned, parse_unsigned_chars, push_decimal, string_of, string_pop,
    string_push, trim, trim_chars,
};

verus! {

/// A field of the form.
#[derive(Debug, Clone, Copy, PartialEq, Eq, Structural)]
pub enum ServerNewField {
    Address,
    Port,
    QueryType,
    QueryPort,
    Name,
    Interval,
    Timeout,
    LatencyType,
    Save,
}

impl ServerNewField {
    /// The fields in the order focus moves through them.
    pub const ALL: [ServerNewField; 9] = [
        ServerNewField::Address,
        ServerNewField::Port,
        ServerNewField::QueryType,
        ServerNewField::QueryPort,
        ServerNewField::Name,
        ServerNewField::Interval,
        ServerNewField::Timeout,
        ServerNewField::LatencyType,
        ServerNewField::Save,
    ];

    /// The field at a position of `ALL`.
    pub open spec fn spec_at(i: int) -> ServerNewField {
        if i == 0 {
            ServerNewField::Address
        } else if i == 1 {
            ServerNewField::Port
        } else if i == 2 {
            ServerNewField::QueryType
        } else if i == 3 {
            ServerNewField::QueryPort
        } else if i == 4 {
            ServerNewField::Name
        } else if i == 5 {
            ServerNewField::Interval
        } else if i == 6 {
            ServerNewField::Timeout
        } else if i == 7 {
            ServerNewField::LatencyType
        } else {
            ServerNewField::Save
        }
    }

    pub fn at(i: usize) -> (r: ServerNewField)
        ensures
            r == Self::spec_at(i as int),
    {
        if i == 0 {
            ServerNewField::Address
        } else if i == 1 {
            ServerNewField::Port
        } else if i == 2 {
            ServerNewField::QueryType
        } else if i == 3 {
            ServerNewField::QueryPort
        } else if i == 4 {
            ServerNewField::Name
        } else if i == 5 {
            ServerNewField::Interval
        } else if i == 6 {
            ServerNewField::Timeout
        } else if i == 7 {
            ServerNewField::LatencyType
        } else {
            ServerNewField::Save
        }
    }

    pub open spec fn spec_label(self) -> Seq<char> {
        match self {
            ServerNewField::Address => "Address"@,
            ServerNewField::Port => "Port"@,
            ServerNewField::QueryType => "Query Type"@,
            ServerNewField::QueryPort => "Query Port"@,
            ServerNewField::Name => "Name"@,
            ServerNewField::Interval => "Interval"@,
            ServerNewField::Timeout => "Timeout"@,
            ServerNewField::LatencyType => "Latency"@,
            ServerNewField::Save => "Save"@,
        }
    }

    /// The field's label.
    pub fn label(&self) -> (r: &'static str)
        ensures
            r@ == self.spec_label(),
    {
        match self {
            ServerNewField::Address => "Address",
            ServerNewField::Port => "Port",
            ServerNewField::QueryType => "Query Type",
            ServerNewField::QueryPort => "Query Port",
            ServerNewField::Name => "Name",
            ServerNewField::Interval => "Interval",
            ServerNewField::Timeout => "Timeout",
            ServerNewField::LatencyType => "Latency",
            ServerNewField::Save => "Save",
        }
    }

    pub open spec fn spec_hint(self) -> Seq<char> {
        match self {
            ServerNewField::Address => "IP or hostname of the server"@,
            ServerNewField::Port => "Port players connect to"@,
            ServerNewField::QueryType => "← → to change, auto is guessed from the port"@,
            ServerNewField::QueryPort => "Only when queries go to another port (optional)"@,
            ServerNewField::Name => "Shown instead of the reported name (optional)"@,
            ServerNewField::Interval => "How often the server is queried, in milliseconds"@,
            ServerNewField::Timeout => "How long to wait for a reply, in milliseconds"@,
            ServerNewField::LatencyType => "← → to change how latency is measured"@,
            ServerNewField::Save => "← → to toggle whether the server is persisted"@,
        }
    }

    /// The help line shown while the field has focus.
    pub fn hint(&self) -> (r: &'static str)
        ensures
            r@ == self.spec_hint(),
    {
        match self {
            ServerNewField::Address => "IP or hostname of the server",
            ServerNewField::Port => "Port players connect to",
            ServerNewField::QueryType => "← → to change, auto is guessed from the port",
            ServerNewField::QueryPort => "Only when queries go to another port (optional)",
            ServerNewField::Name => "Shown instead of the reported name (optional)",
            ServerNewField::Interval => "How often the server is queried, in milliseconds",
            ServerNewField::Timeout => "How long to wait for a reply, in milliseconds",
            ServerNewField::LatencyType => "← → to change how latency is measured",
            ServerNewField::Save => "← → to toggle whether the server is persisted",
        }
    }

    pub open spec fn spec_is_text(self) -> bool {
        !(self is QueryType || self is LatencyType || self is Save)
    }

    /// Whether the field is edited by typing rather than by cycling through
    /// values.
    pub fn is_text(&self) -> (r: bool)
        ensures
            r == self.spec_is_text(),
    {
        !matches!(self, ServerNewField::QueryType | ServerNewField::LatencyType | ServerNewField::Save)
    }

    pub open spec fn spec_is_numeric(self) -> bool {
        self is Port || self is QueryPort || self is Interval || self is Timeout
    }

    /// Whether the field only takes digits.
    pub fn is_numeric(&self) -> (r: bool)
        ensures
            r == self.spec_is_numeric(),
    {
        matches!(
            self,
            ServerNewField::Port | ServerNewField::QueryPort | ServerNewField::Interval
                | ServerNewField::Timeout
        )
    }
}

/// The state of the form, as text and values.
pub struct ServerNewFormView {
    pub address: Seq<char>,
    pub port: Seq<char>,
    pub query_type: Option<ServerQueryType>,
    pub query_port: Seq<char>,
    pub name: Seq<char>,
    pub interval: Seq<char>,
    pub timeout: Seq<char>,
    pub latency_type: ServerLatencyType,
    pub save: bool,
    pub focus: usize,
    pub error: Option<Seq<char>>,
}

/// The "add server" form.
#[derive(Debug, Clone)]
pub struct TuiInterfaceServerNew {
    pub address: String,
    pub port: String,
    /// `None` means the query type is guessed from the port.
    pub query_type: Option<ServerQueryType>,
    pub query_port: String,
    pub name: String,
    pub interval: String,
    pub timeout: String,
    pub latency_type: ServerLatencyType,
    pub save: bool,
    pub focus: usize,
    pub error: Option<String>,
}

impl View for TuiInterfaceServerNew {
    type V = ServerNewFormView;

    open spec fn view(&self) -> ServerNewFormView {
        ServerNewFormView {
            address: self.address@,
            port: self.port@,
            query_type: self.query_type,
            query_port: self.query_port@,
            name: self.name@,
            interval: self.interval@,
            timeout: self.timeout@,
            latency_type: self.latency_type,
            save: self.save,
            focus: self.focus,
            error: match self.error {
                Some(e) => Some(e@),
                None => None,
            },
        }
    }
}

/// The position of a query-type choice in the list the form cycles
/// through: automatic first, then every protocol.
pub open spec fn query_choice_pos(q: Option<ServerQueryType>) -> int {
    match q {
        Some(t) => t.spec_index() + 1,
        None => 0,
    }
}

/// The query-type choice at a position of that list.
pub open spec fn query_choice_at(p: int) -> Option<ServerQueryType> {
    if p == 0 {
        None
    } else {
        Some(ServerQueryType::spec_at(p - 1))
    }
}

/// One step through a cyclic list of `len` entries.
pub open spec fn step(pos: int, len: int, forward: bool) -> int {
    if forward {
        (pos + 1) % len
    } else {
        (pos + len - 1) % len
    }
}

impl ServerNewFormView {
    /// The focused field: the last one when the focus is out of range.
    pub open spec fn field(self) -> ServerNewField {
        ServerNewField::spec_at(if self.focus < 8 { self.focus as int } else { 8 })
    }

    /// The text of a text field.
    pub open spec fn text(self, f: ServerNewField) -> Option<Seq<char>> {
        match f {
            ServerNewField::Address => Some(self.address),
            ServerNewField::Port => Some(self.port),
            ServerNewField::QueryPort => Some(self.query_port),
            ServerNewField::Name => Some(self.name),
            ServerNewField::Interval => Some(self.interval),
            ServerNewField::Timeout => Some(self.timeout),
            _ => None,
        }
    }

    /// The form with the text of field `f` replaced.
    pub open spec fn with_text(self, f: ServerNewField, t: Seq<char>) -> ServerNewFormView {
        match f {
            ServerNewField::Address => ServerNewFormView { address: t, ..self },
            ServerNewField::Port => ServerNewFormView { port: t, ..self },
            ServerNewField::QueryPort => ServerNewFormView { query_port: t, ..self },
            ServerNewField::Name => ServerNewFormView { name: t, ..self },
            ServerNewField::Interval => ServerNewFormView { interval: t, ..self },
            ServerNewField::Timeout => ServerNewFormView { timeout: t, ..self },
            _ => self,
        }
    }

    /// Whether typing `c` into the focused field changes it.
    pub open spec fn accepts(self, c: char) -> bool {
        let f = self.field();
        &&& f.spec_is_text()
        &&& (f.spec_is_numeric() ==> is_ascii_digit(c))
        &&& !is_control(c)
    }

    /// The form after `c` is typed.
    pub open spec fn inserted(self, c: char) -> ServerNewFormView {
        if self.accepts(c) {
            self.with_text(self.field(), self.text(self.field()).unwrap().push(c))
        } else {
            self
        }
    }

    /// The form after backspace: the focused text field loses its last
    /// character.
    pub open spec fn backspaced(self) -> ServerNewFormView {
        match self.text(self.field()) {
            Some(t) => if t.len() > 0 {
                self.with_text(self.field(), t.drop_last())
            } else {
                self
            },
            None => self,
        }
    }

    /// The form after its focused choice field moves to the next or the
    /// previous value; other fields are left alone.
    pub open spec fn cycled(self, forward: bool) -> ServerNewFormView {
        match self.field() {
            ServerNewField::QueryType => ServerNewFormView {
                query_type: query_choice_at(step(query_choice_pos(self.query_type), 8, forward)),
                ..self
            },
            ServerNewField::LatencyType => ServerNewFormView {
                latency_type: ServerLatencyType::spec_at(
                    step(self.latency_type.spec_index(), 7, forward),
                ),
                ..self
            },
            ServerNewField::Save => ServerNewFormView { save: !self.save, ..self },
            _ => self,
        }
    }

    /// The text shown for a field.
    pub open spec fn value(self, f: ServerNewField) -> Seq<char> {
        match f {
            ServerNewField::QueryType => match self.query_type {
                Some(q) => q.spec_name() + " ("@ + q.spec_description() + ")"@,
                None => "Auto (from port)"@,
            },
            ServerNewField::LatencyType => self.latency_type.spec_name(),
            ServerNewField::Save => if self.save {
                "Yes"@
            } else {
                "No"@
            },
            _ => self.text(f).unwrap(),
        }
    }
}

/// Moving the focus forward and then back returns to the same field.
pub proof fn lemma_focus_next_prev(focus: int)
    requires
        0 <= focus < 9,
    ensures
        step(step(focus, 9, true), 9, false) == focus,
        step(step(focus, 9, false), 9, true) == focus,
        0 <= step(focus, 9, true) < 9,
{
}

/// Changing a choice field forward and then back restores the form.
pub proof fn lemma_cycle_round_trip(form: ServerNewFormView)
    ensures
        form.cycled(true).cycled(false) == form,
        form.cycled(false).cycled(true) == form,
{
    let p = query_choice_pos(form.query_type);
    assert(0 <= p < 8);
    assert(query_choice_pos(query_choice_at(step(p, 8, true))) == step(p, 8, true));
    assert(query_choice_pos(query_choice_at(step(p, 8, false))) == step(p, 8, false));
    assert(query_choice_at(p) == form.query_type);
    let l = form.latency_type.spec_index();
    assert(ServerLatencyType::spec_at(l) == form.latency_type);
    assert(ServerLatencyType::spec_at(step(l, 7, true)).spec_index() == step(l, 7, true));
    assert(ServerLatencyType::spec_at(step(l, 7, false)).spec_index() == step(l, 7, false));
}

/// Backspace takes back a character that typing added.
pub proof fn lemma_insert_then_backspace(form: ServerNewFormView, c: char)
    requires
        form.accepts(c),
    ensures
        form.inserted(c).backspaced() == form,
{
    let f = form.field();
    let t = form.text(f).unwrap();
    assert(t.push(c).drop_last() =~= t);
}

/// A numeric field only ever receives digits.
pub proof fn lemma_numeric_fields_take_digits(form: ServerNewFormView, c: char)
    requires
        form.field().spec_is_numeric(),
        !is_ascii_digit(c),
    ensures
        form.inserted(c) == form,
{
}

/// What `str::parse::<u16>` on the trimmed text gives, when it is not zero.
pub open spec fn spec_parse_port(v: Seq<char>) -> Option<u16> {
    match parse_unsigned(trim(v), 65535) {
        Some(n) => if n > 0 {
            Some(n as u16)
        } else {
            None
        },
        None => None,
    }
}

/// What `str::parse::<u64>` on the trimmed text gives, when it is not zero.
pub open spec fn spec_parse_positive(v: Seq<char>) -> Option<u64> {
    match parse_unsigned(trim(v), 0xffff_ffff_ffff_ffff) {
        Some(n) => if n > 0 {
            Some(n as u64)
        } else {
            None
        },
        None => None,
    }
}

/// Why a filled form cannot become a server.
#[derive(Debug, PartialEq, Eq)]
pub enum FormError {
    AddressRequired,
    AddressWithPort,
    /// The named field holds no port between 1 and 65535.
    NotAPort { label: String },
    /// The named field holds no number greater than 0.
    NotPositive { label: String },
    /// No query type is chosen and none is known for the port.
    UnknownQueryPort { port: u16 },
    ResolveFailed { address: String, reason: String },
    ResolveTimedOut { address: String },
}

/// A form error with its texts as character sequences.
pub enum FormErrorView {
    AddressRequired,
    AddressWithPort,
    NotAPort { label: Seq<char> },
    NotPositive { label: Seq<char> },
    UnknownQueryPort { port: u16 },
    ResolveFailed { address: Seq<char>, reason: Seq<char> },
    ResolveTimedOut { address: Seq<char> },
}

impl View for FormError {
    type V = FormErrorView;

    open spec fn view(&self) -> FormErrorView {
        match self {
            FormError::AddressRequired => FormErrorView::AddressRequired,
            FormError::AddressWithPort => FormErrorView::AddressWithPort,
            FormError::NotAPort { label } => FormErrorView::NotAPort { label: label@ },
            FormError::NotPositive { label } => FormErrorView::NotPositive { label: label@ },
            FormError::UnknownQueryPort { port } => FormErrorView::UnknownQueryPort { port: *port },
            FormError::ResolveFailed { address, reason } => FormErrorView::ResolveFailed {
                address: address@,
                reason: reason@,
            },
            FormError::ResolveTimedOut { address } => FormErrorView::ResolveTimedOut {
                address: address@,
            },
        }
    }
}

impl FormErrorView {
    pub open spec fn message(self) -> Seq<char> {
        match self {
            FormErrorView::AddressRequired => "An address is required."@,
            FormErrorView::AddressWithPort => "Enter the address without a port, e.g. 127.0.0.1."@,
            FormErrorView::NotAPort { label } => label + " must be a number between 1 and 65535."@,
            FormErrorView::NotPositive { label } => label + " must be a number greater than 0."@,
            FormErrorView::UnknownQueryPort { port } => "Can't guess a query type for port "@
                + decimal(port as nat) + ". Pick one instead."@,
            FormErrorView::ResolveFailed { address, reason } => "Failed to resolve '"@ + address
                + "': "@ + reason,
            FormErrorView::ResolveTimedOut { address } => "Timed out resolving '"@ + address
                + "'."@,
        }
    }
}

impl FormError {
    /// The text shown under the form.
    pub fn message(&self) -> (r: String)
        ensures
            r@ == self@.message(),
    {
        let r = match self {
            FormError::AddressRequired => String::from_str("An address is required."),
            FormError::AddressWithPort => String::from_str(
                "Enter the address without a port, e.g. 127.0.0.1.",
            ),
            FormError::NotAPort { label } => {
                let mut r = label.clone();
                r.append(" must be a number between 1 and 65535.");
                r
            },
            FormError::NotPositive { label } => {
                let mut r = label.clone();
                r.append(" must be a number greater than 0.");
                r
            },
            FormError::UnknownQueryPort { port } => {
                let mut r = String::from_str("Can't guess a query type for port ");
                push_decimal(&mut r, *port as u64);
                r.append(". Pick one instead.");
                r
            },
            FormError::ResolveFailed { address, reason } => {
                let mut r = String::from_str("Failed to resolve '");
                r.append(address.as_str());
                r.append("': ");
                r.append(reason.as_str());
                r
            },
            FormError::ResolveTimedOut { address } => {
                let mut r = String::from_str("Timed out resolving '");
                r.append(address.as_str());
                r.append("'.");
                r
            },
        };
        assert(r@ =~= self@.message());
        r
    }
}

/// How the lookup of the address ended.
#[derive(Debug, PartialEq, Eq)]
pub enum ResolveOutcome {
    Resolved,
    Failed { reason: String },
    TimedOut,
}

/// The address, ports and protocol of a filled form, checked but not yet
/// resolved.
#[derive(Debug, PartialEq, Eq)]
pub struct ServerTarget {
    pub address: String,
    pub port: u16,
    pub query_port: Option<u16>,
    pub query_type: ServerQueryType,
}

/// An address may hold neither whitespace nor a port.
pub open spec fn address_has_port_or_space(a: Seq<char>) -> bool {
    exists|i: int| 0 <= i < a.len() && (is_whitespace(#[trigger] a[i]) || a[i] == ':')
}

/// What a form gives before its address is resolved: the address, ports
/// and protocol, or the first problem found.
pub open spec fn spec_parse_target(form: ServerNewFormView) -> Result<
    (Seq<char>, u16, Option<u16>, ServerQueryType),
    FormErrorView,
> {
    let a = trim(form.address);
    if a.len() == 0 {
        Err(FormErrorView::AddressRequired)
    } else if address_has_port_or_space(a) {
        Err(FormErrorView::AddressWithPort)
    } else {
        match spec_parse_port(form.port) {
            None => Err(FormErrorView::NotAPort { label: "Port"@ }),
            Some(port) => {
                let qp: Result<Option<u16>, FormErrorView> = if trim(form.query_port).len() == 0 {
                    Ok(None)
                } else {
                    match spec_parse_port(form.query_port) {
                        Some(p) => Ok(Some(p)),
                        None => Err(FormErrorView::NotAPort { label: "Query port"@ }),
                    }
                };
                match qp {
                    Err(e) => Err(e),
                    Ok(query_port) => {
                        let guess_port = match query_port {
                            Some(p) => p,
                            None => port,
                        };
                        match form.query_type {
                            Some(t) => Ok((a, port, query_port, t)),
                            None => match spec_query_type_from_port(guess_port) {
                                Some(t) => Ok((a, port, query_port, t)),
                                None => Err(FormErrorView::UnknownQueryPort { port: guess_port }),
                            },
                        }
                    },
                }
            },
        }
    }
}

/// A fresh form: every text empty but the default interval and timeout,
/// the protocol guessed, the default latency method, saving on, the first
/// field focused and no error.
pub open spec fn new_form_view() -> ServerNewFormView {
    ServerNewFormView {
        address: Seq::empty(),
        port: Seq::empty(),
        query_type: None,
        query_port: Seq::empty(),
        name: Seq::empty(),
        interval: decimal(DEFAULT_QUERY_INTERVAL as nat),
        timeout: decimal(DEFAULT_QUERY_TIMEOUT as nat),
        latency_type: ServerLatencyType::SelfInfo,
        save: true,
        focus: 0,
        error: None,
    }
}

impl Default for TuiInterfaceServerNew {
    fn default() -> (r: Self)
        ensures
            r@ == new_form_view(),
    {
        TuiInterfaceServerNew::new()
    }
}

/// The label of a numeric field as error messages name it.
fn label_string(s: &str) -> (r: String)
    ensures
        r@ == s@,
{
    String::from_str(s)
}

impl TuiInterfaceServerNew {
    /// An empty form with the default interval, timeout and latency method,
    /// saving on.
    pub fn new() -> (r: Self)
        ensures
            r@ == new_form_view(),
    {
        TuiInterfaceServerNew {
            address: String::new(),
            port: String::new(),
            query_type: None,
            query_port: String::new(),
            name: String::new(),
            interval: decimal_string(DEFAULT_QUERY_INTERVAL),
            timeout: decimal_string(DEFAULT_QUERY_TIMEOUT),
            latency_type: ServerLatencyType::SelfInfo,
            save: true,
            focus: 0,
            error: None,
        }
    }

    /// The text of a text field, to edit in place; none for a choice field.
    fn text_mut(&mut self, field: ServerNewField) -> (r: Option<&mut String>)
        ensures
            old(self)@.text(field) is None ==> r is None && *final(self) == *old(self),
            old(self)@.text(field) matches Some(t) ==> (r matches Some(s) && s@ == t
                && final(self)@ == old(self)@.with_text(field, final(s)@)),
    {
        match field {
            ServerNewField::Address => Some(&mut self.address),
            ServerNewField::Port => Some(&mut self.port),
            ServerNewField::QueryPort => Some(&mut self.query_port),
            ServerNewField::Name => Some(&mut self.name),
            ServerNewField::Interval => Some(&mut self.interval),
            ServerNewField::Timeout => Some(&mut self.timeout),
            _ => None,
        }
    }

    /// The focused field; the last one when the focus is out of range.
    pub fn field(&self) -> (r: ServerNewField)
        ensures
            r == self@.field(),
    {
        ServerNewField::at(if self.focus < 8 {
            self.focus
        } else {
            8
        })
    }

    /// The text shown for a field.
    pub fn value(&self, field: ServerNewField) -> (r: String)
        ensures
            r@ == self@.value(field),
    {
        match field {
            ServerNewField::Address => self.address.clone(),
            ServerNewField::Port => self.port.clone(),
            ServerNewField::QueryType => match self.query_type {
                Some(q) => {
                    let mut r = String::from_str(q.name());
                    r.append(" (");
                    r.append(q.description());
                    r.append(")");
                    r
                },
                None => String::from_str("Auto (from port)"),
            },
            ServerNewField::QueryPort => self.query_port.clone(),
            ServerNewField::Name => self.name.clone(),
            ServerNewField::Interval => self.interval.clone(),
            ServerNewField::Timeout => self.timeout.clone(),
            ServerNewField::LatencyType => String::from_str(self.latency_type.name()),
            ServerNewField::Save => if self.save {
                String::from_str("Yes")
            } else {
                String::from_str("No")
            },
        }
    }

    /// Moves the focus to the next field, from the last back to the first.
    pub fn focus_next(&mut self)
        ensures
            final(self)@ == (ServerNewFormView {
                focus: step(old(self).focus as int, 9, true) as usize,
                ..old(self)@
            }),
    {
        self.focus = (self.focus % 9 + 1) % 9;
    }

    /// Moves the focus to the previous field, from the first to the last.
    pub fn focus_prev(&mut self)
        ensures
            final(self)@ == (ServerNewFormView {
                focus: step(old(self).focus as int, 9, false) as usize,
                ..old(self)@
            }),
    {
        self.focus = (self.focus % 9 + 8) % 9;
    }

    /// Moves the focused choice field to its next or previous value.
    pub fn cycle(&mut self, forward: bool)
        ensures
            final(self)@ == old(self)@.cycled(forward),
    {
        match self.field() {
            ServerNewField::QueryType => {
                let len: usize = 8;
                let current: usize = match self.query_type {
                    Some(q) => q.index() + 1,
                    None => 0,
                };
                let next = if forward {
                    (current + 1) % len
                } else {
                    (current + len - 1) % len
                };
                self.query_type = if next == 0 {
                    None
                } else {
                    Some(ServerQueryType::at(next - 1))
                };
            },
            ServerNewField::LatencyType => {
                let len: usize = 7;
                let current = self.latency_type.index();
                let next = if forward {
                    (current + 1) % len
                } else {
                    (current + len - 1) % len
                };
                self.latency_type = ServerLatencyType::at(next);
                assert(self.latency_type == ServerLatencyType::spec_at(next as int));
            },
            ServerNewField::Save => self.save = !self.save,
            _ => {},
        }
    }

    /// Types `c` into the focused field, when it is a text field that takes
    /// the character.
    pub fn insert(&mut self, c: char)
        ensures
            final(self)@ == old(self)@.inserted(c),
    {
        let field = self.field();
        if !field.is_text() {
            return;
        }
        if field.is_numeric() && !('0' <= c && c <= '9') {
            return;
        }
        if c <= '\u{1f}' || ('\u{7f}' <= c && c <= '\u{9f}') {
            return;
        }
        if let Some(value) = self.text_mut(field) {
            string_push(value, c);
        }
    }

    /// Deletes the last character of the focused text field.
    pub fn backspace(&mut self)
        ensures
            final(self)@ == old(self)@.backspaced(),
    {
        let field = self.field();
        if let Some(value) = self.text_mut(field) {
            string_pop(value);
        }
    }

    /// Reads a port between 1 and 65535; the error names the field.
    pub fn parse_port(value: &str, label: &str) -> (r: Result<u16, FormError>)
        ensures
            match r {
                Ok(p) => spec_parse_port(value@) == Some(p),
                Err(e) => spec_parse_port(value@) is None && e@ == (FormErrorView::NotAPort {
                    label: label@,
                }),
            },
    {
        let t = trim_chars(value);
        match parse_unsigned_chars(t.as_slice(), 65535) {
            Some(p) => if p > 0 {
                Ok(p as u16)
            } else {
                Err(FormError::NotAPort { label: label_string(label) })
            },
            None => Err(FormError::NotAPort { label: label_string(label) }),
        }
    }

    /// Reads a number greater than 0; the error names the field.
    pub fn parse_interval(value: &str, label: &str) -> (r: Result<u64, FormError>)
        ensures
            match r {
                Ok(v) => spec_parse_positive(value@) == Some(v),
                Err(e) => spec_parse_positive(value@) is None && e@ == (FormErrorView::NotPositive {
                    label: label@,
                }),
            },
    {
        let t = trim_chars(value);
        match parse_unsigned_chars(t.as_slice(), 0xffff_ffff_ffff_ffff) {
            Some(v) => if v > 0 {
                Ok(v)
            } else {
                Err(FormError::NotPositive { label: label_string(label) })
            },
            None => Err(FormError::NotPositive { label: label_string(label) }),
        }
    }

    /// Checks the address, ports and protocol of the form; the protocol is
    /// guessed from the query port, or else the game port, when none is
    /// chosen.
    pub fn parse_target(&self) -> (r: Result<ServerTarget, FormError>)
        ensures
            match (r, spec_parse_target(self@)) {
                (Ok(t), Ok((a, p, qp, qt))) => t.address@ == a && t.port == p && t.query_port
                    == qp && t.query_type == qt,
                (Err(e), Err(ev)) => e@ == ev,
                _ => false,
            },
    {
        proof {
            reveal_strlit("Port");
            reveal_strlit("Query port");
        }
        let a = trim_chars(self.address.as_str());
        if a.len() == 0 {
            return Err(FormError::AddressRequired);
        }
        let mut i: usize = 0;
        while i < a.len()
            invariant
                i <= a@.len(),
                a@ == trim(self@.address),
                a@.len() > 0,
                forall|j: int| 0 <= j < i ==> !(is_whitespace(#[trigger] a@[j]) || a@[j] == ':'),
            decreases a@.len() - i,
        {
            if char_is_whitespace(a[i]) || a[i] == ':' {
                assert(address_has_port_or_space(a@));
                return Err(FormError::AddressWithPort);
            }
            i = i + 1;
        }
        let port = match Self::parse_port(self.port.as_str(), "Port") {
            Ok(p) => p,
            Err(e) => return Err(e),
        };
        let qp_text = trim_chars(self.query_port.as_str());
        let query_port = if qp_text.len() == 0 {
            None
        } else {
            match Self::parse_port(self.query_port.as_str(), "Query port") {
                Ok(p) => Some(p),
                Err(e) => return Err(e),
            }
        };
        let guess_port = match query_port {
            Some(p) => p,
            None => port,
        };
        let query_type = match self.query_type {
            Some(t) => t,
            None => match Query::get_query_type_from_port(guess_port) {
                Some(t) => t,
                None => return Err(FormError::UnknownQueryPort { port: guess_port }),
            },
        };
        Ok(ServerTarget { address: string_of(a.as_slice()), port, query_port, query_type })
    }

    /// Turns a checked target into a server record once its address has been
    /// resolved; the name is trimmed and left out when empty, and the
    /// interval and timeout must be positive.
    pub fn build_record(&self, target: ServerTarget, resolved: ResolveOutcome) -> (r: Result<
        ServerStore,
        FormError,
    >)
        ensures
            match resolved {
                ResolveOutcome::Failed { reason } => r matches Err(e) && e@
                    == (FormErrorView::ResolveFailed {
                    address: target.address@,
                    reason: reason@,
                }),
                ResolveOutcome::TimedOut => r matches Err(e) && e@ == (FormErrorView::ResolveTimedOut {
                    address: target.address@,
                }),
                ResolveOutcome::Resolved => match (
                    spec_parse_positive(self.interval@),
                    spec_parse_positive(self.timeout@),
                ) {
                    (None, _) => r matches Err(e) && e@ == (FormErrorView::NotPositive {
                        label: "Interval"@,
                    }),
                    (Some(_), None) => r matches Err(e) && e@ == (FormErrorView::NotPositive {
                        label: "Timeout"@,
                    }),
                    (Some(iv), Some(to)) => r matches Ok(s) && {
                        &&& s.id@.len() == 0
                        &&& s.ip@ == target.address@
                        &&& s.port == target.port
                        &&& s.port_query == target.query_port
                        &&& s.display_name_view() == spec_display_name(self.name@)
                        &&& s.query_type == target.query_type
                        &&& s.query_interval == iv
                        &&& s.query_timeout == to
                        &&& s.latency_type == self.latency_type
                        &&& s.latency_interval is None
                        &&& s.latency_timeout is None
                        &&& s.latency_history_size == DEFAULT_LATENCY_HISTORY_SIZE
                    },
                },
            },
    {
        proof {
            reveal_strlit("Interval");
            reveal_strlit("Timeout");
        }
        match resolved {
            ResolveOutcome::Resolved => {},
            ResolveOutcome::Failed { reason } => {
                return Err(FormError::ResolveFailed { address: target.address, reason });
            },
            ResolveOutcome::TimedOut => {
                return Err(FormError::ResolveTimedOut { address: target.address });
            },
        }
        let name = trim_chars(self.name.as_str());
        let display_name = if name.len() == 0 {
            None
        } else {
            Some(string_of(name.as_slice()))
        };
        let query_interval = match Self::parse_interval(self.interval.as_str(), "Interval") {
            Ok(v) => v,
            Err(e) => return Err(e),
        };
        let query_timeout = match Self::parse_interval(self.timeout.as_str(), "Timeout") {
            Ok(v) => v,
            Err(e) => return Err(e),
        };
        Ok(
            ServerStore {
                id: String::new(),
                ip: target.address,
                port: target.port,
                port_query: target.query_port,
                display_name,
                query_interval,
                query_timeout,
                query_type: target.query_type,
                latency_interval: None,
                latency_timeout: None,
                latency_type: self.latency_type,
                latency_history_size: DEFAULT_LATENCY_HISTORY_SIZE,
            },
        )
    }
}

/// The display name a form's name field gives: trimmed, and none when
/// empty.
pub open spec fn spec_display_name(name: Seq<char>) -> Option<Seq<char>> {
    if trim(name).len() == 0 {
        None
    } else {
        Some(trim(name))
    }
}


/// What a key press asks of the form's owner.
#[derive(Debug)]
pub enum FormKey {
    /// Check the form and add the server.
    Submit,
    /// What the interface asks for: leaving for the dashboard, or nothing
    /// after an edit.
    Action(TuiAction),
}

impl ServerNewFormView {
    /// The form after a key that edits it.
    pub open spec fn after_key(self, key: Key) -> ServerNewFormView {
        match key {
            Key::Tab | Key::Down => ServerNewFormView {
                focus: step(self.focus as int, 9, true) as usize,
                ..self
            },
            Key::BackTab | Key::Up => ServerNewFormView {
                focus: step(self.focus as int, 9, false) as usize,
                ..self
            },
            Key::Right => self.cycled(true),
            Key::Left => self.cycled(false),
            Key::Backspace => self.backspaced(),
            Key::Char(c) => if c == ' ' && !self.field().spec_is_text() {
                self.cycled(true)
            } else {
                self.inserted(c)
            },
            _ => self,
        }
    }
}

impl TuiInterfaceServerNew {
    /// Esc cancels and Enter submits; Tab/Down and BackTab/Up move the focus;
    /// Right and Left change a choice field; Backspace deletes; space changes
    /// a choice field and is typed into a text field; other characters are
    /// typed.
    pub fn handle_key(&mut self, key: Key) -> (r: FormKey)
        ensures
            key == Key::Esc ==> (r matches FormKey::Action(TuiAction::ChangeInterface(t, None))
                && t == TuiInterfaceType::Dashboard) && final(self)@ == old(self)@,
            key == Key::Enter ==> r is Submit && final(self)@ == old(self)@,
            !(key == Key::Esc || key == Key::Enter) ==> (r matches FormKey::Action(TuiAction::Stay))
                && final(self)@ == old(self)@.after_key(key),
    {
        match key {
            Key::Esc => FormKey::Action(TuiAction::ChangeInterface(TuiInterfaceType::Dashboard, None)),
            Key::Enter => FormKey::Submit,
            Key::Tab | Key::Down => {
                self.focus_next();
                FormKey::Action(TuiAction::Stay)
            },
            Key::BackTab | Key::Up => {
                self.focus_prev();
                FormKey::Action(TuiAction::Stay)
            },
            Key::Right => {
                self.cycle(true);
                FormKey::Action(TuiAction::Stay)
            },
            Key::Left => {
                self.cycle(false);
                FormKey::Action(TuiAction::Stay)
            },
            Key::Backspace => {
                self.backspace();
                FormKey::Action(TuiAction::Stay)
            },
            Key::Char(c) => {
                if c == ' ' && !self.field().is_text() {
                    self.cycle(true);
                } else {
                    self.insert(c);
                }
                FormKey::Action(TuiAction::Stay)
            },
            _ => FormKey::Action(TuiAction::Stay),
        }
    }

    /// Ends a submission: a server added under `id` opens its view; a
    /// failure is shown under the form and the form stays.
    pub fn finish_submit(&mut self, outcome: Result<String, String>) -> (r: TuiAction)
        ensures
            match outcome {
                Ok(id) => final(self)@ == old(self)@ && (r matches TuiAction::ChangeInterface(
                    t,
                    Some(TuiInterfaceOpts::ServerView(o)),
                ) && t == TuiInterfaceType::ServerView && o.server_id == id),
                Err(msg) => final(self)@ == (ServerNewFormView { error: Some(msg@), ..old(self)@ })
                    && r is Stay,
            },
    {
        match outcome {
            Ok(id) => TuiAction::ChangeInterface(
                TuiInterfaceType::ServerView,
                Some(TuiInterfaceOpts::ServerView(ServerViewOpts { server_id: id })),
            ),
            Err(msg) => {
                self.error = Some(msg);
                TuiAction::Stay
            },
        }
    }
}

/// The field a focus position edits is the field listed at that position of
/// `ServerNewField::ALL`, the row drawn highlighted for that focus.
pub proof fn lemma_focus_edits_listed_field(form: ServerNewFormView)
    requires
        form.focus < 9,
    ensures
        form.field() == ServerNewField::ALL[form.focus as int],
{
}

} // verus!
