//! Stored server records, their conversion to and from runtime server
//! settings, and the record list kept by the JSON store.
use vstd::prelude::*;
use crate::server::{
    Server, ServerLatencyType, ServerQueryType, addr_text, DEFAULT_LATENCY_HISTORY_SIZE,
    DEFAULT_QUERY_INTERVAL, DEFAULT_QUERY_TIMEOUT,
};
use crate::settings::Settings;
use crate::text::{chars_of, push_decimal, string_push};

verus! {

/// A server as it is persisted.
#[derive(Debug)]
pub struct ServerStore {
    pub id: String,
    pub ip: String,
    pub port: u16,
    pub port_query: Option<u16>,
    pub display_name: Option<String>,
    pub query_interval: u64,
    pub query_timeout: u64,
    pub query_type: ServerQueryType,
    pub latency_interval: Option<u64>,
    pub latency_timeout: Option<u64>,
    pub latency_type: ServerLatencyType,
    pub latency_history_size: usize,
}

pub(crate) fn clone_opt_string(o: &Option<String>) -> (r: Option<String>)
    ensures
        r == *o,
{
    match o {
        Some(s) => Some(s.clone()),
        None => None,
    }
}

impl Clone for ServerStore {
    fn clone(&self) -> (r: Self)
        ensures
            r == *self,
    {
        ServerStore {
            id: self.id.clone(),
            ip: self.ip.clone(),
            port: self.port,
            port_query: self.port_query,
            display_name: clone_opt_string(&self.display_name),
            query_interval: self.query_interval,
            query_timeout: self.query_timeout,
            query_type: self.query_type,
            latency_interval: self.latency_interval,
            latency_timeout: self.latency_timeout,
            latency_type: self.latency_type,
            latency_history_size: self.latency_history_size,
        }
    }
}

impl Default for ServerStore {
    /// Mirrors `Server::default()`, so a stored server without explicit
    /// settings behaves like one made at runtime.
    fn default() -> (r: Self)
        ensures
            r.id@ == Seq::<char>::empty(),
            r.ip@ == Seq::<char>::empty(),
            r.port == 0,
            r.port_query is None,
            r.display_name is None,
            r.query_interval == DEFAULT_QUERY_INTERVAL,
            r.query_timeout == DEFAULT_QUERY_TIMEOUT,
            r.query_type == ServerQueryType::A2s,
            r.latency_interval is None,
            r.latency_timeout is None,
            r.latency_type == ServerLatencyType::SelfInfo,
            r.latency_history_size == DEFAULT_LATENCY_HISTORY_SIZE,
    {
        let server = Server::default();
        ServerStore {
            id: String::new(),
            ip: server.ip,
            port: server.port,
            port_query: server.port_query,
            display_name: server.display_name,
            query_interval: DEFAULT_QUERY_INTERVAL,
            query_timeout: DEFAULT_QUERY_TIMEOUT,
            query_type: server.query_type,
            latency_interval: server.latency_interval,
            latency_timeout: server.latency_timeout,
            latency_type: server.latency_type,
            latency_history_size: DEFAULT_LATENCY_HISTORY_SIZE,
        }
    }
}

impl ServerStore {
    /// The display name's text, if there is one.
    pub open spec fn display_name_view(self) -> Option<Seq<char>> {
        match self.display_name {
            Some(n) => Some(n@),
            None => None,
        }
    }

    /// The server's address as `ip:port`.
    pub fn to_addr(&self) -> (r: String)
        ensures
            r@ == addr_text(self.ip@, self.port),
    {
        let mut r = self.ip.clone();
        string_push(&mut r, ':');
        push_decimal(&mut r, self.port as u64);
        r
    }
}

impl ServerStore {
    /// The record, named by its address when it has no id yet.
    pub fn with_address_id(self) -> (r: ServerStore)
        ensures
            r.id@ == (if self.id@.len() == 0 {
                addr_text(self.ip@, self.port)
            } else {
                self.id@
            }),
            same_settings(r, self),
    {
        if self.id.as_str().unicode_len() == 0 {
            let id = self.to_addr();
            ServerStore { id, ..self }
        } else {
            self
        }
    }
}

/// A positive setting is kept; zero falls back to the default.
pub open spec fn positive_or(v: u64, default: u64) -> u64 {
    if v > 0 {
        v
    } else {
        default
    }
}

/// A present positive setting is kept; zero counts as unset.
pub open spec fn positive_opt(v: Option<u64>) -> Option<u64> {
    match v {
        Some(x) => if x > 0 {
            Some(x)
        } else {
            None
        },
        None => None,
    }
}

impl From<ServerStore> for Server {
    /// Zeroed intervals would spin the scheduler, so they fall back to the
    /// runtime defaults.
    fn from(store: ServerStore) -> (r: Self)
        ensures
            r == load_server(store),
    {
        let defaults = Server::default();
        Server {
            ip: store.ip,
            port: store.port,
            port_query: store.port_query,
            display_name: store.display_name,
            query_interval: if store.query_interval > 0 {
                store.query_interval
            } else {
                defaults.query_interval
            },
            query_timeout: if store.query_timeout > 0 {
                store.query_timeout
            } else {
                defaults.query_timeout
            },
            query_type: store.query_type,
            latency_interval: match store.latency_interval {
                Some(v) => if v > 0 {
                    Some(v)
                } else {
                    None
                },
                None => None,
            },
            latency_timeout: match store.latency_timeout {
                Some(v) => if v > 0 {
                    Some(v)
                } else {
                    None
                },
                None => None,
            },
            latency_type: store.latency_type,
            latency_history_size: if store.latency_history_size > 0 {
                store.latency_history_size
            } else {
                defaults.latency_history_size
            },
        }
    }
}

impl From<Server> for ServerStore {
    /// A runtime server becomes a record without an id.
    fn from(server: Server) -> (r: Self)
        ensures
            is_record_of(r, server),
    {
        ServerStore {
            id: String::new(),
            ip: server.ip,
            port: server.port,
            port_query: server.port_query,
            display_name: server.display_name,
            query_interval: server.query_interval,
            query_timeout: server.query_timeout,
            query_type: server.query_type,
            latency_interval: server.latency_interval,
            latency_timeout: server.latency_timeout,
            latency_type: server.latency_type,
            latency_history_size: server.latency_history_size,
        }
    }
}

/// The runtime server a record loads as.
pub open spec fn load_server(store: ServerStore) -> Server {
    Server {
        ip: store.ip,
        port: store.port,
        port_query: store.port_query,
        display_name: store.display_name,
        query_interval: positive_or(store.query_interval, DEFAULT_QUERY_INTERVAL),
        query_timeout: positive_or(store.query_timeout, DEFAULT_QUERY_TIMEOUT),
        query_type: store.query_type,
        latency_interval: positive_opt(store.latency_interval),
        latency_timeout: positive_opt(store.latency_timeout),
        latency_type: store.latency_type,
        latency_history_size: if store.latency_history_size > 0 {
            store.latency_history_size
        } else {
            DEFAULT_LATENCY_HISTORY_SIZE
        },
    }
}

impl vstd::std_specs::convert::FromSpecImpl<ServerStore> for Server {
    open spec fn obeys_from_spec() -> bool {
        true
    }

    open spec fn from_spec(store: ServerStore) -> Server {
        load_server(store)
    }
}

impl vstd::std_specs::convert::FromSpecImpl<Server> for ServerStore {
    /// The record's new id is an empty string, which a spec value cannot
    /// name, so `from`'s own `ensures` carries the whole contract.
    open spec fn obeys_from_spec() -> bool {
        false
    }

    open spec fn from_spec(server: Server) -> ServerStore {
        arbitrary()
    }
}

/// `r` is the record made from `server`: no id, every setting copied.
pub open spec fn is_record_of(r: ServerStore, server: Server) -> bool {
    &&& r.id@ == Seq::<char>::empty()
    &&& r.ip == server.ip
    &&& r.port == server.port
    &&& r.port_query == server.port_query
    &&& r.display_name == server.display_name
    &&& r.query_interval == server.query_interval
    &&& r.query_timeout == server.query_timeout
    &&& r.query_type == server.query_type
    &&& r.latency_interval == server.latency_interval
    &&& r.latency_timeout == server.latency_timeout
    &&& r.latency_type == server.latency_type
    &&& r.latency_history_size == server.latency_history_size
}

/// Two records hold the same settings (their ids aside).
pub open spec fn same_settings(a: ServerStore, b: ServerStore) -> bool {
    &&& a.ip == b.ip
    &&& a.port == b.port
    &&& a.port_query == b.port_query
    &&& a.display_name == b.display_name
    &&& a.query_interval == b.query_interval
    &&& a.query_timeout == b.query_timeout
    &&& a.query_type == b.query_type
    &&& a.latency_interval == b.latency_interval
    &&& a.latency_timeout == b.latency_timeout
    &&& a.latency_type == b.latency_type
    &&& a.latency_history_size == b.latency_history_size
}

/// None of a record's intervals, timeouts or sizes is zero.
pub open spec fn settings_positive(s: ServerStore) -> bool {
    &&& s.query_interval > 0
    &&& s.query_timeout > 0
    &&& s.latency_history_size > 0
    &&& (s.latency_interval matches Some(v) ==> v > 0)
    &&& (s.latency_timeout matches Some(v) ==> v > 0)
}

/// A record whose settings are all positive survives the trip to a runtime
/// server and back unchanged, but for its id.
pub proof fn lemma_record_round_trip(s: ServerStore, r: ServerStore)
    requires
        settings_positive(s),
        is_record_of(r, load_server(s)),
    ensures
        same_settings(r, s),
        r.id@ == Seq::<char>::empty(),
{
}

/// Loading a record replaces zeroed settings by the defaults once and for
/// all: saving the loaded server and loading it again gives the same server.
pub proof fn lemma_load_is_idempotent(s: ServerStore, r: ServerStore)
    requires
        is_record_of(r, load_server(s)),
    ensures
        load_server(r)
            == load_server(s),
        settings_positive(r),
{
}

/// `path` with `.ext` added to its file name, as `PathBuf::add_extension`
/// and `to_string_lossy` give it.
pub uninterp spec fn path_with_extension(path: Seq<char>, ext: Seq<char>) -> Seq<char>;

/// A path separator on some platform.
pub open spec fn is_separator(c: char) -> bool {
    c == '/' || c == '\\'
}

/// The last component of a path: what follows its last separator.
pub open spec fn last_component(path: Seq<char>) -> Seq<char>
    decreases path.len(),
{
    if path.len() == 0 {
        seq![]
    } else if is_separator(path.last()) {
        seq![]
    } else {
        last_component(path.drop_last()).push(path.last())
    }
}

/// A drive prefix such as `C:`: an ASCII letter and a colon at the start.
pub open spec fn has_drive_prefix(path: Seq<char>) -> bool {
    &&& path.len() >= 2
    &&& (('a' <= path[0] && path[0] <= 'z') || ('A' <= path[0] && path[0] <= 'Z'))
    &&& path[1] == ':'
}

/// A path that ends in a file name on every platform: not empty, no
/// trailing separator, no drive prefix, not starting with two separators
/// (a network or verbatim prefix), and a last component that is not `.`
/// or `..`.
pub open spec fn ends_in_file_name(path: Seq<char>) -> bool {
    &&& path.len() > 0
    &&& !is_separator(path.last())
    &&& !has_drive_prefix(path)
    &&& !(path.len() >= 2 && is_separator(path[0]) && is_separator(path[1]))
    &&& last_component(path) != seq!['.']
    &&& last_component(path) != seq!['.', '.']
}

/// `PathBuf::from(path)`, then `add_extension(ext)`, then
/// `to_string_lossy()`. The result is named by `path_with_extension`; for a
/// path that ends in a file name, the documentation shows that it is the
/// path, a dot and the extension. What happens to paths with a trailing
/// separator, a prefix or no file name is left to the name. The
/// extension may hold no separator, on which `add_extension` panics.
#[verifier::external_body]
fn add_path_extension(path: &str, ext: &str) -> (r: String)
    requires
        ext@.len() > 0,
        !ext@.contains('/'),
        !ext@.contains('\\'),
    ensures
        r@ == path_with_extension(path@, ext@),
        ends_in_file_name(path@) ==> r@ == path@ + seq!['.'] + ext@,
{
    let mut p = std::path::PathBuf::from(path);
    p.add_extension(ext);
    p.to_string_lossy().to_string()
}

/// The servers and settings of a JSON store file.
#[derive(Debug, Default)]
pub struct JsonStoreFormat {
    pub settings: Settings,
    pub servers: Vec<ServerStore>,
}

/// A JSON store: the path of its file and the contents last read.
#[derive(Debug, Default)]
pub struct JsonStore {
    pub store_path: String,
    pub store_fmt: JsonStoreFormat,
    pub rw_lock: bool,
}

impl JsonStore {
    /// A store whose file is `store_path` with a `.json` extension added.
    pub fn new(store_path: String) -> (r: Self)
        ensures
            r.store_path@ == path_with_extension(store_path@, "json"@),
            ends_in_file_name(store_path@) ==> r.store_path@ == store_path@ + ".json"@,
            r.store_fmt.servers@.len() == 0,
            r.store_fmt.settings@ == crate::settings::default_settings(),
            !r.rw_lock,
    {
        proof {
            reveal_strlit("json");
            reveal_strlit(".json");
        }
        let path = add_path_extension(store_path.as_str(), "json");
        JsonStore {
            store_path: path,
            store_fmt: JsonStoreFormat { settings: Settings::default(), servers: Vec::new() },
            rw_lock: false,
        }
    }
}

/// `Store::fmt_store_path`: a path starting with `~/` is taken relative to
/// the home directory, when one is known.
pub open spec fn spec_fmt_store_path(path: Seq<char>, home: Option<Seq<char>>) -> Seq<char> {
    match home {
        Some(h) => if path.len() >= 2 && path[0] == '~' && path[1] == '/' {
            h + seq!['/'] + path.skip(2)
        } else {
            path
        },
        None => path,
    }
}

/// Replaces a leading `~/` by the home directory `home` and a slash.
pub fn fmt_store_path(store_path: String, home: Option<String>) -> (r: String)
    ensures
        r@ == spec_fmt_store_path(store_path@, match home {
            Some(h) => Some(h@),
            None => None,
        }),
{
    match home {
        Some(h) => {
            let v = chars_of(store_path.as_str());
            if v.len() >= 2 && v[0] == '~' && v[1] == '/' {
                let mut r = h;
                string_push(&mut r, '/');
                let mut i: usize = 2;
                while i < v.len()
                    invariant
                        2 <= i <= v@.len(),
                        v@ == store_path@,
                        r@ == h@ + seq!['/'] + store_path@.subrange(2, i as int),
                    decreases v@.len() - i,
                {
                    string_push(&mut r, v[i]);
                    i = i + 1;
                    assert(r@ =~= h@ + seq!['/'] + store_path@.subrange(2, i as int));
                }
                assert(store_path@.subrange(2, i as int) =~= store_path@.skip(2));
                r
            } else {
                store_path
            }
        },
        None => store_path,
    }
}

/// Why the JSON store refused a change.
#[derive(Debug, PartialEq, Eq)]
pub enum StoreError {
    /// A server with the record's id or address is stored already.
    AlreadyExists { id: String, ip: String, port: u16 },
    /// No stored server has the record's id or address.
    NotFoundForUpdate { id: String },
    /// No stored server has the record's id or address.
    NotFoundForDeletion { id: String },
}

impl StoreError {
    pub open spec fn spec_message(&self) -> Seq<char> {
        match self {
            StoreError::AlreadyExists { id, ip, port } => "Server with ID "@ + id@
                + " or address "@ + addr_text(ip@, *port) + " already exists"@,
            StoreError::NotFoundForUpdate { id } => "Server with ID "@ + id@
                + " not found for update"@,
            StoreError::NotFoundForDeletion { id } => "Server with ID "@ + id@
                + " not found for deletion"@,
        }
    }

    /// The error's text.
    pub fn message(&self) -> (r: String)
        ensures
            r@ == self.spec_message(),
    {
        let mut r = String::from_str("Server with ID ");
        match self {
            StoreError::AlreadyExists { id, ip, port } => {
                r.append(id.as_str());
                r.append(" or address ");
                r.append(ip.as_str());
                string_push(&mut r, ':');
                push_decimal(&mut r, *port as u64);
                r.append(" already exists");
            },
            StoreError::NotFoundForUpdate { id } => {
                r.append(id.as_str());
                r.append(" not found for update");
            },
            StoreError::NotFoundForDeletion { id } => {
                r.append(id.as_str());
                r.append(" not found for deletion");
            },
        }
        assert(r@ =~= self.spec_message());
        r
    }
}

/// A stored server has the id.
pub open spec fn has_id(s: ServerStore, id: Seq<char>) -> bool {
    s.id@ == id
}

/// A stored server has the address.
pub open spec fn has_addr(s: ServerStore, ip: Seq<char>, port: u16) -> bool {
    s.ip@ == ip && s.port == port
}

/// A stored server is the one a record names: same id, or same address.
pub open spec fn names_record(s: ServerStore, r: ServerStore) -> bool {
    s.id@ == r.id@ || (s.ip@ == r.ip@ && s.port == r.port)
}

/// `i` is the first position whose server satisfies `p`.
pub open spec fn is_first(servers: Seq<ServerStore>, i: int, p: spec_fn(ServerStore) -> bool) -> bool {
    &&& 0 <= i < servers.len()
    &&& p(servers[i])
    &&& forall|j: int| 0 <= j < i ==> !p(#[trigger] servers[j])
}

/// No server satisfies `p`.
pub open spec fn none_match(servers: Seq<ServerStore>, p: spec_fn(ServerStore) -> bool) -> bool {
    forall|j: int| 0 <= j < servers.len() ==> !p(#[trigger] servers[j])
}

/// The servers and settings the JSON store keeps.
#[derive(Debug, Default)]
pub struct JsonStateData {
    pub servers: Vec<ServerStore>,
    pub settings: Settings,
}

impl JsonStateData {
    fn position_by_id(&self, id: &String) -> (r: Option<usize>)
        ensures
            match r {
                Some(i) => is_first(self.servers@, i as int, |s: ServerStore| has_id(s, id@)),
                None => none_match(self.servers@, |s: ServerStore| has_id(s, id@)),
            },
    {
        let mut i: usize = 0;
        while i < self.servers.len()
            invariant
                i <= self.servers@.len(),
                forall|j: int| 0 <= j < i ==> !has_id(#[trigger] self.servers@[j], id@),
            decreases self.servers@.len() - i,
        {
            if self.servers[i].id == *id {
                return Some(i);
            }
            i = i + 1;
        }
        None
    }

    fn position_by_record(&self, server: &ServerStore) -> (r: Option<usize>)
        ensures
            match r {
                Some(i) => is_first(self.servers@, i as int, |s: ServerStore| names_record(s, *server)),
                None => none_match(self.servers@, |s: ServerStore| names_record(s, *server)),
            },
    {
        let mut i: usize = 0;
        while i < self.servers.len()
            invariant
                i <= self.servers@.len(),
                forall|j: int| 0 <= j < i ==> !names_record(#[trigger] self.servers@[j], *server),
            decreases self.servers@.len() - i,
        {
            let s = &self.servers[i];
            if s.id == server.id || (s.ip == server.ip && s.port == server.port) {
                return Some(i);
            }
            i = i + 1;
        }
        None
    }

    /// The first stored server with the id.
    pub fn fetch_by_id(&self, id: &str) -> (r: Option<ServerStore>)
        ensures
            match r {
                Some(x) => exists|i: int|
                    is_first(self.servers@, i, |s: ServerStore| has_id(s, id@)) && x
                        == self.servers@[i],
                None => none_match(self.servers@, |s: ServerStore| has_id(s, id@)),
            },
    {
        let key = String::from_str(id);
        match self.position_by_id(&key) {
            Some(i) => Some(self.servers[i].clone()),
            None => None,
        }
    }

    /// The first stored server with the address.
    pub fn fetch_by_addr(&self, ip: &str, port: u16) -> (r: Option<ServerStore>)
        ensures
            match r {
                Some(x) => exists|i: int|
                    is_first(self.servers@, i, |s: ServerStore| has_addr(s, ip@, port)) && x
                        == self.servers@[i],
                None => none_match(self.servers@, |s: ServerStore| has_addr(s, ip@, port)),
            },
    {
        let key = String::from_str(ip);
        let mut i: usize = 0;
        while i < self.servers.len()
            invariant
                i <= self.servers@.len(),
                key@ == ip@,
                forall|j: int| 0 <= j < i ==> !has_addr(#[trigger] self.servers@[j], ip@, port),
            decreases self.servers@.len() - i,
        {
            if self.servers[i].ip == key && self.servers[i].port == port {
                let r = self.servers[i].clone();
                assert(is_first(self.servers@, i as int, |s: ServerStore| has_addr(s, ip@, port)));
                return Some(r);
            }
            i = i + 1;
        }
        None
    }

    /// Every stored server, in order.
    pub fn fetch_all(&self) -> (r: Vec<ServerStore>)
        ensures
            r@ == self.servers@,
    {
        let mut r: Vec<ServerStore> = Vec::new();
        let mut i: usize = 0;
        while i < self.servers.len()
            invariant
                i <= self.servers@.len(),
                r@ == self.servers@.take(i as int),
            decreases self.servers@.len() - i,
        {
            r.push(self.servers[i].clone());
            i = i + 1;
            assert(r@ =~= self.servers@.take(i as int));
        }
        assert(r@ =~= self.servers@);
        r
    }

    /// Adds a server, unless one with the same id or the same address is
    /// stored already.
    pub fn add(&mut self, server: &ServerStore) -> (r: Result<(), StoreError>)
        ensures
            r is Ok <==> none_match(old(self).servers@, |s: ServerStore| names_record(s, *server)),
            r is Ok ==> final(self).servers@ == old(self).servers@.push(*server),
            r matches Err(e) ==> final(self).servers@ == old(self).servers@ && e
                == (StoreError::AlreadyExists {
                id: server.id,
                ip: server.ip,
                port: server.port,
            }),
            final(self).settings == old(self).settings,
    {
        match self.position_by_record(server) {
            Some(_) => Err(
                StoreError::AlreadyExists {
                    id: server.id.clone(),
                    ip: server.ip.clone(),
                    port: server.port,
                },
            ),
            None => {
                self.servers.push(server.clone());
                Ok(())
            },
        }
    }

    /// Replaces the first stored server with the record's id or address.
    pub fn update(&mut self, server: &ServerStore) -> (r: Result<(), StoreError>)
        ensures
            r is Ok <==> !none_match(
                old(self).servers@,
                |s: ServerStore| names_record(s, *server),
            ),
            r is Ok ==> exists|i: int|
                is_first(old(self).servers@, i, |s: ServerStore| names_record(s, *server))
                    && final(self).servers@ == old(self).servers@.update(i, *server),
            r matches Err(e) ==> final(self).servers@ == old(self).servers@ && e
                == (StoreError::NotFoundForUpdate { id: server.id }),
            final(self).settings == old(self).settings,
    {
        match self.position_by_record(server) {
            Some(i) => {
                self.servers.set(i, server.clone());
                Ok(())
            },
            None => Err(StoreError::NotFoundForUpdate { id: server.id.clone() }),
        }
    }

    /// Removes the first stored server with the record's id or address.
    pub fn delete(&mut self, server: &ServerStore) -> (r: Result<(), StoreError>)
        ensures
            r is Ok <==> !none_match(
                old(self).servers@,
                |s: ServerStore| names_record(s, *server),
            ),
            r is Ok ==> exists|i: int|
                is_first(old(self).servers@, i, |s: ServerStore| names_record(s, *server))
                    && final(self).servers@ == old(self).servers@.remove(i),
            r matches Err(e) ==> final(self).servers@ == old(self).servers@ && e
                == (StoreError::NotFoundForDeletion { id: server.id }),
            final(self).settings == old(self).settings,
    {
        match self.position_by_record(server) {
            Some(i) => {
                self.servers.remove(i);
                Ok(())
            },
            None => Err(StoreError::NotFoundForDeletion { id: server.id.clone() }),
        }
    }
}

/// After a server is added, looking its id up finds it.
pub proof fn lemma_add_then_fetch(servers: Seq<ServerStore>, server: ServerStore)
    requires
        none_match(servers, |s: ServerStore| has_id(s, server.id@)),
    ensures
        is_first(
            servers.push(server),
            servers.len() as int,
            |s: ServerStore| has_id(s, server.id@),
        ),
        servers.push(server)[servers.len() as int] == server,
{
    assert forall|j: int| 0 <= j < servers.len() implies !has_id(
        #[trigger] servers.push(server)[j],
        server.id@,
    ) by {
        assert(servers.push(server)[j] == servers[j]);
    }
}

/// Deleting a server that was just added, when no other stored server has
/// its id or its address, gives back the list from before.
pub proof fn lemma_add_then_delete(servers: Seq<ServerStore>, server: ServerStore)
    requires
        none_match(servers, |s: ServerStore| names_record(s, server)),
    ensures
        is_first(
            servers.push(server),
            servers.len() as int,
            |s: ServerStore| names_record(s, server),
        ),
        servers.push(server).remove(servers.len() as int) == servers,
{
    assert forall|j: int| 0 <= j < servers.len() implies !names_record(
        #[trigger] servers.push(server)[j],
        server,
    ) by {
        assert(servers.push(server)[j] == servers[j]);
    }
    assert(servers.push(server).remove(servers.len() as int) =~= servers);
}

/// An update keeps the number of stored servers and touches only the one
/// server it replaces.
pub proof fn lemma_update_keeps_others(
    servers: Seq<ServerStore>,
    i: int,
    server: ServerStore,
    k: int,
)
    requires
        0 <= i < servers.len(),
        0 <= k < servers.len(),
        k != i,
    ensures
        servers.update(i, server).len() == servers.len(),
        servers.update(i, server)[k] == servers[k],
        servers.update(i, server)[i] == server,
{
}

/// A server as a database row gives it back.
#[derive(Debug)]
pub struct ServerRow {
    pub id: String,
    pub ip: String,
    pub port: u16,
    pub display_name: Option<String>,
    pub port_query: Option<u16>,
    pub query_interval: i64,
    pub query_timeout: i64,
    pub query_type: i32,
    pub latency_interval: Option<i64>,
    pub latency_timeout: Option<i64>,
    pub latency_type: i32,
    pub latency_history_size: u32,
}

/// A server as it is written to the database.
#[derive(Debug)]
pub struct ServerParams {
    pub id: String,
    pub ip: String,
    pub port: u16,
    pub display_name: Option<String>,
    pub port_query: Option<u16>,
    pub query_interval: i64,
    pub query_timeout: i64,
    pub query_type: i32,
    pub latency_interval: Option<i64>,
    pub latency_timeout: Option<i64>,
    pub latency_type: i32,
    pub latency_history_size: i64,
}

/// Why a database row is not a server.
#[derive(Debug, Clone, Copy, PartialEq, Eq, Structural)]
pub enum RowError {
    /// The stored query type code names no protocol.
    UnknownQueryType(i32),
    /// The stored latency type code names no method.
    UnknownLatencyType(i32),
    /// A server without an id cannot be written.
    EmptyId,
}

/// An `i64` read back as the `u64` it was written from (two's complement).
pub open spec fn u64_of(v: i64) -> u64 {
    if v >= 0 {
        v as u64
    } else {
        (v + 0x1_0000_0000_0000_0000) as u64
    }
}

/// A `u64` as the `i64` with the same bits.
pub open spec fn i64_of(v: u64) -> i64 {
    if v <= 0x7fff_ffff_ffff_ffff {
        v as i64
    } else {
        (v - 0x1_0000_0000_0000_0000) as i64
    }
}

fn to_u64(v: i64) -> (r: u64)
    ensures
        r == u64_of(v),
{
    if v >= 0 {
        v as u64
    } else {
        let m: u64 = (-(v + 1)) as u64;
        0xffff_ffff_ffff_ffff - m
    }
}

fn to_i64(v: u64) -> (r: i64)
    ensures
        r == i64_of(v),
{
    if v <= 0x7fff_ffff_ffff_ffff {
        v as i64
    } else {
        let m: u64 = 0xffff_ffff_ffff_ffff - v;
        -(m as i64) - 1
    }
}

/// Writing a setting and reading it back gives the same number.
pub proof fn lemma_setting_bits_round_trip(v: u64)
    ensures
        u64_of(i64_of(v)) == v,
{
}

/// The record a row stores, or why it stores none.
pub open spec fn spec_row_record(row: ServerRow) -> Result<ServerStore, RowError> {
    match (ServerQueryType::from_code_spec(row.query_type), ServerLatencyType::from_code_spec(
        row.latency_type,
    )) {
        (None, _) => Err(RowError::UnknownQueryType(row.query_type)),
        (Some(_), None) => Err(RowError::UnknownLatencyType(row.latency_type)),
        (Some(qt), Some(lt)) => Ok(
            ServerStore {
                id: row.id,
                ip: row.ip,
                port: row.port,
                port_query: row.port_query,
                display_name: row.display_name,
                query_interval: u64_of(row.query_interval),
                query_timeout: u64_of(row.query_timeout),
                query_type: qt,
                latency_interval: match row.latency_interval {
                    Some(v) => Some(u64_of(v)),
                    None => None,
                },
                latency_timeout: match row.latency_timeout {
                    Some(v) => Some(u64_of(v)),
                    None => None,
                },
                latency_type: lt,
                latency_history_size: row.latency_history_size as usize,
            },
        ),
    }
}

/// The values a record is written with: settings as the `i64` with the
/// same bits, protocols and methods by their numeric codes.
pub open spec fn spec_params(s: ServerStore) -> ServerParams {
    ServerParams {
        id: s.id,
        ip: s.ip,
        port: s.port,
        display_name: s.display_name,
        port_query: s.port_query,
        query_interval: i64_of(s.query_interval),
        query_timeout: i64_of(s.query_timeout),
        query_type: s.query_type.spec_index() as i32,
        latency_interval: match s.latency_interval {
            Some(v) => Some(i64_of(v)),
            None => None,
        },
        latency_timeout: match s.latency_timeout {
            Some(v) => Some(i64_of(v)),
            None => None,
        },
        latency_type: s.latency_type.spec_index() as i32,
        latency_history_size: i64_of(s.latency_history_size as u64),
    }
}

/// The row the database gives back for written values: every column as
/// it was written, the history size read as a `u32`.
pub open spec fn stored_row(p: ServerParams) -> ServerRow {
    ServerRow {
        id: p.id,
        ip: p.ip,
        port: p.port,
        display_name: p.display_name,
        port_query: p.port_query,
        query_interval: p.query_interval,
        query_timeout: p.query_timeout,
        query_type: p.query_type,
        latency_interval: p.latency_interval,
        latency_timeout: p.latency_timeout,
        latency_type: p.latency_type,
        latency_history_size: p.latency_history_size as u32,
    }
}

/// Writing a server with an id to the database and reading its row back
/// gives the same server, whenever its history size fits the column's
/// `u32`.
pub proof fn lemma_row_round_trip(s: ServerStore)
    requires
        s.id@.len() > 0,
        s.latency_history_size <= u32::MAX,
    ensures
        spec_row_record(stored_row(spec_params(s))) == Ok::<ServerStore, RowError>(s),
{
    lemma_setting_bits_round_trip(s.query_interval);
    lemma_setting_bits_round_trip(s.query_timeout);
    if let Some(v) = s.latency_interval {
        lemma_setting_bits_round_trip(v);
    }
    if let Some(v) = s.latency_timeout {
        lemma_setting_bits_round_trip(v);
    }
    crate::server::lemma_query_type_code_round_trip(s.query_type);
    crate::server::lemma_latency_type_code_round_trip(s.latency_type);
    let row = stored_row(spec_params(s));
    assert(row.latency_history_size == s.latency_history_size);
    assert(row.latency_history_size as usize == s.latency_history_size);
}

impl ServerRow {
    /// The record a row stores; fails when a type code is unknown.
    pub fn into_record(self) -> (r: Result<ServerStore, RowError>)
        ensures
            r == spec_row_record(self),
    {
        let query_type = match ServerQueryType::from_code(self.query_type) {
            Some(t) => t,
            None => return Err(RowError::UnknownQueryType(self.query_type)),
        };
        let latency_type = match ServerLatencyType::from_code(self.latency_type) {
            Some(t) => t,
            None => return Err(RowError::UnknownLatencyType(self.latency_type)),
        };
        Ok(
            ServerStore {
                id: self.id,
                ip: self.ip,
                port: self.port,
                port_query: self.port_query,
                display_name: self.display_name,
                query_interval: to_u64(self.query_interval),
                query_timeout: to_u64(self.query_timeout),
                query_type,
                latency_interval: match self.latency_interval {
                    Some(v) => Some(to_u64(v)),
                    None => None,
                },
                latency_timeout: match self.latency_timeout {
                    Some(v) => Some(to_u64(v)),
                    None => None,
                },
                latency_type,
                latency_history_size: self.latency_history_size as usize,
            },
        )
    }
}

impl ServerStore {
    /// The values a record is written to the database with; a record
    /// without an id cannot be written.
    pub fn to_params(&self) -> (r: Result<ServerParams, RowError>)
        ensures
            self.id@.len() == 0 ==> r == Err::<ServerParams, RowError>(RowError::EmptyId),
            self.id@.len() > 0 ==> r == Ok::<ServerParams, RowError>(spec_params(*self)),
    {
        if self.id.as_str().unicode_len() == 0 {
            return Err(RowError::EmptyId);
        }
        Ok(
            ServerParams {
                id: self.id.clone(),
                ip: self.ip.clone(),
                port: self.port,
                display_name: clone_opt_string(&self.display_name),
                port_query: self.port_query,
                query_interval: to_i64(self.query_interval),
                query_timeout: to_i64(self.query_timeout),
                query_type: self.query_type.code(),
                latency_interval: match self.latency_interval {
                    Some(v) => Some(to_i64(v)),
                    None => None,
                },
                latency_timeout: match self.latency_timeout {
                    Some(v) => Some(to_i64(v)),
                    None => None,
                },
                latency_type: self.latency_type.code(),
                latency_history_size: to_i64(self.latency_history_size as u64),
            },
        )
    }
}

/// The kinds of store.
#[derive(Debug, Clone, Copy, PartialEq, Eq, Structural)]
pub enum StoreKind {
    Json,
    Sqlite,
}

/// The store kind a name asks for: `json` or `sqlite`; any other name is
/// refused.
pub fn parse_store_type(store_type: &str) -> (r: Option<StoreKind>)
    ensures
        store_type@ == "json"@ ==> r == Some(StoreKind::Json),
        store_type@ == "sqlite"@ ==> r == Some(StoreKind::Sqlite),
        !(store_type@ == "json"@ || store_type@ == "sqlite"@) ==> r is None,
{
    let v = chars_of(store_type);
    proof {
        reveal_strlit("json");
        reveal_strlit("sqlite");
    }
    if v.len() == 4 && v[0] == 'j' && v[1] == 's' && v[2] == 'o' && v[3] == 'n' {
        assert(v@ =~= "json"@);
        Some(StoreKind::Json)
    } else if v.len() == 6 && v[0] == 's' && v[1] == 'q' && v[2] == 'l' && v[3] == 'i' && v[4]
        == 't' && v[5] == 'e' {
        assert(v@ =~= "sqlite"@);
        Some(StoreKind::Sqlite)
    } else {
        None
    }
}

impl StoreKind {
    /// The kind's name.
    pub fn name(&self) -> (r: &'static str)
        ensures
            *self == StoreKind::Json ==> r@ == "json"@,
            *self == StoreKind::Sqlite ==> r@ == "sqlite"@,
    {
        match self {
            StoreKind::Json => "json",
            StoreKind::Sqlite => "sqlite",
        }
    }

    pub open spec fn spec_extension(self) -> Seq<char> {
        match self {
            StoreKind::Json => "json"@,
            StoreKind::Sqlite => "db"@,
        }
    }

    /// The extension of the kind's store file: `json` or `db`.
    pub fn extension(&self) -> (r: &'static str)
        ensures
            r@ == self.spec_extension(),
    {
        match self {
            StoreKind::Json => "json",
            StoreKind::Sqlite => "db",
        }
    }

    /// The file a store of this kind keeps its data in: the store path with
    /// the kind's extension added.
    pub fn file_path(&self, store_path: &str) -> (r: String)
        ensures
            r@ == path_with_extension(store_path@, self.spec_extension()),
            ends_in_file_name(store_path@) ==> r@ == store_path@ + seq!['.']
                + self.spec_extension(),
    {
        proof {
            reveal_strlit("json");
            reveal_strlit("db");
        }
        add_path_extension(store_path, self.extension())
    }
}

} // verus!
