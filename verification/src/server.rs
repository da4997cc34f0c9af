//! Server configuration: the supported query protocols, the ways latency
//! is measured, the runtime defaults and the guess of a protocol from a port.
use vstd::prelude::*;
use crate::text::{chars_of, decimal, push_decimal, text_is};

verus! {

/// How often a server is queried by default, in milliseconds.
pub const DEFAULT_QUERY_INTERVAL: u64 = 1000;

/// How long a query waits for a reply by default, in milliseconds.
pub const DEFAULT_QUERY_TIMEOUT: u64 = 2000;

/// How many latency samples are kept per server by default.
pub const DEFAULT_LATENCY_HISTORY_SIZE: usize = 100;

/// The protocol used to query a server.
#[derive(Debug, Clone, Copy, PartialEq, Eq, Structural, Hash)]
pub enum ServerQueryType {
    A2s,
    Quake3,
    Minecraft,
    Bedrock,
    GameSpy1,
    GameSpy3,
    FiveM,
}

impl ServerQueryType {
    /// Every supported protocol, in the order the form cycles through them.
    pub const ALL: [ServerQueryType; 7] = [
        ServerQueryType::A2s,
        ServerQueryType::Quake3,
        ServerQueryType::Minecraft,
        ServerQueryType::Bedrock,
        ServerQueryType::GameSpy1,
        ServerQueryType::GameSpy3,
        ServerQueryType::FiveM,
    ];

    /// The position of a protocol in `ALL`; also its stored numeric code.
    pub open spec fn spec_index(self) -> int {
        match self {
            ServerQueryType::A2s => 0,
            ServerQueryType::Quake3 => 1,
            ServerQueryType::Minecraft => 2,
            ServerQueryType::Bedrock => 3,
            ServerQueryType::GameSpy1 => 4,
            ServerQueryType::GameSpy3 => 5,
            ServerQueryType::FiveM => 6,
        }
    }

    /// The protocol at a position of `ALL`.
    pub open spec fn spec_at(i: int) -> ServerQueryType {
        if i == 0 {
            ServerQueryType::A2s
        } else if i == 1 {
            ServerQueryType::Quake3
        } else if i == 2 {
            ServerQueryType::Minecraft
        } else if i == 3 {
            ServerQueryType::Bedrock
        } else if i == 4 {
            ServerQueryType::GameSpy1
        } else if i == 5 {
            ServerQueryType::GameSpy3
        } else {
            ServerQueryType::FiveM
        }
    }

    pub fn index(&self) -> (r: usize)
        ensures
            r == self.spec_index(),
            r < 7,
    {
        match self {
            ServerQueryType::A2s => 0,
            ServerQueryType::Quake3 => 1,
            ServerQueryType::Minecraft => 2,
            ServerQueryType::Bedrock => 3,
            ServerQueryType::GameSpy1 => 4,
            ServerQueryType::GameSpy3 => 5,
            ServerQueryType::FiveM => 6,
        }
    }

    pub fn at(i: usize) -> (r: ServerQueryType)
        requires
            i < 7,
        ensures
            r == Self::spec_at(i as int),
            r.spec_index() == i,
    {
        if i == 0 {
            ServerQueryType::A2s
        } else if i == 1 {
            ServerQueryType::Quake3
        } else if i == 2 {
            ServerQueryType::Minecraft
        } else if i == 3 {
            ServerQueryType::Bedrock
        } else if i == 4 {
            ServerQueryType::GameSpy1
        } else if i == 5 {
            ServerQueryType::GameSpy3
        } else {
            ServerQueryType::FiveM
        }
    }

    pub open spec fn from_code_spec(code: i32) -> Option<ServerQueryType> {
        if 0 <= code < 7 {
            Some(Self::spec_at(code as int))
        } else {
            None
        }
    }

    /// The numeric code a protocol is stored under.
    pub fn code(&self) -> (r: i32)
        ensures
            r == self.spec_index(),
    {
        self.index() as i32
    }

    /// The protocol stored under a numeric code, if the code is one.
    pub fn from_code(code: i32) -> (r: Option<ServerQueryType>)
        ensures
            r == Self::from_code_spec(code),
    {
        if 0 <= code && code < 7 {
            Some(Self::at(code as usize))
        } else {
            None
        }
    }

    pub open spec fn spec_name(self) -> Seq<char> {
        match self {
            ServerQueryType::A2s => "a2s"@,
            ServerQueryType::Quake3 => "quake3"@,
            ServerQueryType::Minecraft => "minecraft"@,
            ServerQueryType::Bedrock => "bedrock"@,
            ServerQueryType::GameSpy1 => "gamespy1"@,
            ServerQueryType::GameSpy3 => "gamespy3"@,
            ServerQueryType::FiveM => "fivem"@,
        }
    }

    /// The protocol's name, as shown and as given on the command line.
    pub fn name(&self) -> (r: &'static str)
        ensures
            r@ == self.spec_name(),
    {
        match self {
            ServerQueryType::A2s => "a2s",
            ServerQueryType::Quake3 => "quake3",
            ServerQueryType::Minecraft => "minecraft",
            ServerQueryType::Bedrock => "bedrock",
            ServerQueryType::GameSpy1 => "gamespy1",
            ServerQueryType::GameSpy3 => "gamespy3",
            ServerQueryType::FiveM => "fivem",
        }
    }

    pub open spec fn spec_description(self) -> Seq<char> {
        match self {
            ServerQueryType::A2s => "Source/GoldSrc engine servers"@,
            ServerQueryType::Quake3 => "Quake 3 engine servers"@,
            ServerQueryType::Minecraft => "Minecraft: Java Edition"@,
            ServerQueryType::Bedrock => "Minecraft: Bedrock Edition"@,
            ServerQueryType::GameSpy1 => "GameSpy v1 servers"@,
            ServerQueryType::GameSpy3 => "GameSpy v3 servers"@,
            ServerQueryType::FiveM => "FiveM/RedM servers"@,
        }
    }

    /// A short description of the games that speak the protocol.
    pub fn description(&self) -> (r: &'static str)
        ensures
            r@ == self.spec_description(),
    {
        match self {
            ServerQueryType::A2s => "Source/GoldSrc engine servers",
            ServerQueryType::Quake3 => "Quake 3 engine servers",
            ServerQueryType::Minecraft => "Minecraft: Java Edition",
            ServerQueryType::Bedrock => "Minecraft: Bedrock Edition",
            ServerQueryType::GameSpy1 => "GameSpy v1 servers",
            ServerQueryType::GameSpy3 => "GameSpy v3 servers",
            ServerQueryType::FiveM => "FiveM/RedM servers",
        }
    }
}

/// The protocol a name or one of its aliases stands for: `a2s` (`source`,
/// `valve`, `steam`, `goldsrc`), `quake3` (`q3`, `quake`, `cod`, `cod2`,
/// `cod4`, `codmp`, `et`), `minecraft` (`mc`, `minecraft-java`, `java`,
/// `slp`), `bedrock` (`mcbe`, `mcpe`, `minecraft-bedrock`, `raknet`),
/// `gamespy1` (`gs1`, `gamespy`), `gamespy3` (`gs3`, `minecraft-query`,
/// `mcquery`, `bf2`) and `fivem` (`cfx`, `gta5`, `redm`, `citizenfx`).
pub open spec fn spec_query_type_from_name(s: Seq<char>) -> Option<ServerQueryType> {
    if s == "a2s"@ {
        Some(ServerQueryType::A2s)
    } else if s == "quake3"@ {
        Some(ServerQueryType::Quake3)
    } else if s == "minecraft"@ {
        Some(ServerQueryType::Minecraft)
    } else if s == "bedrock"@ {
        Some(ServerQueryType::Bedrock)
    } else if s == "gamespy1"@ {
        Some(ServerQueryType::GameSpy1)
    } else if s == "gamespy3"@ {
        Some(ServerQueryType::GameSpy3)
    } else if s == "fivem"@ {
        Some(ServerQueryType::FiveM)
    } else if s == "source"@ || s == "valve"@ || s == "steam"@ || s == "goldsrc"@ {
        Some(ServerQueryType::A2s)
    } else if s == "q3"@ || s == "quake"@ || s == "cod"@ || s == "cod2"@ || s == "cod4"@ || s
        == "codmp"@ || s == "et"@ {
        Some(ServerQueryType::Quake3)
    } else if s == "mc"@ || s == "minecraft-java"@ || s == "java"@ || s == "slp"@ {
        Some(ServerQueryType::Minecraft)
    } else if s == "mcbe"@ || s == "mcpe"@ || s == "minecraft-bedrock"@ || s == "raknet"@ {
        Some(ServerQueryType::Bedrock)
    } else if s == "gs1"@ || s == "gamespy"@ {
        Some(ServerQueryType::GameSpy1)
    } else if s == "gs3"@ || s == "minecraft-query"@ || s == "mcquery"@ || s == "bf2"@ {
        Some(ServerQueryType::GameSpy3)
    } else if s == "cfx"@ || s == "gta5"@ || s == "redm"@ || s == "citizenfx"@ {
        Some(ServerQueryType::FiveM)
    } else {
        None
    }
}

impl ServerQueryType {
    /// The protocol named on the command line, by its name or an alias.
    pub fn from_name(name: &str) -> (r: Option<ServerQueryType>)
        ensures
            r == spec_query_type_from_name(name@),
    {
        let v = chars_of(name);
        if text_is(&v, "a2s") {
            Some(ServerQueryType::A2s)
        } else if text_is(&v, "quake3") {
            Some(ServerQueryType::Quake3)
        } else if text_is(&v, "minecraft") {
            Some(ServerQueryType::Minecraft)
        } else if text_is(&v, "bedrock") {
            Some(ServerQueryType::Bedrock)
        } else if text_is(&v, "gamespy1") {
            Some(ServerQueryType::GameSpy1)
        } else if text_is(&v, "gamespy3") {
            Some(ServerQueryType::GameSpy3)
        } else if text_is(&v, "fivem") {
            Some(ServerQueryType::FiveM)
        } else if text_is(&v, "source") || text_is(&v, "valve") || text_is(&v, "steam") || text_is(
            &v,
            "goldsrc",
        ) {
            Some(ServerQueryType::A2s)
        } else if text_is(&v, "q3") || text_is(&v, "quake") || text_is(&v, "cod") || text_is(
            &v,
            "cod2",
        ) || text_is(&v, "cod4") || text_is(&v, "codmp") || text_is(&v, "et") {
            Some(ServerQueryType::Quake3)
        } else if text_is(&v, "mc") || text_is(&v, "minecraft-java") || text_is(&v, "java")
            || text_is(&v, "slp") {
            Some(ServerQueryType::Minecraft)
        } else if text_is(&v, "mcbe") || text_is(&v, "mcpe") || text_is(&v, "minecraft-bedrock")
            || text_is(&v, "raknet") {
            Some(ServerQueryType::Bedrock)
        } else if text_is(&v, "gs1") || text_is(&v, "gamespy") {
            Some(ServerQueryType::GameSpy1)
        } else if text_is(&v, "gs3") || text_is(&v, "minecraft-query") || text_is(&v, "mcquery")
            || text_is(&v, "bf2") {
            Some(ServerQueryType::GameSpy3)
        } else if text_is(&v, "cfx") || text_is(&v, "gta5") || text_is(&v, "redm") || text_is(
            &v,
            "citizenfx",
        ) {
            Some(ServerQueryType::FiveM)
        } else {
            None
        }
    }
}

/// A protocol's name reads back as that protocol.
pub proof fn lemma_query_type_name_round_trip(t: ServerQueryType)
    ensures
        spec_query_type_from_name(t.spec_name()) == Some(t),
{
    reveal_strlit("a2s");
    reveal_strlit("quake3");
    reveal_strlit("minecraft");
    reveal_strlit("bedrock");
    reveal_strlit("gamespy1");
    reveal_strlit("gamespy3");
    reveal_strlit("fivem");
    assert("a2s"@.len() == 3);
    assert("quake3"@.len() == 6);
    assert("minecraft"@.len() == 9);
    assert("bedrock"@.len() == 7);
    assert("gamespy1"@.len() == 8);
    assert("gamespy3"@.len() == 8);
    assert("fivem"@.len() == 5);
    assert("gamespy1"@[7] != "gamespy3"@[7]);
}

/// The aliases of each protocol, as the list of supported query types gives
/// them.
pub open spec fn documented_aliases(t: ServerQueryType) -> Seq<Seq<char>> {
    match t {
        ServerQueryType::A2s => seq!["source"@, "valve"@, "steam"@, "goldsrc"@],
        ServerQueryType::Quake3 => seq!["q3"@, "quake"@, "cod"@, "cod2"@, "cod4"@, "codmp"@, "et"@],
        ServerQueryType::Minecraft => seq!["mc"@, "minecraft-java"@, "java"@, "slp"@],
        ServerQueryType::Bedrock => seq!["mcbe"@, "mcpe"@, "minecraft-bedrock"@, "raknet"@],
        ServerQueryType::GameSpy1 => seq!["gs1"@, "gamespy"@],
        ServerQueryType::GameSpy3 => seq!["gs3"@, "minecraft-query"@, "mcquery"@, "bf2"@],
        ServerQueryType::FiveM => seq!["cfx"@, "gta5"@, "redm"@, "citizenfx"@],
    }
}

/// Every documented alias of a protocol names that protocol.
pub proof fn lemma_aliases_name_their_protocol(t: ServerQueryType, i: int)
    requires
        0 <= i < documented_aliases(t).len(),
    ensures
        spec_query_type_from_name(documented_aliases(t)[i]) == Some(t),
{
    reveal_strlit("a2s");
    reveal_strlit("quake3");
    reveal_strlit("minecraft");
    reveal_strlit("bedrock");
    reveal_strlit("gamespy1");
    reveal_strlit("gamespy3");
    reveal_strlit("fivem");
    reveal_strlit("source");
    reveal_strlit("valve");
    reveal_strlit("steam");
    reveal_strlit("goldsrc");
    reveal_strlit("q3");
    reveal_strlit("quake");
    reveal_strlit("cod");
    reveal_strlit("cod2");
    reveal_strlit("cod4");
    reveal_strlit("codmp");
    reveal_strlit("et");
    reveal_strlit("mc");
    reveal_strlit("minecraft-java");
    reveal_strlit("java");
    reveal_strlit("slp");
    reveal_strlit("mcbe");
    reveal_strlit("mcpe");
    reveal_strlit("minecraft-bedrock");
    reveal_strlit("raknet");
    reveal_strlit("gs1");
    reveal_strlit("gamespy");
    reveal_strlit("gs3");
    reveal_strlit("minecraft-query");
    reveal_strlit("mcquery");
    reveal_strlit("bf2");
    reveal_strlit("cfx");
    reveal_strlit("gta5");
    reveal_strlit("redm");
    reveal_strlit("citizenfx");
    assert(spec_query_type_from_name("source"@) == Some(ServerQueryType::A2s)) by {
        assert("source"@.len() == 6);
        assert("source"@[0] != "quake3"@[0]);
    }
    assert(spec_query_type_from_name("valve"@) == Some(ServerQueryType::A2s)) by {
        assert("valve"@.len() == 5);
        assert("valve"@[0] != "fivem"@[0]);
    }
    assert(spec_query_type_from_name("steam"@) == Some(ServerQueryType::A2s)) by {
        assert("steam"@.len() == 5);
        assert("steam"@[0] != "fivem"@[0]);
        assert("steam"@[0] != "valve"@[0]);
    }
    assert(spec_query_type_from_name("goldsrc"@) == Some(ServerQueryType::A2s)) by {
        assert("goldsrc"@.len() == 7);
        assert("goldsrc"@[0] != "bedrock"@[0]);
    }
    assert(spec_query_type_from_name("q3"@) == Some(ServerQueryType::Quake3)) by {
        assert("q3"@.len() == 2);
    }
    assert(spec_query_type_from_name("quake"@) == Some(ServerQueryType::Quake3)) by {
        assert("quake"@.len() == 5);
        assert("quake"@[0] != "fivem"@[0]);
        assert("quake"@[0] != "valve"@[0]);
        assert("quake"@[0] != "steam"@[0]);
    }
    assert(spec_query_type_from_name("cod"@) == Some(ServerQueryType::Quake3)) by {
        assert("cod"@.len() == 3);
        assert("cod"@[0] != "a2s"@[0]);
    }
    assert(spec_query_type_from_name("cod2"@) == Some(ServerQueryType::Quake3)) by {
        assert("cod2"@.len() == 4);
    }
    assert(spec_query_type_from_name("cod4"@) == Some(ServerQueryType::Quake3)) by {
        assert("cod4"@.len() == 4);
        assert("cod4"@[3] != "cod2"@[3]);
    }
    assert(spec_query_type_from_name("codmp"@) == Some(ServerQueryType::Quake3)) by {
        assert("codmp"@.len() == 5);
        assert("codmp"@[0] != "fivem"@[0]);
        assert("codmp"@[0] != "valve"@[0]);
        assert("codmp"@[0] != "steam"@[0]);
        assert("codmp"@[0] != "quake"@[0]);
    }
    assert(spec_query_type_from_name("et"@) == Some(ServerQueryType::Quake3)) by {
        assert("et"@.len() == 2);
        assert("et"@[0] != "q3"@[0]);
    }
    assert(spec_query_type_from_name("mc"@) == Some(ServerQueryType::Minecraft)) by {
        assert("mc"@.len() == 2);
        assert("mc"@[0] != "q3"@[0]);
        assert("mc"@[0] != "et"@[0]);
    }
    assert(spec_query_type_from_name("minecraft-java"@) == Some(ServerQueryType::Minecraft)) by {
        assert("minecraft-java"@.len() == 14);
    }
    assert(spec_query_type_from_name("java"@) == Some(ServerQueryType::Minecraft)) by {
        assert("java"@.len() == 4);
        assert("java"@[0] != "cod2"@[0]);
        assert("java"@[0] != "cod4"@[0]);
    }
    assert(spec_query_type_from_name("slp"@) == Some(ServerQueryType::Minecraft)) by {
        assert("slp"@.len() == 3);
        assert("slp"@[0] != "a2s"@[0]);
        assert("slp"@[0] != "cod"@[0]);
    }
    assert(spec_query_type_from_name("mcbe"@) == Some(ServerQueryType::Bedrock)) by {
        assert("mcbe"@.len() == 4);
        assert("mcbe"@[0] != "cod2"@[0]);
        assert("mcbe"@[0] != "cod4"@[0]);
        assert("mcbe"@[0] != "java"@[0]);
    }
    assert(spec_query_type_from_name("mcpe"@) == Some(ServerQueryType::Bedrock)) by {
        assert("mcpe"@.len() == 4);
        assert("mcpe"@[0] != "cod2"@[0]);
        assert("mcpe"@[0] != "cod4"@[0]);
        assert("mcpe"@[0] != "java"@[0]);
        assert("mcpe"@[2] != "mcbe"@[2]);
    }
    assert(spec_query_type_from_name("minecraft-bedrock"@) == Some(ServerQueryType::Bedrock)) by {
        assert("minecraft-bedrock"@.len() == 17);
    }
    assert(spec_query_type_from_name("raknet"@) == Some(ServerQueryType::Bedrock)) by {
        assert("raknet"@.len() == 6);
        assert("raknet"@[0] != "quake3"@[0]);
        assert("raknet"@[0] != "source"@[0]);
    }
    assert(spec_query_type_from_name("gs1"@) == Some(ServerQueryType::GameSpy1)) by {
        assert("gs1"@.len() == 3);
        assert("gs1"@[0] != "a2s"@[0]);
        assert("gs1"@[0] != "cod"@[0]);
        assert("gs1"@[0] != "slp"@[0]);
    }
    assert(spec_query_type_from_name("gamespy"@) == Some(ServerQueryType::GameSpy1)) by {
        assert("gamespy"@.len() == 7);
        assert("gamespy"@[0] != "bedrock"@[0]);
        assert("gamespy"@[1] != "goldsrc"@[1]);
    }
    assert(spec_query_type_from_name("gs3"@) == Some(ServerQueryType::GameSpy3)) by {
        assert("gs3"@.len() == 3);
        assert("gs3"@[0] != "a2s"@[0]);
        assert("gs3"@[0] != "cod"@[0]);
        assert("gs3"@[0] != "slp"@[0]);
        assert("gs3"@[2] != "gs1"@[2]);
    }
    assert(spec_query_type_from_name("minecraft-query"@) == Some(ServerQueryType::GameSpy3)) by {
        assert("minecraft-query"@.len() == 15);
    }
    assert(spec_query_type_from_name("mcquery"@) == Some(ServerQueryType::GameSpy3)) by {
        assert("mcquery"@.len() == 7);
        assert("mcquery"@[0] != "bedrock"@[0]);
        assert("mcquery"@[0] != "goldsrc"@[0]);
        assert("mcquery"@[0] != "gamespy"@[0]);
    }
    assert(spec_query_type_from_name("bf2"@) == Some(ServerQueryType::GameSpy3)) by {
        assert("bf2"@.len() == 3);
        assert("bf2"@[0] != "a2s"@[0]);
        assert("bf2"@[0] != "cod"@[0]);
        assert("bf2"@[0] != "slp"@[0]);
        assert("bf2"@[0] != "gs1"@[0]);
        assert("bf2"@[0] != "gs3"@[0]);
    }
    assert(spec_query_type_from_name("cfx"@) == Some(ServerQueryType::FiveM)) by {
        assert("cfx"@.len() == 3);
        assert("cfx"@[0] != "a2s"@[0]);
        assert("cfx"@[1] != "cod"@[1]);
        assert("cfx"@[0] != "slp"@[0]);
        assert("cfx"@[0] != "gs1"@[0]);
        assert("cfx"@[0] != "gs3"@[0]);
        assert("cfx"@[0] != "bf2"@[0]);
    }
    assert(spec_query_type_from_name("gta5"@) == Some(ServerQueryType::FiveM)) by {
        assert("gta5"@.len() == 4);
        assert("gta5"@[0] != "cod2"@[0]);
        assert("gta5"@[0] != "cod4"@[0]);
        assert("gta5"@[0] != "java"@[0]);
        assert("gta5"@[0] != "mcbe"@[0]);
        assert("gta5"@[0] != "mcpe"@[0]);
    }
    assert(spec_query_type_from_name("redm"@) == Some(ServerQueryType::FiveM)) by {
        assert("redm"@.len() == 4);
        assert("redm"@[0] != "cod2"@[0]);
        assert("redm"@[0] != "cod4"@[0]);
        assert("redm"@[0] != "java"@[0]);
        assert("redm"@[0] != "mcbe"@[0]);
        assert("redm"@[0] != "mcpe"@[0]);
        assert("redm"@[0] != "gta5"@[0]);
    }
    assert(spec_query_type_from_name("citizenfx"@) == Some(ServerQueryType::FiveM)) by {
        assert("citizenfx"@.len() == 9);
        assert("citizenfx"@[0] != "minecraft"@[0]);
    }
}

/// A stored protocol code names the protocol it was made from.
pub proof fn lemma_query_type_code_round_trip(t: ServerQueryType)
    ensures
        ServerQueryType::spec_at(t.spec_index()) == t,
        0 <= t.spec_index() < 7,
{
}

/// How a server's latency is measured.
#[derive(Debug, Clone, Copy, PartialEq, Eq, Structural, Hash)]
pub enum ServerLatencyType {
    SelfInfo,
    SelfUsers,
    SelfVars,
    A2sInfo,
    A2sPlayers,
    A2sRules,
    Icmp,
}

impl ServerLatencyType {
    /// Every latency method, in the order the form cycles through them.
    pub const ALL: [ServerLatencyType; 7] = [
        ServerLatencyType::SelfInfo,
        ServerLatencyType::SelfUsers,
        ServerLatencyType::SelfVars,
        ServerLatencyType::A2sInfo,
        ServerLatencyType::A2sPlayers,
        ServerLatencyType::A2sRules,
        ServerLatencyType::Icmp,
    ];

    pub open spec fn spec_index(self) -> int {
        match self {
            ServerLatencyType::SelfInfo => 0,
            ServerLatencyType::SelfUsers => 1,
            ServerLatencyType::SelfVars => 2,
            ServerLatencyType::A2sInfo => 3,
            ServerLatencyType::A2sPlayers => 4,
            ServerLatencyType::A2sRules => 5,
            ServerLatencyType::Icmp => 6,
        }
    }

    pub open spec fn spec_at(i: int) -> ServerLatencyType {
        if i == 0 {
            ServerLatencyType::SelfInfo
        } else if i == 1 {
            ServerLatencyType::SelfUsers
        } else if i == 2 {
            ServerLatencyType::SelfVars
        } else if i == 3 {
            ServerLatencyType::A2sInfo
        } else if i == 4 {
            ServerLatencyType::A2sPlayers
        } else if i == 5 {
            ServerLatencyType::A2sRules
        } else {
            ServerLatencyType::Icmp
        }
    }

    pub fn index(&self) -> (r: usize)
        ensures
            r == self.spec_index(),
            r < 7,
    {
        match self {
            ServerLatencyType::SelfInfo => 0,
            ServerLatencyType::SelfUsers => 1,
            ServerLatencyType::SelfVars => 2,
            ServerLatencyType::A2sInfo => 3,
            ServerLatencyType::A2sPlayers => 4,
            ServerLatencyType::A2sRules => 5,
            ServerLatencyType::Icmp => 6,
        }
    }

    pub fn at(i: usize) -> (r: ServerLatencyType)
        requires
            i < 7,
        ensures
            r.spec_index() == i,
    {
        if i == 0 {
            ServerLatencyType::SelfInfo
        } else if i == 1 {
            ServerLatencyType::SelfUsers
        } else if i == 2 {
            ServerLatencyType::SelfVars
        } else if i == 3 {
            ServerLatencyType::A2sInfo
        } else if i == 4 {
            ServerLatencyType::A2sPlayers
        } else if i == 5 {
            ServerLatencyType::A2sRules
        } else {
            ServerLatencyType::Icmp
        }
    }

    pub open spec fn from_code_spec(code: i32) -> Option<ServerLatencyType> {
        if 0 <= code < 7 {
            Some(Self::spec_at(code as int))
        } else {
            None
        }
    }

    /// The numeric code a latency method is stored under.
    pub fn code(&self) -> (r: i32)
        ensures
            r == self.spec_index(),
    {
        self.index() as i32
    }

    /// The latency method stored under a numeric code, if the code is one.
    pub fn from_code(code: i32) -> (r: Option<ServerLatencyType>)
        ensures
            r == Self::from_code_spec(code),
    {
        if 0 <= code && code < 7 {
            Some(Self::at(code as usize))
        } else {
            None
        }
    }

    pub open spec fn spec_name(self) -> Seq<char> {
        match self {
            ServerLatencyType::SelfInfo => "self-info"@,
            ServerLatencyType::SelfUsers => "self-users"@,
            ServerLatencyType::SelfVars => "self-vars"@,
            ServerLatencyType::A2sInfo => "query-info"@,
            ServerLatencyType::A2sPlayers => "query-users"@,
            ServerLatencyType::A2sRules => "query-vars"@,
            ServerLatencyType::Icmp => "icmp"@,
        }
    }

    /// The method's name, as given on the command line.
    pub fn name(&self) -> (r: &'static str)
        ensures
            r@ == self.spec_name(),
    {
        match self {
            ServerLatencyType::SelfInfo => "self-info",
            ServerLatencyType::SelfUsers => "self-users",
            ServerLatencyType::SelfVars => "self-vars",
            ServerLatencyType::A2sInfo => "query-info",
            ServerLatencyType::A2sPlayers => "query-users",
            ServerLatencyType::A2sRules => "query-vars",
            ServerLatencyType::Icmp => "icmp",
        }
    }
}

impl Default for ServerLatencyType {
    fn default() -> (r: Self)
        ensures
            r == ServerLatencyType::SelfInfo,
    {
        ServerLatencyType::SelfInfo
    }
}

/// The latency method a name stands for: `self-info`, `self-users`,
/// `self-vars`, `query-info`, `query-users`, `query-vars` or `icmp`.
pub open spec fn spec_latency_type_from_name(s: Seq<char>) -> Option<ServerLatencyType> {
    if s == "self-info"@ {
        Some(ServerLatencyType::SelfInfo)
    } else if s == "self-users"@ {
        Some(ServerLatencyType::SelfUsers)
    } else if s == "self-vars"@ {
        Some(ServerLatencyType::SelfVars)
    } else if s == "query-info"@ {
        Some(ServerLatencyType::A2sInfo)
    } else if s == "query-users"@ {
        Some(ServerLatencyType::A2sPlayers)
    } else if s == "query-vars"@ {
        Some(ServerLatencyType::A2sRules)
    } else if s == "icmp"@ {
        Some(ServerLatencyType::Icmp)
    } else {
        None
    }
}

impl ServerLatencyType {
    /// The latency method named on the command line.
    pub fn from_name(name: &str) -> (r: Option<ServerLatencyType>)
        ensures
            r == spec_latency_type_from_name(name@),
    {
        let v = chars_of(name);
        if text_is(&v, "self-info") {
            Some(ServerLatencyType::SelfInfo)
        } else if text_is(&v, "self-users") {
            Some(ServerLatencyType::SelfUsers)
        } else if text_is(&v, "self-vars") {
            Some(ServerLatencyType::SelfVars)
        } else if text_is(&v, "query-info") {
            Some(ServerLatencyType::A2sInfo)
        } else if text_is(&v, "query-users") {
            Some(ServerLatencyType::A2sPlayers)
        } else if text_is(&v, "query-vars") {
            Some(ServerLatencyType::A2sRules)
        } else if text_is(&v, "icmp") {
            Some(ServerLatencyType::Icmp)
        } else {
            None
        }
    }
}

/// A latency method's name reads back as that method.
pub proof fn lemma_latency_type_name_round_trip(t: ServerLatencyType)
    ensures
        spec_latency_type_from_name(t.spec_name()) == Some(t),
{
    reveal_strlit("self-info");
    reveal_strlit("self-users");
    reveal_strlit("self-vars");
    reveal_strlit("query-info");
    reveal_strlit("query-users");
    reveal_strlit("query-vars");
    reveal_strlit("icmp");
    assert("self-info"@.len() == 9);
    assert("self-users"@.len() == 10);
    assert("self-vars"@.len() == 9);
    assert("query-info"@.len() == 10);
    assert("query-users"@.len() == 11);
    assert("query-vars"@.len() == 10);
    assert("icmp"@.len() == 4);
    assert("self-info"@[5] != "self-vars"@[5]);
    assert("self-users"@[0] != "query-info"@[0]);
    assert("query-info"@[6] != "query-vars"@[6]);
    assert("self-users"@[0] != "query-vars"@[0]);
}

/// A stored latency code names the method it was made from.
pub proof fn lemma_latency_type_code_round_trip(t: ServerLatencyType)
    ensures
        ServerLatencyType::spec_at(t.spec_index()) == t,
        0 <= t.spec_index() < 7,
{
}

/// The protocol that usually answers on a port, if the port is a
/// well-known one.
pub open spec fn spec_query_type_from_port(port: u16) -> Option<ServerQueryType> {
    if 27015 <= port <= 27030 {
        Some(ServerQueryType::A2s)
    } else if port == 25565 {
        Some(ServerQueryType::Minecraft)
    } else if port == 19132 {
        Some(ServerQueryType::Bedrock)
    } else if port == 28960 {
        Some(ServerQueryType::Quake3)
    } else if port == 30120 {
        Some(ServerQueryType::FiveM)
    } else {
        None
    }
}

/// The port guess covers every port of the Source range and the documented
/// ports of the other protocols, and no other port.
pub proof fn lemma_port_guess(port: u16)
    ensures
        27015 <= port <= 27030 ==> spec_query_type_from_port(port) == Some(ServerQueryType::A2s),
        port == 25565 ==> spec_query_type_from_port(port) == Some(ServerQueryType::Minecraft),
        port == 19132 ==> spec_query_type_from_port(port) == Some(ServerQueryType::Bedrock),
        port == 28960 ==> spec_query_type_from_port(port) == Some(ServerQueryType::Quake3),
        port == 30120 ==> spec_query_type_from_port(port) == Some(ServerQueryType::FiveM),
        !(27015 <= port <= 27030 || port == 25565 || port == 19132 || port == 28960 || port
            == 30120) ==> spec_query_type_from_port(port) is None,
{
}

/// Query helpers that need no network.
pub struct Query;

impl Query {
    /// Guesses the query protocol from a port: 27015 to 27030 are Source
    /// (A2S), 25565 Minecraft, 19132 Bedrock, 28960 Quake 3 and 30120 FiveM.
    pub fn get_query_type_from_port(port: u16) -> (r: Option<ServerQueryType>)
        ensures
            r == spec_query_type_from_port(port),
    {
        if 27015 <= port && port <= 27030 {
            Some(ServerQueryType::A2s)
        } else if port == 25565 {
            Some(ServerQueryType::Minecraft)
        } else if port == 19132 {
            Some(ServerQueryType::Bedrock)
        } else if port == 28960 {
            Some(ServerQueryType::Quake3)
        } else if port == 30120 {
            Some(ServerQueryType::FiveM)
        } else {
            None
        }
    }
}

/// A monitored server's settings.
#[derive(Debug)]
pub struct Server {
    pub ip: String,
    pub port: u16,
    /// The port queries go to, when it is not the game port.
    pub port_query: Option<u16>,
    /// Shown instead of the name the server reports.
    pub display_name: Option<String>,
    pub query_interval: u64,
    pub query_timeout: u64,
    pub query_type: ServerQueryType,
    pub latency_interval: Option<u64>,
    pub latency_timeout: Option<u64>,
    pub latency_type: ServerLatencyType,
    pub latency_history_size: usize,
}

impl Clone for Server {
    fn clone(&self) -> (r: Self)
        ensures
            r == *self,
    {
        Server {
            ip: self.ip.clone(),
            port: self.port,
            port_query: self.port_query,
            display_name: match &self.display_name {
                Some(n) => Some(n.clone()),
                None => None,
            },
            query_interval: self.query_interval,
            query_timeout: self.query_timeout,
            query_type: self.query_type,
            latency_interval: self.latency_interval,
            latency_timeout: self.latency_timeout,
            latency_type: self.latency_type,
            latency_history_size: self.latency_history_size,
        }
    }
}

impl Default for Server {
    fn default() -> (r: Self)
        ensures
            r.ip@ == Seq::<char>::empty(),
            r.port == 0,
            r.port_query is None,
            r.display_name is None,
            r.query_interval == DEFAULT_QUERY_INTERVAL,
            r.query_timeout == DEFAULT_QUERY_TIMEOUT,
            r.query_type == ServerQueryType::A2s,
            r.latency_interval is None,
            r.latency_timeout is None,
            r.latency_type == ServerLatencyType::SelfInfo,
            r.latency_history_size == DEFAULT_LATENCY_HISTORY_SIZE,
    {
        Server {
            ip: String::new(),
            port: 0,
            port_query: None,
            display_name: None,
            query_interval: DEFAULT_QUERY_INTERVAL,
            query_timeout: DEFAULT_QUERY_TIMEOUT,
            query_type: ServerQueryType::A2s,
            latency_interval: None,
            latency_timeout: None,
            latency_type: ServerLatencyType::SelfInfo,
            latency_history_size: DEFAULT_LATENCY_HISTORY_SIZE,
        }
    }
}

/// The text `ip:port`.
pub open spec fn addr_text(ip: Seq<char>, port: u16) -> Seq<char> {
    ip + seq![':'] + decimal(port as nat)
}

impl Server {
    pub open spec fn spec_query_port(&self) -> u16 {
        match self.port_query {
            Some(p) => p,
            None => self.port,
        }
    }

    /// The port queries are sent to: the query port when one is set, the
    /// game port otherwise.
    pub fn query_port(&self) -> (r: u16)
        ensures
            r == self.spec_query_port(),
    {
        match self.port_query {
            Some(p) => p,
            None => self.port,
        }
    }

    /// The server's address as `ip:port`.
    pub fn to_addr(&self) -> (r: String)
        ensures
            r@ == addr_text(self.ip@, self.port),
    {
        let mut r = self.ip.clone();
        crate::text::string_push(&mut r, ':');
        push_decimal(&mut r, self.port as u64);
        r
    }
}

} // verus!
