//! The site MCP fabric as the carrier reads it: the servers of a fabric
//! configuration, the tools a boundary admits, and the isolated Codex
//! configuration that mirrors exactly the fabric's servers.
use vstd::prelude::*;
use crate::json::{
    as_text, compact_text, entries_view, field, object_entries, parse_json, text_field,
    to_compact_text, Json, JsonValue,
};
use crate::text::{concat, join, join_strings, list_contains, owned, replace_char, replace_char_exec, strs};

verus! {

/// One MCP server of a fabric configuration.
#[derive(Debug, Clone, PartialEq, Eq)]
pub struct McpServerConfig {
    pub command: String,
    pub args: Vec<String>,
    pub tools: Vec<String>,
}

/// A fabric configuration: where it was read from and its servers by name.
#[derive(Debug, Clone, PartialEq, Eq)]
pub struct McpFabricTransportClient {
    pub config_path: String,
    pub servers: Vec<(String, McpServerConfig)>,
}

/// The mathematical form of a server.
pub struct ServerView {
    pub command: Seq<char>,
    pub args: Seq<Seq<char>>,
    pub tools: Seq<Seq<char>>,
}

impl View for McpServerConfig {
    type V = ServerView;

    open spec fn view(&self) -> ServerView {
        ServerView { command: self.command@, args: strs(self.args@), tools: strs(self.tools@) }
    }
}

pub open spec fn servers_view(v: Seq<(String, McpServerConfig)>) -> Seq<(Seq<char>, ServerView)> {
    v.map_values(|s: (String, McpServerConfig)| (s.0@, s.1@))
}

/// The texts of an array of strings; `None` for anything else.
pub open spec fn string_array(v: Json) -> Option<Seq<Seq<char>>> {
    match v {
        Json::Array(items) => if forall|i: int| 0 <= i < items.len() ==> (#[trigger] items[i]) is Str {
            Some(items.map_values(|x: Json| x->Str_0))
        } else {
            None
        },
        _ => None,
    }
}

/// An optional string-array member: absent is empty.
pub open spec fn string_list_member(v: Json, key: Seq<char>) -> Option<Seq<Seq<char>>> {
    match field(v, key) {
        None => Some(seq![]),
        Some(a) => string_array(a),
    }
}

/// A server entry: a `command` string and optional `args` and `tools` lists.
pub open spec fn server_view(v: Json) -> Option<ServerView> {
    match (text_field(v, "command"@), string_list_member(v, "args"@), string_list_member(v, "tools"@)) {
        (Some(command), Some(args), Some(tools)) => Some(ServerView { command, args, tools }),
        _ => None,
    }
}

/// The servers of `mcpServers` members, or the first invalid server's error.
pub open spec fn servers_of(members: Seq<(Seq<char>, Json)>) -> Result<Seq<(Seq<char>, ServerView)>, Seq<char>>
    decreases members.len(),
{
    if members.len() == 0 {
        Ok(seq![])
    } else {
        match server_view(members[0].1) {
            None => Err("mcp_fabric_server_invalid:"@ + members[0].0),
            Some(s) => match servers_of(members.drop_first()) {
                Ok(rest) => Ok(seq![(members[0].0, s)] + rest),
                Err(e) => Err(e),
            },
        }
    }
}

/// The servers a fabric configuration text declares, or why it is refused.
pub open spec fn fabric_view(text: Seq<char>) -> Result<Seq<(Seq<char>, ServerView)>, Seq<char>> {
    match crate::json::parsed_json(text) {
        None => Err("mcp_fabric_config_invalid_json"@),
        Some(v) => fabric_value_view(v),
    }
}

/// The servers a parsed fabric configuration declares, or why it is refused.
pub open spec fn fabric_value_view(v: Json) -> Result<Seq<(Seq<char>, ServerView)>, Seq<char>> {
    match field(v, "mcpServers"@) {
        Some(Json::Object(members)) => servers_of(members),
        _ => Err("mcp_fabric_config_missing_servers"@),
    }
}

fn string_array_of(v: &JsonValue) -> (r: Option<Vec<String>>)
    ensures
        match r {
            Some(list) => string_array(v@) == Some(strs(list@)),
            None => string_array(v@) is None,
        },
{
    match v {
        JsonValue::Array(items) => {
            let ghost iv = match v@ {
                Json::Array(a) => a,
                _ => seq![],
            };
            assert(v@ == Json::Array(iv));
            let mut out: Vec<String> = Vec::new();
            let mut i: usize = 0;
            while i < items.len()
                invariant
                    i <= items.len(),
                    iv.len() == items@.len(),
                    forall|k: int| 0 <= k < iv.len() ==> #[trigger] iv[k] == items@[k]@,
                    forall|k: int| 0 <= k < i ==> (#[trigger] iv[k]) is Str,
                    v@ == Json::Array(iv),
                    strs(out@) == iv.take(i as int).map_values(|x: Json| x->Str_0),
                decreases items.len() - i,
            {
                match crate::json::get_text(&items[i]) {
                    Some(s) => {
                        let ghost before = out@;
                        out.push(s.clone());
                        assert(strs(out@) =~= strs(before).push(s@));
                        assert(iv.take(i + 1).map_values(|x: Json| x->Str_0) =~= iv.take(i as int).map_values(
                            |x: Json| x->Str_0,
                        ).push(s@));
                    },
                    None => {
                        assert(v@ == Json::Array(iv));
                        assert(!(iv[i as int] is Str));
                        assert(!(forall|k: int| 0 <= k < iv.len() ==> (#[trigger] iv[k]) is Str));
                        return None;
                    },
                }
                i = i + 1;
            }
            assert(iv.take(i as int) =~= iv);
            Some(out)
        },
        _ => None,
    }
}

fn string_list_member_of(v: &JsonValue, key: &str) -> (r: Option<Vec<String>>)
    ensures
        match r {
            Some(list) => string_list_member(v@, key@) == Some(strs(list@)),
            None => string_list_member(v@, key@) is None,
        },
{
    match crate::json::get(v, key) {
        None => {
            let empty: Vec<String> = Vec::new();
            assert(strs(empty@) =~= Seq::<Seq<char>>::empty());
            Some(empty)
        },
        Some(a) => string_array_of(a),
    }
}

fn server_of(v: &JsonValue) -> (r: Option<McpServerConfig>)
    ensures
        match r {
            Some(s) => server_view(v@) == Some(s@),
            None => server_view(v@) is None,
        },
{
    let command = crate::json::text_of(v, "command");
    let args = string_list_member_of(v, "args");
    let tools = string_list_member_of(v, "tools");
    match (command, args, tools) {
        (Some(command), Some(args), Some(tools)) => Some(McpServerConfig { command, args, tools }),
        _ => None,
    }
}

impl McpFabricTransportClient {
    /// Reads a fabric configuration text: every member of `mcpServers` must
    /// be a server with a `command`.
    pub fn from_json_str(config_path: &str, json_text: &str) -> (r: Result<Self, String>)
        ensures
            match r {
                Ok(c) => c.config_path@ == config_path@ && fabric_view(json_text@) == Ok::<
                    Seq<(Seq<char>, ServerView)>,
                    Seq<char>,
                >(servers_view(c.servers@)),
                Err(e) => fabric_view(json_text@) == Err::<Seq<(Seq<char>, ServerView)>, Seq<char>>(e@),
            },
    {
        match parse_json(json_text) {
            Some(value) => Self::from_json_value(config_path, &value),
            None => Err(owned("mcp_fabric_config_invalid_json")),
        }
    }

    /// Reads a parsed fabric configuration: every member of `mcpServers`
    /// must be a server with a `command`.
    pub fn from_json_value(config_path: &str, value: &JsonValue) -> (r: Result<Self, String>)
        ensures
            match r {
                Ok(c) => c.config_path@ == config_path@ && fabric_value_view(value@) == Ok::<
                    Seq<(Seq<char>, ServerView)>,
                    Seq<char>,
                >(servers_view(c.servers@)),
                Err(e) => fabric_value_view(value@) == Err::<Seq<(Seq<char>, ServerView)>, Seq<char>>(e@),
            },
    {
        let members = match crate::json::get(value, "mcpServers") {
            Some(s) => match object_entries(s) {
                Some(m) => m,
                None => {
                    return Err(owned("mcp_fabric_config_missing_servers"));
                },
            },
            None => {
                return Err(owned("mcp_fabric_config_missing_servers"));
            },
        };
        let ghost mv = entries_view(members@);
        assert(fabric_value_view(value@) == servers_of(mv));
        let mut servers: Vec<(String, McpServerConfig)> = Vec::new();
        let mut i: usize = 0;
        assert(mv.skip(0) =~= mv);
        while i < members.len()
            invariant
                i <= members.len(),
                mv == entries_view(members@),
                fabric_value_view(value@) == servers_of(mv),
                servers_of(mv) == match servers_of(mv.skip(i as int)) {
                    Ok(rest) => Ok(servers_view(servers@) + rest),
                    Err(e) => Err(e),
                },
            decreases members.len() - i,
        {
            assert(mv.skip(i as int).drop_first() =~= mv.skip(i + 1));
            assert(mv.skip(i as int)[0] == (members@[i as int].0@, members@[i as int].1@));
            match server_of(&members[i].1) {
                Some(s) => {
                    let ghost before = servers@;
                    let name = members[i].0.clone();
                    servers.push((name, s));
                    assert(servers_view(servers@) =~= servers_view(before).push((name@, s@)));
                    proof {
                        match servers_of(mv.skip(i + 1)) {
                            Ok(rest) => {
                                assert(servers_view(before) + (seq![(name@, s@)] + rest) =~= servers_view(servers@)
                                    + rest);
                            },
                            Err(e) => {},
                        }
                    }
                },
                None => {
                    return Err(concat("mcp_fabric_server_invalid:", members[i].0.as_str()));
                },
            }
            i = i + 1;
        }
        assert(mv.skip(i as int) =~= Seq::<(Seq<char>, Json)>::empty());
        assert(servers_view(servers@) + Seq::<(Seq<char>, ServerView)>::empty() =~= servers_view(servers@));
        Ok(McpFabricTransportClient { config_path: owned(config_path), servers })
    }
}

/// The tools a fabric admits.
#[derive(Debug, Clone, PartialEq, Eq)]
pub struct McpFabricPolicy {
    pub fabric_root: String,
    pub source: String,
    pub allowed_tools: Vec<String>,
}

impl McpFabricPolicy {
    /// A policy that admits the listed tools.
    pub fn from_allowed_tools(fabric_root: &str, source: &str, tools: &[&str]) -> (r: Self)
        ensures
            r.fabric_root@ == fabric_root@,
            r.source@ == source@,
            strs(r.allowed_tools@) == tools@.map_values(|t: &str| t@),
    {
        McpFabricPolicy {
            fabric_root: owned(fabric_root),
            source: owned(source),
            allowed_tools: crate::text::string_list(tools),
        }
    }
}

/// The boundary tool calls cross: the tools its policy admits.
#[derive(Debug, Clone, PartialEq, Eq)]
pub struct McpFabricBoundary {
    pub policy: McpFabricPolicy,
}

impl McpFabricBoundary {
    /// A boundary admitted under a policy.
    pub fn admitted(policy: McpFabricPolicy) -> (r: Self)
        ensures
            r.policy == policy,
    {
        McpFabricBoundary { policy }
    }

    /// The tools the boundary admits.
    pub open spec fn admits(self, tool: Seq<char>) -> bool {
        strs(self.policy.allowed_tools@).contains(tool)
    }

    /// Whether the boundary admits a tool; the error names a tool it does not.
    pub fn assert_tool_access(&self, tool: &str) -> (r: Result<(), String>)
        ensures
            match r {
                Ok(()) => self.admits(tool@),
                Err(e) => !self.admits(tool@) && e@ == "mcp_tool_not_admitted:"@ + tool@,
            },
    {
        if list_contains(&self.policy.allowed_tools, tool) {
            Ok(())
        } else {
            Err(concat("mcp_tool_not_admitted:", tool))
        }
    }
}

/// A path with `\\` read as `/`.
pub open spec fn codex_path(value: Seq<char>) -> Seq<char> {
    replace_char(value, '\\', '/')
}

/// A TOML key with `\\` and `"` escaped.
pub open spec fn toml_key_view(value: Seq<char>) -> Seq<char>
    decreases value.len(),
{
    if value.len() == 0 {
        seq![]
    } else {
        (if value[0] == '\\' {
            seq!['\\', '\\']
        } else if value[0] == '"' {
            seq!['\\', '"']
        } else {
            seq![value[0]]
        }) + toml_key_view(value.drop_first())
    }
}

/// The configuration lines of one server.
pub open spec fn server_toml_lines(name: Seq<char>, s: ServerView) -> Seq<Seq<char>> {
    seq![
        "[mcp_servers.\""@ + toml_key_view(name) + "\"]"@,
        "command = "@ + compact_text(Json::Str(codex_path(s.command))),
        "args = "@ + compact_text(Json::Array(s.args.map_values(|a: Seq<char>| Json::Str(codex_path(a))))),
        "default_tools_approval_mode = \"approve\""@,
        seq![],
    ]
}

/// The configuration lines of all servers, in order.
pub open spec fn servers_toml_lines(servers: Seq<(Seq<char>, ServerView)>) -> Seq<Seq<char>>
    decreases servers.len(),
{
    if servers.len() == 0 {
        seq![]
    } else {
        servers_toml_lines(servers.drop_last()) + server_toml_lines(servers.last().0, servers.last().1)
    }
}

/// The Codex configuration mirroring a fabric's servers.
pub open spec fn codex_toml_view(servers: Seq<(Seq<char>, ServerView)>) -> Seq<char> {
    join(
        seq![
            "# Generated by narada-agent-tui for nested Codex subprocesses."@,
            "# Mirrors the target Site MCP fabric; does not import User Site MCP servers."@,
            seq![],
        ] + servers_toml_lines(servers),
        seq!['\n'],
    )
}

/// A path with `\\` read as `/`.
pub fn normalize_codex_path(value: &str) -> (r: String)
    ensures
        r@ == codex_path(value@),
{
    replace_char_exec(value, '\\', '/')
}

/// A TOML key with `\\` and `"` escaped.
pub fn toml_key(value: &str) -> (r: String)
    ensures
        r@ == toml_key_view(value@),
{
    let cs = crate::text::chars_of(value);
    let mut out: Vec<char> = Vec::new();
    let mut i: usize = 0;
    assert(cs@.skip(0) =~= cs@);
    while i < cs.len()
        invariant
            i <= cs.len(),
            cs@ == value@,
            toml_key_view(value@) == out@ + toml_key_view(cs@.skip(i as int)),
        decreases cs.len() - i,
    {
        assert(cs@.skip(i as int).drop_first() =~= cs@.skip(i + 1));
        assert(cs@.skip(i as int)[0] == cs@[i as int]);
        let ghost before = out@;
        let c = cs[i];
        if c == '\\' {
            out.push('\\');
            out.push('\\');
        } else if c == '"' {
            out.push('\\');
            out.push('"');
        } else {
            out.push(c);
        }
        assert(before + toml_key_view(cs@.skip(i as int)) =~= out@ + toml_key_view(cs@.skip(i + 1)));
        i = i + 1;
    }
    assert(cs@.skip(i as int) =~= Seq::<char>::empty());
    assert(out@ + Seq::<char>::empty() =~= out@);
    crate::text::string_of(out.as_slice())
}

fn toml_string(value: &str) -> (r: String)
    ensures
        r@ == compact_text(Json::Str(codex_path(value@))),
{
    to_compact_text(&JsonValue::Str(normalize_codex_path(value)))
}

fn args_json(args: &Vec<String>) -> (r: String)
    ensures
        r@ == compact_text(Json::Array(strs(args@).map_values(|a: Seq<char>| Json::Str(codex_path(a))))),
{
    let mut items: Vec<JsonValue> = Vec::new();
    let mut i: usize = 0;
    while i < args.len()
        invariant
            i <= args.len(),
            items@.len() == i,
            forall|k: int| 0 <= k < i ==> (#[trigger] items@[k])@ == Json::Str(codex_path(args@[k]@)),
        decreases args.len() - i,
    {
        items.push(JsonValue::Str(normalize_codex_path(args[i].as_str())));
        i = i + 1;
    }
    let v = JsonValue::Array(items);
    assert(match v@ {
        Json::Array(a) => a =~= strs(args@).map_values(|a: Seq<char>| Json::Str(codex_path(a))),
        _ => false,
    });
    to_compact_text(&v)
}

/// The Codex configuration mirroring a fabric's servers.
pub fn codex_config_toml(client: &McpFabricTransportClient) -> (r: String)
    ensures
        r@ == codex_toml_view(servers_view(client.servers@)),
{
    proof {
        reveal_strlit("");
    }
    assert(""@ =~= Seq::<char>::empty());
    let mut lines = crate::text::string_list(
        &[
            "# Generated by narada-agent-tui for nested Codex subprocesses.",
            "# Mirrors the target Site MCP fabric; does not import User Site MCP servers.",
            "",
        ],
    );
    let ghost header = seq![
        "# Generated by narada-agent-tui for nested Codex subprocesses."@,
        "# Mirrors the target Site MCP fabric; does not import User Site MCP servers."@,
        Seq::<char>::empty(),
    ];
    assert(strs(lines@) =~= header);
    let ghost sv = servers_view(client.servers@);
    let mut i: usize = 0;
    while i < client.servers.len()
        invariant
            i <= client.servers.len(),
            sv == servers_view(client.servers@),
            strs(lines@) == header + servers_toml_lines(sv.take(i as int)),
        decreases client.servers.len() - i,
    {
        assert(sv.take(i + 1).drop_last() =~= sv.take(i as int));
        assert(sv.take(i + 1).last() == (client.servers@[i as int].0@, client.servers@[i as int].1@));
        let name = &client.servers[i].0;
        let server = &client.servers[i].1;
        let k = toml_key(name.as_str());
        let a = concat("[mcp_servers.\"", k.as_str());
        let l1 = concat(a.as_str(), "\"]");
        let l2 = concat("command = ", toml_string(server.command.as_str()).as_str());
        let l3 = concat("args = ", args_json(&server.args).as_str());
        let l4 = owned("default_tools_approval_mode = \"approve\"");
        let l5 = String::new();
        let ghost before = lines@;
        lines.push(l1);
        lines.push(l2);
        lines.push(l3);
        lines.push(l4);
        lines.push(l5);
        assert(strs(lines@) =~= strs(before) + seq![l1@, l2@, l3@, l4@, l5@]);
        assert(seq![l1@, l2@, l3@, l4@, l5@] =~= server_toml_lines(name@, server@));
        assert(header + servers_toml_lines(sv.take(i + 1)) =~= header + servers_toml_lines(sv.take(i as int))
            + server_toml_lines(name@, server@));
        i = i + 1;
    }
    assert(sv.take(i as int) =~= sv);
    proof {
        reveal_strlit("\n");
    }
    let r = join_strings(&lines, "\n");
    assert("\n"@ =~= seq!['\n']);
    r
}

/// The isolated Codex home for a session: its directory, the configuration
/// that mirrors the site fabric, and where authentication files come from.
#[derive(Debug, Clone, PartialEq, Eq)]
pub struct CodexMcpIsolation {
    pub codex_home: String,
    pub codex_config_dir: String,
    pub config_toml: String,
    pub auth_source_home: Option<String>,
}

impl CodexMcpIsolation {
    /// The isolation for a fabric in a Codex home, copying authentication
    /// from a source home.
    pub fn from_client_with_auth_source(
        codex_home: &str,
        client: &McpFabricTransportClient,
        auth_source_home: Option<String>,
    ) -> (r: Self)
        ensures
            r.codex_home@ == codex_home@,
            r.codex_config_dir@ == codex_home@,
            r.config_toml@ == codex_toml_view(servers_view(client.servers@)),
            crate::json::opt_str_view(r.auth_source_home) == crate::json::opt_str_view(auth_source_home),
    {
        CodexMcpIsolation {
            codex_home: owned(codex_home),
            codex_config_dir: owned(codex_home),
            config_toml: codex_config_toml(client),
            auth_source_home,
        }
    }
}

/// Whether MCP fabric access is admitted for a session.
#[derive(Debug, Clone, Copy, PartialEq, Eq, Structural)]
pub enum McpRuntimeAdmissionStatus {
    Disabled,
    Refused,
    Configured,
}

/// The fabric configuration a session's Codex isolation is built from:
/// none while MCP is disabled or refused; when it is configured, the
/// configuration path, which must be given.
pub fn codex_isolation_config_path(status: McpRuntimeAdmissionStatus, config_path: Option<&str>) -> (r: Result<
    Option<String>,
    String,
>)
    ensures
        match status {
            McpRuntimeAdmissionStatus::Disabled | McpRuntimeAdmissionStatus::Refused => r matches Ok(None),
            McpRuntimeAdmissionStatus::Configured => match config_path {
                Some(p) => r matches Ok(Some(q)) && q@ == p@,
                None => r matches Err(e) && e@ == "codex_mcp_isolation_missing_mcp_config"@,
            },
        },
{
    match status {
        McpRuntimeAdmissionStatus::Disabled | McpRuntimeAdmissionStatus::Refused => Ok(None),
        McpRuntimeAdmissionStatus::Configured => match config_path {
            Some(p) => Ok(Some(owned(p))),
            None => Err(owned("codex_mcp_isolation_missing_mcp_config")),
        },
    }
}

} // verus!
