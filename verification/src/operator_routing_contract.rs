//! The operator routing contract: phrases that route straight to a tool,
//! reader routes for paged output references, the tool-call envelope, and
//! groups of tool names that alias one another.
use vstd::prelude::*;
use crate::json::{as_unsigned, field, Json, JsonNumber, JsonValue, NumberView};
use crate::text::{list_contains, owned, str_eq, string_list, strs};

verus! {

/// A phrase route straight to a tool.
#[derive(Debug)]
pub struct DirectToolRoute {
    pub id: String,
    pub phrases: Vec<String>,
    pub tool_name: String,
    pub arguments: JsonValue,
}

/// A reader route: phrases plus an output reference prefix.
#[derive(Debug)]
pub struct ReaderRoute {
    pub id: String,
    pub phrases: Vec<String>,
    pub ref_prefix: String,
    pub tool_name: String,
    pub arguments: JsonValue,
}

/// The JSON envelope a tool call travels in.
#[derive(Debug)]
pub struct ToolCallEnvelope {
    pub field: String,
    pub fenced_json_admitted: bool,
}

/// Tool names that alias one another.
#[derive(Debug)]
pub struct ToolAliasGroup {
    pub id: String,
    pub tools: Vec<String>,
}

/// The operator routing contract.
#[derive(Debug)]
pub struct OperatorRoutingContract {
    pub schema: String,
    pub direct_tool_routes: Vec<DirectToolRoute>,
    pub reader_routes: Vec<ReaderRoute>,
    pub tool_call_envelope: ToolCallEnvelope,
    pub tool_alias_groups: Vec<ToolAliasGroup>,
}

/// The mathematical form of a direct route.
pub struct DirectRouteView {
    pub id: Seq<char>,
    pub phrases: Seq<Seq<char>>,
    pub tool_name: Seq<char>,
    pub arguments: Json,
}

/// The mathematical form of a reader route.
pub struct ReaderRouteView {
    pub id: Seq<char>,
    pub phrases: Seq<Seq<char>>,
    pub ref_prefix: Seq<char>,
    pub tool_name: Seq<char>,
    pub arguments: Json,
}

/// The mathematical form of an alias group.
pub struct AliasGroupView {
    pub id: Seq<char>,
    pub tools: Seq<Seq<char>>,
}

impl View for DirectToolRoute {
    type V = DirectRouteView;

    open spec fn view(&self) -> DirectRouteView {
        DirectRouteView {
            id: self.id@,
            phrases: strs(self.phrases@),
            tool_name: self.tool_name@,
            arguments: self.arguments@,
        }
    }
}

impl View for ReaderRoute {
    type V = ReaderRouteView;

    open spec fn view(&self) -> ReaderRouteView {
        ReaderRouteView {
            id: self.id@,
            phrases: strs(self.phrases@),
            ref_prefix: self.ref_prefix@,
            tool_name: self.tool_name@,
            arguments: self.arguments@,
        }
    }
}

impl View for ToolAliasGroup {
    type V = AliasGroupView;

    open spec fn view(&self) -> AliasGroupView {
        AliasGroupView { id: self.id@, tools: strs(self.tools@) }
    }
}

pub open spec fn routing_schema() -> Seq<char> {
    "narada.carrier.operator_routing_contract.v1"@
}

/// The bundled direct routes.
pub open spec fn bundled_direct_routes() -> Seq<DirectRouteView> {
    seq![
        DirectRouteView {
            id: "startup_sequence"@,
            phrases: seq!["run startup sequence"@, "run the startup sequence"@],
            tool_name: "agent_context_startup_sequence"@,
            arguments: Json::Object(seq![]),
        },
    ]
}

/// The bundled reader routes.
pub open spec fn bundled_reader_routes() -> Seq<ReaderRouteView> {
    seq![
        ReaderRouteView {
            id: "mcp_output_reader"@,
            phrases: seq!["output reader"@, "mcp_output_show"@, "read paged output"@],
            ref_prefix: "mcp_output:"@,
            tool_name: "mcp_output_show"@,
            arguments: Json::Object(seq![("output_limit"@, Json::Number(NumberView::Unsigned(10000)))]),
        },
    ]
}

/// The bundled alias groups.
pub open spec fn bundled_alias_groups() -> Seq<AliasGroupView> {
    seq![
        AliasGroupView {
            id: "startup_sequence"@,
            tools: seq!["agent_context_startup_sequence"@, "startup_sequence"@],
        },
        AliasGroupView { id: "mcp_payload_reader"@, tools: seq!["mcp_payload_show"@, "mcp_payload_read"@] },
    ]
}

/// The bundled tool-call envelope field.
pub open spec fn envelope_field() -> Seq<char> {
    "narada_tool_call"@
}

pub open spec fn direct_routes_view(v: Seq<DirectToolRoute>) -> Seq<DirectRouteView> {
    v.map_values(|r: DirectToolRoute| r@)
}

pub open spec fn reader_routes_view(v: Seq<ReaderRoute>) -> Seq<ReaderRouteView> {
    v.map_values(|r: ReaderRoute| r@)
}

pub open spec fn groups_view(v: Seq<ToolAliasGroup>) -> Seq<AliasGroupView> {
    v.map_values(|g: ToolAliasGroup| g@)
}

/// Whether a contract is the bundled one.
pub open spec fn is_bundled_routing(c: OperatorRoutingContract) -> bool {
    &&& c.schema@ == routing_schema()
    &&& direct_routes_view(c.direct_tool_routes@) == bundled_direct_routes()
    &&& reader_routes_view(c.reader_routes@) == bundled_reader_routes()
    &&& c.tool_call_envelope.field@ == envelope_field()
    &&& c.tool_call_envelope.fenced_json_admitted
    &&& groups_view(c.tool_alias_groups@) == bundled_alias_groups()
}

/// The first direct route with an id.
pub open spec fn first_direct(routes: Seq<DirectRouteView>, id: Seq<char>) -> Option<DirectRouteView>
    decreases routes.len(),
{
    if routes.len() == 0 {
        None
    } else if routes[0].id == id {
        Some(routes[0])
    } else {
        first_direct(routes.drop_first(), id)
    }
}

/// The first reader route with an id.
pub open spec fn first_reader(routes: Seq<ReaderRouteView>, id: Seq<char>) -> Option<ReaderRouteView>
    decreases routes.len(),
{
    if routes.len() == 0 {
        None
    } else if routes[0].id == id {
        Some(routes[0])
    } else {
        first_reader(routes.drop_first(), id)
    }
}

/// The first alias group with an id.
pub open spec fn first_group(groups: Seq<AliasGroupView>, id: Seq<char>) -> Option<AliasGroupView>
    decreases groups.len(),
{
    if groups.len() == 0 {
        None
    } else if groups[0].id == id {
        Some(groups[0])
    } else {
        first_group(groups.drop_first(), id)
    }
}

/// The first alias group that lists a tool.
pub open spec fn group_with_tool(groups: Seq<AliasGroupView>, tool: Seq<char>) -> Option<AliasGroupView>
    decreases groups.len(),
{
    if groups.len() == 0 {
        None
    } else if groups[0].tools.contains(tool) {
        Some(groups[0])
    } else {
        group_with_tool(groups.drop_first(), tool)
    }
}

/// The alias-group problem: a missing group, or a group lacking a tool.
pub open spec fn alias_problem(groups: Seq<AliasGroupView>, id: Seq<char>, tools: Seq<Seq<char>>) -> Option<Seq<char>> {
    match first_group(groups, id) {
        None => Some("operator_routing_contract_invalid:alias_group_missing:"@ + id),
        Some(g) => if !g.tools.contains(tools[0]) {
            Some("operator_routing_contract_invalid:alias_group_tool_missing:"@ + g.id + seq![':'] + tools[0])
        } else if !g.tools.contains(tools[1]) {
            Some("operator_routing_contract_invalid:alias_group_tool_missing:"@ + g.id + seq![':'] + tools[1])
        } else {
            None
        },
    }
}

/// The first failed check of a contract read from JSON, if any.
pub open spec fn routing_problem(c: OperatorRoutingContract) -> Option<Seq<char>> {
    let startup = first_direct(direct_routes_view(c.direct_tool_routes@), "startup_sequence"@);
    let reader = first_reader(reader_routes_view(c.reader_routes@), "mcp_output_reader"@);
    let groups = groups_view(c.tool_alias_groups@);
    if c.schema@ != routing_schema() {
        Some("operator_routing_contract_invalid:schema"@)
    } else if startup is None {
        Some("operator_routing_contract_invalid:startup_route_missing"@)
    } else if startup->Some_0.tool_name != "agent_context_startup_sequence"@ {
        Some("operator_routing_contract_invalid:startup_tool_name"@)
    } else if startup->Some_0.phrases.len() == 0 {
        Some("operator_routing_contract_invalid:startup_phrases"@)
    } else if !(startup->Some_0.arguments is Object) {
        Some("operator_routing_contract_invalid:startup_arguments"@)
    } else if reader is None {
        Some("operator_routing_contract_invalid:output_reader_route_missing"@)
    } else if reader->Some_0.tool_name != "mcp_output_show"@ {
        Some("operator_routing_contract_invalid:output_reader_tool_name"@)
    } else if reader->Some_0.ref_prefix != "mcp_output:"@ {
        Some("operator_routing_contract_invalid:output_reader_ref_prefix"@)
    } else if reader->Some_0.phrases.len() == 0 {
        Some("operator_routing_contract_invalid:output_reader_phrases"@)
    } else if match field(reader->Some_0.arguments, "output_limit"@) {
        Some(x) => as_unsigned(x) is None,
        None => true,
    } {
        Some("operator_routing_contract_invalid:output_reader_limit"@)
    } else if c.tool_call_envelope.field@ != envelope_field() {
        Some("operator_routing_contract_invalid:tool_call_envelope_field"@)
    } else if !c.tool_call_envelope.fenced_json_admitted {
        Some("operator_routing_contract_invalid:fenced_json_admission"@)
    } else if alias_problem(groups, "startup_sequence"@, seq!["agent_context_startup_sequence"@, "startup_sequence"@])
        is Some {
        alias_problem(groups, "startup_sequence"@, seq!["agent_context_startup_sequence"@, "startup_sequence"@])
    } else {
        alias_problem(groups, "mcp_payload_reader"@, seq!["mcp_payload_show"@, "mcp_payload_read"@])
    }
}

/// The bundled operator routing contract.
pub fn operator_routing_contract() -> (c: OperatorRoutingContract)
    ensures
        is_bundled_routing(c),
{
    let startup_phrases = string_list(&["run startup sequence", "run the startup sequence"]);
    assert(strs(startup_phrases@) =~= seq!["run startup sequence"@, "run the startup sequence"@]);
    let no_members: Vec<(String, JsonValue)> = Vec::new();
    proof {
        crate::json::lemma_object_view(no_members);
    }
    assert(crate::json::entries_view(no_members@) =~= seq![]);
    let startup_args = JsonValue::Object(no_members);
    let mut direct: Vec<DirectToolRoute> = Vec::new();
    direct.push(
        DirectToolRoute {
            id: owned("startup_sequence"),
            phrases: startup_phrases,
            tool_name: owned("agent_context_startup_sequence"),
            arguments: startup_args,
        },
    );
    assert(direct_routes_view(direct@) =~= bundled_direct_routes());
    let reader_phrases = string_list(&["output reader", "mcp_output_show", "read paged output"]);
    assert(strs(reader_phrases@) =~= seq!["output reader"@, "mcp_output_show"@, "read paged output"@]);
    let mut limit: Vec<(String, JsonValue)> = Vec::new();
    limit.push((owned("output_limit"), JsonValue::Number(JsonNumber::Unsigned(10000))));
    proof {
        crate::json::lemma_object_view(limit);
    }
    assert(crate::json::entries_view(limit@) =~= seq![("output_limit"@, Json::Number(NumberView::Unsigned(10000)))]);
    let mut readers: Vec<ReaderRoute> = Vec::new();
    readers.push(
        ReaderRoute {
            id: owned("mcp_output_reader"),
            phrases: reader_phrases,
            ref_prefix: owned("mcp_output:"),
            tool_name: owned("mcp_output_show"),
            arguments: JsonValue::Object(limit),
        },
    );
    assert(reader_routes_view(readers@) =~= bundled_reader_routes());
    let startup_tools = string_list(&["agent_context_startup_sequence", "startup_sequence"]);
    assert(strs(startup_tools@) =~= seq!["agent_context_startup_sequence"@, "startup_sequence"@]);
    let payload_tools = string_list(&["mcp_payload_show", "mcp_payload_read"]);
    assert(strs(payload_tools@) =~= seq!["mcp_payload_show"@, "mcp_payload_read"@]);
    let mut groups: Vec<ToolAliasGroup> = Vec::new();
    groups.push(ToolAliasGroup { id: owned("startup_sequence"), tools: startup_tools });
    groups.push(ToolAliasGroup { id: owned("mcp_payload_reader"), tools: payload_tools });
    assert(groups_view(groups@) =~= bundled_alias_groups());
    OperatorRoutingContract {
        schema: owned("narada.carrier.operator_routing_contract.v1"),
        direct_tool_routes: direct,
        reader_routes: readers,
        tool_call_envelope: ToolCallEnvelope { field: owned("narada_tool_call"), fenced_json_admitted: true },
        tool_alias_groups: groups,
    }
}

fn find_group(groups: &Vec<ToolAliasGroup>, id: &str) -> (r: Option<usize>)
    ensures
        match r {
            Some(i) => i < groups.len() && first_group(groups_view(groups@), id@) == Some(groups@[i as int]@),
            None => first_group(groups_view(groups@), id@) is None,
        },
{
    let ghost g = groups_view(groups@);
    assert(g.skip(0) =~= g);
    let mut i: usize = 0;
    while i < groups.len()
        invariant
            i <= groups.len(),
            g == groups_view(groups@),
            first_group(g, id@) == first_group(g.skip(i as int), id@),
        decreases groups.len() - i,
    {
        assert(g.skip(i as int).drop_first() =~= g.skip(i + 1));
        assert(g.skip(i as int)[0] == groups@[i as int]@);
        if str_eq(groups[i].id.as_str(), id) {
            return Some(i);
        }
        i = i + 1;
    }
    None
}

fn find_group_with_tool(groups: &Vec<ToolAliasGroup>, tool: &str) -> (r: Option<usize>)
    ensures
        match r {
            Some(i) => i < groups.len() && group_with_tool(groups_view(groups@), tool@) == Some(groups@[i as int]@),
            None => group_with_tool(groups_view(groups@), tool@) is None,
        },
{
    let ghost g = groups_view(groups@);
    assert(g.skip(0) =~= g);
    let mut i: usize = 0;
    while i < groups.len()
        invariant
            i <= groups.len(),
            g == groups_view(groups@),
            group_with_tool(g, tool@) == group_with_tool(g.skip(i as int), tool@),
        decreases groups.len() - i,
    {
        assert(g.skip(i as int).drop_first() =~= g.skip(i + 1));
        assert(g.skip(i as int)[0] == groups@[i as int]@);
        if list_contains(&groups[i].tools, tool) {
            return Some(i);
        }
        i = i + 1;
    }
    None
}

fn find_direct(routes: &Vec<DirectToolRoute>, id: &str) -> (r: Option<usize>)
    ensures
        match r {
            Some(i) => i < routes.len() && first_direct(direct_routes_view(routes@), id@) == Some(routes@[i as int]@),
            None => first_direct(direct_routes_view(routes@), id@) is None,
        },
{
    let ghost g = direct_routes_view(routes@);
    assert(g.skip(0) =~= g);
    let mut i: usize = 0;
    while i < routes.len()
        invariant
            i <= routes.len(),
            g == direct_routes_view(routes@),
            first_direct(g, id@) == first_direct(g.skip(i as int), id@),
        decreases routes.len() - i,
    {
        assert(g.skip(i as int).drop_first() =~= g.skip(i + 1));
        assert(g.skip(i as int)[0] == routes@[i as int]@);
        if str_eq(routes[i].id.as_str(), id) {
            return Some(i);
        }
        i = i + 1;
    }
    None
}

fn find_reader(routes: &Vec<ReaderRoute>, id: &str) -> (r: Option<usize>)
    ensures
        match r {
            Some(i) => i < routes.len() && first_reader(reader_routes_view(routes@), id@) == Some(routes@[i as int]@),
            None => first_reader(reader_routes_view(routes@), id@) is None,
        },
{
    let ghost g = reader_routes_view(routes@);
    assert(g.skip(0) =~= g);
    let mut i: usize = 0;
    while i < routes.len()
        invariant
            i <= routes.len(),
            g == reader_routes_view(routes@),
            first_reader(g, id@) == first_reader(g.skip(i as int), id@),
        decreases routes.len() - i,
    {
        assert(g.skip(i as int).drop_first() =~= g.skip(i + 1));
        assert(g.skip(i as int)[0] == routes@[i as int]@);
        if str_eq(routes[i].id.as_str(), id) {
            return Some(i);
        }
        i = i + 1;
    }
    None
}

fn copy_strings(v: &Vec<String>) -> (r: Vec<String>)
    ensures
        strs(r@) == strs(v@),
{
    let mut r: Vec<String> = Vec::new();
    let mut i: usize = 0;
    while i < v.len()
        invariant
            i <= v.len(),
            strs(r@) == strs(v@).take(i as int),
        decreases v.len() - i,
    {
        let ghost before = r@;
        r.push(v[i].clone());
        assert(strs(r@) =~= strs(before).push(v@[i as int]@));
        assert(strs(v@).take(i + 1) =~= strs(v@).take(i as int).push(v@[i as int]@));
        i = i + 1;
    }
    assert(strs(v@).take(v.len() as int) =~= strs(v@));
    r
}

/// The tools that alias a tool: the first bundled group that lists it.
pub fn tool_aliases_for(tool_name: &str) -> (r: Option<Vec<String>>)
    ensures
        match r {
            Some(tools) => group_with_tool(bundled_alias_groups(), tool_name@) matches Some(g) && strs(tools@) == g.tools,
            None => group_with_tool(bundled_alias_groups(), tool_name@) is None,
        },
{
    let c = operator_routing_contract();
    match find_group_with_tool(&c.tool_alias_groups, tool_name) {
        Some(i) => Some(copy_strings(&c.tool_alias_groups[i].tools)),
        None => None,
    }
}

proof fn lemma_payload_group()
    ensures
        first_group(bundled_alias_groups(), "mcp_payload_reader"@) == Some(bundled_alias_groups()[1]),
{
    reveal_strlit("startup_sequence");
    reveal_strlit("mcp_payload_reader");
    let g = bundled_alias_groups();
    assert(g[0].id != "mcp_payload_reader"@) by {
        assert(g[0].id.len() != "mcp_payload_reader"@.len());
    }
    assert(g.drop_first()[0] == g[1]);
    assert(g.drop_first()[0].id == "mcp_payload_reader"@);
    assert(first_group(g.drop_first(), "mcp_payload_reader"@) == Some(g[1]));
}

/// The payload reader tools, primary first.
pub fn payload_reader_tools() -> (r: Vec<String>)
    ensures
        strs(r@) == seq!["mcp_payload_show"@, "mcp_payload_read"@],
{
    let c = operator_routing_contract();
    proof {
        lemma_payload_group();
    }
    match find_group(&c.tool_alias_groups, "mcp_payload_reader") {
        Some(i) => copy_strings(&c.tool_alias_groups[i].tools),
        None => {
            proof {
                assert(false);
            }
            Vec::new()
        },
    }
}

/// The primary payload reader tool.
pub fn payload_reader_tool_name() -> (r: String)
    ensures
        r@ == "mcp_payload_show"@,
{
    let tools = payload_reader_tools();
    assert(strs(tools@).len() == tools@.len());
    assert(strs(tools@)[0] == tools@[0]@);
    tools[0].clone()
}

proof fn lemma_output_reader()
    ensures
        first_reader(bundled_reader_routes(), "mcp_output_reader"@) == Some(bundled_reader_routes()[0]),
{
}

/// The output reader tool.
pub fn output_reader_tool_name() -> (r: String)
    ensures
        r@ == "mcp_output_show"@,
{
    let c = operator_routing_contract();
    proof {
        lemma_output_reader();
    }
    match find_reader(&c.reader_routes, "mcp_output_reader") {
        Some(i) => c.reader_routes[i].tool_name.clone(),
        None => {
            proof {
                assert(false);
            }
            String::new()
        },
    }
}

/// The alias group with an id, or the error naming the missing group.
fn required_alias_group(groups: &Vec<ToolAliasGroup>, id: &str) -> (r: Result<usize, String>)
    ensures
        match r {
            Ok(i) => i < groups.len() && first_group(groups_view(groups@), id@) == Some(groups@[i as int]@),
            Err(e) => first_group(groups_view(groups@), id@) is None && e@
                == "operator_routing_contract_invalid:alias_group_missing:"@ + id@,
        },
{
    match find_group(groups, id) {
        Some(i) => Ok(i),
        None => Err(crate::text::concat("operator_routing_contract_invalid:alias_group_missing:", id)),
    }
}

/// Checks that an alias group lists a tool.
fn require_alias_tool(group: &ToolAliasGroup, tool_name: &str) -> (r: Result<(), String>)
    ensures
        match r {
            Ok(()) => group@.tools.contains(tool_name@),
            Err(e) => !group@.tools.contains(tool_name@) && e@
                == "operator_routing_contract_invalid:alias_group_tool_missing:"@ + group@.id + seq![':'] + tool_name@,
        },
{
    if list_contains(&group.tools, tool_name) {
        Ok(())
    } else {
        proof {
            reveal_strlit(":");
        }
        let a = crate::text::concat("operator_routing_contract_invalid:alias_group_tool_missing:", group.id.as_str());
        let b = crate::text::concat(a.as_str(), ":");
        let e = crate::text::concat(b.as_str(), tool_name);
        assert(e@ =~= "operator_routing_contract_invalid:alias_group_tool_missing:"@ + group@.id + seq![':'] + tool_name@);
        Err(e)
    }
}

fn require_alias_tools(groups: &Vec<ToolAliasGroup>, id: &str, first: &str, second: &str) -> (r: Result<(), String>)
    ensures
        match r {
            Ok(()) => alias_problem(groups_view(groups@), id@, seq![first@, second@]) is None,
            Err(e) => alias_problem(groups_view(groups@), id@, seq![first@, second@]) == Some(e@),
        },
{
    let i = match required_alias_group(groups, id) {
        Ok(i) => i,
        Err(e) => {
            return Err(e);
        },
    };
    match require_alias_tool(&groups[i], first) {
        Ok(()) => {},
        Err(e) => {
            return Err(e);
        },
    }
    require_alias_tool(&groups[i], second)
}

/// Checks a contract read from JSON, reporting the first failed check.
pub fn validate_operator_routing_contract(c: &OperatorRoutingContract) -> (r: Result<(), String>)
    ensures
        match r {
            Ok(()) => routing_problem(*c) is None,
            Err(e) => routing_problem(*c) == Some(e@),
        },
{
    if !str_eq(c.schema.as_str(), "narada.carrier.operator_routing_contract.v1") {
        return Err(owned("operator_routing_contract_invalid:schema"));
    }
    let startup = match find_direct(&c.direct_tool_routes, "startup_sequence") {
        Some(i) => &c.direct_tool_routes[i],
        None => {
            return Err(owned("operator_routing_contract_invalid:startup_route_missing"));
        },
    };
    if !str_eq(startup.tool_name.as_str(), "agent_context_startup_sequence") {
        return Err(owned("operator_routing_contract_invalid:startup_tool_name"));
    }
    if startup.phrases.len() == 0 {
        return Err(owned("operator_routing_contract_invalid:startup_phrases"));
    }
    if !crate::json::is_object_value(&startup.arguments) {
        return Err(owned("operator_routing_contract_invalid:startup_arguments"));
    }
    let reader = match find_reader(&c.reader_routes, "mcp_output_reader") {
        Some(i) => &c.reader_routes[i],
        None => {
            return Err(owned("operator_routing_contract_invalid:output_reader_route_missing"));
        },
    };
    if !str_eq(reader.tool_name.as_str(), "mcp_output_show") {
        return Err(owned("operator_routing_contract_invalid:output_reader_tool_name"));
    }
    if !str_eq(reader.ref_prefix.as_str(), "mcp_output:") {
        return Err(owned("operator_routing_contract_invalid:output_reader_ref_prefix"));
    }
    if reader.phrases.len() == 0 {
        return Err(owned("operator_routing_contract_invalid:output_reader_phrases"));
    }
    let limit_ok = match crate::json::get(&reader.arguments, "output_limit") {
        Some(x) => crate::json::get_unsigned(x).is_some(),
        None => false,
    };
    if !limit_ok {
        return Err(owned("operator_routing_contract_invalid:output_reader_limit"));
    }
    if !str_eq(c.tool_call_envelope.field.as_str(), "narada_tool_call") {
        return Err(owned("operator_routing_contract_invalid:tool_call_envelope_field"));
    }
    if !c.tool_call_envelope.fenced_json_admitted {
        return Err(owned("operator_routing_contract_invalid:fenced_json_admission"));
    }
    require_alias_tools(&c.tool_alias_groups, "startup_sequence", "agent_context_startup_sequence", "startup_sequence")?;
    require_alias_tools(&c.tool_alias_groups, "mcp_payload_reader", "mcp_payload_show", "mcp_payload_read")
}

} // verus!
