//! The carrier command contract: which slash commands the composer
//! recognises, their aliases, and how a typed token is normalised and
//! resolved to a command name.
use vstd::prelude::*;
use crate::text::{
    has_text, normalize_token, owned, strs, normalize_text, list_has, string_list, str_eq,
    lemma_normalize_token_idempotent, lemma_normalize_token_single_spaces,
};

verus! {

/// One command of the contract.
#[derive(Debug)]
pub struct CarrierCommandRecord {
    pub name: String,
    pub primary: String,
    pub aliases: Vec<String>,
    pub effect: String,
    pub help: String,
    pub argument: Option<String>,
}

/// The command contract: its schema and its commands, in order.
#[derive(Debug)]
pub struct CarrierCommandContract {
    pub schema: String,
    pub commands: Vec<CarrierCommandRecord>,
}

/// The mathematical form of a command record.
pub struct CommandEntry {
    pub name: Seq<char>,
    pub primary: Seq<char>,
    pub aliases: Seq<Seq<char>>,
    pub effect: Seq<char>,
    pub help: Seq<char>,
    pub argument: Option<Seq<char>>,
}

pub open spec fn opt_text(o: Option<String>) -> Option<Seq<char>> {
    match o {
        Some(s) => Some(s@),
        None => None,
    }
}

impl View for CarrierCommandRecord {
    type V = CommandEntry;

    open spec fn view(&self) -> CommandEntry {
        CommandEntry {
            name: self.name@,
            primary: self.primary@,
            aliases: strs(self.aliases@),
            effect: self.effect@,
            help: self.help@,
            argument: opt_text(self.argument),
        }
    }
}

pub open spec fn command_entry(
    name: Seq<char>,
    primary: Seq<char>,
    aliases: Seq<Seq<char>>,
    effect: Seq<char>,
    help: Seq<char>,
    argument: Option<Seq<char>>,
) -> CommandEntry {
    CommandEntry { name, primary, aliases, effect, help, argument }
}

/// The schema the command contract declares.
pub open spec fn command_contract_schema() -> Seq<char> {
    "narada.carrier.command_contract.v1"@
}

/// The bundled commands, in contract order.
pub open spec fn bundled_commands() -> Seq<CommandEntry> {
    seq![
        command_entry("help"@, "/help"@, seq![], "show_help"@, "Show carrier commands and composer keys."@, None),
        command_entry("status"@, "/status"@, seq![], "show_status"@, "Show session, turn, and queue status."@, None),
        command_entry("goal"@, "/goal"@, seq![], "set_goal"@, "Show or set the carrier session goal."@, Some("goal"@)),
        command_entry("stats"@, "/stats"@, seq![], "show_stats"@, "Show usage statistics."@, Some("options"@)),
        command_entry("model"@, "/model"@, seq![], "set_model"@, "Show or set the session model."@, Some("model"@)),
        command_entry("thinking"@, "/thinking"@, seq![], "set_thinking"@, "Show or set the thinking level."@, Some("level"@)),
        command_entry("tool_output"@, "/tool-output"@, seq!["/tool-outputs"@], "set_tool_output"@, "Show or set tool output visibility."@, Some("mode"@)),
        command_entry("tools"@, "/tools"@, seq!["/tool"@], "show_tools"@, "List the tools admitted for the session."@, Some("filter"@)),
        command_entry("observers"@, "/observers"@, seq![], "show_observers"@, "Show attached observers."@, None),
        command_entry("observer_mute"@, "/observer mute"@, seq![], "mute_observers"@, "Suppress observer interjections."@, None),
        command_entry("observer_unmute"@, "/observer unmute"@, seq![], "unmute_observers"@, "Admit observer interjections again."@, None),
        command_entry("queue_show"@, "/queue"@, seq![], "show_queue"@, "Show queued operator input."@, None),
        command_entry("queue_clear"@, "/queue clear"@, seq![], "clear_queue"@, "Drop all queued operator input."@, None),
        command_entry("queue_drop"@, "/queue drop <index>"@, seq![], "drop_queued_input"@, "Drop one queued operator input."@, Some("index"@)),
        command_entry("clear"@, "/clear"@, seq![], "clear_transcript"@, "Clear the local transcript view."@, None),
        command_entry("exit"@, "/exit"@, seq!["/quit"@, "exit"@], "exit"@, "Close the session and leave."@, None),
    ]
}

/// The command names the contract must define.
pub open spec fn required_command_names() -> Seq<Seq<char>> {
    seq![
        "help"@, "status"@, "goal"@, "stats"@, "model"@, "thinking"@, "tool_output"@, "tools"@,
        "observers"@, "observer_mute"@, "observer_unmute"@, "queue_show"@, "queue_clear"@,
        "queue_drop"@, "clear"@, "exit"@,
    ]
}

pub open spec fn records_view(v: Seq<CarrierCommandRecord>) -> Seq<CommandEntry> {
    v.map_values(|r: CarrierCommandRecord| r@)
}

/// The first command with the given name.
pub open spec fn first_named(cmds: Seq<CommandEntry>, name: Seq<char>) -> Option<CommandEntry>
    decreases cmds.len(),
{
    if cmds.len() == 0 {
        None
    } else if cmds[0].name == name {
        Some(cmds[0])
    } else {
        first_named(cmds.drop_first(), name)
    }
}

/// Whether a command's primary token or one of its aliases normalises to `normalized`.
pub open spec fn entry_matches(e: CommandEntry, normalized: Seq<char>) -> bool {
    normalize_token(e.primary) == normalized
        || exists|k: int| 0 <= k < e.aliases.len() && normalize_token(#[trigger] e.aliases[k]) == normalized
}

/// The name of the first command that a normalised token designates.
pub open spec fn first_matching(cmds: Seq<CommandEntry>, normalized: Seq<char>) -> Option<Seq<char>>
    decreases cmds.len(),
{
    if cmds.len() == 0 {
        None
    } else if entry_matches(cmds[0], normalized) {
        Some(cmds[0].name)
    } else {
        first_matching(cmds.drop_first(), normalized)
    }
}

/// The command name a typed token resolves to in the bundled contract.
pub open spec fn command_name_of(token: Seq<char>) -> Option<Seq<char>> {
    first_matching(bundled_commands(), normalize_token(token))
}

/// Every primary token and alias, command by command, in contract order.
pub open spec fn tokens_of(cmds: Seq<CommandEntry>) -> Seq<Seq<char>>
    decreases cmds.len(),
{
    if cmds.len() == 0 {
        seq![]
    } else {
        tokens_of(cmds.drop_last()) + seq![cmds.last().primary] + cmds.last().aliases
    }
}

pub open spec fn opt_entry(r: Option<CarrierCommandRecord>) -> Option<CommandEntry> {
    match r {
        Some(rec) => Some(rec@),
        None => None,
    }
}

/// What validating a contract reports: the first failed check, if any.
pub open spec fn command_contract_problem(schema: Seq<char>, cmds: Seq<CommandEntry>) -> Option<Seq<char>> {
    if schema != command_contract_schema() {
        Some("carrier_command_contract_invalid:schema"@)
    } else {
        first_missing_name(cmds, required_command_names())
    }
}

/// The error for the first required name that no command carries.
pub open spec fn first_missing_name(cmds: Seq<CommandEntry>, names: Seq<Seq<char>>) -> Option<Seq<char>>
    decreases names.len(),
{
    if names.len() == 0 {
        None
    } else if first_named(cmds, names[0]) is None {
        Some("carrier_command_contract_invalid:missing:"@ + names[0])
    } else {
        first_missing_name(cmds, names.drop_first())
    }
}

fn command_record(
    name: &str,
    primary: &str,
    aliases: Vec<String>,
    effect: &str,
    help: &str,
    argument: Option<String>,
) -> (r: CarrierCommandRecord)
    ensures
        r@ == command_entry(name@, primary@, strs(aliases@), effect@, help@, opt_text(argument)),
{
    CarrierCommandRecord {
        name: owned(name),
        primary: owned(primary),
        aliases,
        effect: owned(effect),
        help: owned(help),
        argument,
    }
}

/// The bundled command contract.
pub fn carrier_command_contract() -> (c: CarrierCommandContract)
    ensures
        c.schema@ == command_contract_schema(),
        records_view(c.commands@) == bundled_commands(),
{
    let mut commands: Vec<CarrierCommandRecord> = Vec::new();
    {
        let a = string_list(&[]);
        assert(strs(a@) =~= seq![]);
    commands.push(command_record("help", "/help", a, "show_help", "Show carrier commands and composer keys.", None));
    }
    {
        let a = string_list(&[]);
        assert(strs(a@) =~= seq![]);
    commands.push(command_record("status", "/status", a, "show_status", "Show session, turn, and queue status.", None));
    }
    {
        let a = string_list(&[]);
        assert(strs(a@) =~= seq![]);
    commands.push(command_record("goal", "/goal", a, "set_goal", "Show or set the carrier session goal.", Some(owned("goal"))));
    }
    {
        let a = string_list(&[]);
        assert(strs(a@) =~= seq![]);
    commands.push(command_record("stats", "/stats", a, "show_stats", "Show usage statistics.", Some(owned("options"))));
    }
    {
        let a = string_list(&[]);
        assert(strs(a@) =~= seq![]);
    commands.push(command_record("model", "/model", a, "set_model", "Show or set the session model.", Some(owned("model"))));
    }
    {
        let a = string_list(&[]);
        assert(strs(a@) =~= seq![]);
    commands.push(command_record("thinking", "/thinking", a, "set_thinking", "Show or set the thinking level.", Some(owned("level"))));
    }
    {
        let a = string_list(&["/tool-outputs"]);
        assert(strs(a@) =~= seq!["/tool-outputs"@]);
    commands.push(command_record("tool_output", "/tool-output", a, "set_tool_output", "Show or set tool output visibility.", Some(owned("mode"))));
    }
    {
        let a = string_list(&["/tool"]);
        assert(strs(a@) =~= seq!["/tool"@]);
    commands.push(command_record("tools", "/tools", a, "show_tools", "List the tools admitted for the session.", Some(owned("filter"))));
    }
    {
        let a = string_list(&[]);
        assert(strs(a@) =~= seq![]);
    commands.push(command_record("observers", "/observers", a, "show_observers", "Show attached observers.", None));
    }
    {
        let a = string_list(&[]);
        assert(strs(a@) =~= seq![]);
    commands.push(command_record("observer_mute", "/observer mute", a, "mute_observers", "Suppress observer interjections.", None));
    }
    {
        let a = string_list(&[]);
        assert(strs(a@) =~= seq![]);
    commands.push(command_record("observer_unmute", "/observer unmute", a, "unmute_observers", "Admit observer interjections again.", None));
    }
    {
        let a = string_list(&[]);
        assert(strs(a@) =~= seq![]);
    commands.push(command_record("queue_show", "/queue", a, "show_queue", "Show queued operator input.", None));
    }
    {
        let a = string_list(&[]);
        assert(strs(a@) =~= seq![]);
    commands.push(command_record("queue_clear", "/queue clear", a, "clear_queue", "Drop all queued operator input.", None));
    }
    {
        let a = string_list(&[]);
        assert(strs(a@) =~= seq![]);
    commands.push(command_record("queue_drop", "/queue drop <index>", a, "drop_queued_input", "Drop one queued operator input.", Some(owned("index"))));
    }
    {
        let a = string_list(&[]);
        assert(strs(a@) =~= seq![]);
    commands.push(command_record("clear", "/clear", a, "clear_transcript", "Clear the local transcript view.", None));
    }
    {
        let a = string_list(&["/quit", "exit"]);
        assert(strs(a@) =~= seq!["/quit"@, "exit"@]);
    commands.push(command_record("exit", "/exit", a, "exit", "Close the session and leave.", None));
    }
    assert(records_view(commands@) =~= bundled_commands());
    CarrierCommandContract { schema: owned("narada.carrier.command_contract.v1"), commands }
}

fn copy_strings(v: &Vec<String>) -> (r: Vec<String>)
    ensures
        strs(r@) == strs(v@),
{
    let mut r: Vec<String> = Vec::new();
    let mut i: usize = 0;
    while i < v.len()
        invariant
            i <= v.len(),
            strs(r@) == strs(v@).take(i as int),
        decreases v.len() - i,
    {
        let ghost before = r@;
        r.push(v[i].clone());
        assert(strs(r@) =~= strs(before).push(v@[i as int]@));
        assert(strs(v@).take(i + 1) =~= strs(v@).take(i as int).push(v@[i as int]@));
        i = i + 1;
    }
    assert(strs(v@).take(v.len() as int) =~= strs(v@));
    r
}

fn copy_record(r: &CarrierCommandRecord) -> (c: CarrierCommandRecord)
    ensures
        c@ == r@,
{
    CarrierCommandRecord {
        name: r.name.clone(),
        primary: r.primary.clone(),
        aliases: copy_strings(&r.aliases),
        effect: r.effect.clone(),
        help: r.help.clone(),
        argument: match &r.argument {
            Some(a) => Some(a.clone()),
            None => None,
        },
    }
}

/// The first command of `commands` with the given name.
fn command_named_in(commands: &Vec<CarrierCommandRecord>, name: &str) -> (r: Option<usize>)
    ensures
        match r {
            Some(i) => i < commands.len() && first_named(records_view(commands@), name@) == Some(commands@[i as int]@),
            None => first_named(records_view(commands@), name@) is None,
        },
{
    let ghost cmds = records_view(commands@);
    assert(cmds.skip(0) =~= cmds);
    let mut i: usize = 0;
    while i < commands.len()
        invariant
            i <= commands.len(),
            cmds == records_view(commands@),
            first_named(cmds, name@) == first_named(cmds.skip(i as int), name@),
        decreases commands.len() - i,
    {
        assert(cmds.skip(i as int).drop_first() =~= cmds.skip(i + 1));
        assert(cmds.skip(i as int)[0] == commands@[i as int]@);
        if str_eq(commands[i].name.as_str(), name) {
            return Some(i);
        }
        i = i + 1;
    }
    None
}

/// The bundled command with the given name.
pub fn command_named(name: &str) -> (r: Option<CarrierCommandRecord>)
    ensures
        opt_entry(r) == first_named(bundled_commands(), name@),
{
    let contract = carrier_command_contract();
    match command_named_in(&contract.commands, name) {
        Some(i) => Some(copy_record(&contract.commands[i])),
        None => None,
    }
}

fn record_matches(record: &CarrierCommandRecord, normalized: &str) -> (r: bool)
    ensures
        r == entry_matches(record@, normalized@),
{
    let primary = normalize_text(record.primary.as_str());
    if str_eq(primary.as_str(), normalized) {
        return true;
    }
    let mut k: usize = 0;
    while k < record.aliases.len()
        invariant
            k <= record.aliases.len(),
            normalize_token(record.primary@) != normalized@,
            forall|j: int| 0 <= j < k ==> normalize_token(#[trigger] strs(record.aliases@)[j]) != normalized@,
        decreases record.aliases.len() - k,
    {
        let alias = normalize_text(record.aliases[k].as_str());
        if str_eq(alias.as_str(), normalized) {
            assert(strs(record.aliases@)[k as int] == record.aliases@[k as int]@);
            assert(normalize_token(record@.aliases[k as int]) == normalized@);
            assert(entry_matches(record@, normalized@));
            return true;
        }
        k = k + 1;
    }
    false
}

/// The name of the bundled command that a typed token designates.
pub fn command_name_for_token(token: &str) -> (r: Option<String>)
    ensures
        opt_text(r) == command_name_of(token@),
{
    let normalized = normalize_text(token);
    let contract = carrier_command_contract();
    let ghost cmds = records_view(contract.commands@);
    assert(cmds.skip(0) =~= cmds);
    let mut i: usize = 0;
    while i < contract.commands.len()
        invariant
            i <= contract.commands.len(),
            cmds == records_view(contract.commands@),
            cmds == bundled_commands(),
            normalized@ == normalize_token(token@),
            first_matching(cmds, normalized@) == first_matching(cmds.skip(i as int), normalized@),
        decreases contract.commands.len() - i,
    {
        assert(cmds.skip(i as int).drop_first() =~= cmds.skip(i + 1));
        assert(cmds.skip(i as int)[0] == contract.commands@[i as int]@);
        if record_matches(&contract.commands[i], normalized.as_str()) {
            return Some(contract.commands[i].name.clone());
        }
        i = i + 1;
    }
    None
}

/// Every primary token and alias of the bundled contract, in order.
pub fn command_tokens() -> (r: Vec<String>)
    ensures
        strs(r@) == tokens_of(bundled_commands()),
{
    let contract = carrier_command_contract();
    let ghost cmds = records_view(contract.commands@);
    let mut out: Vec<String> = Vec::new();
    let mut i: usize = 0;
    while i < contract.commands.len()
        invariant
            i <= contract.commands.len(),
            cmds == records_view(contract.commands@),
            strs(out@) == tokens_of(cmds.take(i as int)),
        decreases contract.commands.len() - i,
    {
        assert(cmds.take(i + 1).drop_last() =~= cmds.take(i as int));
        assert(cmds.take(i + 1).last() == contract.commands@[i as int]@);
        let record = &contract.commands[i];
        let ghost before = out@;
        out.push(record.primary.clone());
        let mut k: usize = 0;
        while k < record.aliases.len()
            invariant
                k <= record.aliases.len(),
                strs(out@) == strs(before) + seq![record.primary@] + strs(record.aliases@).take(k as int),
            decreases record.aliases.len() - k,
        {
            let ghost mid = out@;
            out.push(record.aliases[k].clone());
            assert(strs(out@) =~= strs(mid).push(record.aliases@[k as int]@));
            assert(strs(record.aliases@).take(k + 1) =~= strs(record.aliases@).take(k as int).push(record.aliases@[k as int]@));
            k = k + 1;
        }
        assert(strs(record.aliases@).take(record.aliases.len() as int) =~= strs(record.aliases@));
        i = i + 1;
    }
    assert(cmds.take(contract.commands.len() as int) =~= cmds);
    out
}

/// The normalised form of a command token.
pub fn normalize_command_token(token: &str) -> (r: String)
    ensures
        r@ == normalize_token(token@),
{
    normalize_text(token)
}

/// A normalised command token is canonical: normalising it again changes
/// nothing, it neither starts nor ends with a space, it never holds two
/// spaces in a row, and it holds no ASCII upper-case letter.
pub proof fn lemma_command_token_normal_form(token: Seq<char>)
    ensures
        normalize_token(normalize_token(token)) == normalize_token(token),
        normalize_token(token).len() > 0 ==> normalize_token(token)[0] != ' ' && normalize_token(token).last()
            != ' ',
        forall|i: int|
            0 <= i < normalize_token(token).len() - 1 && #[trigger] normalize_token(token)[i] == ' '
                ==> normalize_token(token)[i + 1] != ' ',
        forall|i: int|
            0 <= i < normalize_token(token).len() ==> !('A' <= #[trigger] normalize_token(token)[i]
                && normalize_token(token)[i] <= 'Z'),
{
    lemma_normalize_token_idempotent(token);
    lemma_normalize_token_single_spaces(token);
}

/// Checks a contract read from JSON: the schema and the required command
/// names, reporting the first failed check.
pub fn validate_carrier_command_contract(contract: &CarrierCommandContract) -> (r: Result<(), String>)
    ensures
        match r {
            Ok(()) => command_contract_problem(contract.schema@, records_view(contract.commands@)) is None,
            Err(e) => command_contract_problem(contract.schema@, records_view(contract.commands@)) == Some(e@),
        },
{
    if !str_eq(contract.schema.as_str(), "narada.carrier.command_contract.v1") {
        return Err(owned("carrier_command_contract_invalid:schema"));
    }
    let required = string_list(&[
        "help", "status", "goal", "stats", "model", "thinking", "tool_output", "tools",
        "observers", "observer_mute", "observer_unmute", "queue_show", "queue_clear",
        "queue_drop", "clear", "exit",
    ]);
    let ghost names = strs(required@);
    assert(names =~= required_command_names());
    let ghost cmds = records_view(contract.commands@);
    assert(names.skip(0) =~= names);
    let mut i: usize = 0;
    while i < required.len()
        invariant
            i <= required.len(),
            names == strs(required@),
            names == required_command_names(),
            contract.schema@ == command_contract_schema(),
            cmds == records_view(contract.commands@),
            first_missing_name(cmds, names) == first_missing_name(cmds, names.skip(i as int)),
        decreases required.len() - i,
    {
        assert(names.skip(i as int).drop_first() =~= names.skip(i + 1));
        assert(names.skip(i as int)[0] == required@[i as int]@);
        if command_named_in(&contract.commands, required[i].as_str()).is_none() {
            let e = crate::text::concat("carrier_command_contract_invalid:missing:", required[i].as_str());
            assert(first_missing_name(cmds, names.skip(i as int)) == Some(e@));
            return Err(e);
        }
        i = i + 1;
    }
    Ok(())
}

} // verus!
