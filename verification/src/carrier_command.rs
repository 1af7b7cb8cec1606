//! Parsing of what the operator submits from the composer: a carrier
//! command, text for the agent, or nothing.
use vstd::prelude::*;
use crate::carrier_command_contract::{
    bundled_commands, command_name_for_token, command_name_of, command_named, first_named,
    opt_text, CommandEntry,
};
use crate::text::{
    good_words, concat, is_blank, is_blank_str, is_ws, join, join_strings, normalize_text, normalize_token,
    owned, parse_unsigned, parse_unsigned_decimal, split_words, starts_with, str_eq,
    strip_prefix, strs, trim, trim_str, words,
};

verus! {

/// A carrier command the composer recognises.
#[derive(Debug, Clone, PartialEq, Eq)]
pub enum CarrierCommand {
    Help,
    Status,
    Goal { value: Option<String> },
    Stats { value: Option<String> },
    Model { value: Option<String> },
    Thinking { value: Option<String> },
    ToolOutput { value: Option<String> },
    Tools { value: Option<String> },
    Observers,
    ObserverMute,
    ObserverUnmute,
    Clear,
    Exit,
    QueueShow,
    QueueClear,
    QueueDrop { index: usize },
    Unknown { command: String },
}

/// What a composer submission means.
#[derive(Debug, Clone, PartialEq, Eq)]
pub enum OperatorSubmit {
    CarrierCommand(CarrierCommand),
    AgentInput(String),
    Empty,
}

/// The mathematical form of a carrier command.
pub enum CommandView {
    Help,
    Status,
    Goal(Option<Seq<char>>),
    Stats(Option<Seq<char>>),
    Model(Option<Seq<char>>),
    Thinking(Option<Seq<char>>),
    ToolOutput(Option<Seq<char>>),
    Tools(Option<Seq<char>>),
    Observers,
    ObserverMute,
    ObserverUnmute,
    Clear,
    Exit,
    QueueShow,
    QueueClear,
    QueueDrop(nat),
    Unknown(Seq<char>),
}

/// The mathematical form of a submission.
pub enum SubmitView {
    Command(CommandView),
    AgentInput(Seq<char>),
    Empty,
}

impl View for CarrierCommand {
    type V = CommandView;

    open spec fn view(&self) -> CommandView {
        match self {
            CarrierCommand::Help => CommandView::Help,
            CarrierCommand::Status => CommandView::Status,
            CarrierCommand::Goal { value } => CommandView::Goal(opt_text(*value)),
            CarrierCommand::Stats { value } => CommandView::Stats(opt_text(*value)),
            CarrierCommand::Model { value } => CommandView::Model(opt_text(*value)),
            CarrierCommand::Thinking { value } => CommandView::Thinking(opt_text(*value)),
            CarrierCommand::ToolOutput { value } => CommandView::ToolOutput(opt_text(*value)),
            CarrierCommand::Tools { value } => CommandView::Tools(opt_text(*value)),
            CarrierCommand::Observers => CommandView::Observers,
            CarrierCommand::ObserverMute => CommandView::ObserverMute,
            CarrierCommand::ObserverUnmute => CommandView::ObserverUnmute,
            CarrierCommand::Clear => CommandView::Clear,
            CarrierCommand::Exit => CommandView::Exit,
            CarrierCommand::QueueShow => CommandView::QueueShow,
            CarrierCommand::QueueClear => CommandView::QueueClear,
            CarrierCommand::QueueDrop { index } => CommandView::QueueDrop(*index as nat),
            CarrierCommand::Unknown { command } => CommandView::Unknown(command@),
        }
    }
}

impl View for OperatorSubmit {
    type V = SubmitView;

    open spec fn view(&self) -> SubmitView {
        match self {
            OperatorSubmit::CarrierCommand(c) => SubmitView::Command(c@),
            OperatorSubmit::AgentInput(t) => SubmitView::AgentInput(t@),
            OperatorSubmit::Empty => SubmitView::Empty,
        }
    }
}

/// `text.trim_start_matches(pattern)`: drops every leading repetition of a
/// non-empty pattern.
pub open spec fn strip_repeated(s: Seq<char>, p: Seq<char>) -> Seq<char>
    decreases s.len(),
{
    if p.len() > 0 && p.is_prefix_of(s) {
        strip_repeated(s.skip(p.len() as int), p)
    } else {
        s
    }
}

/// The words before the first one that opens an argument placeholder (`<`).
pub open spec fn until_placeholder(ws: Seq<Seq<char>>) -> Seq<Seq<char>>
    decreases ws.len(),
{
    if ws.len() == 0 || (ws[0].len() > 0 && ws[0][0] == '<') {
        seq![]
    } else {
        seq![ws[0]] + until_placeholder(ws.drop_first())
    }
}

/// All but the first word.
pub open spec fn rest_words(ws: Seq<Seq<char>>) -> Seq<Seq<char>> {
    if ws.len() > 0 {
        ws.drop_first()
    } else {
        seq![]
    }
}

/// The first word of the named command's primary token.
pub open spec fn queue_prefix_of(name: Seq<char>) -> Seq<char> {
    words(first_named(bundled_commands(), name)->Some_0.primary)[0]
}

/// The words of the named command's primary token after the first one and
/// before any placeholder, joined by spaces; the name without its leading
/// `queue_` when that is empty or the command is absent.
pub open spec fn queue_suffix_of(name: Seq<char>) -> Seq<char> {
    let fallback = strip_repeated(name, "queue_"@);
    match first_named(bundled_commands(), name) {
        Some(e) => {
            let j = join(until_placeholder(rest_words(words(e.primary))), seq![' ']);
            if j.len() > 0 {
                j
            } else {
                fallback
            }
        },
        None => fallback,
    }
}

/// A command value: `None` when blank, else the trimmed text.
pub open spec fn value_of(v: Seq<char>) -> Option<Seq<char>> {
    if is_blank(v) {
        None
    } else {
        Some(trim(v))
    }
}

/// What the queue command family makes of its argument text.
pub open spec fn queue_command_view(value: Seq<char>) -> CommandView {
    let t = trim(value);
    let drop_prefix = queue_suffix_of("queue_drop"@) + seq![' '];
    if t.len() == 0 {
        CommandView::QueueShow
    } else if t == queue_suffix_of("queue_clear"@) {
        CommandView::QueueClear
    } else if drop_prefix.is_prefix_of(t)
        && parse_unsigned(trim(t.skip(drop_prefix.len() as int)), usize::MAX as nat) is Some {
        CommandView::QueueDrop(parse_unsigned(trim(t.skip(drop_prefix.len() as int)), usize::MAX as nat)->Some_0)
    } else {
        CommandView::Unknown(queue_prefix_of("queue_show"@) + seq![' '] + t)
    }
}

/// The command a resolved command name stands for.
pub open spec fn command_for_name(
    name: Seq<char>,
    value: Seq<char>,
    command: Seq<char>,
    normalized_full: Seq<char>,
) -> CommandView {
    if name == "help"@ {
        CommandView::Help
    } else if name == "status"@ {
        CommandView::Status
    } else if name == "goal"@ {
        CommandView::Goal(value_of(value))
    } else if name == "stats"@ {
        CommandView::Stats(value_of(value))
    } else if name == "model"@ {
        CommandView::Model(value_of(value))
    } else if name == "thinking"@ {
        CommandView::Thinking(value_of(value))
    } else if name == "tool_output"@ {
        CommandView::ToolOutput(value_of(value))
    } else if name == "tools"@ {
        CommandView::Tools(value_of(value))
    } else if name == "observers"@ {
        CommandView::Observers
    } else if name == "observer_mute"@ {
        CommandView::ObserverMute
    } else if name == "observer_unmute"@ {
        CommandView::ObserverUnmute
    } else if name == "clear"@ {
        CommandView::Clear
    } else if name == "exit"@ {
        CommandView::Exit
    } else if name == "queue_show"@ {
        queue_command_view(value)
    } else if name == "queue_clear"@ {
        CommandView::QueueClear
    } else if name == "queue_drop"@ {
        let p = queue_prefix_of("queue_show"@);
        if p.is_prefix_of(normalized_full) {
            queue_command_view(normalized_full.skip(p.len() as int))
        } else {
            queue_command_view(value)
        }
    } else {
        CommandView::Unknown(command)
    }
}

/// What a composer submission means.
pub open spec fn submit_view(text: Seq<char>) -> SubmitView {
    let trimmed = trim(text);
    let normalized_full = normalize_token(trimmed);
    let ws = words(trimmed);
    let raw = if ws.len() > 0 { ws[0] } else { Seq::empty() };
    let command = normalize_token(raw);
    let value = join(rest_words(ws), seq![' ']);
    if is_blank(text) {
        SubmitView::Empty
    } else if "//"@.is_prefix_of(text) {
        SubmitView::AgentInput(seq!['/'] + text.skip(2))
    } else if !seq!['/'].is_prefix_of(trimmed) && command_name_of(normalized_full) is None {
        SubmitView::AgentInput(text)
    } else {
        let name = match command_name_of(normalized_full) {
            Some(n) => n,
            None => match command_name_of(command) {
                Some(n) => n,
                None => "unknown"@,
            },
        };
        SubmitView::Command(command_for_name(name, value, command, normalized_full))
    }
}

/// The value a command is given: the words typed after the command word,
/// joined by single spaces and otherwise exactly as typed; none when no
/// word follows.
pub open spec fn typed_value(text: Seq<char>) -> Option<Seq<char>> {
    let after = rest_words(words(trim(text)));
    if after.len() == 0 {
        None
    } else {
        Some(join(after, seq![' ']))
    }
}

/// Whatever command a submission resolves to, a command that takes a value
/// (`goal`, `stats`, `model`, `thinking`, `tool_output`, `tools`) gets the
/// words after the command word as typed: same characters, same case, only
/// the whitespace between them collapsed to single spaces.
pub proof fn lemma_command_value_is_typed_text(text: Seq<char>)
    ensures
        submit_view(text) matches SubmitView::Command(c) ==> match c {
            CommandView::Goal(v) => v == typed_value(text),
            CommandView::Stats(v) => v == typed_value(text),
            CommandView::Model(v) => v == typed_value(text),
            CommandView::Thinking(v) => v == typed_value(text),
            CommandView::ToolOutput(v) => v == typed_value(text),
            CommandView::Tools(v) => v == typed_value(text),
            _ => true,
        },
{
    let ws = words(trim(text));
    let after = rest_words(ws);
    crate::text::lemma_words_good(trim(text));
    assert(good_words(after)) by {
        if ws.len() > 0 {
            assert forall|i: int| 0 <= i < after.len() implies after[i].len() > 0 && forall|k: int|
                0 <= k < after[i].len() ==> !is_ws(#[trigger] after[i][k]) by {
                assert(after[i] == ws[i + 1]);
            }
        }
    }
    crate::text::lemma_joined_words_trimmed(after);
    assert(value_of(join(after, seq![' '])) == typed_value(text));
}

proof fn lemma_first_named_at(cmds: Seq<CommandEntry>, name: Seq<char>, i: int)
    requires
        0 <= i < cmds.len(),
        cmds[i].name == name,
        forall|j: int| 0 <= j < i ==> #[trigger] cmds[j].name != name,
    ensures
        first_named(cmds, name) == Some(cmds[i]),
    decreases i,
{
    if i > 0 {
        assert forall|j: int| 0 <= j < i - 1 implies #[trigger] cmds.drop_first()[j].name != name by {
            assert(cmds.drop_first()[j] == cmds[j + 1]);
        }
        lemma_first_named_at(cmds.drop_first(), name, i - 1);
    }
}

proof fn lemma_words_nonempty(s: Seq<char>)
    requires
        s.len() > 0,
        !is_ws(s[0]),
    ensures
        words(s).len() > 0,
{
    crate::text::lemma_word_len_bounds(s);
}

/// The queue-show command is in the bundled contract and its primary token
/// has a first word.
proof fn lemma_queue_show_present()
    ensures
        first_named(bundled_commands(), "queue_show"@) is Some,
        words(first_named(bundled_commands(), "queue_show"@)->Some_0.primary).len() > 0,
{
    reveal_strlit("help");
    reveal_strlit("status");
    reveal_strlit("goal");
    reveal_strlit("stats");
    reveal_strlit("model");
    reveal_strlit("thinking");
    reveal_strlit("tool_output");
    reveal_strlit("tools");
    reveal_strlit("observers");
    reveal_strlit("observer_mute");
    reveal_strlit("observer_unmute");
    reveal_strlit("queue_show");
    reveal_strlit("/queue");
    let b = bundled_commands();
    assert forall|j: int| 0 <= j < 11 implies #[trigger] b[j].name != "queue_show"@ by {
        if b[j].name == "queue_show"@ {
            assert(b[j].name.len() == "queue_show"@.len());
        }
    }
    lemma_first_named_at(b, "queue_show"@, 11);
    lemma_words_nonempty(b[11].primary);
}

fn queue_command_prefix(name: &str) -> (r: String)
    requires
        first_named(bundled_commands(), name@) is Some,
        words(first_named(bundled_commands(), name@)->Some_0.primary).len() > 0,
    ensures
        r@ == queue_prefix_of(name@),
{
    match command_named(name) {
        Some(record) => {
            let ws = split_words(record.primary.as_str());
            assert(strs(ws@)[0] == ws@[0]@);
            ws[0].clone()
        },
        None => {
            proof {
                assert(false);
            }
            String::new()
        },
    }
}

fn strip_repeated_exec(s: &str, p: &str) -> (r: String)
    ensures
        r@ == strip_repeated(s@, p@),
{
    let pc = crate::text::chars_of(p);
    let mut rest = owned(s);
    if pc.len() == 0 {
        return rest;
    }
    while starts_with(rest.as_str(), p)
        invariant
            p@.len() > 0,
            strip_repeated(s@, p@) == strip_repeated(rest@, p@),
        decreases rest@.len(),
    {
        match strip_prefix(rest.as_str(), p) {
            Some(next) => {
                rest = next;
            },
            None => {
                proof {
                    assert(false);
                }
            },
        }
    }
    rest
}

fn until_placeholder_exec(ws: &Vec<String>, start: usize) -> (r: Vec<String>)
    requires
        start <= ws.len(),
    ensures
        strs(r@) == until_placeholder(strs(ws@).skip(start as int)),
{
    let mut out: Vec<String> = Vec::new();
    let mut i = start;
    let ghost all = strs(ws@);
    while i < ws.len()
        invariant
            start <= i <= ws.len(),
            all == strs(ws@),
            until_placeholder(all.skip(start as int)) == strs(out@) + until_placeholder(all.skip(i as int)),
        decreases ws.len() - i,
    {
        assert(all.skip(i as int).drop_first() =~= all.skip(i + 1));
        assert(all.skip(i as int)[0] == ws@[i as int]@);
        if starts_with(ws[i].as_str(), "<") {
            proof {
                reveal_strlit("<");
                assert(ws@[i as int]@.len() > 0);
                assert(ws@[i as int]@[0] == "<"@[0]);
            }
            assert(until_placeholder(all.skip(i as int)) == Seq::<Seq<char>>::empty());
            assert(strs(out@) + Seq::<Seq<char>>::empty() =~= strs(out@));
            return out;
        }
        proof {
            reveal_strlit("<");
            if ws@[i as int]@.len() > 0 && ws@[i as int]@[0] == '<' {
                assert("<"@.is_prefix_of(ws@[i as int]@));
            }
        }
        let ghost before = out@;
        out.push(ws[i].clone());
        assert(strs(out@) =~= strs(before).push(ws@[i as int]@));
        assert(strs(before) + until_placeholder(all.skip(i as int)) =~= strs(out@) + until_placeholder(all.skip(i + 1)));
        i = i + 1;
    }
    assert(until_placeholder(all.skip(i as int)) == Seq::<Seq<char>>::empty());
    assert(strs(out@) + Seq::<Seq<char>>::empty() =~= strs(out@));
    out
}

fn queue_command_suffix(name: &str) -> (r: String)
    ensures
        r@ == queue_suffix_of(name@),
{
    match command_named(name) {
        Some(record) => {
            let ws = split_words(record.primary.as_str());
            let start: usize = if ws.len() > 0 { 1 } else { 0 };
            let kept = until_placeholder_exec(&ws, start);
            assert(strs(ws@).skip(start as int) =~= rest_words(words(record.primary@)));
            let joined = join_strings(&kept, " ");
            proof {
                reveal_strlit(" ");
            }
            assert(seq![' '] =~= " "@);
            if crate::text::chars_of(joined.as_str()).len() > 0 {
                joined
            } else {
                strip_repeated_exec(name, "queue_")
            }
        },
        None => strip_repeated_exec(name, "queue_"),
    }
}

/// `None` when the value is blank, else the trimmed value.
fn nonempty_value(value: String) -> (r: Option<String>)
    ensures
        opt_text(r) == value_of(value@),
{
    if is_blank_str(value.as_str()) {
        None
    } else {
        Some(owned(trim_str(value.as_str())))
    }
}

fn parse_queue_command(value: &str) -> (r: OperatorSubmit)
    ensures
        r@ == SubmitView::Command(queue_command_view(value@)),
{
    let trimmed = trim_str(value);
    let tc = crate::text::chars_of(trimmed);
    if tc.len() == 0 {
        return OperatorSubmit::CarrierCommand(CarrierCommand::QueueShow);
    }
    let clear = queue_command_suffix("queue_clear");
    if str_eq(trimmed, clear.as_str()) {
        return OperatorSubmit::CarrierCommand(CarrierCommand::QueueClear);
    }
    let drop = queue_command_suffix("queue_drop");
    let drop_prefix = concat(drop.as_str(), " ");
    proof {
        reveal_strlit(" ");
    }
    assert(drop_prefix@ =~= queue_suffix_of("queue_drop"@) + seq![' ']);
    if let Some(index) = strip_prefix(trimmed, drop_prefix.as_str()) {
        if let Some(n) = parse_unsigned_decimal(trim_str(index.as_str()), usize::MAX as u64) {
            return OperatorSubmit::CarrierCommand(CarrierCommand::QueueDrop { index: n as usize });
        }
    }
    proof {
        lemma_queue_show_present();
    }
    let prefix = queue_command_prefix("queue_show");
    let with_space = concat(prefix.as_str(), " ");
    let command = concat(with_space.as_str(), trimmed);
    assert(command@ =~= queue_prefix_of("queue_show"@) + seq![' '] + trim(value@));
    OperatorSubmit::CarrierCommand(CarrierCommand::Unknown { command })
}

/// Parses a composer submission: blank text is nothing, `//text` is literal
/// agent input `/text`, text naming a command (or any text starting with
/// `/`) is a carrier command, and everything else is agent input.
pub fn parse_operator_submit(text: &str) -> (r: OperatorSubmit)
    ensures
        r@ == submit_view(text@),
{
    if is_blank_str(text) {
        return OperatorSubmit::Empty;
    }
    proof {
        reveal_strlit("//");
        reveal_strlit("/");
    }
    if let Some(literal) = strip_prefix(text, "//") {
        let agent = concat("/", literal.as_str());
        assert(agent@ =~= seq!['/'] + text@.skip(2));
        return OperatorSubmit::AgentInput(agent);
    }
    let trimmed = trim_str(text);
    let normalized_full = normalize_text(trimmed);
    let full_name = command_name_for_token(normalized_full.as_str());
    assert("/"@ =~= seq!['/']);
    if !starts_with(trimmed, "/") && full_name.is_none() {
        return OperatorSubmit::AgentInput(owned(text));
    }
    let parts = split_words(trimmed);
    let raw: String = if parts.len() > 0 { parts[0].clone() } else { String::new() };
    assert(parts.len() > 0 ==> strs(parts@)[0] == parts@[0]@);
    let command = normalize_text(raw.as_str());
    let start: usize = if parts.len() > 0 { 1 } else { 0 };
    let mut rest: Vec<String> = Vec::new();
    let mut i = start;
    while i < parts.len()
        invariant
            start <= i <= parts.len(),
            start == (if parts.len() > 0 { 1usize } else { 0usize }),
            strs(rest@) == strs(parts@).subrange(start as int, i as int),
        decreases parts.len() - i,
    {
        let ghost before = rest@;
        rest.push(parts[i].clone());
        assert(strs(rest@) =~= strs(before).push(parts@[i as int]@));
        assert(strs(parts@).subrange(start as int, i + 1) =~= strs(parts@).subrange(start as int, i as int).push(parts@[i as int]@));
        i = i + 1;
    }
    assert(strs(parts@).subrange(start as int, parts.len() as int) =~= rest_words(words(trim(text@))));
    let value = join_strings(&rest, " ");
    proof {
        reveal_strlit(" ");
    }
    assert(seq![' '] =~= " "@);
    let name: String = match full_name {
        Some(n) => n,
        None => match command_name_for_token(command.as_str()) {
            Some(n) => n,
            None => owned("unknown"),
        },
    };
    let n = name.as_str();
    let result = if str_eq(n, "help") {
        CarrierCommand::Help
    } else if str_eq(n, "status") {
        CarrierCommand::Status
    } else if str_eq(n, "goal") {
        CarrierCommand::Goal { value: nonempty_value(value) }
    } else if str_eq(n, "stats") {
        CarrierCommand::Stats { value: nonempty_value(value) }
    } else if str_eq(n, "model") {
        CarrierCommand::Model { value: nonempty_value(value) }
    } else if str_eq(n, "thinking") {
        CarrierCommand::Thinking { value: nonempty_value(value) }
    } else if str_eq(n, "tool_output") {
        CarrierCommand::ToolOutput { value: nonempty_value(value) }
    } else if str_eq(n, "tools") {
        CarrierCommand::Tools { value: nonempty_value(value) }
    } else if str_eq(n, "observers") {
        CarrierCommand::Observers
    } else if str_eq(n, "observer_mute") {
        CarrierCommand::ObserverMute
    } else if str_eq(n, "observer_unmute") {
        CarrierCommand::ObserverUnmute
    } else if str_eq(n, "clear") {
        CarrierCommand::Clear
    } else if str_eq(n, "exit") {
        CarrierCommand::Exit
    } else if str_eq(n, "queue_show") {
        return parse_queue_command(value.as_str());
    } else if str_eq(n, "queue_clear") {
        CarrierCommand::QueueClear
    } else if str_eq(n, "queue_drop") {
        proof {
            lemma_queue_show_present();
        }
        let prefix = queue_command_prefix("queue_show");
        return match strip_prefix(normalized_full.as_str(), prefix.as_str()) {
            Some(after) => parse_queue_command(after.as_str()),
            None => parse_queue_command(value.as_str()),
        };
    } else {
        CarrierCommand::Unknown { command }
    };
    OperatorSubmit::CarrierCommand(result)
}

} // verus!
