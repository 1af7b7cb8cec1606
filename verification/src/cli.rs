//! Command-line arguments of the projection client: parsing, the launch
//! checks, and the executable names the toolchain check looks for.
use vstd::prelude::*;
use crate::json::opt_str_view;
use crate::text::{concat, is_blank, is_blank_str, owned, parse_unsigned, parse_unsigned_decimal, starts_with, str_eq};

verus! {

/// The parsed command line.
#[derive(Debug, PartialEq, Eq)]
pub struct Args {
    pub attach: Option<String>,
    pub launch_binding: Option<String>,
    pub identity: Option<String>,
    pub session: Option<String>,
    pub max_steps: Option<u64>,
    pub check_rust_toolchain: bool,
    pub help: bool,
    pub version: bool,
}

impl Default for Args {
    fn default() -> (r: Self)
        ensures
            r.attach is None && r.launch_binding is None && r.identity is None && r.session is None
                && r.max_steps is None && !r.check_rust_toolchain && !r.help && !r.version,
    {
        Args {
            attach: None,
            launch_binding: None,
            identity: None,
            session: None,
            max_steps: None,
            check_rust_toolchain: false,
            help: false,
            version: false,
        }
    }
}

/// The mathematical form of parsed arguments.
pub struct ArgsView {
    pub attach: Option<Seq<char>>,
    pub launch_binding: Option<Seq<char>>,
    pub identity: Option<Seq<char>>,
    pub session: Option<Seq<char>>,
    pub max_steps: Option<u64>,
    pub check_rust_toolchain: bool,
    pub help: bool,
    pub version: bool,
}

impl View for Args {
    type V = ArgsView;

    open spec fn view(&self) -> ArgsView {
        ArgsView {
            attach: opt_str_view(self.attach),
            launch_binding: opt_str_view(self.launch_binding),
            identity: opt_str_view(self.identity),
            session: opt_str_view(self.session),
            max_steps: self.max_steps,
            check_rust_toolchain: self.check_rust_toolchain,
            help: self.help,
            version: self.version,
        }
    }
}

pub open spec fn empty_args() -> ArgsView {
    ArgsView {
        attach: None,
        launch_binding: None,
        identity: None,
        session: None,
        max_steps: None,
        check_rust_toolchain: false,
        help: false,
        version: false,
    }
}

/// The flags of runtime modes that no longer exist.
pub open spec fn removed_flags() -> Seq<Seq<char>> {
    seq![
        "--runtime-step-once"@,
        "--runtime-loop"@,
        "--interactive-step-once"@,
        "--interactive-smoke-loop"@,
        "--persistent-smoke-session"@,
        "--interactive-loop"@,
        "--render-once"@,
        "--site-root"@,
        "--control-jsonl"@,
        "--session-jsonl"@,
        "--composer-has-draft"@,
    ]
}

/// The value a flag takes: the next argument unless it starts with `-`.
pub open spec fn flag_value(rest: Seq<Seq<char>>, flag: Seq<char>) -> Result<Seq<char>, Seq<char>> {
    if rest.len() > 0 && !seq!['-'].is_prefix_of(rest[0]) {
        Ok(rest[0])
    } else {
        Err("missing value for "@ + flag)
    }
}

/// Parsing the remaining arguments into what was parsed so far.
pub open spec fn parse_from(acc: ArgsView, rest: Seq<Seq<char>>) -> Result<ArgsView, Seq<char>>
    decreases rest.len(),
{
    if rest.len() == 0 {
        Ok(acc)
    } else {
        let arg = rest[0];
        let tail = rest.drop_first();
        if arg == "--attach"@ || arg == "--launch-binding"@ || arg == "--identity"@ || arg == "--session"@ {
            match flag_value(tail, arg) {
                Err(e) => Err(e),
                Ok(v) => parse_from(
                    if arg == "--attach"@ {
                        ArgsView { attach: Some(v), ..acc }
                    } else if arg == "--launch-binding"@ {
                        ArgsView { launch_binding: Some(v), ..acc }
                    } else if arg == "--identity"@ {
                        ArgsView { identity: Some(v), ..acc }
                    } else {
                        ArgsView { session: Some(v), ..acc }
                    },
                    tail.drop_first(),
                ),
            }
        } else if removed_flags().contains(arg) {
            Err(arg + " has been removed; attach to NARS with --attach <event_endpoint>"@)
        } else if arg == "--max-steps"@ {
            match flag_value(tail, arg) {
                Err(e) => Err(e),
                Ok(v) => match parse_unsigned(v, u64::MAX as nat) {
                    Some(n) => parse_from(ArgsView { max_steps: Some(n as u64), ..acc }, tail.drop_first()),
                    None => Err("invalid --max-steps"@),
                },
            }
        } else if arg == "--check-rust-toolchain"@ {
            parse_from(ArgsView { check_rust_toolchain: true, ..acc }, tail)
        } else if arg == "--help"@ || arg == "-h"@ {
            parse_from(ArgsView { help: true, ..acc }, tail)
        } else if arg == "--version"@ || arg == "-V"@ {
            parse_from(ArgsView { version: true, ..acc }, tail)
        } else {
            Err("unknown argument "@ + arg)
        }
    }
}

/// `-h` is the same flag as `--help` and `-V` the same as `--version`:
/// wherever one stands, the other gives the same outcome, and either one
/// only sets its flag and parsing goes on with the rest.
pub proof fn lemma_short_flags_are_aliases(acc: ArgsView, rest: Seq<Seq<char>>)
    ensures
        parse_from(acc, seq!["-h"@] + rest) == parse_from(acc, seq!["--help"@] + rest),
        parse_from(acc, seq!["-V"@] + rest) == parse_from(acc, seq!["--version"@] + rest),
        parse_from(acc, seq!["-h"@] + rest) == parse_from(ArgsView { help: true, ..acc }, rest),
        parse_from(acc, seq!["-V"@] + rest) == parse_from(ArgsView { version: true, ..acc }, rest),
{
    reveal_strlit("-h");
    reveal_strlit("-V");
    reveal_strlit("--help");
    reveal_strlit("--version");
    reveal_strlit("--attach");
    reveal_strlit("--launch-binding");
    reveal_strlit("--identity");
    reveal_strlit("--session");
    reveal_strlit("--max-steps");
    reveal_strlit("--check-rust-toolchain");
    reveal_strlit("--runtime-step-once");
    reveal_strlit("--runtime-loop");
    reveal_strlit("--interactive-step-once");
    reveal_strlit("--interactive-smoke-loop");
    reveal_strlit("--persistent-smoke-session");
    reveal_strlit("--interactive-loop");
    reveal_strlit("--render-once");
    reveal_strlit("--site-root");
    reveal_strlit("--control-jsonl");
    reveal_strlit("--session-jsonl");
    reveal_strlit("--composer-has-draft");
    assert forall|f: Seq<char>| #[trigger] removed_flags().contains(f) implies f.len() > 9 by {
        let i = choose|i: int| 0 <= i < removed_flags().len() && removed_flags()[i] == f;
        assert(0 <= i < 11);
    }
    assert forall|f: Seq<char>| #![auto] (seq![f] + rest)[0] == f && (seq![f] + rest).drop_first() == rest by {
        assert((seq![f] + rest).drop_first() =~= rest);
    }
    assert("-V"@ != "-h"@) by {
        assert("-V"@[1] != "-h"@[1]);
    }
    assert("--version"@ != "--session"@) by {
        assert("--version"@[2] != "--session"@[2]);
    }
    assert("--version"@ != "--help"@) by {
        assert("--version"@.len() != "--help"@.len());
    }
}

pub open spec fn args_result_view(r: Result<Args, String>) -> Result<ArgsView, Seq<char>> {
    match r {
        Ok(a) => Ok(a@),
        Err(e) => Err(e@),
    }
}

fn require_value(args: &Vec<String>, next: usize, flag: &str) -> (r: Result<String, String>)
    requires
        next <= args.len(),
    ensures
        match r {
            Ok(v) => flag_value(crate::text::strs(args@).skip(next as int), flag@) == Ok::<Seq<char>, Seq<char>>(v@),
            Err(e) => flag_value(crate::text::strs(args@).skip(next as int), flag@) == Err::<Seq<char>, Seq<char>>(e@),
        },
{
    proof {
        reveal_strlit("-");
    }
    assert("-"@ =~= seq!['-']);
    if next < args.len() && !starts_with(args[next].as_str(), "-") {
        assert(crate::text::strs(args@).skip(next as int)[0] == args@[next as int]@);
        Ok(args[next].clone())
    } else {
        if next < args.len() {
            assert(crate::text::strs(args@).skip(next as int)[0] == args@[next as int]@);
        }
        Err(concat("missing value for ", flag))
    }
}

/// Parses the command line (without the program name).
pub fn parse_args(args: Vec<String>) -> (r: Result<Args, String>)
    ensures
        args_result_view(r) == parse_from(empty_args(), crate::text::strs(args@)),
{
    let ghost all = crate::text::strs(args@);
    let mut parsed = Args::default();
    let removed = crate::text::string_list(
        &[
            "--runtime-step-once",
            "--runtime-loop",
            "--interactive-step-once",
            "--interactive-smoke-loop",
            "--persistent-smoke-session",
            "--interactive-loop",
            "--render-once",
            "--site-root",
            "--control-jsonl",
            "--session-jsonl",
            "--composer-has-draft",
        ],
    );
    assert(crate::text::strs(removed@) =~= removed_flags());
    let mut i: usize = 0;
    assert(all.skip(0) =~= all);
    assert(parsed@ == empty_args());
    while i < args.len()
        invariant
            i <= args.len(),
            all == crate::text::strs(args@),
            crate::text::strs(removed@) == removed_flags(),
            parse_from(empty_args(), all) == parse_from(parsed@, all.skip(i as int)),
        decreases args.len() - i,
    {
        let ghost rest = all.skip(i as int);
        assert(rest[0] == args@[i as int]@);
        assert(rest.drop_first() =~= all.skip(i + 1));
        let arg = args[i].as_str();
        if str_eq(arg, "--attach") || str_eq(arg, "--launch-binding") || str_eq(arg, "--identity") || str_eq(
            arg,
            "--session",
        ) {
            let value = match require_value(&args, i + 1, arg) {
                Ok(v) => v,
                Err(e) => {
                    return Err(e);
                },
            };
            assert(all.skip(i + 1).drop_first() =~= all.skip(i + 2));
            if str_eq(arg, "--attach") {
                parsed.attach = Some(value);
            } else if str_eq(arg, "--launch-binding") {
                parsed.launch_binding = Some(value);
            } else if str_eq(arg, "--identity") {
                parsed.identity = Some(value);
            } else {
                parsed.session = Some(value);
            }
            i = i + 2;
        } else if crate::text::list_contains(&removed, arg) {
            return Err(concat(arg, " has been removed; attach to NARS with --attach <event_endpoint>"));
        } else if str_eq(arg, "--max-steps") {
            let value = match require_value(&args, i + 1, "--max-steps") {
                Ok(v) => v,
                Err(e) => {
                    return Err(e);
                },
            };
            assert(all.skip(i + 1).drop_first() =~= all.skip(i + 2));
            match parse_unsigned_decimal(value.as_str(), u64::MAX) {
                Some(n) => {
                    parsed.max_steps = Some(n);
                },
                None => {
                    return Err(owned("invalid --max-steps"));
                },
            }
            i = i + 2;
        } else if str_eq(arg, "--check-rust-toolchain") {
            parsed.check_rust_toolchain = true;
            i = i + 1;
        } else if str_eq(arg, "--help") || str_eq(arg, "-h") {
            parsed.help = true;
            i = i + 1;
        } else if str_eq(arg, "--version") || str_eq(arg, "-V") {
            parsed.version = true;
            i = i + 1;
        } else {
            return Err(concat("unknown argument ", arg));
        }
    }
    assert(all.skip(i as int) =~= Seq::<Seq<char>>::empty());
    Ok(parsed)
}

/// Whether a value was given and is not blank.
pub open spec fn given(v: Option<Seq<char>>) -> bool {
    match v {
        Some(s) => !is_blank(s),
        None => false,
    }
}

/// Why arguments cannot start a projection, if they cannot: exactly one
/// attach source is needed (unless only the toolchain is checked), and a
/// step bound must be positive.
pub open spec fn launch_problem(a: ArgsView) -> Option<Seq<char>> {
    if a.check_rust_toolchain {
        None
    } else if given(a.attach) == given(a.launch_binding) {
        Some("exactly one of --attach <event_endpoint> or --launch-binding <path> is required"@)
    } else if a.max_steps == Some(0u64) {
        Some("--max-steps must be greater than zero"@)
    } else {
        None
    }
}

fn given_value(v: &Option<String>) -> (r: bool)
    ensures
        r == given(opt_str_view(*v)),
{
    match v {
        Some(s) => !is_blank_str(s.as_str()),
        None => false,
    }
}

/// Checks that arguments can start a projection.
pub fn validate_launch_args(args: &Args) -> (r: Result<(), String>)
    ensures
        match r {
            Ok(()) => launch_problem(args@) is None,
            Err(e) => launch_problem(args@) == Some(e@),
        },
{
    if args.check_rust_toolchain {
        return Ok(());
    }
    let has_attach = given_value(&args.attach);
    let has_binding = given_value(&args.launch_binding);
    if has_attach == has_binding {
        return Err(owned("exactly one of --attach <event_endpoint> or --launch-binding <path> is required"));
    }
    if let Some(value) = args.max_steps {
        if value == 0 {
            return Err(owned("--max-steps must be greater than zero"));
        }
    }
    Ok(())
}

/// Whether a plain file name (one without path separators) has an
/// extension: a `.` after its first character, the names `.` and `..` aside.
pub open spec fn plain_name_has_extension(name: Seq<char>) -> bool {
    name != seq!['.'] && name != seq!['.', '.'] && exists|i: int| 1 <= i < name.len() && name[i] == '.'
}

/// Whether `std::path::Path::extension` finds an extension in a name. For
/// names with a path separator or a `:` (which Windows reads as a drive
/// prefix) the answer depends on the platform, and nothing is stated.
#[verifier::external_body]
fn has_extension(name: &str) -> (r: bool)
    ensures
        !name@.contains('/') && !name@.contains('\\') && !name@.contains(':') ==> r == plain_name_has_extension(
            name@,
        ),
{
    std::path::Path::new(name).extension().is_some()
}

/// The file names an executable may have: the name itself when it has an
/// extension; on Windows the `.exe`, `.cmd` and `.bat` forms first.
pub open spec fn candidates_view(name: Seq<char>, has_ext: bool, windows: bool) -> Seq<Seq<char>> {
    if has_ext {
        seq![name]
    } else if windows {
        seq![name + ".exe"@, name + ".cmd"@, name + ".bat"@, name]
    } else {
        seq![name]
    }
}

/// The file names an executable may have on a platform.
pub fn executable_candidates(name: &str, windows: bool) -> (r: Vec<String>)
    ensures
        !name@.contains('/') && !name@.contains('\\') && !name@.contains(':') ==> crate::text::strs(r@)
            == candidates_view(
            name@,
            plain_name_has_extension(name@),
            windows,
        ),
        exists|has_ext: bool| crate::text::strs(r@) == candidates_view(name@, has_ext, windows),
{
    let has_ext = has_extension(name);
    let mut out: Vec<String> = Vec::new();
    if has_ext || !windows {
        out.push(owned(name));
    } else {
        out.push(concat(name, ".exe"));
        out.push(concat(name, ".cmd"));
        out.push(concat(name, ".bat"));
        out.push(owned(name));
    }
    assert(crate::text::strs(out@) =~= candidates_view(name@, has_ext, windows));
    out
}

} // verus!
