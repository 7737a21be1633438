//! The command-line surface of the wrapper: how an argument vector is
//! dispatched, the program-name tag for diagnostics, and the fixed texts.

use vstd::prelude::*;
use vstd::string::StrSliceExecFns;
use vstd::string::StringExecFns;

use crate::outcome::Termination;
use crate::outcome::exit_code_spec;

verus! {

/// A sole argument of `-h` or `--help` asks for the help text.
pub open spec fn is_help_flag(s: Seq<char>) -> bool {
    s == "-h"@ || s == "--help"@
}

/// The three ways an invocation is handled: print help, report a usage
/// error, or launch a child command.
#[derive(Clone, Copy, Debug, PartialEq, Eq, Structural)]
pub enum ActionKind {
    Help,
    Usage,
    Launch,
}

/// What the wrapper does with an argument vector. A launch carries the
/// command to run and the arguments passed through to it verbatim; the
/// uniqueness token (argument 1) is consumed and never handed on.
#[derive(Debug)]
pub enum Action {
    Help,
    Usage,
    Launch { command: String, child_args: Vec<String> },
}

/// Argument dispatch policy over the raw argument vector, where argument 0
/// is the wrapper's own invocation path: three or more arguments launch a
/// command; exactly two, the second a help flag, print help; any other
/// shape is a hard usage error.
pub open spec fn kind_of(args: Seq<Seq<char>>) -> ActionKind {
    if args.len() >= 3 {
        ActionKind::Launch
    } else if args.len() == 2 && is_help_flag(args[1]) {
        ActionKind::Help
    } else {
        ActionKind::Usage
    }
}

/// The exit code settled by dispatch alone: 0 for help, 1 for a usage
/// error; a launch has none until the child has run.
pub open spec fn immediate_exit_spec(k: ActionKind) -> Option<i32> {
    match k {
        ActionKind::Help => Some(0i32),
        ActionKind::Usage => Some(1i32),
        ActionKind::Launch => None,
    }
}

impl Action {
    /// Which of the three shapes this action is.
    pub open spec fn kind(&self) -> ActionKind {
        match self {
            Action::Help => ActionKind::Help,
            Action::Usage => ActionKind::Usage,
            Action::Launch { .. } => ActionKind::Launch,
        }
    }

    /// The exit code this action settles on its own, if any.
    pub fn immediate_exit_code(&self) -> (r: Option<i32>)
        ensures
            r == immediate_exit_spec(self.kind()),
    {
        match self {
            Action::Help => Some(0i32),
            Action::Usage => Some(1i32),
            Action::Launch { .. } => None,
        }
    }
}

/// Whether one argument is a help flag.
pub fn is_help_argument(s: &String) -> (r: bool)
    ensures
        r == is_help_flag(s@),
{
    let short: String = String::from_str("-h");
    let long: String = String::from_str("--help");
    *s == short || *s == long
}

/// Dispatches an argument vector: the decision, and for a launch, the
/// command (argument 2) and the arguments after it, in order and verbatim.
pub fn dispatch(args: &Vec<String>) -> (r: Action)
    ensures
        r.kind() == kind_of(args.deep_view()),
        r matches Action::Launch { command, child_args } ==> {
            &&& command@ == args.deep_view()[2]
            &&& child_args.deep_view() == args.deep_view().subrange(3, args.deep_view().len() as int)
        },
{
    if args.len() >= 3 {
        let command: String = args[2].clone();
        let mut child_args: Vec<String> = Vec::new();
        let mut i: usize = 3;
        while i < args.len()
            invariant
                3 <= i <= args.len(),
                child_args@.len() == i - 3,
                forall|j: int| 0 <= j < child_args@.len() ==> child_args@[j]@ == args@[j + 3]@,
            decreases args.len() - i,
        {
            child_args.push(args[i].clone());
            i = i + 1;
        }
        proof {
            assert(child_args.deep_view() =~= args.deep_view().subrange(
                3,
                args.deep_view().len() as int,
            ));
        }
        Action::Launch { command, child_args }
    } else if args.len() == 2 && is_help_argument(&args[1]) {
        Action::Help
    } else {
        Action::Usage
    }
}

/// The final path segment of `s`: everything after the last `/`, or all of
/// `s` when it holds no `/`.
pub open spec fn basename_spec(s: Seq<char>) -> Seq<char>
    decreases s.len(),
{
    if s.len() == 0 {
        Seq::empty()
    } else if s[s.len() - 1] == '/' {
        Seq::empty()
    } else {
        basename_spec(s.drop_last()).push(s[s.len() - 1])
    }
}

proof fn lemma_basename_is_suffix(s: Seq<char>, cut: int)
    requires
        0 <= cut <= s.len(),
        cut == 0 || s[cut - 1] == '/',
        forall|j: int| cut <= j < s.len() ==> s[j] != '/',
    ensures
        basename_spec(s) == s.subrange(cut, s.len() as int),
    decreases s.len(),
{
    if cut == s.len() {
        assert(basename_spec(s) =~= s.subrange(cut, s.len() as int));
    } else {
        let t = s.drop_last();
        lemma_basename_is_suffix(t, cut);
        assert(basename_spec(t).push(s[s.len() - 1]) =~= s.subrange(cut, s.len() as int));
    }
}

/// Reduces the wrapper's own invocation path to its final path segment,
/// the tag used in the spawn-failure diagnostic.
pub fn basename(path: &str) -> (r: &str)
    ensures
        r@ == basename_spec(path@),
{
    let n: usize = path.unicode_len();
    let mut i: usize = 0;
    let mut cut: usize = 0;
    while i < n
        invariant
            n == path@.len(),
            i <= n,
            cut <= i,
            cut == 0 || path@[cut - 1] == '/',
            forall|j: int| cut <= j < i ==> path@[j] != '/',
        decreases n - i,
    {
        if path.get_char(i) == '/' {
            cut = i + 1;
        }
        i = i + 1;
    }
    proof {
        lemma_basename_is_suffix(path@, cut as int);
    }
    path.substring_char(cut, n)
}

/// The single diagnostic line written when the child cannot be spawned:
/// the wrapper's program-name tag in brackets, then the error text.
pub fn diagnostic_line(tag: &str, error_text: &str) -> (r: String)
    ensures
        r@ == "["@ + tag@ + "] "@ + error_text@,
{
    let mut r: String = String::from_str("[");
    r.append(tag);
    r.append("] ");
    r.append(error_text);
    proof {
        assert(r@ =~= "["@ + tag@ + "] "@ + error_text@);
    }
    r
}

/// The two-line usage message written to standard error on a usage error.
pub open spec fn usage_text_spec() -> Seq<char> {
    "Usage: moby9098 <unique> <command> [args...]\n"@ + "       moby9098 -h | --help"@
}

/// Builds the usage message.
pub fn usage_text() -> (r: String)
    ensures
        r@ == usage_text_spec(),
{
    let mut r: String = String::from_str("Usage: moby9098 <unique> <command> [args...]\n");
    r.append("       moby9098 -h | --help");
    r
}

/// The help text written to standard output for `-h` / `--help`.
pub open spec fn help_text_spec() -> Seq<char> {
    "NAME\n    moby9098 - spawn a uniquely identifiable child command\n\n"@
        + "SYNOPSIS\n    moby9098 <unique> <command> [args...]\n    moby9098 -h | --help\n\n"@
        + "DESCRIPTION\n    Runs <command> with [args...], with standard input, output and error\n"@
        + "    inherited unchanged. The first argument is an opaque uniqueness token:\n"@
        + "    it is consumed, never passed to the command, and exists only so that\n"@
        + "    concurrent invocations differ in the eyes of process-monitoring tools.\n"@
        + "    The wrapper exits with the command's own exit code; if the command is\n"@
        + "    terminated by a signal, with 127 plus the signal number; if it reports\n"@
        + "    neither, with 127. If the command cannot be spawned at all, a\n"@
        + "    diagnostic line is written to standard error and the wrapper exits\n"@
        + "    with the raw OS error number, or 127 when none is available.\n"@
}

/// Builds the help text.
pub fn help_text() -> (r: String)
    ensures
        r@ == help_text_spec(),
{
    let mut r: String = String::from_str(
        "NAME\n    moby9098 - spawn a uniquely identifiable child command\n\n",
    );
    r.append("SYNOPSIS\n    moby9098 <unique> <command> [args...]\n    moby9098 -h | --help\n\n");
    r.append("DESCRIPTION\n    Runs <command> with [args...], with standard input, output and error\n");
    r.append("    inherited unchanged. The first argument is an opaque uniqueness token:\n");
    r.append("    it is consumed, never passed to the command, and exists only so that\n");
    r.append("    concurrent invocations differ in the eyes of process-monitoring tools.\n");
    r.append("    The wrapper exits with the command's own exit code; if the command is\n");
    r.append("    terminated by a signal, with 127 plus the signal number; if it reports\n");
    r.append("    neither, with 127. If the command cannot be spawned at all, a\n");
    r.append("    diagnostic line is written to standard error and the wrapper exits\n");
    r.append("    with the raw OS error number, or 127 when none is available.\n");
    proof {
        assert(r@ =~= help_text_spec());
    }
    r
}

/// An argument vector with fewer than three arguments, other than the sole
/// help flag, is a hard usage error: the wrapper exits with code 1 without
/// launching anything.
pub proof fn lemma_missing_arguments_usage_error(args: Seq<Seq<char>>)
    requires
        args.len() < 3,
        !(args.len() == 2 && is_help_flag(args[1])),
    ensures
        kind_of(args) is Usage,
        immediate_exit_spec(kind_of(args)) == Some(1i32),
{
}

/// A sole `-h` or `--help` argument prints help and exits with code 0.
pub proof fn lemma_help_flag_exits_zero(args: Seq<Seq<char>>)
    requires
        args.len() == 2,
        is_help_flag(args[1]),
    ensures
        kind_of(args) is Help,
        immediate_exit_spec(kind_of(args)) == Some(0i32),
{
}

/// Both the dispatch decision and the exit-code mapping are functions of
/// their inputs alone: two runs with identical argument vectors whose
/// children end identically take the same decision and exit with the same
/// code. Against a deterministic child, running the wrapper twice with the
/// same arguments therefore yields the same exit code both times.
pub proof fn lemma_identical_runs_exit_alike(
    args1: Seq<Seq<char>>,
    args2: Seq<Seq<char>>,
    t1: Termination,
    t2: Termination,
)
    requires
        args1 == args2,
        t1 == t2,
    ensures
        kind_of(args1) == kind_of(args2),
        immediate_exit_spec(kind_of(args1)) == immediate_exit_spec(kind_of(args2)),
        exit_code_spec(t1) == exit_code_spec(t2),
{
}

} // verus!
