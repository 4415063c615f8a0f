//! Script-host decisions.
//!
//! The engine owns the script context; this module owns every decision
//! around it: whether a looked-up global may be invoked as a handler,
//! what a thrown exception prints and that it prints exactly once, when
//! the event loop may start after the top-level script ran, and the scan
//! of the leading process flags.  The engine reports each outcome as a
//! plain value (was the global callable, did the call throw, what did the
//! exception stringify to), and everything decided from those values is
//! proved here.

use vstd::prelude::*;
use vstd::string::StringExecFns;

verus! {

/// What looking a handler name up in the script's global namespace found.
/// The lookup is performed fresh at each dispatch, so a script may
/// redefine a handler at any time.
#[derive(Clone, Copy, Debug, PartialEq, Eq, Structural)]
pub enum HandlerLookup {
    /// No global of that name exists.
    Missing,
    /// A global of that name exists but is not callable.
    NotCallable,
    /// A callable global of that name exists.
    Callable,
}

/// Scripts need not define every handler: a handler is invoked exactly
/// when its name is bound to a callable global; otherwise the dispatch is
/// a silent no-op.
pub fn should_invoke(lookup: &HandlerLookup) -> (b: bool)
    ensures
        b <==> *lookup is Callable,
{
    match lookup {
        HandlerLookup::Callable => true,
        HandlerLookup::Missing => false,
        HandlerLookup::NotCallable => false,
    }
}

/// How one handler invocation ended.  An exception never unwinds past the
/// invocation boundary: the engine catches it and reports its string
/// form here, or nothing when the exception itself could not be
/// stringified.
#[derive(Debug)]
pub enum InvokeOutcome {
    /// The handler was missing or not callable; nothing ran.
    NoHandler,
    /// The handler ran and returned normally.
    Completed,
    /// The handler threw; `rendered` is the exception's string form, if
    /// it had one.
    Threw { rendered: Option<String> },
}

/// The text an error reports: the exception's own string form, or the
/// fixed fallback when it could not be stringified.
pub open spec fn spec_error_text(rendered: Option<String>) -> Seq<char> {
    match rendered {
        Option::Some(t) => t@,
        Option::None => "Uncaught exception"@,
    }
}

/// Render an error for the operator, as [`spec_error_text`] says.
pub fn error_text(rendered: Option<String>) -> (s: String)
    ensures
        s@ == spec_error_text(rendered),
{
    match rendered {
        Option::Some(t) => t,
        Option::None => String::from_str("Uncaught exception"),
    }
}

/// What one handler invocation prints to the error stream: exactly one
/// line when the handler threw — the exception's text — and nothing
/// otherwise.  The loop itself continues either way.
pub fn handler_report(outcome: InvokeOutcome) -> (r: Option<String>)
    ensures
        r is Some <==> outcome is Threw,
        (outcome matches InvokeOutcome::Threw { rendered } ==> r matches Option::Some(line)
            && line@ == spec_error_text(rendered)),
{
    match outcome {
        InvokeOutcome::Threw { rendered } => Option::Some(error_text(rendered)),
        InvokeOutcome::NoHandler => Option::None,
        InvokeOutcome::Completed => Option::None,
    }
}

/// The error lines a sequence of invocation outcomes produces: one line
/// per throw, in order, and nothing for any other outcome.
pub open spec fn spec_error_lines(outcomes: Seq<InvokeOutcome>) -> Seq<Seq<char>>
    decreases outcomes.len(),
{
    if outcomes.len() == 0 {
        Seq::<Seq<char>>::empty()
    } else {
        spec_error_lines(outcomes.drop_last()) + (match outcomes.last() {
            InvokeOutcome::Threw { rendered } => seq![spec_error_text(rendered)],
            _ => Seq::<Seq<char>>::empty(),
        })
    }
}

/// How many of the outcomes were throws.
pub open spec fn spec_throw_count(outcomes: Seq<InvokeOutcome>) -> int
    decreases outcomes.len(),
{
    if outcomes.len() == 0 {
        0
    } else {
        spec_throw_count(outcomes.drop_last()) + (if outcomes.last() is Threw {
            1int
        } else {
            0int
        })
    }
}

/// Each throw is reported exactly once: a run prints as many error lines
/// as it had throwing invocations — no duplicates, none swallowed.
pub proof fn lemma_one_report_per_throw(outcomes: Seq<InvokeOutcome>)
    ensures
        spec_error_lines(outcomes).len() == spec_throw_count(outcomes),
    decreases outcomes.len(),
{
    if outcomes.len() > 0 {
        lemma_one_report_per_throw(outcomes.drop_last());
    }
}

/// How evaluating the top-level script ended.  Compilation failure and a
/// thrown top-level exception are both fatal; each carries the string
/// form of what the engine reported, if it had one.
#[derive(Debug)]
pub enum TopLevelOutcome {
    /// The script compiled and ran to completion.
    Completed,
    /// The script was malformed and did not compile.
    CompileError { rendered: Option<String> },
    /// The script compiled but its top-level evaluation threw.
    RuntimeError { rendered: Option<String> },
}

/// What the process does after evaluating the top-level script.
pub struct StartupPlan {
    /// The line to print to the error stream, if the evaluation failed.
    pub error_line: Option<String>,
    /// Whether the event loop may start.  A fatal top-level failure
    /// leaves this false: no window opens and no handler is ever invoked.
    pub enter_loop: bool,
}

/// Decide the process's course after top-level evaluation: enter the
/// event loop exactly when the script completed; on either fatal failure,
/// report the error once and never start the loop.
pub fn startup_plan(outcome: TopLevelOutcome) -> (p: StartupPlan)
    ensures
        p.enter_loop <==> outcome is Completed,
        outcome is Completed ==> p.error_line is None,
        (outcome matches TopLevelOutcome::CompileError { rendered } ==> p.error_line
            matches Option::Some(line) && line@ == spec_error_text(rendered)),
        (outcome matches TopLevelOutcome::RuntimeError { rendered } ==> p.error_line
            matches Option::Some(line) && line@ == spec_error_text(rendered)),
{
    match outcome {
        TopLevelOutcome::Completed => StartupPlan { error_line: Option::None, enter_loop: true },
        TopLevelOutcome::CompileError { rendered } => StartupPlan {
            error_line: Option::Some(error_text(rendered)),
            enter_loop: false,
        },
        TopLevelOutcome::RuntimeError { rendered } => StartupPlan {
            error_line: Option::Some(error_text(rendered)),
            enter_loop: false,
        },
    }
}

/// Whether a command-line argument is written as a flag: it begins with
/// two dashes.
pub open spec fn spec_is_flag(s: Seq<char>) -> bool {
    s.len() >= 2 && s[0] == '-' && s[1] == '-'
}

/// Whether an argument is written as a flag, as [`spec_is_flag`] says.
pub fn is_flag(s: &String) -> (b: bool)
    ensures
        b == spec_is_flag(s@),
{
    let text = s.as_str();
    if text.unicode_len() < 2 {
        false
    } else {
        text.get_char(0) == '-' && text.get_char(1) == '-'
    }
}

/// Whether the flag `name` stands among the leading flags of the argument
/// list, scanning from position `i`: the scan takes arguments while they
/// are written as flags and stops at the first that is not, so a later
/// occurrence of `name` (say, among the script's own arguments) does not
/// count.
pub open spec fn spec_has_leading_flag(argv: Seq<String>, name: Seq<char>, i: int) -> bool
    decreases argv.len() - i,
{
    if i < 0 || i >= argv.len() || !spec_is_flag(argv[i]@) {
        false
    } else {
        argv[i]@ == name || spec_has_leading_flag(argv, name, i + 1)
    }
}

/// The process flags recognized before the script loads.
#[derive(Clone, Copy, Debug, PartialEq, Eq, Structural)]
pub struct LaunchFlags {
    /// Print usage and exit without running anything.
    pub help: bool,
    /// Force the engine's randomness source to a fixed sequence, for
    /// reproducible runs.
    pub predictable: bool,
}

/// Scan the leading flags of the process's argument list — the arguments
/// after the program name, up to the first that is not written as a flag
/// — for the two recognized process flags.
pub fn scan_flags(argv: &Vec<String>) -> (r: LaunchFlags)
    ensures
        r.help == spec_has_leading_flag(argv@, "--help"@, 1),
        r.predictable == spec_has_leading_flag(argv@, "--predictable"@, 1),
{
    let help_name = String::from_str("--help");
    let predictable_name = String::from_str("--predictable");
    let mut help = false;
    let mut predictable = false;
    let mut i: usize = 1;
    while i < argv.len() && is_flag(&argv[i])
        invariant
            1 <= i,
            help_name@ == "--help"@,
            predictable_name@ == "--predictable"@,
            spec_has_leading_flag(argv@, "--help"@, 1) == (help || spec_has_leading_flag(
                argv@,
                "--help"@,
                i as int,
            )),
            spec_has_leading_flag(argv@, "--predictable"@, 1) == (predictable
                || spec_has_leading_flag(argv@, "--predictable"@, i as int)),
        decreases argv.len() - i,
    {
        if argv[i] == help_name {
            help = true;
        }
        if argv[i] == predictable_name {
            predictable = true;
        }
        i = i + 1;
    }
    LaunchFlags { help, predictable }
}

/// The script's own command-line arguments: everything after the program
/// name and the script path, in order.  They become the script-visible
/// `args` array; the leading engine flags were already filtered out of
/// the list this reads.
pub fn script_arguments(argv: &Vec<String>) -> (r: Vec<String>)
    ensures
        r@ == (if argv@.len() >= 2 {
            argv@.subrange(2, argv@.len() as int)
        } else {
            Seq::<String>::empty()
        }),
{
    let mut r: Vec<String> = Vec::new();
    if argv.len() < 2 {
        proof {
            assert(r@ =~= Seq::<String>::empty());
        }
        return r;
    }
    let mut i: usize = 2;
    while i < argv.len()
        invariant
            2 <= i <= argv.len(),
            argv.len() >= 2,
            r@ == argv@.subrange(2, i as int),
        decreases argv.len() - i,
    {
        r.push(argv[i].clone());
        proof {
            assert(argv@.subrange(2, i + 1) =~= argv@.subrange(2, i as int).push(argv@[i as int]));
        }
        i = i + 1;
    }
    proof {
        assert(argv@.subrange(2, argv@.len() as int) =~= r@);
    }
    r
}

} // verus!
