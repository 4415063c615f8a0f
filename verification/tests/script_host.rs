use jove::dispatch::LoopPhase;
use jove::host::{error_text, handler_report, is_flag, scan_flags, script_arguments,
    should_invoke, startup_plan, HandlerLookup, InvokeOutcome, TopLevelOutcome};

#[test]
fn a_compile_error_is_reported_and_the_loop_never_starts() {
    let outcome = TopLevelOutcome::CompileError {
        rendered: Some("SyntaxError: Unexpected token '}'".to_string()),
    };
    let plan = startup_plan(outcome);
    assert!(!plan.enter_loop);
    assert_eq!(
        plan.error_line,
        Some("SyntaxError: Unexpected token '}'".to_string())
    );
}

#[test]
fn a_top_level_throw_is_fatal_too() {
    let outcome = TopLevelOutcome::RuntimeError { rendered: Some("boom".to_string()) };
    let plan = startup_plan(outcome);
    assert!(!plan.enter_loop);
    assert_eq!(plan.error_line, Some("boom".to_string()));
}

#[test]
fn a_completed_script_enters_the_loop_silently() {
    let plan = startup_plan(TopLevelOutcome::Completed);
    assert!(plan.enter_loop);
    assert_eq!(plan.error_line, None);
}

#[test]
fn an_unstringifiable_error_falls_back_to_the_fixed_text() {
    assert_eq!(error_text(None), "Uncaught exception");
    let plan = startup_plan(TopLevelOutcome::CompileError { rendered: None });
    assert_eq!(plan.error_line, Some("Uncaught exception".to_string()));
}

#[test]
fn only_a_callable_global_is_invoked() {
    assert!(should_invoke(&HandlerLookup::Callable));
    assert!(!should_invoke(&HandlerLookup::Missing));
    assert!(!should_invoke(&HandlerLookup::NotCallable));
}

#[test]
fn a_throwing_handler_is_reported_once_and_the_loop_continues() {
    // Frame one: render throws.  The error prints once.
    let mut reports = Vec::new();
    let mut phase = LoopPhase::Idle;
    phase = phase.on_poll(true);
    phase = phase.on_dispatched();
    if let Some(line) = handler_report(InvokeOutcome::Threw { rendered: Some("boom".to_string()) })
    {
        reports.push(line);
    }
    phase = phase.on_drawn();

    // Frame two: render runs again on schedule and completes; nothing
    // more prints.
    phase = phase.on_poll(true);
    phase = phase.on_dispatched();
    if let Some(line) = handler_report(InvokeOutcome::Completed) {
        reports.push(line);
    }
    phase = phase.on_drawn();

    assert_eq!(phase, LoopPhase::Idle);
    assert_eq!(reports, ["boom"]);
}

#[test]
fn a_skipped_handler_reports_nothing() {
    assert_eq!(handler_report(InvokeOutcome::NoHandler), None);
    assert_eq!(handler_report(InvokeOutcome::Completed), None);
}

#[test]
fn leading_flags_are_recognized_before_the_script_path() {
    let argv = vec![
        "jove".to_string(),
        "--predictable".to_string(),
        "script.js".to_string(),
        "--help".to_string(),
    ];
    let flags = scan_flags(&argv);
    assert!(flags.predictable);
    // "--help" stands after the script path, among the script's own
    // arguments: the leading scan does not reach it.
    assert!(!flags.help);
}

#[test]
fn help_flag_is_seen_when_it_leads() {
    let argv = vec!["jove".to_string(), "--help".to_string()];
    let flags = scan_flags(&argv);
    assert!(flags.help);
    assert!(!flags.predictable);
}

#[test]
fn no_arguments_means_no_flags() {
    let argv = vec!["jove".to_string()];
    let flags = scan_flags(&argv);
    assert!(!flags.help);
    assert!(!flags.predictable);
}

#[test]
fn a_flag_is_two_leading_dashes() {
    assert!(is_flag(&"--help".to_string()));
    assert!(is_flag(&"--".to_string()));
    assert!(!is_flag(&"-h".to_string()));
    assert!(!is_flag(&"script.js".to_string()));
}

#[test]
fn script_arguments_skip_the_program_name_and_script_path() {
    let argv = vec![
        "jove".to_string(),
        "script.js".to_string(),
        "a".to_string(),
        "b".to_string(),
    ];
    assert_eq!(script_arguments(&argv), ["a", "b"]);
    let bare = vec!["jove".to_string()];
    assert!(script_arguments(&bare).is_empty());
}
