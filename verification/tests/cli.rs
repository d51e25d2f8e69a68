use autoply::dispatch::{dispatch, flag_is_set, Action, Outcome};
use autoply::driver::decide_invocation;
use autoply::grammar::{build_grammar, resolve_version, Flag, Grammar, Subcommand};
use autoply::logging::LoggingLifecycle;
use autoply::parse::{find_flag, find_subcommand, parse, text_eq, Parsed, UsageError};
use autoply::text::{help_text, usage_error_text, version_text};

fn args_of(words: &[&str]) -> Vec<String> {
    words.iter().map(|w| w.to_string()).collect()
}

const HELP: &str = "Autoply - A tool for automating job applications\n\nUsage: autoply <COMMAND>\n\nCommands:\n  run  Start Autoply\n\nOptions:\n  -h, --help     Print help\n  -V, --version  Print version\n";

#[test]
fn plain_run_exits_zero_without_logging() {
    let d = decide_invocation(Some("0.1.0"), &args_of(&["run"]));
    assert_eq!(d.exit_code, 0);
    assert!(!d.init_logging);
    assert_eq!(d.out_text, "");
    assert_eq!(d.err_text, "");
}

#[test]
fn verbose_run_short_form_initializes_logging() {
    let d = decide_invocation(Some("0.1.0"), &args_of(&["run", "-v"]));
    assert_eq!(d.exit_code, 0);
    assert!(d.init_logging);
    assert_eq!(d.out_text, "");
    assert_eq!(d.err_text, "");
}

#[test]
fn verbose_run_long_form_initializes_logging() {
    let d = decide_invocation(Some("0.1.0"), &args_of(&["run", "--verbose"]));
    assert_eq!(d.exit_code, 0);
    assert!(d.init_logging);
}

#[test]
fn no_arguments_fails_with_help() {
    let d = decide_invocation(Some("0.1.0"), &args_of(&[]));
    assert_ne!(d.exit_code, 0);
    assert!(!d.init_logging);
    assert_eq!(d.out_text, "");
    assert_eq!(d.err_text, HELP);
}

#[test]
fn no_arguments_output_is_idempotent() {
    let first = decide_invocation(Some("0.1.0"), &args_of(&[]));
    let second = decide_invocation(Some("0.1.0"), &args_of(&[]));
    assert_eq!(first.err_text, second.err_text);
    assert_eq!(first.exit_code, second.exit_code);
}

#[test]
fn unknown_subcommand_fails_naming_it() {
    let d = decide_invocation(Some("0.1.0"), &args_of(&["frobnicate"]));
    assert_ne!(d.exit_code, 0);
    assert!(!d.init_logging);
    assert_eq!(d.err_text, "error: unrecognized subcommand 'frobnicate'");
}

#[test]
fn version_present_is_reported() {
    let d = decide_invocation(Some("1.2.3"), &args_of(&["--version"]));
    assert_eq!(d.exit_code, 0);
    assert_eq!(d.out_text, "1.2.3");
    assert_eq!(d.err_text, "");
}

#[test]
fn version_short_form_is_reported() {
    let d = decide_invocation(Some("1.2.3"), &args_of(&["-V"]));
    assert_eq!(d.exit_code, 0);
    assert_eq!(d.out_text, "1.2.3");
}

#[test]
fn version_absent_falls_back_to_unknown() {
    let d = decide_invocation(None, &args_of(&["--version"]));
    assert_eq!(d.exit_code, 0);
    assert_eq!(d.out_text, "unknown");
}

#[test]
fn version_output_is_stable_across_invocations() {
    let first = decide_invocation(Some("1.2.3"), &args_of(&["--version"]));
    let second = decide_invocation(Some("1.2.3"), &args_of(&["--version"]));
    assert_eq!(first.out_text, second.out_text);
}

#[test]
fn help_request_prints_help_on_stdout() {
    let d = decide_invocation(Some("0.1.0"), &args_of(&["--help"]));
    assert_eq!(d.exit_code, 0);
    assert_eq!(d.out_text, HELP);
    assert_eq!(d.err_text, "");
}

#[test]
fn unknown_flag_fails_naming_it() {
    let d = decide_invocation(Some("0.1.0"), &args_of(&["run", "--bogus"]));
    assert_ne!(d.exit_code, 0);
    assert!(!d.init_logging);
    assert_eq!(d.err_text, "error: unexpected argument '--bogus'");
}

#[test]
fn repeated_flag_fails_naming_it() {
    let d = decide_invocation(Some("0.1.0"), &args_of(&["run", "-v", "-v"]));
    assert_ne!(d.exit_code, 0);
    assert!(!d.init_logging);
    assert_eq!(d.err_text, "error: the argument '-v' cannot be used multiple times");
}

#[test]
fn verbose_by_both_forms_counts_as_repeated() {
    let d = decide_invocation(Some("0.1.0"), &args_of(&["run", "-v", "--verbose"]));
    assert_ne!(d.exit_code, 0);
    assert_eq!(
        d.err_text,
        "error: the argument '--verbose' cannot be used multiple times"
    );
}

#[test]
fn resolve_version_prefers_build_value() {
    assert_eq!(resolve_version(Some("7.7.7")), "7.7.7");
    assert_eq!(resolve_version(None), "unknown");
}

#[test]
fn grammar_registers_run_with_verbose() {
    let g = build_grammar(Some("0.1.0"));
    assert_eq!(g.program, "autoply");
    assert_eq!(g.version, "0.1.0");
    assert_eq!(g.subcommands.len(), 1);
    assert_eq!(g.subcommands[0].name, "run");
    assert_eq!(g.subcommands[0].about, "Start Autoply");
    assert_eq!(g.subcommands[0].flags.len(), 1);
    assert_eq!(g.subcommands[0].flags[0].name, "verbose");
    assert_eq!(g.subcommands[0].flags[0].short, "-v");
    assert_eq!(g.subcommands[0].flags[0].long, "--verbose");
}

#[test]
fn parse_selects_run_and_resolves_flags() {
    let g = build_grammar(None);
    match parse(&g, &args_of(&["run"])) {
        Ok(Parsed::Sub { index, flags }) => {
            assert_eq!(index, 0);
            assert_eq!(flags, vec![false]);
        }
        _ => panic!("expected the run subcommand"),
    }
    match parse(&g, &args_of(&["run", "-v"])) {
        Ok(Parsed::Sub { index, flags }) => {
            assert_eq!(index, 0);
            assert_eq!(flags, vec![true]);
        }
        _ => panic!("expected the run subcommand"),
    }
}

#[test]
fn parse_rejects_missing_subcommand() {
    let g = build_grammar(None);
    assert!(matches!(
        parse(&g, &args_of(&[])),
        Err(UsageError::MissingSubcommand)
    ));
}

#[test]
fn parse_reports_version_and_help_requests() {
    let g = build_grammar(None);
    assert!(matches!(parse(&g, &args_of(&["--version"])), Ok(Parsed::Version)));
    assert!(matches!(parse(&g, &args_of(&["-V"])), Ok(Parsed::Version)));
    assert!(matches!(parse(&g, &args_of(&["--help"])), Ok(Parsed::Help)));
    assert!(matches!(parse(&g, &args_of(&["-h"])), Ok(Parsed::Help)));
}

#[test]
fn dispatch_answers_version_and_help() {
    let g = build_grammar(None);
    assert_eq!(
        dispatch(&g, &Parsed::Version),
        Ok(Outcome { exit_code: 0, action: Action::PrintVersion })
    );
    assert_eq!(
        dispatch(&g, &Parsed::Help),
        Ok(Outcome { exit_code: 0, action: Action::PrintHelp })
    );
}

#[test]
fn dispatch_runs_the_run_handler() {
    let g = build_grammar(None);
    let quiet = dispatch(&g, &Parsed::Sub { index: 0, flags: vec![false] });
    assert_eq!(quiet, Ok(Outcome { exit_code: 0, action: Action::Nothing }));
    let verbose = dispatch(&g, &Parsed::Sub { index: 0, flags: vec![true] });
    assert_eq!(verbose, Ok(Outcome { exit_code: 0, action: Action::InitLogging }));
}

#[test]
fn dispatch_reports_a_handler_fault_for_a_foreign_grammar() {
    let g = Grammar {
        program: String::from("autoply"),
        version: String::from("0.0.0"),
        about: String::from("test grammar"),
        subcommands: vec![Subcommand {
            name: String::from("other"),
            about: String::from("no handler"),
            flags: vec![],
        }],
    };
    match dispatch(&g, &Parsed::Sub { index: 0, flags: vec![] }) {
        Err(fault) => assert_eq!(fault.subcommand, "other"),
        Ok(_) => panic!("a subcommand without a handler must be a fault"),
    }
}

#[test]
fn logging_initializes_exactly_once() {
    let mut lifecycle = LoggingLifecycle::new();
    assert!(!lifecycle.request(false));
    assert!(lifecycle.request(true));
    assert!(!lifecycle.request(true));
    assert!(!lifecycle.request(false));
}

#[test]
fn helper_text_functions_render_exactly() {
    let g = build_grammar(Some("3.1.4"));
    assert_eq!(help_text(&g), HELP);
    assert_eq!(version_text(&g), "3.1.4");
    assert_eq!(
        usage_error_text(&UsageError::UnknownSubcommand { word: String::from("x") }),
        "error: unrecognized subcommand 'x'"
    );
    assert_eq!(
        usage_error_text(&UsageError::UnknownFlag { word: String::from("--y") }),
        "error: unexpected argument '--y'"
    );
    assert_eq!(
        usage_error_text(&UsageError::RepeatedFlag { word: String::from("-z") }),
        "error: the argument '-z' cannot be used multiple times"
    );
}

#[test]
fn finders_locate_names_and_tokens() {
    let g = build_grammar(None);
    assert_eq!(find_subcommand(&g.subcommands, &String::from("run")), Some(0));
    assert_eq!(find_subcommand(&g.subcommands, &String::from("walk")), None);
    let flags = &g.subcommands[0].flags;
    assert_eq!(find_flag(flags, &String::from("-v")), Some(0));
    assert_eq!(find_flag(flags, &String::from("--verbose")), Some(0));
    assert_eq!(find_flag(flags, &String::from("--quiet")), None);
    assert!(text_eq(&String::from("run"), "run"));
    assert!(!text_eq(&String::from("run"), "ran"));
}

#[test]
fn flag_lookup_reads_the_named_flag() {
    let g = build_grammar(None);
    let sub = &g.subcommands[0];
    assert!(flag_is_set(sub, &vec![true], "verbose"));
    assert!(!flag_is_set(sub, &vec![false], "verbose"));
    assert!(!flag_is_set(sub, &vec![true], "quiet"));
}

#[test]
fn verbose_flag_before_subcommand_is_unknown() {
    let d = decide_invocation(Some("0.1.0"), &args_of(&["-v", "run"]));
    assert_ne!(d.exit_code, 0);
    assert_eq!(d.err_text, "error: unrecognized subcommand '-v'");
}

#[test]
fn run_flag_example() {
    // A flag of one subcommand does not leak to the grammar level.
    let d = decide_invocation(Some("0.1.0"), &args_of(&["--verbose"]));
    assert_ne!(d.exit_code, 0);
    assert_eq!(d.err_text, "error: unrecognized subcommand '--verbose'");
}
