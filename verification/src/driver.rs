//! The single synchronous pass of one process invocation: build the grammar,
//! parse the arguments, dispatch, and reduce the outcome to a complete
//! directive for the process.

use vstd::prelude::*;
use vstd::pervasive::unreached;
use crate::dispatch::{Action, dispatch, lemma_handlers_cover_grammar, spec_flag_value};
use crate::grammar::{GrammarModel, build_grammar, spec_resolved_version, spec_standard_grammar};
use crate::parse::{
    Parsed,
    ParseModel,
    UsageError,
    lemma_parse_valid,
    parse,
    spec_parse,
};
use crate::text::{
    help_text,
    spec_help_text,
    spec_repeated_flag_text,
    spec_unknown_flag_text,
    spec_unknown_sub_text,
    usage_error_text,
    version_text,
};

verus! {

/// Everything one process invocation must do, decided from the arguments
/// alone: the exit status, whether to install the logging sink, and the
/// texts for standard output and standard error (empty when nothing is to
/// be printed).
pub struct Directive {
    /// The process exit status.
    pub exit_code: i32,
    /// Whether the logging sink is to be initialized.
    pub init_logging: bool,
    /// The text for standard output, empty when none.
    pub out_text: String,
    /// The text for standard error, empty when none.
    pub err_text: String,
}

/// The grammar's view for a given build-time version value.
pub open spec fn spec_grammar_of(build_version: Option<Seq<char>>) -> GrammarModel {
    spec_standard_grammar(spec_resolved_version(build_version))
}

/// The view of an optional build-time version string.
pub open spec fn spec_version_of(build_version: Option<&str>) -> Option<Seq<char>> {
    match build_version {
        Some(v) => Some(v@),
        None => None,
    }
}

/// Decides one process invocation: builds the grammar from the build-time
/// version, parses the arguments (the process arguments after the program
/// name), dispatches, and returns the complete directive.  A selected
/// subcommand exits 0, initializing logging exactly when its `verbose` flag
/// is set; a version or help request exits 0 printing the resolved version
/// or the help text; an empty argument list exits 2 with the help text on
/// standard error; any other usage error exits 2 with its message on
/// standard error, and no handler runs.
pub fn decide_invocation(build_version: Option<&str>, args: &Vec<String>) -> (d: Directive)
    ensures
        ({
            let g = spec_grammar_of(spec_version_of(build_version));
            let p = spec_parse(g, args.deep_view());
            match p {
                ParseModel::Sub { index, flags } => d.exit_code == 0 && d.init_logging
                    == spec_flag_value(g.subcommands[index], flags, "verbose"@)
                    && d.out_text@.len() == 0 && d.err_text@.len() == 0,
                ParseModel::Version => d.exit_code == 0 && !d.init_logging && d.out_text@
                    == g.version && d.err_text@.len() == 0,
                ParseModel::Help => d.exit_code == 0 && !d.init_logging && d.out_text@
                    == spec_help_text(g) && d.err_text@.len() == 0,
                ParseModel::MissingSubcommand => d.exit_code == 2 && !d.init_logging
                    && d.out_text@.len() == 0 && d.err_text@ == spec_help_text(g),
                ParseModel::UnknownSubcommand { word } => d.exit_code == 2 && !d.init_logging
                    && d.out_text@.len() == 0 && d.err_text@ == spec_unknown_sub_text(word),
                ParseModel::UnknownFlag { word } => d.exit_code == 2 && !d.init_logging
                    && d.out_text@.len() == 0 && d.err_text@ == spec_unknown_flag_text(word),
                ParseModel::RepeatedFlag { word } => d.exit_code == 2 && !d.init_logging
                    && d.out_text@.len() == 0 && d.err_text@ == spec_repeated_flag_text(word),
            }
        }),
{
    let g = build_grammar(build_version);
    let ghost version = spec_resolved_version(spec_version_of(build_version));
    match parse(&g, args) {
        Ok(p) => {
            proof {
                lemma_parse_valid(g@, args.deep_view());
            }
            let outcome = match dispatch(&g, &p) {
                Ok(o) => o,
                Err(_) => {
                    proof {
                        match p {
                            Parsed::Sub { index, flags } => {
                                lemma_handlers_cover_grammar(version, index as int);
                            },
                            _ => {},
                        }
                        assert(false);
                    }
                    unreached()
                },
            };
            match outcome.action {
                Action::Nothing => Directive {
                    exit_code: outcome.exit_code,
                    init_logging: false,
                    out_text: String::new(),
                    err_text: String::new(),
                },
                Action::InitLogging => Directive {
                    exit_code: outcome.exit_code,
                    init_logging: true,
                    out_text: String::new(),
                    err_text: String::new(),
                },
                Action::PrintVersion => Directive {
                    exit_code: outcome.exit_code,
                    init_logging: false,
                    out_text: version_text(&g),
                    err_text: String::new(),
                },
                Action::PrintHelp => Directive {
                    exit_code: outcome.exit_code,
                    init_logging: false,
                    out_text: help_text(&g),
                    err_text: String::new(),
                },
            }
        },
        Err(e) => {
            match e {
                UsageError::MissingSubcommand => Directive {
                    exit_code: 2,
                    init_logging: false,
                    out_text: String::new(),
                    err_text: help_text(&g),
                },
                _ => {
                    let message = usage_error_text(&e);
                    Directive {
                        exit_code: 2,
                        init_logging: false,
                        out_text: String::new(),
                        err_text: message,
                    }
                },
            }
        },
    }
}

} // verus!
