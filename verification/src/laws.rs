//! The laws of the command-line front end, proved over the same spec
//! functions that the executable functions' contracts use.

use vstd::prelude::*;
use crate::dispatch::spec_flag_value;
use crate::driver::spec_grammar_of;
use crate::grammar::{GrammarModel, spec_resolved_version, spec_standard_grammar};
use crate::parse::{
    FlagsModel,
    ParseModel,
    spec_find_sub,
    spec_help_token,
    spec_no_flags,
    spec_parse,
    spec_parse_flags,
    spec_version_token,
};
use crate::text::spec_help_text;

verus! {

/// A plain `run` invocation selects the `run` subcommand with its `verbose`
/// flag unset, so the process exits 0 and performs no logging
/// initialization.
pub proof fn lemma_plain_run(version: Seq<char>)
    ensures
        spec_parse(spec_standard_grammar(version), seq!["run"@]) == (ParseModel::Sub {
            index: 0,
            flags: seq![false],
        }),
        !spec_flag_value(spec_standard_grammar(version).subcommands[0], seq![false], "verbose"@),
{
    let g = spec_standard_grammar(version);
    let args = seq!["run"@];
    reveal_strlit("run");
    reveal_strlit("--version");
    reveal_strlit("-V");
    reveal_strlit("--help");
    reveal_strlit("-h");
    assert(args[0] == "run"@);
    assert(!spec_version_token(args[0]));
    assert(!spec_help_token(args[0]));
    assert(g.subcommands[0].name == "run"@);
    assert(spec_find_sub(g.subcommands, "run"@) == Some(0int));
    assert(args.drop_first() =~= Seq::<Seq<char>>::empty());
    assert(spec_parse_flags(g.subcommands[0].flags, args.drop_first(), spec_no_flags(1))
        == (FlagsModel::Done { values: spec_no_flags(1) }));
    assert(spec_no_flags(1) =~= seq![false]);
    assert(seq![false][0] == false);
    assert(!spec_flag_value(g.subcommands[0], seq![false], "verbose"@));
}

/// A verbose `run` invocation, by either flag form, selects the `run`
/// subcommand with its `verbose` flag set, so the process exits 0 and the
/// logging sink is initialized.
pub proof fn lemma_verbose_run(version: Seq<char>, token: Seq<char>)
    requires
        token == "-v"@ || token == "--verbose"@,
    ensures
        spec_parse(spec_standard_grammar(version), seq!["run"@, token]) == (ParseModel::Sub {
            index: 0,
            flags: seq![true],
        }),
        spec_flag_value(spec_standard_grammar(version).subcommands[0], seq![true], "verbose"@),
{
    let g = spec_standard_grammar(version);
    let args = seq!["run"@, token];
    reveal_strlit("run");
    reveal_strlit("--version");
    reveal_strlit("-V");
    reveal_strlit("--help");
    reveal_strlit("-h");
    assert(args[0] == "run"@);
    assert(!spec_version_token(args[0]));
    assert(!spec_help_token(args[0]));
    assert(g.subcommands[0].name == "run"@);
    assert(spec_find_sub(g.subcommands, "run"@) == Some(0int));
    let rest = args.drop_first();
    assert(rest =~= seq![token]);
    let flags = g.subcommands[0].flags;
    assert(flags[0].short == "-v"@ && flags[0].long == "--verbose"@);
    assert(crate::parse::spec_find_flag(flags, token) == Some(0int));
    assert(!spec_no_flags(1)[0]);
    assert(rest.drop_first() =~= Seq::<Seq<char>>::empty());
    assert(spec_parse_flags(flags, rest.drop_first(), spec_no_flags(1).update(0, true))
        == (FlagsModel::Done { values: spec_no_flags(1).update(0, true) }));
    assert(rest[0] == token);
    assert(spec_parse_flags(flags, rest, spec_no_flags(1)) == (FlagsModel::Done {
        values: spec_no_flags(1).update(0, true),
    }));
    assert(spec_no_flags(1).update(0, true) =~= seq![true]);
    assert(g.subcommands[0].flags[0].name == "verbose"@ && seq![true][0]);
    assert(spec_flag_value(g.subcommands[0], seq![true], "verbose"@));
}

/// An empty argument list misses the required subcommand: the process exits
/// non-zero and the help text is printed.
pub proof fn lemma_no_arguments(version: Seq<char>)
    ensures
        spec_parse(spec_standard_grammar(version), Seq::<Seq<char>>::empty())
            == ParseModel::MissingSubcommand,
{
}

/// The help output is a function of the grammar alone: two invocations over
/// the same grammar print identical help text.
pub proof fn lemma_help_output_stable(g: GrammarModel, first: Seq<char>, second: Seq<char>)
    requires
        first == spec_help_text(g),
        second == spec_help_text(g),
    ensures
        first == second,
{
}

/// An unrecognized first word (no registered subcommand, nor a version or
/// help token) is rejected as an unknown subcommand, naming the word: no
/// handler executes.
pub proof fn lemma_unknown_subcommand(version: Seq<char>, word: Seq<char>)
    requires
        word != "run"@,
        !spec_version_token(word),
        !spec_help_token(word),
    ensures
        spec_parse(spec_standard_grammar(version), seq![word]) == (ParseModel::UnknownSubcommand {
            word,
        }),
{
    let g = spec_standard_grammar(version);
    let args = seq![word];
    assert(g.subcommands[0].name == "run"@);
    assert(g.subcommands.drop_first() =~= Seq::<crate::grammar::SubcommandModel>::empty());
    assert(spec_find_sub(g.subcommands.drop_first(), word) is None);
    assert(spec_find_sub(g.subcommands, word) is None);
}

/// A version request is answered with the resolved version: the build-time
/// version string when present, else the literal `"unknown"`; the answer
/// depends on the build-time value alone, so it is stable across repeated
/// invocations within the same build.
pub proof fn lemma_version_request(build_version: Option<Seq<char>>, args: Seq<Seq<char>>, v: Seq<char>)
    requires
        args.len() > 0,
        spec_version_token(args[0]),
    ensures
        spec_parse(spec_grammar_of(build_version), args) == ParseModel::Version,
        build_version == Some(v) ==> spec_grammar_of(build_version).version == v,
        build_version is None ==> spec_grammar_of(build_version).version == "unknown"@,
        spec_grammar_of(build_version).version == spec_resolved_version(build_version),
{
}

} // verus!
