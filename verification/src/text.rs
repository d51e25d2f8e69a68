//! The texts the program prints: help, version, and usage-error messages,
//! each pinned to a concatenation of the grammar's fields.

use vstd::prelude::*;
use crate::grammar::{Grammar, GrammarModel, Subcommand, SubcommandModel};
use crate::parse::UsageError;

verus! {

/// The help line of one subcommand.
pub open spec fn spec_sub_line(s: SubcommandModel) -> Seq<char> {
    "  "@ + s.name + "  "@ + s.about + "\n"@
}

/// The help lines of the subcommands, in grammar order.
pub open spec fn spec_sub_lines(subs: Seq<SubcommandModel>) -> Seq<char>
    decreases subs.len(),
{
    if subs.len() == 0 {
        Seq::empty()
    } else {
        spec_sub_line(subs[0]) + spec_sub_lines(subs.drop_first())
    }
}

/// The help text: description, usage line, the subcommand lines, and the
/// built-in options.
pub open spec fn spec_help_text(g: GrammarModel) -> Seq<char> {
    g.about + "\n\nUsage: "@ + g.program + " <COMMAND>\n\nCommands:\n"@ + spec_sub_lines(
        g.subcommands,
    ) + "\nOptions:\n  -h, --help     Print help\n  -V, --version  Print version\n"@
}

/// The message for an unrecognized subcommand, naming the offending word.
pub open spec fn spec_unknown_sub_text(word: Seq<char>) -> Seq<char> {
    "error: unrecognized subcommand '"@ + word + "'"@
}

/// The message for an argument that matches no flag of the selected
/// subcommand.
pub open spec fn spec_unknown_flag_text(word: Seq<char>) -> Seq<char> {
    "error: unexpected argument '"@ + word + "'"@
}

/// The message for a flag token given twice.
pub open spec fn spec_repeated_flag_text(word: Seq<char>) -> Seq<char> {
    "error: the argument '"@ + word + "' cannot be used multiple times"@
}

proof fn lemma_sub_lines_snoc(subs: Seq<SubcommandModel>, i: int)
    requires
        0 <= i < subs.len(),
    ensures
        spec_sub_lines(subs.take(i + 1)) == spec_sub_lines(subs.take(i)) + spec_sub_line(subs[i]),
    decreases i,
{
    if i == 0 {
        assert(subs.take(1).drop_first() =~= Seq::<SubcommandModel>::empty());
        assert(subs.take(1)[0] == subs[0]);
        assert(subs.take(0) =~= Seq::<SubcommandModel>::empty());
        assert(spec_sub_line(subs[0]) + Seq::<char>::empty() =~= spec_sub_line(subs[0]));
        assert(Seq::<char>::empty() + spec_sub_line(subs[0]) =~= spec_sub_line(subs[0]));
    } else {
        let d = subs.drop_first();
        lemma_sub_lines_snoc(d, i - 1);
        assert(subs.take(i + 1).drop_first() =~= d.take(i));
        assert(subs.take(i).drop_first() =~= d.take(i - 1));
        assert(subs.take(i + 1)[0] == subs[0]);
        assert(subs.take(i)[0] == subs[0]);
        assert(d[i - 1] == subs[i]);
        assert(spec_sub_line(subs[0]) + (spec_sub_lines(d.take(i - 1)) + spec_sub_line(subs[i]))
            =~= (spec_sub_line(subs[0]) + spec_sub_lines(d.take(i - 1))) + spec_sub_line(
            subs[i],
        ));
    }
}

/// Renders the help lines of the subcommands, in grammar order.
fn sub_lines(subs: &Vec<Subcommand>) -> (r: String)
    ensures
        r@ == spec_sub_lines(subs@.map_values(|s: Subcommand| s@)),
{
    let ghost model = subs@.map_values(|s: Subcommand| s@);
    let mut out = String::new();
    proof {
        assert(model.take(0) =~= Seq::<SubcommandModel>::empty());
    }
    let mut i: usize = 0;
    while i < subs.len()
        invariant
            i <= subs@.len(),
            model == subs@.map_values(|s: Subcommand| s@),
            out@ == spec_sub_lines(model.take(i as int)),
        decreases subs@.len() - i,
    {
        out.append("  ");
        out.append(subs[i].name.as_str());
        out.append("  ");
        out.append(subs[i].about.as_str());
        out.append("\n");
        proof {
            lemma_sub_lines_snoc(model, i as int);
            assert(out@ =~= spec_sub_lines(model.take(i as int)) + spec_sub_line(
                model[i as int],
            ));
        }
        i += 1;
    }
    proof {
        assert(model.take(subs@.len() as int) =~= model);
    }
    out
}

/// Renders the help text for the grammar.
pub fn help_text(g: &Grammar) -> (r: String)
    ensures
        r@ == spec_help_text(g@),
{
    let mut out = String::new();
    out.append(g.about.as_str());
    out.append("\n\nUsage: ");
    out.append(g.program.as_str());
    out.append(" <COMMAND>\n\nCommands:\n");
    let lines = sub_lines(&g.subcommands);
    out.append(lines.as_str());
    out.append("\nOptions:\n  -h, --help     Print help\n  -V, --version  Print version\n");
    proof {
        assert(out@ =~= spec_help_text(g@));
    }
    out
}

/// The version output: exactly the grammar's resolved version string.
pub fn version_text(g: &Grammar) -> (r: String)
    ensures
        r@ == g@.version,
{
    g.version.clone()
}

/// Renders the message of a usage error other than a missing subcommand
/// (which is answered with the help text instead), naming the offending
/// word.
pub fn usage_error_text(e: &UsageError) -> (r: String)
    requires
        !(*e is MissingSubcommand),
    ensures
        (match *e {
            UsageError::UnknownSubcommand { word } => r@ == spec_unknown_sub_text(word@),
            UsageError::UnknownFlag { word } => r@ == spec_unknown_flag_text(word@),
            UsageError::RepeatedFlag { word } => r@ == spec_repeated_flag_text(word@),
            UsageError::MissingSubcommand => false,
        }),
{
    let mut out = String::new();
    match e {
        UsageError::UnknownSubcommand { word } => {
            out.append("error: unrecognized subcommand '");
            out.append(word.as_str());
            out.append("'");
            proof {
                assert(out@ =~= spec_unknown_sub_text(word@));
            }
        },
        UsageError::UnknownFlag { word } => {
            out.append("error: unexpected argument '");
            out.append(word.as_str());
            out.append("'");
            proof {
                assert(out@ =~= spec_unknown_flag_text(word@));
            }
        },
        UsageError::RepeatedFlag { word } => {
            out.append("error: the argument '");
            out.append(word.as_str());
            out.append("' cannot be used multiple times");
            proof {
                assert(out@ =~= spec_repeated_flag_text(word@));
            }
        },
        UsageError::MissingSubcommand => {
            proof {
                assert(false);
            }
        },
    }
    out
}

} // verus!
