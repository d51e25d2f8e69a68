//! Matching the raw argument list against the command grammar, yielding a
//! parsed invocation or a usage error.

use vstd::prelude::*;
use crate::grammar::{Flag, FlagModel, Grammar, GrammarModel, Subcommand, SubcommandModel};

verus! {

/// The parsed invocation: the result of matching the arguments against the
/// grammar, consumed immediately by dispatch.
pub enum Parsed {
    /// The version request (`--version` or `-V`).
    Version,
    /// The help request (`--help` or `-h`).
    Help,
    /// A selected subcommand with its resolved flag values, one per flag of
    /// the subcommand, in grammar order.
    Sub {
        /// Index of the selected subcommand in the grammar.
        index: usize,
        /// Resolved flag values, parallel to the subcommand's flags.
        flags: Vec<bool>,
    },
}

/// A usage error: the arguments did not match the grammar.  Surfaced to the
/// user; the process exits non-zero without dispatching.
pub enum UsageError {
    /// No subcommand was given (empty argument list).
    MissingSubcommand,
    /// The first argument names no registered subcommand.
    UnknownSubcommand {
        /// The offending word.
        word: String,
    },
    /// An argument after the subcommand matches none of its flags.
    UnknownFlag {
        /// The offending word.
        word: String,
    },
    /// A flag token appeared a second time.
    RepeatedFlag {
        /// The offending word.
        word: String,
    },
}

/// The mathematical value of a parse result.
pub enum ParseModel {
    /// The version request.
    Version,
    /// The help request.
    Help,
    /// A selected subcommand with its resolved flag values.
    Sub {
        /// Index of the selected subcommand in the grammar.
        index: int,
        /// Resolved flag values, parallel to the subcommand's flags.
        flags: Seq<bool>,
    },
    /// No subcommand was given.
    MissingSubcommand,
    /// The first argument names no registered subcommand.
    UnknownSubcommand {
        /// The offending word.
        word: Seq<char>,
    },
    /// An argument after the subcommand matches none of its flags.
    UnknownFlag {
        /// The offending word.
        word: Seq<char>,
    },
    /// A flag token appeared a second time.
    RepeatedFlag {
        /// The offending word.
        word: Seq<char>,
    },
}

/// Maps an executable parse result to its mathematical value.
pub open spec fn parse_model_of(r: Result<Parsed, UsageError>) -> ParseModel {
    match r {
        Ok(Parsed::Version) => ParseModel::Version,
        Ok(Parsed::Help) => ParseModel::Help,
        Ok(Parsed::Sub { index, flags }) => ParseModel::Sub {
            index: index as int,
            flags: flags@,
        },
        Err(UsageError::MissingSubcommand) => ParseModel::MissingSubcommand,
        Err(UsageError::UnknownSubcommand { word }) => ParseModel::UnknownSubcommand {
            word: word@,
        },
        Err(UsageError::UnknownFlag { word }) => ParseModel::UnknownFlag { word: word@ },
        Err(UsageError::RepeatedFlag { word }) => ParseModel::RepeatedFlag { word: word@ },
    }
}

/// A found subcommand lies in range and bears the sought name.
pub proof fn lemma_find_sub_in_range(subs: Seq<SubcommandModel>, word: Seq<char>)
    ensures
        (match spec_find_sub(subs, word) {
            Some(j) => 0 <= j < subs.len() && subs[j].name == word,
            None => true,
        }),
    decreases subs.len(),
{
    if subs.len() > 0 && subs[0].name != word {
        lemma_find_sub_in_range(subs.drop_first(), word);
    }
}

/// A found flag lies in range.
pub proof fn lemma_find_flag_in_range(flags: Seq<FlagModel>, word: Seq<char>)
    ensures
        (match spec_find_flag(flags, word) {
            Some(k) => 0 <= k < flags.len(),
            None => true,
        }),
    decreases flags.len(),
{
    if flags.len() > 0 && !(flags[0].short == word || flags[0].long == word) {
        lemma_find_flag_in_range(flags.drop_first(), word);
    }
}

/// Flag matching resolves one value per flag of the subcommand: a completed
/// match keeps the accumulator's length.
pub proof fn lemma_parse_flags_len(flags: Seq<FlagModel>, args: Seq<Seq<char>>, acc: Seq<bool>)
    requires
        acc.len() == flags.len(),
    ensures
        (match spec_parse_flags(flags, args, acc) {
            FlagsModel::Done { values } => values.len() == acc.len(),
            _ => true,
        }),
    decreases args.len(),
{
    if args.len() > 0 {
        lemma_find_flag_in_range(flags, args[0]);
        match spec_find_flag(flags, args[0]) {
            Some(k) => {
                if !acc[k] {
                    lemma_parse_flags_len(flags, args.drop_first(), acc.update(k, true));
                }
            },
            None => {},
        }
    }
}

/// A parsed invocation is consistent with the grammar: the selected
/// subcommand exists, is the one named by the first argument, and its flag
/// values are parallel to its flags.
pub proof fn lemma_parse_valid(g: GrammarModel, args: Seq<Seq<char>>)
    ensures
        (match spec_parse(g, args) {
            ParseModel::Sub { index, flags } => 0 <= index < g.subcommands.len()
                && g.subcommands[index].name == args[0] && flags.len()
                == g.subcommands[index].flags.len(),
            _ => true,
        }),
{
    if args.len() > 0 && !spec_version_token(args[0]) && !spec_help_token(args[0]) {
        lemma_find_sub_in_range(g.subcommands, args[0]);
        match spec_find_sub(g.subcommands, args[0]) {
            Some(j) => {
                lemma_parse_flags_len(
                    g.subcommands[j].flags,
                    args.drop_first(),
                    spec_no_flags(g.subcommands[j].flags.len()),
                );
            },
            None => {},
        }
    }
}

/// Whether a word is the version request token.
pub open spec fn spec_version_token(word: Seq<char>) -> bool {
    word == "--version"@ || word == "-V"@
}

/// Whether a word is the help request token.
pub open spec fn spec_help_token(word: Seq<char>) -> bool {
    word == "--help"@ || word == "-h"@
}

/// The first subcommand whose name equals the word, if any.
pub open spec fn spec_find_sub(subs: Seq<SubcommandModel>, word: Seq<char>) -> Option<int>
    decreases subs.len(),
{
    if subs.len() == 0 {
        None
    } else if subs[0].name == word {
        Some(0int)
    } else {
        match spec_find_sub(subs.drop_first(), word) {
            Some(j) => Some(j + 1),
            None => None,
        }
    }
}

/// The first flag one of whose tokens (short or long) equals the word, if
/// any.
pub open spec fn spec_find_flag(flags: Seq<FlagModel>, word: Seq<char>) -> Option<int>
    decreases flags.len(),
{
    if flags.len() == 0 {
        None
    } else if flags[0].short == word || flags[0].long == word {
        Some(0int)
    } else {
        match spec_find_flag(flags.drop_first(), word) {
            Some(k) => Some(k + 1),
            None => None,
        }
    }
}

/// The outcome of matching the arguments after the subcommand against its
/// flags.
pub enum FlagsModel {
    /// Every argument matched a flag token; the resolved values.
    Done {
        /// Resolved flag values, parallel to the subcommand's flags.
        values: Seq<bool>,
    },
    /// An argument matched no flag token.
    UnknownFlag {
        /// The offending word.
        word: Seq<char>,
    },
    /// A flag token appeared a second time.
    RepeatedFlag {
        /// The offending word.
        word: Seq<char>,
    },
}

/// Matches the remaining arguments against the flags, left to right,
/// starting from the accumulated values `acc`: each argument must be a
/// not-yet-set flag token.
pub open spec fn spec_parse_flags(
    flags: Seq<FlagModel>,
    args: Seq<Seq<char>>,
    acc: Seq<bool>,
) -> FlagsModel
    decreases args.len(),
{
    if args.len() == 0 {
        FlagsModel::Done { values: acc }
    } else {
        match spec_find_flag(flags, args[0]) {
            Some(k) => if acc[k] {
                FlagsModel::RepeatedFlag { word: args[0] }
            } else {
                spec_parse_flags(flags, args.drop_first(), acc.update(k, true))
            },
            None => FlagsModel::UnknownFlag { word: args[0] },
        }
    }
}

/// All flags unset: the initial accumulator for a subcommand.
pub open spec fn spec_no_flags(n: nat) -> Seq<bool> {
    Seq::new(n, |k: int| false)
}

/// The meaning of an argument list under a grammar, checked left to right:
/// an empty list misses its subcommand; a version or help token comes first
/// if present; otherwise the first argument selects the subcommand of its
/// name and the remaining arguments set its flags.
pub open spec fn spec_parse(g: GrammarModel, args: Seq<Seq<char>>) -> ParseModel {
    if args.len() == 0 {
        ParseModel::MissingSubcommand
    } else if spec_version_token(args[0]) {
        ParseModel::Version
    } else if spec_help_token(args[0]) {
        ParseModel::Help
    } else {
        match spec_find_sub(g.subcommands, args[0]) {
            Some(j) => match spec_parse_flags(
                g.subcommands[j].flags,
                args.drop_first(),
                spec_no_flags(g.subcommands[j].flags.len()),
            ) {
                FlagsModel::Done { values } => ParseModel::Sub { index: j, flags: values },
                FlagsModel::UnknownFlag { word } => ParseModel::UnknownFlag { word },
                FlagsModel::RepeatedFlag { word } => ParseModel::RepeatedFlag { word },
            },
            None => ParseModel::UnknownSubcommand { word: args[0] },
        }
    }
}

proof fn lemma_find_sub_present(subs: Seq<SubcommandModel>, word: Seq<char>, j: int)
    requires
        0 <= j < subs.len(),
        subs[j].name == word,
        forall|i: int| 0 <= i < j ==> (#[trigger] subs[i]).name != word,
    ensures
        spec_find_sub(subs, word) == Some(j),
    decreases subs.len(),
{
    if j > 0 {
        assert(forall|i: int|
            0 <= i < j - 1 ==> (#[trigger] subs.drop_first()[i]).name != word);
        lemma_find_sub_present(subs.drop_first(), word, j - 1);
    }
}

proof fn lemma_find_sub_absent(subs: Seq<SubcommandModel>, word: Seq<char>)
    requires
        forall|i: int| 0 <= i < subs.len() ==> (#[trigger] subs[i]).name != word,
    ensures
        spec_find_sub(subs, word) is None,
    decreases subs.len(),
{
    if subs.len() > 0 {
        assert(forall|i: int|
            0 <= i < subs.drop_first().len() ==> (#[trigger] subs.drop_first()[i]).name != word);
        lemma_find_sub_absent(subs.drop_first(), word);
    }
}

proof fn lemma_find_flag_present(flags: Seq<FlagModel>, word: Seq<char>, k: int)
    requires
        0 <= k < flags.len(),
        flags[k].short == word || flags[k].long == word,
        forall|i: int|
            0 <= i < k ==> (#[trigger] flags[i]).short != word && flags[i].long != word,
    ensures
        spec_find_flag(flags, word) == Some(k),
    decreases flags.len(),
{
    if k > 0 {
        assert(forall|i: int|
            0 <= i < k - 1 ==> (#[trigger] flags.drop_first()[i]).short != word
                && flags.drop_first()[i].long != word);
        lemma_find_flag_present(flags.drop_first(), word, k - 1);
    }
}

proof fn lemma_find_flag_absent(flags: Seq<FlagModel>, word: Seq<char>)
    requires
        forall|i: int|
            0 <= i < flags.len() ==> (#[trigger] flags[i]).short != word && flags[i].long != word,
    ensures
        spec_find_flag(flags, word) is None,
    decreases flags.len(),
{
    if flags.len() > 0 {
        assert(forall|i: int|
            0 <= i < flags.drop_first().len() ==> (#[trigger] flags.drop_first()[i]).short != word
                && flags.drop_first()[i].long != word);
        lemma_find_flag_absent(flags.drop_first(), word);
    }
}

/// Whether the string equals the literal, by characters.
pub fn text_eq(a: &String, b: &str) -> (r: bool)
    ensures
        r == (a@ == b@),
{
    let bs = String::from_str(b);
    a.eq(&bs)
}

/// Finds the first subcommand of the given name, if any.
pub fn find_subcommand(subs: &Vec<Subcommand>, word: &String) -> (r: Option<usize>)
    ensures
        ({
            let model = subs@.map_values(|s: Subcommand| s@);
            match r {
                Some(j) => j < subs@.len() && spec_find_sub(model, word@) == Some(j as int),
                None => spec_find_sub(model, word@) is None,
            }
        }),
{
    let ghost model = subs@.map_values(|s: Subcommand| s@);
    let mut i: usize = 0;
    while i < subs.len()
        invariant
            i <= subs@.len(),
            model == subs@.map_values(|s: Subcommand| s@),
            forall|t: int| 0 <= t < i ==> (#[trigger] model[t]).name != word@,
        decreases subs@.len() - i,
    {
        if text_eq(&subs[i].name, word.as_str()) {
            proof {
                lemma_find_sub_present(model, word@, i as int);
            }
            return Some(i);
        }
        i += 1;
    }
    proof {
        lemma_find_sub_absent(model, word@);
    }
    None
}

/// Finds the first flag one of whose tokens equals the word, if any.
pub fn find_flag(flags: &Vec<Flag>, word: &String) -> (r: Option<usize>)
    ensures
        ({
            let model = flags@.map_values(|f: Flag| f@);
            match r {
                Some(k) => k < flags@.len() && spec_find_flag(model, word@) == Some(k as int),
                None => spec_find_flag(model, word@) is None,
            }
        }),
{
    let ghost model = flags@.map_values(|f: Flag| f@);
    let mut i: usize = 0;
    while i < flags.len()
        invariant
            i <= flags@.len(),
            model == flags@.map_values(|f: Flag| f@),
            forall|t: int|
                0 <= t < i ==> (#[trigger] model[t]).short != word@ && model[t].long != word@,
        decreases flags@.len() - i,
    {
        if text_eq(&flags[i].short, word.as_str()) || text_eq(&flags[i].long, word.as_str()) {
            proof {
                lemma_find_flag_present(model, word@, i as int);
            }
            return Some(i);
        }
        i += 1;
    }
    proof {
        lemma_find_flag_absent(model, word@);
    }
    None
}

/// Matches the arguments from position `start` on against the subcommand's
/// flags, producing the resolved flag values or the first usage error.
fn parse_flag_args(sub: &Subcommand, args: &Vec<String>, start: usize) -> (r: Result<
    Vec<bool>,
    UsageError,
>)
    requires
        start <= args@.len(),
    ensures
        ({
            let outcome = spec_parse_flags(
                sub@.flags,
                args.deep_view().skip(start as int),
                spec_no_flags(sub@.flags.len()),
            );
            match r {
                Ok(values) => outcome == (FlagsModel::Done { values: values@ }),
                Err(UsageError::UnknownFlag { word }) => outcome == (FlagsModel::UnknownFlag {
                    word: word@,
                }),
                Err(UsageError::RepeatedFlag { word }) => outcome == (FlagsModel::RepeatedFlag {
                    word: word@,
                }),
                Err(_) => false,
            }
        }),
{
    let ghost fm = sub@.flags;
    let m = sub.flags.len();
    let mut values: Vec<bool> = Vec::new();
    let mut k: usize = 0;
    while k < m
        invariant
            k <= m,
            m == fm.len(),
            values@ =~= spec_no_flags(k as nat),
        decreases m - k,
    {
        values.push(false);
        k += 1;
    }
    proof {
        assert(values@ =~= spec_no_flags(fm.len()));
    }
    let mut i: usize = start;
    while i < args.len()
        invariant
            start <= i <= args@.len(),
            fm == sub@.flags,
            values@.len() == fm.len(),
            spec_parse_flags(fm, args.deep_view().skip(start as int), spec_no_flags(fm.len()))
                == spec_parse_flags(fm, args.deep_view().skip(i as int), values@),
        decreases args@.len() - i,
    {
        let ghost rest = args.deep_view().skip(i as int);
        proof {
            assert(rest[0] == args.deep_view()[i as int]);
            assert(rest.drop_first() =~= args.deep_view().skip(i as int + 1));
        }
        match find_flag(&sub.flags, &args[i]) {
            Some(k) => {
                if values[k] {
                    return Err(UsageError::RepeatedFlag { word: args[i].clone() });
                }
                values.set(k, true);
            },
            None => {
                return Err(UsageError::UnknownFlag { word: args[i].clone() });
            },
        }
        i += 1;
    }
    proof {
        assert(args.deep_view().skip(i as int) =~= Seq::<Seq<char>>::empty());
    }
    Ok(values)
}

/// Matches the raw argument list (the process arguments after the program
/// name) against the grammar.  Returns the parsed invocation, or the usage
/// error on which the process must exit non-zero; the result is exactly
/// [`spec_parse`] of the grammar's and arguments' mathematical values.
pub fn parse(g: &Grammar, args: &Vec<String>) -> (r: Result<Parsed, UsageError>)
    ensures
        parse_model_of(r) == spec_parse(g@, args.deep_view()),
{
    if args.len() == 0 {
        return Err(UsageError::MissingSubcommand);
    }
    proof {
        assert(args.deep_view()[0] == args@[0]@);
    }
    let first = &args[0];
    if text_eq(first, "--version") || text_eq(first, "-V") {
        return Ok(Parsed::Version);
    }
    if text_eq(first, "--help") || text_eq(first, "-h") {
        return Ok(Parsed::Help);
    }
    match find_subcommand(&g.subcommands, first) {
        Some(j) => {
            proof {
                assert(args.deep_view().skip(1) =~= args.deep_view().drop_first());
            }
            match parse_flag_args(&g.subcommands[j], args, 1) {
                Ok(values) => Ok(Parsed::Sub { index: j, flags: values }),
                Err(e) => Err(e),
            }
        },
        None => Err(UsageError::UnknownSubcommand { word: first.clone() }),
    }
}

} // verus!
