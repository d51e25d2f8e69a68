//! The command grammar: a tree of named nodes, each with a description and a
//! set of boolean flags.  Built once per invocation and immutable afterwards.

use vstd::prelude::*;

verus! {

/// A boolean flag of a subcommand: set when its short or long token appears
/// among the arguments.
pub struct Flag {
    /// The flag's name, unique within its command.
    pub name: String,
    /// The short token that sets the flag, dash included (`"-v"`).
    pub short: String,
    /// The long token that sets the flag, dashes included (`"--verbose"`).
    pub long: String,
    /// Help text for the flag.
    pub help: String,
}

/// The mathematical value of a [`Flag`]: its four strings as character
/// sequences.
#[verifier::ext_equal]
pub struct FlagModel {
    /// The flag's name.
    pub name: Seq<char>,
    /// The short token, dash included.
    pub short: Seq<char>,
    /// The long token, dashes included.
    pub long: Seq<char>,
    /// Help text.
    pub help: Seq<char>,
}

impl View for Flag {
    type V = FlagModel;

    open spec fn view(&self) -> FlagModel {
        FlagModel {
            name: self.name@,
            short: self.short@,
            long: self.long@,
            help: self.help@,
        }
    }
}

/// A named action of the program, selected as the first positional argument,
/// carrying its own boolean flags.
pub struct Subcommand {
    /// The subcommand's name, unique among siblings.
    pub name: String,
    /// A human-readable description.
    pub about: String,
    /// The subcommand's flags.
    pub flags: Vec<Flag>,
}

/// The mathematical value of a [`Subcommand`].
#[verifier::ext_equal]
pub struct SubcommandModel {
    /// The subcommand's name.
    pub name: Seq<char>,
    /// A human-readable description.
    pub about: Seq<char>,
    /// The subcommand's flags.
    pub flags: Seq<FlagModel>,
}

impl View for Subcommand {
    type V = SubcommandModel;

    open spec fn view(&self) -> SubcommandModel {
        SubcommandModel {
            name: self.name@,
            about: self.about@,
            flags: self.flags@.map_values(|f: Flag| f@),
        }
    }
}

/// The root of the command grammar: the program's identity and its
/// registered subcommands.
pub struct Grammar {
    /// The program name.
    pub program: String,
    /// The resolved version string.
    pub version: String,
    /// A human-readable description of the program.
    pub about: String,
    /// The registered subcommands.
    pub subcommands: Vec<Subcommand>,
}

/// The mathematical value of a [`Grammar`].
#[verifier::ext_equal]
pub struct GrammarModel {
    /// The program name.
    pub program: Seq<char>,
    /// The resolved version string.
    pub version: Seq<char>,
    /// A human-readable description of the program.
    pub about: Seq<char>,
    /// The registered subcommands.
    pub subcommands: Seq<SubcommandModel>,
}

impl View for Grammar {
    type V = GrammarModel;

    open spec fn view(&self) -> GrammarModel {
        GrammarModel {
            program: self.program@,
            version: self.version@,
            about: self.about@,
            subcommands: self.subcommands@.map_values(|s: Subcommand| s@),
        }
    }
}

/// Flag names are unique within a command.
pub open spec fn flags_wf(flags: Seq<FlagModel>) -> bool {
    forall|i: int, j: int|
        0 <= i < j < flags.len() ==> (#[trigger] flags[i]).name != (#[trigger] flags[j]).name
}

/// The grammar invariant: subcommand names are unique among siblings, and
/// each subcommand's flag names are unique within it.
pub open spec fn grammar_wf(g: GrammarModel) -> bool {
    &&& forall|i: int, j: int|
        0 <= i < j < g.subcommands.len() ==> (#[trigger] g.subcommands[i]).name != (
        #[trigger] g.subcommands[j]).name
    &&& forall|i: int|
        0 <= i < g.subcommands.len() ==> flags_wf((#[trigger] g.subcommands[i]).flags)
}

/// The sentinel substituted for the version when none is available at build
/// time.
pub open spec fn spec_fallback_version() -> Seq<char> {
    "unknown"@
}

/// The resolved version: the build-time version string when present, else
/// the fallback sentinel.
pub open spec fn spec_resolved_version(build_version: Option<Seq<char>>) -> Seq<char> {
    match build_version {
        Some(v) => v,
        None => spec_fallback_version(),
    }
}

/// The one grammar this program builds: program `autoply`, the given version,
/// and a single subcommand `run` with one boolean flag `verbose`
/// (short `-v`, long `--verbose`).
pub open spec fn spec_standard_grammar(version: Seq<char>) -> GrammarModel {
    GrammarModel {
        program: "autoply"@,
        version: version,
        about: "Autoply - A tool for automating job applications"@,
        subcommands: seq![
            SubcommandModel {
                name: "run"@,
                about: "Start Autoply"@,
                flags: seq![
                    FlagModel {
                        name: "verbose"@,
                        short: "-v"@,
                        long: "--verbose"@,
                        help: "Enable printing logs to stdout"@,
                    },
                ],
            },
        ],
    }
}

/// Resolves the program version: the build-time version string when present,
/// else the literal `"unknown"`.
pub fn resolve_version(build_version: Option<&str>) -> (r: String)
    ensures
        r@ == spec_resolved_version(match build_version {
            Some(v) => Some(v@),
            None => None,
        }),
{
    match build_version {
        Some(v) => String::from_str(v),
        None => String::from_str("unknown"),
    }
}

/// The standard grammar holds its invariant.
pub proof fn lemma_standard_grammar_wf(version: Seq<char>)
    ensures
        grammar_wf(spec_standard_grammar(version)),
{
}

/// Builds the command grammar: fixed program name and description, the given
/// build-time version (with the `"unknown"` fallback), and the one registered
/// subcommand `run` with its `verbose` flag.  Pure and deterministic given
/// the same build-time version value.
pub fn build_grammar(build_version: Option<&str>) -> (g: Grammar)
    ensures
        g@ == spec_standard_grammar(spec_resolved_version(match build_version {
            Some(v) => Some(v@),
            None => None,
        })),
        grammar_wf(g@),
{
    let verbose = Flag {
        name: String::from_str("verbose"),
        short: String::from_str("-v"),
        long: String::from_str("--verbose"),
        help: String::from_str("Enable printing logs to stdout"),
    };
    let mut flags: Vec<Flag> = Vec::new();
    flags.push(verbose);
    let run = Subcommand {
        name: String::from_str("run"),
        about: String::from_str("Start Autoply"),
        flags,
    };
    let mut subcommands: Vec<Subcommand> = Vec::new();
    subcommands.push(run);
    let g = Grammar {
        program: String::from_str("autoply"),
        version: resolve_version(build_version),
        about: String::from_str("Autoply - A tool for automating job applications"),
        subcommands,
    };
    proof {
        let version = spec_resolved_version(match build_version {
            Some(v) => Some(v@),
            None => None,
        });
        assert(g@.subcommands =~~= spec_standard_grammar(version).subcommands);
        assert(g@ =~~= spec_standard_grammar(version));
    }
    g
}

} // verus!
