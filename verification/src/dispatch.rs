//! Dispatch: matching a parsed invocation against the closed set of known
//! handlers and deciding what the process must do.

use vstd::prelude::*;
use crate::grammar::{Grammar, GrammarModel, Subcommand, SubcommandModel, spec_standard_grammar};
use crate::parse::Parsed;

verus! {

/// The one effect a handler can request, beyond printing.
#[derive(PartialEq, Eq, Structural, Clone, Copy, Debug)]
pub enum Action {
    /// No effect.
    Nothing,
    /// Install the process-wide logging sink.
    InitLogging,
    /// Print the resolved version on standard output.
    PrintVersion,
    /// Print the help text on standard output.
    PrintHelp,
}

/// What a dispatched invocation asks of the process: an exit status and an
/// action.
#[derive(PartialEq, Eq, Structural, Clone, Copy, Debug)]
pub struct Outcome {
    /// The process exit status.
    pub exit_code: i32,
    /// The requested action.
    pub action: Action,
}

/// An internal invariant violation: the grammar accepted a subcommand that
/// the handler table does not know.  Fatal, and distinct from a user-facing
/// usage error.
#[derive(PartialEq, Eq, Debug)]
pub struct HandlerFault {
    /// The name of the subcommand without a handler.
    pub subcommand: String,
}

/// Whether a parsed invocation is consistent with the grammar it was parsed
/// against: a selected subcommand index lies in range and its flag values
/// are parallel to the subcommand's flags.
pub open spec fn spec_parsed_valid(g: GrammarModel, p: Parsed) -> bool {
    p matches Parsed::Sub { index, flags } ==> index < g.subcommands.len() && flags@.len()
        == g.subcommands[index as int].flags.len()
}

/// Whether some flag of the given name is set among the resolved values.
pub open spec fn spec_flag_value(s: SubcommandModel, values: Seq<bool>, name: Seq<char>) -> bool {
    exists|k: int|
        0 <= k < s.flags.len() && (#[trigger] s.flags[k]).name == name && values[k]
}

/// Under the grammar invariant (flag names unique within a command), the
/// lookup reads exactly the value of the one flag of the given name.
pub proof fn lemma_flag_value_unique(
    s: SubcommandModel,
    values: Seq<bool>,
    name: Seq<char>,
    k: int,
)
    requires
        crate::grammar::flags_wf(s.flags),
        0 <= k < s.flags.len(),
        s.flags[k].name == name,
        values.len() == s.flags.len(),
    ensures
        spec_flag_value(s, values, name) == values[k],
{
    if spec_flag_value(s, values, name) {
        let w = choose|w: int|
            0 <= w < s.flags.len() && (#[trigger] s.flags[w]).name == name && values[w];
        assert(w == k);
    }
}

/// Reads the resolved value of the flag of the given name.
pub fn flag_is_set(sub: &Subcommand, values: &Vec<bool>, name: &str) -> (r: bool)
    requires
        values@.len() == sub@.flags.len(),
    ensures
        r == spec_flag_value(sub@, values@, name@),
{
    let mut i: usize = 0;
    let mut found = false;
    while i < sub.flags.len()
        invariant
            i <= sub@.flags.len(),
            values@.len() == sub@.flags.len(),
            found == exists|k: int|
                0 <= k < i && (#[trigger] sub@.flags[k]).name == name@ && values@[k],
        decreases sub@.flags.len() - i,
    {
        if crate::parse::text_eq(&sub.flags[i].name, name) && values[i] {
            found = true;
            proof {
                assert(sub@.flags[i as int].name == name@ && values@[i as int]);
            }
        } else {
            proof {
                assert(!(sub@.flags[i as int].name == name@ && values@[i as int]));
            }
        }
        i += 1;
    }
    found
}

/// Matches a parsed invocation against the handler table (one handler,
/// `run`).  For `run`, the outcome is success with the logging action when
/// the `verbose` flag is set.  A subcommand name without a handler is an
/// internal fault, never a user-facing error.
pub fn dispatch(g: &Grammar, p: &Parsed) -> (r: Result<Outcome, HandlerFault>)
    requires
        spec_parsed_valid(g@, *p),
    ensures
        *p is Version ==> r == Ok::<Outcome, HandlerFault>(
            Outcome { exit_code: 0, action: Action::PrintVersion },
        ),
        *p is Help ==> r == Ok::<Outcome, HandlerFault>(
            Outcome { exit_code: 0, action: Action::PrintHelp },
        ),
        (match *p {
            Parsed::Sub { index, flags } => {
                let s = g@.subcommands[index as int];
                if s.name == "run"@ {
                    r == Ok::<Outcome, HandlerFault>(
                        Outcome {
                            exit_code: 0,
                            action: if spec_flag_value(s, flags@, "verbose"@) {
                                Action::InitLogging
                            } else {
                                Action::Nothing
                            },
                        },
                    )
                } else {
                    r matches Err(f) && f.subcommand@ == s.name
                }
            },
            _ => true,
        }),
{
    match p {
        Parsed::Version => Ok(Outcome { exit_code: 0, action: Action::PrintVersion }),
        Parsed::Help => Ok(Outcome { exit_code: 0, action: Action::PrintHelp }),
        Parsed::Sub { index, flags } => {
            let sub = &g.subcommands[*index];
            if crate::parse::text_eq(&sub.name, "run") {
                let verbose = flag_is_set(sub, flags, "verbose");
                Ok(
                    Outcome {
                        exit_code: 0,
                        action: if verbose {
                            Action::InitLogging
                        } else {
                            Action::Nothing
                        },
                    },
                )
            } else {
                Err(HandlerFault { subcommand: sub.name.clone() })
            }
        },
    }
}

/// The grammar and the handler table agree: every subcommand the standard
/// grammar registers is one the dispatcher knows how to run, so dispatch
/// over that grammar never reports an internal fault.
pub proof fn lemma_handlers_cover_grammar(version: Seq<char>, j: int)
    requires
        0 <= j < spec_standard_grammar(version).subcommands.len(),
    ensures
        spec_standard_grammar(version).subcommands[j].name == "run"@,
{
    assert(spec_standard_grammar(version).subcommands.len() == 1);
}

} // verus!
