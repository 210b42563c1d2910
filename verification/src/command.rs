//! Logical operations and their toolchain argument vectors.

use vstd::prelude::*;

use crate::options::Options;
use crate::options::spec_args;

verus! {

/// The logical operations the service exposes. `Fmt` ignores the toggles and
/// is followed by a read-back of the (possibly rewritten) source; `Version`
/// ignores the workspace content and passes the toolchain's own version flag
/// directly instead of a sub-command name.
#[derive(Clone, Copy, PartialEq, Eq, Structural, Debug)]
pub enum Command {
    Check,
    Compile,
    Execute,
    Fmt,
    Version,
}

/// The first token of each operation's argument vector.
pub open spec fn spec_command_token(c: Command) -> Seq<char> {
    match c {
        Command::Check => "check"@,
        Command::Compile => "compile"@,
        Command::Execute => "execute"@,
        Command::Fmt => "fmt"@,
        Command::Version => "--version"@,
    }
}

/// The toolchain argument vector of one request: the command token, followed
/// by the enabled toggles' flags in declaration order. `Fmt` and `Version`
/// bypass the toggles entirely.
pub open spec fn spec_to_argv(c: Command, o: Options) -> Seq<Seq<char>> {
    match c {
        Command::Fmt => seq!["fmt"@],
        Command::Version => seq!["--version"@],
        _ => seq![spec_command_token(c)] + spec_args(o),
    }
}

impl Command {
    /// The token under which the toolchain knows this operation.
    pub fn token(&self) -> (r: &'static str)
        ensures
            r@ == spec_command_token(*self),
    {
        match self {
            Command::Check => "check",
            Command::Compile => "compile",
            Command::Execute => "execute",
            Command::Fmt => "fmt",
            Command::Version => "--version",
        }
    }
}

/// Builds the argument vector handed to the toolchain inside the sandbox.
pub fn to_argv(command: &Command, options: Options) -> (r: Vec<String>)
    ensures
        r.deep_view() == spec_to_argv(*command, options),
{
    match command {
        Command::Fmt => {
            let mut v: Vec<String> = Vec::new();
            v.push(String::from_str("fmt"));
            proof {
                assert(v.deep_view() =~~= spec_to_argv(*command, options));
            }
            v
        },
        Command::Version => {
            let mut v: Vec<String> = Vec::new();
            v.push(String::from_str("--version"));
            proof {
                assert(v.deep_view() =~~= spec_to_argv(*command, options));
            }
            v
        },
        _ => {
            let mut v: Vec<String> = Vec::new();
            v.push(String::from_str(command.token()));
            let flags = options.args();
            let mut i: usize = 0;
            while i < flags.len()
                invariant
                    i <= flags.len(),
                    flags.deep_view() == spec_args(options),
                    v@.len() == 1 + i as int,
                    v@[0]@ == spec_command_token(*command),
                    forall|k: int| 0 <= k < i as int ==> #[trigger] v@[k + 1]@ == spec_args(
                        options,
                    )[k],
                decreases flags.len() - i,
            {
                let flag_i: &'static str = flags[i];
                proof {
                    assert(flag_i@ == flags.deep_view()[i as int]);
                }
                v.push(flag_i.to_owned());
                i += 1;
            }
            proof {
                assert forall|k: int| 0 <= k < v@.len() implies v.deep_view()[k] == (
                seq![spec_command_token(*command)] + spec_args(options))[k] by {
                    if k > 0 {
                        assert(v@[(k - 1) + 1]@ == spec_args(options)[k - 1]);
                    }
                }
                assert(v.deep_view() =~~= spec_to_argv(*command, options));
            }
            v
        },
    }
}

/// The mapper is deterministic: for one `(command, options)` pair it admits
/// exactly one argument vector, so any two results of `to_argv` on equal
/// inputs are equal, element for element and in the same order.
pub proof fn lemma_to_argv_deterministic(
    c: Command,
    o: Options,
    r1: Seq<Seq<char>>,
    r2: Seq<Seq<char>>,
)
    requires
        r1 == spec_to_argv(c, o),
        r2 == spec_to_argv(c, o),
    ensures
        r1 == r2,
{
}

/// In a check, compile or execute vector the command token comes first and
/// everything after it is exactly the enabled toggles' flags — so, with
/// `lemma_args_flags_once_in_declaration_order`, an enabled toggle's flag
/// appears exactly once, in declaration order, whatever subset is set.
pub proof fn lemma_argv_token_then_flags(c: Command, o: Options)
    requires
        c is Check || c is Compile || c is Execute,
    ensures
        spec_to_argv(c, o).len() == 1 + spec_args(o).len(),
        spec_to_argv(c, o)[0] == spec_command_token(c),
        spec_to_argv(c, o).subrange(1, spec_to_argv(c, o).len() as int) == spec_args(o),
{
    assert(spec_to_argv(c, o).subrange(1, spec_to_argv(c, o).len() as int) =~= spec_args(o));
}

/// With every toggle off, the argument vector is exactly the command token
/// and nothing else.
pub proof fn lemma_no_toggles_token_only(c: Command, o: Options)
    requires
        !o.show_ssa,
        !o.deny_warnings,
        !o.silence_warnings,
        !o.print_acir,
    ensures
        spec_to_argv(c, o) == seq![spec_command_token(c)],
{
    assert(spec_args(o) =~= Seq::<Seq<char>>::empty());
    assert(spec_to_argv(c, o) =~~= seq![spec_command_token(c)]);
}

} // verus!
