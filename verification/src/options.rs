//! Boolean option toggles and their command-line flags.
//!
//! Each toggle independently contributes zero or one fixed flag token, in an
//! order fixed by declaration, never by the caller. The mapping is purely
//! additive: no toggle removes or rewrites another toggle's flag.

use vstd::prelude::*;

verus! {

/// The independent boolean toggles a request may set. Toggles that do not
/// apply to a given command are accepted and passed through unchanged; the
/// mapping is per-toggle, not per-command.
#[derive(Clone, Copy, PartialEq, Eq, Structural, Debug)]
pub struct Options {
    pub show_ssa: bool,
    pub deny_warnings: bool,
    pub silence_warnings: bool,
    pub print_acir: bool,
}

pub open spec fn ssa_flag() -> Seq<char> {
    "--show-ssa"@
}

pub open spec fn deny_flag() -> Seq<char> {
    "--deny-warnings"@
}

pub open spec fn silence_flag() -> Seq<char> {
    "--silence-warnings"@
}

pub open spec fn acir_flag() -> Seq<char> {
    "--print-acir"@
}

/// The flag tokens of the enabled toggles, in declaration order.
pub open spec fn spec_args(o: Options) -> Seq<Seq<char>> {
    (if o.show_ssa {
        seq![ssa_flag()]
    } else {
        Seq::<Seq<char>>::empty()
    }) + (if o.deny_warnings {
        seq![deny_flag()]
    } else {
        Seq::<Seq<char>>::empty()
    }) + (if o.silence_warnings {
        seq![silence_flag()]
    } else {
        Seq::<Seq<char>>::empty()
    }) + (if o.print_acir {
        seq![acir_flag()]
    } else {
        Seq::<Seq<char>>::empty()
    })
}

impl Options {
    /// The flag tokens of the enabled toggles, in declaration order.
    pub fn args(self) -> (r: Vec<&'static str>)
        ensures
            r.deep_view() == spec_args(self),
    {
        let mut args: Vec<&'static str> = Vec::new();

        if self.show_ssa {
            args.push("--show-ssa");
        }

        if self.deny_warnings {
            args.push("--deny-warnings");
        }

        if self.silence_warnings {
            args.push("--silence-warnings");
        }

        if self.print_acir {
            args.push("--print-acir");
        }

        proof {
            assert(args.deep_view() =~~= spec_args(self));
        }
        args
    }
}

/// Where a flag token stands in the declaration order of the toggles.
pub open spec fn flag_position(f: Seq<char>) -> int {
    if f == ssa_flag() {
        0
    } else if f == deny_flag() {
        1
    } else if f == silence_flag() {
        2
    } else if f == acir_flag() {
        3
    } else {
        4
    }
}

/// The four flag tokens are pairwise distinct.
pub proof fn lemma_flags_distinct()
    ensures
        ssa_flag() != deny_flag(),
        ssa_flag() != silence_flag(),
        ssa_flag() != acir_flag(),
        deny_flag() != silence_flag(),
        deny_flag() != acir_flag(),
        silence_flag() != acir_flag(),
{
    reveal_strlit("--show-ssa");
    reveal_strlit("--deny-warnings");
    reveal_strlit("--silence-warnings");
    reveal_strlit("--print-acir");
    assert(ssa_flag().len() == 10);
    assert(deny_flag().len() == 15);
    assert(silence_flag().len() == 18);
    assert(acir_flag().len() == 12);
}

/// A toggle's flag appears in the argument list if and only if the toggle is
/// set, it appears at most once (the positions of the listed flags increase
/// strictly, so no token repeats), and flags stand in declaration order
/// whatever subset of toggles is set.
pub proof fn lemma_args_flags_once_in_declaration_order(o: Options)
    ensures
        spec_args(o).contains(ssa_flag()) <==> o.show_ssa,
        spec_args(o).contains(deny_flag()) <==> o.deny_warnings,
        spec_args(o).contains(silence_flag()) <==> o.silence_warnings,
        spec_args(o).contains(acir_flag()) <==> o.print_acir,
        forall|i: int, j: int|
            0 <= i < j < spec_args(o).len() ==> flag_position(spec_args(o)[i]) < flag_position(
                spec_args(o)[j],
            ),
{
    lemma_flags_distinct();
    let s = spec_args(o);
    let la: int = if o.show_ssa {
        1
    } else {
        0
    };
    let lb: int = if o.deny_warnings {
        1
    } else {
        0
    };
    let lc: int = if o.silence_warnings {
        1
    } else {
        0
    };
    let ld: int = if o.print_acir {
        1
    } else {
        0
    };
    assert(s.len() == la + lb + lc + ld);
    assert forall|k: int| 0 <= k < s.len() implies {
        ||| (k < la && s[k] == ssa_flag() && o.show_ssa)
        ||| (la <= k < la + lb && s[k] == deny_flag() && o.deny_warnings)
        ||| (la + lb <= k < la + lb + lc && s[k] == silence_flag() && o.silence_warnings)
        ||| (la + lb + lc <= k < la + lb + lc + ld && s[k] == acir_flag() && o.print_acir)
    } by {}
    if o.show_ssa {
        assert(s[0] == ssa_flag());
        assert(s.contains(ssa_flag()));
    }
    if o.deny_warnings {
        assert(s[la] == deny_flag());
        assert(s.contains(deny_flag()));
    }
    if o.silence_warnings {
        assert(s[la + lb] == silence_flag());
        assert(s.contains(silence_flag()));
    }
    if o.print_acir {
        assert(s[la + lb + lc] == acir_flag());
        assert(s.contains(acir_flag()));
    }
}

impl Default for Options {
    /// A request that sets no query parameter gets every toggle off.
    fn default() -> (r: Options)
        ensures
            r == Options::spec_default(),
    {
        Options { show_ssa: false, deny_warnings: false, silence_warnings: false, print_acir: false }
    }
}

impl Options {
    pub open spec fn spec_default() -> Options {
        Options { show_ssa: false, deny_warnings: false, silence_warnings: false, print_acir: false }
    }
}

} // verus!
