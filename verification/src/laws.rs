//! General laws of the rewriter, stated and proved once and for all
//! inputs.
//!
//! Scenario-level checks (concrete expressions and their expected
//! rewrites) live in the test suite; everything here is universally
//! quantified.

use vstd::prelude::*;

use crate::expr::SpecExpr;
use crate::ident::{SpecParseError, ZkvmIdent, spec_canonical_name, spec_normalize, spec_resolve,
    spec_suggest};
use crate::rewrite::{SpecRewriteError, spec_predicate, spec_transform, spec_transform_args};

verus! {

/// Every canonical spelling resolves to its own backend, exactly.
pub proof fn lemma_canonical_resolves(id: ZkvmIdent)
    ensures
        spec_resolve(spec_canonical_name(id)) == Some(id),
{
    reveal_strlit("risc0");
    reveal_strlit("sp1");
    reveal_strlit("pico");
    reveal_strlit("ziren");
    reveal_strlit("zisk");
    assert("risc0"@.len() == 5 && "sp1"@.len() == 3 && "pico"@.len() == 4 && "ziren"@.len() == 5
        && "zisk"@.len() == 4);
    assert("risc0"@[0] == 'r' && "ziren"@[0] == 'z' && "pico"@[0] == 'p' && "zisk"@[0] == 'z'
        && "zisk"@[1] == 'i' && "pico"@[1] == 'i');
    assert("pico"@[2] == 'c' && "zisk"@[2] == 's');
    assert("sp1"@ != "risc0"@);
    assert("pico"@ != "risc0"@ && "pico"@ != "sp1"@);
    assert("ziren"@ != "risc0"@ && "ziren"@ != "sp1"@ && "ziren"@ != "pico"@);
    assert("zisk"@ != "risc0"@ && "zisk"@ != "sp1"@ && "zisk"@ != "pico"@ && "zisk"@
        != "ziren"@);
}

/// Rewriting a bare canonical atom produces exactly that backend's
/// predicate.
pub proof fn lemma_shorthand_expands_to_predicate(id: ZkvmIdent)
    ensures
        spec_transform(SpecExpr::Atom(spec_canonical_name(id))) == Ok::<
            SpecExpr,
            SpecRewriteError,
        >(spec_predicate(id)),
{
    lemma_canonical_resolves(id);
}

/// The full discriminator form `zkvm = "<name>"` rewrites to the same
/// predicate as the shorthand atom.
pub proof fn lemma_full_form_matches_shorthand(id: ZkvmIdent)
    ensures
        spec_transform(
            SpecExpr::Assign {
                key: "zkvm"@,
                rhs: crate::expr::SpecRhs::Str(spec_canonical_name(id)),
            },
        ) == spec_transform(SpecExpr::Atom(spec_canonical_name(id))),
{
    lemma_canonical_resolves(id);
}

/// The canonical names themselves are in the alias table, so a token
/// whose normalized form equals a canonical spelling - any case or
/// whitespace variant of a correct name - is suggested exactly that
/// name.
pub proof fn lemma_canonical_names_suggest_themselves(id: ZkvmIdent)
    ensures
        spec_suggest(spec_canonical_name(id)) == Some(id),
{
    reveal_strlit("risc0");
    reveal_strlit("sp1");
    reveal_strlit("pico");
    reveal_strlit("ziren");
    reveal_strlit("zisk");
    reveal_strlit("r0");
    reveal_strlit("succinct");
    reveal_strlit("brevis");
    reveal_strlit("brevis-pico");
    reveal_strlit("picovm");
    reveal_strlit("pico-vm");
    reveal_strlit("zkm");
    assert("risc0"@.len() == 5 && "sp1"@.len() == 3 && "pico"@.len() == 4 && "ziren"@.len() == 5
        && "zisk"@.len() == 4 && "r0"@.len() == 2 && "succinct"@.len() == 8 && "brevis"@.len()
        == 6 && "brevis-pico"@.len() == 11 && "picovm"@.len() == 6 && "pico-vm"@.len() == 7
        && "zkm"@.len() == 3);
    assert("risc0"@[0] == 'r' && "ziren"@[0] == 'z' && "pico"@[0] == 'p' && "zisk"@[0] == 'z');
}

/// A bare atom that is not a canonical spelling passes through unchanged,
/// whatever it is.
pub proof fn lemma_unknown_atom_unchanged(s: Seq<char>)
    requires
        spec_resolve(s) is None,
    ensures
        spec_transform(SpecExpr::Atom(s)) == Ok::<SpecExpr, SpecRewriteError>(SpecExpr::Atom(s)),
{
}

/// In particular, a near miss - a token that is not canonical but whose
/// normalized form matches a canonical name or a registered alias - still
/// passes through unchanged as an atom.  No case folding happens on the
/// silent path.
pub proof fn lemma_near_miss_atom_unchanged(s: Seq<char>)
    requires
        spec_resolve(s) is None,
        spec_suggest(spec_normalize(s)) is Some,
    ensures
        spec_transform(SpecExpr::Atom(s)) == Ok::<SpecExpr, SpecRewriteError>(SpecExpr::Atom(s)),
{
}

/// The same non-canonical token used as the discriminator's value is a
/// hard error, carrying the token and the alias table's suggestion.
pub proof fn lemma_unknown_discriminator_rejected(s: Seq<char>)
    requires
        spec_resolve(s) is None,
    ensures
        spec_transform(SpecExpr::Assign { key: "zkvm"@, rhs: crate::expr::SpecRhs::Str(s) })
            == Err::<SpecExpr, SpecRewriteError>(
            SpecRewriteError::UnknownZkvm(
                SpecParseError {
                    input: s,
                    suggestion: match spec_suggest(spec_normalize(s)) {
                        Some(id) => Some(spec_canonical_name(id)),
                        None => None,
                    },
                },
            ),
        ),
{
}

/// A successful argument list rewrite is elementwise and order-preserving,
/// and it succeeds exactly when every element succeeds.
proof fn lemma_transform_args_elementwise(args: Seq<SpecExpr>)
    ensures
        spec_transform_args(args) matches Ok(out) ==> {
            &&& out.len() == args.len()
            &&& forall|i: int|
                0 <= i < args.len() ==> spec_transform(args[i]) == Ok::<
                    SpecExpr,
                    SpecRewriteError,
                >(out[i])
        },
        spec_transform_args(args) is Ok <==> (forall|i: int|
            0 <= i < args.len() ==> spec_transform(args[i]) is Ok),
    decreases args,
{
    if args.len() > 0 {
        lemma_transform_args_elementwise(args.drop_last());
        assert(forall|i: int| 0 <= i < args.len() - 1 ==> args.drop_last()[i] == args[i]);
        assert(args.last() == args[args.len() - 1]);
    }
}

/// Rewriting a combinator call never changes the call's name or its
/// arity; on success each output argument is the rewrite of the input
/// argument in the same position, and the call succeeds exactly when all
/// of its arguments do.
pub proof fn lemma_call_preserves_structure(name: Seq<char>, args: Seq<SpecExpr>)
    ensures
        spec_transform(SpecExpr::Call { name, args }) matches Ok(out) ==> {
            &&& out is Call
            &&& out->name == name
            &&& out->args.len() == args.len()
            &&& forall|i: int|
                0 <= i < args.len() ==> spec_transform(args[i]) == Ok::<
                    SpecExpr,
                    SpecRewriteError,
                >(out->args[i])
        },
        spec_transform(SpecExpr::Call { name, args }) is Ok <==> (forall|i: int|
            0 <= i < args.len() ==> spec_transform(args[i]) is Ok),
    decreases args,
{
    lemma_transform_args_elementwise(args);
}

/// `not(arg)` - like any single-argument call - rewrites exactly its
/// argument and keeps the wrapper: a successful argument gives
/// `not(<rewritten>)`, a failing argument fails the whole call with the
/// same error.
pub proof fn lemma_not_rewrites_single_argument(arg: SpecExpr)
    ensures
        spec_transform(arg) matches Ok(t) ==> spec_transform(
            SpecExpr::Call { name: "not"@, args: seq![arg] },
        ) == Ok::<SpecExpr, SpecRewriteError>(SpecExpr::Call { name: "not"@, args: seq![t] }),
        spec_transform(arg) matches Err(e) ==> spec_transform(
            SpecExpr::Call { name: "not"@, args: seq![arg] },
        ) == Err::<SpecExpr, SpecRewriteError>(e),
{
    let args = seq![arg];
    assert(args.drop_last() =~= Seq::<SpecExpr>::empty());
    assert(args.last() == arg);
    assert(spec_transform_args(Seq::<SpecExpr>::empty()) == Ok::<Seq<SpecExpr>, SpecRewriteError>(
        Seq::<SpecExpr>::empty(),
    ));
    match spec_transform(arg) {
        Ok(t) => {
            assert(Seq::<SpecExpr>::empty().push(t) =~= seq![t]);
        },
        Err(_) => {},
    }
}

/// Does the expression contain a recognized backend reference, in either
/// the shorthand (canonical atom) or the full (discriminator assignment
/// with a canonical value) form?
pub open spec fn spec_contains_canonical(e: SpecExpr) -> bool
    decreases e,
{
    match e {
        SpecExpr::Atom(name) => spec_resolve(name) is Some,
        SpecExpr::Assign { key, rhs } => key == "zkvm"@ && match rhs {
            crate::expr::SpecRhs::Str(v) => spec_resolve(v) is Some,
            crate::expr::SpecRhs::Other(_) => false,
        },
        SpecExpr::AssignOther => false,
        SpecExpr::Call { name, args } => spec_args_contain_canonical(args),
        SpecExpr::Other => false,
    }
}

/// Does any expression of the list contain a backend reference?
pub open spec fn spec_args_contain_canonical(args: Seq<SpecExpr>) -> bool
    decreases args,
{
    if args.len() == 0 {
        false
    } else {
        spec_args_contain_canonical(args.drop_last()) || spec_contains_canonical(args.last())
    }
}

proof fn lemma_args_without_canonical_noop(args: Seq<SpecExpr>)
    requires
        !spec_args_contain_canonical(args),
    ensures
        spec_transform_args(args) matches Ok(out) ==> out == args,
    decreases args,
{
    if args.len() > 0 {
        lemma_args_without_canonical_noop(args.drop_last());
        lemma_rewrite_without_canonical_is_noop(args.last());
        match spec_transform_args(args) {
            Ok(out) => {
                assert(out =~= args);
            },
            Err(_) => {},
        }
    }
}

/// Idempotence of shape: an expression that contains no backend reference
/// rewrites - when it rewrites at all - to an expression equal to the
/// input.  (An invalid shape, or the reserved key with an unresolvable
/// value, is still an error; rewriting recovers nothing.)
pub proof fn lemma_rewrite_without_canonical_is_noop(e: SpecExpr)
    requires
        !spec_contains_canonical(e),
    ensures
        spec_transform(e) matches Ok(out) ==> out == e,
    decreases e,
{
    match e {
        SpecExpr::Call { name, args } => {
            lemma_args_without_canonical_noop(args);
        },
        _ => {},
    }
}

/// Appending an expression to an argument list contains a backend
/// reference exactly when either part does.
proof fn lemma_args_contain_push(args: Seq<SpecExpr>, e: SpecExpr)
    ensures
        spec_args_contain_canonical(args.push(e)) == (spec_args_contain_canonical(args)
            || spec_contains_canonical(e)),
{
    assert(args.push(e).drop_last() =~= args);
    assert(args.push(e).last() == e);
}

/// No canonical predicate contains a backend reference of its own: the
/// predicate facts are ordinary target atoms and assignments.
pub proof fn lemma_predicate_contains_no_canonical(id: ZkvmIdent)
    ensures
        !spec_contains_canonical(spec_predicate(id)),
{
    reveal_strlit("risc0");
    reveal_strlit("sp1");
    reveal_strlit("pico");
    reveal_strlit("ziren");
    reveal_strlit("zisk");
    reveal_strlit("zkvm");
    reveal_strlit("zkvm_pico");
    reveal_strlit("target_os");
    reveal_strlit("target_vendor");
    assert("risc0"@.len() == 5 && "sp1"@.len() == 3 && "pico"@.len() == 4 && "ziren"@.len() == 5
        && "zisk"@.len() == 4 && "zkvm"@.len() == 4 && "zkvm_pico"@.len() == 9
        && "target_os"@.len() == 9 && "target_vendor"@.len() == 13);
    assert("zkvm"@[0] == 'z' && "pico"@[0] == 'p' && "zisk"@[2] == 's' && "zkvm"@[2] == 'v');
    let os_fact = SpecExpr::Assign { key: "target_os"@, rhs: crate::expr::SpecRhs::Str("zkvm"@) };
    assert(!spec_contains_canonical(os_fact));
    let flag = SpecExpr::Atom("zkvm_pico"@);
    assert(spec_resolve("zkvm_pico"@) is None);
    assert(!spec_contains_canonical(flag));
    let empty = Seq::<SpecExpr>::empty();
    assert(!spec_args_contain_canonical(empty));
    lemma_args_contain_push(empty, flag);
    let not_call = SpecExpr::Call { name: "not"@, args: seq![flag] };
    assert(!spec_contains_canonical(not_call));
    let vendors = seq!["risc0"@, "succinct"@, "zkm"@, "zisk"@];
    assert forall|k: int| 0 <= k < vendors.len() implies !spec_contains_canonical(
        SpecExpr::Assign { key: "target_vendor"@, rhs: crate::expr::SpecRhs::Str(vendors[k]) },
    ) by {}
    match id {
        ZkvmIdent::Risc0 => {
            let vendor = SpecExpr::Assign {
                key: "target_vendor"@,
                rhs: crate::expr::SpecRhs::Str("risc0"@),
            };
            lemma_args_contain_push(empty, os_fact);
            lemma_args_contain_push(empty.push(os_fact), vendor);
            lemma_args_contain_push(empty.push(os_fact).push(vendor), not_call);
            assert(!spec_args_contain_canonical(empty.push(os_fact).push(vendor).push(not_call)));
            assert(spec_predicate(id)->args == empty.push(os_fact).push(vendor).push(not_call));
            assert(!spec_contains_canonical(spec_predicate(id)));
        },
        ZkvmIdent::Sp1 => {
            let vendor = SpecExpr::Assign {
                key: "target_vendor"@,
                rhs: crate::expr::SpecRhs::Str("succinct"@),
            };
            lemma_args_contain_push(empty, os_fact);
            lemma_args_contain_push(empty.push(os_fact), vendor);
            assert(!spec_args_contain_canonical(empty.push(os_fact).push(vendor)));
            assert(spec_predicate(id)->args == empty.push(os_fact).push(vendor));
            assert(!spec_contains_canonical(spec_predicate(id)));
        },
        ZkvmIdent::Pico => {
            let vendor = SpecExpr::Assign {
                key: "target_vendor"@,
                rhs: crate::expr::SpecRhs::Str("risc0"@),
            };
            lemma_args_contain_push(empty, os_fact);
            lemma_args_contain_push(empty.push(os_fact), vendor);
            lemma_args_contain_push(empty.push(os_fact).push(vendor), flag);
            assert(!spec_args_contain_canonical(empty.push(os_fact).push(vendor).push(flag)));
            assert(spec_predicate(id)->args == empty.push(os_fact).push(vendor).push(flag));
            assert(!spec_contains_canonical(spec_predicate(id)));
        },
        ZkvmIdent::Ziren => {
            let vendor = SpecExpr::Assign {
                key: "target_vendor"@,
                rhs: crate::expr::SpecRhs::Str("zkm"@),
            };
            lemma_args_contain_push(empty, os_fact);
            lemma_args_contain_push(empty.push(os_fact), vendor);
            assert(!spec_args_contain_canonical(empty.push(os_fact).push(vendor)));
            assert(spec_predicate(id)->args == empty.push(os_fact).push(vendor));
            assert(!spec_contains_canonical(spec_predicate(id)));
        },
        ZkvmIdent::Zisk => {
            let vendor = SpecExpr::Assign {
                key: "target_vendor"@,
                rhs: crate::expr::SpecRhs::Str("zisk"@),
            };
            lemma_args_contain_push(empty, os_fact);
            lemma_args_contain_push(empty.push(os_fact), vendor);
            assert(!spec_args_contain_canonical(empty.push(os_fact).push(vendor)));
            assert(spec_predicate(id)->args == empty.push(os_fact).push(vendor));
            assert(!spec_contains_canonical(spec_predicate(id)));
        },
    }
}

/// A successful rewrite leaves no backend reference in its output.
pub proof fn lemma_output_contains_no_canonical(e: SpecExpr)
    ensures
        spec_transform(e) matches Ok(out) ==> !spec_contains_canonical(out),
    decreases e,
{
    match e {
        SpecExpr::Atom(name) => {
            match spec_resolve(name) {
                Some(id) => lemma_predicate_contains_no_canonical(id),
                None => {},
            }
        },
        SpecExpr::Assign { key, rhs } => {
            match rhs {
                crate::expr::SpecRhs::Str(v) => {
                    match spec_resolve(v) {
                        Some(id) => lemma_predicate_contains_no_canonical(id),
                        None => {},
                    }
                },
                crate::expr::SpecRhs::Other(_) => {},
            }
        },
        SpecExpr::Call { name, args } => {
            lemma_args_output_contain_no_canonical(args);
        },
        _ => {},
    }
}

proof fn lemma_args_output_contain_no_canonical(args: Seq<SpecExpr>)
    ensures
        spec_transform_args(args) matches Ok(out) ==> !spec_args_contain_canonical(out),
    decreases args,
{
    if args.len() > 0 {
        lemma_args_output_contain_no_canonical(args.drop_last());
        lemma_output_contains_no_canonical(args.last());
        match spec_transform_args(args) {
            Ok(out) => {
                assert(out.drop_last() == spec_transform_args(args.drop_last())->Ok_0);
                assert(out.last() == spec_transform(args.last())->Ok_0);
            },
            Err(_) => {},
        }
    }
}

/// Appending an argument to a list rewrite: the list result extends by
/// the argument's own rewrite, errors propagating as before.
proof fn lemma_transform_args_push(args: Seq<SpecExpr>, e: SpecExpr)
    ensures
        spec_transform_args(args.push(e)) == (match spec_transform_args(args) {
            Ok(front) => match spec_transform(e) {
                Ok(t) => Ok::<Seq<SpecExpr>, SpecRewriteError>(front.push(t)),
                Err(err) => Err::<Seq<SpecExpr>, SpecRewriteError>(err),
            },
            Err(err) => Err::<Seq<SpecExpr>, SpecRewriteError>(err),
        }),
{
    assert(args.push(e).drop_last() =~= args);
    assert(args.push(e).last() == e);
}

/// A canonical predicate rewrites to itself: its facts are ordinary
/// target atoms and assignments that the rewriter passes through.
pub proof fn lemma_predicate_rewrites_to_itself(id: ZkvmIdent)
    ensures
        spec_transform(spec_predicate(id)) == Ok::<SpecExpr, SpecRewriteError>(spec_predicate(id)),
{
    reveal_strlit("risc0");
    reveal_strlit("sp1");
    reveal_strlit("pico");
    reveal_strlit("ziren");
    reveal_strlit("zisk");
    reveal_strlit("zkvm");
    reveal_strlit("zkvm_pico");
    reveal_strlit("target_os");
    reveal_strlit("target_vendor");
    assert("risc0"@.len() == 5 && "sp1"@.len() == 3 && "pico"@.len() == 4 && "ziren"@.len() == 5
        && "zisk"@.len() == 4 && "zkvm"@.len() == 4 && "zkvm_pico"@.len() == 9
        && "target_os"@.len() == 9 && "target_vendor"@.len() == 13);
    assert("zkvm"@[0] == 'z' && "pico"@[0] == 'p' && "zisk"@[2] == 's' && "zkvm"@[2] == 'v');
    let os_fact = SpecExpr::Assign { key: "target_os"@, rhs: crate::expr::SpecRhs::Str("zkvm"@) };
    assert(spec_transform(os_fact) == Ok::<SpecExpr, SpecRewriteError>(os_fact));
    let flag = SpecExpr::Atom("zkvm_pico"@);
    assert(spec_resolve("zkvm_pico"@) is None);
    assert(spec_transform(flag) == Ok::<SpecExpr, SpecRewriteError>(flag));
    let not_call = SpecExpr::Call { name: "not"@, args: seq![flag] };
    lemma_not_rewrites_single_argument(flag);
    assert(spec_transform(not_call) == Ok::<SpecExpr, SpecRewriteError>(not_call));
    let empty = Seq::<SpecExpr>::empty();
    assert(spec_transform_args(empty) == Ok::<Seq<SpecExpr>, SpecRewriteError>(empty));
    match id {
        ZkvmIdent::Risc0 => {
            let vendor = SpecExpr::Assign {
                key: "target_vendor"@,
                rhs: crate::expr::SpecRhs::Str("risc0"@),
            };
            assert(spec_transform(vendor) == Ok::<SpecExpr, SpecRewriteError>(vendor));
            lemma_transform_args_push(empty, os_fact);
            lemma_transform_args_push(empty.push(os_fact), vendor);
            lemma_transform_args_push(empty.push(os_fact).push(vendor), not_call);
            assert(spec_predicate(id)->args == empty.push(os_fact).push(vendor).push(not_call));
        },
        ZkvmIdent::Sp1 => {
            let vendor = SpecExpr::Assign {
                key: "target_vendor"@,
                rhs: crate::expr::SpecRhs::Str("succinct"@),
            };
            assert(spec_transform(vendor) == Ok::<SpecExpr, SpecRewriteError>(vendor));
            lemma_transform_args_push(empty, os_fact);
            lemma_transform_args_push(empty.push(os_fact), vendor);
            assert(spec_predicate(id)->args == empty.push(os_fact).push(vendor));
        },
        ZkvmIdent::Pico => {
            let vendor = SpecExpr::Assign {
                key: "target_vendor"@,
                rhs: crate::expr::SpecRhs::Str("risc0"@),
            };
            assert(spec_transform(vendor) == Ok::<SpecExpr, SpecRewriteError>(vendor));
            lemma_transform_args_push(empty, os_fact);
            lemma_transform_args_push(empty.push(os_fact), vendor);
            lemma_transform_args_push(empty.push(os_fact).push(vendor), flag);
            assert(spec_predicate(id)->args == empty.push(os_fact).push(vendor).push(flag));
        },
        ZkvmIdent::Ziren => {
            let vendor = SpecExpr::Assign {
                key: "target_vendor"@,
                rhs: crate::expr::SpecRhs::Str("zkm"@),
            };
            assert(spec_transform(vendor) == Ok::<SpecExpr, SpecRewriteError>(vendor));
            lemma_transform_args_push(empty, os_fact);
            lemma_transform_args_push(empty.push(os_fact), vendor);
            assert(spec_predicate(id)->args == empty.push(os_fact).push(vendor));
        },
        ZkvmIdent::Zisk => {
            let vendor = SpecExpr::Assign {
                key: "target_vendor"@,
                rhs: crate::expr::SpecRhs::Str("zisk"@),
            };
            assert(spec_transform(vendor) == Ok::<SpecExpr, SpecRewriteError>(vendor));
            lemma_transform_args_push(empty, os_fact);
            lemma_transform_args_push(empty.push(os_fact), vendor);
            assert(spec_predicate(id)->args == empty.push(os_fact).push(vendor));
        },
    }
}

/// A list whose every element rewrites to itself rewrites to itself.
proof fn lemma_args_fixpoint(args: Seq<SpecExpr>)
    requires
        forall|i: int|
            0 <= i < args.len() ==> spec_transform(args[i]) == Ok::<SpecExpr, SpecRewriteError>(
                args[i],
            ),
    ensures
        spec_transform_args(args) == Ok::<Seq<SpecExpr>, SpecRewriteError>(args),
    decreases args,
{
    if args.len() == 0 {
        assert(args =~= Seq::<SpecExpr>::empty());
    } else {
        assert(forall|i: int| 0 <= i < args.len() - 1 ==> args.drop_last()[i] == args[i]);
        lemma_args_fixpoint(args.drop_last());
        assert(args.last() == args[args.len() - 1]);
        assert(args.drop_last().push(args.last()) =~= args);
    }
}

proof fn lemma_args_rewrite_idempotent(args: Seq<SpecExpr>)
    ensures
        spec_transform_args(args) matches Ok(out) ==> forall|i: int|
            0 <= i < out.len() ==> spec_transform(out[i]) == Ok::<SpecExpr, SpecRewriteError>(
                out[i],
            ),
    decreases args,
{
    if args.len() > 0 {
        lemma_args_rewrite_idempotent(args.drop_last());
        lemma_rewrite_idempotent(args.last());
        match spec_transform_args(args) {
            Ok(out) => {
                let front = spec_transform_args(args.drop_last())->Ok_0;
                let t = spec_transform(args.last())->Ok_0;
                assert(out == front.push(t));
                assert(forall|i: int| 0 <= i < front.len() ==> out[i] == front[i]);
                assert(out[out.len() - 1] == t);
            },
            Err(_) => {},
        }
    }
}

/// The rewrite is idempotent: whatever a successful rewrite produces,
/// rewriting it again returns it unchanged, because the output no longer
/// contains a recognized backend reference.
pub proof fn lemma_rewrite_idempotent(e: SpecExpr)
    ensures
        spec_transform(e) matches Ok(out) ==> spec_transform(out) == Ok::<
            SpecExpr,
            SpecRewriteError,
        >(out),
    decreases e,
{
    match e {
        SpecExpr::Atom(name) => {
            match spec_resolve(name) {
                Some(id) => lemma_predicate_rewrites_to_itself(id),
                None => {},
            }
        },
        SpecExpr::Assign { key, rhs } => {
            match rhs {
                crate::expr::SpecRhs::Str(v) => {
                    match spec_resolve(v) {
                        Some(id) => lemma_predicate_rewrites_to_itself(id),
                        None => {},
                    }
                },
                crate::expr::SpecRhs::Other(_) => {},
            }
        },
        SpecExpr::Call { name, args } => {
            lemma_args_rewrite_idempotent(args);
            match spec_transform_args(args) {
                Ok(outargs) => {
                    lemma_args_fixpoint(outargs);
                },
                Err(_) => {},
            }
        },
        _ => {},
    }
}


} // verus!
