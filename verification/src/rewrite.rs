//! The predicate rewriter: the recursive transform that replaces backend
//! references with their canonical low-level predicates.
//!
//! The accept/reject policy is deliberately asymmetric.  A bare atom that
//! resolves to no backend passes through unchanged, because atoms are also
//! used for unrelated configuration flags.  The reserved discriminator key
//! `zkvm`, on the other hand, declares the intent to name a backend, so an
//! unresolvable value there is always a hard error, decorated with an alias
//! suggestion when one exists.

use vstd::prelude::*;

use crate::expr::{Expr, Rhs, SpecExpr, SpecRhs, lemma_view_args_index, lemma_view_args_len,
    lemma_view_args_push};
use crate::ident::{ParseZkvmIdentError, SpecParseError, ZkvmIdent, spec_parse,
    spec_parse_error_message, spec_resolve, str_eq};

verus! {

/// Ghost form of a rewrite failure.
pub enum SpecRewriteError {
    UnknownZkvm(SpecParseError),
    OnlyIdentifierSupported,
    OnlyStringLiteralSupported,
    NotSupportedExpression,
}

/// Why a rewrite failed.  Every failure is fatal to the whole invocation.
#[derive(Debug)]
pub enum RewriteError {
    /// The discriminator's value names no backend; carries the offending
    /// token and an optional suggestion.
    UnknownZkvm(ParseZkvmIdentError),
    /// The left-hand side of an assignment was not a plain identifier.
    OnlyIdentifierSupported,
    /// The discriminator's value was not a string literal.
    OnlyStringLiteralSupported,
    /// An expression shape outside the grammar.
    NotSupportedExpression,
}

impl View for RewriteError {
    type V = SpecRewriteError;

    open spec fn view(&self) -> SpecRewriteError {
        match self {
            RewriteError::UnknownZkvm(e) => SpecRewriteError::UnknownZkvm(e@),
            RewriteError::OnlyIdentifierSupported => SpecRewriteError::OnlyIdentifierSupported,
            RewriteError::OnlyStringLiteralSupported => SpecRewriteError::OnlyStringLiteralSupported,
            RewriteError::NotSupportedExpression => SpecRewriteError::NotSupportedExpression,
        }
    }
}

/// The rendered diagnostic for each failure.
pub open spec fn spec_rewrite_error_message(e: SpecRewriteError) -> Seq<char> {
    match e {
        SpecRewriteError::UnknownZkvm(p) => spec_parse_error_message(p),
        SpecRewriteError::OnlyIdentifierSupported => "Only identifier supported in this place"@,
        SpecRewriteError::OnlyStringLiteralSupported => "Only string literal supported in this place"@,
        SpecRewriteError::NotSupportedExpression => "Not supported expression"@,
    }
}

impl RewriteError {
    /// The diagnostic text, exactly as the host pipeline reports it.
    pub fn message(&self) -> (r: String)
        ensures
            r@ == spec_rewrite_error_message(self@),
    {
        match self {
            RewriteError::UnknownZkvm(e) => e.message(),
            RewriteError::OnlyIdentifierSupported => "Only identifier supported in this place".to_owned(),
            RewriteError::OnlyStringLiteralSupported => "Only string literal supported in this place".to_owned(),
            RewriteError::NotSupportedExpression => "Not supported expression".to_owned(),
        }
    }
}

impl PartialEq for RewriteError {
    fn eq(&self, other: &Self) -> (r: bool) {
        match (self, other) {
            (RewriteError::UnknownZkvm(a), RewriteError::UnknownZkvm(b)) => a.eq(b),
            (RewriteError::OnlyIdentifierSupported, RewriteError::OnlyIdentifierSupported) => true,
            (
                RewriteError::OnlyStringLiteralSupported,
                RewriteError::OnlyStringLiteralSupported,
            ) => true,
            (RewriteError::NotSupportedExpression, RewriteError::NotSupportedExpression) => true,
            _ => false,
        }
    }
}

impl vstd::std_specs::cmp::PartialEqSpecImpl for RewriteError {
    open spec fn obeys_eq_spec() -> bool {
        true
    }

    open spec fn eq_spec(&self, other: &Self) -> bool {
        self@ == other@
    }
}

/// The canonical predicate a backend identifier expands to: a conjunction
/// of target facts, with the shared-vendor pair (`risc0`/`pico`)
/// disambiguated by the `zkvm_pico` flag.
pub open spec fn spec_predicate(id: ZkvmIdent) -> SpecExpr {
    match id {
        ZkvmIdent::Risc0 => SpecExpr::Call {
            name: "all"@,
            args: seq![
                SpecExpr::Assign { key: "target_os"@, rhs: SpecRhs::Str("zkvm"@) },
                SpecExpr::Assign { key: "target_vendor"@, rhs: SpecRhs::Str("risc0"@) },
                SpecExpr::Call { name: "not"@, args: seq![SpecExpr::Atom("zkvm_pico"@)] },
            ],
        },
        ZkvmIdent::Sp1 => SpecExpr::Call {
            name: "all"@,
            args: seq![
                SpecExpr::Assign { key: "target_os"@, rhs: SpecRhs::Str("zkvm"@) },
                SpecExpr::Assign { key: "target_vendor"@, rhs: SpecRhs::Str("succinct"@) },
            ],
        },
        ZkvmIdent::Pico => SpecExpr::Call {
            name: "all"@,
            args: seq![
                SpecExpr::Assign { key: "target_os"@, rhs: SpecRhs::Str("zkvm"@) },
                SpecExpr::Assign { key: "target_vendor"@, rhs: SpecRhs::Str("risc0"@) },
                SpecExpr::Atom("zkvm_pico"@),
            ],
        },
        ZkvmIdent::Ziren => SpecExpr::Call {
            name: "all"@,
            args: seq![
                SpecExpr::Assign { key: "target_os"@, rhs: SpecRhs::Str("zkvm"@) },
                SpecExpr::Assign { key: "target_vendor"@, rhs: SpecRhs::Str("zkm"@) },
            ],
        },
        ZkvmIdent::Zisk => SpecExpr::Call {
            name: "all"@,
            args: seq![
                SpecExpr::Assign { key: "target_os"@, rhs: SpecRhs::Str("zkvm"@) },
                SpecExpr::Assign { key: "target_vendor"@, rhs: SpecRhs::Str("zisk"@) },
            ],
        },
    }
}

fn str_assign(key: &str, value: &str) -> (r: Expr)
    ensures
        r@ == (SpecExpr::Assign { key: key@, rhs: SpecRhs::Str(value@) }),
{
    Expr::Assign { key: key.to_owned(), rhs: Rhs::Str(value.to_owned()) }
}

impl ZkvmIdent {
    /// The executable form of this backend's canonical predicate.
    pub fn cfg_attr(self) -> (r: Expr)
        ensures
            r@ == spec_predicate(self),
    {
        let mut args: Vec<Expr> = Vec::new();
        args.push(str_assign("target_os", "zkvm"));
        match self {
            ZkvmIdent::Risc0 => {
                args.push(str_assign("target_vendor", "risc0"));
                let mut not_args: Vec<Expr> = Vec::new();
                not_args.push(Expr::Atom("zkvm_pico".to_owned()));
                let not_expr = Expr::Call { name: "not".to_owned(), args: not_args };
                proof {
                    assert(Expr::view_args(Seq::<Expr>::empty()) == Seq::<SpecExpr>::empty());
                    lemma_view_args_push(Seq::<Expr>::empty(), not_expr->args[0]);
                    assert(not_expr->args@ =~= Seq::<Expr>::empty().push(not_expr->args[0]));
                    assert(not_expr@->Call_args =~= seq![SpecExpr::Atom("zkvm_pico"@)]);
                }
                args.push(not_expr);
            },
            ZkvmIdent::Sp1 => {
                args.push(str_assign("target_vendor", "succinct"));
            },
            ZkvmIdent::Pico => {
                args.push(str_assign("target_vendor", "risc0"));
                args.push(Expr::Atom("zkvm_pico".to_owned()));
            },
            ZkvmIdent::Ziren => {
                args.push(str_assign("target_vendor", "zkm"));
            },
            ZkvmIdent::Zisk => {
                args.push(str_assign("target_vendor", "zisk"));
            },
        }
        let r = Expr::Call { name: "all".to_owned(), args };
        proof {
            lemma_view_args_len(r->args@);
            assert forall|j: int| 0 <= j < r->args@.len() implies Expr::view_args(r->args@)[j]
                == r->args@[j]@ by {
                lemma_view_args_index(r->args@, j);
            }
            assert(Expr::view_args(r->args@) =~= spec_predicate(self)->args);
            assert(r@ =~~= spec_predicate(self));
        }
        r
    }
}

/// Arguments rewritten left to right; the leftmost failure wins.
pub open spec fn spec_transform_args(args: Seq<SpecExpr>) -> Result<
    Seq<SpecExpr>,
    SpecRewriteError,
>
    decreases args,
{
    if args.len() == 0 {
        Ok(Seq::empty())
    } else {
        match spec_transform_args(args.drop_last()) {
            Ok(front) => match spec_transform(args.last()) {
                Ok(last) => Ok(front.push(last)),
                Err(err) => Err(err),
            },
            Err(err) => Err(err),
        }
    }
}

/// What the rewrite returns, shape by shape:
/// - an atom that resolves canonically becomes its predicate; any other
///   atom passes through unchanged;
/// - an assignment whose key is not the discriminator passes through
///   unchanged; with the discriminator key, a string-literal value must
///   resolve (with full diagnostics) and any other value is an error;
/// - a call keeps its name and rewrites its arguments in order;
/// - everything else is an error.
pub open spec fn spec_transform(e: SpecExpr) -> Result<SpecExpr, SpecRewriteError>
    decreases e,
{
    match e {
        SpecExpr::Atom(name) => match spec_resolve(name) {
            Some(id) => Ok(spec_predicate(id)),
            None => Ok(SpecExpr::Atom(name)),
        },
        SpecExpr::Assign { key, rhs } => if key != "zkvm"@ {
            Ok(SpecExpr::Assign { key, rhs })
        } else {
            match rhs {
                SpecRhs::Str(value) => match spec_parse(value) {
                    Ok(id) => Ok(spec_predicate(id)),
                    Err(err) => Err(SpecRewriteError::UnknownZkvm(err)),
                },
                SpecRhs::Other(_) => Err(SpecRewriteError::OnlyStringLiteralSupported),
            }
        },
        SpecExpr::AssignOther => Err(SpecRewriteError::OnlyIdentifierSupported),
        SpecExpr::Call { name, args } => match spec_transform_args(args) {
            Ok(new_args) => Ok(SpecExpr::Call { name, args: new_args }),
            Err(err) => Err(err),
        },
        SpecExpr::Other => Err(SpecRewriteError::NotSupportedExpression),
    }
}

/// If every argument before `j` rewrites successfully and argument `j`
/// fails, the whole list fails with exactly that error.
proof fn lemma_transform_args_first_error(args: Seq<SpecExpr>, j: int, e: SpecRewriteError)
    requires
        0 <= j < args.len(),
        spec_transform_args(args.take(j)) is Ok,
        spec_transform(args[j]) == Err::<SpecExpr, SpecRewriteError>(e),
    ensures
        spec_transform_args(args) == Err::<Seq<SpecExpr>, SpecRewriteError>(e),
    decreases args,
{
    if j == args.len() - 1 {
        assert(args.drop_last() =~= args.take(j));
    } else {
        assert(args.drop_last().take(j) =~= args.take(j));
        assert(args.drop_last()[j] == args[j]);
        lemma_transform_args_first_error(args.drop_last(), j, e);
    }
}

fn rewrite_expr(attr: &Expr) -> (r: Result<Expr, RewriteError>)
    ensures
        match spec_transform(attr@) {
            Ok(e) => r matches Ok(out) && out@ == e,
            Err(e) => r matches Err(err) && err@ == e,
        },
    decreases attr,
{
    match attr {
        Expr::Atom(name) => match ZkvmIdent::resolve_canonical(name.as_str()) {
            Some(id) => Ok(id.cfg_attr()),
            None => Ok(Expr::Atom(name.clone())),
        },
        Expr::Assign { key, rhs } => {
            if !str_eq(key.as_str(), "zkvm") {
                Ok(Expr::Assign { key: key.clone(), rhs: rhs.clone() })
            } else {
                match rhs {
                    Rhs::Str(value) => match ZkvmIdent::parse(value.as_str()) {
                        Ok(id) => Ok(id.cfg_attr()),
                        Err(e) => Err(RewriteError::UnknownZkvm(e)),
                    },
                    Rhs::Other(_) => Err(RewriteError::OnlyStringLiteralSupported),
                }
            }
        },
        Expr::AssignOther => Err(RewriteError::OnlyIdentifierSupported),
        Expr::Call { name, args } => {
            let mut out: Vec<Expr> = Vec::new();
            let mut i: usize = 0;
            proof {
                lemma_view_args_len(args@);
                assert(Expr::view_args(args@).take(0) =~= Seq::<SpecExpr>::empty());
                assert(Expr::view_args(out@) =~= Seq::<SpecExpr>::empty());
            }
            while i < args.len()
                invariant
                    i <= args@.len(),
                    Expr::view_args(args@).len() == args@.len(),
                    *attr == (Expr::Call { name: *name, args: *args }),
                    spec_transform_args(Expr::view_args(args@).take(i as int)) == Ok::<
                        Seq<SpecExpr>,
                        SpecRewriteError,
                    >(Expr::view_args(out@)),
                decreases args@.len() - i,
            {
                proof {
                    assert(decreases_to!(*attr => attr->args));
                    assert(decreases_to!(attr->args => attr->args[i as int]));
                    assert(attr->args[i as int] == args[i as int]);
                }
                let ghost prev_out = out@;
                match rewrite_expr(&args[i]) {
                    Ok(t) => {
                        out.push(t);
                        proof {
                            lemma_view_args_index(args@, i as int);
                            lemma_view_args_push(prev_out, t);
                            let va = Expr::view_args(args@);
                            assert(va.take(i as int + 1).drop_last() =~= va.take(i as int));
                            assert(va.take(i as int + 1).last() == va[i as int]);
                        }
                    },
                    Err(e) => {
                        proof {
                            lemma_view_args_index(args@, i as int);
                            lemma_transform_args_first_error(
                                Expr::view_args(args@),
                                i as int,
                                e@,
                            );
                        }
                        return Err(e);
                    },
                }
                i += 1;
            }
            proof {
                assert(Expr::view_args(args@).take(args@.len() as int) =~= Expr::view_args(
                    args@,
                ));
            }
            Ok(Expr::Call { name: name.clone(), args: out })
        },
        Expr::Other => Err(RewriteError::NotSupportedExpression),
    }
}

/// Rewrites a configuration expression, substituting canonical predicates
/// for recognized backend references and leaving everything else intact.
/// The output is a well-formed expression by construction: predicates and
/// pass-throughs are built from the same model the input uses.
pub fn transform_expr(attr: Expr) -> (r: Result<Expr, RewriteError>)
    ensures
        match spec_transform(attr@) {
            Ok(e) => r matches Ok(out) && out@ == e,
            Err(e) => r matches Err(err) && err@ == e,
        },
{
    rewrite_expr(&attr)
}

} // verus!
