//! The expression model shared by the rewriter's input and output.
//!
//! A configuration expression is a bare atom, a `key = value` assignment,
//! or an n-ary combinator call whose arguments are again expressions.  The
//! two remaining shapes record input forms that the rewriter always
//! rejects: an assignment whose left-hand side is not a plain identifier,
//! and any expression outside the grammar.

use vstd::prelude::*;

verus! {

/// Ghost form of the right-hand side of an assignment.
#[verifier::ext_equal]
pub enum SpecRhs {
    Str(Seq<char>),
    Other(Seq<char>),
}

/// Ghost form of a configuration expression.
#[verifier::ext_equal]
pub enum SpecExpr {
    Atom(Seq<char>),
    Assign { key: Seq<char>, rhs: SpecRhs },
    AssignOther,
    Call { name: Seq<char>, args: Seq<SpecExpr> },
    Other,
}

/// The right-hand side of a `key = value` assignment.
#[derive(Debug)]
pub enum Rhs {
    /// A string literal, with its value.
    Str(String),
    /// Any other right-hand side (a non-string literal or a nested
    /// expression), carried opaquely as its rendered text.
    Other(String),
}

/// A configuration expression.
#[derive(Debug)]
pub enum Expr {
    /// A bare identifier: a shorthand backend reference or an unrelated
    /// configuration flag.
    Atom(String),
    /// `key = value` where the left-hand side is a plain identifier.
    Assign { key: String, rhs: Rhs },
    /// An assignment whose left-hand side is not a plain identifier.
    AssignOther,
    /// A named combinator application, `name(arg, arg, ...)`.
    Call { name: String, args: Vec<Expr> },
    /// Any other expression shape.
    Other,
}

impl View for Rhs {
    type V = SpecRhs;

    open spec fn view(&self) -> SpecRhs {
        match self {
            Rhs::Str(s) => SpecRhs::Str(s@),
            Rhs::Other(s) => SpecRhs::Other(s@),
        }
    }
}

impl Expr {
    /// The ghost form of an argument list, element by element.
    pub open spec fn view_args(args: Seq<Expr>) -> Seq<SpecExpr>
        decreases args,
    {
        if args.len() == 0 {
            Seq::empty()
        } else {
            Self::view_args(args.drop_last()).push(args.last().view())
        }
    }
}

impl View for Expr {
    type V = SpecExpr;

    open spec fn view(&self) -> SpecExpr
        decreases self,
    {
        match self {
            Expr::Atom(s) => SpecExpr::Atom(s@),
            Expr::Assign { key, rhs } => SpecExpr::Assign { key: key@, rhs: rhs@ },
            Expr::AssignOther => SpecExpr::AssignOther,
            Expr::Call { name, args } => SpecExpr::Call {
                name: name@,
                args: Expr::view_args(args@),
            },
            Expr::Other => SpecExpr::Other,
        }
    }
}

impl Clone for Rhs {
    fn clone(&self) -> (r: Self)
        ensures
            r@ == self@,
    {
        match self {
            Rhs::Str(s) => Rhs::Str(s.clone()),
            Rhs::Other(s) => Rhs::Other(s.clone()),
        }
    }
}

impl Clone for Expr {
    fn clone(&self) -> (r: Self)
        ensures
            r@ == self@,
        decreases self,
    {
        match self {
            Expr::Atom(s) => Expr::Atom(s.clone()),
            Expr::Assign { key, rhs } => Expr::Assign { key: key.clone(), rhs: rhs.clone() },
            Expr::AssignOther => Expr::AssignOther,
            Expr::Call { name, args } => {
                let mut cloned: Vec<Expr> = Vec::new();
                let mut i: usize = 0;
                while i < args.len()
                    invariant
                        i <= args@.len(),
                        *self == (Expr::Call { name: *name, args: *args }),
                        cloned@.len() == i,
                        forall|j: int| 0 <= j < i ==> cloned@[j]@ == args@[j]@,
                    decreases args@.len() - i,
                {
                    proof {
                        assert(decreases_to!(*self => self->args));
                        assert(decreases_to!(self->args => self->args[i as int]));
                        assert(self->args[i as int] == args[i as int]);
                    }
                    cloned.push(args[i].clone());
                    i += 1;
                }
                proof {
                    lemma_view_args_len(cloned@);
                    lemma_view_args_len(args@);
                    assert forall|j: int| 0 <= j < args@.len() implies Expr::view_args(cloned@)[j]
                        == Expr::view_args(args@)[j] by {
                        lemma_view_args_index(cloned@, j);
                        lemma_view_args_index(args@, j);
                    }
                    assert(Expr::view_args(cloned@) =~= Expr::view_args(args@));
                }
                Expr::Call { name: name.clone(), args: cloned }
            },
            Expr::Other => Expr::Other,
        }
    }
}

impl PartialEq for Rhs {
    fn eq(&self, other: &Self) -> (r: bool) {
        match (self, other) {
            (Rhs::Str(a), Rhs::Str(b)) => crate::ident::str_eq(a.as_str(), b.as_str()),
            (Rhs::Other(a), Rhs::Other(b)) => crate::ident::str_eq(a.as_str(), b.as_str()),
            _ => false,
        }
    }
}

impl vstd::std_specs::cmp::PartialEqSpecImpl for Rhs {
    open spec fn obeys_eq_spec() -> bool {
        true
    }

    open spec fn eq_spec(&self, other: &Self) -> bool {
        self@ == other@
    }
}

impl PartialEq for Expr {
    fn eq(&self, other: &Self) -> (r: bool)
        decreases self,
    {
        match (self, other) {
            (Expr::Atom(a), Expr::Atom(b)) => crate::ident::str_eq(a.as_str(), b.as_str()),
            (
                Expr::Assign { key: k1, rhs: r1 },
                Expr::Assign { key: k2, rhs: r2 },
            ) => crate::ident::str_eq(k1.as_str(), k2.as_str()) && r1.eq(r2),
            (Expr::AssignOther, Expr::AssignOther) => true,
            (Expr::Other, Expr::Other) => true,
            (
                Expr::Call { name: n1, args: a1 },
                Expr::Call { name: n2, args: a2 },
            ) => {
                if !crate::ident::str_eq(n1.as_str(), n2.as_str()) {
                    return false;
                }
                if a1.len() != a2.len() {
                    proof {
                        lemma_view_args_len(a1@);
                        lemma_view_args_len(a2@);
                    }
                    return false;
                }
                let mut i: usize = 0;
                while i < a1.len()
                    invariant
                        a1@.len() == a2@.len(),
                        i <= a1@.len(),
                        *self == (Expr::Call { name: *n1, args: *a1 }),
                        *other == (Expr::Call { name: *n2, args: *a2 }),
                        n1@ == n2@,
                        forall|j: int| 0 <= j < i ==> a1@[j]@ == a2@[j]@,
                    decreases a1@.len() - i,
                {
                    proof {
                        assert(decreases_to!(*self => self->args));
                        assert(decreases_to!(self->args => self->args[i as int]));
                        assert(self->args[i as int] == a1[i as int]);
                    }
                    if !a1[i].eq(&a2[i]) {
                        proof {
                            lemma_view_args_len(a1@);
                            lemma_view_args_len(a2@);
                            lemma_view_args_index(a1@, i as int);
                            lemma_view_args_index(a2@, i as int);
                        }
                        return false;
                    }
                    i += 1;
                }
                proof {
                    lemma_view_args_len(a1@);
                    lemma_view_args_len(a2@);
                    assert forall|j: int| 0 <= j < a1@.len() implies Expr::view_args(a1@)[j]
                        == Expr::view_args(a2@)[j] by {
                        lemma_view_args_index(a1@, j);
                        lemma_view_args_index(a2@, j);
                    }
                    assert(Expr::view_args(a1@) =~= Expr::view_args(a2@));
                }
                true
            },
            _ => false,
        }
    }
}

impl vstd::std_specs::cmp::PartialEqSpecImpl for Expr {
    open spec fn obeys_eq_spec() -> bool {
        true
    }

    open spec fn eq_spec(&self, other: &Self) -> bool {
        self@ == other@
    }
}

/// An argument list and its ghost form have the same length.
pub proof fn lemma_view_args_len(args: Seq<Expr>)
    ensures
        Expr::view_args(args).len() == args.len(),
    decreases args,
{
    if args.len() > 0 {
        lemma_view_args_len(args.drop_last());
        assert(Expr::view_args(args) == Expr::view_args(args.drop_last()).push(
            args.last().view(),
        ));
    } else {
        assert(Expr::view_args(args) == Seq::<SpecExpr>::empty());
    }
}

/// The ghost form of an argument list is its elementwise ghost form.
pub proof fn lemma_view_args_index(args: Seq<Expr>, i: int)
    requires
        0 <= i < args.len(),
    ensures
        Expr::view_args(args)[i] == args[i]@,
    decreases args,
{
    lemma_view_args_len(args);
    lemma_view_args_len(args.drop_last());
    assert(Expr::view_args(args) == Expr::view_args(args.drop_last()).push(args.last().view()));
    if i < args.len() - 1 {
        lemma_view_args_index(args.drop_last(), i);
        assert(args.drop_last()[i] == args[i]);
    } else {
        assert(args.last() == args[i]);
    }
}

/// Appending an argument appends its ghost form.
pub proof fn lemma_view_args_push(args: Seq<Expr>, e: Expr)
    ensures
        Expr::view_args(args.push(e)) == Expr::view_args(args).push(e@),
{
    assert(args.push(e).drop_last() =~= args);
    assert(args.push(e).last() == e);
}

} // verus!
