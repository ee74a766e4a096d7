//! The checks of rules whose dependencies may come in any order, each for
//! one given order.
use vstd::prelude::*;
use crate::expr::{Expr, Formula, Op, is_op, models, lemma_models_index, expr_eq, contains_expr, not, or2};
use crate::error::{ProofCheckError, CheckError, err_wf};
use crate::order::{AnyOrderResult, any_order, orderings_of_two, orderings_of_three, is_perm, combines_errors, error_among};

verus! {

/// The rules that try their dependencies in every order.
#[derive(PartialEq, Eq, Structural, Clone, Copy)]
pub enum Ordered {
    /// `a` is `b -> c`.
    ModusPonens,
    /// `a` is `~b`.
    Contradiction,
    /// `a` is a biconditional; removing `b` (or its operands) leaves `c`.
    BiconditionalElim,
    /// `a` is an equivalence among whose operands are `b` and `c`.
    EquivalenceElim,
    /// `a` is `P -> Q`, `b` is `~Q`, `c` is `~P`.
    ModusTollens,
    /// `a` is `P -> Q`, `b` is `Q -> R`, `c` is `P -> R`.
    HypotheticalSyllogism,
    /// `a` is `P -> Q`, `b` is `R -> S`, the third is `P | R`, `c` is `Q | S`.
    ConstructiveDilemma,
}

/// The operands that a biconditional premise `b` removes.
pub open spec fn removed_operands(b: Formula) -> Seq<Formula> {
    match b {
        Formula::Assoc { op: Op::Bicon, exprs } => exprs,
        _ => seq![b],
    }
}

/// The elements of `s` that are not in `t`, in order.
pub open spec fn without(s: Seq<Formula>, t: Seq<Formula>) -> Seq<Formula>
    decreases s.len(),
{
    if s.len() == 0 {
        Seq::empty()
    } else if t.contains(s.last()) {
        without(s.drop_last(), t)
    } else {
        without(s.drop_last(), t).push(s.last())
    }
}

/// A biconditional of `rest`, or its only operand.
pub open spec fn bicon_of(rest: Seq<Formula>) -> Formula {
    if rest.len() == 1 {
        rest[0]
    } else {
        Formula::Assoc { op: Op::Bicon, exprs: rest }
    }
}

/// Whether the dependencies have the shapes the rule looks for, in this order.
pub open spec fn shaped(kind: Ordered, ds: Seq<Formula>, c: Formula) -> bool {
    match kind {
        Ordered::ModusPonens => ds[0] is Impl,
        Ordered::Contradiction => ds[0] is Not && *ds[0]->operand == ds[1],
        Ordered::BiconditionalElim => is_op(ds[0], Op::Bicon),
        Ordered::EquivalenceElim => is_op(ds[0], Op::Equiv),
        Ordered::ModusTollens => ds[0] is Impl,
        Ordered::HypotheticalSyllogism => ds[0] is Impl && ds[1] is Impl && c is Impl,
        Ordered::ConstructiveDilemma => ds[0] is Impl && ds[1] is Impl && is_op(ds[2], Op::Or) && is_op(c, Op::Or),
    }
}

/// Whether the rule applies with the dependencies in this order.
pub open spec fn holds_in_order(kind: Ordered, ds: Seq<Formula>, c: Formula) -> bool {
    shaped(kind, ds, c) && match kind {
        Ordered::ModusPonens => *ds[0]->left == ds[1] && *ds[0]->right == c,
        Ordered::Contradiction => true,
        Ordered::BiconditionalElim => {
            let s = removed_operands(ds[1]);
            &&& forall|k: int| 0 <= k < s.len() ==> ds[0]->exprs.contains(#[trigger] s[k])
            &&& c == bicon_of(without(ds[0]->exprs, s))
        },
        Ordered::EquivalenceElim => ds[0]->exprs.contains(ds[1]) && ds[0]->exprs.contains(c),
        Ordered::ModusTollens => ds[1] == (Formula::Not { operand: ds[0]->right })
            && c == (Formula::Not { operand: ds[0]->left }),
        Ordered::HypotheticalSyllogism => ds[0]->left == c->left && ds[0]->right == ds[1]->left
            && ds[1]->right == c->right,
        Ordered::ConstructiveDilemma => ds[2]->exprs == seq![*ds[0]->left, *ds[1]->left]
            && c->exprs == seq![*ds[0]->right, *ds[1]->right],
    }
}

/// The error that a check of one order finds when the dependencies have the
/// shapes the rule looks for but the rule does not apply (`None` where it is
/// left open).
pub open spec fn order_error(kind: Ordered, ds: Seq<Formula>, c: Formula) -> Option<CheckError> {
    match kind {
        Ordered::ModusPonens => if *ds[0]->left != ds[1] {
            Some(CheckError::DoesNotOccur(ds[0], ds[1]))
        } else {
            Some(CheckError::DoesNotOccur(c, *ds[0]->right))
        },
        Ordered::ModusTollens => {
            let not_q = Formula::Not { operand: ds[0]->right };
            if not_q != ds[1] {
                Some(CheckError::DoesNotOccur(not_q, ds[1]))
            } else {
                Some(CheckError::DoesNotOccur(Formula::Not { operand: ds[0]->left }, c))
            }
        },
        Ordered::HypotheticalSyllogism => if ds[0]->left != c->left {
            Some(CheckError::DoesNotOccur(*ds[0]->left, *c->left))
        } else if ds[0]->right != ds[1]->left {
            Some(CheckError::DoesNotOccur(*ds[0]->right, *ds[1]->left))
        } else {
            Some(CheckError::DoesNotOccur(*ds[1]->right, *c->right))
        },
        Ordered::EquivalenceElim => if !ds[0]->exprs.contains(ds[1]) {
            Some(CheckError::DoesNotOccur(ds[1], ds[0]))
        } else {
            Some(CheckError::DoesNotOccur(c, ds[0]))
        },
        Ordered::BiconditionalElim => {
            let s = removed_operands(ds[1]);
            if forall|k: int| 0 <= k < s.len() ==> ds[0]->exprs.contains(#[trigger] s[k]) {
                Some(CheckError::DoesNotOccur(c, bicon_of(without(ds[0]->exprs, s))))
            } else {
                Some(CheckError::DoesNotOccur(s[first_missing(s, ds[0]->exprs)], ds[0]))
            }
        },
        _ => None,
    }
}

/// The position of the first element of `s` that `exprs` lacks.
pub open spec fn first_missing(s: Seq<Formula>, exprs: Seq<Formula>) -> int {
    choose|k: int| 0 <= k < s.len() && !exprs.contains(#[trigger] s[k]) && forall|j: int| 0 <= j < k ==> exprs.contains(s[j])
}

/// The result of trying both orders of two dependencies: success if either
/// holds; otherwise the distinct errors of the orders with the right shapes
/// (one alone, two under `OneOf`); `fallthrough` if neither has them.
pub open spec fn either_result(kind: Ordered, a: Formula, b: Formula, c: Formula, fallthrough: CheckError, r: Result<(), ProofCheckError>) -> bool {
    let ab = seq![a, b];
    let ba = seq![b, a];
    let eab = order_error(kind, ab, c);
    let eba = order_error(kind, ba, c);
    &&& (r is Ok <==> holds_in_order(kind, ab, c) || holds_in_order(kind, ba, c))
    &&& (!shaped(kind, ab, c) && !shaped(kind, ba, c) ==> r is Err && r->Err_0@ == fallthrough)
    &&& (!holds_in_order(kind, ab, c) && shaped(kind, ab, c) && !shaped(kind, ba, c) && eab is Some ==> r is Err && r->Err_0@ == eab->0)
    &&& (!holds_in_order(kind, ba, c) && shaped(kind, ba, c) && !shaped(kind, ab, c) && eba is Some ==> r is Err && r->Err_0@ == eba->0)
    &&& (!holds_in_order(kind, ab, c) && !holds_in_order(kind, ba, c) && shaped(kind, ab, c) && shaped(kind, ba, c) && eab is Some && eba is Some
        ==> r is Err && (if eab == eba { r->Err_0@ == eab->0 } else {
            r->Err_0 is OneOf && r->Err_0->OneOf_0@.len() == 2
            && ((r->Err_0->OneOf_0@[0]@ == eab->0 && r->Err_0->OneOf_0@[1]@ == eba->0)
                || (r->Err_0->OneOf_0@[0]@ == eba->0 && r->Err_0->OneOf_0@[1]@ == eab->0))
        }))
}

/// `ds` in the order `p`.
pub open spec fn permuted(ds: Seq<Formula>, p: Seq<usize>) -> Seq<Formula> {
    Seq::new(p.len(), |k: int| ds[p[k] as int])
}

/// Whether the rule applies in some order of the dependencies.
pub open spec fn holds_in_some_order(kind: Ordered, ds: Seq<Formula>, c: Formula) -> bool {
    exists|p: Seq<usize>| is_perm(p, ds.len()) && holds_in_order(kind, #[trigger] permuted(ds, p), c)
}

/// The operands of `b` that a biconditional elimination removes.
fn removed_of(b: &Expr) -> (r: Vec<Expr>)
    ensures
        models(r@) == removed_operands(b@),
{
    match b {
        Expr::Assoc { op: Op::Bicon, exprs } => crate::expr::clone_exprs(exprs),
        _ => {
            let mut v: Vec<Expr> = Vec::new();
            v.push(b.clone());
            proof {
                lemma_models_index(v@);
            }
            assert(models(v@) =~= seq![b@]);
            v
        },
    }
}

/// The elements of `s` that are not in `t`, in order.
fn without_exec(s: &Vec<Expr>, t: &Vec<Expr>) -> (r: Vec<Expr>)
    ensures
        models(r@) == without(models(s@), models(t@)),
{
    proof {
        lemma_models_index(s@);
    }
    let mut r: Vec<Expr> = Vec::new();
    let mut i: usize = 0;
    while i < s.len()
        invariant
            0 <= i <= s@.len(),
            models(s@).len() == s@.len(),
            forall|j: int| 0 <= j < s@.len() ==> #[trigger] models(s@)[j] == s@[j]@,
            models(r@) == without(models(s@).subrange(0, i as int), models(t@)),
        decreases s.len() - i,
    {
        let ghost prefix = models(s@).subrange(0, i as int);
        let ghost next = models(s@).subrange(0, i + 1);
        assert(next.drop_last() =~= prefix);
        assert(next.last() == s@[i as int]@);
        if !contains_expr(t, &s[i]) {
            let ghost before = r@;
            r.push(s[i].clone());
            proof {
                lemma_models_index(r@);
                lemma_models_index(before);
                assert(models(r@) =~= models(before).push(s@[i as int]@));
            }
        }
        i = i + 1;
    }
    assert(models(s@).subrange(0, s@.len() as int) =~= models(s@));
    r
}

/// Checks one order of the dependencies.
#[verifier::loop_isolation(false)]
pub fn check_in_order(kind: Ordered, ds: &Vec<Expr>, c: &Expr) -> (r: AnyOrderResult)
    requires
        ds@.len() == if kind == Ordered::ConstructiveDilemma { 3int } else { 2int },
    ensures
        r is Holds <==> holds_in_order(kind, models(ds@), c@),
        r is WrongOrder <==> !shaped(kind, models(ds@), c@),
        r is Fails && order_error(kind, models(ds@), c@) is Some ==> r->Fails_0@ == order_error(kind, models(ds@), c@)->0,
        r is Fails ==> !(r->Fails_0@ is OneOf),
{
    proof {
        lemma_models_index(ds@);
    }
    let a = &ds[0];
    let b = &ds[1];
    match kind {
        Ordered::ModusPonens => match a {
            Expr::Impl { left, right } => {
                if !expr_eq(left, b) {
                    AnyOrderResult::Fails(ProofCheckError::DoesNotOccur(a.clone(), b.clone()))
                } else if !expr_eq(right, c) {
                    AnyOrderResult::Fails(ProofCheckError::DoesNotOccur(c.clone(), (**right).clone()))
                } else {
                    AnyOrderResult::Holds
                }
            },
            _ => AnyOrderResult::WrongOrder,
        },
        Ordered::Contradiction => match a {
            Expr::Not { operand } => {
                if expr_eq(operand, b) {
                    AnyOrderResult::Holds
                } else {
                    AnyOrderResult::WrongOrder
                }
            },
            _ => AnyOrderResult::WrongOrder,
        },
        Ordered::BiconditionalElim => match a {
            Expr::Assoc { op: Op::Bicon, exprs } => {
                let s = removed_of(b);
                proof {
                    lemma_models_index(s@);
                }
                let mut k: usize = 0;
                while k < s.len()
                    invariant
                        0 <= k <= s@.len(),
                        models(s@).len() == s@.len(),
                        forall|j: int| 0 <= j < s@.len() ==> #[trigger] models(s@)[j] == s@[j]@,
                        forall|j: int| 0 <= j < k ==> models(exprs@).contains(#[trigger] models(s@)[j]),
                    decreases s.len() - k,
                {
                    if !contains_expr(exprs, &s[k]) {
                        assert(!models(exprs@).contains(models(s@)[k as int]));
                        proof {
                            let sm = models(s@);
                            let ex = models(exprs@);
                            assert(0 <= k < sm.len() && !ex.contains(sm[k as int]) && forall|j: int| 0 <= j < k ==> ex.contains(sm[j]));
                            let f = first_missing(sm, ex);
                            if f < k {
                                assert(ex.contains(sm[f]));
                            }
                            if f > k {
                                assert(!ex.contains(sm[k as int]));
                            }
                            assert(f == k);
                        }
                        return AnyOrderResult::Fails(ProofCheckError::DoesNotOccur(s[k].clone(), a.clone()));
                    }
                    k = k + 1;
                }
                let rest = without_exec(exprs, &s);
                proof {
                    lemma_models_index(rest@);
                }
                let expected = if rest.len() == 1 {
                    rest[0].clone()
                } else {
                    Expr::Assoc { op: Op::Bicon, exprs: rest }
                };
                if expr_eq(c, &expected) {
                    AnyOrderResult::Holds
                } else {
                    AnyOrderResult::Fails(ProofCheckError::DoesNotOccur(c.clone(), expected))
                }
            },
            _ => AnyOrderResult::WrongOrder,
        },
        Ordered::EquivalenceElim => match a {
            Expr::Assoc { op: Op::Equiv, exprs } => {
                if !contains_expr(exprs, b) {
                    AnyOrderResult::Fails(ProofCheckError::DoesNotOccur(b.clone(), a.clone()))
                } else if !contains_expr(exprs, c) {
                    AnyOrderResult::Fails(ProofCheckError::DoesNotOccur(c.clone(), a.clone()))
                } else {
                    AnyOrderResult::Holds
                }
            },
            _ => AnyOrderResult::WrongOrder,
        },
        Ordered::ModusTollens => match a {
            Expr::Impl { left, right } => {
                let not_p = not((**left).clone());
                let not_q = not((**right).clone());
                if !expr_eq(&not_q, b) {
                    AnyOrderResult::Fails(ProofCheckError::DoesNotOccur(not_q, b.clone()))
                } else if !expr_eq(&not_p, c) {
                    AnyOrderResult::Fails(ProofCheckError::DoesNotOccur(not_p, c.clone()))
                } else {
                    AnyOrderResult::Holds
                }
            },
            _ => AnyOrderResult::WrongOrder,
        },
        Ordered::HypotheticalSyllogism => match (a, b, c) {
            (
                Expr::Impl { left: p0, right: q0 },
                Expr::Impl { left: q1, right: r0 },
                Expr::Impl { left: p1, right: r1 },
            ) => {
                if !expr_eq(p0, p1) {
                    AnyOrderResult::Fails(ProofCheckError::DoesNotOccur((**p0).clone(), (**p1).clone()))
                } else if !expr_eq(q0, q1) {
                    AnyOrderResult::Fails(ProofCheckError::DoesNotOccur((**q0).clone(), (**q1).clone()))
                } else if !expr_eq(r0, r1) {
                    AnyOrderResult::Fails(ProofCheckError::DoesNotOccur((**r0).clone(), (**r1).clone()))
                } else {
                    AnyOrderResult::Holds
                }
            },
            _ => AnyOrderResult::WrongOrder,
        },
        Ordered::ConstructiveDilemma => {
            let third = &ds[2];
            match (a, b, third, c) {
                (
                    Expr::Impl { left: p0, right: q0 },
                    Expr::Impl { left: r0, right: s0 },
                    Expr::Assoc { op: Op::Or, exprs: p_r },
                    Expr::Assoc { op: Op::Or, exprs: q_s },
                ) => {
                    proof {
                        lemma_models_index(p_r@);
                        lemma_models_index(q_s@);
                    }
                    if p_r.len() != 2 {
                        return AnyOrderResult::Fails(ProofCheckError::DoesNotOccur(
                            or2((**p0).clone(), (**r0).clone()),
                            third.clone(),
                        ));
                    }
                    if q_s.len() != 2 {
                        return AnyOrderResult::Fails(ProofCheckError::DoesNotOccur(
                            or2((**q0).clone(), (**s0).clone()),
                            c.clone(),
                        ));
                    }
                    if !expr_eq(p0, &p_r[0]) {
                        AnyOrderResult::Fails(ProofCheckError::DoesNotOccur((**p0).clone(), p_r[0].clone()))
                    } else if !expr_eq(q0, &q_s[0]) {
                        AnyOrderResult::Fails(ProofCheckError::DoesNotOccur((**q0).clone(), q_s[0].clone()))
                    } else if !expr_eq(r0, &p_r[1]) {
                        AnyOrderResult::Fails(ProofCheckError::DoesNotOccur((**r0).clone(), p_r[1].clone()))
                    } else if !expr_eq(s0, &q_s[1]) {
                        AnyOrderResult::Fails(ProofCheckError::DoesNotOccur((**s0).clone(), q_s[1].clone()))
                    } else {
                        assert(models(p_r@) =~= seq![p0@, r0@]);
                        assert(models(q_s@) =~= seq![q0@, s0@]);
                        AnyOrderResult::Holds
                    }
                },
                _ => AnyOrderResult::WrongOrder,
            }
        },
    }
}

/// The outcome of every given order of the dependencies.
fn try_orders(kind: Ordered, ds: &Vec<Expr>, perms: &Vec<Vec<usize>>, c: &Expr) -> (r: Vec<AnyOrderResult>)
    requires
        ds@.len() == if kind == Ordered::ConstructiveDilemma { 3int } else { 2int },
        forall|i: int| 0 <= i < perms@.len() ==> is_perm(#[trigger] perms@[i]@, ds@.len()),
    ensures
        r@.len() == perms@.len(),
        forall|i: int| 0 <= i < r@.len() ==> (#[trigger] r@[i] is Holds <==> holds_in_order(kind, permuted(models(ds@), perms@[i]@), c@)),
        forall|i: int| 0 <= i < r@.len() ==> (#[trigger] r@[i] is WrongOrder <==> !shaped(kind, permuted(models(ds@), perms@[i]@), c@)),
        forall|i: int| 0 <= i < r@.len() && #[trigger] r@[i] is Fails && order_error(kind, permuted(models(ds@), perms@[i]@), c@) is Some
            ==> r@[i]->Fails_0@ == order_error(kind, permuted(models(ds@), perms@[i]@), c@)->0,
        forall|i: int| 0 <= i < r@.len() && #[trigger] r@[i] is Fails ==> !(r@[i]->Fails_0@ is OneOf),
{
    proof {
        lemma_models_index(ds@);
    }
    let mut r: Vec<AnyOrderResult> = Vec::new();
    let mut i: usize = 0;
    while i < perms.len()
        invariant
            ds@.len() == if kind == Ordered::ConstructiveDilemma { 3int } else { 2int },
            forall|i: int| 0 <= i < perms@.len() ==> is_perm(#[trigger] perms@[i]@, ds@.len()),
            models(ds@).len() == ds@.len(),
            forall|j: int| 0 <= j < ds@.len() ==> #[trigger] models(ds@)[j] == ds@[j]@,
            0 <= i <= perms@.len(),
            r@.len() == i,
            forall|j: int| 0 <= j < i ==> (#[trigger] r@[j] is Holds <==> holds_in_order(kind, permuted(models(ds@), perms@[j]@), c@)),
            forall|j: int| 0 <= j < i ==> (#[trigger] r@[j] is WrongOrder <==> !shaped(kind, permuted(models(ds@), perms@[j]@), c@)),
            forall|j: int| 0 <= j < i && #[trigger] r@[j] is Fails && order_error(kind, permuted(models(ds@), perms@[j]@), c@) is Some
                ==> r@[j]->Fails_0@ == order_error(kind, permuted(models(ds@), perms@[j]@), c@)->0,
            forall|j: int| 0 <= j < i && #[trigger] r@[j] is Fails ==> !(r@[j]->Fails_0@ is OneOf),
        decreases perms.len() - i,
    {
        let p = &perms[i];
        assert(is_perm(p@, ds@.len()));
        let mut ordered: Vec<Expr> = Vec::new();
        let mut k: usize = 0;
        while k < p.len()
            invariant
                is_perm(p@, ds@.len()),
                models(ds@).len() == ds@.len(),
                forall|j: int| 0 <= j < ds@.len() ==> #[trigger] models(ds@)[j] == ds@[j]@,
                0 <= k <= p@.len(),
                ordered@.len() == k,
                forall|j: int| 0 <= j < k ==> #[trigger] ordered@[j]@ == ds@[p@[j] as int]@,
            decreases p.len() - k,
        {
            ordered.push(ds[p[k]].clone());
            k = k + 1;
        }
        proof {
            lemma_models_index(ordered@);
            assert forall|j: int| 0 <= j < ordered@.len() implies #[trigger] models(ordered@)[j] == permuted(models(ds@), p@)[j] by {
                assert(p@[j] < ds@.len());
                assert(ordered@[j]@ == ds@[p@[j] as int]@);
                assert(models(ds@)[p@[j] as int] == ds@[p@[j] as int]@);
                assert(models(ordered@)[j] == ordered@[j]@);
            }
            assert(models(ordered@) =~= permuted(models(ds@), p@));
        }
        r.push(check_in_order(kind, &ordered, c));
        i = i + 1;
    }
    r
}

/// Checks a rule with two dependencies in both orders: it applies if it
/// applies in either; `fallthrough` is the error when neither order has the
/// shapes that the rule looks for.
pub fn either_order(kind: Ordered, d1: &Expr, d2: &Expr, c: &Expr, fallthrough: ProofCheckError) -> (r: Result<(), ProofCheckError>)
    requires
        kind != Ordered::ConstructiveDilemma,
        err_wf(fallthrough@),
    ensures
        r is Err ==> err_wf(r->Err_0@),
        either_result(kind, d1@, d2@, c@, fallthrough@, r),
        !shaped(kind, seq![d1@, d2@], c@) && !shaped(kind, seq![d2@, d1@], c@) ==> r == Err::<(), ProofCheckError>(fallthrough),
{
    let perms = orderings_of_two();
    let mut ds: Vec<Expr> = Vec::new();
    ds.push(d1.clone());
    ds.push(d2.clone());
    proof {
        lemma_models_index(ds@);
        assert(models(ds@) =~= seq![d1@, d2@]);
        assert(permuted(seq![d1@, d2@], seq![0usize, 1usize]) =~= seq![d1@, d2@]);
        assert(permuted(seq![d1@, d2@], seq![1usize, 0usize]) =~= seq![d2@, d1@]);
        assert(is_perm(seq![0usize, 1usize], 2));
        assert(is_perm(seq![1usize, 0usize], 2));
    }
    let outcomes = try_orders(kind, &ds, &perms, c);
    let r = any_order(&outcomes, fallthrough);
    proof {
        let i01 = choose|i: int| 0 <= i < perms@.len() && #[trigger] perms@[i]@ == seq![0usize, 1usize];
        let i10 = choose|i: int| 0 <= i < perms@.len() && #[trigger] perms@[i]@ == seq![1usize, 0usize];
        assert(outcomes@[i01] is Holds <==> holds_in_order(kind, seq![d1@, d2@], c@));
        assert(outcomes@[i10] is Holds <==> holds_in_order(kind, seq![d2@, d1@], c@));
        if r is Ok {
            let i = choose|i: int| 0 <= i < outcomes@.len() && #[trigger] outcomes@[i] is Holds;
            assert(perms@[i]@ == seq![0usize, 1usize] || perms@[i]@ == seq![1usize, 0usize]);
        }
        if !shaped(kind, seq![d1@, d2@], c@) && !shaped(kind, seq![d2@, d1@], c@) {
            assert forall|i: int| 0 <= i < outcomes@.len() implies #[trigger] outcomes@[i] is WrongOrder by {
                assert(perms@[i]@ == seq![0usize, 1usize] || perms@[i]@ == seq![1usize, 0usize]);
            }
        }
        let ab = seq![d1@, d2@];
        let ba = seq![d2@, d1@];
        let eab = order_error(kind, ab, c@);
        let eba = order_error(kind, ba, c@);
        if r is Err && !holds_in_order(kind, ab, c@) && !holds_in_order(kind, ba, c@) {
            if shaped(kind, ab, c@) && eab is Some && (!shaped(kind, ba, c@) || (eba is Some && eab == eba)) {
                assert(outcomes@[i01] is Fails);
                assert forall|e1: CheckError| #[trigger] error_among(outcomes@, e1) implies e1 == eab->0 by {
                    let j = choose|j: int| 0 <= j < outcomes@.len() && #[trigger] outcomes@[j] is Fails && outcomes@[j]->Fails_0@ == e1;
                    assert(perms@[j]@ == seq![0usize, 1usize] || perms@[j]@ == seq![1usize, 0usize]);
                }
                assert(error_among(outcomes@, eab->0));
                crate::order::lemma_single_error(outcomes@, r->Err_0, eab->0);
            }
            if shaped(kind, ba, c@) && eba is Some && !shaped(kind, ab, c@) {
                assert(outcomes@[i10] is Fails);
                assert forall|e1: CheckError| #[trigger] error_among(outcomes@, e1) implies e1 == eba->0 by {
                    let j = choose|j: int| 0 <= j < outcomes@.len() && #[trigger] outcomes@[j] is Fails && outcomes@[j]->Fails_0@ == e1;
                    assert(perms@[j]@ == seq![0usize, 1usize] || perms@[j]@ == seq![1usize, 0usize]);
                }
                assert(error_among(outcomes@, eba->0));
                crate::order::lemma_single_error(outcomes@, r->Err_0, eba->0);
            }
            if shaped(kind, ab, c@) && shaped(kind, ba, c@) && eab is Some && eba is Some && eab != eba {
                assert(outcomes@[i01] is Fails && outcomes@[i10] is Fails);
                assert forall|e1: CheckError| #[trigger] error_among(outcomes@, e1) implies e1 == eab->0 || e1 == eba->0 by {
                    let j = choose|j: int| 0 <= j < outcomes@.len() && #[trigger] outcomes@[j] is Fails && outcomes@[j]->Fails_0@ == e1;
                    assert(perms@[j]@ == seq![0usize, 1usize] || perms@[j]@ == seq![1usize, 0usize]);
                }
                assert(error_among(outcomes@, eab->0));
                assert(error_among(outcomes@, eba->0));
                crate::order::lemma_two_errors(outcomes@, r->Err_0, eab->0, eba->0);
            }
        }
    }
    r
}

/// Checks a rule with three dependencies in every order: it applies if it
/// applies in some order.
pub fn any_order_of_three(kind: Ordered, ds: &Vec<Expr>, c: &Expr, fallthrough: ProofCheckError) -> (r: Result<(), ProofCheckError>)
    requires
        kind == Ordered::ConstructiveDilemma,
        ds@.len() == 3,
        err_wf(fallthrough@),
    ensures
        r is Err ==> err_wf(r->Err_0@),
        r is Ok <==> holds_in_some_order(kind, models(ds@), c@),
        (forall|q: Seq<usize>| is_perm(q, 3) ==> !shaped(kind, #[trigger] permuted(models(ds@), q), c@)) ==> r == Err::<(), ProofCheckError>(fallthrough),
{
    let perms = orderings_of_three();
    let outcomes = try_orders(kind, ds, &perms, c);
    proof {
        lemma_models_index(ds@);
    }
    let r = any_order(&outcomes, fallthrough);
    proof {
        if r is Ok {
            let i = choose|i: int| 0 <= i < outcomes@.len() && #[trigger] outcomes@[i] is Holds;
            assert(is_perm(perms@[i]@, 3));
            assert(holds_in_order(kind, permuted(models(ds@), perms@[i]@), c@));
        }
        if forall|q: Seq<usize>| is_perm(q, 3) ==> !shaped(kind, #[trigger] permuted(models(ds@), q), c@) {
            assert forall|i: int| 0 <= i < outcomes@.len() implies #[trigger] outcomes@[i] is WrongOrder by {
                assert(is_perm(perms@[i]@, 3));
            }
        }
        if holds_in_some_order(kind, models(ds@), c@) {
            let p = choose|p: Seq<usize>| is_perm(p, models(ds@).len()) && holds_in_order(kind, #[trigger] permuted(models(ds@), p), c@);
            let i = choose|i: int| 0 <= i < perms@.len() && #[trigger] perms@[i]@ == p;
            assert(outcomes@[i] is Holds);
        }
    }
    r
}

} // verus!
