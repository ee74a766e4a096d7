//! The checks of the propositional inference rules.
use vstd::prelude::*;
use crate::expr::{Expr, Formula, Op, is_op, ph_assoc, ph_impl, ph_not, ph_not_not, models, lemma_models_index, expr_eq, contains_expr, var, not, assoc_placeholder, impl_placeholder};
use crate::error::{ProofCheckError, CheckError};
use crate::text::{render, to_text};
use crate::proofs::Proof;
use crate::rules::{PrepositionalInference, RedundantPrepositionalInference};
use crate::lookup::{deps_exist, dep_expr, lookup_expr_or_die, lookup_all};
use crate::subproofs::{subs_exist, has_step_with, sole_premise, lookup_subproof_or_die, lookup_all_subproofs, subproof_has_step, sole_premise_of};
use crate::ordered::{Ordered, holds_in_order, holds_in_some_order, either_order, any_order_of_three, either_result, shaped, permuted};
use crate::order::is_perm;
use crate::intro_graph::intro_errors;

verus! {

/// Whether one of `a`, `b` is the negation of the other.
pub open spec fn contradict(a: Formula, b: Formula) -> bool {
    a == (Formula::Not { operand: Box::new(b) }) || b == (Formula::Not { operand: Box::new(a) })
}

/// Whether every operand of `c` is the expression of some cited line, and
/// every cited line's expression is an operand of `c`.
pub open spec fn conjunction_matches(p: &Proof, c: Formula, deps: Seq<usize>) -> bool {
    &&& forall|i: int| 0 <= i < deps.len() ==> c->exprs.contains(#[trigger] dep_expr(p, deps, i))
    &&& forall|k: int| 0 <= k < c->exprs.len() ==> exists|i: int| 0 <= i < deps.len() && #[trigger] dep_expr(p, deps, i) == #[trigger] c->exprs[k]
}

/// Whether subproof `s` lacks one premise that is an operand of `d`.
pub open spec fn bad_case(p: &Proof, d: Formula, s: int) -> bool {
    sole_premise(p, s) is None || !d->exprs.contains(sole_premise(p, s)->0)
}

/// Whether no subproof has operand `x` of the disjunction as its premise.
pub open spec fn uncovered(p: &Proof, x: Formula, sdeps: Seq<usize>) -> bool {
    !exists|i: int| 0 <= i < sdeps.len() && #[trigger] sole_premise(p, sdeps[i] as int) == Some(x)
}

/// The errors of disjunction elimination on a disjunction `d` once every
/// subproof reaches the conclusion: the first subproof without one premise
/// that is an operand, else the first operand no subproof assumes.
pub open spec fn cases_errors(p: &Proof, d: Formula, sdeps: Seq<usize>, r: Result<(), ProofCheckError>) -> bool {
    &&& forall|j: int| 0 <= j < sdeps.len() && #[trigger] bad_case(p, d, sdeps[j] as int)
        && (forall|i: int| 0 <= i < j ==> !bad_case(p, d, sdeps[i] as int))
        ==> (sole_premise(p, sdeps[j] as int) is None ==> err_is(r, CheckError::Other("Each subproof must have exactly one premise."@)))
            && (sole_premise(p, sdeps[j] as int) is Some ==> err_is(r, CheckError::DoesNotOccur(sole_premise(p, sdeps[j] as int)->0, d)))
    &&& cases_premised(p, d, sdeps) ==> forall|k: int| 0 <= k < d->exprs.len() && uncovered(p, #[trigger] d->exprs[k], sdeps)
        && (forall|m: int| 0 <= m < k ==> !uncovered(p, d->exprs[m], sdeps))
        ==> err_is(r, CheckError::DepDoesNotExist(d->exprs[k], false))
}

/// Whether the subproofs `sdeps` eliminate the disjunction `d`: each has one
/// premise, an operand of `d`, and a step concluding `c`; each operand of
/// `d` is the premise of one of them.
pub open spec fn cases_cover(p: &Proof, d: Formula, c: Formula, sdeps: Seq<usize>) -> bool {
    &&& cases_conclude(p, c, sdeps)
    &&& cases_premised(p, d, sdeps)
    &&& cases_exhaust(p, d, sdeps)
}

/// Whether each subproof has a step concluding `c`.
pub open spec fn cases_conclude(p: &Proof, c: Formula, sdeps: Seq<usize>) -> bool {
    forall|i: int| 0 <= i < sdeps.len() ==> has_step_with(p, #[trigger] sdeps[i] as int, c)
}

/// Whether each subproof has one premise, an operand of `d`.
pub open spec fn cases_premised(p: &Proof, d: Formula, sdeps: Seq<usize>) -> bool {
    forall|i: int| 0 <= i < sdeps.len() ==> (#[trigger] sole_premise(p, sdeps[i] as int)) is Some && d->exprs.contains(sole_premise(p, sdeps[i] as int)->0)
}

/// Whether each operand of `d` is the premise of some subproof.
pub open spec fn cases_exhaust(p: &Proof, d: Formula, sdeps: Seq<usize>) -> bool {
    forall|k: int| 0 <= k < d->exprs.len() ==> exists|i: int| 0 <= i < sdeps.len() && #[trigger] sole_premise(p, sdeps[i] as int) == Some(#[trigger] d->exprs[k])
}

/// Whether the step with conclusion `c`, citing `deps` and `sdeps`, is a
/// valid application of the rule, given that everything cited exists.
pub open spec fn prop_holds(rule: PrepositionalInference, p: &Proof, c: Formula, deps: Seq<usize>, sdeps: Seq<usize>) -> bool {
    match rule {
        PrepositionalInference::Reit => dep_expr(p, deps, 0) == c,
        PrepositionalInference::AndIntro => is_op(c, Op::And) && conjunction_matches(p, c, deps),
        PrepositionalInference::AndElim => is_op(dep_expr(p, deps, 0), Op::And) && dep_expr(p, deps, 0)->exprs.contains(c),
        PrepositionalInference::OrIntro => is_op(c, Op::Or) && c->exprs.contains(dep_expr(p, deps, 0)),
        PrepositionalInference::OrElim => is_op(dep_expr(p, deps, 0), Op::Or) && cases_cover(p, dep_expr(p, deps, 0), c, sdeps),
        PrepositionalInference::ImpIntro => c is Impl && sole_premise(p, sdeps[0] as int) == Some(*c->left)
            && has_step_with(p, sdeps[0] as int, *c->right),
        PrepositionalInference::ImpElim => holds_in_order(Ordered::ModusPonens, seq![dep_expr(p, deps, 0), dep_expr(p, deps, 1)], c)
            || holds_in_order(Ordered::ModusPonens, seq![dep_expr(p, deps, 1), dep_expr(p, deps, 0)], c),
        PrepositionalInference::NotIntro => c is Not && sole_premise(p, sdeps[0] as int) == Some(*c->operand)
            && has_step_with(p, sdeps[0] as int, Formula::Contra),
        PrepositionalInference::NotElim => dep_expr(p, deps, 0) == (Formula::Not { operand: Box::new(Formula::Not { operand: Box::new(c) }) }),
        PrepositionalInference::ContradictionIntro => c is Contra && contradict(dep_expr(p, deps, 0), dep_expr(p, deps, 1)),
        PrepositionalInference::ContradictionElim => dep_expr(p, deps, 0) is Contra,
        PrepositionalInference::BiconditionalIntro => crate::intro_graph::mutually_implied(p, Op::Bicon, c, deps, sdeps)
            && c->exprs.len() == 2,
        PrepositionalInference::BiconditionalElim => holds_in_order(Ordered::BiconditionalElim, seq![dep_expr(p, deps, 0), dep_expr(p, deps, 1)], c)
            || holds_in_order(Ordered::BiconditionalElim, seq![dep_expr(p, deps, 1), dep_expr(p, deps, 0)], c),
        PrepositionalInference::EquivalenceIntro => crate::intro_graph::mutually_implied(p, Op::Equiv, c, deps, sdeps),
        PrepositionalInference::EquivalenceElim => holds_in_order(Ordered::EquivalenceElim, seq![dep_expr(p, deps, 0), dep_expr(p, deps, 1)], c)
            || holds_in_order(Ordered::EquivalenceElim, seq![dep_expr(p, deps, 1), dep_expr(p, deps, 0)], c),
    }
}

/// Whether `r` is an error whose model is `e`.
pub open spec fn err_is(r: Result<(), ProofCheckError>, e: CheckError) -> bool {
    r is Err && r->Err_0@ == e
}

/// The message when neither of two expressions is the negation of the other.
pub open spec fn contradiction_message(a: Formula, b: Formula) -> Seq<char> {
    "Expected one of {"@ + render(a) + ", "@ + render(b) + "} to be the negation of the other."@
}

/// The message for a subproof without exactly one premise.
pub open spec fn one_premise_message() -> Seq<char> {
    "The subproof must have exactly one premise."@
}

/// Checks that one of `a`, `b` is the negation of the other.
pub fn do_expressions_contradict(a: &Expr, b: &Expr) -> (r: Result<(), ProofCheckError>)
    ensures
        r is Err ==> crate::error::err_wf(r->Err_0@),
        r is Ok <==> contradict(a@, b@),
        r is Err ==> err_is(r, CheckError::Other(contradiction_message(a@, b@))),
{
    let mut m = String::from_str("Expected one of {");
    m.append(to_text(a).as_str());
    m.append(", ");
    m.append(to_text(b).as_str());
    m.append("} to be the negation of the other.");
    let fallthrough = ProofCheckError::Other(m);
    either_order(Ordered::Contradiction, a, b, &Expr::Contra, fallthrough)
}

/// Whether some cited line holds `x`.
pub open spec fn cited(p: &Proof, deps: Seq<usize>, x: Formula) -> bool {
    exists|i: int| 0 <= i < deps.len() && #[trigger] dep_expr(p, deps, i) == x
}

/// The errors of conjunction introduction on a conjunction `c`: the first
/// cited line that is not a conjunct, else the first conjunct not cited.
pub open spec fn and_intro_errors(p: &Proof, c: Formula, deps: Seq<usize>, r: Result<(), ProofCheckError>) -> bool {
    &&& forall|i: int| 0 <= i < deps.len() && !c->exprs.contains(#[trigger] dep_expr(p, deps, i))
        && (forall|j: int| 0 <= j < i ==> c->exprs.contains(dep_expr(p, deps, j)))
        ==> err_is(r, CheckError::DoesNotOccur(dep_expr(p, deps, i), c))
    &&& (forall|i: int| 0 <= i < deps.len() ==> c->exprs.contains(#[trigger] dep_expr(p, deps, i))) ==>
        forall|k: int| 0 <= k < c->exprs.len() && !cited(p, deps, #[trigger] c->exprs[k])
            && (forall|m: int| 0 <= m < k ==> cited(p, deps, c->exprs[m]))
            ==> err_is(r, CheckError::DepDoesNotExist(c->exprs[k], false))
}

/// The errors of discharging subproof `s` with premise `prem` and goal `goal`.
pub open spec fn discharge_errors(p: &Proof, s: int, prem: Formula, goal: Formula, r: Result<(), ProofCheckError>) -> bool {
    &&& sole_premise(p, s) is None ==> err_is(r, CheckError::Other(one_premise_message()))
    &&& sole_premise(p, s) is Some && sole_premise(p, s)->0 != prem ==> err_is(r, CheckError::DoesNotOccur(prem, sole_premise(p, s)->0))
    &&& sole_premise(p, s) == Some(prem) && !has_step_with(p, s, goal) ==> err_is(r, CheckError::DepDoesNotExist(goal, false))
}

/// The error that a step by the rule reports, given that everything cited
/// exists.
pub open spec fn prop_errors(rule: PrepositionalInference, p: &Proof, c: Formula, deps: Seq<usize>, sdeps: Seq<usize>, r: Result<(), ProofCheckError>) -> bool {
    let d0 = dep_expr(p, deps, 0);
    let d1 = dep_expr(p, deps, 1);
    match rule {
        PrepositionalInference::Reit => r is Err ==> err_is(r, CheckError::DoesNotOccur(c, d0)),
        PrepositionalInference::AndIntro => (!is_op(c, Op::And) ==> err_is(r, CheckError::ConclusionOfWrongForm(ph_assoc(Op::And))))
            && (is_op(c, Op::And) ==> and_intro_errors(p, c, deps, r)),
        PrepositionalInference::AndElim => (!is_op(d0, Op::And) ==> err_is(r, CheckError::DepDoesNotExist(ph_assoc(Op::And), true)))
            && (is_op(d0, Op::And) && r is Err ==> err_is(r, CheckError::DoesNotOccur(c, d0))),
        PrepositionalInference::OrIntro => (!is_op(c, Op::Or) ==> err_is(r, CheckError::ConclusionOfWrongForm(ph_assoc(Op::Or))))
            && (is_op(c, Op::Or) && r is Err ==> err_is(r, CheckError::DoesNotOccur(d0, c))),
        PrepositionalInference::OrElim => (!is_op(d0, Op::Or) ==> err_is(r, CheckError::DepDoesNotExist(ph_assoc(Op::Or), true)))
            && (is_op(d0, Op::Or) && !cases_conclude(p, c, sdeps) ==> err_is(r, CheckError::DepDoesNotExist(c, false)))
            && (is_op(d0, Op::Or) && cases_conclude(p, c, sdeps) ==> cases_errors(p, d0, sdeps, r)),
        PrepositionalInference::ImpIntro => (!(c is Impl) ==> err_is(r, CheckError::ConclusionOfWrongForm(ph_impl())))
            && (c is Impl ==> discharge_errors(p, sdeps[0] as int, *c->left, *c->right, r)),
        PrepositionalInference::NotIntro => (!(c is Not) ==> err_is(r, CheckError::ConclusionOfWrongForm(ph_not())))
            && (c is Not ==> discharge_errors(p, sdeps[0] as int, *c->operand, Formula::Contra, r)),
        PrepositionalInference::ImpElim => either_result(Ordered::ModusPonens, d0, d1, c, CheckError::DepDoesNotExist(ph_impl(), true), r),
        PrepositionalInference::NotElim => (!(d0 is Not && (*d0->operand) is Not) ==> err_is(r, CheckError::DepDoesNotExist(ph_not_not(), true)))
            && (d0 is Not && (*d0->operand) is Not && r is Err ==> err_is(r, CheckError::ConclusionOfWrongForm(ph_not_not()))),
        PrepositionalInference::ContradictionIntro => (!(c is Contra) ==> err_is(r, CheckError::ConclusionOfWrongForm(Formula::Contra)))
            && (c is Contra && r is Err ==> err_is(r, CheckError::Other(contradiction_message(d0, d1)))),
        PrepositionalInference::ContradictionElim => r is Err ==> err_is(r, CheckError::DepOfWrongForm(d0, Formula::Contra)),
        PrepositionalInference::BiconditionalIntro => intro_errors(p, Op::Bicon, c, deps, r),
        PrepositionalInference::EquivalenceIntro => intro_errors(p, Op::Equiv, c, deps, r),
        PrepositionalInference::BiconditionalElim => either_result(Ordered::BiconditionalElim, d0, d1, c, CheckError::DepDoesNotExist(ph_assoc(Op::Bicon), true), r),
        PrepositionalInference::EquivalenceElim => either_result(Ordered::EquivalenceElim, d0, d1, c, CheckError::DepDoesNotExist(ph_assoc(Op::Equiv), true), r),
    }
}

/// The first missing line or subproof that a step cites is reported.
pub open spec fn missing_reported(p: &Proof, deps: Seq<usize>, sdeps: Seq<usize>, r: Result<(), ProofCheckError>) -> bool {
    &&& !deps_exist(p, deps) ==> r is Err && exists|i: int| 0 <= i < deps.len() && p.expr_at(deps[i] as int).is_none()
        && r->Err_0@ == CheckError::LineDoesNotExist(#[trigger] deps[i])
    &&& deps_exist(p, deps) && !subs_exist(p, sdeps) ==> r is Err && exists|j: int| 0 <= j < sdeps.len() && sdeps[j] >= p.num_subproofs()
        && r->Err_0@ == CheckError::SubproofDoesNotExist(#[trigger] sdeps[j])
}

/// What a check by the rule returns: the missing reference, or the verdict
/// of `prop_holds` with the error of `prop_errors`.
pub open spec fn prop_outcome(rule: PrepositionalInference, p: &Proof, c: Formula, deps: Seq<usize>, sdeps: Seq<usize>, r: Result<(), ProofCheckError>) -> bool {
    &&& missing_reported(p, deps, sdeps, r)
    &&& deps_exist(p, deps) && subs_exist(p, sdeps) ==> (r is Ok <==> prop_holds(rule, p, c, deps, sdeps)) && prop_errors(rule, p, c, deps, sdeps, r)
}

/// Whether the shape of `rule` fits the number of dependencies given.
pub open spec fn prop_arity(rule: PrepositionalInference, deps: Seq<usize>, sdeps: Seq<usize>) -> bool {
    match rule {
        PrepositionalInference::Reit | PrepositionalInference::AndElim | PrepositionalInference::OrIntro
        | PrepositionalInference::OrElim | PrepositionalInference::NotElim
        | PrepositionalInference::ContradictionElim => deps.len() == 1,
        PrepositionalInference::ContradictionIntro | PrepositionalInference::ImpElim
        | PrepositionalInference::BiconditionalElim | PrepositionalInference::EquivalenceElim => deps.len() == 2,
        PrepositionalInference::ImpIntro | PrepositionalInference::NotIntro => sdeps.len() == 1,
        _ => true,
    }
}

impl PrepositionalInference {
    /// Checks a step by this rule. Every cited line and subproof must
    /// exist; given that, the step is valid exactly when `prop_holds` says so.
    #[verifier::loop_isolation(false)]
    pub fn check(self, p: &Proof, conclusion: Expr, deps: Vec<usize>, sdeps: Vec<usize>) -> (r: Result<(), ProofCheckError>)
        requires
            prop_arity(self, deps@, sdeps@),
        ensures
            r is Err ==> crate::error::err_wf(r->Err_0@),
            r is Ok ==> deps_exist(p, deps@) && subs_exist(p, sdeps@),
            prop_outcome(self, p, conclusion@, deps@, sdeps@, r),
    {
        let ds = match lookup_all(p, &deps) {
            Ok(ds) => ds,
            Err(e) => {
                return Err(e);
            },
        };
        match lookup_all_subproofs(p, &sdeps) {
            Ok(()) => {},
            Err(e) => {
                return Err(e);
            },
        }
        proof {
            assert(forall|i: int| 0 <= i < deps@.len() ==> #[trigger] ds@[i]@ == dep_expr(p, deps@, i));
        }
        match self {
            PrepositionalInference::Reit => {
                if expr_eq(&ds[0], &conclusion) {
                    Ok(())
                } else {
                    Err(ProofCheckError::DoesNotOccur(conclusion, ds[0].clone()))
                }
            },
            PrepositionalInference::AndIntro => {
                match &conclusion {
                    Expr::Assoc { op: Op::And, exprs } => {
                        let mut i: usize = 0;
                        while i < ds.len()
                            invariant
                                0 <= i <= ds@.len(),
                                ds@.len() == deps@.len(),
                                forall|j: int| 0 <= j < deps@.len() ==> #[trigger] ds@[j]@ == dep_expr(p, deps@, j),
                                forall|j: int| 0 <= j < i ==> models(exprs@).contains(#[trigger] dep_expr(p, deps@, j)),
                            decreases ds.len() - i,
                        {
                            if !contains_expr(exprs, &ds[i]) {
                                assert(!models(exprs@).contains(dep_expr(p, deps@, i as int)));
                                return Err(ProofCheckError::DoesNotOccur(ds[i].clone(), conclusion.clone()));
                            }
                            i = i + 1;
                        }
                        proof {
                            lemma_models_index(exprs@);
                        }
                        let mut k: usize = 0;
                        while k < exprs.len()
                            invariant
                                0 <= k <= exprs@.len(),
                                ds@.len() == deps@.len(),
                                models(exprs@).len() == exprs@.len(),
                                forall|j: int| 0 <= j < exprs@.len() ==> #[trigger] models(exprs@)[j] == exprs@[j]@,
                                forall|j: int| 0 <= j < deps@.len() ==> #[trigger] ds@[j]@ == dep_expr(p, deps@, j),
                                forall|j: int| 0 <= j < k ==> exists|i: int| 0 <= i < deps@.len() && #[trigger] dep_expr(p, deps@, i) == #[trigger] models(exprs@)[j],
                            decreases exprs.len() - k,
                        {
                            if !contains_expr(&ds, &exprs[k]) {
                                proof {
                                    lemma_models_index(ds@);
                                    if exists|i: int| 0 <= i < deps@.len() && #[trigger] dep_expr(p, deps@, i) == models(exprs@)[k as int] {
                                        let i = choose|i: int| 0 <= i < deps@.len() && #[trigger] dep_expr(p, deps@, i) == models(exprs@)[k as int];
                                        assert(ds@[i]@ == dep_expr(p, deps@, i));
                                        assert(models(ds@)[i] == ds@[i]@);
                                        assert(models(ds@)[i] == exprs@[k as int]@);
                                    }
                                }
                                return Err(ProofCheckError::DepDoesNotExist(exprs[k].clone(), false));
                            }
                            proof {
                                lemma_models_index(ds@);
                                let i = choose|i: int| 0 <= i < ds@.len() && models(ds@)[i] == exprs@[k as int]@;
                                assert(models(ds@)[i] == ds@[i]@);
                                assert(ds@[i]@ == dep_expr(p, deps@, i));
                                assert(models(exprs@)[k as int] == exprs@[k as int]@);
                                assert(dep_expr(p, deps@, i) == models(exprs@)[k as int]);
                            }
                            k = k + 1;
                        }
                        assert(conclusion@->exprs == models(exprs@));
                        assert(conjunction_matches(p, conclusion@, deps@));
                        Ok(())
                    },
                    _ => Err(ProofCheckError::ConclusionOfWrongForm(assoc_placeholder(Op::And))),
                }
            },
            PrepositionalInference::AndElim => {
                match &ds[0] {
                    Expr::Assoc { op: Op::And, exprs } => {
                        if contains_expr(exprs, &conclusion) {
                            Ok(())
                        } else {
                            Err(ProofCheckError::DoesNotOccur(conclusion, ds[0].clone()))
                        }
                    },
                    _ => Err(ProofCheckError::DepDoesNotExist(assoc_placeholder(Op::And), true)),
                }
            },
            PrepositionalInference::OrIntro => {
                match &conclusion {
                    Expr::Assoc { op: Op::Or, exprs } => {
                        if contains_expr(exprs, &ds[0]) {
                            Ok(())
                        } else {
                            Err(ProofCheckError::DoesNotOccur(ds[0].clone(), conclusion.clone()))
                        }
                    },
                    _ => Err(ProofCheckError::ConclusionOfWrongForm(assoc_placeholder(Op::Or))),
                }
            },
            PrepositionalInference::OrElim => {
                match &ds[0] {
                    Expr::Assoc { op: Op::Or, exprs } => {
                        let r = check_cases(p, &ds[0], exprs, &conclusion, &sdeps);
                        assert(ds@[0]@ == dep_expr(p, deps@, 0));
                        assert(!cases_conclude(p, conclusion@, sdeps@) ==> err_is(r, CheckError::DepDoesNotExist(conclusion@, false)));
                        assert(cases_conclude(p, conclusion@, sdeps@) ==> cases_errors(p, dep_expr(p, deps@, 0), sdeps@, r));
                        r
                    },
                    _ => Err(ProofCheckError::DepDoesNotExist(assoc_placeholder(Op::Or), true)),
                }
            },
            PrepositionalInference::ImpIntro => {
                match &conclusion {
                    Expr::Impl { left, right } => check_discharge(p, sdeps[0], left, right),
                    _ => Err(ProofCheckError::ConclusionOfWrongForm(impl_placeholder())),
                }
            },
            PrepositionalInference::ImpElim => {
                either_order(Ordered::ModusPonens, &ds[0], &ds[1], &conclusion, ProofCheckError::DepDoesNotExist(impl_placeholder(), true))
            },
            PrepositionalInference::NotIntro => {
                match &conclusion {
                    Expr::Not { operand } => check_discharge(p, sdeps[0], operand, &Expr::Contra),
                    _ => Err(ProofCheckError::ConclusionOfWrongForm(not(var("_")))),
                }
            },
            PrepositionalInference::NotElim => {
                match &ds[0] {
                    Expr::Not { operand } => match &**operand {
                        Expr::Not { operand: inner } => {
                            assert((**operand)@ == (Formula::Not { operand: Box::new((**inner)@) }));
                            if expr_eq(inner, &conclusion) {
                                Ok(())
                            } else {
                                Err(ProofCheckError::ConclusionOfWrongForm(not(not(var("_")))))
                            }
                        },
                        _ => Err(ProofCheckError::DepDoesNotExist(not(not(var("_"))), true)),
                    },
                    _ => Err(ProofCheckError::DepDoesNotExist(not(not(var("_"))), true)),
                }
            },
            PrepositionalInference::ContradictionIntro => {
                match &conclusion {
                    Expr::Contra => do_expressions_contradict(&ds[0], &ds[1]),
                    _ => Err(ProofCheckError::ConclusionOfWrongForm(Expr::Contra)),
                }
            },
            PrepositionalInference::ContradictionElim => {
                match &ds[0] {
                    Expr::Contra => Ok(()),
                    _ => Err(ProofCheckError::DepOfWrongForm(ds[0].clone(), Expr::Contra)),
                }
            },
            PrepositionalInference::BiconditionalIntro => crate::intro_graph::check_mutual_implication(p, Op::Bicon, &conclusion, &ds, &deps, &sdeps),
            PrepositionalInference::BiconditionalElim => {
                either_order(Ordered::BiconditionalElim, &ds[0], &ds[1], &conclusion, ProofCheckError::DepDoesNotExist(assoc_placeholder(Op::Bicon), true))
            },
            PrepositionalInference::EquivalenceIntro => crate::intro_graph::check_mutual_implication(p, Op::Equiv, &conclusion, &ds, &deps, &sdeps),
            PrepositionalInference::EquivalenceElim => {
                either_order(Ordered::EquivalenceElim, &ds[0], &ds[1], &conclusion, ProofCheckError::DepDoesNotExist(assoc_placeholder(Op::Equiv), true))
            },
        }
    }
}

/// Whether the step with conclusion `c`, citing `deps`, is a valid
/// application of the rule, given that every cited line exists.
pub open spec fn redundant_holds(rule: RedundantPrepositionalInference, p: &Proof, c: Formula, deps: Seq<usize>) -> bool {
    match rule {
        RedundantPrepositionalInference::ModusTollens => holds_in_order(Ordered::ModusTollens, seq![dep_expr(p, deps, 0), dep_expr(p, deps, 1)], c)
            || holds_in_order(Ordered::ModusTollens, seq![dep_expr(p, deps, 1), dep_expr(p, deps, 0)], c),
        RedundantPrepositionalInference::HypotheticalSyllogism => holds_in_order(Ordered::HypotheticalSyllogism, seq![dep_expr(p, deps, 0), dep_expr(p, deps, 1)], c)
            || holds_in_order(Ordered::HypotheticalSyllogism, seq![dep_expr(p, deps, 1), dep_expr(p, deps, 0)], c),
        RedundantPrepositionalInference::ExcludedMiddle => is_op(c, Op::Or) && c->exprs.len() == 2
            && c->exprs[1] == (Formula::Not { operand: Box::new(c->exprs[0]) }),
        RedundantPrepositionalInference::ConstructiveDilemma => holds_in_some_order(Ordered::ConstructiveDilemma,
            seq![dep_expr(p, deps, 0), dep_expr(p, deps, 1), dep_expr(p, deps, 2)], c),
    }
}

/// The expressions of the first three cited lines.
pub open spec fn three_deps(p: &Proof, deps: Seq<usize>) -> Seq<Formula> {
    seq![dep_expr(p, deps, 0), dep_expr(p, deps, 1), dep_expr(p, deps, 2)]
}

/// The error that a step by the rule reports, given that every cited line
/// exists.
pub open spec fn redundant_errors(rule: RedundantPrepositionalInference, p: &Proof, c: Formula, deps: Seq<usize>, r: Result<(), ProofCheckError>) -> bool {
    let d0 = dep_expr(p, deps, 0);
    let d1 = dep_expr(p, deps, 1);
    match rule {
        RedundantPrepositionalInference::ModusTollens => either_result(Ordered::ModusTollens, d0, d1, c, CheckError::DepDoesNotExist(ph_impl(), true), r),
        RedundantPrepositionalInference::HypotheticalSyllogism => either_result(Ordered::HypotheticalSyllogism, d0, d1, c, CheckError::DepDoesNotExist(ph_impl(), true), r),
        RedundantPrepositionalInference::ExcludedMiddle => {
            &&& !(is_op(c, Op::Or) && c->exprs.len() == 2) ==> err_is(r, CheckError::ConclusionOfWrongForm(Formula::Assoc { op: Op::Or, exprs: seq![crate::expr::placeholder_var(), ph_not()] }))
            &&& is_op(c, Op::Or) && c->exprs.len() == 2 && r is Err ==> err_is(r, CheckError::DoesNotOccur(c->exprs[1], Formula::Not { operand: Box::new(c->exprs[0]) }))
        },
        RedundantPrepositionalInference::ConstructiveDilemma =>
            (forall|q: Seq<usize>| is_perm(q, 3) ==> !shaped(Ordered::ConstructiveDilemma, #[trigger] permuted(three_deps(p, deps), q), c))
            ==> err_is(r, CheckError::OneOf(seq![CheckError::DepDoesNotExist(ph_impl(), true), CheckError::DepDoesNotExist(ph_assoc(Op::Or), true)])),
    }
}

/// Whether the shape of `rule` fits the number of dependencies given.
pub open spec fn redundant_arity(rule: RedundantPrepositionalInference, deps: Seq<usize>) -> bool {
    match rule {
        RedundantPrepositionalInference::ModusTollens | RedundantPrepositionalInference::HypotheticalSyllogism => deps.len() == 2,
        RedundantPrepositionalInference::ExcludedMiddle => deps.len() == 0,
        RedundantPrepositionalInference::ConstructiveDilemma => deps.len() == 3,
    }
}

impl RedundantPrepositionalInference {
    /// Checks a step by this rule. Every cited line must exist; given that,
    /// the step is valid exactly when `redundant_holds` says so.
    pub fn check(self, p: &Proof, conclusion: Expr, deps: Vec<usize>) -> (r: Result<(), ProofCheckError>)
        requires
            redundant_arity(self, deps@),
        ensures
            r is Err ==> crate::error::err_wf(r->Err_0@),
            r is Ok ==> deps_exist(p, deps@),
            missing_reported(p, deps@, seq![], r),
            deps_exist(p, deps@) ==> (r is Ok <==> redundant_holds(self, p, conclusion@, deps@)) && redundant_errors(self, p, conclusion@, deps@, r),
    {
        let ds = match lookup_all(p, &deps) {
            Ok(ds) => ds,
            Err(e) => {
                return Err(e);
            },
        };
        proof {
            assert(forall|i: int| 0 <= i < deps@.len() ==> #[trigger] ds@[i]@ == dep_expr(p, deps@, i));
        }
        match self {
            RedundantPrepositionalInference::ModusTollens => {
                either_order(Ordered::ModusTollens, &ds[0], &ds[1], &conclusion, ProofCheckError::DepDoesNotExist(impl_placeholder(), true))
            },
            RedundantPrepositionalInference::HypotheticalSyllogism => {
                either_order(Ordered::HypotheticalSyllogism, &ds[0], &ds[1], &conclusion, ProofCheckError::DepDoesNotExist(impl_placeholder(), true))
            },
            RedundantPrepositionalInference::ExcludedMiddle => {
                match &conclusion {
                    Expr::Assoc { op: Op::Or, exprs } => {
                        proof {
                            lemma_models_index(exprs@);
                        }
                        if exprs.len() != 2 {
                            return Err(ProofCheckError::ConclusionOfWrongForm(crate::expr::or2(var("_"), not(var("_")))));
                        }
                        proof {
                            lemma_models_index(exprs@);
                        }
                        let not_a = not(exprs[0].clone());
                        if expr_eq(&exprs[1], &not_a) {
                            Ok(())
                        } else {
                            Err(ProofCheckError::DoesNotOccur(exprs[1].clone(), not_a))
                        }
                    },
                    _ => Err(ProofCheckError::ConclusionOfWrongForm(crate::expr::or2(var("_"), not(var("_"))))),
                }
            },
            RedundantPrepositionalInference::ConstructiveDilemma => {
                let mut errs: Vec<ProofCheckError> = Vec::new();
                errs.push(ProofCheckError::DepDoesNotExist(impl_placeholder(), true));
                errs.push(ProofCheckError::DepDoesNotExist(assoc_placeholder(Op::Or), true));
                proof {
                    crate::error::lemma_err_models_index(errs@);
                    assert(crate::error::err_models(errs@) =~= seq![CheckError::DepDoesNotExist(ph_impl(), true), CheckError::DepDoesNotExist(ph_assoc(Op::Or), true)]);
                    crate::error::lemma_flat_wf(crate::error::err_models(errs@));
                    lemma_models_index(ds@);
                    assert(models(ds@)[0] == ds@[0]@ && ds@[0]@ == dep_expr(p, deps@, 0));
                    assert(models(ds@)[1] == ds@[1]@ && ds@[1]@ == dep_expr(p, deps@, 1));
                    assert(models(ds@)[2] == ds@[2]@ && ds@[2]@ == dep_expr(p, deps@, 2));
                    assert(models(ds@) =~= seq![dep_expr(p, deps@, 0), dep_expr(p, deps@, 1), dep_expr(p, deps@, 2)]);
                    assert(models(ds@) == three_deps(p, deps@));
                }
                any_order_of_three(Ordered::ConstructiveDilemma, &ds, &conclusion, ProofCheckError::OneOf(errs))
            },
        }
    }
}

/// Checks that subproof `s` has one premise, `premise`, and a step `goal`.
fn check_discharge(p: &Proof, s: usize, premise: &Expr, goal: &Expr) -> (r: Result<(), ProofCheckError>)
    requires
        s < p.num_subproofs(),
    ensures
        r is Err ==> crate::error::err_wf(r->Err_0@),
        r is Ok <==> sole_premise(p, s as int) == Some(premise@) && has_step_with(p, s as int, goal@),
        discharge_errors(p, s as int, premise@, goal@, r),
{
    proof {
        reveal_strlit("The subproof must have exactly one premise.");
    }
    match sole_premise_of(p, s) {
        Some(prem) => {
            if !expr_eq(premise, &prem) {
                return Err(ProofCheckError::DoesNotOccur(premise.clone(), prem));
            }
        },
        None => {
            return Err(ProofCheckError::Other(String::from_str("The subproof must have exactly one premise.")));
        },
    }
    if subproof_has_step(p, s, goal) {
        Ok(())
    } else {
        Err(ProofCheckError::DepDoesNotExist(goal.clone(), false))
    }
}

/// Checks that the subproofs `sdeps` eliminate the disjunction `d` (whose
/// operands are `exprs`) to `c`.
#[verifier::loop_isolation(false)]
#[verifier::rlimit(60)]
fn check_cases(p: &Proof, d: &Expr, exprs: &Vec<Expr>, c: &Expr, sdeps: &Vec<usize>) -> (r: Result<(), ProofCheckError>)
    requires
        d@ == (Formula::Assoc { op: Op::Or, exprs: models(exprs@) }),
        subs_exist(p, sdeps@),
    ensures
        r is Err ==> crate::error::err_wf(r->Err_0@),
        r is Ok <==> cases_cover(p, d@, c@, sdeps@),
        !cases_conclude(p, c@, sdeps@) ==> err_is(r, CheckError::DepDoesNotExist(c@, false)),
        cases_conclude(p, c@, sdeps@) ==> cases_errors(p, d@, sdeps@, r),
{
    let mut i: usize = 0;
    while i < sdeps.len()
        invariant
            0 <= i <= sdeps@.len(),
            subs_exist(p, sdeps@),
            forall|j: int| 0 <= j < i ==> has_step_with(p, #[trigger] sdeps@[j] as int, c@),
        decreases sdeps.len() - i,
    {
        if !subproof_has_step(p, sdeps[i], c) {
            return Err(ProofCheckError::DepDoesNotExist(c.clone(), false));
        }
        i = i + 1;
    }
    let mut prems: Vec<Expr> = Vec::new();
    let mut i: usize = 0;
    while i < sdeps.len()
        invariant
            0 <= i <= sdeps@.len(),
            prems@.len() == i,
            forall|j: int| 0 <= j < i ==> (#[trigger] sole_premise(p, sdeps@[j] as int)) == Some(prems@[j]@),
            forall|j: int| 0 <= j < i ==> models(exprs@).contains(#[trigger] prems@[j]@),
        decreases sdeps.len() - i,
    {
        match sole_premise_of(p, sdeps[i]) {
            Some(e) => {
                if !contains_expr(exprs, &e) {
                    return Err(ProofCheckError::DoesNotOccur(e, d.clone()));
                }
                prems.push(e);
            },
            None => {
                proof {
                    reveal_strlit("Each subproof must have exactly one premise.");
                }
                return Err(ProofCheckError::Other(String::from_str("Each subproof must have exactly one premise.")));
            },
        }
        i = i + 1;
    }
    proof {
        lemma_models_index(exprs@);
        lemma_models_index(prems@);
    }
    let mut k: usize = 0;
    while k < exprs.len()
        invariant
            0 <= k <= exprs@.len(),
            prems@.len() == sdeps@.len(),
            models(exprs@).len() == exprs@.len(),
            forall|j: int| 0 <= j < exprs@.len() ==> #[trigger] models(exprs@)[j] == exprs@[j]@,
            models(prems@).len() == prems@.len(),
            forall|j: int| 0 <= j < prems@.len() ==> #[trigger] models(prems@)[j] == prems@[j]@,
            forall|j: int| 0 <= j < sdeps@.len() ==> (#[trigger] sole_premise(p, sdeps@[j] as int)) == Some(prems@[j]@),
            forall|j: int| 0 <= j < k ==> exists|i: int| 0 <= i < sdeps@.len() && #[trigger] sole_premise(p, sdeps@[i] as int) == Some(#[trigger] models(exprs@)[j]),
        decreases exprs.len() - k,
    {
        if !contains_expr(&prems, &exprs[k]) {
            proof {
                if exists|i: int| 0 <= i < sdeps@.len() && #[trigger] sole_premise(p, sdeps@[i] as int) == Some(models(exprs@)[k as int]) {
                    let i = choose|i: int| 0 <= i < sdeps@.len() && #[trigger] sole_premise(p, sdeps@[i] as int) == Some(models(exprs@)[k as int]);
                    assert(sole_premise(p, sdeps@[i] as int) == Some(prems@[i]@));
                    assert(models(prems@)[i] == prems@[i]@);
                    assert(models(prems@)[i] == exprs@[k as int]@);
                }
            }
            return Err(ProofCheckError::DepDoesNotExist(exprs[k].clone(), false));
        }
        proof {
            let i = choose|i: int| 0 <= i < prems@.len() && models(prems@)[i] == exprs@[k as int]@;
            assert(sole_premise(p, sdeps@[i] as int) == Some(models(exprs@)[k as int]));
        }
        k = k + 1;
    }
    assert(cases_conclude(p, c@, sdeps@));
    assert forall|i: int| 0 <= i < sdeps@.len() implies (#[trigger] sole_premise(p, sdeps@[i] as int)) is Some && d@->exprs.contains(sole_premise(p, sdeps@[i] as int)->0) by {
        assert(sole_premise(p, sdeps@[i] as int) == Some(prems@[i]@));
        assert(models(exprs@).contains(prems@[i]@));
    }
    assert(cases_premised(p, d@, sdeps@));
    assert(cases_exhaust(p, d@, sdeps@));
    Ok(())
}

} // verus!
