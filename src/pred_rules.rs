//! The checks of the quantifier introduction and elimination rules.
use vstd::prelude::*;
use crate::expr::{Expr, Formula, QuantKind, expr_eq, quant_placeholder, ph_quant};
use crate::error::{ProofCheckError, CheckError};
use crate::prop_rules::{err_is, missing_reported, one_premise_message};
use crate::text::render;
use crate::messages::{decimal, decimal_text};
use crate::proofs::Proof;
use crate::rules::PredicateInference;
use crate::lookup::{deps_exist, dep_expr, lookup_all};
use crate::subproofs::{subs_exist, sole_premise, lookup_all_subproofs, sole_premise_of};
use crate::algebra::{free_vars, subst, occurs_free, subst_var};
use crate::unify::{unifier, unify_wrt};
use crate::text::to_text;

verus! {

/// Whether the variable `c` occurs free in no line that line `r` depends on
/// outside subproof `s`.
pub open spec fn stays_inside(p: &Proof, s: int, r: int, c: Seq<char>) -> bool {
    forall|t: int| 0 <= t < p.num_lines() && #[trigger] p.depends_on(r, t) && !p.contained(s).contains(t as usize)
        ==> !free_vars(p.expr_at(t).unwrap()).contains(c)
}

/// Whether line `t`, outside subproof `s`, is a dependency of line `r` in
/// which `c` occurs free.
pub open spec fn escapes_at(p: &Proof, s: int, r: int, c: Seq<char>, t: int) -> bool {
    0 <= t < p.num_lines() && p.depends_on(r, t) && !p.contained(s).contains(t as usize)
        && free_vars(p.expr_at(t).unwrap()).contains(c)
}

/// Whether `t` is the first such line.
pub open spec fn first_escape(p: &Proof, s: int, r: int, c: Seq<char>, t: int) -> bool {
    escapes_at(p, s, r, c, t) && forall|u: int| 0 <= u < t ==> !#[trigger] escapes_at(p, s, r, c, u)
}

/// The first such line.
pub open spec fn escape_line(p: &Proof, s: int, r: int, c: Seq<char>) -> int {
    choose|t: int| first_escape(p, s, r, c, t)
}

/// Whether line `r` depends on no premise of subproof `s`.
pub open spec fn uses_no_premise(p: &Proof, s: int, r: int) -> bool {
    forall|k: int| 0 <= k < p.premises_of(s).len() ==> !p.depends_on(r, #[trigger] p.premises_of(s)[k] as int)
}

/// Whether line `r` of subproof `s` generalizes to `forall name, body`: it is
/// `body` with `name` replaced by a variable `c` that nothing outside the
/// subproof mentions, that stands everywhere `name` does, and the line does
/// not rest on the subproof's premises.
pub open spec fn generalizes(p: &Proof, s: int, r: int, name: Seq<char>, body: Formula) -> bool {
    exists|c: Seq<char>| {
        &&& p.expr_at(r) is Some
        &&& #[trigger] unifier(body, name, p.expr_at(r)->0) == Some(Formula::Var { name: c })
        &&& stays_inside(p, s, r, c)
        &&& subst(body, c, Formula::Var { name }) == body
        &&& uses_no_premise(p, s, r)
    }
}

/// Whether the step with conclusion `c`, citing `deps` and `sdeps`, is a
/// valid application of the rule, given that everything cited exists.
pub open spec fn pred_holds(rule: PredicateInference, p: &Proof, c: Formula, deps: Seq<usize>, sdeps: Seq<usize>) -> bool {
    match rule {
        PredicateInference::ForallIntro => c matches Formula::Quant { kind: QuantKind::Forall, name, body }
            && exists|k: int| 0 <= k < p.steps_of(sdeps[0] as int).len()
                && generalizes(p, sdeps[0] as int, #[trigger] p.steps_of(sdeps[0] as int)[k] as int, name, *body),
        PredicateInference::ForallElim => dep_expr(p, deps, 0) matches Formula::Quant { kind: QuantKind::Forall, name, body }
            && unifier(*body, name, c) is Some,
        PredicateInference::ExistsIntro => c matches Formula::Quant { kind: QuantKind::Exists, name, body }
            && unifier(*body, name, dep_expr(p, deps, 0)) is Some,
        PredicateInference::ExistsElim => dep_expr(p, deps, 0) matches Formula::Quant { kind: QuantKind::Exists, name, body }
            && sole_premise(p, sdeps[0] as int) is Some
            && exists|skolem: Seq<char>| {
                &&& #[trigger] unifier(*body, name, sole_premise(p, sdeps[0] as int)->0) == Some(Formula::Var { name: skolem })
                &&& !free_vars(c).contains(skolem)
                &&& exists|k: int| 0 <= k < p.steps_of(sdeps[0] as int).len()
                    && p.expr_at(#[trigger] p.steps_of(sdeps[0] as int)[k] as int) == Some(c)
                    && stays_inside(p, sdeps[0] as int, p.steps_of(sdeps[0] as int)[k] as int, skolem)
            },
    }
}

/// The constant that line `k` of subproof `s` instantiates the body with,
/// if it unifies with the body to a variable.
pub open spec fn unifies_at(p: &Proof, s: int, name: Seq<char>, body: Formula, k: int) -> Option<Seq<char>> {
    match p.expr_at(p.steps_of(s)[k] as int) {
        Some(e) => match unifier(body, name, e) {
            Some(Formula::Var { name: c }) => Some(c),
            _ => None,
        },
        None => None,
    }
}

/// Whether line `k` is the first line of the subproof that unifies.
pub open spec fn first_unifying(p: &Proof, s: int, name: Seq<char>, body: Formula, k: int) -> bool {
    0 <= k < p.steps_of(s).len() && unifies_at(p, s, name, body, k) is Some
        && forall|j: int| 0 <= j < k ==> #[trigger] unifies_at(p, s, name, body, j) is None
}

/// Why line `r`, instantiating `body` with the constant `c`, does not
/// generalize to `forall name, body`; `None` if it does.
pub open spec fn generalize_problem(p: &Proof, s: int, r: int, name: Seq<char>, body: Formula, c: Seq<char>) -> Option<Seq<char>> {
    if !stays_inside(p, s, r, c) {
        Some("The constant "@ + c + " occurs in dependency "@ + render(p.expr_at(escape_line(p, s, r, c))->0) + " that's outside the subproof."@)
    } else if subst(body, c, Formula::Var { name }) != body {
        Some("Not all free occurrences of "@ + c + " are replaced with "@ + name + " in "@ + render(body) + "."@)
    } else if !uses_no_premise(p, s, r) {
        Some("ForallIntro should not make use of the subproof's premises."@)
    } else {
        None
    }
}

/// The message for a subproof premise that does not instantiate the
/// existential dependency.
pub open spec fn no_unifier_message(prem: Formula, dep: Formula) -> Seq<char> {
    "Premise "@ + render(prem) + " doesn't unify with the body of dependency "@ + render(dep)
}

/// The message when no term instantiates `body` as `e`.
pub open spec fn no_substitution_message(body: Formula, e: Formula) -> Seq<char> {
    "No substitution found between "@ + render(body) + " and "@ + render(e) + "."@
}

/// The message for a subproof with `n` premises, not one.
pub open spec fn premise_count_message(n: nat) -> Seq<char> {
    "Subproof has "@ + decimal(n) + " premises, expected 1."@
}

/// Whether line `k` is the first line of the subproof equal to `c`.
pub open spec fn first_equal(p: &Proof, s: int, c: Formula, k: int) -> bool {
    0 <= k < p.steps_of(s).len() && p.expr_at(p.steps_of(s)[k] as int) == Some(c)
        && forall|j: int| 0 <= j < k ==> p.expr_at(#[trigger] p.steps_of(s)[j] as int) != Some(c)
}

/// The message for a skolem constant free in the conclusion.
pub open spec fn escape_to_conclusion(sk: Seq<char>, c: Formula) -> Seq<char> {
    "The skolem constant "@ + sk + " escapes to the conclusion "@ + render(c) + "."@
}

pub open spec fn is_quant(f: Formula, kind: QuantKind) -> bool {
    f is Quant && f->kind == kind
}

/// The error that a step by the rule reports, given that everything cited
/// exists.
pub open spec fn pred_errors(rule: PredicateInference, p: &Proof, c: Formula, deps: Seq<usize>, sdeps: Seq<usize>, r: Result<(), ProofCheckError>) -> bool {
    let d0 = dep_expr(p, deps, 0);
    match rule {
        PredicateInference::ForallIntro => {
            let s = sdeps[0] as int;
            &&& !is_quant(c, QuantKind::Forall) ==> err_is(r, CheckError::ConclusionOfWrongForm(ph_quant(QuantKind::Forall)))
            &&& is_quant(c, QuantKind::Forall) && (forall|k: int| 0 <= k < p.steps_of(s).len() ==> #[trigger] unifies_at(p, s, c->Quant_name, *c->body, k) is None)
                ==> err_is(r, CheckError::Other("Couldn't find a subproof line that unifies with the conclusion ("@ + render(c) + ")."@))
            &&& forall|k: int| is_quant(c, QuantKind::Forall) && #[trigger] first_unifying(p, s, c->Quant_name, *c->body, k) && r is Err
                ==> generalize_problem(p, s, p.steps_of(s)[k] as int, c->Quant_name, *c->body, unifies_at(p, s, c->Quant_name, *c->body, k)->0) is Some
                && err_is(r, CheckError::Other(generalize_problem(p, s, p.steps_of(s)[k] as int, c->Quant_name, *c->body, unifies_at(p, s, c->Quant_name, *c->body, k)->0)->0))
        },
        PredicateInference::ForallElim => {
            &&& !is_quant(d0, QuantKind::Forall) ==> err_is(r, CheckError::DepOfWrongForm(d0, ph_quant(QuantKind::Forall)))
            &&& is_quant(d0, QuantKind::Forall) && unifier(*d0->body, d0->Quant_name, c) is None
                ==> err_is(r, CheckError::Other(no_substitution_message(*d0->body, c)))
        },
        PredicateInference::ExistsIntro => {
            &&& !is_quant(c, QuantKind::Exists) ==> err_is(r, CheckError::ConclusionOfWrongForm(ph_quant(QuantKind::Exists)))
            &&& is_quant(c, QuantKind::Exists) && unifier(*c->body, c->Quant_name, d0) is None
                ==> err_is(r, CheckError::Other(no_substitution_message(*c->body, d0)))
        },
        PredicateInference::ExistsElim => {
            let s = sdeps[0] as int;
            let sp = sole_premise(p, s);
            &&& !is_quant(d0, QuantKind::Exists) ==> err_is(r, CheckError::DepOfWrongForm(d0, ph_quant(QuantKind::Exists)))
            &&& is_quant(d0, QuantKind::Exists) && sp is None ==> err_is(r, CheckError::Other(premise_count_message(p.premises_of(s).len())))
            &&& is_quant(d0, QuantKind::Exists) && sp is Some && !(unifier(*d0->body, d0->Quant_name, sp->0) matches Some(Formula::Var { .. }))
                ==> err_is(r, CheckError::Other(no_unifier_message(sp->0, d0)))
            &&& forall|sk: Seq<char>| is_quant(d0, QuantKind::Exists) && sp is Some
                && #[trigger] unifier(*d0->body, d0->Quant_name, sp->0) == Some(Formula::Var { name: sk })
                && (forall|k: int| 0 <= k < p.steps_of(s).len() ==> p.expr_at(#[trigger] p.steps_of(s)[k] as int) != Some(c))
                ==> err_is(r, CheckError::Other("Couldn't find a subproof line equal to the conclusion ("@ + render(c) + ")."@))
            &&& forall|sk: Seq<char>, k0: int| is_quant(d0, QuantKind::Exists) && sp is Some
                && unifier(*d0->body, d0->Quant_name, sp->0) == Some(Formula::Var { name: sk })
                && first_equal(p, s, c, k0)
                && (forall|k: int| 0 <= k < p.steps_of(s).len() && p.expr_at(#[trigger] p.steps_of(s)[k] as int) == Some(c)
                    ==> !stays_inside(p, s, p.steps_of(s)[k] as int, sk))
                ==> err_is(r, CheckError::Other("The skolem constant "@ + sk + " occurs in dependency "@
                    + render(p.expr_at(#[trigger] escape_line(p, s, p.steps_of(s)[k0] as int, sk))->0) + " that's outside the subproof."@))
            &&& forall|sk: Seq<char>| is_quant(d0, QuantKind::Exists) && sp is Some
                && #[trigger] unifier(*d0->body, d0->Quant_name, sp->0) == Some(Formula::Var { name: sk })
                && free_vars(c).contains(sk)
                && (exists|k: int| 0 <= k < p.steps_of(s).len() && p.expr_at(#[trigger] p.steps_of(s)[k] as int) == Some(c)
                    && stays_inside(p, s, p.steps_of(s)[k] as int, sk))
                ==> err_is(r, CheckError::Other(escape_to_conclusion(sk, c)))
        },
    }
}

/// Whether the shape of `rule` fits the number of dependencies given.
pub open spec fn pred_arity(rule: PredicateInference, deps: Seq<usize>, sdeps: Seq<usize>) -> bool {
    match rule {
        PredicateInference::ForallIntro => sdeps.len() == 1,
        PredicateInference::ForallElim | PredicateInference::ExistsIntro => deps.len() == 1,
        PredicateInference::ExistsElim => deps.len() == 1 && sdeps.len() == 1,
    }
}

/// A line that line `r` depends on, outside subproof `s`, in which `c`
/// occurs free; `None` if there is none.
fn escaping_dependency(p: &Proof, s: usize, r: usize, c: &String) -> (res: Option<Expr>)
    requires
        r < p.num_lines(),
    ensures
        res is None <==> stays_inside(p, s as int, r as int, c@),
        res is Some ==> first_escape(p, s as int, r as int, c@, escape_line(p, s as int, r as int, c@))
            && res->0@ == p.expr_at(escape_line(p, s as int, r as int, c@))->0,
{
    let deps = p.transitive_dependencies(r);
    let inside = p.contained_justifications(s);
    let mut t: usize = 0;
    while t < deps.len()
        invariant
            deps@.len() == p.num_lines(),
            inside@.len() == p.num_lines(),
            forall|u: int| 0 <= u < deps@.len() ==> (#[trigger] deps@[u] <==> p.depends_on(r as int, u)),
            forall|u: int| 0 <= u < inside@.len() ==> #[trigger] inside@[u] == p.contained(s as int).contains(u as usize),
            0 <= t <= deps@.len(),
            forall|u: int| 0 <= u < t && #[trigger] p.depends_on(r as int, u) && !p.contained(s as int).contains(u as usize)
                ==> !free_vars(p.expr_at(u).unwrap()).contains(c@),
        decreases deps.len() - t,
    {
        if deps[t] && !inside[t] {
            match p.lookup_expr(t) {
                Some(e) => {
                    if occurs_free(&e, c) {
                        proof {
                            assert(escapes_at(p, s as int, r as int, c@, t as int));
                            assert(first_escape(p, s as int, r as int, c@, t as int));
                            let t2 = escape_line(p, s as int, r as int, c@);
                            assert(first_escape(p, s as int, r as int, c@, t2));
                            if t2 < t {
                                assert(escapes_at(p, s as int, r as int, c@, t2));
                            }
                            if t2 > t {
                                assert(!escapes_at(p, s as int, r as int, c@, t as int));
                            }
                        }
                        return Some(e);
                    }
                },
                None => {},
            }
        }
        t = t + 1;
    }
    None
}

/// Whether line `r` depends on some premise of subproof `s`.
fn uses_premise(p: &Proof, s: usize, r: usize) -> (b: bool)
    requires
        r < p.num_lines(),
    ensures
        b == !uses_no_premise(p, s as int, r as int),
{
    let deps = p.transitive_dependencies(r);
    let prems = p.premises(s);
    let mut k: usize = 0;
    while k < prems.len()
        invariant
            deps@.len() == p.num_lines(),
            forall|u: int| 0 <= u < deps@.len() ==> (#[trigger] deps@[u] <==> p.depends_on(r as int, u)),
            prems@ == p.premises_of(s as int),
            0 <= k <= prems@.len(),
            forall|j: int| 0 <= j < k ==> !p.depends_on(r as int, #[trigger] prems@[j] as int),
        decreases prems.len() - k,
    {
        if prems[k] < deps.len() && deps[prems[k]] {
            return true;
        }
        proof {
            if prems@[k as int] >= deps@.len() {
                assert(!p.depends_on(r as int, prems@[k as int] as int)) by {
                    if p.depends_on(r as int, prems@[k as int] as int) {
                        let kk = choose|kk: nat| p.reaches_in(r as int, prems@[k as int] as int, kk);
                        p.lemma_reaches_in_range(r as int, prems@[k as int] as int, kk);
                    }
                }
            }
        }
        k = k + 1;
    }
    false
}

/// The message for a variable that escapes a subproof.
fn escape_message(what: &str, c: &String, middle: &str, e: &Expr, tail: &str) -> (m: String)
    ensures
        m@ == what@ + c@ + middle@ + render(e@) + tail@,
{
    let mut m = String::from_str(what);
    m.append(c.as_str());
    m.append(middle);
    let t = to_text(e);
    m.append(t.as_str());
    m.append(tail);
    m
}

/// The error for a subproof premise that does not instantiate the
/// existential dependency.
fn no_unifier_error(subprem: &Expr, dep: &Expr) -> (err: ProofCheckError)
    ensures
        err@ == CheckError::Other(no_unifier_message(subprem@, dep@)),
{
    let mut m = String::from_str("Premise ");
    m.append(to_text(subprem).as_str());
    m.append(" doesn't unify with the body of dependency ");
    m.append(to_text(dep).as_str());
    ProofCheckError::Other(m)
}

/// The error when no term instantiates `body` as `e`.
fn no_substitution_error(body: &Expr, e: &Expr) -> (err: ProofCheckError)
    ensures
        err@ == CheckError::Other(no_substitution_message(body@, e@)),
{
    let mut m = String::from_str("No substitution found between ");
    m.append(to_text(body).as_str());
    m.append(" and ");
    m.append(to_text(e).as_str());
    m.append(".");
    ProofCheckError::Other(m)
}

impl PredicateInference {
    /// Checks a step by this rule. Every cited line and subproof must
    /// exist; given that, the step is valid exactly when `pred_holds` says so.
    #[verifier::loop_isolation(false)]
    pub fn check(self, p: &Proof, conclusion: Expr, deps: Vec<usize>, sdeps: Vec<usize>) -> (r: Result<(), ProofCheckError>)
        requires
            pred_arity(self, deps@, sdeps@),
        ensures
            r is Err ==> crate::error::err_wf(r->Err_0@),
            r is Ok ==> deps_exist(p, deps@) && subs_exist(p, sdeps@),
            missing_reported(p, deps@, sdeps@, r),
            deps_exist(p, deps@) && subs_exist(p, sdeps@) ==> (r is Ok <==> pred_holds(self, p, conclusion@, deps@, sdeps@))
                && pred_errors(self, p, conclusion@, deps@, sdeps@, r),
    {
        let ds = match lookup_all(p, &deps) {
            Ok(ds) => ds,
            Err(e) => {
                return Err(e);
            },
        };
        match lookup_all_subproofs(p, &sdeps) {
            Ok(()) => {},
            Err(e) => {
                return Err(e);
            },
        }
        proof {
            assert(forall|i: int| 0 <= i < deps@.len() ==> #[trigger] ds@[i]@ == dep_expr(p, deps@, i));
        }
        match self {
            PredicateInference::ForallIntro => {
                let s = sdeps[0];
                match &conclusion {
                    Expr::Quant { kind: QuantKind::Forall, name, body } => {
                        let steps = p.exprs(s);
                        let mut first_problem: Option<ProofCheckError> = None;
                        let mut k: usize = 0;
                        while k < steps.len()
                            invariant
                                steps@ == p.steps_of(s as int),
                                0 <= k <= steps@.len(),
                                first_problem is Some ==> first_problem->0@ is Other,
                                forall|j: int| 0 <= j < k ==> !generalizes(p, s as int, #[trigger] steps@[j] as int, name@, body@),
                                first_problem is None ==> forall|j: int| 0 <= j < k ==> #[trigger] unifies_at(p, s as int, name@, body@, j) is None,
                                first_problem is Some ==> exists|k0: int| 0 <= k0 < k && #[trigger] first_unifying(p, s as int, name@, body@, k0)
                                    && generalize_problem(p, s as int, steps@[k0] as int, name@, body@, unifies_at(p, s as int, name@, body@, k0)->0) is Some
                                    && first_problem->0@ == CheckError::Other(generalize_problem(p, s as int, steps@[k0] as int, name@, body@, unifies_at(p, s as int, name@, body@, k0)->0)->0),
                            decreases steps.len() - k,
                        {
                            let r = steps[k];
                            match p.lookup_expr(r) {
                                Some(e) => {
                                    let u = unify_wrt(body, &e, name);
                                    match &u {
                                        Some(Expr::Var { name: c }) => {
                                            proof {
                                                p.lemma_expr_in_range(r as int);
                                                assert(unifies_at(p, s as int, name@, body@, k as int) == Some(c@));
                                            }
                                            let problem = match escaping_dependency(p, s, r, c) {
                                                Some(dangling) => Some(ProofCheckError::Other(escape_message("The constant ", c, " occurs in dependency ", &dangling, " that's outside the subproof."))),
                                                None => {
                                                    let expected = subst_var(body, c, &Expr::Var { name: name.clone() });
                                                    if !expr_eq(&expected, body) {
                                                        let mut m = String::from_str("Not all free occurrences of ");
                                                        m.append(c.as_str());
                                                        m.append(" are replaced with ");
                                                        m.append(name.as_str());
                                                        m.append(" in ");
                                                        m.append(to_text(body).as_str());
                                                        m.append(".");
                                                        Some(ProofCheckError::Other(m))
                                                    } else if uses_premise(p, s, r) {
                                                        Some(ProofCheckError::Other(String::from_str("ForallIntro should not make use of the subproof's premises.")))
                                                    } else {
                                                        None
                                                    }
                                                },
                                            };
                                            proof {
                                                let gp = generalize_problem(p, s as int, r as int, name@, body@, c@);
                                                assert(problem is None <==> gp is None);
                                                assert(problem is Some ==> problem->0@ == CheckError::Other(gp->0));
                                            }
                                            match problem {
                                                None => {
                                                    assert(unifier(body@, name@, p.expr_at(r as int)->0) == Some(Formula::Var { name: c@ }));
                                                    return Ok(());
                                                },
                                                Some(err) => {
                                                    proof {
                                                        if generalizes(p, s as int, r as int, name@, body@) {
                                                            let c2 = choose|c2: Seq<char>| {
                                                                &&& p.expr_at(r as int) is Some
                                                                &&& #[trigger] unifier(body@, name@, p.expr_at(r as int)->0) == Some(Formula::Var { name: c2 })
                                                                &&& stays_inside(p, s as int, r as int, c2)
                                                                &&& subst(body@, c2, Formula::Var { name: name@ }) == body@
                                                                &&& uses_no_premise(p, s as int, r as int)
                                                            };
                                                            assert(c2 == c@);
                                                        }
                                                        if first_problem is None {
                                                            assert(first_unifying(p, s as int, name@, body@, k as int));
                                                        }
                                                    }
                                                    if first_problem.is_none() {
                                                        first_problem = Some(err);
                                                    }
                                                },
                                            }
                                        },
                                        Some(t) => {
                                            proof {
                                                assert(unifier(body@, name@, e@) == Some(t@));
                                                assert(!(t@ is Var));
                                                assert(unifies_at(p, s as int, name@, body@, k as int) is None);
                                            }
                                        },
                                        None => {
                                            assert(unifies_at(p, s as int, name@, body@, k as int) is None);
                                        },
                                    }
                                },
                                None => {
                                    assert(unifies_at(p, s as int, name@, body@, k as int) is None);
                                },
                            }
                            k = k + 1;
                        }
                        proof {
                            if first_problem is Some {
                                let k0 = choose|k0: int| 0 <= k0 < k && #[trigger] first_unifying(p, s as int, name@, body@, k0)
                                    && generalize_problem(p, s as int, steps@[k0] as int, name@, body@, unifies_at(p, s as int, name@, body@, k0)->0) is Some
                                    && first_problem->0@ == CheckError::Other(generalize_problem(p, s as int, steps@[k0] as int, name@, body@, unifies_at(p, s as int, name@, body@, k0)->0)->0);
                                assert forall|k1: int| #[trigger] first_unifying(p, s as int, name@, body@, k1) implies k1 == k0 by {
                                    if k1 < k0 {
                                        assert(unifies_at(p, s as int, name@, body@, k1) is None);
                                    }
                                    if k1 > k0 {
                                        assert(unifies_at(p, s as int, name@, body@, k0) is None);
                                    }
                                }
                            }
                        }
                        match first_problem {
                            Some(err) => Err(err),
                            None => {
                                let mut m = String::from_str("Couldn't find a subproof line that unifies with the conclusion (");
                                let t = to_text(&conclusion);
                                m.append(t.as_str());
                                m.append(").");
                                Err(ProofCheckError::Other(m))
                            },
                        }
                    },
                    _ => Err(ProofCheckError::ConclusionOfWrongForm(quant_placeholder(QuantKind::Forall))),
                }
            },
            PredicateInference::ForallElim => {
                match &ds[0] {
                    Expr::Quant { kind: QuantKind::Forall, name, body } => {
                        assert(ds@[0]@ == dep_expr(p, deps@, 0));
                        match unify_wrt(body, &conclusion, name) {
                            Some(_) => Ok(()),
                            None => Err(no_substitution_error(body, &conclusion)),
                        }
                    },
                    _ => Err(ProofCheckError::DepOfWrongForm(ds[0].clone(), quant_placeholder(QuantKind::Forall))),
                }
            },
            PredicateInference::ExistsIntro => {
                match &conclusion {
                    Expr::Quant { kind: QuantKind::Exists, name, body } => {
                        assert(ds@[0]@ == dep_expr(p, deps@, 0));
                        match unify_wrt(body, &ds[0], name) {
                            Some(_) => Ok(()),
                            None => Err(no_substitution_error(body, &ds[0])),
                        }
                    },
                    _ => Err(ProofCheckError::ConclusionOfWrongForm(quant_placeholder(QuantKind::Exists))),
                }
            },
            PredicateInference::ExistsElim => {
                let s = sdeps[0];
                match &ds[0] {
                    Expr::Quant { kind: QuantKind::Exists, name, body } => {
                        let subprem = match sole_premise_of(p, s) {
                            Some(e) => e,
                            None => {
                                let prems = p.premises(s);
                                let mut m = String::from_str("Subproof has ");
                                m.append(decimal_text(prems.len()).as_str());
                                m.append(" premises, expected 1.");
                                return Err(ProofCheckError::Other(m));
                            },
                        };
                        let u = unify_wrt(body, &subprem, name);
                        assert(sole_premise(p, sdeps@[0] as int)->0 == subprem@);
                        let skolem = match &u {
                            Some(Expr::Var { name: v }) => v.clone(),
                            Some(t) => {
                                assert(unifier(body@, name@, subprem@) == Some(t@));
                                assert(!(t@ is Var));
                                return Err(no_unifier_error(&subprem, &ds[0]));
                            },
                            None => {
                                assert(unifier(body@, name@, subprem@) is None);
                                return Err(no_unifier_error(&subprem, &ds[0]));
                            },
                        };
                        assert(unifier(body@, name@, subprem@) == Some(Formula::Var { name: skolem@ }));
                        let steps = p.exprs(s);
                        let mut first_problem: Option<ProofCheckError> = None;
                        let mut k: usize = 0;
                        while k < steps.len()
                            invariant
                                steps@ == p.steps_of(s as int),
                                0 <= k <= steps@.len(),
                                first_problem is Some ==> first_problem->0@ is Other,
                                forall|j: int| 0 <= j < k && p.expr_at(#[trigger] steps@[j] as int) == Some(conclusion@) ==> !stays_inside(p, s as int, steps@[j] as int, skolem@),
                                first_problem is None ==> forall|j: int| 0 <= j < k ==> p.expr_at(#[trigger] steps@[j] as int) != Some(conclusion@),
                                first_problem is Some ==> exists|k0: int| 0 <= k0 < k && #[trigger] first_equal(p, s as int, conclusion@, k0)
                                    && first_problem->0@ == CheckError::Other("The skolem constant "@ + skolem@ + " occurs in dependency "@
                                        + render(p.expr_at(escape_line(p, s as int, steps@[k0] as int, skolem@))->0) + " that's outside the subproof."@),
                            decreases steps.len() - k,
                        {
                            let r = steps[k];
                            match p.lookup_expr(r) {
                                Some(e) => {
                                    if expr_eq(&e, &conclusion) {
                                        proof {
                                            p.lemma_expr_in_range(r as int);
                                        }
                                        match escaping_dependency(p, s, r, &skolem) {
                                            Some(dangling) => {
                                                proof {
                                                    if first_problem is None {
                                                        assert(first_equal(p, s as int, conclusion@, k as int));
                                                    }
                                                }
                                                if first_problem.is_none() {
                                                    first_problem = Some(ProofCheckError::Other(escape_message("The skolem constant ", &skolem, " occurs in dependency ", &dangling, " that's outside the subproof.")));
                                                }
                                            },
                                            None => {
                                                if occurs_free(&conclusion, &skolem) {
                                                    proof {
                                                        if pred_holds(self, p, conclusion@, deps@, sdeps@) {
                                                            let sk = choose|sk: Seq<char>| {
                                                                &&& #[trigger] unifier(body@, name@, sole_premise(p, s as int)->0) == Some(Formula::Var { name: sk })
                                                                &&& !free_vars(conclusion@).contains(sk)
                                                                &&& exists|k: int| 0 <= k < p.steps_of(s as int).len()
                                                                    && p.expr_at(#[trigger] p.steps_of(s as int)[k] as int) == Some(conclusion@)
                                                                    && stays_inside(p, s as int, p.steps_of(s as int)[k] as int, sk)
                                                            };
                                                            assert(sk == skolem@);
                                                        }
                                                    }
                                                    return Err(ProofCheckError::Other(escape_message("The skolem constant ", &skolem, " escapes to the conclusion ", &conclusion, ".")));
                                                }
                                                assert(p.expr_at(steps@[k as int] as int) == Some(conclusion@));
                                                return Ok(());
                                            },
                                        }
                                    }
                                },
                                None => {},
                            }
                            k = k + 1;
                        }
                        proof {
                            if pred_holds(self, p, conclusion@, deps@, sdeps@) {
                                let sk = choose|sk: Seq<char>| {
                                    &&& #[trigger] unifier(body@, name@, sole_premise(p, s as int)->0) == Some(Formula::Var { name: sk })
                                    &&& !free_vars(conclusion@).contains(sk)
                                    &&& exists|k: int| 0 <= k < p.steps_of(s as int).len()
                                        && p.expr_at(#[trigger] p.steps_of(s as int)[k] as int) == Some(conclusion@)
                                        && stays_inside(p, s as int, p.steps_of(s as int)[k] as int, sk)
                                };
                                assert(sk == skolem@);
                            }
                            if first_problem is Some {
                                let k0 = choose|k0: int| 0 <= k0 < k && #[trigger] first_equal(p, s as int, conclusion@, k0)
                                    && first_problem->0@ == CheckError::Other("The skolem constant "@ + skolem@ + " occurs in dependency "@
                                        + render(p.expr_at(escape_line(p, s as int, steps@[k0] as int, skolem@))->0) + " that's outside the subproof."@);
                                assert forall|k1: int| #[trigger] first_equal(p, s as int, conclusion@, k1) implies k1 == k0 by {
                                    if k1 < k0 {
                                        assert(p.expr_at(steps@[k1] as int) == Some(conclusion@));
                                    }
                                    if k1 > k0 {
                                        assert(p.expr_at(steps@[k0] as int) == Some(conclusion@));
                                    }
                                }
                            }
                        }
                        match first_problem {
                            Some(err) => Err(err),
                            None => {
                                let mut m = String::from_str("Couldn't find a subproof line equal to the conclusion (");
                                let t = to_text(&conclusion);
                                m.append(t.as_str());
                                m.append(").");
                                Err(ProofCheckError::Other(m))
                            },
                        }
                    },
                    _ => Err(ProofCheckError::DepOfWrongForm(ds[0].clone(), quant_placeholder(QuantKind::Exists))),
                }
            },
        }
    }
}

} // verus!
