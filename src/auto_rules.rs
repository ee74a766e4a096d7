//! The rules decided by a search: resolution and tautological consequence.
use vstd::prelude::*;
use varisat::ExtendFormula;
use crate::expr::{Expr, Formula, Op, models, lemma_models_index, not, implication};
use crate::error::{ProofCheckError, CheckError};
use crate::proofs::Proof;
use crate::rules::AutomationRelatedRules;
use crate::lookup::{deps_exist, dep_expr, lookup_all};
use crate::cnf::{clause_holds, propositional, eval, eval_all, eval_cnf, clauses_view, clause_view, names_view, cnf_of, atoms, through, into_cnf, lemma_cnf_sound, lemma_assignment_from_atoms, lits_below, index_of};
use crate::algebra::size;
use crate::resolution::{resolves, check_resolution, resolution_errors};
use crate::prop_rules::{err_is, missing_reported};

verus! {

/// The largest variable index that the solver accepts.
pub const VAR_LIMIT: usize = 268435455;

/// What the solver found.
pub enum SatOutcome {
    /// A set of literals that satisfies every clause.
    Satisfiable(Vec<(usize, bool)>),
    Unsatisfiable,
    Failed,
}

/// Whether some literal of `clause` is among `model`.
pub open spec fn model_meets(model: Seq<(usize, bool)>, clause: Seq<(usize, bool)>) -> bool {
    exists|j: int| 0 <= j < clause.len() && model.contains(#[trigger] clause[j])
}

/// Relies on varisat's `Solver`: `solve` answers `Ok(false)` exactly when the
/// clauses have no satisfying assignment and `Ok(true)` otherwise, failing
/// only when interrupted or when a proof is being written, neither of which
/// is set up here; after `Ok(true)`, `model` gives literals that satisfy
/// every clause.
#[verifier::external_body]
fn solve_clauses(clauses: &Vec<Vec<(usize, bool)>>) -> (r: SatOutcome)
    requires
        forall|k: int, j: int| 0 <= k < clauses@.len() && 0 <= j < clauses@[k]@.len() ==> #[trigger] clauses@[k]@[j].0 <= VAR_LIMIT,
    ensures
        r is Unsatisfiable <==> forall|v: spec_fn(int) -> bool| !eval_cnf(clauses_view(clauses@), v),
        !(r is Failed),
        r is Satisfiable ==> forall|k: int| 0 <= k < clauses@.len() ==> #[trigger] model_meets(r->Satisfiable_0@, clauses@[k]@),
        r is Satisfiable ==> forall|i: usize| !(#[trigger] r->Satisfiable_0@.contains((i, true)) && r->Satisfiable_0@.contains((i, false))),
{
    let mut solver = varisat::Solver::new();
    for clause in clauses.iter() {
        let lits: Vec<varisat::Lit> = clause.iter().map(|&(v, p)| varisat::Lit::from_index(v, p)).collect();
        solver.add_clause(&lits);
    }
    match solver.solve() {
        Ok(true) => match solver.model() {
            Some(m) => SatOutcome::Satisfiable(m.iter().map(|l| (l.index(), l.is_positive())).collect()),
            None => SatOutcome::Failed,
        },
        Ok(false) => SatOutcome::Unsatisfiable,
        Err(_) => SatOutcome::Failed,
    }
}

/// Whether every variable index in `clauses` is one the solver accepts.
fn indices_within(clauses: &Vec<Vec<(usize, bool)>>) -> (r: bool)
    ensures
        r == forall|k: int, j: int| 0 <= k < clauses@.len() && 0 <= j < clauses@[k]@.len() ==> #[trigger] clauses@[k]@[j].0 <= VAR_LIMIT,
{
    let mut k: usize = 0;
    while k < clauses.len()
        invariant
            0 <= k <= clauses@.len(),
            forall|kk: int, j: int| 0 <= kk < k && 0 <= j < clauses@[kk]@.len() ==> #[trigger] clauses@[kk]@[j].0 <= VAR_LIMIT,
        decreases clauses.len() - k,
    {
        let c = &clauses[k];
        let mut j: usize = 0;
        while j < c.len()
            invariant
                0 <= k < clauses@.len(),
                c@ == clauses@[k as int]@,
                0 <= j <= c@.len(),
                forall|kk: int, jj: int| 0 <= kk < k && 0 <= jj < clauses@[kk]@.len() ==> #[trigger] clauses@[kk]@[jj].0 <= VAR_LIMIT,
                forall|jj: int| 0 <= jj < j ==> #[trigger] c@[jj].0 <= VAR_LIMIT,
            decreases c.len() - j,
        {
            if c[j].0 > VAR_LIMIT {
                assert(clauses@[k as int]@[j as int].0 > VAR_LIMIT);
                return false;
            }
            j = j + 1;
        }
        k = k + 1;
    }
    true
}

/// Whether the conjunction of `premises` implies `c` under every truth
/// assignment.
pub open spec fn entails(premises: Seq<Formula>, c: Formula) -> bool {
    forall|a: spec_fn(Seq<char>) -> bool| eval_all(premises, a, true) ==> #[trigger] eval(c, a)
}

/// The formula that is unsatisfiable exactly when `premises` entail `c`.
pub open spec fn refutation(premises: Seq<Formula>, c: Formula) -> Formula {
    Formula::Not {
        operand: Box::new(Formula::Impl {
            left: Box::new(Formula::Assoc { op: Op::And, exprs: premises }),
            right: Box::new(c),
        }),
    }
}

/// "name = T" or "name = F" for each literal of `model` whose variable has
/// a name.
pub open spec fn model_entries(model: Seq<(usize, bool)>, names: Seq<Seq<char>>) -> Seq<Seq<char>>
    decreases model.len(),
{
    if model.len() == 0 {
        Seq::empty()
    } else {
        let rest = model_entries(model.drop_last(), names);
        let (v, value) = model.last();
        if v < names.len() {
            rest.push(names[v as int] + if value { " = T"@ } else { " = F"@ })
        } else {
            rest
        }
    }
}

/// The texts `s` joined by commas.
pub open spec fn join_commas(s: Seq<Seq<char>>) -> Seq<char>
    decreases s.len(),
{
    if s.len() == 0 {
        Seq::empty()
    } else if s.len() == 1 {
        s[0]
    } else {
        join_commas(s.drop_last()) + ", "@ + s.last()
    }
}

/// The truth assignment that a model gives the named atoms.
pub open spec fn model_assignment(model: Seq<(usize, bool)>, names: Seq<Seq<char>>) -> spec_fn(Seq<char>) -> bool {
    |x: Seq<char>| exists|k: int| 0 <= k < model.len() && (#[trigger] model[k]).0 < names.len() && names[model[k].0 as int] == x && model[k].1
}

/// Whether `a` makes every premise true and `c` false.
pub open spec fn counterexample(ps: Seq<Formula>, c: Formula, a: spec_fn(Seq<char>) -> bool) -> bool {
    eval_all(ps, a, true) && !eval(c, a)
}

/// "name = T" or "name = F" for each literal of the model, joined by commas.
fn describe_model(model: &Vec<(usize, bool)>, names: &Vec<String>) -> (m: String)
    ensures
        m@ == join_commas(model_entries(model@, names_view(names@))),
{
    let mut m = String::new();
    let mut i: usize = 0;
    let mut first = true;
    let ghost nv = names_view(names@);
    assert(model@.subrange(0, 0) =~= Seq::<(usize, bool)>::empty());
    proof {
        reveal_strlit(", ");
        reveal_strlit(" = T");
        reveal_strlit(" = F");
    }
    while i < model.len()
        invariant
            0 <= i <= model@.len(),
            nv == names_view(names@),
            m@ == join_commas(model_entries(model@.subrange(0, i as int), nv)),
            first == (model_entries(model@.subrange(0, i as int), nv).len() == 0),
        decreases model.len() - i,
    {
        proof {
            let next = model@.subrange(0, i + 1);
            assert(next.drop_last() =~= model@.subrange(0, i as int));
            assert(next.last() == model@[i as int]);
        }
        let (v, value) = model[i];
        if v < names.len() {
            let ghost before = model_entries(model@.subrange(0, i as int), nv);
            let ghost entry = nv[v as int] + if value { " = T"@ } else { " = F"@ };
            if !first {
                m.append(", ");
            }
            m.append(names[v].as_str());
            m.append(if value { " = T" } else { " = F" });
            proof {
                let after = before.push(entry);
                if before.len() == 0 {
                    assert(m@ =~= entry);
                    assert(join_commas(after) == after[0]);
                } else {
                    assert(after.drop_last() =~= before);
                    assert(m@ =~= join_commas(before) + ", "@ + entry);
                }
            }
            first = false;
        }
        i = i + 1;
    }
    assert(model@.subrange(0, model@.len() as int) =~= model@);
    m
}

/// Whether `p` starts `m`.
pub open spec fn starts_with(m: Seq<char>, p: Seq<char>) -> bool {
    p.len() <= m.len() && m.subrange(0, p.len() as int) == p
}

/// The message for formulas that are not propositional.
pub open spec fn cnf_failure() -> Seq<char> {
    "Failed converting to CNF; the propositions for this rule should not use quantifiers, arithmetic, or application."@
}

/// The start of the message that gives a counterexample.
pub open spec fn counterexample_prefix() -> Seq<char> {
    "Not true by tautological consequence; Counterexample: "@
}

/// A model of the clauses of the refutation describes a counterexample.
proof fn lemma_model_counterexample(sat: Formula, ps: Seq<Formula>, c: Formula, model: Seq<(usize, bool)>,
    names: Seq<Seq<char>>, clauses: Seq<Vec<(usize, bool)>>)
    requires
        sat == refutation(ps, c),
        propositional(sat),
        clauses_view(clauses) == cnf_of(sat, true, names),
        forall|x: Seq<char>| atoms(sat).contains(x) ==> names.contains(x),
        names.no_duplicates(),
        names.len() <= usize::MAX,
        lits_below(clauses_view(clauses), names.len() as int),
        forall|k: int| 0 <= k < clauses.len() ==> #[trigger] model_meets(model, clauses[k]@),
        forall|i: usize| !(#[trigger] model.contains((i, true)) && model.contains((i, false))),
    ensures
        counterexample(ps, c, model_assignment(model, names)),
{
    let a = model_assignment(model, names);
    let v = |i: int| 0 <= i && model.contains((i as usize, true));
    let cs = clauses_view(clauses);
    assert forall|k: int| 0 <= k < cs.len() implies clause_holds(#[trigger] cs[k], v) by {
        assert(model_meets(model, clauses[k]@));
        let j = choose|j: int| 0 <= j < clauses[k]@.len() && model.contains(#[trigger] clauses[k]@[j]);
        let (idx, pol) = clauses[k]@[j];
        assert(cs[k] == clause_view(clauses[k]@));
        assert(cs[k][j] == (idx as int, pol));
        assert(v(idx as int) == pol);
    }
    assert(eval_cnf(cs, v));
    assert forall|i: int| 0 <= i < names.len() implies #[trigger] v(i) == through(names, a)(i) by {
        if v(i) {
            let k = choose|k: int| 0 <= k < model.len() && model[k] == (i as usize, true);
            assert((i as usize) as int == i);
            assert(model[k].0 < names.len() && names[model[k].0 as int] == names[i] && model[k].1);
        }
        if a(names[i]) {
            let k = choose|k: int| 0 <= k < model.len() && (#[trigger] model[k]).0 < names.len()
                && names[model[k].0 as int] == names[i] && model[k].1;
            assert(model[k].0 as int == i);
            assert(model[k] == (i as usize, true));
        }
    }
    crate::cnf::lemma_eval_agree(cs, names.len() as int, v, through(names, a));
    lemma_cnf_sound(sat, names, a);
    let conj = Formula::Assoc { op: Op::And, exprs: ps };
    let imp = Formula::Impl { left: Box::new(conj), right: Box::new(c) };
    assert(eval(sat, a) == !eval(imp, a));
    assert(eval(imp, a) == (!eval(conj, a) || eval(c, a)));
    assert(eval(conj, a) == eval_all(ps, a, true));
}

/// Checks that the conjunction of `premises` implies `c`, by asking a SAT
/// solver for an assignment that makes the premises true and `c` false.
/// Formulas of more nodes than the solver has variables are refused.
pub fn check_tautological_consequence(premises: Vec<Expr>, c: &Expr) -> (r: Result<(), ProofCheckError>)
    ensures
        r is Err ==> crate::error::err_wf(r->Err_0@),
        r is Ok ==> propositional(refutation(models(premises@), c@)) && entails(models(premises@), c@),
        !propositional(refutation(models(premises@), c@)) ==> r is Err && r->Err_0@ == CheckError::Other(cnf_failure()),
        propositional(refutation(models(premises@), c@)) && size(refutation(models(premises@), c@)) <= VAR_LIMIT ==> {
            &&& (r is Ok <==> entails(models(premises@), c@))
            &&& r is Err ==> r->Err_0 is Other && starts_with(r->Err_0@->Other_0, counterexample_prefix())
            &&& r is Err ==> exists|model: Seq<(usize, bool)>, names: Seq<Seq<char>>|
                r->Err_0@->Other_0 == counterexample_prefix() + #[trigger] join_commas(model_entries(model, names))
                && counterexample(models(premises@), c@, model_assignment(model, names))
        },
{
    let ghost ps = models(premises@);
    let sat = not(implication(Expr::Assoc { op: Op::And, exprs: premises }, c.clone()));
    assert(sat@ == refutation(ps, c@));
    match into_cnf(&sat) {
        None => {
            proof {
                reveal_strlit("Failed converting to CNF; the propositions for this rule should not use quantifiers, arithmetic, or application.");
            }
            Err(ProofCheckError::Other(String::from_str("Failed converting to CNF; the propositions for this rule should not use quantifiers, arithmetic, or application.")))
        },
        Some((clauses, names)) => {
            let ghost nv = names_view(names@);
            if !indices_within(&clauses) {
                proof {
                    if size(sat@) <= VAR_LIMIT {
                        assert(lits_below(clauses_view(clauses@), names@.len() as int));
                        assert forall|k: int, j: int| 0 <= k < clauses@.len() && 0 <= j < clauses@[k]@.len() implies #[trigger] clauses@[k]@[j].0 <= VAR_LIMIT by {
                            assert(clauses_view(clauses@)[k] == clause_view(clauses@[k]@));
                            assert(clauses_view(clauses@)[k][j] == (clauses@[k]@[j].0 as int, clauses@[k]@[j].1));
                        }
                    }
                }
                return Err(ProofCheckError::Other(String::from_str("The propositions have too many atoms for the solver.")));
            }
            match solve_clauses(&clauses) {
                SatOutcome::Unsatisfiable => {
                    proof {
                        assert forall|a: spec_fn(Seq<char>) -> bool| eval_all(ps, a, true) implies #[trigger] eval(c@, a) by {
                            assert(propositional(sat@));
                            lemma_cnf_sound(sat@, nv, a);
                            assert(!eval_cnf(clauses_view(clauses@), through(nv, a)));
                            assert(!eval(sat@, a));
                            let imp = Formula::Impl { left: Box::new(Formula::Assoc { op: Op::And, exprs: ps }), right: Box::new(c@) };
                            assert(eval(Formula::Assoc { op: Op::And, exprs: ps }, a) == eval_all(ps, a, true));
                            assert(eval(imp, a));
                        }
                    }
                    Ok(())
                },
                SatOutcome::Satisfiable(model) => {
                    proof {
                        assert(exists|v: spec_fn(int) -> bool| eval_cnf(clauses_view(clauses@), v));
                        if entails(ps, c@) {
                            let v = choose|v: spec_fn(int) -> bool| eval_cnf(clauses_view(clauses@), v);
                            let a = |x: Seq<char>| v(index_of(nv, x));
                            lemma_assignment_from_atoms(sat@, nv, v, a);
                            lemma_cnf_sound(sat@, nv, a);
                            assert(eval(sat@, a));
                            let conj = Formula::Assoc { op: Op::And, exprs: ps };
                            let imp = Formula::Impl { left: Box::new(conj), right: Box::new(c@) };
                            assert(eval(sat@, a) == !eval(imp, a));
                            assert(eval(imp, a) == (!eval(conj, a) || eval(c@, a)));
                            assert(eval(conj, a) == eval_all(ps, a, true));
                            assert(eval_all(ps, a, true) ==> eval(c@, a));
                        }
                        reveal_strlit("Not true by tautological consequence; Counterexample: ");
                    }
                    let mut m = String::from_str("Not true by tautological consequence; Counterexample: ");
                    let ghost pre = m@;
                    let d = describe_model(&model, &names);
                    m.append(d.as_str());
                    assert(m@.subrange(0, pre.len() as int) =~= pre);
                    assert(starts_with(m@, counterexample_prefix()));
                    proof {
                        assert(nv.len() == names@.len());
                        assert(names@.len() == names.len());
                        lemma_model_counterexample(sat@, ps, c@, model@, nv, clauses@);
                        assert(m@ == counterexample_prefix() + join_commas(model_entries(model@, nv)));
                    }
                    Err(ProofCheckError::Other(m))
                },
                SatOutcome::Failed => Err(ProofCheckError::Other(String::from_str("The SAT solver failed."))),
            }
        },
    }
}

/// What a step by the rule guarantees, given that every cited line exists.
pub open spec fn automation_holds(rule: AutomationRelatedRules, p: &Proof, c: Formula, deps: Seq<usize>, ok: bool) -> bool {
    match rule {
        AutomationRelatedRules::AsymmetricTautology => !ok,
        AutomationRelatedRules::Resolution => ok == resolves(dep_expr(p, deps, 0), dep_expr(p, deps, 1), c),
        AutomationRelatedRules::TautologicalConsequence => {
            let ps = Seq::new(deps.len(), |i: int| dep_expr(p, deps, i));
            &&& ok ==> propositional(refutation(ps, c)) && entails(ps, c)
            &&& !propositional(refutation(ps, c)) ==> !ok
            &&& propositional(refutation(ps, c)) && size(refutation(ps, c)) <= VAR_LIMIT ==> (ok <==> entails(ps, c))
        },
    }
}

/// The error that a step by the rule reports, given that every cited line
/// exists.
pub open spec fn automation_errors(rule: AutomationRelatedRules, p: &Proof, c: Formula, deps: Seq<usize>, r: Result<(), ProofCheckError>) -> bool {
    match rule {
        AutomationRelatedRules::AsymmetricTautology => err_is(r, CheckError::Other("not implemented"@)),
        AutomationRelatedRules::Resolution => resolution_errors(dep_expr(p, deps, 0), dep_expr(p, deps, 1), c, r),
        AutomationRelatedRules::TautologicalConsequence => {
            let ps = Seq::new(deps.len(), |i: int| dep_expr(p, deps, i));
            &&& !propositional(refutation(ps, c)) ==> err_is(r, CheckError::Other(cnf_failure()))
            &&& propositional(refutation(ps, c)) && size(refutation(ps, c)) <= VAR_LIMIT && r is Err
                ==> r->Err_0 is Other && starts_with(r->Err_0@->Other_0, counterexample_prefix())
            &&& propositional(refutation(ps, c)) && size(refutation(ps, c)) <= VAR_LIMIT && r is Err
                ==> exists|model: Seq<(usize, bool)>, names: Seq<Seq<char>>|
                    r->Err_0@->Other_0 == counterexample_prefix() + #[trigger] join_commas(model_entries(model, names))
                    && counterexample(ps, c, model_assignment(model, names))
        },
    }
}

impl AutomationRelatedRules {
    /// Checks a step by this rule. Every cited line must exist. Asymmetric
    /// tautology is not available and always fails; resolution is valid
    /// exactly when `resolves` says so; tautological consequence is valid
    /// exactly when the formulas are propositional and the premises entail
    /// the conclusion (formulas beyond the solver's number of variables are
    /// refused).
    pub fn check(self, p: &Proof, conclusion: Expr, deps: Vec<usize>) -> (r: Result<(), ProofCheckError>)
        requires
            self == AutomationRelatedRules::Resolution ==> deps@.len() == 2,
        ensures
            r is Err ==> crate::error::err_wf(r->Err_0@),
            r is Ok ==> deps_exist(p, deps@),
            self == AutomationRelatedRules::AsymmetricTautology ==> err_is(r, CheckError::Other("not implemented"@)),
            self != AutomationRelatedRules::AsymmetricTautology ==> missing_reported(p, deps@, seq![], r),
            deps_exist(p, deps@) ==> automation_holds(self, p, conclusion@, deps@, r is Ok) && automation_errors(self, p, conclusion@, deps@, r),
    {
        match self {
            AutomationRelatedRules::AsymmetricTautology => Err(ProofCheckError::Other(String::from_str("not implemented"))),
            AutomationRelatedRules::Resolution => {
                let ds = match lookup_all(p, &deps) {
                    Ok(ds) => ds,
                    Err(e) => {
                        return Err(e);
                    },
                };
                proof {
                    assert(ds@[0]@ == dep_expr(p, deps@, 0));
                    assert(ds@[1]@ == dep_expr(p, deps@, 1));
                }
                check_resolution(&ds[0], &ds[1], &conclusion)
            },
            AutomationRelatedRules::TautologicalConsequence => {
                let ds = match lookup_all(p, &deps) {
                    Ok(ds) => ds,
                    Err(e) => {
                        return Err(e);
                    },
                };
                proof {
                    lemma_models_index(ds@);
                    assert forall|i: int| 0 <= i < deps@.len() implies #[trigger] models(ds@)[i] == dep_expr(p, deps@, i) by {
                        assert(ds@[i]@ == dep_expr(p, deps@, i));
                    }
                    assert(models(ds@) =~= Seq::new(deps@.len(), |i: int| dep_expr(p, deps@, i)));
                }
                check_tautological_consequence(ds, &conclusion)
            },
        }
    }
}

} // verus!
