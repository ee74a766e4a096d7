//! The checks of the equivalence rules: the dependency and the conclusion
//! must have the same normal form.
use vstd::prelude::*;
use crate::expr::{Expr, Formula, expr_eq};
use crate::error::{ProofCheckError, CheckError};
use crate::prop_rules::{err_is, missing_reported};
use crate::text::render;
use crate::proofs::Proof;
use crate::rules::{BooleanEquivalence, ConditionalEquivalence, QuantifierEquivalence};
use crate::lookup::{deps_exist, dep_expr, lookup_expr_or_die};
use crate::canon::{sort_ops, sort_commutative_ops};
use crate::normal::{demorgan, combine, idem, canon_bound, normalize_demorgans, combine_associative_ops, normalize_idempotence, replacing_bound_vars};
use crate::rewrite::{reduce, reduce_exec, rules_model, REDUCE_FUEL};
use crate::equivs::{Bundle, bundle, bundle_rules};
use crate::text::to_text;
use crate::reach::{reach, reach_exec};
use crate::expr::models;

verus! {

/// `f` reduced by the rules of `b`, with commutative operands sorted
/// afterwards when `commutative` is set.
pub open spec fn by_rules(b: Bundle, commutative: bool, f: Formula) -> Formula {
    let r = reduce(bundle(b), f, REDUCE_FUEL as nat);
    if commutative { sort_ops(r) } else { r }
}

fn by_rules_exec(b: Bundle, commutative: bool, e: &Expr) -> (r: Expr)
    ensures
        r@ == by_rules(b, commutative, e@),
{
    let rules = bundle_rules(b);
    let r = reduce_exec(&rules, e);
    if commutative {
        sort_commutative_ops(&r)
    } else {
        r
    }
}

/// The normal form that a Boolean equivalence compares (reduction, compared
/// by reachable sets instead, leaves the formula as it is).
pub open spec fn boolean_normal(rule: BooleanEquivalence, f: Formula) -> Formula {
    match rule {
        BooleanEquivalence::DeMorgan => demorgan(f, 0),
        BooleanEquivalence::Association => combine(f),
        BooleanEquivalence::Commutation => sort_ops(f),
        BooleanEquivalence::Idempotence => idem(f),
        BooleanEquivalence::DoubleNegation => by_rules(Bundle::DoubleNegation, false, f),
        BooleanEquivalence::Distribution => by_rules(Bundle::Distribution, true, f),
        BooleanEquivalence::Complement => by_rules(Bundle::Complement, false, f),
        BooleanEquivalence::Identity => by_rules(Bundle::Identity, false, f),
        BooleanEquivalence::Annihilation => by_rules(Bundle::Annihilation, false, f),
        BooleanEquivalence::Inverse => by_rules(Bundle::Inverse, false, f),
        BooleanEquivalence::Absorption => by_rules(Bundle::Absorption, false, f),
        BooleanEquivalence::Reduction => f,
        BooleanEquivalence::Adjacency => by_rules(Bundle::Adjacency, false, f),
    }
}

/// How many rewriting steps the reachable sets of reduction follow.
pub const REACH_DEPTH: usize = 3;

/// Whether some expression reached from `a` and some reached from `c` by the
/// reduction rules, within the bound, are equal up to commutative order.
pub open spec fn reduction_meets(a: Formula, c: Formula) -> bool {
    exists|x: Formula, y: Formula| #[trigger] reach(bundle(Bundle::Reduction), a, REACH_DEPTH as nat).contains(x)
        && #[trigger] reach(bundle(Bundle::Reduction), c, REACH_DEPTH as nat).contains(y) && sort_ops(x) == sort_ops(y)
}

/// Whether a Boolean equivalence relates `a` and `c`: by equal normal forms,
/// or, for reduction, whose rules are not confluent, by meeting reachable
/// sets.
pub open spec fn boolean_holds(rule: BooleanEquivalence, a: Formula, c: Formula) -> bool {
    if rule == BooleanEquivalence::Reduction {
        reduction_meets(a, c)
    } else {
        boolean_normal(rule, a) == boolean_normal(rule, c)
    }
}

fn sorted_all(v: &Vec<Expr>) -> (r: Vec<Expr>)
    ensures
        r@.len() == v@.len(),
        forall|i: int| 0 <= i < v@.len() ==> #[trigger] r@[i]@ == sort_ops(v@[i]@),
{
    let mut r: Vec<Expr> = Vec::new();
    let mut i: usize = 0;
    while i < v.len()
        invariant
            0 <= i <= v@.len(),
            r@.len() == i,
            forall|j: int| 0 <= j < i ==> #[trigger] r@[j]@ == sort_ops(v@[j]@),
        decreases v.len() - i,
    {
        r.push(sort_commutative_ops(&v[i]));
        i = i + 1;
    }
    r
}

fn reduction_meets_exec(a: &Expr, c: &Expr) -> (r: bool)
    ensures
        r == reduction_meets(a@, c@),
{
    let rules = bundle_rules(Bundle::Reduction);
    let ra = reach_exec(&rules, a, REACH_DEPTH);
    let rc = reach_exec(&rules, c, REACH_DEPTH);
    proof {
        crate::expr::lemma_models_index(ra@);
        crate::expr::lemma_models_index(rc@);
    }
    let sa = sorted_all(&ra);
    let sc = sorted_all(&rc);
    let ghost ta = reach(bundle(Bundle::Reduction), a@, REACH_DEPTH as nat);
    let ghost tc = reach(bundle(Bundle::Reduction), c@, REACH_DEPTH as nat);
    let mut i: usize = 0;
    while i < sa.len()
        invariant
            0 <= i <= sa@.len(),
            sa@.len() == ra@.len(),
            sc@.len() == rc@.len(),
            forall|k: int| 0 <= k < ra@.len() ==> #[trigger] sa@[k]@ == sort_ops(ra@[k]@),
            forall|k: int| 0 <= k < rc@.len() ==> #[trigger] sc@[k]@ == sort_ops(rc@[k]@),
            forall|k: int| 0 <= k < ra@.len() ==> #[trigger] models(ra@)[k] == ra@[k]@,
            forall|k: int| 0 <= k < rc@.len() ==> #[trigger] models(rc@)[k] == rc@[k]@,
            models(ra@).len() == ra@.len(),
            models(rc@).len() == rc@.len(),
            models(ra@).to_set() == ta,
            models(rc@).to_set() == tc,
            ta == reach(bundle(Bundle::Reduction), a@, REACH_DEPTH as nat),
            tc == reach(bundle(Bundle::Reduction), c@, REACH_DEPTH as nat),
            forall|k: int, l: int| 0 <= k < i && 0 <= l < rc@.len() ==> sort_ops(ra@[k]@) != sort_ops(rc@[l]@),
        decreases sa.len() - i,
    {
        let mut j: usize = 0;
        while j < sc.len()
            invariant
                0 <= i < sa@.len(),
                0 <= j <= sc@.len(),
                sa@.len() == ra@.len(),
                sc@.len() == rc@.len(),
                forall|k: int| 0 <= k < ra@.len() ==> #[trigger] sa@[k]@ == sort_ops(ra@[k]@),
                forall|k: int| 0 <= k < rc@.len() ==> #[trigger] sc@[k]@ == sort_ops(rc@[k]@),
                forall|k: int| 0 <= k < ra@.len() ==> #[trigger] models(ra@)[k] == ra@[k]@,
                forall|k: int| 0 <= k < rc@.len() ==> #[trigger] models(rc@)[k] == rc@[k]@,
                models(ra@).len() == ra@.len(),
                models(rc@).len() == rc@.len(),
                models(ra@).to_set() == ta,
                models(rc@).to_set() == tc,
                ta == reach(bundle(Bundle::Reduction), a@, REACH_DEPTH as nat),
                tc == reach(bundle(Bundle::Reduction), c@, REACH_DEPTH as nat),
                forall|l: int| 0 <= l < j ==> sort_ops(ra@[i as int]@) != sort_ops(rc@[l]@),
            decreases sc.len() - j,
        {
            if expr_eq(&sa[i], &sc[j]) {
                proof {
                    assert(models(ra@).contains(ra@[i as int]@)) by {
                        assert(models(ra@)[i as int] == ra@[i as int]@);
                    }
                    assert(models(rc@).contains(rc@[j as int]@)) by {
                        assert(models(rc@)[j as int] == rc@[j as int]@);
                    }
                    assert(ta.contains(ra@[i as int]@));
                    assert(tc.contains(rc@[j as int]@));
                }
                return true;
            }
            j = j + 1;
        }
        i = i + 1;
    }
    proof {
        if reduction_meets(a@, c@) {
            let (x, y) = choose|x: Formula, y: Formula| #[trigger] ta.contains(x) && #[trigger] tc.contains(y) && sort_ops(x) == sort_ops(y);
            assert(models(ra@).to_set().contains(x));
            assert(models(rc@).to_set().contains(y));
            let k = choose|k: int| 0 <= k < models(ra@).len() && models(ra@)[k] == x;
            let l = choose|l: int| 0 <= l < models(rc@).len() && models(rc@)[l] == y;
            assert(sort_ops(ra@[k]@) != sort_ops(rc@[l]@));
        }
    }
    false
}

/// The normal form that a conditional equivalence compares.
pub open spec fn conditional_normal(rule: ConditionalEquivalence, f: Formula) -> Formula {
    match rule {
        ConditionalEquivalence::Complement => by_rules(Bundle::CondComplement, false, f),
        ConditionalEquivalence::Identity => by_rules(Bundle::CondIdentity, false, f),
        ConditionalEquivalence::Annihilation => by_rules(Bundle::CondAnnihilation, false, f),
        ConditionalEquivalence::Implication => by_rules(Bundle::CondImplication, false, f),
        ConditionalEquivalence::BiImplication => by_rules(Bundle::CondBiImplication, false, f),
        ConditionalEquivalence::Contraposition => by_rules(Bundle::CondContraposition, false, f),
        ConditionalEquivalence::Currying => by_rules(Bundle::CondCurrying, false, f),
        ConditionalEquivalence::ConditionalDistribution => by_rules(Bundle::CondDistribution, true, f),
        ConditionalEquivalence::ConditionalReduction => by_rules(Bundle::CondReduction, true, f),
        ConditionalEquivalence::KnightsAndKnaves => by_rules(Bundle::KnightsAndKnaves, true, f),
        ConditionalEquivalence::ConditionalIdempotence => by_rules(Bundle::CondIdempotence, true, f),
        ConditionalEquivalence::BiconditionalNegation => by_rules(Bundle::BiconditionalNegation, true, f),
        ConditionalEquivalence::BiconditionalSubstitution => by_rules(Bundle::BiconditionalSubstitution, true, f),
    }
}

/// The normal form that a quantifier equivalence compares.
pub open spec fn quantifier_normal(rule: QuantifierEquivalence, f: Formula) -> Formula {
    match rule {
        QuantifierEquivalence::QuantifierNegation => by_rules(Bundle::QuantifierNegation, false, f),
        QuantifierEquivalence::NullQuantification => by_rules(Bundle::NullQuantification, false, f),
        QuantifierEquivalence::ReplacingBoundVars => canon_bound(f, seq!['_']),
        QuantifierEquivalence::SwappingQuantifiers => by_rules(Bundle::SwappingQuantifiers, false, f),
        QuantifierEquivalence::AristoteleanSquare => by_rules(Bundle::AristoteleanSquare, false, f),
        QuantifierEquivalence::QuantifierDistribution => by_rules(Bundle::QuantifierDistribution, false, f),
        QuantifierEquivalence::PrenexLaws => by_rules(Bundle::PrenexLaws, false, f),
    }
}

fn boolean_normal_exec(rule: BooleanEquivalence, e: &Expr) -> (r: Expr)
    ensures
        r@ == boolean_normal(rule, e@),
{
    match rule {
        BooleanEquivalence::DeMorgan => normalize_demorgans(e),
        BooleanEquivalence::Association => combine_associative_ops(e),
        BooleanEquivalence::Commutation => sort_commutative_ops(e),
        BooleanEquivalence::Idempotence => normalize_idempotence(e),
        BooleanEquivalence::DoubleNegation => by_rules_exec(Bundle::DoubleNegation, false, e),
        BooleanEquivalence::Distribution => by_rules_exec(Bundle::Distribution, true, e),
        BooleanEquivalence::Complement => by_rules_exec(Bundle::Complement, false, e),
        BooleanEquivalence::Identity => by_rules_exec(Bundle::Identity, false, e),
        BooleanEquivalence::Annihilation => by_rules_exec(Bundle::Annihilation, false, e),
        BooleanEquivalence::Inverse => by_rules_exec(Bundle::Inverse, false, e),
        BooleanEquivalence::Absorption => by_rules_exec(Bundle::Absorption, false, e),
        BooleanEquivalence::Reduction => e.clone(),
        BooleanEquivalence::Adjacency => by_rules_exec(Bundle::Adjacency, false, e),
    }
}

fn conditional_normal_exec(rule: ConditionalEquivalence, e: &Expr) -> (r: Expr)
    ensures
        r@ == conditional_normal(rule, e@),
{
    match rule {
        ConditionalEquivalence::Complement => by_rules_exec(Bundle::CondComplement, false, e),
        ConditionalEquivalence::Identity => by_rules_exec(Bundle::CondIdentity, false, e),
        ConditionalEquivalence::Annihilation => by_rules_exec(Bundle::CondAnnihilation, false, e),
        ConditionalEquivalence::Implication => by_rules_exec(Bundle::CondImplication, false, e),
        ConditionalEquivalence::BiImplication => by_rules_exec(Bundle::CondBiImplication, false, e),
        ConditionalEquivalence::Contraposition => by_rules_exec(Bundle::CondContraposition, false, e),
        ConditionalEquivalence::Currying => by_rules_exec(Bundle::CondCurrying, false, e),
        ConditionalEquivalence::ConditionalDistribution => by_rules_exec(Bundle::CondDistribution, true, e),
        ConditionalEquivalence::ConditionalReduction => by_rules_exec(Bundle::CondReduction, true, e),
        ConditionalEquivalence::KnightsAndKnaves => by_rules_exec(Bundle::KnightsAndKnaves, true, e),
        ConditionalEquivalence::ConditionalIdempotence => by_rules_exec(Bundle::CondIdempotence, true, e),
        ConditionalEquivalence::BiconditionalNegation => by_rules_exec(Bundle::BiconditionalNegation, true, e),
        ConditionalEquivalence::BiconditionalSubstitution => by_rules_exec(Bundle::BiconditionalSubstitution, true, e),
    }
}

fn quantifier_normal_exec(rule: QuantifierEquivalence, e: &Expr) -> (r: Expr)
    ensures
        r@ == quantifier_normal(rule, e@),
{
    match rule {
        QuantifierEquivalence::QuantifierNegation => by_rules_exec(Bundle::QuantifierNegation, false, e),
        QuantifierEquivalence::NullQuantification => by_rules_exec(Bundle::NullQuantification, false, e),
        QuantifierEquivalence::ReplacingBoundVars => replacing_bound_vars(e),
        QuantifierEquivalence::SwappingQuantifiers => by_rules_exec(Bundle::SwappingQuantifiers, false, e),
        QuantifierEquivalence::AristoteleanSquare => by_rules_exec(Bundle::AristoteleanSquare, false, e),
        QuantifierEquivalence::QuantifierDistribution => by_rules_exec(Bundle::QuantifierDistribution, false, e),
        QuantifierEquivalence::PrenexLaws => by_rules_exec(Bundle::PrenexLaws, false, e),
    }
}

/// The message for two expressions that an equivalence does not relate.
pub open spec fn not_equal_message(a: Formula, b: Formula) -> Seq<char> {
    render(a) + " and "@ + render(b) + " are not equal."@
}

/// Success when the two normal forms are equal; otherwise the error that
/// shows them.
fn same_normal_form(a: &Expr, b: &Expr) -> (r: Result<(), ProofCheckError>)
    ensures
        r is Err ==> crate::error::err_wf(r->Err_0@),
        r is Ok <==> a@ == b@,
        r is Err ==> err_is(r, CheckError::Other(not_equal_message(a@, b@))),
{
    if expr_eq(a, b) {
        Ok(())
    } else {
        let mut m = to_text(a);
        m.append(" and ");
        let t = to_text(b);
        m.append(t.as_str());
        m.append(" are not equal.");
        Err(ProofCheckError::Other(m))
    }
}

impl BooleanEquivalence {
    /// Checks a step by this rule: the cited line must exist, and then the
    /// step is valid exactly when both sides have the same normal form.
    pub fn check(self, p: &Proof, conclusion: Expr, deps: Vec<usize>) -> (r: Result<(), ProofCheckError>)
        requires
            deps@.len() == 1,
        ensures
            r is Err ==> crate::error::err_wf(r->Err_0@),
            r is Ok ==> deps_exist(p, deps@),
            deps_exist(p, deps@) ==> (r is Ok <==> boolean_holds(self, dep_expr(p, deps@, 0), conclusion@)),
            missing_reported(p, deps@, seq![], r),
            deps_exist(p, deps@) && r is Err ==> err_is(r, CheckError::Other(not_equal_message(
                boolean_normal(self, dep_expr(p, deps@, 0)), boolean_normal(self, conclusion@)))),
    {
        let prem = match lookup_expr_or_die(p, deps[0]) {
            Ok(e) => e,
            Err(e) => {
                return Err(e);
            },
        };
        if self == BooleanEquivalence::Reduction {
            if reduction_meets_exec(&prem, &conclusion) {
                return Ok(());
            }
            let mut m = to_text(&prem);
            m.append(" and ");
            m.append(to_text(&conclusion).as_str());
            m.append(" are not equal.");
            return Err(ProofCheckError::Other(m));
        }
        let a = boolean_normal_exec(self, &prem);
        let b = boolean_normal_exec(self, &conclusion);
        same_normal_form(&a, &b)
    }
}

impl ConditionalEquivalence {
    /// Checks a step by this rule: the cited line must exist, and then the
    /// step is valid exactly when both sides have the same normal form.
    pub fn check(self, p: &Proof, conclusion: Expr, deps: Vec<usize>) -> (r: Result<(), ProofCheckError>)
        requires
            deps@.len() == 1,
        ensures
            r is Err ==> crate::error::err_wf(r->Err_0@),
            r is Ok ==> deps_exist(p, deps@),
            deps_exist(p, deps@) ==> (r is Ok <==> conditional_normal(self, dep_expr(p, deps@, 0)) == conditional_normal(self, conclusion@)),
            missing_reported(p, deps@, seq![], r),
            deps_exist(p, deps@) && r is Err ==> err_is(r, CheckError::Other(not_equal_message(
                conditional_normal(self, dep_expr(p, deps@, 0)), conditional_normal(self, conclusion@)))),
    {
        let prem = match lookup_expr_or_die(p, deps[0]) {
            Ok(e) => e,
            Err(e) => {
                return Err(e);
            },
        };
        let a = conditional_normal_exec(self, &prem);
        let b = conditional_normal_exec(self, &conclusion);
        same_normal_form(&a, &b)
    }
}

impl QuantifierEquivalence {
    /// Checks a step by this rule: the cited line must exist, and then the
    /// step is valid exactly when both sides have the same normal form.
    pub fn check(self, p: &Proof, conclusion: Expr, deps: Vec<usize>) -> (r: Result<(), ProofCheckError>)
        requires
            deps@.len() == 1,
        ensures
            r is Err ==> crate::error::err_wf(r->Err_0@),
            r is Ok ==> deps_exist(p, deps@),
            deps_exist(p, deps@) ==> (r is Ok <==> quantifier_normal(self, dep_expr(p, deps@, 0)) == quantifier_normal(self, conclusion@)),
            missing_reported(p, deps@, seq![], r),
            deps_exist(p, deps@) && r is Err ==> err_is(r, CheckError::Other(not_equal_message(
                quantifier_normal(self, dep_expr(p, deps@, 0)), quantifier_normal(self, conclusion@)))),
    {
        let prem = match lookup_expr_or_die(p, deps[0]) {
            Ok(e) => e,
            Err(e) => {
                return Err(e);
            },
        };
        let a = quantifier_normal_exec(self, &prem);
        let b = quantifier_normal_exec(self, &conclusion);
        same_normal_form(&a, &b)
    }
}

} // verus!
