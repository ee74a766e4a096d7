//! Checking a step: the checks shared by every rule, then the rule's own.
use vstd::prelude::*;
use crate::expr::{Expr, Formula};
use crate::error::{ProofCheckError, CheckError};
use crate::proofs::Proof;
use crate::rules::{Rule, AutomationRelatedRules, RuleClassification, spec_all_rules, all_rules};
use crate::lookup::{deps_exist, dep_expr};
use crate::subproofs::subs_exist;
use crate::prop_rules::{prop_holds, redundant_holds, prop_outcome, redundant_errors, missing_reported, err_is};
use crate::pred_rules::pred_errors;
use crate::auto_rules::{automation_holds, automation_errors};
use crate::equiv_rules::{not_equal_message, boolean_normal};
use crate::pred_rules::pred_holds;
use crate::equiv_rules::{boolean_holds, conditional_normal, quantifier_normal};
use crate::auto_rules::{refutation, entails, VAR_LIMIT};
use crate::algebra::size;
use crate::resolution::resolves;
use crate::cnf::propositional;

verus! {

/// Whether the numbers of dependencies are those the rule expects.
pub open spec fn arity_fits(rule: Rule, deps: Seq<usize>, sdeps: Seq<usize>) -> bool {
    deps_fit(rule, deps) && subdeps_fit(rule, sdeps)
}

pub open spec fn deps_fit(rule: Rule, deps: Seq<usize>) -> bool {
    match rule.expected_deps() {
        Some(n) => deps.len() == n,
        None => true,
    }
}

pub open spec fn subdeps_fit(rule: Rule, sdeps: Seq<usize>) -> bool {
    match rule.expected_subdeps() {
        Some(m) => sdeps.len() == m,
        None => true,
    }
}

/// Whether the step with conclusion `c`, citing `deps` and `sdeps`, is a
/// valid application of the rule, given that everything cited exists.
pub open spec fn step_holds(rule: Rule, p: &Proof, c: Formula, deps: Seq<usize>, sdeps: Seq<usize>) -> bool {
    match rule {
        Rule::Prepositional(r) => prop_holds(r, p, c, deps, sdeps),
        Rule::Predicate(r) => pred_holds(r, p, c, deps, sdeps),
        Rule::Redundant(r) => redundant_holds(r, p, c, deps),
        Rule::Boolean(r) => boolean_holds(r, dep_expr(p, deps, 0), c),
        Rule::Conditional(r) => conditional_normal(r, dep_expr(p, deps, 0)) == conditional_normal(r, c),
        Rule::Automation(r) => match r {
            AutomationRelatedRules::AsymmetricTautology => false,
            AutomationRelatedRules::Resolution => resolves(dep_expr(p, deps, 0), dep_expr(p, deps, 1), c),
            AutomationRelatedRules::TautologicalConsequence => {
                let ps = Seq::new(deps.len(), |i: int| dep_expr(p, deps, i));
                propositional(refutation(ps, c)) && entails(ps, c)
            },
        },
        Rule::Quantifier(r) => quantifier_normal(r, dep_expr(p, deps, 0)) == quantifier_normal(r, c),
        Rule::Empty(_) => false,
    }
}

/// Whether the step is within the checker's limits: for tautological
/// consequence, the formula handed to the solver has no more nodes than the
/// solver has variables.
pub open spec fn within_limits(rule: Rule, p: &Proof, c: Formula, deps: Seq<usize>) -> bool {
    rule == Rule::Automation(AutomationRelatedRules::TautologicalConsequence)
        ==> size(refutation(Seq::new(deps.len(), |i: int| dep_expr(p, deps, i)), c)) <= VAR_LIMIT
}

/// What the check of the rule's family returns: the missing reference, or
/// the family's verdict with its error.
pub open spec fn family_outcome(rule: Rule, p: &Proof, c: Formula, deps: Seq<usize>, sdeps: Seq<usize>, r: Result<(), ProofCheckError>) -> bool {
    let d0 = dep_expr(p, deps, 0);
    match rule {
        Rule::Prepositional(x) => prop_outcome(x, p, c, deps, sdeps, r),
        Rule::Predicate(x) => missing_reported(p, deps, sdeps, r) && (deps_exist(p, deps) && subs_exist(p, sdeps)
            ==> (r is Ok <==> pred_holds(x, p, c, deps, sdeps)) && pred_errors(x, p, c, deps, sdeps, r)),
        Rule::Redundant(x) => missing_reported(p, deps, seq![], r) && (deps_exist(p, deps)
            ==> (r is Ok <==> redundant_holds(x, p, c, deps)) && redundant_errors(x, p, c, deps, r)),
        Rule::Boolean(x) => missing_reported(p, deps, seq![], r) && (deps_exist(p, deps)
            ==> (r is Ok <==> boolean_holds(x, d0, c)) && (r is Err ==> err_is(r, CheckError::Other(not_equal_message(boolean_normal(x, d0), boolean_normal(x, c)))))),
        Rule::Conditional(x) => missing_reported(p, deps, seq![], r) && (deps_exist(p, deps)
            ==> (r is Ok <==> conditional_normal(x, d0) == conditional_normal(x, c)) && (r is Err ==> err_is(r, CheckError::Other(not_equal_message(conditional_normal(x, d0), conditional_normal(x, c)))))),
        Rule::Quantifier(x) => missing_reported(p, deps, seq![], r) && (deps_exist(p, deps)
            ==> (r is Ok <==> quantifier_normal(x, d0) == quantifier_normal(x, c)) && (r is Err ==> err_is(r, CheckError::Other(not_equal_message(quantifier_normal(x, d0), quantifier_normal(x, c)))))),
        Rule::Automation(x) => (x == AutomationRelatedRules::AsymmetricTautology ==> err_is(r, CheckError::Other("not implemented"@)))
            && (x != AutomationRelatedRules::AsymmetricTautology ==> missing_reported(p, deps, seq![], r))
            && (deps_exist(p, deps) ==> automation_holds(x, p, c, deps, r is Ok) && automation_errors(x, p, c, deps, r)),
        Rule::Empty(_) => err_is(r, CheckError::Other("No rule selected"@)),
    }
}

impl Rule {
    /// Checks that `conclusion`, citing the lines `deps` and the subproofs
    /// `sdeps` of `p`, is a valid application of the rule. A rule with a
    /// fixed number of dependencies first refuses any other number.
    pub fn check(self, p: &Proof, conclusion: Expr, deps: Vec<usize>, sdeps: Vec<usize>) -> (r: Result<(), ProofCheckError>)
        ensures
            r is Err ==> crate::error::err_wf(r->Err_0@),
            match self.expected_deps() {
                Some(n) => deps@.len() != n ==> r is Err && r->Err_0@ == CheckError::IncorrectDepCount(deps@, n),
                None => true,
            },
            match self.expected_subdeps() {
                Some(m) => deps_fit(self, deps@) && sdeps@.len() != m
                    ==> r is Err && r->Err_0@ == CheckError::IncorrectSubDepCount(sdeps@, m),
                None => true,
            },
            self is Empty ==> r is Err && r->Err_0@ == CheckError::Other("No rule selected"@),
            arity_fits(self, deps@, sdeps@) ==> family_outcome(self, p, conclusion@, deps@, sdeps@, r),
            r is Ok ==> arity_fits(self, deps@, sdeps@) && deps_exist(p, deps@) && subs_exist(p, sdeps@)
                && step_holds(self, p, conclusion@, deps@, sdeps@),
            arity_fits(self, deps@, sdeps@) && deps_exist(p, deps@) && subs_exist(p, sdeps@) && within_limits(self, p, conclusion@, deps@)
                ==> (r is Ok <==> step_holds(self, p, conclusion@, deps@, sdeps@)),
    {
        if let Some(n) = self.num_deps() {
            if deps.len() != n {
                return Err(ProofCheckError::IncorrectDepCount(deps, n));
            }
        }
        if let Some(m) = self.num_subdeps() {
            if sdeps.len() != m {
                return Err(ProofCheckError::IncorrectSubDepCount(sdeps, m));
            }
        }
        match self {
            Rule::Prepositional(r) => r.check(p, conclusion, deps, sdeps),
            Rule::Predicate(r) => r.check(p, conclusion, deps, sdeps),
            Rule::Redundant(r) => r.check(p, conclusion, deps),
            Rule::Boolean(r) => r.check(p, conclusion, deps),
            Rule::Conditional(r) => r.check(p, conclusion, deps),
            Rule::Automation(r) => r.check(p, conclusion, deps),
            Rule::Quantifier(r) => r.check(p, conclusion, deps),
            Rule::Empty(_) => Err(ProofCheckError::Other(String::from_str("No rule selected"))),
        }
    }
}

/// The rules of `s` that belong to classification `c`, in order.
pub open spec fn rules_in(s: Seq<Rule>, c: RuleClassification) -> Seq<Rule>
    decreases s.len(),
{
    if s.len() == 0 {
        s
    } else if s.last().classes().contains(c) {
        rules_in(s.drop_last(), c).push(s.last())
    } else {
        rules_in(s.drop_last(), c)
    }
}

impl RuleClassification {
    /// The rules in this classification, in the order of `all_rules`.
    pub fn rules(self) -> (r: Vec<Rule>)
        ensures
            r@ == rules_in(spec_all_rules(), self),
    {
        let all = all_rules();
        let mut r: Vec<Rule> = Vec::new();
        let mut i: usize = 0;
        assert(spec_all_rules().subrange(0, 0) =~= Seq::<Rule>::empty());
        while i < all.len()
            invariant
                all@ == spec_all_rules(),
                0 <= i <= all@.len(),
                r@ == rules_in(all@.subrange(0, i as int), self),
            decreases all.len() - i,
        {
            proof {
                let next = all@.subrange(0, i + 1);
                assert(next.drop_last() =~= all@.subrange(0, i as int));
            }
            let classes = all[i].get_classifications();
            let mut member = false;
            let mut k: usize = 0;
            while k < classes.len()
                invariant
                    0 <= k <= classes@.len(),
                    member ==> classes@.contains(self),
                    !member ==> forall|j: int| 0 <= j < k ==> classes@[j] != self,
                decreases classes.len() - k,
            {
                if classes[k] == self {
                    member = true;
                }
                k = k + 1;
            }
            if member {
                r.push(all[i]);
            }
            i = i + 1;
        }
        assert(all@.subrange(0, all@.len() as int) =~= all@);
        r
    }
}

/// A fresh identifier: the counter's value, which then advances (wrapping
/// around at the largest value).
pub fn uid(counter: &mut usize) -> (r: usize)
    ensures
        r == *old(counter),
        *final(counter) == (if *old(counter) == usize::MAX { 0 } else { (*old(counter) + 1) as usize }),
{
    let r = *counter;
    *counter = counter.wrapping_add(1);
    r
}

} // verus!
