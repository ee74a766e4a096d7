use aris::check::uid;
use aris::error::ProofCheckError;
use aris::expr::{impl_placeholder, Expr};
use aris::ordered::{either_order, Ordered};
use aris::parser::parse;
use aris::proofs::Proof;
use aris::rules::{
    all_rules, all_serialized_names, from_serialized_name, AutomationRelatedRules, BooleanEquivalence,
    ConditionalEquivalence, EmptyRule, PredicateInference, PrepositionalInference, QuantifierEquivalence,
    RedundantPrepositionalInference, Rule, RuleClassification,
};

fn p(s: &str) -> Expr {
    parse(s).unwrap()
}

fn prop(r: PrepositionalInference) -> Rule {
    Rule::Prepositional(r)
}

fn redundant(r: RedundantPrepositionalInference) -> Rule {
    Rule::Redundant(r)
}

/// A proof with the given premises, and the check of one step citing them.
fn check_on(premises: &[&str], rule: Rule, conclusion: &str, deps: &[usize]) -> Result<(), ProofCheckError> {
    let mut proof = Proof::new();
    let mut refs = Vec::new();
    for s in premises {
        refs.push(proof.add_premise(0, p(s)));
    }
    let cited: Vec<usize> = deps.iter().map(|&i| refs[i]).collect();
    rule.check(&proof, p(conclusion), cited, vec![])
}

#[test]
fn conjunction_introduction() {
    assert_eq!(check_on(&["A", "B"], prop(PrepositionalInference::AndIntro), "A & B", &[0, 1]), Ok(()));
    assert_eq!(check_on(&["A", "B"], prop(PrepositionalInference::AndIntro), "B & A", &[0, 1]), Ok(()));
    assert_eq!(
        check_on(&["A", "B"], prop(PrepositionalInference::AndIntro), "A & C", &[0, 1]),
        Err(ProofCheckError::DoesNotOccur(p("B"), p("A & C")))
    );
    assert_eq!(
        check_on(&["A"], prop(PrepositionalInference::AndIntro), "A & C", &[0]),
        Err(ProofCheckError::DepDoesNotExist(p("C"), false))
    );
}

#[test]
fn conjunction_elimination() {
    assert_eq!(check_on(&["A & B & C"], prop(PrepositionalInference::AndElim), "B", &[0]), Ok(()));
    assert_eq!(
        check_on(&["A & B & C"], prop(PrepositionalInference::AndElim), "D", &[0]),
        Err(ProofCheckError::DoesNotOccur(p("D"), p("A & B & C")))
    );
}

#[test]
fn modus_ponens_either_order() {
    assert_eq!(check_on(&["A -> B", "A"], prop(PrepositionalInference::ImpElim), "B", &[0, 1]), Ok(()));
    assert_eq!(check_on(&["A -> B", "A"], prop(PrepositionalInference::ImpElim), "B", &[1, 0]), Ok(()));
    assert!(check_on(&["A -> B", "A"], prop(PrepositionalInference::ImpElim), "C", &[0, 1]).is_err());
}

#[test]
fn modus_tollens() {
    assert_eq!(check_on(&["P -> Q", "~Q"], redundant(RedundantPrepositionalInference::ModusTollens), "~P", &[0, 1]), Ok(()));
    assert_eq!(
        check_on(&["P -> Q", "~Q"], redundant(RedundantPrepositionalInference::ModusTollens), "P", &[0, 1]),
        Err(ProofCheckError::DoesNotOccur(p("~P"), p("P")))
    );
}

#[test]
fn existential_elimination() {
    let mut proof = Proof::new();
    let prem = proof.add_premise(0, p("exists x, P(x)"));
    let sub = proof.add_subproof(0);
    let inner = proof.add_premise(sub, p("P(a)"));
    proof.add_step(sub, p("Q"), prop(PrepositionalInference::Reit), vec![], vec![]);
    proof.add_step(sub, p("P(a)"), prop(PrepositionalInference::Reit), vec![inner], vec![]);
    let rule = Rule::Predicate(PredicateInference::ExistsElim);
    assert_eq!(rule.check(&proof, p("Q"), vec![prem], vec![sub]), Ok(()));
    match rule.check(&proof, p("P(a)"), vec![prem], vec![sub]) {
        Err(ProofCheckError::Other(m)) => assert!(m.starts_with("The skolem constant a escapes"), "{}", m),
        other => panic!("unexpected {:?}", other),
    }
}

#[test]
fn excluded_middle() {
    let rule = redundant(RedundantPrepositionalInference::ExcludedMiddle);
    assert_eq!(check_on(&[], rule, "A | ~A", &[]), Ok(()));
    assert_eq!(check_on(&[], rule, "A | B", &[]), Err(ProofCheckError::DoesNotOccur(p("B"), p("~A"))));
}

#[test]
fn hypothetical_syllogism() {
    let rule = redundant(RedundantPrepositionalInference::HypotheticalSyllogism);
    assert_eq!(check_on(&["A -> B", "B -> C"], rule, "A -> C", &[0, 1]), Ok(()));
    assert_eq!(check_on(&["A -> B", "B -> C"], rule, "A -> C", &[1, 0]), Ok(()));
    assert!(check_on(&["A -> B", "B -> C"], rule, "A -> B", &[0, 1]).is_err());
}

#[test]
fn tautological_consequence() {
    let rule = Rule::Automation(AutomationRelatedRules::TautologicalConsequence);
    assert_eq!(check_on(&["P", "P -> Q"], rule, "Q", &[0, 1]), Ok(()));
    assert_eq!(
        check_on(&["P", "P -> Q"], rule, "~Q", &[0, 1]),
        Err(ProofCheckError::Other("Not true by tautological consequence; Counterexample: P = T, Q = T".to_string()))
    );
    match check_on(&["forall x, P(x)"], rule, "P(a)", &[0]) {
        Err(ProofCheckError::Other(m)) => assert!(m.starts_with("Failed converting to CNF")),
        other => panic!("unexpected {:?}", other),
    }
}

#[test]
fn arity_is_checked_first() {
    let deps = vec![0, 0];
    let proof = Proof::new();
    assert_eq!(
        prop(PrepositionalInference::AndElim).check(&proof, p("A"), deps.clone(), vec![]),
        Err(ProofCheckError::IncorrectDepCount(deps, 1))
    );
    assert_eq!(
        prop(PrepositionalInference::ImpIntro).check(&proof, p("A -> B"), vec![], vec![]),
        Err(ProofCheckError::IncorrectSubDepCount(vec![], 1))
    );
}

#[test]
fn empty_rule_always_fails() {
    let rule = Rule::Empty(EmptyRule);
    assert_eq!(check_on(&["A"], rule, "A", &[0]), Err(ProofCheckError::Other("No rule selected".to_string())));
    assert_eq!(rule.get_classifications().len(), 0);
}

#[test]
fn serialized_names_round_trip() {
    let rules = all_rules();
    let names = all_serialized_names();
    assert_eq!(rules.len(), names.len());
    for r in rules.iter() {
        assert_eq!(from_serialized_name(r.to_serialized_name()), Some(*r));
    }
    assert_eq!(from_serialized_name("NO_SUCH_RULE"), None);
    assert_eq!(prop(PrepositionalInference::AndIntro).to_serialized_name(), "CONJUNCTION");
}

#[test]
fn reiteration_needs_equal_lines() {
    let rule = prop(PrepositionalInference::Reit);
    assert_eq!(check_on(&["A & B"], rule, "A & B", &[0]), Ok(()));
    assert_eq!(check_on(&["A & B"], rule, "B & A", &[0]), Err(ProofCheckError::DoesNotOccur(p("B & A"), p("A & B"))));
}

#[test]
fn missing_line_is_reported() {
    let proof = Proof::new();
    assert_eq!(
        prop(PrepositionalInference::Reit).check(&proof, p("A"), vec![3], vec![]),
        Err(ProofCheckError::LineDoesNotExist(3))
    );
}

#[test]
fn implication_introduction() {
    let mut proof = Proof::new();
    let sub = proof.add_subproof(0);
    let a = proof.add_premise(sub, p("A"));
    proof.add_step(sub, p("A | B"), prop(PrepositionalInference::OrIntro), vec![a], vec![]);
    let rule = prop(PrepositionalInference::ImpIntro);
    assert_eq!(rule.check(&proof, p("A -> (A | B)"), vec![], vec![sub]), Ok(()));
    assert_eq!(
        rule.check(&proof, p("C -> (A | B)"), vec![], vec![sub]),
        Err(ProofCheckError::DoesNotOccur(p("C"), p("A")))
    );
    assert_eq!(rule.check(&proof, p("A -> (A | B)"), vec![], vec![7]), Err(ProofCheckError::SubproofDoesNotExist(7)));
}

#[test]
fn disjunction_elimination() {
    let mut proof = Proof::new();
    let d = proof.add_premise(0, p("A | B"));
    let s1 = proof.add_subproof(0);
    proof.add_premise(s1, p("A"));
    proof.add_step(s1, p("C"), prop(PrepositionalInference::Reit), vec![], vec![]);
    let s2 = proof.add_subproof(0);
    proof.add_premise(s2, p("B"));
    proof.add_step(s2, p("C"), prop(PrepositionalInference::Reit), vec![], vec![]);
    let rule = prop(PrepositionalInference::OrElim);
    assert_eq!(rule.check(&proof, p("C"), vec![d], vec![s1, s2]), Ok(()));
    assert_eq!(rule.check(&proof, p("C"), vec![d], vec![s1]), Err(ProofCheckError::DepDoesNotExist(p("B"), false)));
}

#[test]
fn contradiction_rules() {
    assert_eq!(check_on(&["A", "~A"], prop(PrepositionalInference::ContradictionIntro), "_|_", &[1, 0]), Ok(()));
    assert!(check_on(&["A", "B"], prop(PrepositionalInference::ContradictionIntro), "_|_", &[0, 1]).is_err());
    assert_eq!(check_on(&["_|_"], prop(PrepositionalInference::ContradictionElim), "Z", &[0]), Ok(()));
    assert_eq!(check_on(&["~~A"], prop(PrepositionalInference::NotElim), "A", &[0]), Ok(()));
}

#[test]
fn biconditional_rules() {
    let intro = prop(PrepositionalInference::BiconditionalIntro);
    assert_eq!(check_on(&["A -> B", "B -> A"], intro, "A <-> B", &[0, 1]), Ok(()));
    assert!(check_on(&["A -> B"], intro, "A <-> B", &[0]).is_err());
    let elim = prop(PrepositionalInference::BiconditionalElim);
    assert_eq!(check_on(&["A <-> B", "A"], elim, "B", &[0, 1]), Ok(()));
    assert_eq!(check_on(&["A", "A <-> B <-> C"], elim, "B <-> C", &[0, 1]), Ok(()));
    let eq_elim = prop(PrepositionalInference::EquivalenceElim);
    assert_eq!(check_on(&["A === B === C", "A"], eq_elim, "C", &[0, 1]), Ok(()));
}

#[test]
fn constructive_dilemma_any_order() {
    let rule = redundant(RedundantPrepositionalInference::ConstructiveDilemma);
    assert_eq!(check_on(&["P | R", "P -> Q", "R -> S"], rule, "Q | S", &[0, 1, 2]), Ok(()));
    assert_eq!(check_on(&["R -> S", "P | R", "P -> Q"], rule, "Q | S", &[0, 1, 2]), Ok(()));
    assert!(check_on(&["R -> S", "P | R", "P -> Q"], rule, "S | Q", &[0, 1, 2]).is_err());
}

#[test]
fn universal_rules() {
    assert_eq!(check_on(&["forall x, P(x)"], Rule::Predicate(PredicateInference::ForallElim), "P(a)", &[0]), Ok(()));
    assert!(check_on(&["forall x, P(x, b)"], Rule::Predicate(PredicateInference::ForallElim), "P(a, c)", &[0]).is_err());
    assert_eq!(check_on(&["P(a)"], Rule::Predicate(PredicateInference::ExistsIntro), "exists x, P(x)", &[0]), Ok(()));
    let mut proof = Proof::new();
    let sub = proof.add_subproof(0);
    proof.add_step(sub, p("P(c) | ~P(c)"), redundant(RedundantPrepositionalInference::ExcludedMiddle), vec![], vec![]);
    let rule = Rule::Predicate(PredicateInference::ForallIntro);
    assert_eq!(rule.check(&proof, p("forall x, (P(x) | ~P(x))"), vec![], vec![sub]), Ok(()));
    let mut outside = Proof::new();
    let pc = outside.add_premise(0, p("P(c)"));
    let sub2 = outside.add_subproof(0);
    outside.add_step(sub2, p("P(c)"), prop(PrepositionalInference::Reit), vec![pc], vec![]);
    assert!(rule.check(&outside, p("forall x, P(x)"), vec![], vec![sub2]).is_err());
}

#[test]
fn equivalence_rules() {
    let b = |r: BooleanEquivalence, a: &str, c: &str| check_on(&[a], Rule::Boolean(r), c, &[0]);
    assert_eq!(b(BooleanEquivalence::DeMorgan, "~(A & B)", "~A | ~B"), Ok(()));
    assert_eq!(b(BooleanEquivalence::Commutation, "A & B", "B & A"), Ok(()));
    assert_eq!(b(BooleanEquivalence::Association, "(A & B) & C", "A & (B & C)"), Ok(()));
    assert_eq!(b(BooleanEquivalence::Idempotence, "A | A", "A"), Ok(()));
    assert_eq!(b(BooleanEquivalence::DoubleNegation, "~~A", "A"), Ok(()));
    assert_eq!(b(BooleanEquivalence::Distribution, "A & (B | C)", "(A & B) | (A & C)"), Ok(()));
    assert_eq!(b(BooleanEquivalence::Absorption, "A & (A | B)", "A"), Ok(()));
    assert!(b(BooleanEquivalence::DeMorgan, "~(A & B)", "~A & ~B").is_err());
    let c = |r: ConditionalEquivalence, a: &str, d: &str| check_on(&[a], Rule::Conditional(r), d, &[0]);
    assert_eq!(c(ConditionalEquivalence::Implication, "P -> Q", "~P | Q"), Ok(()));
    assert_eq!(c(ConditionalEquivalence::Contraposition, "P -> Q", "~Q -> ~P"), Ok(()));
    assert_eq!(c(ConditionalEquivalence::Currying, "P -> (Q -> R)", "(P & Q) -> R"), Ok(()));
    let q = |r: QuantifierEquivalence, a: &str, d: &str| check_on(&[a], Rule::Quantifier(r), d, &[0]);
    assert_eq!(q(QuantifierEquivalence::QuantifierNegation, "~forall x, P(x)", "exists x, ~P(x)"), Ok(()));
    assert_eq!(q(QuantifierEquivalence::ReplacingBoundVars, "forall x, P(x)", "forall y, P(y)"), Ok(()));
    assert_eq!(q(QuantifierEquivalence::NullQuantification, "forall x, A", "A"), Ok(()));
    assert_eq!(q(QuantifierEquivalence::PrenexLaws, "(forall x, P(x)) & A", "forall x, (P(x) & A)"), Ok(()));
}

#[test]
fn resolution_either_order() {
    let rule = Rule::Automation(AutomationRelatedRules::Resolution);
    assert_eq!(check_on(&["A | B", "~A | C"], rule, "B | C", &[0, 1]), Ok(()));
    assert_eq!(check_on(&["A | B", "~A | C"], rule, "B | C", &[1, 0]), Ok(()));
    assert!(check_on(&["A | B", "A | C"], rule, "B | C", &[0, 1]).is_err());
    assert!(check_on(&["A | B", "A | C"], rule, "B | C", &[1, 0]).is_err());
}

#[test]
fn asymmetric_tautology_is_not_available() {
    let rule = Rule::Automation(AutomationRelatedRules::AsymmetricTautology);
    assert_eq!(check_on(&["A"], rule, "A", &[0]), Err(ProofCheckError::Other("not implemented".to_string())));
}

#[test]
fn classifications_group_rules() {
    let misc = RuleClassification::MiscInference.rules();
    assert!(misc.contains(&prop(PrepositionalInference::Reit)));
    assert!(!misc.contains(&prop(PrepositionalInference::AndIntro)));
    assert_eq!(RuleClassification::QuantifierEquivalence.rules().len(), 7);
    assert_eq!(prop(PrepositionalInference::AndIntro).get_name(), "∧ Introduction");
}

#[test]
fn uid_counts_up() {
    let mut counter = 5usize;
    assert_eq!(uid(&mut counter), 5);
    assert_eq!(uid(&mut counter), 6);
    assert_eq!(counter, 7);
    let mut last = usize::MAX;
    assert_eq!(uid(&mut last), usize::MAX);
    assert_eq!(last, 0);
}

#[test]
fn test_either_order() {
    let dep_1 = p("(A & B) -> C");
    let dep_2 = p("(A & B)");
    let conclusion = p("C");
    let result = either_order(
        Ordered::ModusPonens,
        &dep_1,
        &dep_2,
        &conclusion,
        ProofCheckError::DepDoesNotExist(impl_placeholder(), true),
    );
    assert!(result.is_ok());
}

#[test]
fn error_messages() {
    assert_eq!(
        ProofCheckError::IncorrectDepCount(vec![1, 2], 1).describe(),
        "Too many dependencies (expected: 1, provided: 2)."
    );
    assert_eq!(ProofCheckError::LineDoesNotExist(120).describe(), "The referenced line 120 does not exist.");
    assert_eq!(ProofCheckError::DoesNotOccur(p("~P"), p("P")).describe(), "~P does not occur in P.");
    assert_eq!(
        ProofCheckError::DepDoesNotExist(p("A & B"), true).describe(),
        "Something of the shape (A & B) is required as a dependency, but it does not exist."
    );
    let both = ProofCheckError::OneOf(vec![ProofCheckError::Other("x".to_string()), ProofCheckError::Other("y".to_string())]);
    assert_eq!(both.describe(), "One of the following requirements was not met:\nx\ny\n");
}

#[test]
fn reduction_meets_by_reachable_sets() {
    let rule = Rule::Boolean(BooleanEquivalence::Reduction);
    assert_eq!(check_on(&["P & (~P | Q)"], rule, "P & Q", &[0]), Ok(()));
    assert_eq!(check_on(&["Q & P"], rule, "(~P | Q) & P", &[0]), Ok(()));
    assert_eq!(check_on(&["~P | (P & Q)"], rule, "Q | ~P", &[0]), Ok(()));
    assert!(check_on(&["P & (~P | Q)"], rule, "P | Q", &[0]).is_err());
}

#[test]
fn universal_elimination_avoids_capture() {
    let rule = Rule::Predicate(PredicateInference::ForallElim);
    assert!(check_on(&["forall x, exists y, R(x, y)"], rule, "exists y, R(y, y)", &[0]).is_err());
    assert_eq!(check_on(&["forall x, exists y, R(x, y)"], rule, "exists y, R(a, y)", &[0]), Ok(()));
    let intro = Rule::Predicate(PredicateInference::ExistsIntro);
    assert!(check_on(&["forall y, R(y, y)"], intro, "exists x, forall y, R(x, y)", &[0]).is_err());
}

#[test]
fn error_values_follow_the_rule() {
    assert_eq!(
        check_on(&["A"], prop(PrepositionalInference::AndElim), "A", &[0]),
        Err(ProofCheckError::DepDoesNotExist(p("_ & _"), true))
    );
    assert_eq!(
        check_on(&["A"], prop(PrepositionalInference::OrIntro), "A", &[0]),
        Err(ProofCheckError::ConclusionOfWrongForm(p("_ | _")))
    );
    assert_eq!(
        check_on(&["A"], prop(PrepositionalInference::ContradictionElim), "B", &[0]),
        Err(ProofCheckError::DepOfWrongForm(p("A"), Expr::Contra))
    );
    assert_eq!(
        check_on(&["A", "B"], prop(PrepositionalInference::ContradictionIntro), "_|_", &[0, 1]),
        Err(ProofCheckError::Other("Expected one of {A, B} to be the negation of the other.".to_string()))
    );
    assert_eq!(
        check_on(&["A", "B"], prop(PrepositionalInference::ImpElim), "B", &[0, 1]),
        Err(ProofCheckError::DepDoesNotExist(p("_ -> _"), true))
    );
    assert_eq!(
        check_on(&["~(A & B)"], Rule::Boolean(BooleanEquivalence::DeMorgan), "~A & ~B", &[0]),
        Err(ProofCheckError::Other("(~A | ~B) and (~A & ~B) are not equal.".to_string()))
    );
    let res = Rule::Automation(AutomationRelatedRules::Resolution);
    assert_eq!(check_on(&["A | B", "C | D"], res, "B | D", &[0, 1]), check_on(&["A | B", "C | D"], res, "B | D", &[1, 0]));
}

#[test]
fn resolution_lists_leftover_disjuncts() {
    let res = Rule::Automation(AutomationRelatedRules::Resolution);
    assert_eq!(
        check_on(&["A", "A"], res, "A", &[0, 1]),
        Err(ProofCheckError::Other(
            "Difference between premise disjuncts and conclusion disjuncts ({}) should be exactly 2 expressions that produce a contradiction.".to_string()
        ))
    );
    assert_eq!(
        check_on(&["C | A", "B"], res, "D", &[0, 1]),
        Err(ProofCheckError::Other(
            "Difference between premise disjuncts and conclusion disjuncts ({A, B, C}) should be exactly 2 expressions that produce a contradiction.".to_string()
        ))
    );
}

#[test]
fn quantifier_messages() {
    assert_eq!(
        check_on(&["forall x, P(x, b)"], Rule::Predicate(PredicateInference::ForallElim), "P(a, c)", &[0]),
        Err(ProofCheckError::Other("No substitution found between P(x, b) and P(a, c).".to_string()))
    );
    let mut proof = Proof::new();
    let prem = proof.add_premise(0, p("exists x, P(x)"));
    let sub = proof.add_subproof(0);
    proof.add_step(sub, p("Q"), prop(PrepositionalInference::Reit), vec![], vec![]);
    assert_eq!(
        Rule::Predicate(PredicateInference::ExistsElim).check(&proof, p("Q"), vec![prem], vec![sub]),
        Err(ProofCheckError::Other("Subproof has 0 premises, expected 1.".to_string()))
    );
    assert_eq!(
        check_on(&["A <-> B", "C"], prop(PrepositionalInference::BiconditionalElim), "A", &[0, 1]),
        Err(ProofCheckError::DoesNotOccur(p("C"), p("A <-> B")))
    );
}
