//! The catalogue of rules: their families, metadata and stable names.
use vstd::prelude::*;

verus! {

/// Introduction and elimination rules of the connectives.
#[derive(PartialEq, Eq, Structural, Clone, Copy, Debug)]
pub enum PrepositionalInference {
    Reit,
    AndIntro,
    AndElim,
    OrIntro,
    OrElim,
    ImpIntro,
    ImpElim,
    NotIntro,
    NotElim,
    ContradictionIntro,
    ContradictionElim,
    BiconditionalIntro,
    BiconditionalElim,
    EquivalenceIntro,
    EquivalenceElim,
}

/// Introduction and elimination rules of the quantifiers.
#[derive(PartialEq, Eq, Structural, Clone, Copy, Debug)]
pub enum PredicateInference {
    ForallIntro,
    ForallElim,
    ExistsIntro,
    ExistsElim,
}

/// Derived propositional inference rules.
#[derive(PartialEq, Eq, Structural, Clone, Copy, Debug)]
pub enum RedundantPrepositionalInference {
    ModusTollens,
    HypotheticalSyllogism,
    ExcludedMiddle,
    ConstructiveDilemma,
}

/// Equivalences of the Boolean connectives.
#[derive(PartialEq, Eq, Structural, Clone, Copy, Debug)]
pub enum BooleanEquivalence {
    Association,
    Commutation,
    Idempotence,
    DeMorgan,
    Distribution,
    DoubleNegation,
    Complement,
    Identity,
    Annihilation,
    Inverse,
    Absorption,
    Reduction,
    Adjacency,
}

/// Equivalences of implication and the biconditional.
#[derive(PartialEq, Eq, Structural, Clone, Copy, Debug)]
pub enum ConditionalEquivalence {
    Complement,
    Identity,
    Annihilation,
    Implication,
    BiImplication,
    Contraposition,
    Currying,
    ConditionalDistribution,
    ConditionalReduction,
    KnightsAndKnaves,
    ConditionalIdempotence,
    BiconditionalNegation,
    BiconditionalSubstitution,
}

/// Rules decided by a search rather than by a shape.
#[derive(PartialEq, Eq, Structural, Clone, Copy, Debug)]
pub enum AutomationRelatedRules {
    AsymmetricTautology,
    Resolution,
    TautologicalConsequence,
}

/// Equivalences of quantified formulas.
#[derive(PartialEq, Eq, Structural, Clone, Copy, Debug)]
pub enum QuantifierEquivalence {
    QuantifierNegation,
    NullQuantification,
    ReplacingBoundVars,
    SwappingQuantifiers,
    AristoteleanSquare,
    QuantifierDistribution,
    PrenexLaws,
}

/// The default rule of a new step: it always fails and belongs to no
/// classification.
#[derive(PartialEq, Eq, Structural, Clone, Copy, Debug)]
pub struct EmptyRule;

/// A rule of any family.
#[derive(PartialEq, Eq, Structural, Clone, Copy, Debug)]
pub enum Rule {
    Prepositional(PrepositionalInference),
    Predicate(PredicateInference),
    Redundant(RedundantPrepositionalInference),
    Boolean(BooleanEquivalence),
    Conditional(ConditionalEquivalence),
    Automation(AutomationRelatedRules),
    Quantifier(QuantifierEquivalence),
    Empty(EmptyRule),
}

/// The groups under which rules are offered to a user.
#[derive(PartialEq, Eq, Structural, Clone, Copy, Debug, Hash)]
pub enum RuleClassification {
    Introduction,
    Elimination,
    BooleanEquivalence,
    ConditionalEquivalence,
    QuantifierEquivalence,
    MiscInference,
}

impl Rule {
    /// How many direct dependencies the rule takes, if it is fixed.
    pub open spec fn expected_deps(self) -> Option<usize> {
        match self {
            Rule::Prepositional(PrepositionalInference::Reit) => Some(1),
            Rule::Prepositional(PrepositionalInference::AndIntro) => None,
            Rule::Prepositional(PrepositionalInference::AndElim) => Some(1),
            Rule::Prepositional(PrepositionalInference::OrIntro) => Some(1),
            Rule::Prepositional(PrepositionalInference::OrElim) => Some(1),
            Rule::Prepositional(PrepositionalInference::ImpIntro) => Some(0),
            Rule::Prepositional(PrepositionalInference::ImpElim) => Some(2),
            Rule::Prepositional(PrepositionalInference::NotIntro) => Some(0),
            Rule::Prepositional(PrepositionalInference::NotElim) => Some(1),
            Rule::Prepositional(PrepositionalInference::ContradictionIntro) => Some(2),
            Rule::Prepositional(PrepositionalInference::ContradictionElim) => Some(1),
            Rule::Prepositional(PrepositionalInference::BiconditionalIntro) => None,
            Rule::Prepositional(PrepositionalInference::BiconditionalElim) => Some(2),
            Rule::Prepositional(PrepositionalInference::EquivalenceIntro) => None,
            Rule::Prepositional(PrepositionalInference::EquivalenceElim) => Some(2),
            Rule::Predicate(PredicateInference::ForallIntro) => Some(0),
            Rule::Predicate(PredicateInference::ForallElim) => Some(1),
            Rule::Predicate(PredicateInference::ExistsIntro) => Some(1),
            Rule::Predicate(PredicateInference::ExistsElim) => Some(1),
            Rule::Redundant(RedundantPrepositionalInference::ModusTollens) => Some(2),
            Rule::Redundant(RedundantPrepositionalInference::HypotheticalSyllogism) => Some(2),
            Rule::Redundant(RedundantPrepositionalInference::ExcludedMiddle) => Some(0),
            Rule::Redundant(RedundantPrepositionalInference::ConstructiveDilemma) => Some(3),
            Rule::Boolean(BooleanEquivalence::Association) => Some(1),
            Rule::Boolean(BooleanEquivalence::Commutation) => Some(1),
            Rule::Boolean(BooleanEquivalence::Idempotence) => Some(1),
            Rule::Boolean(BooleanEquivalence::DeMorgan) => Some(1),
            Rule::Boolean(BooleanEquivalence::Distribution) => Some(1),
            Rule::Boolean(BooleanEquivalence::DoubleNegation) => Some(1),
            Rule::Boolean(BooleanEquivalence::Complement) => Some(1),
            Rule::Boolean(BooleanEquivalence::Identity) => Some(1),
            Rule::Boolean(BooleanEquivalence::Annihilation) => Some(1),
            Rule::Boolean(BooleanEquivalence::Inverse) => Some(1),
            Rule::Boolean(BooleanEquivalence::Absorption) => Some(1),
            Rule::Boolean(BooleanEquivalence::Reduction) => Some(1),
            Rule::Boolean(BooleanEquivalence::Adjacency) => Some(1),
            Rule::Conditional(ConditionalEquivalence::Complement) => Some(1),
            Rule::Conditional(ConditionalEquivalence::Identity) => Some(1),
            Rule::Conditional(ConditionalEquivalence::Annihilation) => Some(1),
            Rule::Conditional(ConditionalEquivalence::Implication) => Some(1),
            Rule::Conditional(ConditionalEquivalence::BiImplication) => Some(1),
            Rule::Conditional(ConditionalEquivalence::Contraposition) => Some(1),
            Rule::Conditional(ConditionalEquivalence::Currying) => Some(1),
            Rule::Conditional(ConditionalEquivalence::ConditionalDistribution) => Some(1),
            Rule::Conditional(ConditionalEquivalence::ConditionalReduction) => Some(1),
            Rule::Conditional(ConditionalEquivalence::KnightsAndKnaves) => Some(1),
            Rule::Conditional(ConditionalEquivalence::ConditionalIdempotence) => Some(1),
            Rule::Conditional(ConditionalEquivalence::BiconditionalNegation) => Some(1),
            Rule::Conditional(ConditionalEquivalence::BiconditionalSubstitution) => Some(1),
            Rule::Automation(AutomationRelatedRules::AsymmetricTautology) => None,
            Rule::Automation(AutomationRelatedRules::Resolution) => Some(2),
            Rule::Automation(AutomationRelatedRules::TautologicalConsequence) => None,
            Rule::Quantifier(QuantifierEquivalence::QuantifierNegation) => Some(1),
            Rule::Quantifier(QuantifierEquivalence::NullQuantification) => Some(1),
            Rule::Quantifier(QuantifierEquivalence::ReplacingBoundVars) => Some(1),
            Rule::Quantifier(QuantifierEquivalence::SwappingQuantifiers) => Some(1),
            Rule::Quantifier(QuantifierEquivalence::AristoteleanSquare) => Some(1),
            Rule::Quantifier(QuantifierEquivalence::QuantifierDistribution) => Some(1),
            Rule::Quantifier(QuantifierEquivalence::PrenexLaws) => Some(1),
            Rule::Empty(EmptyRule) => None,
        }
    }

    /// How many subproof dependencies the rule takes, if it is fixed.
    pub open spec fn expected_subdeps(self) -> Option<usize> {
        match self {
            Rule::Prepositional(PrepositionalInference::Reit) => Some(0),
            Rule::Prepositional(PrepositionalInference::AndIntro) => Some(0),
            Rule::Prepositional(PrepositionalInference::AndElim) => Some(0),
            Rule::Prepositional(PrepositionalInference::OrIntro) => Some(0),
            Rule::Prepositional(PrepositionalInference::OrElim) => None,
            Rule::Prepositional(PrepositionalInference::ImpIntro) => Some(1),
            Rule::Prepositional(PrepositionalInference::ImpElim) => Some(0),
            Rule::Prepositional(PrepositionalInference::NotIntro) => Some(1),
            Rule::Prepositional(PrepositionalInference::NotElim) => Some(0),
            Rule::Prepositional(PrepositionalInference::ContradictionIntro) => Some(0),
            Rule::Prepositional(PrepositionalInference::ContradictionElim) => Some(0),
            Rule::Prepositional(PrepositionalInference::BiconditionalIntro) => None,
            Rule::Prepositional(PrepositionalInference::BiconditionalElim) => Some(0),
            Rule::Prepositional(PrepositionalInference::EquivalenceIntro) => None,
            Rule::Prepositional(PrepositionalInference::EquivalenceElim) => Some(0),
            Rule::Predicate(PredicateInference::ForallIntro) => Some(1),
            Rule::Predicate(PredicateInference::ForallElim) => Some(0),
            Rule::Predicate(PredicateInference::ExistsIntro) => Some(0),
            Rule::Predicate(PredicateInference::ExistsElim) => Some(1),
            Rule::Redundant(RedundantPrepositionalInference::ModusTollens) => Some(0),
            Rule::Redundant(RedundantPrepositionalInference::HypotheticalSyllogism) => Some(0),
            Rule::Redundant(RedundantPrepositionalInference::ExcludedMiddle) => Some(0),
            Rule::Redundant(RedundantPrepositionalInference::ConstructiveDilemma) => Some(0),
            Rule::Boolean(BooleanEquivalence::Association) => Some(0),
            Rule::Boolean(BooleanEquivalence::Commutation) => Some(0),
            Rule::Boolean(BooleanEquivalence::Idempotence) => Some(0),
            Rule::Boolean(BooleanEquivalence::DeMorgan) => Some(0),
            Rule::Boolean(BooleanEquivalence::Distribution) => Some(0),
            Rule::Boolean(BooleanEquivalence::DoubleNegation) => Some(0),
            Rule::Boolean(BooleanEquivalence::Complement) => Some(0),
            Rule::Boolean(BooleanEquivalence::Identity) => Some(0),
            Rule::Boolean(BooleanEquivalence::Annihilation) => Some(0),
            Rule::Boolean(BooleanEquivalence::Inverse) => Some(0),
            Rule::Boolean(BooleanEquivalence::Absorption) => Some(0),
            Rule::Boolean(BooleanEquivalence::Reduction) => Some(0),
            Rule::Boolean(BooleanEquivalence::Adjacency) => Some(0),
            Rule::Conditional(ConditionalEquivalence::Complement) => Some(0),
            Rule::Conditional(ConditionalEquivalence::Identity) => Some(0),
            Rule::Conditional(ConditionalEquivalence::Annihilation) => Some(0),
            Rule::Conditional(ConditionalEquivalence::Implication) => Some(0),
            Rule::Conditional(ConditionalEquivalence::BiImplication) => Some(0),
            Rule::Conditional(ConditionalEquivalence::Contraposition) => Some(0),
            Rule::Conditional(ConditionalEquivalence::Currying) => Some(0),
            Rule::Conditional(ConditionalEquivalence::ConditionalDistribution) => Some(0),
            Rule::Conditional(ConditionalEquivalence::ConditionalReduction) => Some(0),
            Rule::Conditional(ConditionalEquivalence::KnightsAndKnaves) => Some(0),
            Rule::Conditional(ConditionalEquivalence::ConditionalIdempotence) => Some(0),
            Rule::Conditional(ConditionalEquivalence::BiconditionalNegation) => Some(0),
            Rule::Conditional(ConditionalEquivalence::BiconditionalSubstitution) => Some(0),
            Rule::Automation(AutomationRelatedRules::AsymmetricTautology) => Some(0),
            Rule::Automation(AutomationRelatedRules::Resolution) => Some(0),
            Rule::Automation(AutomationRelatedRules::TautologicalConsequence) => Some(0),
            Rule::Quantifier(QuantifierEquivalence::QuantifierNegation) => Some(0),
            Rule::Quantifier(QuantifierEquivalence::NullQuantification) => Some(0),
            Rule::Quantifier(QuantifierEquivalence::ReplacingBoundVars) => Some(0),
            Rule::Quantifier(QuantifierEquivalence::SwappingQuantifiers) => Some(0),
            Rule::Quantifier(QuantifierEquivalence::AristoteleanSquare) => Some(0),
            Rule::Quantifier(QuantifierEquivalence::QuantifierDistribution) => Some(0),
            Rule::Quantifier(QuantifierEquivalence::PrenexLaws) => Some(0),
            Rule::Empty(EmptyRule) => None,
        }
    }

    /// The stable upper-snake-case name of the rule.
    pub open spec fn serialized(self) -> Seq<char> {
        match self {
            Rule::Prepositional(PrepositionalInference::Reit) => "REITERATION"@,
            Rule::Prepositional(PrepositionalInference::AndIntro) => "CONJUNCTION"@,
            Rule::Prepositional(PrepositionalInference::AndElim) => "SIMPLIFICATION"@,
            Rule::Prepositional(PrepositionalInference::OrIntro) => "ADDITION"@,
            Rule::Prepositional(PrepositionalInference::OrElim) => "DISJUNCTIVE_SYLLOGISM"@,
            Rule::Prepositional(PrepositionalInference::ImpIntro) => "CONDITIONAL_PROOF"@,
            Rule::Prepositional(PrepositionalInference::ImpElim) => "MODUS_PONENS"@,
            Rule::Prepositional(PrepositionalInference::NotIntro) => "PROOF_BY_CONTRADICTION"@,
            Rule::Prepositional(PrepositionalInference::NotElim) => "DOUBLENEGATION"@,
            Rule::Prepositional(PrepositionalInference::ContradictionIntro) => "CONTRADICTION"@,
            Rule::Prepositional(PrepositionalInference::ContradictionElim) => "PRINCIPLE_OF_EXPLOSION"@,
            Rule::Prepositional(PrepositionalInference::BiconditionalIntro) => "BICONDITIONAL_INTRO"@,
            Rule::Prepositional(PrepositionalInference::BiconditionalElim) => "BICONDITIONAL_ELIM"@,
            Rule::Prepositional(PrepositionalInference::EquivalenceIntro) => "EQUIVALENCE_INTRO"@,
            Rule::Prepositional(PrepositionalInference::EquivalenceElim) => "EQUIVALENCE_ELIM"@,
            Rule::Predicate(PredicateInference::ForallIntro) => "UNIVERSAL_GENERALIZATION"@,
            Rule::Predicate(PredicateInference::ForallElim) => "UNIVERSAL_INSTANTIATION"@,
            Rule::Predicate(PredicateInference::ExistsIntro) => "EXISTENTIAL_GENERALIZATION"@,
            Rule::Predicate(PredicateInference::ExistsElim) => "EXISTENTIAL_INSTANTIATION"@,
            Rule::Redundant(RedundantPrepositionalInference::ModusTollens) => "MODUS_TOLLENS"@,
            Rule::Redundant(RedundantPrepositionalInference::HypotheticalSyllogism) => "HYPOTHETICAL_SYLLOGISM"@,
            Rule::Redundant(RedundantPrepositionalInference::ExcludedMiddle) => "EXCLUDED_MIDDLE"@,
            Rule::Redundant(RedundantPrepositionalInference::ConstructiveDilemma) => "CONSTRUCTIVE_DILEMMA"@,
            Rule::Boolean(BooleanEquivalence::Association) => "ASSOCIATION"@,
            Rule::Boolean(BooleanEquivalence::Commutation) => "COMMUTATION"@,
            Rule::Boolean(BooleanEquivalence::Idempotence) => "IDEMPOTENCE"@,
            Rule::Boolean(BooleanEquivalence::DeMorgan) => "DE_MORGAN"@,
            Rule::Boolean(BooleanEquivalence::Distribution) => "DISTRIBUTION"@,
            Rule::Boolean(BooleanEquivalence::DoubleNegation) => "DOUBLENEGATION_EQUIV"@,
            Rule::Boolean(BooleanEquivalence::Complement) => "COMPLEMENT"@,
            Rule::Boolean(BooleanEquivalence::Identity) => "IDENTITY"@,
            Rule::Boolean(BooleanEquivalence::Annihilation) => "ANNIHILATION"@,
            Rule::Boolean(BooleanEquivalence::Inverse) => "INVERSE"@,
            Rule::Boolean(BooleanEquivalence::Absorption) => "ABSORPTION"@,
            Rule::Boolean(BooleanEquivalence::Reduction) => "REDUCTION"@,
            Rule::Boolean(BooleanEquivalence::Adjacency) => "ADJACENCY"@,
            Rule::Conditional(ConditionalEquivalence::Complement) => "CONDITIONAL_COMPLEMENT"@,
            Rule::Conditional(ConditionalEquivalence::Identity) => "CONDITIONAL_IDENTITY"@,
            Rule::Conditional(ConditionalEquivalence::Annihilation) => "CONDITIONAL_ANNIHILATION"@,
            Rule::Conditional(ConditionalEquivalence::Implication) => "IMPLICATION"@,
            Rule::Conditional(ConditionalEquivalence::BiImplication) => "BI_IMPLICATION"@,
            Rule::Conditional(ConditionalEquivalence::Contraposition) => "CONTRAPOSITION"@,
            Rule::Conditional(ConditionalEquivalence::Currying) => "CURRYING"@,
            Rule::Conditional(ConditionalEquivalence::ConditionalDistribution) => "CONDITIONAL_DISTRIBUTION"@,
            Rule::Conditional(ConditionalEquivalence::ConditionalReduction) => "CONDITIONAL_REDUCTION"@,
            Rule::Conditional(ConditionalEquivalence::KnightsAndKnaves) => "KNIGHTS_AND_KNAVES"@,
            Rule::Conditional(ConditionalEquivalence::ConditionalIdempotence) => "CONDITIONAL_IDEMPOTENCE"@,
            Rule::Conditional(ConditionalEquivalence::BiconditionalNegation) => "BICONDITIONAL_NEGATION"@,
            Rule::Conditional(ConditionalEquivalence::BiconditionalSubstitution) => "BICONDITIONAL_SUBSTITUTION"@,
            Rule::Automation(AutomationRelatedRules::AsymmetricTautology) => "ASYMMETRIC_TAUTOLOGY"@,
            Rule::Automation(AutomationRelatedRules::Resolution) => "RESOLUTION"@,
            Rule::Automation(AutomationRelatedRules::TautologicalConsequence) => "TAUTOLOGICAL_CONSEQUENCE"@,
            Rule::Quantifier(QuantifierEquivalence::QuantifierNegation) => "QUANTIFIER_NEGATION"@,
            Rule::Quantifier(QuantifierEquivalence::NullQuantification) => "NULL_QUANTIFICATION"@,
            Rule::Quantifier(QuantifierEquivalence::ReplacingBoundVars) => "REPLACING_BOUND_VARS"@,
            Rule::Quantifier(QuantifierEquivalence::SwappingQuantifiers) => "SWAPPING_QUANTIFIERS"@,
            Rule::Quantifier(QuantifierEquivalence::AristoteleanSquare) => "ARISTOTELEAN_SQUARE"@,
            Rule::Quantifier(QuantifierEquivalence::QuantifierDistribution) => "QUANTIFIER_DISTRIBUTION"@,
            Rule::Quantifier(QuantifierEquivalence::PrenexLaws) => "PRENEX_LAWS"@,
            Rule::Empty(EmptyRule) => "EMPTY_RULE"@,
        }
    }

    /// The name of the rule shown to a user.
    pub open spec fn display_name(self) -> Seq<char> {
        match self {
            Rule::Prepositional(PrepositionalInference::Reit) => "Reiteration"@,
            Rule::Prepositional(PrepositionalInference::AndIntro) => "∧ Introduction"@,
            Rule::Prepositional(PrepositionalInference::AndElim) => "∧ Elimination"@,
            Rule::Prepositional(PrepositionalInference::OrIntro) => "∨ Introduction"@,
            Rule::Prepositional(PrepositionalInference::OrElim) => "∨ Elimination"@,
            Rule::Prepositional(PrepositionalInference::ImpIntro) => "→ Introduction"@,
            Rule::Prepositional(PrepositionalInference::ImpElim) => "→ Elimination"@,
            Rule::Prepositional(PrepositionalInference::NotIntro) => "¬ Introduction"@,
            Rule::Prepositional(PrepositionalInference::NotElim) => "¬ Elimination"@,
            Rule::Prepositional(PrepositionalInference::ContradictionIntro) => "⊥ Introduction"@,
            Rule::Prepositional(PrepositionalInference::ContradictionElim) => "⊥ Elimination"@,
            Rule::Prepositional(PrepositionalInference::BiconditionalIntro) => "↔ Introduction"@,
            Rule::Prepositional(PrepositionalInference::BiconditionalElim) => "↔ Elimination"@,
            Rule::Prepositional(PrepositionalInference::EquivalenceIntro) => "≡ Introduction"@,
            Rule::Prepositional(PrepositionalInference::EquivalenceElim) => "≡ Elimination"@,
            Rule::Predicate(PredicateInference::ForallIntro) => "∀ Introduction"@,
            Rule::Predicate(PredicateInference::ForallElim) => "∀ Elimination"@,
            Rule::Predicate(PredicateInference::ExistsIntro) => "∃ Introduction"@,
            Rule::Predicate(PredicateInference::ExistsElim) => "∃ Elimination"@,
            Rule::Redundant(RedundantPrepositionalInference::ModusTollens) => "Modus Tollens"@,
            Rule::Redundant(RedundantPrepositionalInference::HypotheticalSyllogism) => "Hypothetical Syllogism"@,
            Rule::Redundant(RedundantPrepositionalInference::ExcludedMiddle) => "Excluded Middle"@,
            Rule::Redundant(RedundantPrepositionalInference::ConstructiveDilemma) => "Constructive Dilemma"@,
            Rule::Boolean(BooleanEquivalence::Association) => "Association"@,
            Rule::Boolean(BooleanEquivalence::Commutation) => "Commutation"@,
            Rule::Boolean(BooleanEquivalence::Idempotence) => "Idempotence"@,
            Rule::Boolean(BooleanEquivalence::DeMorgan) => "DeMorgan"@,
            Rule::Boolean(BooleanEquivalence::Distribution) => "Distribution"@,
            Rule::Boolean(BooleanEquivalence::DoubleNegation) => "Double Negation"@,
            Rule::Boolean(BooleanEquivalence::Complement) => "Complement"@,
            Rule::Boolean(BooleanEquivalence::Identity) => "Identity"@,
            Rule::Boolean(BooleanEquivalence::Annihilation) => "Annihilation"@,
            Rule::Boolean(BooleanEquivalence::Inverse) => "Inverse"@,
            Rule::Boolean(BooleanEquivalence::Absorption) => "Absorption"@,
            Rule::Boolean(BooleanEquivalence::Reduction) => "Reduction"@,
            Rule::Boolean(BooleanEquivalence::Adjacency) => "Adjacency"@,
            Rule::Conditional(ConditionalEquivalence::Complement) => "Conditional Complement"@,
            Rule::Conditional(ConditionalEquivalence::Identity) => "Conditional Identity"@,
            Rule::Conditional(ConditionalEquivalence::Annihilation) => "Conditional Annihilation"@,
            Rule::Conditional(ConditionalEquivalence::Implication) => "Implication"@,
            Rule::Conditional(ConditionalEquivalence::BiImplication) => "Biconditional Equivalence"@,
            Rule::Conditional(ConditionalEquivalence::Contraposition) => "Contraposition"@,
            Rule::Conditional(ConditionalEquivalence::Currying) => "Exportation"@,
            Rule::Conditional(ConditionalEquivalence::ConditionalDistribution) => "Conditional Distribution"@,
            Rule::Conditional(ConditionalEquivalence::ConditionalReduction) => "Conditional Reduction"@,
            Rule::Conditional(ConditionalEquivalence::KnightsAndKnaves) => "Knights and Knaves"@,
            Rule::Conditional(ConditionalEquivalence::ConditionalIdempotence) => "Conditional Idempotence"@,
            Rule::Conditional(ConditionalEquivalence::BiconditionalNegation) => "Biconditional Negation"@,
            Rule::Conditional(ConditionalEquivalence::BiconditionalSubstitution) => "Biconditional Substitution"@,
            Rule::Automation(AutomationRelatedRules::AsymmetricTautology) => "Asymmetric Tautology"@,
            Rule::Automation(AutomationRelatedRules::Resolution) => "Resolution"@,
            Rule::Automation(AutomationRelatedRules::TautologicalConsequence) => "Tautological Consequence"@,
            Rule::Quantifier(QuantifierEquivalence::QuantifierNegation) => "Quantifier Negation"@,
            Rule::Quantifier(QuantifierEquivalence::NullQuantification) => "Null Quantification"@,
            Rule::Quantifier(QuantifierEquivalence::ReplacingBoundVars) => "Replacing Bound Variables"@,
            Rule::Quantifier(QuantifierEquivalence::SwappingQuantifiers) => "Swapping Quantifiers of Same Type"@,
            Rule::Quantifier(QuantifierEquivalence::AristoteleanSquare) => "Aristotelean Square of Opposition"@,
            Rule::Quantifier(QuantifierEquivalence::QuantifierDistribution) => "Quantifier Distribution"@,
            Rule::Quantifier(QuantifierEquivalence::PrenexLaws) => "Prenex Laws"@,
            Rule::Empty(EmptyRule) => "Rule"@,
        }
    }

    /// The classifications the rule belongs to.
    pub open spec fn classes(self) -> Seq<RuleClassification> {
        match self {
            Rule::Prepositional(PrepositionalInference::Reit) => seq![RuleClassification::MiscInference],
            Rule::Prepositional(PrepositionalInference::AndIntro) => seq![RuleClassification::Introduction],
            Rule::Prepositional(PrepositionalInference::AndElim) => seq![RuleClassification::Elimination],
            Rule::Prepositional(PrepositionalInference::OrIntro) => seq![RuleClassification::Introduction],
            Rule::Prepositional(PrepositionalInference::OrElim) => seq![RuleClassification::Elimination],
            Rule::Prepositional(PrepositionalInference::ImpIntro) => seq![RuleClassification::Introduction],
            Rule::Prepositional(PrepositionalInference::ImpElim) => seq![RuleClassification::Elimination],
            Rule::Prepositional(PrepositionalInference::NotIntro) => seq![RuleClassification::Introduction],
            Rule::Prepositional(PrepositionalInference::NotElim) => seq![RuleClassification::Elimination],
            Rule::Prepositional(PrepositionalInference::ContradictionIntro) => seq![RuleClassification::Introduction],
            Rule::Prepositional(PrepositionalInference::ContradictionElim) => seq![RuleClassification::Elimination],
            Rule::Prepositional(PrepositionalInference::BiconditionalIntro) => seq![RuleClassification::Introduction],
            Rule::Prepositional(PrepositionalInference::BiconditionalElim) => seq![RuleClassification::Elimination],
            Rule::Prepositional(PrepositionalInference::EquivalenceIntro) => seq![RuleClassification::Introduction],
            Rule::Prepositional(PrepositionalInference::EquivalenceElim) => seq![RuleClassification::Elimination],
            Rule::Predicate(PredicateInference::ForallIntro) => seq![RuleClassification::Introduction],
            Rule::Predicate(PredicateInference::ForallElim) => seq![RuleClassification::Elimination],
            Rule::Predicate(PredicateInference::ExistsIntro) => seq![RuleClassification::Introduction],
            Rule::Predicate(PredicateInference::ExistsElim) => seq![RuleClassification::Elimination],
            Rule::Redundant(RedundantPrepositionalInference::ModusTollens) => seq![RuleClassification::MiscInference],
            Rule::Redundant(RedundantPrepositionalInference::HypotheticalSyllogism) => seq![RuleClassification::MiscInference],
            Rule::Redundant(RedundantPrepositionalInference::ExcludedMiddle) => seq![RuleClassification::MiscInference],
            Rule::Redundant(RedundantPrepositionalInference::ConstructiveDilemma) => seq![RuleClassification::MiscInference],
            Rule::Boolean(BooleanEquivalence::Association) => seq![RuleClassification::BooleanEquivalence],
            Rule::Boolean(BooleanEquivalence::Commutation) => seq![RuleClassification::BooleanEquivalence],
            Rule::Boolean(BooleanEquivalence::Idempotence) => seq![RuleClassification::BooleanEquivalence],
            Rule::Boolean(BooleanEquivalence::DeMorgan) => seq![RuleClassification::BooleanEquivalence],
            Rule::Boolean(BooleanEquivalence::Distribution) => seq![RuleClassification::BooleanEquivalence],
            Rule::Boolean(BooleanEquivalence::DoubleNegation) => seq![RuleClassification::BooleanEquivalence],
            Rule::Boolean(BooleanEquivalence::Complement) => seq![RuleClassification::BooleanEquivalence],
            Rule::Boolean(BooleanEquivalence::Identity) => seq![RuleClassification::BooleanEquivalence],
            Rule::Boolean(BooleanEquivalence::Annihilation) => seq![RuleClassification::BooleanEquivalence],
            Rule::Boolean(BooleanEquivalence::Inverse) => seq![RuleClassification::BooleanEquivalence],
            Rule::Boolean(BooleanEquivalence::Absorption) => seq![RuleClassification::BooleanEquivalence],
            Rule::Boolean(BooleanEquivalence::Reduction) => seq![RuleClassification::BooleanEquivalence],
            Rule::Boolean(BooleanEquivalence::Adjacency) => seq![RuleClassification::BooleanEquivalence],
            Rule::Conditional(ConditionalEquivalence::Complement) => seq![RuleClassification::ConditionalEquivalence],
            Rule::Conditional(ConditionalEquivalence::Identity) => seq![RuleClassification::ConditionalEquivalence],
            Rule::Conditional(ConditionalEquivalence::Annihilation) => seq![RuleClassification::ConditionalEquivalence],
            Rule::Conditional(ConditionalEquivalence::Implication) => seq![RuleClassification::ConditionalEquivalence],
            Rule::Conditional(ConditionalEquivalence::BiImplication) => seq![RuleClassification::ConditionalEquivalence],
            Rule::Conditional(ConditionalEquivalence::Contraposition) => seq![RuleClassification::ConditionalEquivalence],
            Rule::Conditional(ConditionalEquivalence::Currying) => seq![RuleClassification::ConditionalEquivalence],
            Rule::Conditional(ConditionalEquivalence::ConditionalDistribution) => seq![RuleClassification::ConditionalEquivalence],
            Rule::Conditional(ConditionalEquivalence::ConditionalReduction) => seq![RuleClassification::ConditionalEquivalence],
            Rule::Conditional(ConditionalEquivalence::KnightsAndKnaves) => seq![RuleClassification::ConditionalEquivalence],
            Rule::Conditional(ConditionalEquivalence::ConditionalIdempotence) => seq![RuleClassification::ConditionalEquivalence],
            Rule::Conditional(ConditionalEquivalence::BiconditionalNegation) => seq![RuleClassification::ConditionalEquivalence],
            Rule::Conditional(ConditionalEquivalence::BiconditionalSubstitution) => seq![RuleClassification::ConditionalEquivalence],
            Rule::Automation(AutomationRelatedRules::AsymmetricTautology) => seq![RuleClassification::MiscInference],
            Rule::Automation(AutomationRelatedRules::Resolution) => seq![RuleClassification::MiscInference],
            Rule::Automation(AutomationRelatedRules::TautologicalConsequence) => seq![RuleClassification::MiscInference],
            Rule::Quantifier(QuantifierEquivalence::QuantifierNegation) => seq![RuleClassification::QuantifierEquivalence],
            Rule::Quantifier(QuantifierEquivalence::NullQuantification) => seq![RuleClassification::QuantifierEquivalence],
            Rule::Quantifier(QuantifierEquivalence::ReplacingBoundVars) => seq![RuleClassification::QuantifierEquivalence],
            Rule::Quantifier(QuantifierEquivalence::SwappingQuantifiers) => seq![RuleClassification::QuantifierEquivalence],
            Rule::Quantifier(QuantifierEquivalence::AristoteleanSquare) => seq![RuleClassification::QuantifierEquivalence],
            Rule::Quantifier(QuantifierEquivalence::QuantifierDistribution) => seq![RuleClassification::QuantifierEquivalence],
            Rule::Quantifier(QuantifierEquivalence::PrenexLaws) => seq![RuleClassification::QuantifierEquivalence],
            Rule::Empty(EmptyRule) => Seq::empty(),
        }
    }

    /// How many direct dependencies the rule takes; `None` when any number
    /// is accepted.
    pub fn num_deps(&self) -> (r: Option<usize>)
        ensures
            r == self.expected_deps(),
    {
        match *self {
            Rule::Prepositional(PrepositionalInference::Reit) => Some(1),
            Rule::Prepositional(PrepositionalInference::AndIntro) => None,
            Rule::Prepositional(PrepositionalInference::AndElim) => Some(1),
            Rule::Prepositional(PrepositionalInference::OrIntro) => Some(1),
            Rule::Prepositional(PrepositionalInference::OrElim) => Some(1),
            Rule::Prepositional(PrepositionalInference::ImpIntro) => Some(0),
            Rule::Prepositional(PrepositionalInference::ImpElim) => Some(2),
            Rule::Prepositional(PrepositionalInference::NotIntro) => Some(0),
            Rule::Prepositional(PrepositionalInference::NotElim) => Some(1),
            Rule::Prepositional(PrepositionalInference::ContradictionIntro) => Some(2),
            Rule::Prepositional(PrepositionalInference::ContradictionElim) => Some(1),
            Rule::Prepositional(PrepositionalInference::BiconditionalIntro) => None,
            Rule::Prepositional(PrepositionalInference::BiconditionalElim) => Some(2),
            Rule::Prepositional(PrepositionalInference::EquivalenceIntro) => None,
            Rule::Prepositional(PrepositionalInference::EquivalenceElim) => Some(2),
            Rule::Predicate(PredicateInference::ForallIntro) => Some(0),
            Rule::Predicate(PredicateInference::ForallElim) => Some(1),
            Rule::Predicate(PredicateInference::ExistsIntro) => Some(1),
            Rule::Predicate(PredicateInference::ExistsElim) => Some(1),
            Rule::Redundant(RedundantPrepositionalInference::ModusTollens) => Some(2),
            Rule::Redundant(RedundantPrepositionalInference::HypotheticalSyllogism) => Some(2),
            Rule::Redundant(RedundantPrepositionalInference::ExcludedMiddle) => Some(0),
            Rule::Redundant(RedundantPrepositionalInference::ConstructiveDilemma) => Some(3),
            Rule::Boolean(BooleanEquivalence::Association) => Some(1),
            Rule::Boolean(BooleanEquivalence::Commutation) => Some(1),
            Rule::Boolean(BooleanEquivalence::Idempotence) => Some(1),
            Rule::Boolean(BooleanEquivalence::DeMorgan) => Some(1),
            Rule::Boolean(BooleanEquivalence::Distribution) => Some(1),
            Rule::Boolean(BooleanEquivalence::DoubleNegation) => Some(1),
            Rule::Boolean(BooleanEquivalence::Complement) => Some(1),
            Rule::Boolean(BooleanEquivalence::Identity) => Some(1),
            Rule::Boolean(BooleanEquivalence::Annihilation) => Some(1),
            Rule::Boolean(BooleanEquivalence::Inverse) => Some(1),
            Rule::Boolean(BooleanEquivalence::Absorption) => Some(1),
            Rule::Boolean(BooleanEquivalence::Reduction) => Some(1),
            Rule::Boolean(BooleanEquivalence::Adjacency) => Some(1),
            Rule::Conditional(ConditionalEquivalence::Complement) => Some(1),
            Rule::Conditional(ConditionalEquivalence::Identity) => Some(1),
            Rule::Conditional(ConditionalEquivalence::Annihilation) => Some(1),
            Rule::Conditional(ConditionalEquivalence::Implication) => Some(1),
            Rule::Conditional(ConditionalEquivalence::BiImplication) => Some(1),
            Rule::Conditional(ConditionalEquivalence::Contraposition) => Some(1),
            Rule::Conditional(ConditionalEquivalence::Currying) => Some(1),
            Rule::Conditional(ConditionalEquivalence::ConditionalDistribution) => Some(1),
            Rule::Conditional(ConditionalEquivalence::ConditionalReduction) => Some(1),
            Rule::Conditional(ConditionalEquivalence::KnightsAndKnaves) => Some(1),
            Rule::Conditional(ConditionalEquivalence::ConditionalIdempotence) => Some(1),
            Rule::Conditional(ConditionalEquivalence::BiconditionalNegation) => Some(1),
            Rule::Conditional(ConditionalEquivalence::BiconditionalSubstitution) => Some(1),
            Rule::Automation(AutomationRelatedRules::AsymmetricTautology) => None,
            Rule::Automation(AutomationRelatedRules::Resolution) => Some(2),
            Rule::Automation(AutomationRelatedRules::TautologicalConsequence) => None,
            Rule::Quantifier(QuantifierEquivalence::QuantifierNegation) => Some(1),
            Rule::Quantifier(QuantifierEquivalence::NullQuantification) => Some(1),
            Rule::Quantifier(QuantifierEquivalence::ReplacingBoundVars) => Some(1),
            Rule::Quantifier(QuantifierEquivalence::SwappingQuantifiers) => Some(1),
            Rule::Quantifier(QuantifierEquivalence::AristoteleanSquare) => Some(1),
            Rule::Quantifier(QuantifierEquivalence::QuantifierDistribution) => Some(1),
            Rule::Quantifier(QuantifierEquivalence::PrenexLaws) => Some(1),
            Rule::Empty(EmptyRule) => None,
        }
    }

    /// How many subproof dependencies the rule takes; `None` when any
    /// number is accepted.
    pub fn num_subdeps(&self) -> (r: Option<usize>)
        ensures
            r == self.expected_subdeps(),
    {
        match *self {
            Rule::Prepositional(PrepositionalInference::Reit) => Some(0),
            Rule::Prepositional(PrepositionalInference::AndIntro) => Some(0),
            Rule::Prepositional(PrepositionalInference::AndElim) => Some(0),
            Rule::Prepositional(PrepositionalInference::OrIntro) => Some(0),
            Rule::Prepositional(PrepositionalInference::OrElim) => None,
            Rule::Prepositional(PrepositionalInference::ImpIntro) => Some(1),
            Rule::Prepositional(PrepositionalInference::ImpElim) => Some(0),
            Rule::Prepositional(PrepositionalInference::NotIntro) => Some(1),
            Rule::Prepositional(PrepositionalInference::NotElim) => Some(0),
            Rule::Prepositional(PrepositionalInference::ContradictionIntro) => Some(0),
            Rule::Prepositional(PrepositionalInference::ContradictionElim) => Some(0),
            Rule::Prepositional(PrepositionalInference::BiconditionalIntro) => None,
            Rule::Prepositional(PrepositionalInference::BiconditionalElim) => Some(0),
            Rule::Prepositional(PrepositionalInference::EquivalenceIntro) => None,
            Rule::Prepositional(PrepositionalInference::EquivalenceElim) => Some(0),
            Rule::Predicate(PredicateInference::ForallIntro) => Some(1),
            Rule::Predicate(PredicateInference::ForallElim) => Some(0),
            Rule::Predicate(PredicateInference::ExistsIntro) => Some(0),
            Rule::Predicate(PredicateInference::ExistsElim) => Some(1),
            Rule::Redundant(RedundantPrepositionalInference::ModusTollens) => Some(0),
            Rule::Redundant(RedundantPrepositionalInference::HypotheticalSyllogism) => Some(0),
            Rule::Redundant(RedundantPrepositionalInference::ExcludedMiddle) => Some(0),
            Rule::Redundant(RedundantPrepositionalInference::ConstructiveDilemma) => Some(0),
            Rule::Boolean(BooleanEquivalence::Association) => Some(0),
            Rule::Boolean(BooleanEquivalence::Commutation) => Some(0),
            Rule::Boolean(BooleanEquivalence::Idempotence) => Some(0),
            Rule::Boolean(BooleanEquivalence::DeMorgan) => Some(0),
            Rule::Boolean(BooleanEquivalence::Distribution) => Some(0),
            Rule::Boolean(BooleanEquivalence::DoubleNegation) => Some(0),
            Rule::Boolean(BooleanEquivalence::Complement) => Some(0),
            Rule::Boolean(BooleanEquivalence::Identity) => Some(0),
            Rule::Boolean(BooleanEquivalence::Annihilation) => Some(0),
            Rule::Boolean(BooleanEquivalence::Inverse) => Some(0),
            Rule::Boolean(BooleanEquivalence::Absorption) => Some(0),
            Rule::Boolean(BooleanEquivalence::Reduction) => Some(0),
            Rule::Boolean(BooleanEquivalence::Adjacency) => Some(0),
            Rule::Conditional(ConditionalEquivalence::Complement) => Some(0),
            Rule::Conditional(ConditionalEquivalence::Identity) => Some(0),
            Rule::Conditional(ConditionalEquivalence::Annihilation) => Some(0),
            Rule::Conditional(ConditionalEquivalence::Implication) => Some(0),
            Rule::Conditional(ConditionalEquivalence::BiImplication) => Some(0),
            Rule::Conditional(ConditionalEquivalence::Contraposition) => Some(0),
            Rule::Conditional(ConditionalEquivalence::Currying) => Some(0),
            Rule::Conditional(ConditionalEquivalence::ConditionalDistribution) => Some(0),
            Rule::Conditional(ConditionalEquivalence::ConditionalReduction) => Some(0),
            Rule::Conditional(ConditionalEquivalence::KnightsAndKnaves) => Some(0),
            Rule::Conditional(ConditionalEquivalence::ConditionalIdempotence) => Some(0),
            Rule::Conditional(ConditionalEquivalence::BiconditionalNegation) => Some(0),
            Rule::Conditional(ConditionalEquivalence::BiconditionalSubstitution) => Some(0),
            Rule::Automation(AutomationRelatedRules::AsymmetricTautology) => Some(0),
            Rule::Automation(AutomationRelatedRules::Resolution) => Some(0),
            Rule::Automation(AutomationRelatedRules::TautologicalConsequence) => Some(0),
            Rule::Quantifier(QuantifierEquivalence::QuantifierNegation) => Some(0),
            Rule::Quantifier(QuantifierEquivalence::NullQuantification) => Some(0),
            Rule::Quantifier(QuantifierEquivalence::ReplacingBoundVars) => Some(0),
            Rule::Quantifier(QuantifierEquivalence::SwappingQuantifiers) => Some(0),
            Rule::Quantifier(QuantifierEquivalence::AristoteleanSquare) => Some(0),
            Rule::Quantifier(QuantifierEquivalence::QuantifierDistribution) => Some(0),
            Rule::Quantifier(QuantifierEquivalence::PrenexLaws) => Some(0),
            Rule::Empty(EmptyRule) => None,
        }
    }

    /// The stable name under which the rule is stored and exchanged.
    pub fn to_serialized_name(&self) -> (r: &'static str)
        ensures
            r@ == self.serialized(),
    {
        match *self {
            Rule::Prepositional(PrepositionalInference::Reit) => "REITERATION",
            Rule::Prepositional(PrepositionalInference::AndIntro) => "CONJUNCTION",
            Rule::Prepositional(PrepositionalInference::AndElim) => "SIMPLIFICATION",
            Rule::Prepositional(PrepositionalInference::OrIntro) => "ADDITION",
            Rule::Prepositional(PrepositionalInference::OrElim) => "DISJUNCTIVE_SYLLOGISM",
            Rule::Prepositional(PrepositionalInference::ImpIntro) => "CONDITIONAL_PROOF",
            Rule::Prepositional(PrepositionalInference::ImpElim) => "MODUS_PONENS",
            Rule::Prepositional(PrepositionalInference::NotIntro) => "PROOF_BY_CONTRADICTION",
            Rule::Prepositional(PrepositionalInference::NotElim) => "DOUBLENEGATION",
            Rule::Prepositional(PrepositionalInference::ContradictionIntro) => "CONTRADICTION",
            Rule::Prepositional(PrepositionalInference::ContradictionElim) => "PRINCIPLE_OF_EXPLOSION",
            Rule::Prepositional(PrepositionalInference::BiconditionalIntro) => "BICONDITIONAL_INTRO",
            Rule::Prepositional(PrepositionalInference::BiconditionalElim) => "BICONDITIONAL_ELIM",
            Rule::Prepositional(PrepositionalInference::EquivalenceIntro) => "EQUIVALENCE_INTRO",
            Rule::Prepositional(PrepositionalInference::EquivalenceElim) => "EQUIVALENCE_ELIM",
            Rule::Predicate(PredicateInference::ForallIntro) => "UNIVERSAL_GENERALIZATION",
            Rule::Predicate(PredicateInference::ForallElim) => "UNIVERSAL_INSTANTIATION",
            Rule::Predicate(PredicateInference::ExistsIntro) => "EXISTENTIAL_GENERALIZATION",
            Rule::Predicate(PredicateInference::ExistsElim) => "EXISTENTIAL_INSTANTIATION",
            Rule::Redundant(RedundantPrepositionalInference::ModusTollens) => "MODUS_TOLLENS",
            Rule::Redundant(RedundantPrepositionalInference::HypotheticalSyllogism) => "HYPOTHETICAL_SYLLOGISM",
            Rule::Redundant(RedundantPrepositionalInference::ExcludedMiddle) => "EXCLUDED_MIDDLE",
            Rule::Redundant(RedundantPrepositionalInference::ConstructiveDilemma) => "CONSTRUCTIVE_DILEMMA",
            Rule::Boolean(BooleanEquivalence::Association) => "ASSOCIATION",
            Rule::Boolean(BooleanEquivalence::Commutation) => "COMMUTATION",
            Rule::Boolean(BooleanEquivalence::Idempotence) => "IDEMPOTENCE",
            Rule::Boolean(BooleanEquivalence::DeMorgan) => "DE_MORGAN",
            Rule::Boolean(BooleanEquivalence::Distribution) => "DISTRIBUTION",
            Rule::Boolean(BooleanEquivalence::DoubleNegation) => "DOUBLENEGATION_EQUIV",
            Rule::Boolean(BooleanEquivalence::Complement) => "COMPLEMENT",
            Rule::Boolean(BooleanEquivalence::Identity) => "IDENTITY",
            Rule::Boolean(BooleanEquivalence::Annihilation) => "ANNIHILATION",
            Rule::Boolean(BooleanEquivalence::Inverse) => "INVERSE",
            Rule::Boolean(BooleanEquivalence::Absorption) => "ABSORPTION",
            Rule::Boolean(BooleanEquivalence::Reduction) => "REDUCTION",
            Rule::Boolean(BooleanEquivalence::Adjacency) => "ADJACENCY",
            Rule::Conditional(ConditionalEquivalence::Complement) => "CONDITIONAL_COMPLEMENT",
            Rule::Conditional(ConditionalEquivalence::Identity) => "CONDITIONAL_IDENTITY",
            Rule::Conditional(ConditionalEquivalence::Annihilation) => "CONDITIONAL_ANNIHILATION",
            Rule::Conditional(ConditionalEquivalence::Implication) => "IMPLICATION",
            Rule::Conditional(ConditionalEquivalence::BiImplication) => "BI_IMPLICATION",
            Rule::Conditional(ConditionalEquivalence::Contraposition) => "CONTRAPOSITION",
            Rule::Conditional(ConditionalEquivalence::Currying) => "CURRYING",
            Rule::Conditional(ConditionalEquivalence::ConditionalDistribution) => "CONDITIONAL_DISTRIBUTION",
            Rule::Conditional(ConditionalEquivalence::ConditionalReduction) => "CONDITIONAL_REDUCTION",
            Rule::Conditional(ConditionalEquivalence::KnightsAndKnaves) => "KNIGHTS_AND_KNAVES",
            Rule::Conditional(ConditionalEquivalence::ConditionalIdempotence) => "CONDITIONAL_IDEMPOTENCE",
            Rule::Conditional(ConditionalEquivalence::BiconditionalNegation) => "BICONDITIONAL_NEGATION",
            Rule::Conditional(ConditionalEquivalence::BiconditionalSubstitution) => "BICONDITIONAL_SUBSTITUTION",
            Rule::Automation(AutomationRelatedRules::AsymmetricTautology) => "ASYMMETRIC_TAUTOLOGY",
            Rule::Automation(AutomationRelatedRules::Resolution) => "RESOLUTION",
            Rule::Automation(AutomationRelatedRules::TautologicalConsequence) => "TAUTOLOGICAL_CONSEQUENCE",
            Rule::Quantifier(QuantifierEquivalence::QuantifierNegation) => "QUANTIFIER_NEGATION",
            Rule::Quantifier(QuantifierEquivalence::NullQuantification) => "NULL_QUANTIFICATION",
            Rule::Quantifier(QuantifierEquivalence::ReplacingBoundVars) => "REPLACING_BOUND_VARS",
            Rule::Quantifier(QuantifierEquivalence::SwappingQuantifiers) => "SWAPPING_QUANTIFIERS",
            Rule::Quantifier(QuantifierEquivalence::AristoteleanSquare) => "ARISTOTELEAN_SQUARE",
            Rule::Quantifier(QuantifierEquivalence::QuantifierDistribution) => "QUANTIFIER_DISTRIBUTION",
            Rule::Quantifier(QuantifierEquivalence::PrenexLaws) => "PRENEX_LAWS",
            Rule::Empty(EmptyRule) => "EMPTY_RULE",
        }
    }

    /// The name of the rule shown to a user.
    pub fn get_name(&self) -> (r: String)
        ensures
            r@ == self.display_name(),
    {
        let s: &str = match *self {
            Rule::Prepositional(PrepositionalInference::Reit) => "Reiteration",
            Rule::Prepositional(PrepositionalInference::AndIntro) => "∧ Introduction",
            Rule::Prepositional(PrepositionalInference::AndElim) => "∧ Elimination",
            Rule::Prepositional(PrepositionalInference::OrIntro) => "∨ Introduction",
            Rule::Prepositional(PrepositionalInference::OrElim) => "∨ Elimination",
            Rule::Prepositional(PrepositionalInference::ImpIntro) => "→ Introduction",
            Rule::Prepositional(PrepositionalInference::ImpElim) => "→ Elimination",
            Rule::Prepositional(PrepositionalInference::NotIntro) => "¬ Introduction",
            Rule::Prepositional(PrepositionalInference::NotElim) => "¬ Elimination",
            Rule::Prepositional(PrepositionalInference::ContradictionIntro) => "⊥ Introduction",
            Rule::Prepositional(PrepositionalInference::ContradictionElim) => "⊥ Elimination",
            Rule::Prepositional(PrepositionalInference::BiconditionalIntro) => "↔ Introduction",
            Rule::Prepositional(PrepositionalInference::BiconditionalElim) => "↔ Elimination",
            Rule::Prepositional(PrepositionalInference::EquivalenceIntro) => "≡ Introduction",
            Rule::Prepositional(PrepositionalInference::EquivalenceElim) => "≡ Elimination",
            Rule::Predicate(PredicateInference::ForallIntro) => "∀ Introduction",
            Rule::Predicate(PredicateInference::ForallElim) => "∀ Elimination",
            Rule::Predicate(PredicateInference::ExistsIntro) => "∃ Introduction",
            Rule::Predicate(PredicateInference::ExistsElim) => "∃ Elimination",
            Rule::Redundant(RedundantPrepositionalInference::ModusTollens) => "Modus Tollens",
            Rule::Redundant(RedundantPrepositionalInference::HypotheticalSyllogism) => "Hypothetical Syllogism",
            Rule::Redundant(RedundantPrepositionalInference::ExcludedMiddle) => "Excluded Middle",
            Rule::Redundant(RedundantPrepositionalInference::ConstructiveDilemma) => "Constructive Dilemma",
            Rule::Boolean(BooleanEquivalence::Association) => "Association",
            Rule::Boolean(BooleanEquivalence::Commutation) => "Commutation",
            Rule::Boolean(BooleanEquivalence::Idempotence) => "Idempotence",
            Rule::Boolean(BooleanEquivalence::DeMorgan) => "DeMorgan",
            Rule::Boolean(BooleanEquivalence::Distribution) => "Distribution",
            Rule::Boolean(BooleanEquivalence::DoubleNegation) => "Double Negation",
            Rule::Boolean(BooleanEquivalence::Complement) => "Complement",
            Rule::Boolean(BooleanEquivalence::Identity) => "Identity",
            Rule::Boolean(BooleanEquivalence::Annihilation) => "Annihilation",
            Rule::Boolean(BooleanEquivalence::Inverse) => "Inverse",
            Rule::Boolean(BooleanEquivalence::Absorption) => "Absorption",
            Rule::Boolean(BooleanEquivalence::Reduction) => "Reduction",
            Rule::Boolean(BooleanEquivalence::Adjacency) => "Adjacency",
            Rule::Conditional(ConditionalEquivalence::Complement) => "Conditional Complement",
            Rule::Conditional(ConditionalEquivalence::Identity) => "Conditional Identity",
            Rule::Conditional(ConditionalEquivalence::Annihilation) => "Conditional Annihilation",
            Rule::Conditional(ConditionalEquivalence::Implication) => "Implication",
            Rule::Conditional(ConditionalEquivalence::BiImplication) => "Biconditional Equivalence",
            Rule::Conditional(ConditionalEquivalence::Contraposition) => "Contraposition",
            Rule::Conditional(ConditionalEquivalence::Currying) => "Exportation",
            Rule::Conditional(ConditionalEquivalence::ConditionalDistribution) => "Conditional Distribution",
            Rule::Conditional(ConditionalEquivalence::ConditionalReduction) => "Conditional Reduction",
            Rule::Conditional(ConditionalEquivalence::KnightsAndKnaves) => "Knights and Knaves",
            Rule::Conditional(ConditionalEquivalence::ConditionalIdempotence) => "Conditional Idempotence",
            Rule::Conditional(ConditionalEquivalence::BiconditionalNegation) => "Biconditional Negation",
            Rule::Conditional(ConditionalEquivalence::BiconditionalSubstitution) => "Biconditional Substitution",
            Rule::Automation(AutomationRelatedRules::AsymmetricTautology) => "Asymmetric Tautology",
            Rule::Automation(AutomationRelatedRules::Resolution) => "Resolution",
            Rule::Automation(AutomationRelatedRules::TautologicalConsequence) => "Tautological Consequence",
            Rule::Quantifier(QuantifierEquivalence::QuantifierNegation) => "Quantifier Negation",
            Rule::Quantifier(QuantifierEquivalence::NullQuantification) => "Null Quantification",
            Rule::Quantifier(QuantifierEquivalence::ReplacingBoundVars) => "Replacing Bound Variables",
            Rule::Quantifier(QuantifierEquivalence::SwappingQuantifiers) => "Swapping Quantifiers of Same Type",
            Rule::Quantifier(QuantifierEquivalence::AristoteleanSquare) => "Aristotelean Square of Opposition",
            Rule::Quantifier(QuantifierEquivalence::QuantifierDistribution) => "Quantifier Distribution",
            Rule::Quantifier(QuantifierEquivalence::PrenexLaws) => "Prenex Laws",
            Rule::Empty(EmptyRule) => "Rule",
        };
        String::from_str(s)
    }

    /// The classifications the rule belongs to.
    pub fn get_classifications(&self) -> (r: Vec<RuleClassification>)
        ensures
            r@ == self.classes(),
    {
        let mut v: Vec<RuleClassification> = Vec::new();
        let c: Option<RuleClassification> = match *self {
            Rule::Prepositional(PrepositionalInference::Reit) => Some(RuleClassification::MiscInference),
            Rule::Prepositional(PrepositionalInference::AndIntro) => Some(RuleClassification::Introduction),
            Rule::Prepositional(PrepositionalInference::AndElim) => Some(RuleClassification::Elimination),
            Rule::Prepositional(PrepositionalInference::OrIntro) => Some(RuleClassification::Introduction),
            Rule::Prepositional(PrepositionalInference::OrElim) => Some(RuleClassification::Elimination),
            Rule::Prepositional(PrepositionalInference::ImpIntro) => Some(RuleClassification::Introduction),
            Rule::Prepositional(PrepositionalInference::ImpElim) => Some(RuleClassification::Elimination),
            Rule::Prepositional(PrepositionalInference::NotIntro) => Some(RuleClassification::Introduction),
            Rule::Prepositional(PrepositionalInference::NotElim) => Some(RuleClassification::Elimination),
            Rule::Prepositional(PrepositionalInference::ContradictionIntro) => Some(RuleClassification::Introduction),
            Rule::Prepositional(PrepositionalInference::ContradictionElim) => Some(RuleClassification::Elimination),
            Rule::Prepositional(PrepositionalInference::BiconditionalIntro) => Some(RuleClassification::Introduction),
            Rule::Prepositional(PrepositionalInference::BiconditionalElim) => Some(RuleClassification::Elimination),
            Rule::Prepositional(PrepositionalInference::EquivalenceIntro) => Some(RuleClassification::Introduction),
            Rule::Prepositional(PrepositionalInference::EquivalenceElim) => Some(RuleClassification::Elimination),
            Rule::Predicate(PredicateInference::ForallIntro) => Some(RuleClassification::Introduction),
            Rule::Predicate(PredicateInference::ForallElim) => Some(RuleClassification::Elimination),
            Rule::Predicate(PredicateInference::ExistsIntro) => Some(RuleClassification::Introduction),
            Rule::Predicate(PredicateInference::ExistsElim) => Some(RuleClassification::Elimination),
            Rule::Redundant(RedundantPrepositionalInference::ModusTollens) => Some(RuleClassification::MiscInference),
            Rule::Redundant(RedundantPrepositionalInference::HypotheticalSyllogism) => Some(RuleClassification::MiscInference),
            Rule::Redundant(RedundantPrepositionalInference::ExcludedMiddle) => Some(RuleClassification::MiscInference),
            Rule::Redundant(RedundantPrepositionalInference::ConstructiveDilemma) => Some(RuleClassification::MiscInference),
            Rule::Boolean(BooleanEquivalence::Association) => Some(RuleClassification::BooleanEquivalence),
            Rule::Boolean(BooleanEquivalence::Commutation) => Some(RuleClassification::BooleanEquivalence),
            Rule::Boolean(BooleanEquivalence::Idempotence) => Some(RuleClassification::BooleanEquivalence),
            Rule::Boolean(BooleanEquivalence::DeMorgan) => Some(RuleClassification::BooleanEquivalence),
            Rule::Boolean(BooleanEquivalence::Distribution) => Some(RuleClassification::BooleanEquivalence),
            Rule::Boolean(BooleanEquivalence::DoubleNegation) => Some(RuleClassification::BooleanEquivalence),
            Rule::Boolean(BooleanEquivalence::Complement) => Some(RuleClassification::BooleanEquivalence),
            Rule::Boolean(BooleanEquivalence::Identity) => Some(RuleClassification::BooleanEquivalence),
            Rule::Boolean(BooleanEquivalence::Annihilation) => Some(RuleClassification::BooleanEquivalence),
            Rule::Boolean(BooleanEquivalence::Inverse) => Some(RuleClassification::BooleanEquivalence),
            Rule::Boolean(BooleanEquivalence::Absorption) => Some(RuleClassification::BooleanEquivalence),
            Rule::Boolean(BooleanEquivalence::Reduction) => Some(RuleClassification::BooleanEquivalence),
            Rule::Boolean(BooleanEquivalence::Adjacency) => Some(RuleClassification::BooleanEquivalence),
            Rule::Conditional(ConditionalEquivalence::Complement) => Some(RuleClassification::ConditionalEquivalence),
            Rule::Conditional(ConditionalEquivalence::Identity) => Some(RuleClassification::ConditionalEquivalence),
            Rule::Conditional(ConditionalEquivalence::Annihilation) => Some(RuleClassification::ConditionalEquivalence),
            Rule::Conditional(ConditionalEquivalence::Implication) => Some(RuleClassification::ConditionalEquivalence),
            Rule::Conditional(ConditionalEquivalence::BiImplication) => Some(RuleClassification::ConditionalEquivalence),
            Rule::Conditional(ConditionalEquivalence::Contraposition) => Some(RuleClassification::ConditionalEquivalence),
            Rule::Conditional(ConditionalEquivalence::Currying) => Some(RuleClassification::ConditionalEquivalence),
            Rule::Conditional(ConditionalEquivalence::ConditionalDistribution) => Some(RuleClassification::ConditionalEquivalence),
            Rule::Conditional(ConditionalEquivalence::ConditionalReduction) => Some(RuleClassification::ConditionalEquivalence),
            Rule::Conditional(ConditionalEquivalence::KnightsAndKnaves) => Some(RuleClassification::ConditionalEquivalence),
            Rule::Conditional(ConditionalEquivalence::ConditionalIdempotence) => Some(RuleClassification::ConditionalEquivalence),
            Rule::Conditional(ConditionalEquivalence::BiconditionalNegation) => Some(RuleClassification::ConditionalEquivalence),
            Rule::Conditional(ConditionalEquivalence::BiconditionalSubstitution) => Some(RuleClassification::ConditionalEquivalence),
            Rule::Automation(AutomationRelatedRules::AsymmetricTautology) => Some(RuleClassification::MiscInference),
            Rule::Automation(AutomationRelatedRules::Resolution) => Some(RuleClassification::MiscInference),
            Rule::Automation(AutomationRelatedRules::TautologicalConsequence) => Some(RuleClassification::MiscInference),
            Rule::Quantifier(QuantifierEquivalence::QuantifierNegation) => Some(RuleClassification::QuantifierEquivalence),
            Rule::Quantifier(QuantifierEquivalence::NullQuantification) => Some(RuleClassification::QuantifierEquivalence),
            Rule::Quantifier(QuantifierEquivalence::ReplacingBoundVars) => Some(RuleClassification::QuantifierEquivalence),
            Rule::Quantifier(QuantifierEquivalence::SwappingQuantifiers) => Some(RuleClassification::QuantifierEquivalence),
            Rule::Quantifier(QuantifierEquivalence::AristoteleanSquare) => Some(RuleClassification::QuantifierEquivalence),
            Rule::Quantifier(QuantifierEquivalence::QuantifierDistribution) => Some(RuleClassification::QuantifierEquivalence),
            Rule::Quantifier(QuantifierEquivalence::PrenexLaws) => Some(RuleClassification::QuantifierEquivalence),
            Rule::Empty(EmptyRule) => None,
        };
        if let Some(c) = c {
            v.push(c);
        }
        assert(v@ =~= self.classes());
        v
    }
}

/// The rule at position `i` of the exchange order.
pub open spec fn rule_at(i: int) -> Rule {
    if i == 0 {
        Rule::Prepositional(PrepositionalInference::Reit)
    } else if i == 1 {
        Rule::Prepositional(PrepositionalInference::AndIntro)
    } else if i == 2 {
        Rule::Prepositional(PrepositionalInference::AndElim)
    } else if i == 3 {
        Rule::Prepositional(PrepositionalInference::OrIntro)
    } else if i == 4 {
        Rule::Prepositional(PrepositionalInference::OrElim)
    } else if i == 5 {
        Rule::Prepositional(PrepositionalInference::ImpIntro)
    } else if i == 6 {
        Rule::Prepositional(PrepositionalInference::ImpElim)
    } else if i == 7 {
        Rule::Prepositional(PrepositionalInference::NotIntro)
    } else if i == 8 {
        Rule::Prepositional(PrepositionalInference::NotElim)
    } else if i == 9 {
        Rule::Prepositional(PrepositionalInference::ContradictionIntro)
    } else if i == 10 {
        Rule::Prepositional(PrepositionalInference::ContradictionElim)
    } else if i == 11 {
        Rule::Prepositional(PrepositionalInference::BiconditionalIntro)
    } else if i == 12 {
        Rule::Prepositional(PrepositionalInference::BiconditionalElim)
    } else if i == 13 {
        Rule::Prepositional(PrepositionalInference::EquivalenceIntro)
    } else if i == 14 {
        Rule::Prepositional(PrepositionalInference::EquivalenceElim)
    } else if i == 15 {
        Rule::Predicate(PredicateInference::ForallIntro)
    } else if i == 16 {
        Rule::Predicate(PredicateInference::ForallElim)
    } else if i == 17 {
        Rule::Predicate(PredicateInference::ExistsIntro)
    } else if i == 18 {
        Rule::Predicate(PredicateInference::ExistsElim)
    } else if i == 19 {
        Rule::Redundant(RedundantPrepositionalInference::ModusTollens)
    } else if i == 20 {
        Rule::Redundant(RedundantPrepositionalInference::HypotheticalSyllogism)
    } else if i == 21 {
        Rule::Redundant(RedundantPrepositionalInference::ExcludedMiddle)
    } else if i == 22 {
        Rule::Redundant(RedundantPrepositionalInference::ConstructiveDilemma)
    } else if i == 23 {
        Rule::Boolean(BooleanEquivalence::Association)
    } else if i == 24 {
        Rule::Boolean(BooleanEquivalence::Commutation)
    } else if i == 25 {
        Rule::Boolean(BooleanEquivalence::Idempotence)
    } else if i == 26 {
        Rule::Boolean(BooleanEquivalence::DeMorgan)
    } else if i == 27 {
        Rule::Boolean(BooleanEquivalence::Distribution)
    } else if i == 28 {
        Rule::Boolean(BooleanEquivalence::DoubleNegation)
    } else if i == 29 {
        Rule::Boolean(BooleanEquivalence::Complement)
    } else if i == 30 {
        Rule::Boolean(BooleanEquivalence::Identity)
    } else if i == 31 {
        Rule::Boolean(BooleanEquivalence::Annihilation)
    } else if i == 32 {
        Rule::Boolean(BooleanEquivalence::Inverse)
    } else if i == 33 {
        Rule::Boolean(BooleanEquivalence::Absorption)
    } else if i == 34 {
        Rule::Boolean(BooleanEquivalence::Reduction)
    } else if i == 35 {
        Rule::Boolean(BooleanEquivalence::Adjacency)
    } else if i == 36 {
        Rule::Conditional(ConditionalEquivalence::Complement)
    } else if i == 37 {
        Rule::Conditional(ConditionalEquivalence::Identity)
    } else if i == 38 {
        Rule::Conditional(ConditionalEquivalence::Annihilation)
    } else if i == 39 {
        Rule::Conditional(ConditionalEquivalence::Implication)
    } else if i == 40 {
        Rule::Conditional(ConditionalEquivalence::BiImplication)
    } else if i == 41 {
        Rule::Conditional(ConditionalEquivalence::Contraposition)
    } else if i == 42 {
        Rule::Conditional(ConditionalEquivalence::Currying)
    } else if i == 43 {
        Rule::Conditional(ConditionalEquivalence::ConditionalDistribution)
    } else if i == 44 {
        Rule::Conditional(ConditionalEquivalence::ConditionalReduction)
    } else if i == 45 {
        Rule::Conditional(ConditionalEquivalence::KnightsAndKnaves)
    } else if i == 46 {
        Rule::Conditional(ConditionalEquivalence::ConditionalIdempotence)
    } else if i == 47 {
        Rule::Conditional(ConditionalEquivalence::BiconditionalNegation)
    } else if i == 48 {
        Rule::Conditional(ConditionalEquivalence::BiconditionalSubstitution)
    } else if i == 49 {
        Rule::Automation(AutomationRelatedRules::AsymmetricTautology)
    } else if i == 50 {
        Rule::Automation(AutomationRelatedRules::Resolution)
    } else if i == 51 {
        Rule::Automation(AutomationRelatedRules::TautologicalConsequence)
    } else if i == 52 {
        Rule::Quantifier(QuantifierEquivalence::QuantifierNegation)
    } else if i == 53 {
        Rule::Quantifier(QuantifierEquivalence::NullQuantification)
    } else if i == 54 {
        Rule::Quantifier(QuantifierEquivalence::ReplacingBoundVars)
    } else if i == 55 {
        Rule::Quantifier(QuantifierEquivalence::SwappingQuantifiers)
    } else if i == 56 {
        Rule::Quantifier(QuantifierEquivalence::AristoteleanSquare)
    } else if i == 57 {
        Rule::Quantifier(QuantifierEquivalence::QuantifierDistribution)
    } else if i == 58 {
        Rule::Quantifier(QuantifierEquivalence::PrenexLaws)
    } else {
        Rule::Empty(EmptyRule)
    }
}

/// Every rule, in the order in which they are exchanged.
pub open spec fn spec_all_rules() -> Seq<Rule> {
    Seq::new(60, |i: int| rule_at(i))
}

/// Every rule, in the order in which they are exchanged.
pub fn all_rules() -> (r: Vec<Rule>)
    ensures
        r@ == spec_all_rules(),
{
    let v: Vec<Rule> = vec![
        Rule::Prepositional(PrepositionalInference::Reit),
        Rule::Prepositional(PrepositionalInference::AndIntro),
        Rule::Prepositional(PrepositionalInference::AndElim),
        Rule::Prepositional(PrepositionalInference::OrIntro),
        Rule::Prepositional(PrepositionalInference::OrElim),
        Rule::Prepositional(PrepositionalInference::ImpIntro),
        Rule::Prepositional(PrepositionalInference::ImpElim),
        Rule::Prepositional(PrepositionalInference::NotIntro),
        Rule::Prepositional(PrepositionalInference::NotElim),
        Rule::Prepositional(PrepositionalInference::ContradictionIntro),
        Rule::Prepositional(PrepositionalInference::ContradictionElim),
        Rule::Prepositional(PrepositionalInference::BiconditionalIntro),
        Rule::Prepositional(PrepositionalInference::BiconditionalElim),
        Rule::Prepositional(PrepositionalInference::EquivalenceIntro),
        Rule::Prepositional(PrepositionalInference::EquivalenceElim),
        Rule::Predicate(PredicateInference::ForallIntro),
        Rule::Predicate(PredicateInference::ForallElim),
        Rule::Predicate(PredicateInference::ExistsIntro),
        Rule::Predicate(PredicateInference::ExistsElim),
        Rule::Redundant(RedundantPrepositionalInference::ModusTollens),
        Rule::Redundant(RedundantPrepositionalInference::HypotheticalSyllogism),
        Rule::Redundant(RedundantPrepositionalInference::ExcludedMiddle),
        Rule::Redundant(RedundantPrepositionalInference::ConstructiveDilemma),
        Rule::Boolean(BooleanEquivalence::Association),
        Rule::Boolean(BooleanEquivalence::Commutation),
        Rule::Boolean(BooleanEquivalence::Idempotence),
        Rule::Boolean(BooleanEquivalence::DeMorgan),
        Rule::Boolean(BooleanEquivalence::Distribution),
        Rule::Boolean(BooleanEquivalence::DoubleNegation),
        Rule::Boolean(BooleanEquivalence::Complement),
        Rule::Boolean(BooleanEquivalence::Identity),
        Rule::Boolean(BooleanEquivalence::Annihilation),
        Rule::Boolean(BooleanEquivalence::Inverse),
        Rule::Boolean(BooleanEquivalence::Absorption),
        Rule::Boolean(BooleanEquivalence::Reduction),
        Rule::Boolean(BooleanEquivalence::Adjacency),
        Rule::Conditional(ConditionalEquivalence::Complement),
        Rule::Conditional(ConditionalEquivalence::Identity),
        Rule::Conditional(ConditionalEquivalence::Annihilation),
        Rule::Conditional(ConditionalEquivalence::Implication),
        Rule::Conditional(ConditionalEquivalence::BiImplication),
        Rule::Conditional(ConditionalEquivalence::Contraposition),
        Rule::Conditional(ConditionalEquivalence::Currying),
        Rule::Conditional(ConditionalEquivalence::ConditionalDistribution),
        Rule::Conditional(ConditionalEquivalence::ConditionalReduction),
        Rule::Conditional(ConditionalEquivalence::KnightsAndKnaves),
        Rule::Conditional(ConditionalEquivalence::ConditionalIdempotence),
        Rule::Conditional(ConditionalEquivalence::BiconditionalNegation),
        Rule::Conditional(ConditionalEquivalence::BiconditionalSubstitution),
        Rule::Automation(AutomationRelatedRules::AsymmetricTautology),
        Rule::Automation(AutomationRelatedRules::Resolution),
        Rule::Automation(AutomationRelatedRules::TautologicalConsequence),
        Rule::Quantifier(QuantifierEquivalence::QuantifierNegation),
        Rule::Quantifier(QuantifierEquivalence::NullQuantification),
        Rule::Quantifier(QuantifierEquivalence::ReplacingBoundVars),
        Rule::Quantifier(QuantifierEquivalence::SwappingQuantifiers),
        Rule::Quantifier(QuantifierEquivalence::AristoteleanSquare),
        Rule::Quantifier(QuantifierEquivalence::QuantifierDistribution),
        Rule::Quantifier(QuantifierEquivalence::PrenexLaws),
        Rule::Empty(EmptyRule),
    ];
    assert(v@ =~= spec_all_rules());
    v
}

/// The stable name of every rule, in the order of `all_rules`.
pub fn all_serialized_names() -> (r: Vec<&'static str>)
    ensures
        r@.len() == spec_all_rules().len(),
        forall|i: int| 0 <= i < r@.len() ==> #[trigger] r@[i]@ == spec_all_rules()[i].serialized(),
{
    let rules = all_rules();
    let mut names: Vec<&'static str> = Vec::new();
    let mut i: usize = 0;
    while i < rules.len()
        invariant
            rules@ == spec_all_rules(),
            0 <= i <= rules.len(),
            names@.len() == i,
            forall|j: int| 0 <= j < i ==> #[trigger] names@[j]@ == spec_all_rules()[j].serialized(),
        decreases rules.len() - i,
    {
        names.push(rules[i].to_serialized_name());
        i = i + 1;
    }
    names
}

/// The first rule of `rules`, from index `i` on, whose stable name is `s`.
pub open spec fn find_by_name(rules: Seq<Rule>, s: Seq<char>, i: int) -> Option<Rule>
    decreases rules.len() - i,
{
    if i < 0 || i >= rules.len() {
        None
    } else if rules[i].serialized() == s {
        Some(rules[i])
    } else {
        find_by_name(rules, s, i + 1)
    }
}

/// The rule whose stable name is `name`, if there is one.
pub fn from_serialized_name(name: &str) -> (r: Option<Rule>)
    ensures
        r == find_by_name(spec_all_rules(), name@, 0),
{
    let rules = all_rules();
    let target = String::from_str(name);
    let mut i: usize = 0;
    while i < rules.len()
        invariant
            rules@ == spec_all_rules(),
            target@ == name@,
            0 <= i <= rules.len(),
            find_by_name(spec_all_rules(), name@, 0) == find_by_name(rules@, name@, i as int),
        decreases rules.len() - i,
    {
        let candidate = String::from_str(rules[i].to_serialized_name());
        if candidate == target {
            return Some(rules[i]);
        }
        i = i + 1;
    }
    None
}

proof fn lemma_finds_reiteration()
    ensures
        find_by_name(spec_all_rules(), "REITERATION"@, 0) == Some(Rule::Prepositional(PrepositionalInference::Reit)),
{
    reveal_strlit("REITERATION");
    assert(find_by_name(spec_all_rules(), "REITERATION"@, 0) == Some(Rule::Prepositional(PrepositionalInference::Reit)));
}

proof fn lemma_finds_conjunction()
    ensures
        find_by_name(spec_all_rules(), "CONJUNCTION"@, 0) == Some(Rule::Prepositional(PrepositionalInference::AndIntro)),
{
    reveal_strlit("CONJUNCTION");
    reveal_strlit("REITERATION");
    assert("REITERATION"@[0] != "CONJUNCTION"@[0]);
    assert(find_by_name(spec_all_rules(), "CONJUNCTION"@, 0) == find_by_name(spec_all_rules(), "CONJUNCTION"@, 1));
    assert(find_by_name(spec_all_rules(), "CONJUNCTION"@, 1) == Some(Rule::Prepositional(PrepositionalInference::AndIntro)));
}

proof fn lemma_finds_simplification()
    ensures
        find_by_name(spec_all_rules(), "SIMPLIFICATION"@, 0) == Some(Rule::Prepositional(PrepositionalInference::AndElim)),
{
    reveal_strlit("SIMPLIFICATION");
    reveal_strlit("REITERATION");
    assert("REITERATION"@.len() != "SIMPLIFICATION"@.len());
    assert(find_by_name(spec_all_rules(), "SIMPLIFICATION"@, 0) == find_by_name(spec_all_rules(), "SIMPLIFICATION"@, 1));
    reveal_strlit("CONJUNCTION");
    assert("CONJUNCTION"@.len() != "SIMPLIFICATION"@.len());
    assert(find_by_name(spec_all_rules(), "SIMPLIFICATION"@, 1) == find_by_name(spec_all_rules(), "SIMPLIFICATION"@, 2));
    assert(find_by_name(spec_all_rules(), "SIMPLIFICATION"@, 2) == Some(Rule::Prepositional(PrepositionalInference::AndElim)));
}

proof fn lemma_finds_addition()
    ensures
        find_by_name(spec_all_rules(), "ADDITION"@, 0) == Some(Rule::Prepositional(PrepositionalInference::OrIntro)),
{
    reveal_strlit("ADDITION");
    reveal_strlit("REITERATION");
    assert("REITERATION"@.len() != "ADDITION"@.len());
    assert(find_by_name(spec_all_rules(), "ADDITION"@, 0) == find_by_name(spec_all_rules(), "ADDITION"@, 1));
    reveal_strlit("CONJUNCTION");
    assert("CONJUNCTION"@.len() != "ADDITION"@.len());
    assert(find_by_name(spec_all_rules(), "ADDITION"@, 1) == find_by_name(spec_all_rules(), "ADDITION"@, 2));
    reveal_strlit("SIMPLIFICATION");
    assert("SIMPLIFICATION"@.len() != "ADDITION"@.len());
    assert(find_by_name(spec_all_rules(), "ADDITION"@, 2) == find_by_name(spec_all_rules(), "ADDITION"@, 3));
    assert(find_by_name(spec_all_rules(), "ADDITION"@, 3) == Some(Rule::Prepositional(PrepositionalInference::OrIntro)));
}

proof fn lemma_finds_disjunctive_syllogism()
    ensures
        find_by_name(spec_all_rules(), "DISJUNCTIVE_SYLLOGISM"@, 0) == Some(Rule::Prepositional(PrepositionalInference::OrElim)),
{
    reveal_strlit("DISJUNCTIVE_SYLLOGISM");
    reveal_strlit("REITERATION");
    assert("REITERATION"@.len() != "DISJUNCTIVE_SYLLOGISM"@.len());
    assert(find_by_name(spec_all_rules(), "DISJUNCTIVE_SYLLOGISM"@, 0) == find_by_name(spec_all_rules(), "DISJUNCTIVE_SYLLOGISM"@, 1));
    reveal_strlit("CONJUNCTION");
    assert("CONJUNCTION"@.len() != "DISJUNCTIVE_SYLLOGISM"@.len());
    assert(find_by_name(spec_all_rules(), "DISJUNCTIVE_SYLLOGISM"@, 1) == find_by_name(spec_all_rules(), "DISJUNCTIVE_SYLLOGISM"@, 2));
    reveal_strlit("SIMPLIFICATION");
    assert("SIMPLIFICATION"@.len() != "DISJUNCTIVE_SYLLOGISM"@.len());
    assert(find_by_name(spec_all_rules(), "DISJUNCTIVE_SYLLOGISM"@, 2) == find_by_name(spec_all_rules(), "DISJUNCTIVE_SYLLOGISM"@, 3));
    reveal_strlit("ADDITION");
    assert("ADDITION"@.len() != "DISJUNCTIVE_SYLLOGISM"@.len());
    assert(find_by_name(spec_all_rules(), "DISJUNCTIVE_SYLLOGISM"@, 3) == find_by_name(spec_all_rules(), "DISJUNCTIVE_SYLLOGISM"@, 4));
    assert(find_by_name(spec_all_rules(), "DISJUNCTIVE_SYLLOGISM"@, 4) == Some(Rule::Prepositional(PrepositionalInference::OrElim)));
}

proof fn lemma_finds_conditional_proof()
    ensures
        find_by_name(spec_all_rules(), "CONDITIONAL_PROOF"@, 0) == Some(Rule::Prepositional(PrepositionalInference::ImpIntro)),
{
    reveal_strlit("CONDITIONAL_PROOF");
    reveal_strlit("REITERATION");
    assert("REITERATION"@.len() != "CONDITIONAL_PROOF"@.len());
    assert(find_by_name(spec_all_rules(), "CONDITIONAL_PROOF"@, 0) == find_by_name(spec_all_rules(), "CONDITIONAL_PROOF"@, 1));
    reveal_strlit("CONJUNCTION");
    assert("CONJUNCTION"@.len() != "CONDITIONAL_PROOF"@.len());
    assert(find_by_name(spec_all_rules(), "CONDITIONAL_PROOF"@, 1) == find_by_name(spec_all_rules(), "CONDITIONAL_PROOF"@, 2));
    reveal_strlit("SIMPLIFICATION");
    assert("SIMPLIFICATION"@.len() != "CONDITIONAL_PROOF"@.len());
    assert(find_by_name(spec_all_rules(), "CONDITIONAL_PROOF"@, 2) == find_by_name(spec_all_rules(), "CONDITIONAL_PROOF"@, 3));
    reveal_strlit("ADDITION");
    assert("ADDITION"@.len() != "CONDITIONAL_PROOF"@.len());
    assert(find_by_name(spec_all_rules(), "CONDITIONAL_PROOF"@, 3) == find_by_name(spec_all_rules(), "CONDITIONAL_PROOF"@, 4));
    reveal_strlit("DISJUNCTIVE_SYLLOGISM");
    assert("DISJUNCTIVE_SYLLOGISM"@.len() != "CONDITIONAL_PROOF"@.len());
    assert(find_by_name(spec_all_rules(), "CONDITIONAL_PROOF"@, 4) == find_by_name(spec_all_rules(), "CONDITIONAL_PROOF"@, 5));
    assert(find_by_name(spec_all_rules(), "CONDITIONAL_PROOF"@, 5) == Some(Rule::Prepositional(PrepositionalInference::ImpIntro)));
}

proof fn lemma_finds_modus_ponens()
    ensures
        find_by_name(spec_all_rules(), "MODUS_PONENS"@, 0) == Some(Rule::Prepositional(PrepositionalInference::ImpElim)),
{
    reveal_strlit("MODUS_PONENS");
    reveal_strlit("REITERATION");
    assert("REITERATION"@.len() != "MODUS_PONENS"@.len());
    assert(find_by_name(spec_all_rules(), "MODUS_PONENS"@, 0) == find_by_name(spec_all_rules(), "MODUS_PONENS"@, 1));
    reveal_strlit("CONJUNCTION");
    assert("CONJUNCTION"@.len() != "MODUS_PONENS"@.len());
    assert(find_by_name(spec_all_rules(), "MODUS_PONENS"@, 1) == find_by_name(spec_all_rules(), "MODUS_PONENS"@, 2));
    reveal_strlit("SIMPLIFICATION");
    assert("SIMPLIFICATION"@.len() != "MODUS_PONENS"@.len());
    assert(find_by_name(spec_all_rules(), "MODUS_PONENS"@, 2) == find_by_name(spec_all_rules(), "MODUS_PONENS"@, 3));
    reveal_strlit("ADDITION");
    assert("ADDITION"@.len() != "MODUS_PONENS"@.len());
    assert(find_by_name(spec_all_rules(), "MODUS_PONENS"@, 3) == find_by_name(spec_all_rules(), "MODUS_PONENS"@, 4));
    reveal_strlit("DISJUNCTIVE_SYLLOGISM");
    assert("DISJUNCTIVE_SYLLOGISM"@.len() != "MODUS_PONENS"@.len());
    assert(find_by_name(spec_all_rules(), "MODUS_PONENS"@, 4) == find_by_name(spec_all_rules(), "MODUS_PONENS"@, 5));
    reveal_strlit("CONDITIONAL_PROOF");
    assert("CONDITIONAL_PROOF"@.len() != "MODUS_PONENS"@.len());
    assert(find_by_name(spec_all_rules(), "MODUS_PONENS"@, 5) == find_by_name(spec_all_rules(), "MODUS_PONENS"@, 6));
    assert(find_by_name(spec_all_rules(), "MODUS_PONENS"@, 6) == Some(Rule::Prepositional(PrepositionalInference::ImpElim)));
}

proof fn lemma_finds_proof_by_contradiction()
    ensures
        find_by_name(spec_all_rules(), "PROOF_BY_CONTRADICTION"@, 0) == Some(Rule::Prepositional(PrepositionalInference::NotIntro)),
{
    reveal_strlit("PROOF_BY_CONTRADICTION");
    reveal_strlit("REITERATION");
    assert("REITERATION"@.len() != "PROOF_BY_CONTRADICTION"@.len());
    assert(find_by_name(spec_all_rules(), "PROOF_BY_CONTRADICTION"@, 0) == find_by_name(spec_all_rules(), "PROOF_BY_CONTRADICTION"@, 1));
    reveal_strlit("CONJUNCTION");
    assert("CONJUNCTION"@.len() != "PROOF_BY_CONTRADICTION"@.len());
    assert(find_by_name(spec_all_rules(), "PROOF_BY_CONTRADICTION"@, 1) == find_by_name(spec_all_rules(), "PROOF_BY_CONTRADICTION"@, 2));
    reveal_strlit("SIMPLIFICATION");
    assert("SIMPLIFICATION"@.len() != "PROOF_BY_CONTRADICTION"@.len());
    assert(find_by_name(spec_all_rules(), "PROOF_BY_CONTRADICTION"@, 2) == find_by_name(spec_all_rules(), "PROOF_BY_CONTRADICTION"@, 3));
    reveal_strlit("ADDITION");
    assert("ADDITION"@.len() != "PROOF_BY_CONTRADICTION"@.len());
    assert(find_by_name(spec_all_rules(), "PROOF_BY_CONTRADICTION"@, 3) == find_by_name(spec_all_rules(), "PROOF_BY_CONTRADICTION"@, 4));
    reveal_strlit("DISJUNCTIVE_SYLLOGISM");
    assert("DISJUNCTIVE_SYLLOGISM"@.len() != "PROOF_BY_CONTRADICTION"@.len());
    assert(find_by_name(spec_all_rules(), "PROOF_BY_CONTRADICTION"@, 4) == find_by_name(spec_all_rules(), "PROOF_BY_CONTRADICTION"@, 5));
    reveal_strlit("CONDITIONAL_PROOF");
    assert("CONDITIONAL_PROOF"@.len() != "PROOF_BY_CONTRADICTION"@.len());
    assert(find_by_name(spec_all_rules(), "PROOF_BY_CONTRADICTION"@, 5) == find_by_name(spec_all_rules(), "PROOF_BY_CONTRADICTION"@, 6));
    reveal_strlit("MODUS_PONENS");
    assert("MODUS_PONENS"@.len() != "PROOF_BY_CONTRADICTION"@.len());
    assert(find_by_name(spec_all_rules(), "PROOF_BY_CONTRADICTION"@, 6) == find_by_name(spec_all_rules(), "PROOF_BY_CONTRADICTION"@, 7));
    assert(find_by_name(spec_all_rules(), "PROOF_BY_CONTRADICTION"@, 7) == Some(Rule::Prepositional(PrepositionalInference::NotIntro)));
}

proof fn lemma_finds_doublenegation()
    ensures
        find_by_name(spec_all_rules(), "DOUBLENEGATION"@, 0) == Some(Rule::Prepositional(PrepositionalInference::NotElim)),
{
    reveal_strlit("DOUBLENEGATION");
    reveal_strlit("REITERATION");
    assert("REITERATION"@.len() != "DOUBLENEGATION"@.len());
    assert(find_by_name(spec_all_rules(), "DOUBLENEGATION"@, 0) == find_by_name(spec_all_rules(), "DOUBLENEGATION"@, 1));
    reveal_strlit("CONJUNCTION");
    assert("CONJUNCTION"@.len() != "DOUBLENEGATION"@.len());
    assert(find_by_name(spec_all_rules(), "DOUBLENEGATION"@, 1) == find_by_name(spec_all_rules(), "DOUBLENEGATION"@, 2));
    reveal_strlit("SIMPLIFICATION");
    assert("SIMPLIFICATION"@[0] != "DOUBLENEGATION"@[0]);
    assert(find_by_name(spec_all_rules(), "DOUBLENEGATION"@, 2) == find_by_name(spec_all_rules(), "DOUBLENEGATION"@, 3));
    reveal_strlit("ADDITION");
    assert("ADDITION"@.len() != "DOUBLENEGATION"@.len());
    assert(find_by_name(spec_all_rules(), "DOUBLENEGATION"@, 3) == find_by_name(spec_all_rules(), "DOUBLENEGATION"@, 4));
    reveal_strlit("DISJUNCTIVE_SYLLOGISM");
    assert("DISJUNCTIVE_SYLLOGISM"@.len() != "DOUBLENEGATION"@.len());
    assert(find_by_name(spec_all_rules(), "DOUBLENEGATION"@, 4) == find_by_name(spec_all_rules(), "DOUBLENEGATION"@, 5));
    reveal_strlit("CONDITIONAL_PROOF");
    assert("CONDITIONAL_PROOF"@.len() != "DOUBLENEGATION"@.len());
    assert(find_by_name(spec_all_rules(), "DOUBLENEGATION"@, 5) == find_by_name(spec_all_rules(), "DOUBLENEGATION"@, 6));
    reveal_strlit("MODUS_PONENS");
    assert("MODUS_PONENS"@.len() != "DOUBLENEGATION"@.len());
    assert(find_by_name(spec_all_rules(), "DOUBLENEGATION"@, 6) == find_by_name(spec_all_rules(), "DOUBLENEGATION"@, 7));
    reveal_strlit("PROOF_BY_CONTRADICTION");
    assert("PROOF_BY_CONTRADICTION"@.len() != "DOUBLENEGATION"@.len());
    assert(find_by_name(spec_all_rules(), "DOUBLENEGATION"@, 7) == find_by_name(spec_all_rules(), "DOUBLENEGATION"@, 8));
    assert(find_by_name(spec_all_rules(), "DOUBLENEGATION"@, 8) == Some(Rule::Prepositional(PrepositionalInference::NotElim)));
}

proof fn lemma_finds_contradiction()
    ensures
        find_by_name(spec_all_rules(), "CONTRADICTION"@, 0) == Some(Rule::Prepositional(PrepositionalInference::ContradictionIntro)),
{
    reveal_strlit("CONTRADICTION");
    reveal_strlit("REITERATION");
    assert("REITERATION"@.len() != "CONTRADICTION"@.len());
    assert(find_by_name(spec_all_rules(), "CONTRADICTION"@, 0) == find_by_name(spec_all_rules(), "CONTRADICTION"@, 1));
    reveal_strlit("CONJUNCTION");
    assert("CONJUNCTION"@.len() != "CONTRADICTION"@.len());
    assert(find_by_name(spec_all_rules(), "CONTRADICTION"@, 1) == find_by_name(spec_all_rules(), "CONTRADICTION"@, 2));
    reveal_strlit("SIMPLIFICATION");
    assert("SIMPLIFICATION"@.len() != "CONTRADICTION"@.len());
    assert(find_by_name(spec_all_rules(), "CONTRADICTION"@, 2) == find_by_name(spec_all_rules(), "CONTRADICTION"@, 3));
    reveal_strlit("ADDITION");
    assert("ADDITION"@.len() != "CONTRADICTION"@.len());
    assert(find_by_name(spec_all_rules(), "CONTRADICTION"@, 3) == find_by_name(spec_all_rules(), "CONTRADICTION"@, 4));
    reveal_strlit("DISJUNCTIVE_SYLLOGISM");
    assert("DISJUNCTIVE_SYLLOGISM"@.len() != "CONTRADICTION"@.len());
    assert(find_by_name(spec_all_rules(), "CONTRADICTION"@, 4) == find_by_name(spec_all_rules(), "CONTRADICTION"@, 5));
    reveal_strlit("CONDITIONAL_PROOF");
    assert("CONDITIONAL_PROOF"@.len() != "CONTRADICTION"@.len());
    assert(find_by_name(spec_all_rules(), "CONTRADICTION"@, 5) == find_by_name(spec_all_rules(), "CONTRADICTION"@, 6));
    reveal_strlit("MODUS_PONENS");
    assert("MODUS_PONENS"@.len() != "CONTRADICTION"@.len());
    assert(find_by_name(spec_all_rules(), "CONTRADICTION"@, 6) == find_by_name(spec_all_rules(), "CONTRADICTION"@, 7));
    reveal_strlit("PROOF_BY_CONTRADICTION");
    assert("PROOF_BY_CONTRADICTION"@.len() != "CONTRADICTION"@.len());
    assert(find_by_name(spec_all_rules(), "CONTRADICTION"@, 7) == find_by_name(spec_all_rules(), "CONTRADICTION"@, 8));
    reveal_strlit("DOUBLENEGATION");
    assert("DOUBLENEGATION"@.len() != "CONTRADICTION"@.len());
    assert(find_by_name(spec_all_rules(), "CONTRADICTION"@, 8) == find_by_name(spec_all_rules(), "CONTRADICTION"@, 9));
    assert(find_by_name(spec_all_rules(), "CONTRADICTION"@, 9) == Some(Rule::Prepositional(PrepositionalInference::ContradictionIntro)));
}

proof fn lemma_finds_principle_of_explosion()
    ensures
        find_by_name(spec_all_rules(), "PRINCIPLE_OF_EXPLOSION"@, 0) == Some(Rule::Prepositional(PrepositionalInference::ContradictionElim)),
{
    reveal_strlit("PRINCIPLE_OF_EXPLOSION");
    reveal_strlit("REITERATION");
    assert("REITERATION"@.len() != "PRINCIPLE_OF_EXPLOSION"@.len());
    assert(find_by_name(spec_all_rules(), "PRINCIPLE_OF_EXPLOSION"@, 0) == find_by_name(spec_all_rules(), "PRINCIPLE_OF_EXPLOSION"@, 1));
    reveal_strlit("CONJUNCTION");
    assert("CONJUNCTION"@.len() != "PRINCIPLE_OF_EXPLOSION"@.len());
    assert(find_by_name(spec_all_rules(), "PRINCIPLE_OF_EXPLOSION"@, 1) == find_by_name(spec_all_rules(), "PRINCIPLE_OF_EXPLOSION"@, 2));
    reveal_strlit("SIMPLIFICATION");
    assert("SIMPLIFICATION"@.len() != "PRINCIPLE_OF_EXPLOSION"@.len());
    assert(find_by_name(spec_all_rules(), "PRINCIPLE_OF_EXPLOSION"@, 2) == find_by_name(spec_all_rules(), "PRINCIPLE_OF_EXPLOSION"@, 3));
    reveal_strlit("ADDITION");
    assert("ADDITION"@.len() != "PRINCIPLE_OF_EXPLOSION"@.len());
    assert(find_by_name(spec_all_rules(), "PRINCIPLE_OF_EXPLOSION"@, 3) == find_by_name(spec_all_rules(), "PRINCIPLE_OF_EXPLOSION"@, 4));
    reveal_strlit("DISJUNCTIVE_SYLLOGISM");
    assert("DISJUNCTIVE_SYLLOGISM"@.len() != "PRINCIPLE_OF_EXPLOSION"@.len());
    assert(find_by_name(spec_all_rules(), "PRINCIPLE_OF_EXPLOSION"@, 4) == find_by_name(spec_all_rules(), "PRINCIPLE_OF_EXPLOSION"@, 5));
    reveal_strlit("CONDITIONAL_PROOF");
    assert("CONDITIONAL_PROOF"@.len() != "PRINCIPLE_OF_EXPLOSION"@.len());
    assert(find_by_name(spec_all_rules(), "PRINCIPLE_OF_EXPLOSION"@, 5) == find_by_name(spec_all_rules(), "PRINCIPLE_OF_EXPLOSION"@, 6));
    reveal_strlit("MODUS_PONENS");
    assert("MODUS_PONENS"@.len() != "PRINCIPLE_OF_EXPLOSION"@.len());
    assert(find_by_name(spec_all_rules(), "PRINCIPLE_OF_EXPLOSION"@, 6) == find_by_name(spec_all_rules(), "PRINCIPLE_OF_EXPLOSION"@, 7));
    reveal_strlit("PROOF_BY_CONTRADICTION");
    assert("PROOF_BY_CONTRADICTION"@[2] != "PRINCIPLE_OF_EXPLOSION"@[2]);
    assert(find_by_name(spec_all_rules(), "PRINCIPLE_OF_EXPLOSION"@, 7) == find_by_name(spec_all_rules(), "PRINCIPLE_OF_EXPLOSION"@, 8));
    reveal_strlit("DOUBLENEGATION");
    assert("DOUBLENEGATION"@.len() != "PRINCIPLE_OF_EXPLOSION"@.len());
    assert(find_by_name(spec_all_rules(), "PRINCIPLE_OF_EXPLOSION"@, 8) == find_by_name(spec_all_rules(), "PRINCIPLE_OF_EXPLOSION"@, 9));
    reveal_strlit("CONTRADICTION");
    assert("CONTRADICTION"@.len() != "PRINCIPLE_OF_EXPLOSION"@.len());
    assert(find_by_name(spec_all_rules(), "PRINCIPLE_OF_EXPLOSION"@, 9) == find_by_name(spec_all_rules(), "PRINCIPLE_OF_EXPLOSION"@, 10));
    assert(find_by_name(spec_all_rules(), "PRINCIPLE_OF_EXPLOSION"@, 10) == Some(Rule::Prepositional(PrepositionalInference::ContradictionElim)));
}

proof fn lemma_finds_biconditional_intro()
    ensures
        find_by_name(spec_all_rules(), "BICONDITIONAL_INTRO"@, 0) == Some(Rule::Prepositional(PrepositionalInference::BiconditionalIntro)),
{
    reveal_strlit("BICONDITIONAL_INTRO");
    reveal_strlit("REITERATION");
    assert("REITERATION"@.len() != "BICONDITIONAL_INTRO"@.len());
    assert(find_by_name(spec_all_rules(), "BICONDITIONAL_INTRO"@, 0) == find_by_name(spec_all_rules(), "BICONDITIONAL_INTRO"@, 1));
    reveal_strlit("CONJUNCTION");
    assert("CONJUNCTION"@.len() != "BICONDITIONAL_INTRO"@.len());
    assert(find_by_name(spec_all_rules(), "BICONDITIONAL_INTRO"@, 1) == find_by_name(spec_all_rules(), "BICONDITIONAL_INTRO"@, 2));
    reveal_strlit("SIMPLIFICATION");
    assert("SIMPLIFICATION"@.len() != "BICONDITIONAL_INTRO"@.len());
    assert(find_by_name(spec_all_rules(), "BICONDITIONAL_INTRO"@, 2) == find_by_name(spec_all_rules(), "BICONDITIONAL_INTRO"@, 3));
    reveal_strlit("ADDITION");
    assert("ADDITION"@.len() != "BICONDITIONAL_INTRO"@.len());
    assert(find_by_name(spec_all_rules(), "BICONDITIONAL_INTRO"@, 3) == find_by_name(spec_all_rules(), "BICONDITIONAL_INTRO"@, 4));
    reveal_strlit("DISJUNCTIVE_SYLLOGISM");
    assert("DISJUNCTIVE_SYLLOGISM"@.len() != "BICONDITIONAL_INTRO"@.len());
    assert(find_by_name(spec_all_rules(), "BICONDITIONAL_INTRO"@, 4) == find_by_name(spec_all_rules(), "BICONDITIONAL_INTRO"@, 5));
    reveal_strlit("CONDITIONAL_PROOF");
    assert("CONDITIONAL_PROOF"@.len() != "BICONDITIONAL_INTRO"@.len());
    assert(find_by_name(spec_all_rules(), "BICONDITIONAL_INTRO"@, 5) == find_by_name(spec_all_rules(), "BICONDITIONAL_INTRO"@, 6));
    reveal_strlit("MODUS_PONENS");
    assert("MODUS_PONENS"@.len() != "BICONDITIONAL_INTRO"@.len());
    assert(find_by_name(spec_all_rules(), "BICONDITIONAL_INTRO"@, 6) == find_by_name(spec_all_rules(), "BICONDITIONAL_INTRO"@, 7));
    reveal_strlit("PROOF_BY_CONTRADICTION");
    assert("PROOF_BY_CONTRADICTION"@.len() != "BICONDITIONAL_INTRO"@.len());
    assert(find_by_name(spec_all_rules(), "BICONDITIONAL_INTRO"@, 7) == find_by_name(spec_all_rules(), "BICONDITIONAL_INTRO"@, 8));
    reveal_strlit("DOUBLENEGATION");
    assert("DOUBLENEGATION"@.len() != "BICONDITIONAL_INTRO"@.len());
    assert(find_by_name(spec_all_rules(), "BICONDITIONAL_INTRO"@, 8) == find_by_name(spec_all_rules(), "BICONDITIONAL_INTRO"@, 9));
    reveal_strlit("CONTRADICTION");
    assert("CONTRADICTION"@.len() != "BICONDITIONAL_INTRO"@.len());
    assert(find_by_name(spec_all_rules(), "BICONDITIONAL_INTRO"@, 9) == find_by_name(spec_all_rules(), "BICONDITIONAL_INTRO"@, 10));
    reveal_strlit("PRINCIPLE_OF_EXPLOSION");
    assert("PRINCIPLE_OF_EXPLOSION"@.len() != "BICONDITIONAL_INTRO"@.len());
    assert(find_by_name(spec_all_rules(), "BICONDITIONAL_INTRO"@, 10) == find_by_name(spec_all_rules(), "BICONDITIONAL_INTRO"@, 11));
    assert(find_by_name(spec_all_rules(), "BICONDITIONAL_INTRO"@, 11) == Some(Rule::Prepositional(PrepositionalInference::BiconditionalIntro)));
}

proof fn lemma_finds_biconditional_elim()
    ensures
        find_by_name(spec_all_rules(), "BICONDITIONAL_ELIM"@, 0) == Some(Rule::Prepositional(PrepositionalInference::BiconditionalElim)),
{
    reveal_strlit("BICONDITIONAL_ELIM");
    reveal_strlit("REITERATION");
    assert("REITERATION"@.len() != "BICONDITIONAL_ELIM"@.len());
    assert(find_by_name(spec_all_rules(), "BICONDITIONAL_ELIM"@, 0) == find_by_name(spec_all_rules(), "BICONDITIONAL_ELIM"@, 1));
    reveal_strlit("CONJUNCTION");
    assert("CONJUNCTION"@.len() != "BICONDITIONAL_ELIM"@.len());
    assert(find_by_name(spec_all_rules(), "BICONDITIONAL_ELIM"@, 1) == find_by_name(spec_all_rules(), "BICONDITIONAL_ELIM"@, 2));
    reveal_strlit("SIMPLIFICATION");
    assert("SIMPLIFICATION"@.len() != "BICONDITIONAL_ELIM"@.len());
    assert(find_by_name(spec_all_rules(), "BICONDITIONAL_ELIM"@, 2) == find_by_name(spec_all_rules(), "BICONDITIONAL_ELIM"@, 3));
    reveal_strlit("ADDITION");
    assert("ADDITION"@.len() != "BICONDITIONAL_ELIM"@.len());
    assert(find_by_name(spec_all_rules(), "BICONDITIONAL_ELIM"@, 3) == find_by_name(spec_all_rules(), "BICONDITIONAL_ELIM"@, 4));
    reveal_strlit("DISJUNCTIVE_SYLLOGISM");
    assert("DISJUNCTIVE_SYLLOGISM"@.len() != "BICONDITIONAL_ELIM"@.len());
    assert(find_by_name(spec_all_rules(), "BICONDITIONAL_ELIM"@, 4) == find_by_name(spec_all_rules(), "BICONDITIONAL_ELIM"@, 5));
    reveal_strlit("CONDITIONAL_PROOF");
    assert("CONDITIONAL_PROOF"@.len() != "BICONDITIONAL_ELIM"@.len());
    assert(find_by_name(spec_all_rules(), "BICONDITIONAL_ELIM"@, 5) == find_by_name(spec_all_rules(), "BICONDITIONAL_ELIM"@, 6));
    reveal_strlit("MODUS_PONENS");
    assert("MODUS_PONENS"@.len() != "BICONDITIONAL_ELIM"@.len());
    assert(find_by_name(spec_all_rules(), "BICONDITIONAL_ELIM"@, 6) == find_by_name(spec_all_rules(), "BICONDITIONAL_ELIM"@, 7));
    reveal_strlit("PROOF_BY_CONTRADICTION");
    assert("PROOF_BY_CONTRADICTION"@.len() != "BICONDITIONAL_ELIM"@.len());
    assert(find_by_name(spec_all_rules(), "BICONDITIONAL_ELIM"@, 7) == find_by_name(spec_all_rules(), "BICONDITIONAL_ELIM"@, 8));
    reveal_strlit("DOUBLENEGATION");
    assert("DOUBLENEGATION"@.len() != "BICONDITIONAL_ELIM"@.len());
    assert(find_by_name(spec_all_rules(), "BICONDITIONAL_ELIM"@, 8) == find_by_name(spec_all_rules(), "BICONDITIONAL_ELIM"@, 9));
    reveal_strlit("CONTRADICTION");
    assert("CONTRADICTION"@.len() != "BICONDITIONAL_ELIM"@.len());
    assert(find_by_name(spec_all_rules(), "BICONDITIONAL_ELIM"@, 9) == find_by_name(spec_all_rules(), "BICONDITIONAL_ELIM"@, 10));
    reveal_strlit("PRINCIPLE_OF_EXPLOSION");
    assert("PRINCIPLE_OF_EXPLOSION"@.len() != "BICONDITIONAL_ELIM"@.len());
    assert(find_by_name(spec_all_rules(), "BICONDITIONAL_ELIM"@, 10) == find_by_name(spec_all_rules(), "BICONDITIONAL_ELIM"@, 11));
    reveal_strlit("BICONDITIONAL_INTRO");
    assert("BICONDITIONAL_INTRO"@.len() != "BICONDITIONAL_ELIM"@.len());
    assert(find_by_name(spec_all_rules(), "BICONDITIONAL_ELIM"@, 11) == find_by_name(spec_all_rules(), "BICONDITIONAL_ELIM"@, 12));
    assert(find_by_name(spec_all_rules(), "BICONDITIONAL_ELIM"@, 12) == Some(Rule::Prepositional(PrepositionalInference::BiconditionalElim)));
}

proof fn lemma_finds_equivalence_intro()
    ensures
        find_by_name(spec_all_rules(), "EQUIVALENCE_INTRO"@, 0) == Some(Rule::Prepositional(PrepositionalInference::EquivalenceIntro)),
{
    reveal_strlit("EQUIVALENCE_INTRO");
    reveal_strlit("REITERATION");
    assert("REITERATION"@.len() != "EQUIVALENCE_INTRO"@.len());
    assert(find_by_name(spec_all_rules(), "EQUIVALENCE_INTRO"@, 0) == find_by_name(spec_all_rules(), "EQUIVALENCE_INTRO"@, 1));
    reveal_strlit("CONJUNCTION");
    assert("CONJUNCTION"@.len() != "EQUIVALENCE_INTRO"@.len());
    assert(find_by_name(spec_all_rules(), "EQUIVALENCE_INTRO"@, 1) == find_by_name(spec_all_rules(), "EQUIVALENCE_INTRO"@, 2));
    reveal_strlit("SIMPLIFICATION");
    assert("SIMPLIFICATION"@.len() != "EQUIVALENCE_INTRO"@.len());
    assert(find_by_name(spec_all_rules(), "EQUIVALENCE_INTRO"@, 2) == find_by_name(spec_all_rules(), "EQUIVALENCE_INTRO"@, 3));
    reveal_strlit("ADDITION");
    assert("ADDITION"@.len() != "EQUIVALENCE_INTRO"@.len());
    assert(find_by_name(spec_all_rules(), "EQUIVALENCE_INTRO"@, 3) == find_by_name(spec_all_rules(), "EQUIVALENCE_INTRO"@, 4));
    reveal_strlit("DISJUNCTIVE_SYLLOGISM");
    assert("DISJUNCTIVE_SYLLOGISM"@.len() != "EQUIVALENCE_INTRO"@.len());
    assert(find_by_name(spec_all_rules(), "EQUIVALENCE_INTRO"@, 4) == find_by_name(spec_all_rules(), "EQUIVALENCE_INTRO"@, 5));
    reveal_strlit("CONDITIONAL_PROOF");
    assert("CONDITIONAL_PROOF"@[0] != "EQUIVALENCE_INTRO"@[0]);
    assert(find_by_name(spec_all_rules(), "EQUIVALENCE_INTRO"@, 5) == find_by_name(spec_all_rules(), "EQUIVALENCE_INTRO"@, 6));
    reveal_strlit("MODUS_PONENS");
    assert("MODUS_PONENS"@.len() != "EQUIVALENCE_INTRO"@.len());
    assert(find_by_name(spec_all_rules(), "EQUIVALENCE_INTRO"@, 6) == find_by_name(spec_all_rules(), "EQUIVALENCE_INTRO"@, 7));
    reveal_strlit("PROOF_BY_CONTRADICTION");
    assert("PROOF_BY_CONTRADICTION"@.len() != "EQUIVALENCE_INTRO"@.len());
    assert(find_by_name(spec_all_rules(), "EQUIVALENCE_INTRO"@, 7) == find_by_name(spec_all_rules(), "EQUIVALENCE_INTRO"@, 8));
    reveal_strlit("DOUBLENEGATION");
    assert("DOUBLENEGATION"@.len() != "EQUIVALENCE_INTRO"@.len());
    assert(find_by_name(spec_all_rules(), "EQUIVALENCE_INTRO"@, 8) == find_by_name(spec_all_rules(), "EQUIVALENCE_INTRO"@, 9));
    reveal_strlit("CONTRADICTION");
    assert("CONTRADICTION"@.len() != "EQUIVALENCE_INTRO"@.len());
    assert(find_by_name(spec_all_rules(), "EQUIVALENCE_INTRO"@, 9) == find_by_name(spec_all_rules(), "EQUIVALENCE_INTRO"@, 10));
    reveal_strlit("PRINCIPLE_OF_EXPLOSION");
    assert("PRINCIPLE_OF_EXPLOSION"@.len() != "EQUIVALENCE_INTRO"@.len());
    assert(find_by_name(spec_all_rules(), "EQUIVALENCE_INTRO"@, 10) == find_by_name(spec_all_rules(), "EQUIVALENCE_INTRO"@, 11));
    reveal_strlit("BICONDITIONAL_INTRO");
    assert("BICONDITIONAL_INTRO"@.len() != "EQUIVALENCE_INTRO"@.len());
    assert(find_by_name(spec_all_rules(), "EQUIVALENCE_INTRO"@, 11) == find_by_name(spec_all_rules(), "EQUIVALENCE_INTRO"@, 12));
    reveal_strlit("BICONDITIONAL_ELIM");
    assert("BICONDITIONAL_ELIM"@.len() != "EQUIVALENCE_INTRO"@.len());
    assert(find_by_name(spec_all_rules(), "EQUIVALENCE_INTRO"@, 12) == find_by_name(spec_all_rules(), "EQUIVALENCE_INTRO"@, 13));
    assert(find_by_name(spec_all_rules(), "EQUIVALENCE_INTRO"@, 13) == Some(Rule::Prepositional(PrepositionalInference::EquivalenceIntro)));
}

proof fn lemma_finds_equivalence_elim()
    ensures
        find_by_name(spec_all_rules(), "EQUIVALENCE_ELIM"@, 0) == Some(Rule::Prepositional(PrepositionalInference::EquivalenceElim)),
{
    reveal_strlit("EQUIVALENCE_ELIM");
    reveal_strlit("REITERATION");
    assert("REITERATION"@.len() != "EQUIVALENCE_ELIM"@.len());
    assert(find_by_name(spec_all_rules(), "EQUIVALENCE_ELIM"@, 0) == find_by_name(spec_all_rules(), "EQUIVALENCE_ELIM"@, 1));
    reveal_strlit("CONJUNCTION");
    assert("CONJUNCTION"@.len() != "EQUIVALENCE_ELIM"@.len());
    assert(find_by_name(spec_all_rules(), "EQUIVALENCE_ELIM"@, 1) == find_by_name(spec_all_rules(), "EQUIVALENCE_ELIM"@, 2));
    reveal_strlit("SIMPLIFICATION");
    assert("SIMPLIFICATION"@.len() != "EQUIVALENCE_ELIM"@.len());
    assert(find_by_name(spec_all_rules(), "EQUIVALENCE_ELIM"@, 2) == find_by_name(spec_all_rules(), "EQUIVALENCE_ELIM"@, 3));
    reveal_strlit("ADDITION");
    assert("ADDITION"@.len() != "EQUIVALENCE_ELIM"@.len());
    assert(find_by_name(spec_all_rules(), "EQUIVALENCE_ELIM"@, 3) == find_by_name(spec_all_rules(), "EQUIVALENCE_ELIM"@, 4));
    reveal_strlit("DISJUNCTIVE_SYLLOGISM");
    assert("DISJUNCTIVE_SYLLOGISM"@.len() != "EQUIVALENCE_ELIM"@.len());
    assert(find_by_name(spec_all_rules(), "EQUIVALENCE_ELIM"@, 4) == find_by_name(spec_all_rules(), "EQUIVALENCE_ELIM"@, 5));
    reveal_strlit("CONDITIONAL_PROOF");
    assert("CONDITIONAL_PROOF"@.len() != "EQUIVALENCE_ELIM"@.len());
    assert(find_by_name(spec_all_rules(), "EQUIVALENCE_ELIM"@, 5) == find_by_name(spec_all_rules(), "EQUIVALENCE_ELIM"@, 6));
    reveal_strlit("MODUS_PONENS");
    assert("MODUS_PONENS"@.len() != "EQUIVALENCE_ELIM"@.len());
    assert(find_by_name(spec_all_rules(), "EQUIVALENCE_ELIM"@, 6) == find_by_name(spec_all_rules(), "EQUIVALENCE_ELIM"@, 7));
    reveal_strlit("PROOF_BY_CONTRADICTION");
    assert("PROOF_BY_CONTRADICTION"@.len() != "EQUIVALENCE_ELIM"@.len());
    assert(find_by_name(spec_all_rules(), "EQUIVALENCE_ELIM"@, 7) == find_by_name(spec_all_rules(), "EQUIVALENCE_ELIM"@, 8));
    reveal_strlit("DOUBLENEGATION");
    assert("DOUBLENEGATION"@.len() != "EQUIVALENCE_ELIM"@.len());
    assert(find_by_name(spec_all_rules(), "EQUIVALENCE_ELIM"@, 8) == find_by_name(spec_all_rules(), "EQUIVALENCE_ELIM"@, 9));
    reveal_strlit("CONTRADICTION");
    assert("CONTRADICTION"@.len() != "EQUIVALENCE_ELIM"@.len());
    assert(find_by_name(spec_all_rules(), "EQUIVALENCE_ELIM"@, 9) == find_by_name(spec_all_rules(), "EQUIVALENCE_ELIM"@, 10));
    reveal_strlit("PRINCIPLE_OF_EXPLOSION");
    assert("PRINCIPLE_OF_EXPLOSION"@.len() != "EQUIVALENCE_ELIM"@.len());
    assert(find_by_name(spec_all_rules(), "EQUIVALENCE_ELIM"@, 10) == find_by_name(spec_all_rules(), "EQUIVALENCE_ELIM"@, 11));
    reveal_strlit("BICONDITIONAL_INTRO");
    assert("BICONDITIONAL_INTRO"@.len() != "EQUIVALENCE_ELIM"@.len());
    assert(find_by_name(spec_all_rules(), "EQUIVALENCE_ELIM"@, 11) == find_by_name(spec_all_rules(), "EQUIVALENCE_ELIM"@, 12));
    reveal_strlit("BICONDITIONAL_ELIM");
    assert("BICONDITIONAL_ELIM"@.len() != "EQUIVALENCE_ELIM"@.len());
    assert(find_by_name(spec_all_rules(), "EQUIVALENCE_ELIM"@, 12) == find_by_name(spec_all_rules(), "EQUIVALENCE_ELIM"@, 13));
    reveal_strlit("EQUIVALENCE_INTRO");
    assert("EQUIVALENCE_INTRO"@.len() != "EQUIVALENCE_ELIM"@.len());
    assert(find_by_name(spec_all_rules(), "EQUIVALENCE_ELIM"@, 13) == find_by_name(spec_all_rules(), "EQUIVALENCE_ELIM"@, 14));
    assert(find_by_name(spec_all_rules(), "EQUIVALENCE_ELIM"@, 14) == Some(Rule::Prepositional(PrepositionalInference::EquivalenceElim)));
}

proof fn lemma_finds_universal_generalization()
    ensures
        find_by_name(spec_all_rules(), "UNIVERSAL_GENERALIZATION"@, 0) == Some(Rule::Predicate(PredicateInference::ForallIntro)),
{
    reveal_strlit("UNIVERSAL_GENERALIZATION");
    reveal_strlit("REITERATION");
    assert("REITERATION"@.len() != "UNIVERSAL_GENERALIZATION"@.len());
    assert(find_by_name(spec_all_rules(), "UNIVERSAL_GENERALIZATION"@, 0) == find_by_name(spec_all_rules(), "UNIVERSAL_GENERALIZATION"@, 1));
    reveal_strlit("CONJUNCTION");
    assert("CONJUNCTION"@.len() != "UNIVERSAL_GENERALIZATION"@.len());
    assert(find_by_name(spec_all_rules(), "UNIVERSAL_GENERALIZATION"@, 1) == find_by_name(spec_all_rules(), "UNIVERSAL_GENERALIZATION"@, 2));
    reveal_strlit("SIMPLIFICATION");
    assert("SIMPLIFICATION"@.len() != "UNIVERSAL_GENERALIZATION"@.len());
    assert(find_by_name(spec_all_rules(), "UNIVERSAL_GENERALIZATION"@, 2) == find_by_name(spec_all_rules(), "UNIVERSAL_GENERALIZATION"@, 3));
    reveal_strlit("ADDITION");
    assert("ADDITION"@.len() != "UNIVERSAL_GENERALIZATION"@.len());
    assert(find_by_name(spec_all_rules(), "UNIVERSAL_GENERALIZATION"@, 3) == find_by_name(spec_all_rules(), "UNIVERSAL_GENERALIZATION"@, 4));
    reveal_strlit("DISJUNCTIVE_SYLLOGISM");
    assert("DISJUNCTIVE_SYLLOGISM"@.len() != "UNIVERSAL_GENERALIZATION"@.len());
    assert(find_by_name(spec_all_rules(), "UNIVERSAL_GENERALIZATION"@, 4) == find_by_name(spec_all_rules(), "UNIVERSAL_GENERALIZATION"@, 5));
    reveal_strlit("CONDITIONAL_PROOF");
    assert("CONDITIONAL_PROOF"@.len() != "UNIVERSAL_GENERALIZATION"@.len());
    assert(find_by_name(spec_all_rules(), "UNIVERSAL_GENERALIZATION"@, 5) == find_by_name(spec_all_rules(), "UNIVERSAL_GENERALIZATION"@, 6));
    reveal_strlit("MODUS_PONENS");
    assert("MODUS_PONENS"@.len() != "UNIVERSAL_GENERALIZATION"@.len());
    assert(find_by_name(spec_all_rules(), "UNIVERSAL_GENERALIZATION"@, 6) == find_by_name(spec_all_rules(), "UNIVERSAL_GENERALIZATION"@, 7));
    reveal_strlit("PROOF_BY_CONTRADICTION");
    assert("PROOF_BY_CONTRADICTION"@.len() != "UNIVERSAL_GENERALIZATION"@.len());
    assert(find_by_name(spec_all_rules(), "UNIVERSAL_GENERALIZATION"@, 7) == find_by_name(spec_all_rules(), "UNIVERSAL_GENERALIZATION"@, 8));
    reveal_strlit("DOUBLENEGATION");
    assert("DOUBLENEGATION"@.len() != "UNIVERSAL_GENERALIZATION"@.len());
    assert(find_by_name(spec_all_rules(), "UNIVERSAL_GENERALIZATION"@, 8) == find_by_name(spec_all_rules(), "UNIVERSAL_GENERALIZATION"@, 9));
    reveal_strlit("CONTRADICTION");
    assert("CONTRADICTION"@.len() != "UNIVERSAL_GENERALIZATION"@.len());
    assert(find_by_name(spec_all_rules(), "UNIVERSAL_GENERALIZATION"@, 9) == find_by_name(spec_all_rules(), "UNIVERSAL_GENERALIZATION"@, 10));
    reveal_strlit("PRINCIPLE_OF_EXPLOSION");
    assert("PRINCIPLE_OF_EXPLOSION"@.len() != "UNIVERSAL_GENERALIZATION"@.len());
    assert(find_by_name(spec_all_rules(), "UNIVERSAL_GENERALIZATION"@, 10) == find_by_name(spec_all_rules(), "UNIVERSAL_GENERALIZATION"@, 11));
    reveal_strlit("BICONDITIONAL_INTRO");
    assert("BICONDITIONAL_INTRO"@.len() != "UNIVERSAL_GENERALIZATION"@.len());
    assert(find_by_name(spec_all_rules(), "UNIVERSAL_GENERALIZATION"@, 11) == find_by_name(spec_all_rules(), "UNIVERSAL_GENERALIZATION"@, 12));
    reveal_strlit("BICONDITIONAL_ELIM");
    assert("BICONDITIONAL_ELIM"@.len() != "UNIVERSAL_GENERALIZATION"@.len());
    assert(find_by_name(spec_all_rules(), "UNIVERSAL_GENERALIZATION"@, 12) == find_by_name(spec_all_rules(), "UNIVERSAL_GENERALIZATION"@, 13));
    reveal_strlit("EQUIVALENCE_INTRO");
    assert("EQUIVALENCE_INTRO"@.len() != "UNIVERSAL_GENERALIZATION"@.len());
    assert(find_by_name(spec_all_rules(), "UNIVERSAL_GENERALIZATION"@, 13) == find_by_name(spec_all_rules(), "UNIVERSAL_GENERALIZATION"@, 14));
    reveal_strlit("EQUIVALENCE_ELIM");
    assert("EQUIVALENCE_ELIM"@.len() != "UNIVERSAL_GENERALIZATION"@.len());
    assert(find_by_name(spec_all_rules(), "UNIVERSAL_GENERALIZATION"@, 14) == find_by_name(spec_all_rules(), "UNIVERSAL_GENERALIZATION"@, 15));
    assert(find_by_name(spec_all_rules(), "UNIVERSAL_GENERALIZATION"@, 15) == Some(Rule::Predicate(PredicateInference::ForallIntro)));
}

proof fn lemma_finds_universal_instantiation()
    ensures
        find_by_name(spec_all_rules(), "UNIVERSAL_INSTANTIATION"@, 0) == Some(Rule::Predicate(PredicateInference::ForallElim)),
{
    reveal_strlit("UNIVERSAL_INSTANTIATION");
    reveal_strlit("REITERATION");
    assert("REITERATION"@.len() != "UNIVERSAL_INSTANTIATION"@.len());
    assert(find_by_name(spec_all_rules(), "UNIVERSAL_INSTANTIATION"@, 0) == find_by_name(spec_all_rules(), "UNIVERSAL_INSTANTIATION"@, 1));
    reveal_strlit("CONJUNCTION");
    assert("CONJUNCTION"@.len() != "UNIVERSAL_INSTANTIATION"@.len());
    assert(find_by_name(spec_all_rules(), "UNIVERSAL_INSTANTIATION"@, 1) == find_by_name(spec_all_rules(), "UNIVERSAL_INSTANTIATION"@, 2));
    reveal_strlit("SIMPLIFICATION");
    assert("SIMPLIFICATION"@.len() != "UNIVERSAL_INSTANTIATION"@.len());
    assert(find_by_name(spec_all_rules(), "UNIVERSAL_INSTANTIATION"@, 2) == find_by_name(spec_all_rules(), "UNIVERSAL_INSTANTIATION"@, 3));
    reveal_strlit("ADDITION");
    assert("ADDITION"@.len() != "UNIVERSAL_INSTANTIATION"@.len());
    assert(find_by_name(spec_all_rules(), "UNIVERSAL_INSTANTIATION"@, 3) == find_by_name(spec_all_rules(), "UNIVERSAL_INSTANTIATION"@, 4));
    reveal_strlit("DISJUNCTIVE_SYLLOGISM");
    assert("DISJUNCTIVE_SYLLOGISM"@.len() != "UNIVERSAL_INSTANTIATION"@.len());
    assert(find_by_name(spec_all_rules(), "UNIVERSAL_INSTANTIATION"@, 4) == find_by_name(spec_all_rules(), "UNIVERSAL_INSTANTIATION"@, 5));
    reveal_strlit("CONDITIONAL_PROOF");
    assert("CONDITIONAL_PROOF"@.len() != "UNIVERSAL_INSTANTIATION"@.len());
    assert(find_by_name(spec_all_rules(), "UNIVERSAL_INSTANTIATION"@, 5) == find_by_name(spec_all_rules(), "UNIVERSAL_INSTANTIATION"@, 6));
    reveal_strlit("MODUS_PONENS");
    assert("MODUS_PONENS"@.len() != "UNIVERSAL_INSTANTIATION"@.len());
    assert(find_by_name(spec_all_rules(), "UNIVERSAL_INSTANTIATION"@, 6) == find_by_name(spec_all_rules(), "UNIVERSAL_INSTANTIATION"@, 7));
    reveal_strlit("PROOF_BY_CONTRADICTION");
    assert("PROOF_BY_CONTRADICTION"@.len() != "UNIVERSAL_INSTANTIATION"@.len());
    assert(find_by_name(spec_all_rules(), "UNIVERSAL_INSTANTIATION"@, 7) == find_by_name(spec_all_rules(), "UNIVERSAL_INSTANTIATION"@, 8));
    reveal_strlit("DOUBLENEGATION");
    assert("DOUBLENEGATION"@.len() != "UNIVERSAL_INSTANTIATION"@.len());
    assert(find_by_name(spec_all_rules(), "UNIVERSAL_INSTANTIATION"@, 8) == find_by_name(spec_all_rules(), "UNIVERSAL_INSTANTIATION"@, 9));
    reveal_strlit("CONTRADICTION");
    assert("CONTRADICTION"@.len() != "UNIVERSAL_INSTANTIATION"@.len());
    assert(find_by_name(spec_all_rules(), "UNIVERSAL_INSTANTIATION"@, 9) == find_by_name(spec_all_rules(), "UNIVERSAL_INSTANTIATION"@, 10));
    reveal_strlit("PRINCIPLE_OF_EXPLOSION");
    assert("PRINCIPLE_OF_EXPLOSION"@.len() != "UNIVERSAL_INSTANTIATION"@.len());
    assert(find_by_name(spec_all_rules(), "UNIVERSAL_INSTANTIATION"@, 10) == find_by_name(spec_all_rules(), "UNIVERSAL_INSTANTIATION"@, 11));
    reveal_strlit("BICONDITIONAL_INTRO");
    assert("BICONDITIONAL_INTRO"@.len() != "UNIVERSAL_INSTANTIATION"@.len());
    assert(find_by_name(spec_all_rules(), "UNIVERSAL_INSTANTIATION"@, 11) == find_by_name(spec_all_rules(), "UNIVERSAL_INSTANTIATION"@, 12));
    reveal_strlit("BICONDITIONAL_ELIM");
    assert("BICONDITIONAL_ELIM"@.len() != "UNIVERSAL_INSTANTIATION"@.len());
    assert(find_by_name(spec_all_rules(), "UNIVERSAL_INSTANTIATION"@, 12) == find_by_name(spec_all_rules(), "UNIVERSAL_INSTANTIATION"@, 13));
    reveal_strlit("EQUIVALENCE_INTRO");
    assert("EQUIVALENCE_INTRO"@.len() != "UNIVERSAL_INSTANTIATION"@.len());
    assert(find_by_name(spec_all_rules(), "UNIVERSAL_INSTANTIATION"@, 13) == find_by_name(spec_all_rules(), "UNIVERSAL_INSTANTIATION"@, 14));
    reveal_strlit("EQUIVALENCE_ELIM");
    assert("EQUIVALENCE_ELIM"@.len() != "UNIVERSAL_INSTANTIATION"@.len());
    assert(find_by_name(spec_all_rules(), "UNIVERSAL_INSTANTIATION"@, 14) == find_by_name(spec_all_rules(), "UNIVERSAL_INSTANTIATION"@, 15));
    reveal_strlit("UNIVERSAL_GENERALIZATION");
    assert("UNIVERSAL_GENERALIZATION"@.len() != "UNIVERSAL_INSTANTIATION"@.len());
    assert(find_by_name(spec_all_rules(), "UNIVERSAL_INSTANTIATION"@, 15) == find_by_name(spec_all_rules(), "UNIVERSAL_INSTANTIATION"@, 16));
    assert(find_by_name(spec_all_rules(), "UNIVERSAL_INSTANTIATION"@, 16) == Some(Rule::Predicate(PredicateInference::ForallElim)));
}

proof fn lemma_finds_existential_generalization()
    ensures
        find_by_name(spec_all_rules(), "EXISTENTIAL_GENERALIZATION"@, 0) == Some(Rule::Predicate(PredicateInference::ExistsIntro)),
{
    reveal_strlit("EXISTENTIAL_GENERALIZATION");
    reveal_strlit("REITERATION");
    assert("REITERATION"@.len() != "EXISTENTIAL_GENERALIZATION"@.len());
    assert(find_by_name(spec_all_rules(), "EXISTENTIAL_GENERALIZATION"@, 0) == find_by_name(spec_all_rules(), "EXISTENTIAL_GENERALIZATION"@, 1));
    reveal_strlit("CONJUNCTION");
    assert("CONJUNCTION"@.len() != "EXISTENTIAL_GENERALIZATION"@.len());
    assert(find_by_name(spec_all_rules(), "EXISTENTIAL_GENERALIZATION"@, 1) == find_by_name(spec_all_rules(), "EXISTENTIAL_GENERALIZATION"@, 2));
    reveal_strlit("SIMPLIFICATION");
    assert("SIMPLIFICATION"@.len() != "EXISTENTIAL_GENERALIZATION"@.len());
    assert(find_by_name(spec_all_rules(), "EXISTENTIAL_GENERALIZATION"@, 2) == find_by_name(spec_all_rules(), "EXISTENTIAL_GENERALIZATION"@, 3));
    reveal_strlit("ADDITION");
    assert("ADDITION"@.len() != "EXISTENTIAL_GENERALIZATION"@.len());
    assert(find_by_name(spec_all_rules(), "EXISTENTIAL_GENERALIZATION"@, 3) == find_by_name(spec_all_rules(), "EXISTENTIAL_GENERALIZATION"@, 4));
    reveal_strlit("DISJUNCTIVE_SYLLOGISM");
    assert("DISJUNCTIVE_SYLLOGISM"@.len() != "EXISTENTIAL_GENERALIZATION"@.len());
    assert(find_by_name(spec_all_rules(), "EXISTENTIAL_GENERALIZATION"@, 4) == find_by_name(spec_all_rules(), "EXISTENTIAL_GENERALIZATION"@, 5));
    reveal_strlit("CONDITIONAL_PROOF");
    assert("CONDITIONAL_PROOF"@.len() != "EXISTENTIAL_GENERALIZATION"@.len());
    assert(find_by_name(spec_all_rules(), "EXISTENTIAL_GENERALIZATION"@, 5) == find_by_name(spec_all_rules(), "EXISTENTIAL_GENERALIZATION"@, 6));
    reveal_strlit("MODUS_PONENS");
    assert("MODUS_PONENS"@.len() != "EXISTENTIAL_GENERALIZATION"@.len());
    assert(find_by_name(spec_all_rules(), "EXISTENTIAL_GENERALIZATION"@, 6) == find_by_name(spec_all_rules(), "EXISTENTIAL_GENERALIZATION"@, 7));
    reveal_strlit("PROOF_BY_CONTRADICTION");
    assert("PROOF_BY_CONTRADICTION"@.len() != "EXISTENTIAL_GENERALIZATION"@.len());
    assert(find_by_name(spec_all_rules(), "EXISTENTIAL_GENERALIZATION"@, 7) == find_by_name(spec_all_rules(), "EXISTENTIAL_GENERALIZATION"@, 8));
    reveal_strlit("DOUBLENEGATION");
    assert("DOUBLENEGATION"@.len() != "EXISTENTIAL_GENERALIZATION"@.len());
    assert(find_by_name(spec_all_rules(), "EXISTENTIAL_GENERALIZATION"@, 8) == find_by_name(spec_all_rules(), "EXISTENTIAL_GENERALIZATION"@, 9));
    reveal_strlit("CONTRADICTION");
    assert("CONTRADICTION"@.len() != "EXISTENTIAL_GENERALIZATION"@.len());
    assert(find_by_name(spec_all_rules(), "EXISTENTIAL_GENERALIZATION"@, 9) == find_by_name(spec_all_rules(), "EXISTENTIAL_GENERALIZATION"@, 10));
    reveal_strlit("PRINCIPLE_OF_EXPLOSION");
    assert("PRINCIPLE_OF_EXPLOSION"@.len() != "EXISTENTIAL_GENERALIZATION"@.len());
    assert(find_by_name(spec_all_rules(), "EXISTENTIAL_GENERALIZATION"@, 10) == find_by_name(spec_all_rules(), "EXISTENTIAL_GENERALIZATION"@, 11));
    reveal_strlit("BICONDITIONAL_INTRO");
    assert("BICONDITIONAL_INTRO"@.len() != "EXISTENTIAL_GENERALIZATION"@.len());
    assert(find_by_name(spec_all_rules(), "EXISTENTIAL_GENERALIZATION"@, 11) == find_by_name(spec_all_rules(), "EXISTENTIAL_GENERALIZATION"@, 12));
    reveal_strlit("BICONDITIONAL_ELIM");
    assert("BICONDITIONAL_ELIM"@.len() != "EXISTENTIAL_GENERALIZATION"@.len());
    assert(find_by_name(spec_all_rules(), "EXISTENTIAL_GENERALIZATION"@, 12) == find_by_name(spec_all_rules(), "EXISTENTIAL_GENERALIZATION"@, 13));
    reveal_strlit("EQUIVALENCE_INTRO");
    assert("EQUIVALENCE_INTRO"@.len() != "EXISTENTIAL_GENERALIZATION"@.len());
    assert(find_by_name(spec_all_rules(), "EXISTENTIAL_GENERALIZATION"@, 13) == find_by_name(spec_all_rules(), "EXISTENTIAL_GENERALIZATION"@, 14));
    reveal_strlit("EQUIVALENCE_ELIM");
    assert("EQUIVALENCE_ELIM"@.len() != "EXISTENTIAL_GENERALIZATION"@.len());
    assert(find_by_name(spec_all_rules(), "EXISTENTIAL_GENERALIZATION"@, 14) == find_by_name(spec_all_rules(), "EXISTENTIAL_GENERALIZATION"@, 15));
    reveal_strlit("UNIVERSAL_GENERALIZATION");
    assert("UNIVERSAL_GENERALIZATION"@.len() != "EXISTENTIAL_GENERALIZATION"@.len());
    assert(find_by_name(spec_all_rules(), "EXISTENTIAL_GENERALIZATION"@, 15) == find_by_name(spec_all_rules(), "EXISTENTIAL_GENERALIZATION"@, 16));
    reveal_strlit("UNIVERSAL_INSTANTIATION");
    assert("UNIVERSAL_INSTANTIATION"@.len() != "EXISTENTIAL_GENERALIZATION"@.len());
    assert(find_by_name(spec_all_rules(), "EXISTENTIAL_GENERALIZATION"@, 16) == find_by_name(spec_all_rules(), "EXISTENTIAL_GENERALIZATION"@, 17));
    assert(find_by_name(spec_all_rules(), "EXISTENTIAL_GENERALIZATION"@, 17) == Some(Rule::Predicate(PredicateInference::ExistsIntro)));
}

proof fn lemma_finds_existential_instantiation()
    ensures
        find_by_name(spec_all_rules(), "EXISTENTIAL_INSTANTIATION"@, 0) == Some(Rule::Predicate(PredicateInference::ExistsElim)),
{
    reveal_strlit("EXISTENTIAL_INSTANTIATION");
    reveal_strlit("REITERATION");
    assert("REITERATION"@.len() != "EXISTENTIAL_INSTANTIATION"@.len());
    assert(find_by_name(spec_all_rules(), "EXISTENTIAL_INSTANTIATION"@, 0) == find_by_name(spec_all_rules(), "EXISTENTIAL_INSTANTIATION"@, 1));
    reveal_strlit("CONJUNCTION");
    assert("CONJUNCTION"@.len() != "EXISTENTIAL_INSTANTIATION"@.len());
    assert(find_by_name(spec_all_rules(), "EXISTENTIAL_INSTANTIATION"@, 1) == find_by_name(spec_all_rules(), "EXISTENTIAL_INSTANTIATION"@, 2));
    reveal_strlit("SIMPLIFICATION");
    assert("SIMPLIFICATION"@.len() != "EXISTENTIAL_INSTANTIATION"@.len());
    assert(find_by_name(spec_all_rules(), "EXISTENTIAL_INSTANTIATION"@, 2) == find_by_name(spec_all_rules(), "EXISTENTIAL_INSTANTIATION"@, 3));
    reveal_strlit("ADDITION");
    assert("ADDITION"@.len() != "EXISTENTIAL_INSTANTIATION"@.len());
    assert(find_by_name(spec_all_rules(), "EXISTENTIAL_INSTANTIATION"@, 3) == find_by_name(spec_all_rules(), "EXISTENTIAL_INSTANTIATION"@, 4));
    reveal_strlit("DISJUNCTIVE_SYLLOGISM");
    assert("DISJUNCTIVE_SYLLOGISM"@.len() != "EXISTENTIAL_INSTANTIATION"@.len());
    assert(find_by_name(spec_all_rules(), "EXISTENTIAL_INSTANTIATION"@, 4) == find_by_name(spec_all_rules(), "EXISTENTIAL_INSTANTIATION"@, 5));
    reveal_strlit("CONDITIONAL_PROOF");
    assert("CONDITIONAL_PROOF"@.len() != "EXISTENTIAL_INSTANTIATION"@.len());
    assert(find_by_name(spec_all_rules(), "EXISTENTIAL_INSTANTIATION"@, 5) == find_by_name(spec_all_rules(), "EXISTENTIAL_INSTANTIATION"@, 6));
    reveal_strlit("MODUS_PONENS");
    assert("MODUS_PONENS"@.len() != "EXISTENTIAL_INSTANTIATION"@.len());
    assert(find_by_name(spec_all_rules(), "EXISTENTIAL_INSTANTIATION"@, 6) == find_by_name(spec_all_rules(), "EXISTENTIAL_INSTANTIATION"@, 7));
    reveal_strlit("PROOF_BY_CONTRADICTION");
    assert("PROOF_BY_CONTRADICTION"@.len() != "EXISTENTIAL_INSTANTIATION"@.len());
    assert(find_by_name(spec_all_rules(), "EXISTENTIAL_INSTANTIATION"@, 7) == find_by_name(spec_all_rules(), "EXISTENTIAL_INSTANTIATION"@, 8));
    reveal_strlit("DOUBLENEGATION");
    assert("DOUBLENEGATION"@.len() != "EXISTENTIAL_INSTANTIATION"@.len());
    assert(find_by_name(spec_all_rules(), "EXISTENTIAL_INSTANTIATION"@, 8) == find_by_name(spec_all_rules(), "EXISTENTIAL_INSTANTIATION"@, 9));
    reveal_strlit("CONTRADICTION");
    assert("CONTRADICTION"@.len() != "EXISTENTIAL_INSTANTIATION"@.len());
    assert(find_by_name(spec_all_rules(), "EXISTENTIAL_INSTANTIATION"@, 9) == find_by_name(spec_all_rules(), "EXISTENTIAL_INSTANTIATION"@, 10));
    reveal_strlit("PRINCIPLE_OF_EXPLOSION");
    assert("PRINCIPLE_OF_EXPLOSION"@.len() != "EXISTENTIAL_INSTANTIATION"@.len());
    assert(find_by_name(spec_all_rules(), "EXISTENTIAL_INSTANTIATION"@, 10) == find_by_name(spec_all_rules(), "EXISTENTIAL_INSTANTIATION"@, 11));
    reveal_strlit("BICONDITIONAL_INTRO");
    assert("BICONDITIONAL_INTRO"@.len() != "EXISTENTIAL_INSTANTIATION"@.len());
    assert(find_by_name(spec_all_rules(), "EXISTENTIAL_INSTANTIATION"@, 11) == find_by_name(spec_all_rules(), "EXISTENTIAL_INSTANTIATION"@, 12));
    reveal_strlit("BICONDITIONAL_ELIM");
    assert("BICONDITIONAL_ELIM"@.len() != "EXISTENTIAL_INSTANTIATION"@.len());
    assert(find_by_name(spec_all_rules(), "EXISTENTIAL_INSTANTIATION"@, 12) == find_by_name(spec_all_rules(), "EXISTENTIAL_INSTANTIATION"@, 13));
    reveal_strlit("EQUIVALENCE_INTRO");
    assert("EQUIVALENCE_INTRO"@.len() != "EXISTENTIAL_INSTANTIATION"@.len());
    assert(find_by_name(spec_all_rules(), "EXISTENTIAL_INSTANTIATION"@, 13) == find_by_name(spec_all_rules(), "EXISTENTIAL_INSTANTIATION"@, 14));
    reveal_strlit("EQUIVALENCE_ELIM");
    assert("EQUIVALENCE_ELIM"@.len() != "EXISTENTIAL_INSTANTIATION"@.len());
    assert(find_by_name(spec_all_rules(), "EXISTENTIAL_INSTANTIATION"@, 14) == find_by_name(spec_all_rules(), "EXISTENTIAL_INSTANTIATION"@, 15));
    reveal_strlit("UNIVERSAL_GENERALIZATION");
    assert("UNIVERSAL_GENERALIZATION"@.len() != "EXISTENTIAL_INSTANTIATION"@.len());
    assert(find_by_name(spec_all_rules(), "EXISTENTIAL_INSTANTIATION"@, 15) == find_by_name(spec_all_rules(), "EXISTENTIAL_INSTANTIATION"@, 16));
    reveal_strlit("UNIVERSAL_INSTANTIATION");
    assert("UNIVERSAL_INSTANTIATION"@.len() != "EXISTENTIAL_INSTANTIATION"@.len());
    assert(find_by_name(spec_all_rules(), "EXISTENTIAL_INSTANTIATION"@, 16) == find_by_name(spec_all_rules(), "EXISTENTIAL_INSTANTIATION"@, 17));
    reveal_strlit("EXISTENTIAL_GENERALIZATION");
    assert("EXISTENTIAL_GENERALIZATION"@.len() != "EXISTENTIAL_INSTANTIATION"@.len());
    assert(find_by_name(spec_all_rules(), "EXISTENTIAL_INSTANTIATION"@, 17) == find_by_name(spec_all_rules(), "EXISTENTIAL_INSTANTIATION"@, 18));
    assert(find_by_name(spec_all_rules(), "EXISTENTIAL_INSTANTIATION"@, 18) == Some(Rule::Predicate(PredicateInference::ExistsElim)));
}

proof fn lemma_finds_modus_tollens()
    ensures
        find_by_name(spec_all_rules(), "MODUS_TOLLENS"@, 0) == Some(Rule::Redundant(RedundantPrepositionalInference::ModusTollens)),
{
    reveal_strlit("MODUS_TOLLENS");
    reveal_strlit("REITERATION");
    assert("REITERATION"@.len() != "MODUS_TOLLENS"@.len());
    assert(find_by_name(spec_all_rules(), "MODUS_TOLLENS"@, 0) == find_by_name(spec_all_rules(), "MODUS_TOLLENS"@, 1));
    reveal_strlit("CONJUNCTION");
    assert("CONJUNCTION"@.len() != "MODUS_TOLLENS"@.len());
    assert(find_by_name(spec_all_rules(), "MODUS_TOLLENS"@, 1) == find_by_name(spec_all_rules(), "MODUS_TOLLENS"@, 2));
    reveal_strlit("SIMPLIFICATION");
    assert("SIMPLIFICATION"@.len() != "MODUS_TOLLENS"@.len());
    assert(find_by_name(spec_all_rules(), "MODUS_TOLLENS"@, 2) == find_by_name(spec_all_rules(), "MODUS_TOLLENS"@, 3));
    reveal_strlit("ADDITION");
    assert("ADDITION"@.len() != "MODUS_TOLLENS"@.len());
    assert(find_by_name(spec_all_rules(), "MODUS_TOLLENS"@, 3) == find_by_name(spec_all_rules(), "MODUS_TOLLENS"@, 4));
    reveal_strlit("DISJUNCTIVE_SYLLOGISM");
    assert("DISJUNCTIVE_SYLLOGISM"@.len() != "MODUS_TOLLENS"@.len());
    assert(find_by_name(spec_all_rules(), "MODUS_TOLLENS"@, 4) == find_by_name(spec_all_rules(), "MODUS_TOLLENS"@, 5));
    reveal_strlit("CONDITIONAL_PROOF");
    assert("CONDITIONAL_PROOF"@.len() != "MODUS_TOLLENS"@.len());
    assert(find_by_name(spec_all_rules(), "MODUS_TOLLENS"@, 5) == find_by_name(spec_all_rules(), "MODUS_TOLLENS"@, 6));
    reveal_strlit("MODUS_PONENS");
    assert("MODUS_PONENS"@.len() != "MODUS_TOLLENS"@.len());
    assert(find_by_name(spec_all_rules(), "MODUS_TOLLENS"@, 6) == find_by_name(spec_all_rules(), "MODUS_TOLLENS"@, 7));
    reveal_strlit("PROOF_BY_CONTRADICTION");
    assert("PROOF_BY_CONTRADICTION"@.len() != "MODUS_TOLLENS"@.len());
    assert(find_by_name(spec_all_rules(), "MODUS_TOLLENS"@, 7) == find_by_name(spec_all_rules(), "MODUS_TOLLENS"@, 8));
    reveal_strlit("DOUBLENEGATION");
    assert("DOUBLENEGATION"@.len() != "MODUS_TOLLENS"@.len());
    assert(find_by_name(spec_all_rules(), "MODUS_TOLLENS"@, 8) == find_by_name(spec_all_rules(), "MODUS_TOLLENS"@, 9));
    reveal_strlit("CONTRADICTION");
    assert("CONTRADICTION"@[0] != "MODUS_TOLLENS"@[0]);
    assert(find_by_name(spec_all_rules(), "MODUS_TOLLENS"@, 9) == find_by_name(spec_all_rules(), "MODUS_TOLLENS"@, 10));
    reveal_strlit("PRINCIPLE_OF_EXPLOSION");
    assert("PRINCIPLE_OF_EXPLOSION"@.len() != "MODUS_TOLLENS"@.len());
    assert(find_by_name(spec_all_rules(), "MODUS_TOLLENS"@, 10) == find_by_name(spec_all_rules(), "MODUS_TOLLENS"@, 11));
    reveal_strlit("BICONDITIONAL_INTRO");
    assert("BICONDITIONAL_INTRO"@.len() != "MODUS_TOLLENS"@.len());
    assert(find_by_name(spec_all_rules(), "MODUS_TOLLENS"@, 11) == find_by_name(spec_all_rules(), "MODUS_TOLLENS"@, 12));
    reveal_strlit("BICONDITIONAL_ELIM");
    assert("BICONDITIONAL_ELIM"@.len() != "MODUS_TOLLENS"@.len());
    assert(find_by_name(spec_all_rules(), "MODUS_TOLLENS"@, 12) == find_by_name(spec_all_rules(), "MODUS_TOLLENS"@, 13));
    reveal_strlit("EQUIVALENCE_INTRO");
    assert("EQUIVALENCE_INTRO"@.len() != "MODUS_TOLLENS"@.len());
    assert(find_by_name(spec_all_rules(), "MODUS_TOLLENS"@, 13) == find_by_name(spec_all_rules(), "MODUS_TOLLENS"@, 14));
    reveal_strlit("EQUIVALENCE_ELIM");
    assert("EQUIVALENCE_ELIM"@.len() != "MODUS_TOLLENS"@.len());
    assert(find_by_name(spec_all_rules(), "MODUS_TOLLENS"@, 14) == find_by_name(spec_all_rules(), "MODUS_TOLLENS"@, 15));
    reveal_strlit("UNIVERSAL_GENERALIZATION");
    assert("UNIVERSAL_GENERALIZATION"@.len() != "MODUS_TOLLENS"@.len());
    assert(find_by_name(spec_all_rules(), "MODUS_TOLLENS"@, 15) == find_by_name(spec_all_rules(), "MODUS_TOLLENS"@, 16));
    reveal_strlit("UNIVERSAL_INSTANTIATION");
    assert("UNIVERSAL_INSTANTIATION"@.len() != "MODUS_TOLLENS"@.len());
    assert(find_by_name(spec_all_rules(), "MODUS_TOLLENS"@, 16) == find_by_name(spec_all_rules(), "MODUS_TOLLENS"@, 17));
    reveal_strlit("EXISTENTIAL_GENERALIZATION");
    assert("EXISTENTIAL_GENERALIZATION"@.len() != "MODUS_TOLLENS"@.len());
    assert(find_by_name(spec_all_rules(), "MODUS_TOLLENS"@, 17) == find_by_name(spec_all_rules(), "MODUS_TOLLENS"@, 18));
    reveal_strlit("EXISTENTIAL_INSTANTIATION");
    assert("EXISTENTIAL_INSTANTIATION"@.len() != "MODUS_TOLLENS"@.len());
    assert(find_by_name(spec_all_rules(), "MODUS_TOLLENS"@, 18) == find_by_name(spec_all_rules(), "MODUS_TOLLENS"@, 19));
    assert(find_by_name(spec_all_rules(), "MODUS_TOLLENS"@, 19) == Some(Rule::Redundant(RedundantPrepositionalInference::ModusTollens)));
}

proof fn lemma_finds_hypothetical_syllogism()
    ensures
        find_by_name(spec_all_rules(), "HYPOTHETICAL_SYLLOGISM"@, 0) == Some(Rule::Redundant(RedundantPrepositionalInference::HypotheticalSyllogism)),
{
    reveal_strlit("HYPOTHETICAL_SYLLOGISM");
    reveal_strlit("REITERATION");
    assert("REITERATION"@.len() != "HYPOTHETICAL_SYLLOGISM"@.len());
    assert(find_by_name(spec_all_rules(), "HYPOTHETICAL_SYLLOGISM"@, 0) == find_by_name(spec_all_rules(), "HYPOTHETICAL_SYLLOGISM"@, 1));
    reveal_strlit("CONJUNCTION");
    assert("CONJUNCTION"@.len() != "HYPOTHETICAL_SYLLOGISM"@.len());
    assert(find_by_name(spec_all_rules(), "HYPOTHETICAL_SYLLOGISM"@, 1) == find_by_name(spec_all_rules(), "HYPOTHETICAL_SYLLOGISM"@, 2));
    reveal_strlit("SIMPLIFICATION");
    assert("SIMPLIFICATION"@.len() != "HYPOTHETICAL_SYLLOGISM"@.len());
    assert(find_by_name(spec_all_rules(), "HYPOTHETICAL_SYLLOGISM"@, 2) == find_by_name(spec_all_rules(), "HYPOTHETICAL_SYLLOGISM"@, 3));
    reveal_strlit("ADDITION");
    assert("ADDITION"@.len() != "HYPOTHETICAL_SYLLOGISM"@.len());
    assert(find_by_name(spec_all_rules(), "HYPOTHETICAL_SYLLOGISM"@, 3) == find_by_name(spec_all_rules(), "HYPOTHETICAL_SYLLOGISM"@, 4));
    reveal_strlit("DISJUNCTIVE_SYLLOGISM");
    assert("DISJUNCTIVE_SYLLOGISM"@.len() != "HYPOTHETICAL_SYLLOGISM"@.len());
    assert(find_by_name(spec_all_rules(), "HYPOTHETICAL_SYLLOGISM"@, 4) == find_by_name(spec_all_rules(), "HYPOTHETICAL_SYLLOGISM"@, 5));
    reveal_strlit("CONDITIONAL_PROOF");
    assert("CONDITIONAL_PROOF"@.len() != "HYPOTHETICAL_SYLLOGISM"@.len());
    assert(find_by_name(spec_all_rules(), "HYPOTHETICAL_SYLLOGISM"@, 5) == find_by_name(spec_all_rules(), "HYPOTHETICAL_SYLLOGISM"@, 6));
    reveal_strlit("MODUS_PONENS");
    assert("MODUS_PONENS"@.len() != "HYPOTHETICAL_SYLLOGISM"@.len());
    assert(find_by_name(spec_all_rules(), "HYPOTHETICAL_SYLLOGISM"@, 6) == find_by_name(spec_all_rules(), "HYPOTHETICAL_SYLLOGISM"@, 7));
    reveal_strlit("PROOF_BY_CONTRADICTION");
    assert("PROOF_BY_CONTRADICTION"@[0] != "HYPOTHETICAL_SYLLOGISM"@[0]);
    assert(find_by_name(spec_all_rules(), "HYPOTHETICAL_SYLLOGISM"@, 7) == find_by_name(spec_all_rules(), "HYPOTHETICAL_SYLLOGISM"@, 8));
    reveal_strlit("DOUBLENEGATION");
    assert("DOUBLENEGATION"@.len() != "HYPOTHETICAL_SYLLOGISM"@.len());
    assert(find_by_name(spec_all_rules(), "HYPOTHETICAL_SYLLOGISM"@, 8) == find_by_name(spec_all_rules(), "HYPOTHETICAL_SYLLOGISM"@, 9));
    reveal_strlit("CONTRADICTION");
    assert("CONTRADICTION"@.len() != "HYPOTHETICAL_SYLLOGISM"@.len());
    assert(find_by_name(spec_all_rules(), "HYPOTHETICAL_SYLLOGISM"@, 9) == find_by_name(spec_all_rules(), "HYPOTHETICAL_SYLLOGISM"@, 10));
    reveal_strlit("PRINCIPLE_OF_EXPLOSION");
    assert("PRINCIPLE_OF_EXPLOSION"@[0] != "HYPOTHETICAL_SYLLOGISM"@[0]);
    assert(find_by_name(spec_all_rules(), "HYPOTHETICAL_SYLLOGISM"@, 10) == find_by_name(spec_all_rules(), "HYPOTHETICAL_SYLLOGISM"@, 11));
    reveal_strlit("BICONDITIONAL_INTRO");
    assert("BICONDITIONAL_INTRO"@.len() != "HYPOTHETICAL_SYLLOGISM"@.len());
    assert(find_by_name(spec_all_rules(), "HYPOTHETICAL_SYLLOGISM"@, 11) == find_by_name(spec_all_rules(), "HYPOTHETICAL_SYLLOGISM"@, 12));
    reveal_strlit("BICONDITIONAL_ELIM");
    assert("BICONDITIONAL_ELIM"@.len() != "HYPOTHETICAL_SYLLOGISM"@.len());
    assert(find_by_name(spec_all_rules(), "HYPOTHETICAL_SYLLOGISM"@, 12) == find_by_name(spec_all_rules(), "HYPOTHETICAL_SYLLOGISM"@, 13));
    reveal_strlit("EQUIVALENCE_INTRO");
    assert("EQUIVALENCE_INTRO"@.len() != "HYPOTHETICAL_SYLLOGISM"@.len());
    assert(find_by_name(spec_all_rules(), "HYPOTHETICAL_SYLLOGISM"@, 13) == find_by_name(spec_all_rules(), "HYPOTHETICAL_SYLLOGISM"@, 14));
    reveal_strlit("EQUIVALENCE_ELIM");
    assert("EQUIVALENCE_ELIM"@.len() != "HYPOTHETICAL_SYLLOGISM"@.len());
    assert(find_by_name(spec_all_rules(), "HYPOTHETICAL_SYLLOGISM"@, 14) == find_by_name(spec_all_rules(), "HYPOTHETICAL_SYLLOGISM"@, 15));
    reveal_strlit("UNIVERSAL_GENERALIZATION");
    assert("UNIVERSAL_GENERALIZATION"@.len() != "HYPOTHETICAL_SYLLOGISM"@.len());
    assert(find_by_name(spec_all_rules(), "HYPOTHETICAL_SYLLOGISM"@, 15) == find_by_name(spec_all_rules(), "HYPOTHETICAL_SYLLOGISM"@, 16));
    reveal_strlit("UNIVERSAL_INSTANTIATION");
    assert("UNIVERSAL_INSTANTIATION"@.len() != "HYPOTHETICAL_SYLLOGISM"@.len());
    assert(find_by_name(spec_all_rules(), "HYPOTHETICAL_SYLLOGISM"@, 16) == find_by_name(spec_all_rules(), "HYPOTHETICAL_SYLLOGISM"@, 17));
    reveal_strlit("EXISTENTIAL_GENERALIZATION");
    assert("EXISTENTIAL_GENERALIZATION"@.len() != "HYPOTHETICAL_SYLLOGISM"@.len());
    assert(find_by_name(spec_all_rules(), "HYPOTHETICAL_SYLLOGISM"@, 17) == find_by_name(spec_all_rules(), "HYPOTHETICAL_SYLLOGISM"@, 18));
    reveal_strlit("EXISTENTIAL_INSTANTIATION");
    assert("EXISTENTIAL_INSTANTIATION"@.len() != "HYPOTHETICAL_SYLLOGISM"@.len());
    assert(find_by_name(spec_all_rules(), "HYPOTHETICAL_SYLLOGISM"@, 18) == find_by_name(spec_all_rules(), "HYPOTHETICAL_SYLLOGISM"@, 19));
    reveal_strlit("MODUS_TOLLENS");
    assert("MODUS_TOLLENS"@.len() != "HYPOTHETICAL_SYLLOGISM"@.len());
    assert(find_by_name(spec_all_rules(), "HYPOTHETICAL_SYLLOGISM"@, 19) == find_by_name(spec_all_rules(), "HYPOTHETICAL_SYLLOGISM"@, 20));
    assert(find_by_name(spec_all_rules(), "HYPOTHETICAL_SYLLOGISM"@, 20) == Some(Rule::Redundant(RedundantPrepositionalInference::HypotheticalSyllogism)));
}

proof fn lemma_finds_excluded_middle()
    ensures
        find_by_name(spec_all_rules(), "EXCLUDED_MIDDLE"@, 0) == Some(Rule::Redundant(RedundantPrepositionalInference::ExcludedMiddle)),
{
    reveal_strlit("EXCLUDED_MIDDLE");
    reveal_strlit("REITERATION");
    assert("REITERATION"@.len() != "EXCLUDED_MIDDLE"@.len());
    assert(find_by_name(spec_all_rules(), "EXCLUDED_MIDDLE"@, 0) == find_by_name(spec_all_rules(), "EXCLUDED_MIDDLE"@, 1));
    reveal_strlit("CONJUNCTION");
    assert("CONJUNCTION"@.len() != "EXCLUDED_MIDDLE"@.len());
    assert(find_by_name(spec_all_rules(), "EXCLUDED_MIDDLE"@, 1) == find_by_name(spec_all_rules(), "EXCLUDED_MIDDLE"@, 2));
    reveal_strlit("SIMPLIFICATION");
    assert("SIMPLIFICATION"@.len() != "EXCLUDED_MIDDLE"@.len());
    assert(find_by_name(spec_all_rules(), "EXCLUDED_MIDDLE"@, 2) == find_by_name(spec_all_rules(), "EXCLUDED_MIDDLE"@, 3));
    reveal_strlit("ADDITION");
    assert("ADDITION"@.len() != "EXCLUDED_MIDDLE"@.len());
    assert(find_by_name(spec_all_rules(), "EXCLUDED_MIDDLE"@, 3) == find_by_name(spec_all_rules(), "EXCLUDED_MIDDLE"@, 4));
    reveal_strlit("DISJUNCTIVE_SYLLOGISM");
    assert("DISJUNCTIVE_SYLLOGISM"@.len() != "EXCLUDED_MIDDLE"@.len());
    assert(find_by_name(spec_all_rules(), "EXCLUDED_MIDDLE"@, 4) == find_by_name(spec_all_rules(), "EXCLUDED_MIDDLE"@, 5));
    reveal_strlit("CONDITIONAL_PROOF");
    assert("CONDITIONAL_PROOF"@.len() != "EXCLUDED_MIDDLE"@.len());
    assert(find_by_name(spec_all_rules(), "EXCLUDED_MIDDLE"@, 5) == find_by_name(spec_all_rules(), "EXCLUDED_MIDDLE"@, 6));
    reveal_strlit("MODUS_PONENS");
    assert("MODUS_PONENS"@.len() != "EXCLUDED_MIDDLE"@.len());
    assert(find_by_name(spec_all_rules(), "EXCLUDED_MIDDLE"@, 6) == find_by_name(spec_all_rules(), "EXCLUDED_MIDDLE"@, 7));
    reveal_strlit("PROOF_BY_CONTRADICTION");
    assert("PROOF_BY_CONTRADICTION"@.len() != "EXCLUDED_MIDDLE"@.len());
    assert(find_by_name(spec_all_rules(), "EXCLUDED_MIDDLE"@, 7) == find_by_name(spec_all_rules(), "EXCLUDED_MIDDLE"@, 8));
    reveal_strlit("DOUBLENEGATION");
    assert("DOUBLENEGATION"@.len() != "EXCLUDED_MIDDLE"@.len());
    assert(find_by_name(spec_all_rules(), "EXCLUDED_MIDDLE"@, 8) == find_by_name(spec_all_rules(), "EXCLUDED_MIDDLE"@, 9));
    reveal_strlit("CONTRADICTION");
    assert("CONTRADICTION"@.len() != "EXCLUDED_MIDDLE"@.len());
    assert(find_by_name(spec_all_rules(), "EXCLUDED_MIDDLE"@, 9) == find_by_name(spec_all_rules(), "EXCLUDED_MIDDLE"@, 10));
    reveal_strlit("PRINCIPLE_OF_EXPLOSION");
    assert("PRINCIPLE_OF_EXPLOSION"@.len() != "EXCLUDED_MIDDLE"@.len());
    assert(find_by_name(spec_all_rules(), "EXCLUDED_MIDDLE"@, 10) == find_by_name(spec_all_rules(), "EXCLUDED_MIDDLE"@, 11));
    reveal_strlit("BICONDITIONAL_INTRO");
    assert("BICONDITIONAL_INTRO"@.len() != "EXCLUDED_MIDDLE"@.len());
    assert(find_by_name(spec_all_rules(), "EXCLUDED_MIDDLE"@, 11) == find_by_name(spec_all_rules(), "EXCLUDED_MIDDLE"@, 12));
    reveal_strlit("BICONDITIONAL_ELIM");
    assert("BICONDITIONAL_ELIM"@.len() != "EXCLUDED_MIDDLE"@.len());
    assert(find_by_name(spec_all_rules(), "EXCLUDED_MIDDLE"@, 12) == find_by_name(spec_all_rules(), "EXCLUDED_MIDDLE"@, 13));
    reveal_strlit("EQUIVALENCE_INTRO");
    assert("EQUIVALENCE_INTRO"@.len() != "EXCLUDED_MIDDLE"@.len());
    assert(find_by_name(spec_all_rules(), "EXCLUDED_MIDDLE"@, 13) == find_by_name(spec_all_rules(), "EXCLUDED_MIDDLE"@, 14));
    reveal_strlit("EQUIVALENCE_ELIM");
    assert("EQUIVALENCE_ELIM"@.len() != "EXCLUDED_MIDDLE"@.len());
    assert(find_by_name(spec_all_rules(), "EXCLUDED_MIDDLE"@, 14) == find_by_name(spec_all_rules(), "EXCLUDED_MIDDLE"@, 15));
    reveal_strlit("UNIVERSAL_GENERALIZATION");
    assert("UNIVERSAL_GENERALIZATION"@.len() != "EXCLUDED_MIDDLE"@.len());
    assert(find_by_name(spec_all_rules(), "EXCLUDED_MIDDLE"@, 15) == find_by_name(spec_all_rules(), "EXCLUDED_MIDDLE"@, 16));
    reveal_strlit("UNIVERSAL_INSTANTIATION");
    assert("UNIVERSAL_INSTANTIATION"@.len() != "EXCLUDED_MIDDLE"@.len());
    assert(find_by_name(spec_all_rules(), "EXCLUDED_MIDDLE"@, 16) == find_by_name(spec_all_rules(), "EXCLUDED_MIDDLE"@, 17));
    reveal_strlit("EXISTENTIAL_GENERALIZATION");
    assert("EXISTENTIAL_GENERALIZATION"@.len() != "EXCLUDED_MIDDLE"@.len());
    assert(find_by_name(spec_all_rules(), "EXCLUDED_MIDDLE"@, 17) == find_by_name(spec_all_rules(), "EXCLUDED_MIDDLE"@, 18));
    reveal_strlit("EXISTENTIAL_INSTANTIATION");
    assert("EXISTENTIAL_INSTANTIATION"@.len() != "EXCLUDED_MIDDLE"@.len());
    assert(find_by_name(spec_all_rules(), "EXCLUDED_MIDDLE"@, 18) == find_by_name(spec_all_rules(), "EXCLUDED_MIDDLE"@, 19));
    reveal_strlit("MODUS_TOLLENS");
    assert("MODUS_TOLLENS"@.len() != "EXCLUDED_MIDDLE"@.len());
    assert(find_by_name(spec_all_rules(), "EXCLUDED_MIDDLE"@, 19) == find_by_name(spec_all_rules(), "EXCLUDED_MIDDLE"@, 20));
    reveal_strlit("HYPOTHETICAL_SYLLOGISM");
    assert("HYPOTHETICAL_SYLLOGISM"@.len() != "EXCLUDED_MIDDLE"@.len());
    assert(find_by_name(spec_all_rules(), "EXCLUDED_MIDDLE"@, 20) == find_by_name(spec_all_rules(), "EXCLUDED_MIDDLE"@, 21));
    assert(find_by_name(spec_all_rules(), "EXCLUDED_MIDDLE"@, 21) == Some(Rule::Redundant(RedundantPrepositionalInference::ExcludedMiddle)));
}

proof fn lemma_finds_constructive_dilemma()
    ensures
        find_by_name(spec_all_rules(), "CONSTRUCTIVE_DILEMMA"@, 0) == Some(Rule::Redundant(RedundantPrepositionalInference::ConstructiveDilemma)),
{
    reveal_strlit("CONSTRUCTIVE_DILEMMA");
    reveal_strlit("REITERATION");
    assert("REITERATION"@.len() != "CONSTRUCTIVE_DILEMMA"@.len());
    assert(find_by_name(spec_all_rules(), "CONSTRUCTIVE_DILEMMA"@, 0) == find_by_name(spec_all_rules(), "CONSTRUCTIVE_DILEMMA"@, 1));
    reveal_strlit("CONJUNCTION");
    assert("CONJUNCTION"@.len() != "CONSTRUCTIVE_DILEMMA"@.len());
    assert(find_by_name(spec_all_rules(), "CONSTRUCTIVE_DILEMMA"@, 1) == find_by_name(spec_all_rules(), "CONSTRUCTIVE_DILEMMA"@, 2));
    reveal_strlit("SIMPLIFICATION");
    assert("SIMPLIFICATION"@.len() != "CONSTRUCTIVE_DILEMMA"@.len());
    assert(find_by_name(spec_all_rules(), "CONSTRUCTIVE_DILEMMA"@, 2) == find_by_name(spec_all_rules(), "CONSTRUCTIVE_DILEMMA"@, 3));
    reveal_strlit("ADDITION");
    assert("ADDITION"@.len() != "CONSTRUCTIVE_DILEMMA"@.len());
    assert(find_by_name(spec_all_rules(), "CONSTRUCTIVE_DILEMMA"@, 3) == find_by_name(spec_all_rules(), "CONSTRUCTIVE_DILEMMA"@, 4));
    reveal_strlit("DISJUNCTIVE_SYLLOGISM");
    assert("DISJUNCTIVE_SYLLOGISM"@.len() != "CONSTRUCTIVE_DILEMMA"@.len());
    assert(find_by_name(spec_all_rules(), "CONSTRUCTIVE_DILEMMA"@, 4) == find_by_name(spec_all_rules(), "CONSTRUCTIVE_DILEMMA"@, 5));
    reveal_strlit("CONDITIONAL_PROOF");
    assert("CONDITIONAL_PROOF"@.len() != "CONSTRUCTIVE_DILEMMA"@.len());
    assert(find_by_name(spec_all_rules(), "CONSTRUCTIVE_DILEMMA"@, 5) == find_by_name(spec_all_rules(), "CONSTRUCTIVE_DILEMMA"@, 6));
    reveal_strlit("MODUS_PONENS");
    assert("MODUS_PONENS"@.len() != "CONSTRUCTIVE_DILEMMA"@.len());
    assert(find_by_name(spec_all_rules(), "CONSTRUCTIVE_DILEMMA"@, 6) == find_by_name(spec_all_rules(), "CONSTRUCTIVE_DILEMMA"@, 7));
    reveal_strlit("PROOF_BY_CONTRADICTION");
    assert("PROOF_BY_CONTRADICTION"@.len() != "CONSTRUCTIVE_DILEMMA"@.len());
    assert(find_by_name(spec_all_rules(), "CONSTRUCTIVE_DILEMMA"@, 7) == find_by_name(spec_all_rules(), "CONSTRUCTIVE_DILEMMA"@, 8));
    reveal_strlit("DOUBLENEGATION");
    assert("DOUBLENEGATION"@.len() != "CONSTRUCTIVE_DILEMMA"@.len());
    assert(find_by_name(spec_all_rules(), "CONSTRUCTIVE_DILEMMA"@, 8) == find_by_name(spec_all_rules(), "CONSTRUCTIVE_DILEMMA"@, 9));
    reveal_strlit("CONTRADICTION");
    assert("CONTRADICTION"@.len() != "CONSTRUCTIVE_DILEMMA"@.len());
    assert(find_by_name(spec_all_rules(), "CONSTRUCTIVE_DILEMMA"@, 9) == find_by_name(spec_all_rules(), "CONSTRUCTIVE_DILEMMA"@, 10));
    reveal_strlit("PRINCIPLE_OF_EXPLOSION");
    assert("PRINCIPLE_OF_EXPLOSION"@.len() != "CONSTRUCTIVE_DILEMMA"@.len());
    assert(find_by_name(spec_all_rules(), "CONSTRUCTIVE_DILEMMA"@, 10) == find_by_name(spec_all_rules(), "CONSTRUCTIVE_DILEMMA"@, 11));
    reveal_strlit("BICONDITIONAL_INTRO");
    assert("BICONDITIONAL_INTRO"@.len() != "CONSTRUCTIVE_DILEMMA"@.len());
    assert(find_by_name(spec_all_rules(), "CONSTRUCTIVE_DILEMMA"@, 11) == find_by_name(spec_all_rules(), "CONSTRUCTIVE_DILEMMA"@, 12));
    reveal_strlit("BICONDITIONAL_ELIM");
    assert("BICONDITIONAL_ELIM"@.len() != "CONSTRUCTIVE_DILEMMA"@.len());
    assert(find_by_name(spec_all_rules(), "CONSTRUCTIVE_DILEMMA"@, 12) == find_by_name(spec_all_rules(), "CONSTRUCTIVE_DILEMMA"@, 13));
    reveal_strlit("EQUIVALENCE_INTRO");
    assert("EQUIVALENCE_INTRO"@.len() != "CONSTRUCTIVE_DILEMMA"@.len());
    assert(find_by_name(spec_all_rules(), "CONSTRUCTIVE_DILEMMA"@, 13) == find_by_name(spec_all_rules(), "CONSTRUCTIVE_DILEMMA"@, 14));
    reveal_strlit("EQUIVALENCE_ELIM");
    assert("EQUIVALENCE_ELIM"@.len() != "CONSTRUCTIVE_DILEMMA"@.len());
    assert(find_by_name(spec_all_rules(), "CONSTRUCTIVE_DILEMMA"@, 14) == find_by_name(spec_all_rules(), "CONSTRUCTIVE_DILEMMA"@, 15));
    reveal_strlit("UNIVERSAL_GENERALIZATION");
    assert("UNIVERSAL_GENERALIZATION"@.len() != "CONSTRUCTIVE_DILEMMA"@.len());
    assert(find_by_name(spec_all_rules(), "CONSTRUCTIVE_DILEMMA"@, 15) == find_by_name(spec_all_rules(), "CONSTRUCTIVE_DILEMMA"@, 16));
    reveal_strlit("UNIVERSAL_INSTANTIATION");
    assert("UNIVERSAL_INSTANTIATION"@.len() != "CONSTRUCTIVE_DILEMMA"@.len());
    assert(find_by_name(spec_all_rules(), "CONSTRUCTIVE_DILEMMA"@, 16) == find_by_name(spec_all_rules(), "CONSTRUCTIVE_DILEMMA"@, 17));
    reveal_strlit("EXISTENTIAL_GENERALIZATION");
    assert("EXISTENTIAL_GENERALIZATION"@.len() != "CONSTRUCTIVE_DILEMMA"@.len());
    assert(find_by_name(spec_all_rules(), "CONSTRUCTIVE_DILEMMA"@, 17) == find_by_name(spec_all_rules(), "CONSTRUCTIVE_DILEMMA"@, 18));
    reveal_strlit("EXISTENTIAL_INSTANTIATION");
    assert("EXISTENTIAL_INSTANTIATION"@.len() != "CONSTRUCTIVE_DILEMMA"@.len());
    assert(find_by_name(spec_all_rules(), "CONSTRUCTIVE_DILEMMA"@, 18) == find_by_name(spec_all_rules(), "CONSTRUCTIVE_DILEMMA"@, 19));
    reveal_strlit("MODUS_TOLLENS");
    assert("MODUS_TOLLENS"@.len() != "CONSTRUCTIVE_DILEMMA"@.len());
    assert(find_by_name(spec_all_rules(), "CONSTRUCTIVE_DILEMMA"@, 19) == find_by_name(spec_all_rules(), "CONSTRUCTIVE_DILEMMA"@, 20));
    reveal_strlit("HYPOTHETICAL_SYLLOGISM");
    assert("HYPOTHETICAL_SYLLOGISM"@.len() != "CONSTRUCTIVE_DILEMMA"@.len());
    assert(find_by_name(spec_all_rules(), "CONSTRUCTIVE_DILEMMA"@, 20) == find_by_name(spec_all_rules(), "CONSTRUCTIVE_DILEMMA"@, 21));
    reveal_strlit("EXCLUDED_MIDDLE");
    assert("EXCLUDED_MIDDLE"@.len() != "CONSTRUCTIVE_DILEMMA"@.len());
    assert(find_by_name(spec_all_rules(), "CONSTRUCTIVE_DILEMMA"@, 21) == find_by_name(spec_all_rules(), "CONSTRUCTIVE_DILEMMA"@, 22));
    assert(find_by_name(spec_all_rules(), "CONSTRUCTIVE_DILEMMA"@, 22) == Some(Rule::Redundant(RedundantPrepositionalInference::ConstructiveDilemma)));
}

proof fn lemma_finds_association()
    ensures
        find_by_name(spec_all_rules(), "ASSOCIATION"@, 0) == Some(Rule::Boolean(BooleanEquivalence::Association)),
{
    reveal_strlit("ASSOCIATION");
    reveal_strlit("REITERATION");
    assert("REITERATION"@[0] != "ASSOCIATION"@[0]);
    assert(find_by_name(spec_all_rules(), "ASSOCIATION"@, 0) == find_by_name(spec_all_rules(), "ASSOCIATION"@, 1));
    reveal_strlit("CONJUNCTION");
    assert("CONJUNCTION"@[0] != "ASSOCIATION"@[0]);
    assert(find_by_name(spec_all_rules(), "ASSOCIATION"@, 1) == find_by_name(spec_all_rules(), "ASSOCIATION"@, 2));
    reveal_strlit("SIMPLIFICATION");
    assert("SIMPLIFICATION"@.len() != "ASSOCIATION"@.len());
    assert(find_by_name(spec_all_rules(), "ASSOCIATION"@, 2) == find_by_name(spec_all_rules(), "ASSOCIATION"@, 3));
    reveal_strlit("ADDITION");
    assert("ADDITION"@.len() != "ASSOCIATION"@.len());
    assert(find_by_name(spec_all_rules(), "ASSOCIATION"@, 3) == find_by_name(spec_all_rules(), "ASSOCIATION"@, 4));
    reveal_strlit("DISJUNCTIVE_SYLLOGISM");
    assert("DISJUNCTIVE_SYLLOGISM"@.len() != "ASSOCIATION"@.len());
    assert(find_by_name(spec_all_rules(), "ASSOCIATION"@, 4) == find_by_name(spec_all_rules(), "ASSOCIATION"@, 5));
    reveal_strlit("CONDITIONAL_PROOF");
    assert("CONDITIONAL_PROOF"@.len() != "ASSOCIATION"@.len());
    assert(find_by_name(spec_all_rules(), "ASSOCIATION"@, 5) == find_by_name(spec_all_rules(), "ASSOCIATION"@, 6));
    reveal_strlit("MODUS_PONENS");
    assert("MODUS_PONENS"@.len() != "ASSOCIATION"@.len());
    assert(find_by_name(spec_all_rules(), "ASSOCIATION"@, 6) == find_by_name(spec_all_rules(), "ASSOCIATION"@, 7));
    reveal_strlit("PROOF_BY_CONTRADICTION");
    assert("PROOF_BY_CONTRADICTION"@.len() != "ASSOCIATION"@.len());
    assert(find_by_name(spec_all_rules(), "ASSOCIATION"@, 7) == find_by_name(spec_all_rules(), "ASSOCIATION"@, 8));
    reveal_strlit("DOUBLENEGATION");
    assert("DOUBLENEGATION"@.len() != "ASSOCIATION"@.len());
    assert(find_by_name(spec_all_rules(), "ASSOCIATION"@, 8) == find_by_name(spec_all_rules(), "ASSOCIATION"@, 9));
    reveal_strlit("CONTRADICTION");
    assert("CONTRADICTION"@.len() != "ASSOCIATION"@.len());
    assert(find_by_name(spec_all_rules(), "ASSOCIATION"@, 9) == find_by_name(spec_all_rules(), "ASSOCIATION"@, 10));
    reveal_strlit("PRINCIPLE_OF_EXPLOSION");
    assert("PRINCIPLE_OF_EXPLOSION"@.len() != "ASSOCIATION"@.len());
    assert(find_by_name(spec_all_rules(), "ASSOCIATION"@, 10) == find_by_name(spec_all_rules(), "ASSOCIATION"@, 11));
    reveal_strlit("BICONDITIONAL_INTRO");
    assert("BICONDITIONAL_INTRO"@.len() != "ASSOCIATION"@.len());
    assert(find_by_name(spec_all_rules(), "ASSOCIATION"@, 11) == find_by_name(spec_all_rules(), "ASSOCIATION"@, 12));
    reveal_strlit("BICONDITIONAL_ELIM");
    assert("BICONDITIONAL_ELIM"@.len() != "ASSOCIATION"@.len());
    assert(find_by_name(spec_all_rules(), "ASSOCIATION"@, 12) == find_by_name(spec_all_rules(), "ASSOCIATION"@, 13));
    reveal_strlit("EQUIVALENCE_INTRO");
    assert("EQUIVALENCE_INTRO"@.len() != "ASSOCIATION"@.len());
    assert(find_by_name(spec_all_rules(), "ASSOCIATION"@, 13) == find_by_name(spec_all_rules(), "ASSOCIATION"@, 14));
    reveal_strlit("EQUIVALENCE_ELIM");
    assert("EQUIVALENCE_ELIM"@.len() != "ASSOCIATION"@.len());
    assert(find_by_name(spec_all_rules(), "ASSOCIATION"@, 14) == find_by_name(spec_all_rules(), "ASSOCIATION"@, 15));
    reveal_strlit("UNIVERSAL_GENERALIZATION");
    assert("UNIVERSAL_GENERALIZATION"@.len() != "ASSOCIATION"@.len());
    assert(find_by_name(spec_all_rules(), "ASSOCIATION"@, 15) == find_by_name(spec_all_rules(), "ASSOCIATION"@, 16));
    reveal_strlit("UNIVERSAL_INSTANTIATION");
    assert("UNIVERSAL_INSTANTIATION"@.len() != "ASSOCIATION"@.len());
    assert(find_by_name(spec_all_rules(), "ASSOCIATION"@, 16) == find_by_name(spec_all_rules(), "ASSOCIATION"@, 17));
    reveal_strlit("EXISTENTIAL_GENERALIZATION");
    assert("EXISTENTIAL_GENERALIZATION"@.len() != "ASSOCIATION"@.len());
    assert(find_by_name(spec_all_rules(), "ASSOCIATION"@, 17) == find_by_name(spec_all_rules(), "ASSOCIATION"@, 18));
    reveal_strlit("EXISTENTIAL_INSTANTIATION");
    assert("EXISTENTIAL_INSTANTIATION"@.len() != "ASSOCIATION"@.len());
    assert(find_by_name(spec_all_rules(), "ASSOCIATION"@, 18) == find_by_name(spec_all_rules(), "ASSOCIATION"@, 19));
    reveal_strlit("MODUS_TOLLENS");
    assert("MODUS_TOLLENS"@.len() != "ASSOCIATION"@.len());
    assert(find_by_name(spec_all_rules(), "ASSOCIATION"@, 19) == find_by_name(spec_all_rules(), "ASSOCIATION"@, 20));
    reveal_strlit("HYPOTHETICAL_SYLLOGISM");
    assert("HYPOTHETICAL_SYLLOGISM"@.len() != "ASSOCIATION"@.len());
    assert(find_by_name(spec_all_rules(), "ASSOCIATION"@, 20) == find_by_name(spec_all_rules(), "ASSOCIATION"@, 21));
    reveal_strlit("EXCLUDED_MIDDLE");
    assert("EXCLUDED_MIDDLE"@.len() != "ASSOCIATION"@.len());
    assert(find_by_name(spec_all_rules(), "ASSOCIATION"@, 21) == find_by_name(spec_all_rules(), "ASSOCIATION"@, 22));
    reveal_strlit("CONSTRUCTIVE_DILEMMA");
    assert("CONSTRUCTIVE_DILEMMA"@.len() != "ASSOCIATION"@.len());
    assert(find_by_name(spec_all_rules(), "ASSOCIATION"@, 22) == find_by_name(spec_all_rules(), "ASSOCIATION"@, 23));
    assert(find_by_name(spec_all_rules(), "ASSOCIATION"@, 23) == Some(Rule::Boolean(BooleanEquivalence::Association)));
}

proof fn lemma_finds_commutation()
    ensures
        find_by_name(spec_all_rules(), "COMMUTATION"@, 0) == Some(Rule::Boolean(BooleanEquivalence::Commutation)),
{
    reveal_strlit("COMMUTATION");
    reveal_strlit("REITERATION");
    assert("REITERATION"@[0] != "COMMUTATION"@[0]);
    assert(find_by_name(spec_all_rules(), "COMMUTATION"@, 0) == find_by_name(spec_all_rules(), "COMMUTATION"@, 1));
    reveal_strlit("CONJUNCTION");
    assert("CONJUNCTION"@[2] != "COMMUTATION"@[2]);
    assert(find_by_name(spec_all_rules(), "COMMUTATION"@, 1) == find_by_name(spec_all_rules(), "COMMUTATION"@, 2));
    reveal_strlit("SIMPLIFICATION");
    assert("SIMPLIFICATION"@.len() != "COMMUTATION"@.len());
    assert(find_by_name(spec_all_rules(), "COMMUTATION"@, 2) == find_by_name(spec_all_rules(), "COMMUTATION"@, 3));
    reveal_strlit("ADDITION");
    assert("ADDITION"@.len() != "COMMUTATION"@.len());
    assert(find_by_name(spec_all_rules(), "COMMUTATION"@, 3) == find_by_name(spec_all_rules(), "COMMUTATION"@, 4));
    reveal_strlit("DISJUNCTIVE_SYLLOGISM");
    assert("DISJUNCTIVE_SYLLOGISM"@.len() != "COMMUTATION"@.len());
    assert(find_by_name(spec_all_rules(), "COMMUTATION"@, 4) == find_by_name(spec_all_rules(), "COMMUTATION"@, 5));
    reveal_strlit("CONDITIONAL_PROOF");
    assert("CONDITIONAL_PROOF"@.len() != "COMMUTATION"@.len());
    assert(find_by_name(spec_all_rules(), "COMMUTATION"@, 5) == find_by_name(spec_all_rules(), "COMMUTATION"@, 6));
    reveal_strlit("MODUS_PONENS");
    assert("MODUS_PONENS"@.len() != "COMMUTATION"@.len());
    assert(find_by_name(spec_all_rules(), "COMMUTATION"@, 6) == find_by_name(spec_all_rules(), "COMMUTATION"@, 7));
    reveal_strlit("PROOF_BY_CONTRADICTION");
    assert("PROOF_BY_CONTRADICTION"@.len() != "COMMUTATION"@.len());
    assert(find_by_name(spec_all_rules(), "COMMUTATION"@, 7) == find_by_name(spec_all_rules(), "COMMUTATION"@, 8));
    reveal_strlit("DOUBLENEGATION");
    assert("DOUBLENEGATION"@.len() != "COMMUTATION"@.len());
    assert(find_by_name(spec_all_rules(), "COMMUTATION"@, 8) == find_by_name(spec_all_rules(), "COMMUTATION"@, 9));
    reveal_strlit("CONTRADICTION");
    assert("CONTRADICTION"@.len() != "COMMUTATION"@.len());
    assert(find_by_name(spec_all_rules(), "COMMUTATION"@, 9) == find_by_name(spec_all_rules(), "COMMUTATION"@, 10));
    reveal_strlit("PRINCIPLE_OF_EXPLOSION");
    assert("PRINCIPLE_OF_EXPLOSION"@.len() != "COMMUTATION"@.len());
    assert(find_by_name(spec_all_rules(), "COMMUTATION"@, 10) == find_by_name(spec_all_rules(), "COMMUTATION"@, 11));
    reveal_strlit("BICONDITIONAL_INTRO");
    assert("BICONDITIONAL_INTRO"@.len() != "COMMUTATION"@.len());
    assert(find_by_name(spec_all_rules(), "COMMUTATION"@, 11) == find_by_name(spec_all_rules(), "COMMUTATION"@, 12));
    reveal_strlit("BICONDITIONAL_ELIM");
    assert("BICONDITIONAL_ELIM"@.len() != "COMMUTATION"@.len());
    assert(find_by_name(spec_all_rules(), "COMMUTATION"@, 12) == find_by_name(spec_all_rules(), "COMMUTATION"@, 13));
    reveal_strlit("EQUIVALENCE_INTRO");
    assert("EQUIVALENCE_INTRO"@.len() != "COMMUTATION"@.len());
    assert(find_by_name(spec_all_rules(), "COMMUTATION"@, 13) == find_by_name(spec_all_rules(), "COMMUTATION"@, 14));
    reveal_strlit("EQUIVALENCE_ELIM");
    assert("EQUIVALENCE_ELIM"@.len() != "COMMUTATION"@.len());
    assert(find_by_name(spec_all_rules(), "COMMUTATION"@, 14) == find_by_name(spec_all_rules(), "COMMUTATION"@, 15));
    reveal_strlit("UNIVERSAL_GENERALIZATION");
    assert("UNIVERSAL_GENERALIZATION"@.len() != "COMMUTATION"@.len());
    assert(find_by_name(spec_all_rules(), "COMMUTATION"@, 15) == find_by_name(spec_all_rules(), "COMMUTATION"@, 16));
    reveal_strlit("UNIVERSAL_INSTANTIATION");
    assert("UNIVERSAL_INSTANTIATION"@.len() != "COMMUTATION"@.len());
    assert(find_by_name(spec_all_rules(), "COMMUTATION"@, 16) == find_by_name(spec_all_rules(), "COMMUTATION"@, 17));
    reveal_strlit("EXISTENTIAL_GENERALIZATION");
    assert("EXISTENTIAL_GENERALIZATION"@.len() != "COMMUTATION"@.len());
    assert(find_by_name(spec_all_rules(), "COMMUTATION"@, 17) == find_by_name(spec_all_rules(), "COMMUTATION"@, 18));
    reveal_strlit("EXISTENTIAL_INSTANTIATION");
    assert("EXISTENTIAL_INSTANTIATION"@.len() != "COMMUTATION"@.len());
    assert(find_by_name(spec_all_rules(), "COMMUTATION"@, 18) == find_by_name(spec_all_rules(), "COMMUTATION"@, 19));
    reveal_strlit("MODUS_TOLLENS");
    assert("MODUS_TOLLENS"@.len() != "COMMUTATION"@.len());
    assert(find_by_name(spec_all_rules(), "COMMUTATION"@, 19) == find_by_name(spec_all_rules(), "COMMUTATION"@, 20));
    reveal_strlit("HYPOTHETICAL_SYLLOGISM");
    assert("HYPOTHETICAL_SYLLOGISM"@.len() != "COMMUTATION"@.len());
    assert(find_by_name(spec_all_rules(), "COMMUTATION"@, 20) == find_by_name(spec_all_rules(), "COMMUTATION"@, 21));
    reveal_strlit("EXCLUDED_MIDDLE");
    assert("EXCLUDED_MIDDLE"@.len() != "COMMUTATION"@.len());
    assert(find_by_name(spec_all_rules(), "COMMUTATION"@, 21) == find_by_name(spec_all_rules(), "COMMUTATION"@, 22));
    reveal_strlit("CONSTRUCTIVE_DILEMMA");
    assert("CONSTRUCTIVE_DILEMMA"@.len() != "COMMUTATION"@.len());
    assert(find_by_name(spec_all_rules(), "COMMUTATION"@, 22) == find_by_name(spec_all_rules(), "COMMUTATION"@, 23));
    reveal_strlit("ASSOCIATION");
    assert("ASSOCIATION"@[0] != "COMMUTATION"@[0]);
    assert(find_by_name(spec_all_rules(), "COMMUTATION"@, 23) == find_by_name(spec_all_rules(), "COMMUTATION"@, 24));
    assert(find_by_name(spec_all_rules(), "COMMUTATION"@, 24) == Some(Rule::Boolean(BooleanEquivalence::Commutation)));
}

proof fn lemma_finds_idempotence()
    ensures
        find_by_name(spec_all_rules(), "IDEMPOTENCE"@, 0) == Some(Rule::Boolean(BooleanEquivalence::Idempotence)),
{
    reveal_strlit("IDEMPOTENCE");
    reveal_strlit("REITERATION");
    assert("REITERATION"@[0] != "IDEMPOTENCE"@[0]);
    assert(find_by_name(spec_all_rules(), "IDEMPOTENCE"@, 0) == find_by_name(spec_all_rules(), "IDEMPOTENCE"@, 1));
    reveal_strlit("CONJUNCTION");
    assert("CONJUNCTION"@[0] != "IDEMPOTENCE"@[0]);
    assert(find_by_name(spec_all_rules(), "IDEMPOTENCE"@, 1) == find_by_name(spec_all_rules(), "IDEMPOTENCE"@, 2));
    reveal_strlit("SIMPLIFICATION");
    assert("SIMPLIFICATION"@.len() != "IDEMPOTENCE"@.len());
    assert(find_by_name(spec_all_rules(), "IDEMPOTENCE"@, 2) == find_by_name(spec_all_rules(), "IDEMPOTENCE"@, 3));
    reveal_strlit("ADDITION");
    assert("ADDITION"@.len() != "IDEMPOTENCE"@.len());
    assert(find_by_name(spec_all_rules(), "IDEMPOTENCE"@, 3) == find_by_name(spec_all_rules(), "IDEMPOTENCE"@, 4));
    reveal_strlit("DISJUNCTIVE_SYLLOGISM");
    assert("DISJUNCTIVE_SYLLOGISM"@.len() != "IDEMPOTENCE"@.len());
    assert(find_by_name(spec_all_rules(), "IDEMPOTENCE"@, 4) == find_by_name(spec_all_rules(), "IDEMPOTENCE"@, 5));
    reveal_strlit("CONDITIONAL_PROOF");
    assert("CONDITIONAL_PROOF"@.len() != "IDEMPOTENCE"@.len());
    assert(find_by_name(spec_all_rules(), "IDEMPOTENCE"@, 5) == find_by_name(spec_all_rules(), "IDEMPOTENCE"@, 6));
    reveal_strlit("MODUS_PONENS");
    assert("MODUS_PONENS"@.len() != "IDEMPOTENCE"@.len());
    assert(find_by_name(spec_all_rules(), "IDEMPOTENCE"@, 6) == find_by_name(spec_all_rules(), "IDEMPOTENCE"@, 7));
    reveal_strlit("PROOF_BY_CONTRADICTION");
    assert("PROOF_BY_CONTRADICTION"@.len() != "IDEMPOTENCE"@.len());
    assert(find_by_name(spec_all_rules(), "IDEMPOTENCE"@, 7) == find_by_name(spec_all_rules(), "IDEMPOTENCE"@, 8));
    reveal_strlit("DOUBLENEGATION");
    assert("DOUBLENEGATION"@.len() != "IDEMPOTENCE"@.len());
    assert(find_by_name(spec_all_rules(), "IDEMPOTENCE"@, 8) == find_by_name(spec_all_rules(), "IDEMPOTENCE"@, 9));
    reveal_strlit("CONTRADICTION");
    assert("CONTRADICTION"@.len() != "IDEMPOTENCE"@.len());
    assert(find_by_name(spec_all_rules(), "IDEMPOTENCE"@, 9) == find_by_name(spec_all_rules(), "IDEMPOTENCE"@, 10));
    reveal_strlit("PRINCIPLE_OF_EXPLOSION");
    assert("PRINCIPLE_OF_EXPLOSION"@.len() != "IDEMPOTENCE"@.len());
    assert(find_by_name(spec_all_rules(), "IDEMPOTENCE"@, 10) == find_by_name(spec_all_rules(), "IDEMPOTENCE"@, 11));
    reveal_strlit("BICONDITIONAL_INTRO");
    assert("BICONDITIONAL_INTRO"@.len() != "IDEMPOTENCE"@.len());
    assert(find_by_name(spec_all_rules(), "IDEMPOTENCE"@, 11) == find_by_name(spec_all_rules(), "IDEMPOTENCE"@, 12));
    reveal_strlit("BICONDITIONAL_ELIM");
    assert("BICONDITIONAL_ELIM"@.len() != "IDEMPOTENCE"@.len());
    assert(find_by_name(spec_all_rules(), "IDEMPOTENCE"@, 12) == find_by_name(spec_all_rules(), "IDEMPOTENCE"@, 13));
    reveal_strlit("EQUIVALENCE_INTRO");
    assert("EQUIVALENCE_INTRO"@.len() != "IDEMPOTENCE"@.len());
    assert(find_by_name(spec_all_rules(), "IDEMPOTENCE"@, 13) == find_by_name(spec_all_rules(), "IDEMPOTENCE"@, 14));
    reveal_strlit("EQUIVALENCE_ELIM");
    assert("EQUIVALENCE_ELIM"@.len() != "IDEMPOTENCE"@.len());
    assert(find_by_name(spec_all_rules(), "IDEMPOTENCE"@, 14) == find_by_name(spec_all_rules(), "IDEMPOTENCE"@, 15));
    reveal_strlit("UNIVERSAL_GENERALIZATION");
    assert("UNIVERSAL_GENERALIZATION"@.len() != "IDEMPOTENCE"@.len());
    assert(find_by_name(spec_all_rules(), "IDEMPOTENCE"@, 15) == find_by_name(spec_all_rules(), "IDEMPOTENCE"@, 16));
    reveal_strlit("UNIVERSAL_INSTANTIATION");
    assert("UNIVERSAL_INSTANTIATION"@.len() != "IDEMPOTENCE"@.len());
    assert(find_by_name(spec_all_rules(), "IDEMPOTENCE"@, 16) == find_by_name(spec_all_rules(), "IDEMPOTENCE"@, 17));
    reveal_strlit("EXISTENTIAL_GENERALIZATION");
    assert("EXISTENTIAL_GENERALIZATION"@.len() != "IDEMPOTENCE"@.len());
    assert(find_by_name(spec_all_rules(), "IDEMPOTENCE"@, 17) == find_by_name(spec_all_rules(), "IDEMPOTENCE"@, 18));
    reveal_strlit("EXISTENTIAL_INSTANTIATION");
    assert("EXISTENTIAL_INSTANTIATION"@.len() != "IDEMPOTENCE"@.len());
    assert(find_by_name(spec_all_rules(), "IDEMPOTENCE"@, 18) == find_by_name(spec_all_rules(), "IDEMPOTENCE"@, 19));
    reveal_strlit("MODUS_TOLLENS");
    assert("MODUS_TOLLENS"@.len() != "IDEMPOTENCE"@.len());
    assert(find_by_name(spec_all_rules(), "IDEMPOTENCE"@, 19) == find_by_name(spec_all_rules(), "IDEMPOTENCE"@, 20));
    reveal_strlit("HYPOTHETICAL_SYLLOGISM");
    assert("HYPOTHETICAL_SYLLOGISM"@.len() != "IDEMPOTENCE"@.len());
    assert(find_by_name(spec_all_rules(), "IDEMPOTENCE"@, 20) == find_by_name(spec_all_rules(), "IDEMPOTENCE"@, 21));
    reveal_strlit("EXCLUDED_MIDDLE");
    assert("EXCLUDED_MIDDLE"@.len() != "IDEMPOTENCE"@.len());
    assert(find_by_name(spec_all_rules(), "IDEMPOTENCE"@, 21) == find_by_name(spec_all_rules(), "IDEMPOTENCE"@, 22));
    reveal_strlit("CONSTRUCTIVE_DILEMMA");
    assert("CONSTRUCTIVE_DILEMMA"@.len() != "IDEMPOTENCE"@.len());
    assert(find_by_name(spec_all_rules(), "IDEMPOTENCE"@, 22) == find_by_name(spec_all_rules(), "IDEMPOTENCE"@, 23));
    reveal_strlit("ASSOCIATION");
    assert("ASSOCIATION"@[0] != "IDEMPOTENCE"@[0]);
    assert(find_by_name(spec_all_rules(), "IDEMPOTENCE"@, 23) == find_by_name(spec_all_rules(), "IDEMPOTENCE"@, 24));
    reveal_strlit("COMMUTATION");
    assert("COMMUTATION"@[0] != "IDEMPOTENCE"@[0]);
    assert(find_by_name(spec_all_rules(), "IDEMPOTENCE"@, 24) == find_by_name(spec_all_rules(), "IDEMPOTENCE"@, 25));
    assert(find_by_name(spec_all_rules(), "IDEMPOTENCE"@, 25) == Some(Rule::Boolean(BooleanEquivalence::Idempotence)));
}

proof fn lemma_finds_de_morgan()
    ensures
        find_by_name(spec_all_rules(), "DE_MORGAN"@, 0) == Some(Rule::Boolean(BooleanEquivalence::DeMorgan)),
{
    reveal_strlit("DE_MORGAN");
    reveal_strlit("REITERATION");
    assert("REITERATION"@.len() != "DE_MORGAN"@.len());
    assert(find_by_name(spec_all_rules(), "DE_MORGAN"@, 0) == find_by_name(spec_all_rules(), "DE_MORGAN"@, 1));
    reveal_strlit("CONJUNCTION");
    assert("CONJUNCTION"@.len() != "DE_MORGAN"@.len());
    assert(find_by_name(spec_all_rules(), "DE_MORGAN"@, 1) == find_by_name(spec_all_rules(), "DE_MORGAN"@, 2));
    reveal_strlit("SIMPLIFICATION");
    assert("SIMPLIFICATION"@.len() != "DE_MORGAN"@.len());
    assert(find_by_name(spec_all_rules(), "DE_MORGAN"@, 2) == find_by_name(spec_all_rules(), "DE_MORGAN"@, 3));
    reveal_strlit("ADDITION");
    assert("ADDITION"@.len() != "DE_MORGAN"@.len());
    assert(find_by_name(spec_all_rules(), "DE_MORGAN"@, 3) == find_by_name(spec_all_rules(), "DE_MORGAN"@, 4));
    reveal_strlit("DISJUNCTIVE_SYLLOGISM");
    assert("DISJUNCTIVE_SYLLOGISM"@.len() != "DE_MORGAN"@.len());
    assert(find_by_name(spec_all_rules(), "DE_MORGAN"@, 4) == find_by_name(spec_all_rules(), "DE_MORGAN"@, 5));
    reveal_strlit("CONDITIONAL_PROOF");
    assert("CONDITIONAL_PROOF"@.len() != "DE_MORGAN"@.len());
    assert(find_by_name(spec_all_rules(), "DE_MORGAN"@, 5) == find_by_name(spec_all_rules(), "DE_MORGAN"@, 6));
    reveal_strlit("MODUS_PONENS");
    assert("MODUS_PONENS"@.len() != "DE_MORGAN"@.len());
    assert(find_by_name(spec_all_rules(), "DE_MORGAN"@, 6) == find_by_name(spec_all_rules(), "DE_MORGAN"@, 7));
    reveal_strlit("PROOF_BY_CONTRADICTION");
    assert("PROOF_BY_CONTRADICTION"@.len() != "DE_MORGAN"@.len());
    assert(find_by_name(spec_all_rules(), "DE_MORGAN"@, 7) == find_by_name(spec_all_rules(), "DE_MORGAN"@, 8));
    reveal_strlit("DOUBLENEGATION");
    assert("DOUBLENEGATION"@.len() != "DE_MORGAN"@.len());
    assert(find_by_name(spec_all_rules(), "DE_MORGAN"@, 8) == find_by_name(spec_all_rules(), "DE_MORGAN"@, 9));
    reveal_strlit("CONTRADICTION");
    assert("CONTRADICTION"@.len() != "DE_MORGAN"@.len());
    assert(find_by_name(spec_all_rules(), "DE_MORGAN"@, 9) == find_by_name(spec_all_rules(), "DE_MORGAN"@, 10));
    reveal_strlit("PRINCIPLE_OF_EXPLOSION");
    assert("PRINCIPLE_OF_EXPLOSION"@.len() != "DE_MORGAN"@.len());
    assert(find_by_name(spec_all_rules(), "DE_MORGAN"@, 10) == find_by_name(spec_all_rules(), "DE_MORGAN"@, 11));
    reveal_strlit("BICONDITIONAL_INTRO");
    assert("BICONDITIONAL_INTRO"@.len() != "DE_MORGAN"@.len());
    assert(find_by_name(spec_all_rules(), "DE_MORGAN"@, 11) == find_by_name(spec_all_rules(), "DE_MORGAN"@, 12));
    reveal_strlit("BICONDITIONAL_ELIM");
    assert("BICONDITIONAL_ELIM"@.len() != "DE_MORGAN"@.len());
    assert(find_by_name(spec_all_rules(), "DE_MORGAN"@, 12) == find_by_name(spec_all_rules(), "DE_MORGAN"@, 13));
    reveal_strlit("EQUIVALENCE_INTRO");
    assert("EQUIVALENCE_INTRO"@.len() != "DE_MORGAN"@.len());
    assert(find_by_name(spec_all_rules(), "DE_MORGAN"@, 13) == find_by_name(spec_all_rules(), "DE_MORGAN"@, 14));
    reveal_strlit("EQUIVALENCE_ELIM");
    assert("EQUIVALENCE_ELIM"@.len() != "DE_MORGAN"@.len());
    assert(find_by_name(spec_all_rules(), "DE_MORGAN"@, 14) == find_by_name(spec_all_rules(), "DE_MORGAN"@, 15));
    reveal_strlit("UNIVERSAL_GENERALIZATION");
    assert("UNIVERSAL_GENERALIZATION"@.len() != "DE_MORGAN"@.len());
    assert(find_by_name(spec_all_rules(), "DE_MORGAN"@, 15) == find_by_name(spec_all_rules(), "DE_MORGAN"@, 16));
    reveal_strlit("UNIVERSAL_INSTANTIATION");
    assert("UNIVERSAL_INSTANTIATION"@.len() != "DE_MORGAN"@.len());
    assert(find_by_name(spec_all_rules(), "DE_MORGAN"@, 16) == find_by_name(spec_all_rules(), "DE_MORGAN"@, 17));
    reveal_strlit("EXISTENTIAL_GENERALIZATION");
    assert("EXISTENTIAL_GENERALIZATION"@.len() != "DE_MORGAN"@.len());
    assert(find_by_name(spec_all_rules(), "DE_MORGAN"@, 17) == find_by_name(spec_all_rules(), "DE_MORGAN"@, 18));
    reveal_strlit("EXISTENTIAL_INSTANTIATION");
    assert("EXISTENTIAL_INSTANTIATION"@.len() != "DE_MORGAN"@.len());
    assert(find_by_name(spec_all_rules(), "DE_MORGAN"@, 18) == find_by_name(spec_all_rules(), "DE_MORGAN"@, 19));
    reveal_strlit("MODUS_TOLLENS");
    assert("MODUS_TOLLENS"@.len() != "DE_MORGAN"@.len());
    assert(find_by_name(spec_all_rules(), "DE_MORGAN"@, 19) == find_by_name(spec_all_rules(), "DE_MORGAN"@, 20));
    reveal_strlit("HYPOTHETICAL_SYLLOGISM");
    assert("HYPOTHETICAL_SYLLOGISM"@.len() != "DE_MORGAN"@.len());
    assert(find_by_name(spec_all_rules(), "DE_MORGAN"@, 20) == find_by_name(spec_all_rules(), "DE_MORGAN"@, 21));
    reveal_strlit("EXCLUDED_MIDDLE");
    assert("EXCLUDED_MIDDLE"@.len() != "DE_MORGAN"@.len());
    assert(find_by_name(spec_all_rules(), "DE_MORGAN"@, 21) == find_by_name(spec_all_rules(), "DE_MORGAN"@, 22));
    reveal_strlit("CONSTRUCTIVE_DILEMMA");
    assert("CONSTRUCTIVE_DILEMMA"@.len() != "DE_MORGAN"@.len());
    assert(find_by_name(spec_all_rules(), "DE_MORGAN"@, 22) == find_by_name(spec_all_rules(), "DE_MORGAN"@, 23));
    reveal_strlit("ASSOCIATION");
    assert("ASSOCIATION"@.len() != "DE_MORGAN"@.len());
    assert(find_by_name(spec_all_rules(), "DE_MORGAN"@, 23) == find_by_name(spec_all_rules(), "DE_MORGAN"@, 24));
    reveal_strlit("COMMUTATION");
    assert("COMMUTATION"@.len() != "DE_MORGAN"@.len());
    assert(find_by_name(spec_all_rules(), "DE_MORGAN"@, 24) == find_by_name(spec_all_rules(), "DE_MORGAN"@, 25));
    reveal_strlit("IDEMPOTENCE");
    assert("IDEMPOTENCE"@.len() != "DE_MORGAN"@.len());
    assert(find_by_name(spec_all_rules(), "DE_MORGAN"@, 25) == find_by_name(spec_all_rules(), "DE_MORGAN"@, 26));
    assert(find_by_name(spec_all_rules(), "DE_MORGAN"@, 26) == Some(Rule::Boolean(BooleanEquivalence::DeMorgan)));
}

proof fn lemma_finds_distribution()
    ensures
        find_by_name(spec_all_rules(), "DISTRIBUTION"@, 0) == Some(Rule::Boolean(BooleanEquivalence::Distribution)),
{
    reveal_strlit("DISTRIBUTION");
    reveal_strlit("REITERATION");
    assert("REITERATION"@.len() != "DISTRIBUTION"@.len());
    assert(find_by_name(spec_all_rules(), "DISTRIBUTION"@, 0) == find_by_name(spec_all_rules(), "DISTRIBUTION"@, 1));
    reveal_strlit("CONJUNCTION");
    assert("CONJUNCTION"@.len() != "DISTRIBUTION"@.len());
    assert(find_by_name(spec_all_rules(), "DISTRIBUTION"@, 1) == find_by_name(spec_all_rules(), "DISTRIBUTION"@, 2));
    reveal_strlit("SIMPLIFICATION");
    assert("SIMPLIFICATION"@.len() != "DISTRIBUTION"@.len());
    assert(find_by_name(spec_all_rules(), "DISTRIBUTION"@, 2) == find_by_name(spec_all_rules(), "DISTRIBUTION"@, 3));
    reveal_strlit("ADDITION");
    assert("ADDITION"@.len() != "DISTRIBUTION"@.len());
    assert(find_by_name(spec_all_rules(), "DISTRIBUTION"@, 3) == find_by_name(spec_all_rules(), "DISTRIBUTION"@, 4));
    reveal_strlit("DISJUNCTIVE_SYLLOGISM");
    assert("DISJUNCTIVE_SYLLOGISM"@.len() != "DISTRIBUTION"@.len());
    assert(find_by_name(spec_all_rules(), "DISTRIBUTION"@, 4) == find_by_name(spec_all_rules(), "DISTRIBUTION"@, 5));
    reveal_strlit("CONDITIONAL_PROOF");
    assert("CONDITIONAL_PROOF"@.len() != "DISTRIBUTION"@.len());
    assert(find_by_name(spec_all_rules(), "DISTRIBUTION"@, 5) == find_by_name(spec_all_rules(), "DISTRIBUTION"@, 6));
    reveal_strlit("MODUS_PONENS");
    assert("MODUS_PONENS"@[0] != "DISTRIBUTION"@[0]);
    assert(find_by_name(spec_all_rules(), "DISTRIBUTION"@, 6) == find_by_name(spec_all_rules(), "DISTRIBUTION"@, 7));
    reveal_strlit("PROOF_BY_CONTRADICTION");
    assert("PROOF_BY_CONTRADICTION"@.len() != "DISTRIBUTION"@.len());
    assert(find_by_name(spec_all_rules(), "DISTRIBUTION"@, 7) == find_by_name(spec_all_rules(), "DISTRIBUTION"@, 8));
    reveal_strlit("DOUBLENEGATION");
    assert("DOUBLENEGATION"@.len() != "DISTRIBUTION"@.len());
    assert(find_by_name(spec_all_rules(), "DISTRIBUTION"@, 8) == find_by_name(spec_all_rules(), "DISTRIBUTION"@, 9));
    reveal_strlit("CONTRADICTION");
    assert("CONTRADICTION"@.len() != "DISTRIBUTION"@.len());
    assert(find_by_name(spec_all_rules(), "DISTRIBUTION"@, 9) == find_by_name(spec_all_rules(), "DISTRIBUTION"@, 10));
    reveal_strlit("PRINCIPLE_OF_EXPLOSION");
    assert("PRINCIPLE_OF_EXPLOSION"@.len() != "DISTRIBUTION"@.len());
    assert(find_by_name(spec_all_rules(), "DISTRIBUTION"@, 10) == find_by_name(spec_all_rules(), "DISTRIBUTION"@, 11));
    reveal_strlit("BICONDITIONAL_INTRO");
    assert("BICONDITIONAL_INTRO"@.len() != "DISTRIBUTION"@.len());
    assert(find_by_name(spec_all_rules(), "DISTRIBUTION"@, 11) == find_by_name(spec_all_rules(), "DISTRIBUTION"@, 12));
    reveal_strlit("BICONDITIONAL_ELIM");
    assert("BICONDITIONAL_ELIM"@.len() != "DISTRIBUTION"@.len());
    assert(find_by_name(spec_all_rules(), "DISTRIBUTION"@, 12) == find_by_name(spec_all_rules(), "DISTRIBUTION"@, 13));
    reveal_strlit("EQUIVALENCE_INTRO");
    assert("EQUIVALENCE_INTRO"@.len() != "DISTRIBUTION"@.len());
    assert(find_by_name(spec_all_rules(), "DISTRIBUTION"@, 13) == find_by_name(spec_all_rules(), "DISTRIBUTION"@, 14));
    reveal_strlit("EQUIVALENCE_ELIM");
    assert("EQUIVALENCE_ELIM"@.len() != "DISTRIBUTION"@.len());
    assert(find_by_name(spec_all_rules(), "DISTRIBUTION"@, 14) == find_by_name(spec_all_rules(), "DISTRIBUTION"@, 15));
    reveal_strlit("UNIVERSAL_GENERALIZATION");
    assert("UNIVERSAL_GENERALIZATION"@.len() != "DISTRIBUTION"@.len());
    assert(find_by_name(spec_all_rules(), "DISTRIBUTION"@, 15) == find_by_name(spec_all_rules(), "DISTRIBUTION"@, 16));
    reveal_strlit("UNIVERSAL_INSTANTIATION");
    assert("UNIVERSAL_INSTANTIATION"@.len() != "DISTRIBUTION"@.len());
    assert(find_by_name(spec_all_rules(), "DISTRIBUTION"@, 16) == find_by_name(spec_all_rules(), "DISTRIBUTION"@, 17));
    reveal_strlit("EXISTENTIAL_GENERALIZATION");
    assert("EXISTENTIAL_GENERALIZATION"@.len() != "DISTRIBUTION"@.len());
    assert(find_by_name(spec_all_rules(), "DISTRIBUTION"@, 17) == find_by_name(spec_all_rules(), "DISTRIBUTION"@, 18));
    reveal_strlit("EXISTENTIAL_INSTANTIATION");
    assert("EXISTENTIAL_INSTANTIATION"@.len() != "DISTRIBUTION"@.len());
    assert(find_by_name(spec_all_rules(), "DISTRIBUTION"@, 18) == find_by_name(spec_all_rules(), "DISTRIBUTION"@, 19));
    reveal_strlit("MODUS_TOLLENS");
    assert("MODUS_TOLLENS"@.len() != "DISTRIBUTION"@.len());
    assert(find_by_name(spec_all_rules(), "DISTRIBUTION"@, 19) == find_by_name(spec_all_rules(), "DISTRIBUTION"@, 20));
    reveal_strlit("HYPOTHETICAL_SYLLOGISM");
    assert("HYPOTHETICAL_SYLLOGISM"@.len() != "DISTRIBUTION"@.len());
    assert(find_by_name(spec_all_rules(), "DISTRIBUTION"@, 20) == find_by_name(spec_all_rules(), "DISTRIBUTION"@, 21));
    reveal_strlit("EXCLUDED_MIDDLE");
    assert("EXCLUDED_MIDDLE"@.len() != "DISTRIBUTION"@.len());
    assert(find_by_name(spec_all_rules(), "DISTRIBUTION"@, 21) == find_by_name(spec_all_rules(), "DISTRIBUTION"@, 22));
    reveal_strlit("CONSTRUCTIVE_DILEMMA");
    assert("CONSTRUCTIVE_DILEMMA"@.len() != "DISTRIBUTION"@.len());
    assert(find_by_name(spec_all_rules(), "DISTRIBUTION"@, 22) == find_by_name(spec_all_rules(), "DISTRIBUTION"@, 23));
    reveal_strlit("ASSOCIATION");
    assert("ASSOCIATION"@.len() != "DISTRIBUTION"@.len());
    assert(find_by_name(spec_all_rules(), "DISTRIBUTION"@, 23) == find_by_name(spec_all_rules(), "DISTRIBUTION"@, 24));
    reveal_strlit("COMMUTATION");
    assert("COMMUTATION"@.len() != "DISTRIBUTION"@.len());
    assert(find_by_name(spec_all_rules(), "DISTRIBUTION"@, 24) == find_by_name(spec_all_rules(), "DISTRIBUTION"@, 25));
    reveal_strlit("IDEMPOTENCE");
    assert("IDEMPOTENCE"@.len() != "DISTRIBUTION"@.len());
    assert(find_by_name(spec_all_rules(), "DISTRIBUTION"@, 25) == find_by_name(spec_all_rules(), "DISTRIBUTION"@, 26));
    reveal_strlit("DE_MORGAN");
    assert("DE_MORGAN"@.len() != "DISTRIBUTION"@.len());
    assert(find_by_name(spec_all_rules(), "DISTRIBUTION"@, 26) == find_by_name(spec_all_rules(), "DISTRIBUTION"@, 27));
    assert(find_by_name(spec_all_rules(), "DISTRIBUTION"@, 27) == Some(Rule::Boolean(BooleanEquivalence::Distribution)));
}

proof fn lemma_finds_doublenegation_equiv()
    ensures
        find_by_name(spec_all_rules(), "DOUBLENEGATION_EQUIV"@, 0) == Some(Rule::Boolean(BooleanEquivalence::DoubleNegation)),
{
    reveal_strlit("DOUBLENEGATION_EQUIV");
    reveal_strlit("REITERATION");
    assert("REITERATION"@.len() != "DOUBLENEGATION_EQUIV"@.len());
    assert(find_by_name(spec_all_rules(), "DOUBLENEGATION_EQUIV"@, 0) == find_by_name(spec_all_rules(), "DOUBLENEGATION_EQUIV"@, 1));
    reveal_strlit("CONJUNCTION");
    assert("CONJUNCTION"@.len() != "DOUBLENEGATION_EQUIV"@.len());
    assert(find_by_name(spec_all_rules(), "DOUBLENEGATION_EQUIV"@, 1) == find_by_name(spec_all_rules(), "DOUBLENEGATION_EQUIV"@, 2));
    reveal_strlit("SIMPLIFICATION");
    assert("SIMPLIFICATION"@.len() != "DOUBLENEGATION_EQUIV"@.len());
    assert(find_by_name(spec_all_rules(), "DOUBLENEGATION_EQUIV"@, 2) == find_by_name(spec_all_rules(), "DOUBLENEGATION_EQUIV"@, 3));
    reveal_strlit("ADDITION");
    assert("ADDITION"@.len() != "DOUBLENEGATION_EQUIV"@.len());
    assert(find_by_name(spec_all_rules(), "DOUBLENEGATION_EQUIV"@, 3) == find_by_name(spec_all_rules(), "DOUBLENEGATION_EQUIV"@, 4));
    reveal_strlit("DISJUNCTIVE_SYLLOGISM");
    assert("DISJUNCTIVE_SYLLOGISM"@.len() != "DOUBLENEGATION_EQUIV"@.len());
    assert(find_by_name(spec_all_rules(), "DOUBLENEGATION_EQUIV"@, 4) == find_by_name(spec_all_rules(), "DOUBLENEGATION_EQUIV"@, 5));
    reveal_strlit("CONDITIONAL_PROOF");
    assert("CONDITIONAL_PROOF"@.len() != "DOUBLENEGATION_EQUIV"@.len());
    assert(find_by_name(spec_all_rules(), "DOUBLENEGATION_EQUIV"@, 5) == find_by_name(spec_all_rules(), "DOUBLENEGATION_EQUIV"@, 6));
    reveal_strlit("MODUS_PONENS");
    assert("MODUS_PONENS"@.len() != "DOUBLENEGATION_EQUIV"@.len());
    assert(find_by_name(spec_all_rules(), "DOUBLENEGATION_EQUIV"@, 6) == find_by_name(spec_all_rules(), "DOUBLENEGATION_EQUIV"@, 7));
    reveal_strlit("PROOF_BY_CONTRADICTION");
    assert("PROOF_BY_CONTRADICTION"@.len() != "DOUBLENEGATION_EQUIV"@.len());
    assert(find_by_name(spec_all_rules(), "DOUBLENEGATION_EQUIV"@, 7) == find_by_name(spec_all_rules(), "DOUBLENEGATION_EQUIV"@, 8));
    reveal_strlit("DOUBLENEGATION");
    assert("DOUBLENEGATION"@.len() != "DOUBLENEGATION_EQUIV"@.len());
    assert(find_by_name(spec_all_rules(), "DOUBLENEGATION_EQUIV"@, 8) == find_by_name(spec_all_rules(), "DOUBLENEGATION_EQUIV"@, 9));
    reveal_strlit("CONTRADICTION");
    assert("CONTRADICTION"@.len() != "DOUBLENEGATION_EQUIV"@.len());
    assert(find_by_name(spec_all_rules(), "DOUBLENEGATION_EQUIV"@, 9) == find_by_name(spec_all_rules(), "DOUBLENEGATION_EQUIV"@, 10));
    reveal_strlit("PRINCIPLE_OF_EXPLOSION");
    assert("PRINCIPLE_OF_EXPLOSION"@.len() != "DOUBLENEGATION_EQUIV"@.len());
    assert(find_by_name(spec_all_rules(), "DOUBLENEGATION_EQUIV"@, 10) == find_by_name(spec_all_rules(), "DOUBLENEGATION_EQUIV"@, 11));
    reveal_strlit("BICONDITIONAL_INTRO");
    assert("BICONDITIONAL_INTRO"@.len() != "DOUBLENEGATION_EQUIV"@.len());
    assert(find_by_name(spec_all_rules(), "DOUBLENEGATION_EQUIV"@, 11) == find_by_name(spec_all_rules(), "DOUBLENEGATION_EQUIV"@, 12));
    reveal_strlit("BICONDITIONAL_ELIM");
    assert("BICONDITIONAL_ELIM"@.len() != "DOUBLENEGATION_EQUIV"@.len());
    assert(find_by_name(spec_all_rules(), "DOUBLENEGATION_EQUIV"@, 12) == find_by_name(spec_all_rules(), "DOUBLENEGATION_EQUIV"@, 13));
    reveal_strlit("EQUIVALENCE_INTRO");
    assert("EQUIVALENCE_INTRO"@.len() != "DOUBLENEGATION_EQUIV"@.len());
    assert(find_by_name(spec_all_rules(), "DOUBLENEGATION_EQUIV"@, 13) == find_by_name(spec_all_rules(), "DOUBLENEGATION_EQUIV"@, 14));
    reveal_strlit("EQUIVALENCE_ELIM");
    assert("EQUIVALENCE_ELIM"@.len() != "DOUBLENEGATION_EQUIV"@.len());
    assert(find_by_name(spec_all_rules(), "DOUBLENEGATION_EQUIV"@, 14) == find_by_name(spec_all_rules(), "DOUBLENEGATION_EQUIV"@, 15));
    reveal_strlit("UNIVERSAL_GENERALIZATION");
    assert("UNIVERSAL_GENERALIZATION"@.len() != "DOUBLENEGATION_EQUIV"@.len());
    assert(find_by_name(spec_all_rules(), "DOUBLENEGATION_EQUIV"@, 15) == find_by_name(spec_all_rules(), "DOUBLENEGATION_EQUIV"@, 16));
    reveal_strlit("UNIVERSAL_INSTANTIATION");
    assert("UNIVERSAL_INSTANTIATION"@.len() != "DOUBLENEGATION_EQUIV"@.len());
    assert(find_by_name(spec_all_rules(), "DOUBLENEGATION_EQUIV"@, 16) == find_by_name(spec_all_rules(), "DOUBLENEGATION_EQUIV"@, 17));
    reveal_strlit("EXISTENTIAL_GENERALIZATION");
    assert("EXISTENTIAL_GENERALIZATION"@.len() != "DOUBLENEGATION_EQUIV"@.len());
    assert(find_by_name(spec_all_rules(), "DOUBLENEGATION_EQUIV"@, 17) == find_by_name(spec_all_rules(), "DOUBLENEGATION_EQUIV"@, 18));
    reveal_strlit("EXISTENTIAL_INSTANTIATION");
    assert("EXISTENTIAL_INSTANTIATION"@.len() != "DOUBLENEGATION_EQUIV"@.len());
    assert(find_by_name(spec_all_rules(), "DOUBLENEGATION_EQUIV"@, 18) == find_by_name(spec_all_rules(), "DOUBLENEGATION_EQUIV"@, 19));
    reveal_strlit("MODUS_TOLLENS");
    assert("MODUS_TOLLENS"@.len() != "DOUBLENEGATION_EQUIV"@.len());
    assert(find_by_name(spec_all_rules(), "DOUBLENEGATION_EQUIV"@, 19) == find_by_name(spec_all_rules(), "DOUBLENEGATION_EQUIV"@, 20));
    reveal_strlit("HYPOTHETICAL_SYLLOGISM");
    assert("HYPOTHETICAL_SYLLOGISM"@.len() != "DOUBLENEGATION_EQUIV"@.len());
    assert(find_by_name(spec_all_rules(), "DOUBLENEGATION_EQUIV"@, 20) == find_by_name(spec_all_rules(), "DOUBLENEGATION_EQUIV"@, 21));
    reveal_strlit("EXCLUDED_MIDDLE");
    assert("EXCLUDED_MIDDLE"@.len() != "DOUBLENEGATION_EQUIV"@.len());
    assert(find_by_name(spec_all_rules(), "DOUBLENEGATION_EQUIV"@, 21) == find_by_name(spec_all_rules(), "DOUBLENEGATION_EQUIV"@, 22));
    reveal_strlit("CONSTRUCTIVE_DILEMMA");
    assert("CONSTRUCTIVE_DILEMMA"@[0] != "DOUBLENEGATION_EQUIV"@[0]);
    assert(find_by_name(spec_all_rules(), "DOUBLENEGATION_EQUIV"@, 22) == find_by_name(spec_all_rules(), "DOUBLENEGATION_EQUIV"@, 23));
    reveal_strlit("ASSOCIATION");
    assert("ASSOCIATION"@.len() != "DOUBLENEGATION_EQUIV"@.len());
    assert(find_by_name(spec_all_rules(), "DOUBLENEGATION_EQUIV"@, 23) == find_by_name(spec_all_rules(), "DOUBLENEGATION_EQUIV"@, 24));
    reveal_strlit("COMMUTATION");
    assert("COMMUTATION"@.len() != "DOUBLENEGATION_EQUIV"@.len());
    assert(find_by_name(spec_all_rules(), "DOUBLENEGATION_EQUIV"@, 24) == find_by_name(spec_all_rules(), "DOUBLENEGATION_EQUIV"@, 25));
    reveal_strlit("IDEMPOTENCE");
    assert("IDEMPOTENCE"@.len() != "DOUBLENEGATION_EQUIV"@.len());
    assert(find_by_name(spec_all_rules(), "DOUBLENEGATION_EQUIV"@, 25) == find_by_name(spec_all_rules(), "DOUBLENEGATION_EQUIV"@, 26));
    reveal_strlit("DE_MORGAN");
    assert("DE_MORGAN"@.len() != "DOUBLENEGATION_EQUIV"@.len());
    assert(find_by_name(spec_all_rules(), "DOUBLENEGATION_EQUIV"@, 26) == find_by_name(spec_all_rules(), "DOUBLENEGATION_EQUIV"@, 27));
    reveal_strlit("DISTRIBUTION");
    assert("DISTRIBUTION"@.len() != "DOUBLENEGATION_EQUIV"@.len());
    assert(find_by_name(spec_all_rules(), "DOUBLENEGATION_EQUIV"@, 27) == find_by_name(spec_all_rules(), "DOUBLENEGATION_EQUIV"@, 28));
    assert(find_by_name(spec_all_rules(), "DOUBLENEGATION_EQUIV"@, 28) == Some(Rule::Boolean(BooleanEquivalence::DoubleNegation)));
}

proof fn lemma_finds_complement()
    ensures
        find_by_name(spec_all_rules(), "COMPLEMENT"@, 0) == Some(Rule::Boolean(BooleanEquivalence::Complement)),
{
    reveal_strlit("COMPLEMENT");
    reveal_strlit("REITERATION");
    assert("REITERATION"@.len() != "COMPLEMENT"@.len());
    assert(find_by_name(spec_all_rules(), "COMPLEMENT"@, 0) == find_by_name(spec_all_rules(), "COMPLEMENT"@, 1));
    reveal_strlit("CONJUNCTION");
    assert("CONJUNCTION"@.len() != "COMPLEMENT"@.len());
    assert(find_by_name(spec_all_rules(), "COMPLEMENT"@, 1) == find_by_name(spec_all_rules(), "COMPLEMENT"@, 2));
    reveal_strlit("SIMPLIFICATION");
    assert("SIMPLIFICATION"@.len() != "COMPLEMENT"@.len());
    assert(find_by_name(spec_all_rules(), "COMPLEMENT"@, 2) == find_by_name(spec_all_rules(), "COMPLEMENT"@, 3));
    reveal_strlit("ADDITION");
    assert("ADDITION"@.len() != "COMPLEMENT"@.len());
    assert(find_by_name(spec_all_rules(), "COMPLEMENT"@, 3) == find_by_name(spec_all_rules(), "COMPLEMENT"@, 4));
    reveal_strlit("DISJUNCTIVE_SYLLOGISM");
    assert("DISJUNCTIVE_SYLLOGISM"@.len() != "COMPLEMENT"@.len());
    assert(find_by_name(spec_all_rules(), "COMPLEMENT"@, 4) == find_by_name(spec_all_rules(), "COMPLEMENT"@, 5));
    reveal_strlit("CONDITIONAL_PROOF");
    assert("CONDITIONAL_PROOF"@.len() != "COMPLEMENT"@.len());
    assert(find_by_name(spec_all_rules(), "COMPLEMENT"@, 5) == find_by_name(spec_all_rules(), "COMPLEMENT"@, 6));
    reveal_strlit("MODUS_PONENS");
    assert("MODUS_PONENS"@.len() != "COMPLEMENT"@.len());
    assert(find_by_name(spec_all_rules(), "COMPLEMENT"@, 6) == find_by_name(spec_all_rules(), "COMPLEMENT"@, 7));
    reveal_strlit("PROOF_BY_CONTRADICTION");
    assert("PROOF_BY_CONTRADICTION"@.len() != "COMPLEMENT"@.len());
    assert(find_by_name(spec_all_rules(), "COMPLEMENT"@, 7) == find_by_name(spec_all_rules(), "COMPLEMENT"@, 8));
    reveal_strlit("DOUBLENEGATION");
    assert("DOUBLENEGATION"@.len() != "COMPLEMENT"@.len());
    assert(find_by_name(spec_all_rules(), "COMPLEMENT"@, 8) == find_by_name(spec_all_rules(), "COMPLEMENT"@, 9));
    reveal_strlit("CONTRADICTION");
    assert("CONTRADICTION"@.len() != "COMPLEMENT"@.len());
    assert(find_by_name(spec_all_rules(), "COMPLEMENT"@, 9) == find_by_name(spec_all_rules(), "COMPLEMENT"@, 10));
    reveal_strlit("PRINCIPLE_OF_EXPLOSION");
    assert("PRINCIPLE_OF_EXPLOSION"@.len() != "COMPLEMENT"@.len());
    assert(find_by_name(spec_all_rules(), "COMPLEMENT"@, 10) == find_by_name(spec_all_rules(), "COMPLEMENT"@, 11));
    reveal_strlit("BICONDITIONAL_INTRO");
    assert("BICONDITIONAL_INTRO"@.len() != "COMPLEMENT"@.len());
    assert(find_by_name(spec_all_rules(), "COMPLEMENT"@, 11) == find_by_name(spec_all_rules(), "COMPLEMENT"@, 12));
    reveal_strlit("BICONDITIONAL_ELIM");
    assert("BICONDITIONAL_ELIM"@.len() != "COMPLEMENT"@.len());
    assert(find_by_name(spec_all_rules(), "COMPLEMENT"@, 12) == find_by_name(spec_all_rules(), "COMPLEMENT"@, 13));
    reveal_strlit("EQUIVALENCE_INTRO");
    assert("EQUIVALENCE_INTRO"@.len() != "COMPLEMENT"@.len());
    assert(find_by_name(spec_all_rules(), "COMPLEMENT"@, 13) == find_by_name(spec_all_rules(), "COMPLEMENT"@, 14));
    reveal_strlit("EQUIVALENCE_ELIM");
    assert("EQUIVALENCE_ELIM"@.len() != "COMPLEMENT"@.len());
    assert(find_by_name(spec_all_rules(), "COMPLEMENT"@, 14) == find_by_name(spec_all_rules(), "COMPLEMENT"@, 15));
    reveal_strlit("UNIVERSAL_GENERALIZATION");
    assert("UNIVERSAL_GENERALIZATION"@.len() != "COMPLEMENT"@.len());
    assert(find_by_name(spec_all_rules(), "COMPLEMENT"@, 15) == find_by_name(spec_all_rules(), "COMPLEMENT"@, 16));
    reveal_strlit("UNIVERSAL_INSTANTIATION");
    assert("UNIVERSAL_INSTANTIATION"@.len() != "COMPLEMENT"@.len());
    assert(find_by_name(spec_all_rules(), "COMPLEMENT"@, 16) == find_by_name(spec_all_rules(), "COMPLEMENT"@, 17));
    reveal_strlit("EXISTENTIAL_GENERALIZATION");
    assert("EXISTENTIAL_GENERALIZATION"@.len() != "COMPLEMENT"@.len());
    assert(find_by_name(spec_all_rules(), "COMPLEMENT"@, 17) == find_by_name(spec_all_rules(), "COMPLEMENT"@, 18));
    reveal_strlit("EXISTENTIAL_INSTANTIATION");
    assert("EXISTENTIAL_INSTANTIATION"@.len() != "COMPLEMENT"@.len());
    assert(find_by_name(spec_all_rules(), "COMPLEMENT"@, 18) == find_by_name(spec_all_rules(), "COMPLEMENT"@, 19));
    reveal_strlit("MODUS_TOLLENS");
    assert("MODUS_TOLLENS"@.len() != "COMPLEMENT"@.len());
    assert(find_by_name(spec_all_rules(), "COMPLEMENT"@, 19) == find_by_name(spec_all_rules(), "COMPLEMENT"@, 20));
    reveal_strlit("HYPOTHETICAL_SYLLOGISM");
    assert("HYPOTHETICAL_SYLLOGISM"@.len() != "COMPLEMENT"@.len());
    assert(find_by_name(spec_all_rules(), "COMPLEMENT"@, 20) == find_by_name(spec_all_rules(), "COMPLEMENT"@, 21));
    reveal_strlit("EXCLUDED_MIDDLE");
    assert("EXCLUDED_MIDDLE"@.len() != "COMPLEMENT"@.len());
    assert(find_by_name(spec_all_rules(), "COMPLEMENT"@, 21) == find_by_name(spec_all_rules(), "COMPLEMENT"@, 22));
    reveal_strlit("CONSTRUCTIVE_DILEMMA");
    assert("CONSTRUCTIVE_DILEMMA"@.len() != "COMPLEMENT"@.len());
    assert(find_by_name(spec_all_rules(), "COMPLEMENT"@, 22) == find_by_name(spec_all_rules(), "COMPLEMENT"@, 23));
    reveal_strlit("ASSOCIATION");
    assert("ASSOCIATION"@.len() != "COMPLEMENT"@.len());
    assert(find_by_name(spec_all_rules(), "COMPLEMENT"@, 23) == find_by_name(spec_all_rules(), "COMPLEMENT"@, 24));
    reveal_strlit("COMMUTATION");
    assert("COMMUTATION"@.len() != "COMPLEMENT"@.len());
    assert(find_by_name(spec_all_rules(), "COMPLEMENT"@, 24) == find_by_name(spec_all_rules(), "COMPLEMENT"@, 25));
    reveal_strlit("IDEMPOTENCE");
    assert("IDEMPOTENCE"@.len() != "COMPLEMENT"@.len());
    assert(find_by_name(spec_all_rules(), "COMPLEMENT"@, 25) == find_by_name(spec_all_rules(), "COMPLEMENT"@, 26));
    reveal_strlit("DE_MORGAN");
    assert("DE_MORGAN"@.len() != "COMPLEMENT"@.len());
    assert(find_by_name(spec_all_rules(), "COMPLEMENT"@, 26) == find_by_name(spec_all_rules(), "COMPLEMENT"@, 27));
    reveal_strlit("DISTRIBUTION");
    assert("DISTRIBUTION"@.len() != "COMPLEMENT"@.len());
    assert(find_by_name(spec_all_rules(), "COMPLEMENT"@, 27) == find_by_name(spec_all_rules(), "COMPLEMENT"@, 28));
    reveal_strlit("DOUBLENEGATION_EQUIV");
    assert("DOUBLENEGATION_EQUIV"@.len() != "COMPLEMENT"@.len());
    assert(find_by_name(spec_all_rules(), "COMPLEMENT"@, 28) == find_by_name(spec_all_rules(), "COMPLEMENT"@, 29));
    assert(find_by_name(spec_all_rules(), "COMPLEMENT"@, 29) == Some(Rule::Boolean(BooleanEquivalence::Complement)));
}

proof fn lemma_finds_identity()
    ensures
        find_by_name(spec_all_rules(), "IDENTITY"@, 0) == Some(Rule::Boolean(BooleanEquivalence::Identity)),
{
    reveal_strlit("IDENTITY");
    reveal_strlit("REITERATION");
    assert("REITERATION"@.len() != "IDENTITY"@.len());
    assert(find_by_name(spec_all_rules(), "IDENTITY"@, 0) == find_by_name(spec_all_rules(), "IDENTITY"@, 1));
    reveal_strlit("CONJUNCTION");
    assert("CONJUNCTION"@.len() != "IDENTITY"@.len());
    assert(find_by_name(spec_all_rules(), "IDENTITY"@, 1) == find_by_name(spec_all_rules(), "IDENTITY"@, 2));
    reveal_strlit("SIMPLIFICATION");
    assert("SIMPLIFICATION"@.len() != "IDENTITY"@.len());
    assert(find_by_name(spec_all_rules(), "IDENTITY"@, 2) == find_by_name(spec_all_rules(), "IDENTITY"@, 3));
    reveal_strlit("ADDITION");
    assert("ADDITION"@[0] != "IDENTITY"@[0]);
    assert(find_by_name(spec_all_rules(), "IDENTITY"@, 3) == find_by_name(spec_all_rules(), "IDENTITY"@, 4));
    reveal_strlit("DISJUNCTIVE_SYLLOGISM");
    assert("DISJUNCTIVE_SYLLOGISM"@.len() != "IDENTITY"@.len());
    assert(find_by_name(spec_all_rules(), "IDENTITY"@, 4) == find_by_name(spec_all_rules(), "IDENTITY"@, 5));
    reveal_strlit("CONDITIONAL_PROOF");
    assert("CONDITIONAL_PROOF"@.len() != "IDENTITY"@.len());
    assert(find_by_name(spec_all_rules(), "IDENTITY"@, 5) == find_by_name(spec_all_rules(), "IDENTITY"@, 6));
    reveal_strlit("MODUS_PONENS");
    assert("MODUS_PONENS"@.len() != "IDENTITY"@.len());
    assert(find_by_name(spec_all_rules(), "IDENTITY"@, 6) == find_by_name(spec_all_rules(), "IDENTITY"@, 7));
    reveal_strlit("PROOF_BY_CONTRADICTION");
    assert("PROOF_BY_CONTRADICTION"@.len() != "IDENTITY"@.len());
    assert(find_by_name(spec_all_rules(), "IDENTITY"@, 7) == find_by_name(spec_all_rules(), "IDENTITY"@, 8));
    reveal_strlit("DOUBLENEGATION");
    assert("DOUBLENEGATION"@.len() != "IDENTITY"@.len());
    assert(find_by_name(spec_all_rules(), "IDENTITY"@, 8) == find_by_name(spec_all_rules(), "IDENTITY"@, 9));
    reveal_strlit("CONTRADICTION");
    assert("CONTRADICTION"@.len() != "IDENTITY"@.len());
    assert(find_by_name(spec_all_rules(), "IDENTITY"@, 9) == find_by_name(spec_all_rules(), "IDENTITY"@, 10));
    reveal_strlit("PRINCIPLE_OF_EXPLOSION");
    assert("PRINCIPLE_OF_EXPLOSION"@.len() != "IDENTITY"@.len());
    assert(find_by_name(spec_all_rules(), "IDENTITY"@, 10) == find_by_name(spec_all_rules(), "IDENTITY"@, 11));
    reveal_strlit("BICONDITIONAL_INTRO");
    assert("BICONDITIONAL_INTRO"@.len() != "IDENTITY"@.len());
    assert(find_by_name(spec_all_rules(), "IDENTITY"@, 11) == find_by_name(spec_all_rules(), "IDENTITY"@, 12));
    reveal_strlit("BICONDITIONAL_ELIM");
    assert("BICONDITIONAL_ELIM"@.len() != "IDENTITY"@.len());
    assert(find_by_name(spec_all_rules(), "IDENTITY"@, 12) == find_by_name(spec_all_rules(), "IDENTITY"@, 13));
    reveal_strlit("EQUIVALENCE_INTRO");
    assert("EQUIVALENCE_INTRO"@.len() != "IDENTITY"@.len());
    assert(find_by_name(spec_all_rules(), "IDENTITY"@, 13) == find_by_name(spec_all_rules(), "IDENTITY"@, 14));
    reveal_strlit("EQUIVALENCE_ELIM");
    assert("EQUIVALENCE_ELIM"@.len() != "IDENTITY"@.len());
    assert(find_by_name(spec_all_rules(), "IDENTITY"@, 14) == find_by_name(spec_all_rules(), "IDENTITY"@, 15));
    reveal_strlit("UNIVERSAL_GENERALIZATION");
    assert("UNIVERSAL_GENERALIZATION"@.len() != "IDENTITY"@.len());
    assert(find_by_name(spec_all_rules(), "IDENTITY"@, 15) == find_by_name(spec_all_rules(), "IDENTITY"@, 16));
    reveal_strlit("UNIVERSAL_INSTANTIATION");
    assert("UNIVERSAL_INSTANTIATION"@.len() != "IDENTITY"@.len());
    assert(find_by_name(spec_all_rules(), "IDENTITY"@, 16) == find_by_name(spec_all_rules(), "IDENTITY"@, 17));
    reveal_strlit("EXISTENTIAL_GENERALIZATION");
    assert("EXISTENTIAL_GENERALIZATION"@.len() != "IDENTITY"@.len());
    assert(find_by_name(spec_all_rules(), "IDENTITY"@, 17) == find_by_name(spec_all_rules(), "IDENTITY"@, 18));
    reveal_strlit("EXISTENTIAL_INSTANTIATION");
    assert("EXISTENTIAL_INSTANTIATION"@.len() != "IDENTITY"@.len());
    assert(find_by_name(spec_all_rules(), "IDENTITY"@, 18) == find_by_name(spec_all_rules(), "IDENTITY"@, 19));
    reveal_strlit("MODUS_TOLLENS");
    assert("MODUS_TOLLENS"@.len() != "IDENTITY"@.len());
    assert(find_by_name(spec_all_rules(), "IDENTITY"@, 19) == find_by_name(spec_all_rules(), "IDENTITY"@, 20));
    reveal_strlit("HYPOTHETICAL_SYLLOGISM");
    assert("HYPOTHETICAL_SYLLOGISM"@.len() != "IDENTITY"@.len());
    assert(find_by_name(spec_all_rules(), "IDENTITY"@, 20) == find_by_name(spec_all_rules(), "IDENTITY"@, 21));
    reveal_strlit("EXCLUDED_MIDDLE");
    assert("EXCLUDED_MIDDLE"@.len() != "IDENTITY"@.len());
    assert(find_by_name(spec_all_rules(), "IDENTITY"@, 21) == find_by_name(spec_all_rules(), "IDENTITY"@, 22));
    reveal_strlit("CONSTRUCTIVE_DILEMMA");
    assert("CONSTRUCTIVE_DILEMMA"@.len() != "IDENTITY"@.len());
    assert(find_by_name(spec_all_rules(), "IDENTITY"@, 22) == find_by_name(spec_all_rules(), "IDENTITY"@, 23));
    reveal_strlit("ASSOCIATION");
    assert("ASSOCIATION"@.len() != "IDENTITY"@.len());
    assert(find_by_name(spec_all_rules(), "IDENTITY"@, 23) == find_by_name(spec_all_rules(), "IDENTITY"@, 24));
    reveal_strlit("COMMUTATION");
    assert("COMMUTATION"@.len() != "IDENTITY"@.len());
    assert(find_by_name(spec_all_rules(), "IDENTITY"@, 24) == find_by_name(spec_all_rules(), "IDENTITY"@, 25));
    reveal_strlit("IDEMPOTENCE");
    assert("IDEMPOTENCE"@.len() != "IDENTITY"@.len());
    assert(find_by_name(spec_all_rules(), "IDENTITY"@, 25) == find_by_name(spec_all_rules(), "IDENTITY"@, 26));
    reveal_strlit("DE_MORGAN");
    assert("DE_MORGAN"@.len() != "IDENTITY"@.len());
    assert(find_by_name(spec_all_rules(), "IDENTITY"@, 26) == find_by_name(spec_all_rules(), "IDENTITY"@, 27));
    reveal_strlit("DISTRIBUTION");
    assert("DISTRIBUTION"@.len() != "IDENTITY"@.len());
    assert(find_by_name(spec_all_rules(), "IDENTITY"@, 27) == find_by_name(spec_all_rules(), "IDENTITY"@, 28));
    reveal_strlit("DOUBLENEGATION_EQUIV");
    assert("DOUBLENEGATION_EQUIV"@.len() != "IDENTITY"@.len());
    assert(find_by_name(spec_all_rules(), "IDENTITY"@, 28) == find_by_name(spec_all_rules(), "IDENTITY"@, 29));
    reveal_strlit("COMPLEMENT");
    assert("COMPLEMENT"@.len() != "IDENTITY"@.len());
    assert(find_by_name(spec_all_rules(), "IDENTITY"@, 29) == find_by_name(spec_all_rules(), "IDENTITY"@, 30));
    assert(find_by_name(spec_all_rules(), "IDENTITY"@, 30) == Some(Rule::Boolean(BooleanEquivalence::Identity)));
}

proof fn lemma_finds_annihilation()
    ensures
        find_by_name(spec_all_rules(), "ANNIHILATION"@, 0) == Some(Rule::Boolean(BooleanEquivalence::Annihilation)),
{
    reveal_strlit("ANNIHILATION");
    reveal_strlit("REITERATION");
    assert("REITERATION"@.len() != "ANNIHILATION"@.len());
    assert(find_by_name(spec_all_rules(), "ANNIHILATION"@, 0) == find_by_name(spec_all_rules(), "ANNIHILATION"@, 1));
    reveal_strlit("CONJUNCTION");
    assert("CONJUNCTION"@.len() != "ANNIHILATION"@.len());
    assert(find_by_name(spec_all_rules(), "ANNIHILATION"@, 1) == find_by_name(spec_all_rules(), "ANNIHILATION"@, 2));
    reveal_strlit("SIMPLIFICATION");
    assert("SIMPLIFICATION"@.len() != "ANNIHILATION"@.len());
    assert(find_by_name(spec_all_rules(), "ANNIHILATION"@, 2) == find_by_name(spec_all_rules(), "ANNIHILATION"@, 3));
    reveal_strlit("ADDITION");
    assert("ADDITION"@.len() != "ANNIHILATION"@.len());
    assert(find_by_name(spec_all_rules(), "ANNIHILATION"@, 3) == find_by_name(spec_all_rules(), "ANNIHILATION"@, 4));
    reveal_strlit("DISJUNCTIVE_SYLLOGISM");
    assert("DISJUNCTIVE_SYLLOGISM"@.len() != "ANNIHILATION"@.len());
    assert(find_by_name(spec_all_rules(), "ANNIHILATION"@, 4) == find_by_name(spec_all_rules(), "ANNIHILATION"@, 5));
    reveal_strlit("CONDITIONAL_PROOF");
    assert("CONDITIONAL_PROOF"@.len() != "ANNIHILATION"@.len());
    assert(find_by_name(spec_all_rules(), "ANNIHILATION"@, 5) == find_by_name(spec_all_rules(), "ANNIHILATION"@, 6));
    reveal_strlit("MODUS_PONENS");
    assert("MODUS_PONENS"@[0] != "ANNIHILATION"@[0]);
    assert(find_by_name(spec_all_rules(), "ANNIHILATION"@, 6) == find_by_name(spec_all_rules(), "ANNIHILATION"@, 7));
    reveal_strlit("PROOF_BY_CONTRADICTION");
    assert("PROOF_BY_CONTRADICTION"@.len() != "ANNIHILATION"@.len());
    assert(find_by_name(spec_all_rules(), "ANNIHILATION"@, 7) == find_by_name(spec_all_rules(), "ANNIHILATION"@, 8));
    reveal_strlit("DOUBLENEGATION");
    assert("DOUBLENEGATION"@.len() != "ANNIHILATION"@.len());
    assert(find_by_name(spec_all_rules(), "ANNIHILATION"@, 8) == find_by_name(spec_all_rules(), "ANNIHILATION"@, 9));
    reveal_strlit("CONTRADICTION");
    assert("CONTRADICTION"@.len() != "ANNIHILATION"@.len());
    assert(find_by_name(spec_all_rules(), "ANNIHILATION"@, 9) == find_by_name(spec_all_rules(), "ANNIHILATION"@, 10));
    reveal_strlit("PRINCIPLE_OF_EXPLOSION");
    assert("PRINCIPLE_OF_EXPLOSION"@.len() != "ANNIHILATION"@.len());
    assert(find_by_name(spec_all_rules(), "ANNIHILATION"@, 10) == find_by_name(spec_all_rules(), "ANNIHILATION"@, 11));
    reveal_strlit("BICONDITIONAL_INTRO");
    assert("BICONDITIONAL_INTRO"@.len() != "ANNIHILATION"@.len());
    assert(find_by_name(spec_all_rules(), "ANNIHILATION"@, 11) == find_by_name(spec_all_rules(), "ANNIHILATION"@, 12));
    reveal_strlit("BICONDITIONAL_ELIM");
    assert("BICONDITIONAL_ELIM"@.len() != "ANNIHILATION"@.len());
    assert(find_by_name(spec_all_rules(), "ANNIHILATION"@, 12) == find_by_name(spec_all_rules(), "ANNIHILATION"@, 13));
    reveal_strlit("EQUIVALENCE_INTRO");
    assert("EQUIVALENCE_INTRO"@.len() != "ANNIHILATION"@.len());
    assert(find_by_name(spec_all_rules(), "ANNIHILATION"@, 13) == find_by_name(spec_all_rules(), "ANNIHILATION"@, 14));
    reveal_strlit("EQUIVALENCE_ELIM");
    assert("EQUIVALENCE_ELIM"@.len() != "ANNIHILATION"@.len());
    assert(find_by_name(spec_all_rules(), "ANNIHILATION"@, 14) == find_by_name(spec_all_rules(), "ANNIHILATION"@, 15));
    reveal_strlit("UNIVERSAL_GENERALIZATION");
    assert("UNIVERSAL_GENERALIZATION"@.len() != "ANNIHILATION"@.len());
    assert(find_by_name(spec_all_rules(), "ANNIHILATION"@, 15) == find_by_name(spec_all_rules(), "ANNIHILATION"@, 16));
    reveal_strlit("UNIVERSAL_INSTANTIATION");
    assert("UNIVERSAL_INSTANTIATION"@.len() != "ANNIHILATION"@.len());
    assert(find_by_name(spec_all_rules(), "ANNIHILATION"@, 16) == find_by_name(spec_all_rules(), "ANNIHILATION"@, 17));
    reveal_strlit("EXISTENTIAL_GENERALIZATION");
    assert("EXISTENTIAL_GENERALIZATION"@.len() != "ANNIHILATION"@.len());
    assert(find_by_name(spec_all_rules(), "ANNIHILATION"@, 17) == find_by_name(spec_all_rules(), "ANNIHILATION"@, 18));
    reveal_strlit("EXISTENTIAL_INSTANTIATION");
    assert("EXISTENTIAL_INSTANTIATION"@.len() != "ANNIHILATION"@.len());
    assert(find_by_name(spec_all_rules(), "ANNIHILATION"@, 18) == find_by_name(spec_all_rules(), "ANNIHILATION"@, 19));
    reveal_strlit("MODUS_TOLLENS");
    assert("MODUS_TOLLENS"@.len() != "ANNIHILATION"@.len());
    assert(find_by_name(spec_all_rules(), "ANNIHILATION"@, 19) == find_by_name(spec_all_rules(), "ANNIHILATION"@, 20));
    reveal_strlit("HYPOTHETICAL_SYLLOGISM");
    assert("HYPOTHETICAL_SYLLOGISM"@.len() != "ANNIHILATION"@.len());
    assert(find_by_name(spec_all_rules(), "ANNIHILATION"@, 20) == find_by_name(spec_all_rules(), "ANNIHILATION"@, 21));
    reveal_strlit("EXCLUDED_MIDDLE");
    assert("EXCLUDED_MIDDLE"@.len() != "ANNIHILATION"@.len());
    assert(find_by_name(spec_all_rules(), "ANNIHILATION"@, 21) == find_by_name(spec_all_rules(), "ANNIHILATION"@, 22));
    reveal_strlit("CONSTRUCTIVE_DILEMMA");
    assert("CONSTRUCTIVE_DILEMMA"@.len() != "ANNIHILATION"@.len());
    assert(find_by_name(spec_all_rules(), "ANNIHILATION"@, 22) == find_by_name(spec_all_rules(), "ANNIHILATION"@, 23));
    reveal_strlit("ASSOCIATION");
    assert("ASSOCIATION"@.len() != "ANNIHILATION"@.len());
    assert(find_by_name(spec_all_rules(), "ANNIHILATION"@, 23) == find_by_name(spec_all_rules(), "ANNIHILATION"@, 24));
    reveal_strlit("COMMUTATION");
    assert("COMMUTATION"@.len() != "ANNIHILATION"@.len());
    assert(find_by_name(spec_all_rules(), "ANNIHILATION"@, 24) == find_by_name(spec_all_rules(), "ANNIHILATION"@, 25));
    reveal_strlit("IDEMPOTENCE");
    assert("IDEMPOTENCE"@.len() != "ANNIHILATION"@.len());
    assert(find_by_name(spec_all_rules(), "ANNIHILATION"@, 25) == find_by_name(spec_all_rules(), "ANNIHILATION"@, 26));
    reveal_strlit("DE_MORGAN");
    assert("DE_MORGAN"@.len() != "ANNIHILATION"@.len());
    assert(find_by_name(spec_all_rules(), "ANNIHILATION"@, 26) == find_by_name(spec_all_rules(), "ANNIHILATION"@, 27));
    reveal_strlit("DISTRIBUTION");
    assert("DISTRIBUTION"@[0] != "ANNIHILATION"@[0]);
    assert(find_by_name(spec_all_rules(), "ANNIHILATION"@, 27) == find_by_name(spec_all_rules(), "ANNIHILATION"@, 28));
    reveal_strlit("DOUBLENEGATION_EQUIV");
    assert("DOUBLENEGATION_EQUIV"@.len() != "ANNIHILATION"@.len());
    assert(find_by_name(spec_all_rules(), "ANNIHILATION"@, 28) == find_by_name(spec_all_rules(), "ANNIHILATION"@, 29));
    reveal_strlit("COMPLEMENT");
    assert("COMPLEMENT"@.len() != "ANNIHILATION"@.len());
    assert(find_by_name(spec_all_rules(), "ANNIHILATION"@, 29) == find_by_name(spec_all_rules(), "ANNIHILATION"@, 30));
    reveal_strlit("IDENTITY");
    assert("IDENTITY"@.len() != "ANNIHILATION"@.len());
    assert(find_by_name(spec_all_rules(), "ANNIHILATION"@, 30) == find_by_name(spec_all_rules(), "ANNIHILATION"@, 31));
    assert(find_by_name(spec_all_rules(), "ANNIHILATION"@, 31) == Some(Rule::Boolean(BooleanEquivalence::Annihilation)));
}

proof fn lemma_finds_inverse()
    ensures
        find_by_name(spec_all_rules(), "INVERSE"@, 0) == Some(Rule::Boolean(BooleanEquivalence::Inverse)),
{
    reveal_strlit("INVERSE");
    reveal_strlit("REITERATION");
    assert("REITERATION"@.len() != "INVERSE"@.len());
    assert(find_by_name(spec_all_rules(), "INVERSE"@, 0) == find_by_name(spec_all_rules(), "INVERSE"@, 1));
    reveal_strlit("CONJUNCTION");
    assert("CONJUNCTION"@.len() != "INVERSE"@.len());
    assert(find_by_name(spec_all_rules(), "INVERSE"@, 1) == find_by_name(spec_all_rules(), "INVERSE"@, 2));
    reveal_strlit("SIMPLIFICATION");
    assert("SIMPLIFICATION"@.len() != "INVERSE"@.len());
    assert(find_by_name(spec_all_rules(), "INVERSE"@, 2) == find_by_name(spec_all_rules(), "INVERSE"@, 3));
    reveal_strlit("ADDITION");
    assert("ADDITION"@.len() != "INVERSE"@.len());
    assert(find_by_name(spec_all_rules(), "INVERSE"@, 3) == find_by_name(spec_all_rules(), "INVERSE"@, 4));
    reveal_strlit("DISJUNCTIVE_SYLLOGISM");
    assert("DISJUNCTIVE_SYLLOGISM"@.len() != "INVERSE"@.len());
    assert(find_by_name(spec_all_rules(), "INVERSE"@, 4) == find_by_name(spec_all_rules(), "INVERSE"@, 5));
    reveal_strlit("CONDITIONAL_PROOF");
    assert("CONDITIONAL_PROOF"@.len() != "INVERSE"@.len());
    assert(find_by_name(spec_all_rules(), "INVERSE"@, 5) == find_by_name(spec_all_rules(), "INVERSE"@, 6));
    reveal_strlit("MODUS_PONENS");
    assert("MODUS_PONENS"@.len() != "INVERSE"@.len());
    assert(find_by_name(spec_all_rules(), "INVERSE"@, 6) == find_by_name(spec_all_rules(), "INVERSE"@, 7));
    reveal_strlit("PROOF_BY_CONTRADICTION");
    assert("PROOF_BY_CONTRADICTION"@.len() != "INVERSE"@.len());
    assert(find_by_name(spec_all_rules(), "INVERSE"@, 7) == find_by_name(spec_all_rules(), "INVERSE"@, 8));
    reveal_strlit("DOUBLENEGATION");
    assert("DOUBLENEGATION"@.len() != "INVERSE"@.len());
    assert(find_by_name(spec_all_rules(), "INVERSE"@, 8) == find_by_name(spec_all_rules(), "INVERSE"@, 9));
    reveal_strlit("CONTRADICTION");
    assert("CONTRADICTION"@.len() != "INVERSE"@.len());
    assert(find_by_name(spec_all_rules(), "INVERSE"@, 9) == find_by_name(spec_all_rules(), "INVERSE"@, 10));
    reveal_strlit("PRINCIPLE_OF_EXPLOSION");
    assert("PRINCIPLE_OF_EXPLOSION"@.len() != "INVERSE"@.len());
    assert(find_by_name(spec_all_rules(), "INVERSE"@, 10) == find_by_name(spec_all_rules(), "INVERSE"@, 11));
    reveal_strlit("BICONDITIONAL_INTRO");
    assert("BICONDITIONAL_INTRO"@.len() != "INVERSE"@.len());
    assert(find_by_name(spec_all_rules(), "INVERSE"@, 11) == find_by_name(spec_all_rules(), "INVERSE"@, 12));
    reveal_strlit("BICONDITIONAL_ELIM");
    assert("BICONDITIONAL_ELIM"@.len() != "INVERSE"@.len());
    assert(find_by_name(spec_all_rules(), "INVERSE"@, 12) == find_by_name(spec_all_rules(), "INVERSE"@, 13));
    reveal_strlit("EQUIVALENCE_INTRO");
    assert("EQUIVALENCE_INTRO"@.len() != "INVERSE"@.len());
    assert(find_by_name(spec_all_rules(), "INVERSE"@, 13) == find_by_name(spec_all_rules(), "INVERSE"@, 14));
    reveal_strlit("EQUIVALENCE_ELIM");
    assert("EQUIVALENCE_ELIM"@.len() != "INVERSE"@.len());
    assert(find_by_name(spec_all_rules(), "INVERSE"@, 14) == find_by_name(spec_all_rules(), "INVERSE"@, 15));
    reveal_strlit("UNIVERSAL_GENERALIZATION");
    assert("UNIVERSAL_GENERALIZATION"@.len() != "INVERSE"@.len());
    assert(find_by_name(spec_all_rules(), "INVERSE"@, 15) == find_by_name(spec_all_rules(), "INVERSE"@, 16));
    reveal_strlit("UNIVERSAL_INSTANTIATION");
    assert("UNIVERSAL_INSTANTIATION"@.len() != "INVERSE"@.len());
    assert(find_by_name(spec_all_rules(), "INVERSE"@, 16) == find_by_name(spec_all_rules(), "INVERSE"@, 17));
    reveal_strlit("EXISTENTIAL_GENERALIZATION");
    assert("EXISTENTIAL_GENERALIZATION"@.len() != "INVERSE"@.len());
    assert(find_by_name(spec_all_rules(), "INVERSE"@, 17) == find_by_name(spec_all_rules(), "INVERSE"@, 18));
    reveal_strlit("EXISTENTIAL_INSTANTIATION");
    assert("EXISTENTIAL_INSTANTIATION"@.len() != "INVERSE"@.len());
    assert(find_by_name(spec_all_rules(), "INVERSE"@, 18) == find_by_name(spec_all_rules(), "INVERSE"@, 19));
    reveal_strlit("MODUS_TOLLENS");
    assert("MODUS_TOLLENS"@.len() != "INVERSE"@.len());
    assert(find_by_name(spec_all_rules(), "INVERSE"@, 19) == find_by_name(spec_all_rules(), "INVERSE"@, 20));
    reveal_strlit("HYPOTHETICAL_SYLLOGISM");
    assert("HYPOTHETICAL_SYLLOGISM"@.len() != "INVERSE"@.len());
    assert(find_by_name(spec_all_rules(), "INVERSE"@, 20) == find_by_name(spec_all_rules(), "INVERSE"@, 21));
    reveal_strlit("EXCLUDED_MIDDLE");
    assert("EXCLUDED_MIDDLE"@.len() != "INVERSE"@.len());
    assert(find_by_name(spec_all_rules(), "INVERSE"@, 21) == find_by_name(spec_all_rules(), "INVERSE"@, 22));
    reveal_strlit("CONSTRUCTIVE_DILEMMA");
    assert("CONSTRUCTIVE_DILEMMA"@.len() != "INVERSE"@.len());
    assert(find_by_name(spec_all_rules(), "INVERSE"@, 22) == find_by_name(spec_all_rules(), "INVERSE"@, 23));
    reveal_strlit("ASSOCIATION");
    assert("ASSOCIATION"@.len() != "INVERSE"@.len());
    assert(find_by_name(spec_all_rules(), "INVERSE"@, 23) == find_by_name(spec_all_rules(), "INVERSE"@, 24));
    reveal_strlit("COMMUTATION");
    assert("COMMUTATION"@.len() != "INVERSE"@.len());
    assert(find_by_name(spec_all_rules(), "INVERSE"@, 24) == find_by_name(spec_all_rules(), "INVERSE"@, 25));
    reveal_strlit("IDEMPOTENCE");
    assert("IDEMPOTENCE"@.len() != "INVERSE"@.len());
    assert(find_by_name(spec_all_rules(), "INVERSE"@, 25) == find_by_name(spec_all_rules(), "INVERSE"@, 26));
    reveal_strlit("DE_MORGAN");
    assert("DE_MORGAN"@.len() != "INVERSE"@.len());
    assert(find_by_name(spec_all_rules(), "INVERSE"@, 26) == find_by_name(spec_all_rules(), "INVERSE"@, 27));
    reveal_strlit("DISTRIBUTION");
    assert("DISTRIBUTION"@.len() != "INVERSE"@.len());
    assert(find_by_name(spec_all_rules(), "INVERSE"@, 27) == find_by_name(spec_all_rules(), "INVERSE"@, 28));
    reveal_strlit("DOUBLENEGATION_EQUIV");
    assert("DOUBLENEGATION_EQUIV"@.len() != "INVERSE"@.len());
    assert(find_by_name(spec_all_rules(), "INVERSE"@, 28) == find_by_name(spec_all_rules(), "INVERSE"@, 29));
    reveal_strlit("COMPLEMENT");
    assert("COMPLEMENT"@.len() != "INVERSE"@.len());
    assert(find_by_name(spec_all_rules(), "INVERSE"@, 29) == find_by_name(spec_all_rules(), "INVERSE"@, 30));
    reveal_strlit("IDENTITY");
    assert("IDENTITY"@.len() != "INVERSE"@.len());
    assert(find_by_name(spec_all_rules(), "INVERSE"@, 30) == find_by_name(spec_all_rules(), "INVERSE"@, 31));
    reveal_strlit("ANNIHILATION");
    assert("ANNIHILATION"@.len() != "INVERSE"@.len());
    assert(find_by_name(spec_all_rules(), "INVERSE"@, 31) == find_by_name(spec_all_rules(), "INVERSE"@, 32));
    assert(find_by_name(spec_all_rules(), "INVERSE"@, 32) == Some(Rule::Boolean(BooleanEquivalence::Inverse)));
}

proof fn lemma_finds_absorption()
    ensures
        find_by_name(spec_all_rules(), "ABSORPTION"@, 0) == Some(Rule::Boolean(BooleanEquivalence::Absorption)),
{
    reveal_strlit("ABSORPTION");
    reveal_strlit("REITERATION");
    assert("REITERATION"@.len() != "ABSORPTION"@.len());
    assert(find_by_name(spec_all_rules(), "ABSORPTION"@, 0) == find_by_name(spec_all_rules(), "ABSORPTION"@, 1));
    reveal_strlit("CONJUNCTION");
    assert("CONJUNCTION"@.len() != "ABSORPTION"@.len());
    assert(find_by_name(spec_all_rules(), "ABSORPTION"@, 1) == find_by_name(spec_all_rules(), "ABSORPTION"@, 2));
    reveal_strlit("SIMPLIFICATION");
    assert("SIMPLIFICATION"@.len() != "ABSORPTION"@.len());
    assert(find_by_name(spec_all_rules(), "ABSORPTION"@, 2) == find_by_name(spec_all_rules(), "ABSORPTION"@, 3));
    reveal_strlit("ADDITION");
    assert("ADDITION"@.len() != "ABSORPTION"@.len());
    assert(find_by_name(spec_all_rules(), "ABSORPTION"@, 3) == find_by_name(spec_all_rules(), "ABSORPTION"@, 4));
    reveal_strlit("DISJUNCTIVE_SYLLOGISM");
    assert("DISJUNCTIVE_SYLLOGISM"@.len() != "ABSORPTION"@.len());
    assert(find_by_name(spec_all_rules(), "ABSORPTION"@, 4) == find_by_name(spec_all_rules(), "ABSORPTION"@, 5));
    reveal_strlit("CONDITIONAL_PROOF");
    assert("CONDITIONAL_PROOF"@.len() != "ABSORPTION"@.len());
    assert(find_by_name(spec_all_rules(), "ABSORPTION"@, 5) == find_by_name(spec_all_rules(), "ABSORPTION"@, 6));
    reveal_strlit("MODUS_PONENS");
    assert("MODUS_PONENS"@.len() != "ABSORPTION"@.len());
    assert(find_by_name(spec_all_rules(), "ABSORPTION"@, 6) == find_by_name(spec_all_rules(), "ABSORPTION"@, 7));
    reveal_strlit("PROOF_BY_CONTRADICTION");
    assert("PROOF_BY_CONTRADICTION"@.len() != "ABSORPTION"@.len());
    assert(find_by_name(spec_all_rules(), "ABSORPTION"@, 7) == find_by_name(spec_all_rules(), "ABSORPTION"@, 8));
    reveal_strlit("DOUBLENEGATION");
    assert("DOUBLENEGATION"@.len() != "ABSORPTION"@.len());
    assert(find_by_name(spec_all_rules(), "ABSORPTION"@, 8) == find_by_name(spec_all_rules(), "ABSORPTION"@, 9));
    reveal_strlit("CONTRADICTION");
    assert("CONTRADICTION"@.len() != "ABSORPTION"@.len());
    assert(find_by_name(spec_all_rules(), "ABSORPTION"@, 9) == find_by_name(spec_all_rules(), "ABSORPTION"@, 10));
    reveal_strlit("PRINCIPLE_OF_EXPLOSION");
    assert("PRINCIPLE_OF_EXPLOSION"@.len() != "ABSORPTION"@.len());
    assert(find_by_name(spec_all_rules(), "ABSORPTION"@, 10) == find_by_name(spec_all_rules(), "ABSORPTION"@, 11));
    reveal_strlit("BICONDITIONAL_INTRO");
    assert("BICONDITIONAL_INTRO"@.len() != "ABSORPTION"@.len());
    assert(find_by_name(spec_all_rules(), "ABSORPTION"@, 11) == find_by_name(spec_all_rules(), "ABSORPTION"@, 12));
    reveal_strlit("BICONDITIONAL_ELIM");
    assert("BICONDITIONAL_ELIM"@.len() != "ABSORPTION"@.len());
    assert(find_by_name(spec_all_rules(), "ABSORPTION"@, 12) == find_by_name(spec_all_rules(), "ABSORPTION"@, 13));
    reveal_strlit("EQUIVALENCE_INTRO");
    assert("EQUIVALENCE_INTRO"@.len() != "ABSORPTION"@.len());
    assert(find_by_name(spec_all_rules(), "ABSORPTION"@, 13) == find_by_name(spec_all_rules(), "ABSORPTION"@, 14));
    reveal_strlit("EQUIVALENCE_ELIM");
    assert("EQUIVALENCE_ELIM"@.len() != "ABSORPTION"@.len());
    assert(find_by_name(spec_all_rules(), "ABSORPTION"@, 14) == find_by_name(spec_all_rules(), "ABSORPTION"@, 15));
    reveal_strlit("UNIVERSAL_GENERALIZATION");
    assert("UNIVERSAL_GENERALIZATION"@.len() != "ABSORPTION"@.len());
    assert(find_by_name(spec_all_rules(), "ABSORPTION"@, 15) == find_by_name(spec_all_rules(), "ABSORPTION"@, 16));
    reveal_strlit("UNIVERSAL_INSTANTIATION");
    assert("UNIVERSAL_INSTANTIATION"@.len() != "ABSORPTION"@.len());
    assert(find_by_name(spec_all_rules(), "ABSORPTION"@, 16) == find_by_name(spec_all_rules(), "ABSORPTION"@, 17));
    reveal_strlit("EXISTENTIAL_GENERALIZATION");
    assert("EXISTENTIAL_GENERALIZATION"@.len() != "ABSORPTION"@.len());
    assert(find_by_name(spec_all_rules(), "ABSORPTION"@, 17) == find_by_name(spec_all_rules(), "ABSORPTION"@, 18));
    reveal_strlit("EXISTENTIAL_INSTANTIATION");
    assert("EXISTENTIAL_INSTANTIATION"@.len() != "ABSORPTION"@.len());
    assert(find_by_name(spec_all_rules(), "ABSORPTION"@, 18) == find_by_name(spec_all_rules(), "ABSORPTION"@, 19));
    reveal_strlit("MODUS_TOLLENS");
    assert("MODUS_TOLLENS"@.len() != "ABSORPTION"@.len());
    assert(find_by_name(spec_all_rules(), "ABSORPTION"@, 19) == find_by_name(spec_all_rules(), "ABSORPTION"@, 20));
    reveal_strlit("HYPOTHETICAL_SYLLOGISM");
    assert("HYPOTHETICAL_SYLLOGISM"@.len() != "ABSORPTION"@.len());
    assert(find_by_name(spec_all_rules(), "ABSORPTION"@, 20) == find_by_name(spec_all_rules(), "ABSORPTION"@, 21));
    reveal_strlit("EXCLUDED_MIDDLE");
    assert("EXCLUDED_MIDDLE"@.len() != "ABSORPTION"@.len());
    assert(find_by_name(spec_all_rules(), "ABSORPTION"@, 21) == find_by_name(spec_all_rules(), "ABSORPTION"@, 22));
    reveal_strlit("CONSTRUCTIVE_DILEMMA");
    assert("CONSTRUCTIVE_DILEMMA"@.len() != "ABSORPTION"@.len());
    assert(find_by_name(spec_all_rules(), "ABSORPTION"@, 22) == find_by_name(spec_all_rules(), "ABSORPTION"@, 23));
    reveal_strlit("ASSOCIATION");
    assert("ASSOCIATION"@.len() != "ABSORPTION"@.len());
    assert(find_by_name(spec_all_rules(), "ABSORPTION"@, 23) == find_by_name(spec_all_rules(), "ABSORPTION"@, 24));
    reveal_strlit("COMMUTATION");
    assert("COMMUTATION"@.len() != "ABSORPTION"@.len());
    assert(find_by_name(spec_all_rules(), "ABSORPTION"@, 24) == find_by_name(spec_all_rules(), "ABSORPTION"@, 25));
    reveal_strlit("IDEMPOTENCE");
    assert("IDEMPOTENCE"@.len() != "ABSORPTION"@.len());
    assert(find_by_name(spec_all_rules(), "ABSORPTION"@, 25) == find_by_name(spec_all_rules(), "ABSORPTION"@, 26));
    reveal_strlit("DE_MORGAN");
    assert("DE_MORGAN"@.len() != "ABSORPTION"@.len());
    assert(find_by_name(spec_all_rules(), "ABSORPTION"@, 26) == find_by_name(spec_all_rules(), "ABSORPTION"@, 27));
    reveal_strlit("DISTRIBUTION");
    assert("DISTRIBUTION"@.len() != "ABSORPTION"@.len());
    assert(find_by_name(spec_all_rules(), "ABSORPTION"@, 27) == find_by_name(spec_all_rules(), "ABSORPTION"@, 28));
    reveal_strlit("DOUBLENEGATION_EQUIV");
    assert("DOUBLENEGATION_EQUIV"@.len() != "ABSORPTION"@.len());
    assert(find_by_name(spec_all_rules(), "ABSORPTION"@, 28) == find_by_name(spec_all_rules(), "ABSORPTION"@, 29));
    reveal_strlit("COMPLEMENT");
    assert("COMPLEMENT"@[0] != "ABSORPTION"@[0]);
    assert(find_by_name(spec_all_rules(), "ABSORPTION"@, 29) == find_by_name(spec_all_rules(), "ABSORPTION"@, 30));
    reveal_strlit("IDENTITY");
    assert("IDENTITY"@.len() != "ABSORPTION"@.len());
    assert(find_by_name(spec_all_rules(), "ABSORPTION"@, 30) == find_by_name(spec_all_rules(), "ABSORPTION"@, 31));
    reveal_strlit("ANNIHILATION");
    assert("ANNIHILATION"@.len() != "ABSORPTION"@.len());
    assert(find_by_name(spec_all_rules(), "ABSORPTION"@, 31) == find_by_name(spec_all_rules(), "ABSORPTION"@, 32));
    reveal_strlit("INVERSE");
    assert("INVERSE"@.len() != "ABSORPTION"@.len());
    assert(find_by_name(spec_all_rules(), "ABSORPTION"@, 32) == find_by_name(spec_all_rules(), "ABSORPTION"@, 33));
    assert(find_by_name(spec_all_rules(), "ABSORPTION"@, 33) == Some(Rule::Boolean(BooleanEquivalence::Absorption)));
}

proof fn lemma_finds_reduction()
    ensures
        find_by_name(spec_all_rules(), "REDUCTION"@, 0) == Some(Rule::Boolean(BooleanEquivalence::Reduction)),
{
    reveal_strlit("REDUCTION");
    reveal_strlit("REITERATION");
    assert("REITERATION"@.len() != "REDUCTION"@.len());
    assert(find_by_name(spec_all_rules(), "REDUCTION"@, 0) == find_by_name(spec_all_rules(), "REDUCTION"@, 1));
    reveal_strlit("CONJUNCTION");
    assert("CONJUNCTION"@.len() != "REDUCTION"@.len());
    assert(find_by_name(spec_all_rules(), "REDUCTION"@, 1) == find_by_name(spec_all_rules(), "REDUCTION"@, 2));
    reveal_strlit("SIMPLIFICATION");
    assert("SIMPLIFICATION"@.len() != "REDUCTION"@.len());
    assert(find_by_name(spec_all_rules(), "REDUCTION"@, 2) == find_by_name(spec_all_rules(), "REDUCTION"@, 3));
    reveal_strlit("ADDITION");
    assert("ADDITION"@.len() != "REDUCTION"@.len());
    assert(find_by_name(spec_all_rules(), "REDUCTION"@, 3) == find_by_name(spec_all_rules(), "REDUCTION"@, 4));
    reveal_strlit("DISJUNCTIVE_SYLLOGISM");
    assert("DISJUNCTIVE_SYLLOGISM"@.len() != "REDUCTION"@.len());
    assert(find_by_name(spec_all_rules(), "REDUCTION"@, 4) == find_by_name(spec_all_rules(), "REDUCTION"@, 5));
    reveal_strlit("CONDITIONAL_PROOF");
    assert("CONDITIONAL_PROOF"@.len() != "REDUCTION"@.len());
    assert(find_by_name(spec_all_rules(), "REDUCTION"@, 5) == find_by_name(spec_all_rules(), "REDUCTION"@, 6));
    reveal_strlit("MODUS_PONENS");
    assert("MODUS_PONENS"@.len() != "REDUCTION"@.len());
    assert(find_by_name(spec_all_rules(), "REDUCTION"@, 6) == find_by_name(spec_all_rules(), "REDUCTION"@, 7));
    reveal_strlit("PROOF_BY_CONTRADICTION");
    assert("PROOF_BY_CONTRADICTION"@.len() != "REDUCTION"@.len());
    assert(find_by_name(spec_all_rules(), "REDUCTION"@, 7) == find_by_name(spec_all_rules(), "REDUCTION"@, 8));
    reveal_strlit("DOUBLENEGATION");
    assert("DOUBLENEGATION"@.len() != "REDUCTION"@.len());
    assert(find_by_name(spec_all_rules(), "REDUCTION"@, 8) == find_by_name(spec_all_rules(), "REDUCTION"@, 9));
    reveal_strlit("CONTRADICTION");
    assert("CONTRADICTION"@.len() != "REDUCTION"@.len());
    assert(find_by_name(spec_all_rules(), "REDUCTION"@, 9) == find_by_name(spec_all_rules(), "REDUCTION"@, 10));
    reveal_strlit("PRINCIPLE_OF_EXPLOSION");
    assert("PRINCIPLE_OF_EXPLOSION"@.len() != "REDUCTION"@.len());
    assert(find_by_name(spec_all_rules(), "REDUCTION"@, 10) == find_by_name(spec_all_rules(), "REDUCTION"@, 11));
    reveal_strlit("BICONDITIONAL_INTRO");
    assert("BICONDITIONAL_INTRO"@.len() != "REDUCTION"@.len());
    assert(find_by_name(spec_all_rules(), "REDUCTION"@, 11) == find_by_name(spec_all_rules(), "REDUCTION"@, 12));
    reveal_strlit("BICONDITIONAL_ELIM");
    assert("BICONDITIONAL_ELIM"@.len() != "REDUCTION"@.len());
    assert(find_by_name(spec_all_rules(), "REDUCTION"@, 12) == find_by_name(spec_all_rules(), "REDUCTION"@, 13));
    reveal_strlit("EQUIVALENCE_INTRO");
    assert("EQUIVALENCE_INTRO"@.len() != "REDUCTION"@.len());
    assert(find_by_name(spec_all_rules(), "REDUCTION"@, 13) == find_by_name(spec_all_rules(), "REDUCTION"@, 14));
    reveal_strlit("EQUIVALENCE_ELIM");
    assert("EQUIVALENCE_ELIM"@.len() != "REDUCTION"@.len());
    assert(find_by_name(spec_all_rules(), "REDUCTION"@, 14) == find_by_name(spec_all_rules(), "REDUCTION"@, 15));
    reveal_strlit("UNIVERSAL_GENERALIZATION");
    assert("UNIVERSAL_GENERALIZATION"@.len() != "REDUCTION"@.len());
    assert(find_by_name(spec_all_rules(), "REDUCTION"@, 15) == find_by_name(spec_all_rules(), "REDUCTION"@, 16));
    reveal_strlit("UNIVERSAL_INSTANTIATION");
    assert("UNIVERSAL_INSTANTIATION"@.len() != "REDUCTION"@.len());
    assert(find_by_name(spec_all_rules(), "REDUCTION"@, 16) == find_by_name(spec_all_rules(), "REDUCTION"@, 17));
    reveal_strlit("EXISTENTIAL_GENERALIZATION");
    assert("EXISTENTIAL_GENERALIZATION"@.len() != "REDUCTION"@.len());
    assert(find_by_name(spec_all_rules(), "REDUCTION"@, 17) == find_by_name(spec_all_rules(), "REDUCTION"@, 18));
    reveal_strlit("EXISTENTIAL_INSTANTIATION");
    assert("EXISTENTIAL_INSTANTIATION"@.len() != "REDUCTION"@.len());
    assert(find_by_name(spec_all_rules(), "REDUCTION"@, 18) == find_by_name(spec_all_rules(), "REDUCTION"@, 19));
    reveal_strlit("MODUS_TOLLENS");
    assert("MODUS_TOLLENS"@.len() != "REDUCTION"@.len());
    assert(find_by_name(spec_all_rules(), "REDUCTION"@, 19) == find_by_name(spec_all_rules(), "REDUCTION"@, 20));
    reveal_strlit("HYPOTHETICAL_SYLLOGISM");
    assert("HYPOTHETICAL_SYLLOGISM"@.len() != "REDUCTION"@.len());
    assert(find_by_name(spec_all_rules(), "REDUCTION"@, 20) == find_by_name(spec_all_rules(), "REDUCTION"@, 21));
    reveal_strlit("EXCLUDED_MIDDLE");
    assert("EXCLUDED_MIDDLE"@.len() != "REDUCTION"@.len());
    assert(find_by_name(spec_all_rules(), "REDUCTION"@, 21) == find_by_name(spec_all_rules(), "REDUCTION"@, 22));
    reveal_strlit("CONSTRUCTIVE_DILEMMA");
    assert("CONSTRUCTIVE_DILEMMA"@.len() != "REDUCTION"@.len());
    assert(find_by_name(spec_all_rules(), "REDUCTION"@, 22) == find_by_name(spec_all_rules(), "REDUCTION"@, 23));
    reveal_strlit("ASSOCIATION");
    assert("ASSOCIATION"@.len() != "REDUCTION"@.len());
    assert(find_by_name(spec_all_rules(), "REDUCTION"@, 23) == find_by_name(spec_all_rules(), "REDUCTION"@, 24));
    reveal_strlit("COMMUTATION");
    assert("COMMUTATION"@.len() != "REDUCTION"@.len());
    assert(find_by_name(spec_all_rules(), "REDUCTION"@, 24) == find_by_name(spec_all_rules(), "REDUCTION"@, 25));
    reveal_strlit("IDEMPOTENCE");
    assert("IDEMPOTENCE"@.len() != "REDUCTION"@.len());
    assert(find_by_name(spec_all_rules(), "REDUCTION"@, 25) == find_by_name(spec_all_rules(), "REDUCTION"@, 26));
    reveal_strlit("DE_MORGAN");
    assert("DE_MORGAN"@[0] != "REDUCTION"@[0]);
    assert(find_by_name(spec_all_rules(), "REDUCTION"@, 26) == find_by_name(spec_all_rules(), "REDUCTION"@, 27));
    reveal_strlit("DISTRIBUTION");
    assert("DISTRIBUTION"@.len() != "REDUCTION"@.len());
    assert(find_by_name(spec_all_rules(), "REDUCTION"@, 27) == find_by_name(spec_all_rules(), "REDUCTION"@, 28));
    reveal_strlit("DOUBLENEGATION_EQUIV");
    assert("DOUBLENEGATION_EQUIV"@.len() != "REDUCTION"@.len());
    assert(find_by_name(spec_all_rules(), "REDUCTION"@, 28) == find_by_name(spec_all_rules(), "REDUCTION"@, 29));
    reveal_strlit("COMPLEMENT");
    assert("COMPLEMENT"@.len() != "REDUCTION"@.len());
    assert(find_by_name(spec_all_rules(), "REDUCTION"@, 29) == find_by_name(spec_all_rules(), "REDUCTION"@, 30));
    reveal_strlit("IDENTITY");
    assert("IDENTITY"@.len() != "REDUCTION"@.len());
    assert(find_by_name(spec_all_rules(), "REDUCTION"@, 30) == find_by_name(spec_all_rules(), "REDUCTION"@, 31));
    reveal_strlit("ANNIHILATION");
    assert("ANNIHILATION"@.len() != "REDUCTION"@.len());
    assert(find_by_name(spec_all_rules(), "REDUCTION"@, 31) == find_by_name(spec_all_rules(), "REDUCTION"@, 32));
    reveal_strlit("INVERSE");
    assert("INVERSE"@.len() != "REDUCTION"@.len());
    assert(find_by_name(spec_all_rules(), "REDUCTION"@, 32) == find_by_name(spec_all_rules(), "REDUCTION"@, 33));
    reveal_strlit("ABSORPTION");
    assert("ABSORPTION"@.len() != "REDUCTION"@.len());
    assert(find_by_name(spec_all_rules(), "REDUCTION"@, 33) == find_by_name(spec_all_rules(), "REDUCTION"@, 34));
    assert(find_by_name(spec_all_rules(), "REDUCTION"@, 34) == Some(Rule::Boolean(BooleanEquivalence::Reduction)));
}

proof fn lemma_finds_adjacency()
    ensures
        find_by_name(spec_all_rules(), "ADJACENCY"@, 0) == Some(Rule::Boolean(BooleanEquivalence::Adjacency)),
{
    reveal_strlit("ADJACENCY");
    reveal_strlit("REITERATION");
    assert("REITERATION"@.len() != "ADJACENCY"@.len());
    assert(find_by_name(spec_all_rules(), "ADJACENCY"@, 0) == find_by_name(spec_all_rules(), "ADJACENCY"@, 1));
    reveal_strlit("CONJUNCTION");
    assert("CONJUNCTION"@.len() != "ADJACENCY"@.len());
    assert(find_by_name(spec_all_rules(), "ADJACENCY"@, 1) == find_by_name(spec_all_rules(), "ADJACENCY"@, 2));
    reveal_strlit("SIMPLIFICATION");
    assert("SIMPLIFICATION"@.len() != "ADJACENCY"@.len());
    assert(find_by_name(spec_all_rules(), "ADJACENCY"@, 2) == find_by_name(spec_all_rules(), "ADJACENCY"@, 3));
    reveal_strlit("ADDITION");
    assert("ADDITION"@.len() != "ADJACENCY"@.len());
    assert(find_by_name(spec_all_rules(), "ADJACENCY"@, 3) == find_by_name(spec_all_rules(), "ADJACENCY"@, 4));
    reveal_strlit("DISJUNCTIVE_SYLLOGISM");
    assert("DISJUNCTIVE_SYLLOGISM"@.len() != "ADJACENCY"@.len());
    assert(find_by_name(spec_all_rules(), "ADJACENCY"@, 4) == find_by_name(spec_all_rules(), "ADJACENCY"@, 5));
    reveal_strlit("CONDITIONAL_PROOF");
    assert("CONDITIONAL_PROOF"@.len() != "ADJACENCY"@.len());
    assert(find_by_name(spec_all_rules(), "ADJACENCY"@, 5) == find_by_name(spec_all_rules(), "ADJACENCY"@, 6));
    reveal_strlit("MODUS_PONENS");
    assert("MODUS_PONENS"@.len() != "ADJACENCY"@.len());
    assert(find_by_name(spec_all_rules(), "ADJACENCY"@, 6) == find_by_name(spec_all_rules(), "ADJACENCY"@, 7));
    reveal_strlit("PROOF_BY_CONTRADICTION");
    assert("PROOF_BY_CONTRADICTION"@.len() != "ADJACENCY"@.len());
    assert(find_by_name(spec_all_rules(), "ADJACENCY"@, 7) == find_by_name(spec_all_rules(), "ADJACENCY"@, 8));
    reveal_strlit("DOUBLENEGATION");
    assert("DOUBLENEGATION"@.len() != "ADJACENCY"@.len());
    assert(find_by_name(spec_all_rules(), "ADJACENCY"@, 8) == find_by_name(spec_all_rules(), "ADJACENCY"@, 9));
    reveal_strlit("CONTRADICTION");
    assert("CONTRADICTION"@.len() != "ADJACENCY"@.len());
    assert(find_by_name(spec_all_rules(), "ADJACENCY"@, 9) == find_by_name(spec_all_rules(), "ADJACENCY"@, 10));
    reveal_strlit("PRINCIPLE_OF_EXPLOSION");
    assert("PRINCIPLE_OF_EXPLOSION"@.len() != "ADJACENCY"@.len());
    assert(find_by_name(spec_all_rules(), "ADJACENCY"@, 10) == find_by_name(spec_all_rules(), "ADJACENCY"@, 11));
    reveal_strlit("BICONDITIONAL_INTRO");
    assert("BICONDITIONAL_INTRO"@.len() != "ADJACENCY"@.len());
    assert(find_by_name(spec_all_rules(), "ADJACENCY"@, 11) == find_by_name(spec_all_rules(), "ADJACENCY"@, 12));
    reveal_strlit("BICONDITIONAL_ELIM");
    assert("BICONDITIONAL_ELIM"@.len() != "ADJACENCY"@.len());
    assert(find_by_name(spec_all_rules(), "ADJACENCY"@, 12) == find_by_name(spec_all_rules(), "ADJACENCY"@, 13));
    reveal_strlit("EQUIVALENCE_INTRO");
    assert("EQUIVALENCE_INTRO"@.len() != "ADJACENCY"@.len());
    assert(find_by_name(spec_all_rules(), "ADJACENCY"@, 13) == find_by_name(spec_all_rules(), "ADJACENCY"@, 14));
    reveal_strlit("EQUIVALENCE_ELIM");
    assert("EQUIVALENCE_ELIM"@.len() != "ADJACENCY"@.len());
    assert(find_by_name(spec_all_rules(), "ADJACENCY"@, 14) == find_by_name(spec_all_rules(), "ADJACENCY"@, 15));
    reveal_strlit("UNIVERSAL_GENERALIZATION");
    assert("UNIVERSAL_GENERALIZATION"@.len() != "ADJACENCY"@.len());
    assert(find_by_name(spec_all_rules(), "ADJACENCY"@, 15) == find_by_name(spec_all_rules(), "ADJACENCY"@, 16));
    reveal_strlit("UNIVERSAL_INSTANTIATION");
    assert("UNIVERSAL_INSTANTIATION"@.len() != "ADJACENCY"@.len());
    assert(find_by_name(spec_all_rules(), "ADJACENCY"@, 16) == find_by_name(spec_all_rules(), "ADJACENCY"@, 17));
    reveal_strlit("EXISTENTIAL_GENERALIZATION");
    assert("EXISTENTIAL_GENERALIZATION"@.len() != "ADJACENCY"@.len());
    assert(find_by_name(spec_all_rules(), "ADJACENCY"@, 17) == find_by_name(spec_all_rules(), "ADJACENCY"@, 18));
    reveal_strlit("EXISTENTIAL_INSTANTIATION");
    assert("EXISTENTIAL_INSTANTIATION"@.len() != "ADJACENCY"@.len());
    assert(find_by_name(spec_all_rules(), "ADJACENCY"@, 18) == find_by_name(spec_all_rules(), "ADJACENCY"@, 19));
    reveal_strlit("MODUS_TOLLENS");
    assert("MODUS_TOLLENS"@.len() != "ADJACENCY"@.len());
    assert(find_by_name(spec_all_rules(), "ADJACENCY"@, 19) == find_by_name(spec_all_rules(), "ADJACENCY"@, 20));
    reveal_strlit("HYPOTHETICAL_SYLLOGISM");
    assert("HYPOTHETICAL_SYLLOGISM"@.len() != "ADJACENCY"@.len());
    assert(find_by_name(spec_all_rules(), "ADJACENCY"@, 20) == find_by_name(spec_all_rules(), "ADJACENCY"@, 21));
    reveal_strlit("EXCLUDED_MIDDLE");
    assert("EXCLUDED_MIDDLE"@.len() != "ADJACENCY"@.len());
    assert(find_by_name(spec_all_rules(), "ADJACENCY"@, 21) == find_by_name(spec_all_rules(), "ADJACENCY"@, 22));
    reveal_strlit("CONSTRUCTIVE_DILEMMA");
    assert("CONSTRUCTIVE_DILEMMA"@.len() != "ADJACENCY"@.len());
    assert(find_by_name(spec_all_rules(), "ADJACENCY"@, 22) == find_by_name(spec_all_rules(), "ADJACENCY"@, 23));
    reveal_strlit("ASSOCIATION");
    assert("ASSOCIATION"@.len() != "ADJACENCY"@.len());
    assert(find_by_name(spec_all_rules(), "ADJACENCY"@, 23) == find_by_name(spec_all_rules(), "ADJACENCY"@, 24));
    reveal_strlit("COMMUTATION");
    assert("COMMUTATION"@.len() != "ADJACENCY"@.len());
    assert(find_by_name(spec_all_rules(), "ADJACENCY"@, 24) == find_by_name(spec_all_rules(), "ADJACENCY"@, 25));
    reveal_strlit("IDEMPOTENCE");
    assert("IDEMPOTENCE"@.len() != "ADJACENCY"@.len());
    assert(find_by_name(spec_all_rules(), "ADJACENCY"@, 25) == find_by_name(spec_all_rules(), "ADJACENCY"@, 26));
    reveal_strlit("DE_MORGAN");
    assert("DE_MORGAN"@[0] != "ADJACENCY"@[0]);
    assert(find_by_name(spec_all_rules(), "ADJACENCY"@, 26) == find_by_name(spec_all_rules(), "ADJACENCY"@, 27));
    reveal_strlit("DISTRIBUTION");
    assert("DISTRIBUTION"@.len() != "ADJACENCY"@.len());
    assert(find_by_name(spec_all_rules(), "ADJACENCY"@, 27) == find_by_name(spec_all_rules(), "ADJACENCY"@, 28));
    reveal_strlit("DOUBLENEGATION_EQUIV");
    assert("DOUBLENEGATION_EQUIV"@.len() != "ADJACENCY"@.len());
    assert(find_by_name(spec_all_rules(), "ADJACENCY"@, 28) == find_by_name(spec_all_rules(), "ADJACENCY"@, 29));
    reveal_strlit("COMPLEMENT");
    assert("COMPLEMENT"@.len() != "ADJACENCY"@.len());
    assert(find_by_name(spec_all_rules(), "ADJACENCY"@, 29) == find_by_name(spec_all_rules(), "ADJACENCY"@, 30));
    reveal_strlit("IDENTITY");
    assert("IDENTITY"@.len() != "ADJACENCY"@.len());
    assert(find_by_name(spec_all_rules(), "ADJACENCY"@, 30) == find_by_name(spec_all_rules(), "ADJACENCY"@, 31));
    reveal_strlit("ANNIHILATION");
    assert("ANNIHILATION"@.len() != "ADJACENCY"@.len());
    assert(find_by_name(spec_all_rules(), "ADJACENCY"@, 31) == find_by_name(spec_all_rules(), "ADJACENCY"@, 32));
    reveal_strlit("INVERSE");
    assert("INVERSE"@.len() != "ADJACENCY"@.len());
    assert(find_by_name(spec_all_rules(), "ADJACENCY"@, 32) == find_by_name(spec_all_rules(), "ADJACENCY"@, 33));
    reveal_strlit("ABSORPTION");
    assert("ABSORPTION"@.len() != "ADJACENCY"@.len());
    assert(find_by_name(spec_all_rules(), "ADJACENCY"@, 33) == find_by_name(spec_all_rules(), "ADJACENCY"@, 34));
    reveal_strlit("REDUCTION");
    assert("REDUCTION"@[0] != "ADJACENCY"@[0]);
    assert(find_by_name(spec_all_rules(), "ADJACENCY"@, 34) == find_by_name(spec_all_rules(), "ADJACENCY"@, 35));
    assert(find_by_name(spec_all_rules(), "ADJACENCY"@, 35) == Some(Rule::Boolean(BooleanEquivalence::Adjacency)));
}

proof fn lemma_finds_conditional_complement()
    ensures
        find_by_name(spec_all_rules(), "CONDITIONAL_COMPLEMENT"@, 0) == Some(Rule::Conditional(ConditionalEquivalence::Complement)),
{
    reveal_strlit("CONDITIONAL_COMPLEMENT");
    reveal_strlit("REITERATION");
    assert("REITERATION"@.len() != "CONDITIONAL_COMPLEMENT"@.len());
    assert(find_by_name(spec_all_rules(), "CONDITIONAL_COMPLEMENT"@, 0) == find_by_name(spec_all_rules(), "CONDITIONAL_COMPLEMENT"@, 1));
    reveal_strlit("CONJUNCTION");
    assert("CONJUNCTION"@.len() != "CONDITIONAL_COMPLEMENT"@.len());
    assert(find_by_name(spec_all_rules(), "CONDITIONAL_COMPLEMENT"@, 1) == find_by_name(spec_all_rules(), "CONDITIONAL_COMPLEMENT"@, 2));
    reveal_strlit("SIMPLIFICATION");
    assert("SIMPLIFICATION"@.len() != "CONDITIONAL_COMPLEMENT"@.len());
    assert(find_by_name(spec_all_rules(), "CONDITIONAL_COMPLEMENT"@, 2) == find_by_name(spec_all_rules(), "CONDITIONAL_COMPLEMENT"@, 3));
    reveal_strlit("ADDITION");
    assert("ADDITION"@.len() != "CONDITIONAL_COMPLEMENT"@.len());
    assert(find_by_name(spec_all_rules(), "CONDITIONAL_COMPLEMENT"@, 3) == find_by_name(spec_all_rules(), "CONDITIONAL_COMPLEMENT"@, 4));
    reveal_strlit("DISJUNCTIVE_SYLLOGISM");
    assert("DISJUNCTIVE_SYLLOGISM"@.len() != "CONDITIONAL_COMPLEMENT"@.len());
    assert(find_by_name(spec_all_rules(), "CONDITIONAL_COMPLEMENT"@, 4) == find_by_name(spec_all_rules(), "CONDITIONAL_COMPLEMENT"@, 5));
    reveal_strlit("CONDITIONAL_PROOF");
    assert("CONDITIONAL_PROOF"@.len() != "CONDITIONAL_COMPLEMENT"@.len());
    assert(find_by_name(spec_all_rules(), "CONDITIONAL_COMPLEMENT"@, 5) == find_by_name(spec_all_rules(), "CONDITIONAL_COMPLEMENT"@, 6));
    reveal_strlit("MODUS_PONENS");
    assert("MODUS_PONENS"@.len() != "CONDITIONAL_COMPLEMENT"@.len());
    assert(find_by_name(spec_all_rules(), "CONDITIONAL_COMPLEMENT"@, 6) == find_by_name(spec_all_rules(), "CONDITIONAL_COMPLEMENT"@, 7));
    reveal_strlit("PROOF_BY_CONTRADICTION");
    assert("PROOF_BY_CONTRADICTION"@[0] != "CONDITIONAL_COMPLEMENT"@[0]);
    assert(find_by_name(spec_all_rules(), "CONDITIONAL_COMPLEMENT"@, 7) == find_by_name(spec_all_rules(), "CONDITIONAL_COMPLEMENT"@, 8));
    reveal_strlit("DOUBLENEGATION");
    assert("DOUBLENEGATION"@.len() != "CONDITIONAL_COMPLEMENT"@.len());
    assert(find_by_name(spec_all_rules(), "CONDITIONAL_COMPLEMENT"@, 8) == find_by_name(spec_all_rules(), "CONDITIONAL_COMPLEMENT"@, 9));
    reveal_strlit("CONTRADICTION");
    assert("CONTRADICTION"@.len() != "CONDITIONAL_COMPLEMENT"@.len());
    assert(find_by_name(spec_all_rules(), "CONDITIONAL_COMPLEMENT"@, 9) == find_by_name(spec_all_rules(), "CONDITIONAL_COMPLEMENT"@, 10));
    reveal_strlit("PRINCIPLE_OF_EXPLOSION");
    assert("PRINCIPLE_OF_EXPLOSION"@[0] != "CONDITIONAL_COMPLEMENT"@[0]);
    assert(find_by_name(spec_all_rules(), "CONDITIONAL_COMPLEMENT"@, 10) == find_by_name(spec_all_rules(), "CONDITIONAL_COMPLEMENT"@, 11));
    reveal_strlit("BICONDITIONAL_INTRO");
    assert("BICONDITIONAL_INTRO"@.len() != "CONDITIONAL_COMPLEMENT"@.len());
    assert(find_by_name(spec_all_rules(), "CONDITIONAL_COMPLEMENT"@, 11) == find_by_name(spec_all_rules(), "CONDITIONAL_COMPLEMENT"@, 12));
    reveal_strlit("BICONDITIONAL_ELIM");
    assert("BICONDITIONAL_ELIM"@.len() != "CONDITIONAL_COMPLEMENT"@.len());
    assert(find_by_name(spec_all_rules(), "CONDITIONAL_COMPLEMENT"@, 12) == find_by_name(spec_all_rules(), "CONDITIONAL_COMPLEMENT"@, 13));
    reveal_strlit("EQUIVALENCE_INTRO");
    assert("EQUIVALENCE_INTRO"@.len() != "CONDITIONAL_COMPLEMENT"@.len());
    assert(find_by_name(spec_all_rules(), "CONDITIONAL_COMPLEMENT"@, 13) == find_by_name(spec_all_rules(), "CONDITIONAL_COMPLEMENT"@, 14));
    reveal_strlit("EQUIVALENCE_ELIM");
    assert("EQUIVALENCE_ELIM"@.len() != "CONDITIONAL_COMPLEMENT"@.len());
    assert(find_by_name(spec_all_rules(), "CONDITIONAL_COMPLEMENT"@, 14) == find_by_name(spec_all_rules(), "CONDITIONAL_COMPLEMENT"@, 15));
    reveal_strlit("UNIVERSAL_GENERALIZATION");
    assert("UNIVERSAL_GENERALIZATION"@.len() != "CONDITIONAL_COMPLEMENT"@.len());
    assert(find_by_name(spec_all_rules(), "CONDITIONAL_COMPLEMENT"@, 15) == find_by_name(spec_all_rules(), "CONDITIONAL_COMPLEMENT"@, 16));
    reveal_strlit("UNIVERSAL_INSTANTIATION");
    assert("UNIVERSAL_INSTANTIATION"@.len() != "CONDITIONAL_COMPLEMENT"@.len());
    assert(find_by_name(spec_all_rules(), "CONDITIONAL_COMPLEMENT"@, 16) == find_by_name(spec_all_rules(), "CONDITIONAL_COMPLEMENT"@, 17));
    reveal_strlit("EXISTENTIAL_GENERALIZATION");
    assert("EXISTENTIAL_GENERALIZATION"@.len() != "CONDITIONAL_COMPLEMENT"@.len());
    assert(find_by_name(spec_all_rules(), "CONDITIONAL_COMPLEMENT"@, 17) == find_by_name(spec_all_rules(), "CONDITIONAL_COMPLEMENT"@, 18));
    reveal_strlit("EXISTENTIAL_INSTANTIATION");
    assert("EXISTENTIAL_INSTANTIATION"@.len() != "CONDITIONAL_COMPLEMENT"@.len());
    assert(find_by_name(spec_all_rules(), "CONDITIONAL_COMPLEMENT"@, 18) == find_by_name(spec_all_rules(), "CONDITIONAL_COMPLEMENT"@, 19));
    reveal_strlit("MODUS_TOLLENS");
    assert("MODUS_TOLLENS"@.len() != "CONDITIONAL_COMPLEMENT"@.len());
    assert(find_by_name(spec_all_rules(), "CONDITIONAL_COMPLEMENT"@, 19) == find_by_name(spec_all_rules(), "CONDITIONAL_COMPLEMENT"@, 20));
    reveal_strlit("HYPOTHETICAL_SYLLOGISM");
    assert("HYPOTHETICAL_SYLLOGISM"@[0] != "CONDITIONAL_COMPLEMENT"@[0]);
    assert(find_by_name(spec_all_rules(), "CONDITIONAL_COMPLEMENT"@, 20) == find_by_name(spec_all_rules(), "CONDITIONAL_COMPLEMENT"@, 21));
    reveal_strlit("EXCLUDED_MIDDLE");
    assert("EXCLUDED_MIDDLE"@.len() != "CONDITIONAL_COMPLEMENT"@.len());
    assert(find_by_name(spec_all_rules(), "CONDITIONAL_COMPLEMENT"@, 21) == find_by_name(spec_all_rules(), "CONDITIONAL_COMPLEMENT"@, 22));
    reveal_strlit("CONSTRUCTIVE_DILEMMA");
    assert("CONSTRUCTIVE_DILEMMA"@.len() != "CONDITIONAL_COMPLEMENT"@.len());
    assert(find_by_name(spec_all_rules(), "CONDITIONAL_COMPLEMENT"@, 22) == find_by_name(spec_all_rules(), "CONDITIONAL_COMPLEMENT"@, 23));
    reveal_strlit("ASSOCIATION");
    assert("ASSOCIATION"@.len() != "CONDITIONAL_COMPLEMENT"@.len());
    assert(find_by_name(spec_all_rules(), "CONDITIONAL_COMPLEMENT"@, 23) == find_by_name(spec_all_rules(), "CONDITIONAL_COMPLEMENT"@, 24));
    reveal_strlit("COMMUTATION");
    assert("COMMUTATION"@.len() != "CONDITIONAL_COMPLEMENT"@.len());
    assert(find_by_name(spec_all_rules(), "CONDITIONAL_COMPLEMENT"@, 24) == find_by_name(spec_all_rules(), "CONDITIONAL_COMPLEMENT"@, 25));
    reveal_strlit("IDEMPOTENCE");
    assert("IDEMPOTENCE"@.len() != "CONDITIONAL_COMPLEMENT"@.len());
    assert(find_by_name(spec_all_rules(), "CONDITIONAL_COMPLEMENT"@, 25) == find_by_name(spec_all_rules(), "CONDITIONAL_COMPLEMENT"@, 26));
    reveal_strlit("DE_MORGAN");
    assert("DE_MORGAN"@.len() != "CONDITIONAL_COMPLEMENT"@.len());
    assert(find_by_name(spec_all_rules(), "CONDITIONAL_COMPLEMENT"@, 26) == find_by_name(spec_all_rules(), "CONDITIONAL_COMPLEMENT"@, 27));
    reveal_strlit("DISTRIBUTION");
    assert("DISTRIBUTION"@.len() != "CONDITIONAL_COMPLEMENT"@.len());
    assert(find_by_name(spec_all_rules(), "CONDITIONAL_COMPLEMENT"@, 27) == find_by_name(spec_all_rules(), "CONDITIONAL_COMPLEMENT"@, 28));
    reveal_strlit("DOUBLENEGATION_EQUIV");
    assert("DOUBLENEGATION_EQUIV"@.len() != "CONDITIONAL_COMPLEMENT"@.len());
    assert(find_by_name(spec_all_rules(), "CONDITIONAL_COMPLEMENT"@, 28) == find_by_name(spec_all_rules(), "CONDITIONAL_COMPLEMENT"@, 29));
    reveal_strlit("COMPLEMENT");
    assert("COMPLEMENT"@.len() != "CONDITIONAL_COMPLEMENT"@.len());
    assert(find_by_name(spec_all_rules(), "CONDITIONAL_COMPLEMENT"@, 29) == find_by_name(spec_all_rules(), "CONDITIONAL_COMPLEMENT"@, 30));
    reveal_strlit("IDENTITY");
    assert("IDENTITY"@.len() != "CONDITIONAL_COMPLEMENT"@.len());
    assert(find_by_name(spec_all_rules(), "CONDITIONAL_COMPLEMENT"@, 30) == find_by_name(spec_all_rules(), "CONDITIONAL_COMPLEMENT"@, 31));
    reveal_strlit("ANNIHILATION");
    assert("ANNIHILATION"@.len() != "CONDITIONAL_COMPLEMENT"@.len());
    assert(find_by_name(spec_all_rules(), "CONDITIONAL_COMPLEMENT"@, 31) == find_by_name(spec_all_rules(), "CONDITIONAL_COMPLEMENT"@, 32));
    reveal_strlit("INVERSE");
    assert("INVERSE"@.len() != "CONDITIONAL_COMPLEMENT"@.len());
    assert(find_by_name(spec_all_rules(), "CONDITIONAL_COMPLEMENT"@, 32) == find_by_name(spec_all_rules(), "CONDITIONAL_COMPLEMENT"@, 33));
    reveal_strlit("ABSORPTION");
    assert("ABSORPTION"@.len() != "CONDITIONAL_COMPLEMENT"@.len());
    assert(find_by_name(spec_all_rules(), "CONDITIONAL_COMPLEMENT"@, 33) == find_by_name(spec_all_rules(), "CONDITIONAL_COMPLEMENT"@, 34));
    reveal_strlit("REDUCTION");
    assert("REDUCTION"@.len() != "CONDITIONAL_COMPLEMENT"@.len());
    assert(find_by_name(spec_all_rules(), "CONDITIONAL_COMPLEMENT"@, 34) == find_by_name(spec_all_rules(), "CONDITIONAL_COMPLEMENT"@, 35));
    reveal_strlit("ADJACENCY");
    assert("ADJACENCY"@.len() != "CONDITIONAL_COMPLEMENT"@.len());
    assert(find_by_name(spec_all_rules(), "CONDITIONAL_COMPLEMENT"@, 35) == find_by_name(spec_all_rules(), "CONDITIONAL_COMPLEMENT"@, 36));
    assert(find_by_name(spec_all_rules(), "CONDITIONAL_COMPLEMENT"@, 36) == Some(Rule::Conditional(ConditionalEquivalence::Complement)));
}

proof fn lemma_finds_conditional_identity()
    ensures
        find_by_name(spec_all_rules(), "CONDITIONAL_IDENTITY"@, 0) == Some(Rule::Conditional(ConditionalEquivalence::Identity)),
{
    reveal_strlit("CONDITIONAL_IDENTITY");
    reveal_strlit("REITERATION");
    assert("REITERATION"@.len() != "CONDITIONAL_IDENTITY"@.len());
    assert(find_by_name(spec_all_rules(), "CONDITIONAL_IDENTITY"@, 0) == find_by_name(spec_all_rules(), "CONDITIONAL_IDENTITY"@, 1));
    reveal_strlit("CONJUNCTION");
    assert("CONJUNCTION"@.len() != "CONDITIONAL_IDENTITY"@.len());
    assert(find_by_name(spec_all_rules(), "CONDITIONAL_IDENTITY"@, 1) == find_by_name(spec_all_rules(), "CONDITIONAL_IDENTITY"@, 2));
    reveal_strlit("SIMPLIFICATION");
    assert("SIMPLIFICATION"@.len() != "CONDITIONAL_IDENTITY"@.len());
    assert(find_by_name(spec_all_rules(), "CONDITIONAL_IDENTITY"@, 2) == find_by_name(spec_all_rules(), "CONDITIONAL_IDENTITY"@, 3));
    reveal_strlit("ADDITION");
    assert("ADDITION"@.len() != "CONDITIONAL_IDENTITY"@.len());
    assert(find_by_name(spec_all_rules(), "CONDITIONAL_IDENTITY"@, 3) == find_by_name(spec_all_rules(), "CONDITIONAL_IDENTITY"@, 4));
    reveal_strlit("DISJUNCTIVE_SYLLOGISM");
    assert("DISJUNCTIVE_SYLLOGISM"@.len() != "CONDITIONAL_IDENTITY"@.len());
    assert(find_by_name(spec_all_rules(), "CONDITIONAL_IDENTITY"@, 4) == find_by_name(spec_all_rules(), "CONDITIONAL_IDENTITY"@, 5));
    reveal_strlit("CONDITIONAL_PROOF");
    assert("CONDITIONAL_PROOF"@.len() != "CONDITIONAL_IDENTITY"@.len());
    assert(find_by_name(spec_all_rules(), "CONDITIONAL_IDENTITY"@, 5) == find_by_name(spec_all_rules(), "CONDITIONAL_IDENTITY"@, 6));
    reveal_strlit("MODUS_PONENS");
    assert("MODUS_PONENS"@.len() != "CONDITIONAL_IDENTITY"@.len());
    assert(find_by_name(spec_all_rules(), "CONDITIONAL_IDENTITY"@, 6) == find_by_name(spec_all_rules(), "CONDITIONAL_IDENTITY"@, 7));
    reveal_strlit("PROOF_BY_CONTRADICTION");
    assert("PROOF_BY_CONTRADICTION"@.len() != "CONDITIONAL_IDENTITY"@.len());
    assert(find_by_name(spec_all_rules(), "CONDITIONAL_IDENTITY"@, 7) == find_by_name(spec_all_rules(), "CONDITIONAL_IDENTITY"@, 8));
    reveal_strlit("DOUBLENEGATION");
    assert("DOUBLENEGATION"@.len() != "CONDITIONAL_IDENTITY"@.len());
    assert(find_by_name(spec_all_rules(), "CONDITIONAL_IDENTITY"@, 8) == find_by_name(spec_all_rules(), "CONDITIONAL_IDENTITY"@, 9));
    reveal_strlit("CONTRADICTION");
    assert("CONTRADICTION"@.len() != "CONDITIONAL_IDENTITY"@.len());
    assert(find_by_name(spec_all_rules(), "CONDITIONAL_IDENTITY"@, 9) == find_by_name(spec_all_rules(), "CONDITIONAL_IDENTITY"@, 10));
    reveal_strlit("PRINCIPLE_OF_EXPLOSION");
    assert("PRINCIPLE_OF_EXPLOSION"@.len() != "CONDITIONAL_IDENTITY"@.len());
    assert(find_by_name(spec_all_rules(), "CONDITIONAL_IDENTITY"@, 10) == find_by_name(spec_all_rules(), "CONDITIONAL_IDENTITY"@, 11));
    reveal_strlit("BICONDITIONAL_INTRO");
    assert("BICONDITIONAL_INTRO"@.len() != "CONDITIONAL_IDENTITY"@.len());
    assert(find_by_name(spec_all_rules(), "CONDITIONAL_IDENTITY"@, 11) == find_by_name(spec_all_rules(), "CONDITIONAL_IDENTITY"@, 12));
    reveal_strlit("BICONDITIONAL_ELIM");
    assert("BICONDITIONAL_ELIM"@.len() != "CONDITIONAL_IDENTITY"@.len());
    assert(find_by_name(spec_all_rules(), "CONDITIONAL_IDENTITY"@, 12) == find_by_name(spec_all_rules(), "CONDITIONAL_IDENTITY"@, 13));
    reveal_strlit("EQUIVALENCE_INTRO");
    assert("EQUIVALENCE_INTRO"@.len() != "CONDITIONAL_IDENTITY"@.len());
    assert(find_by_name(spec_all_rules(), "CONDITIONAL_IDENTITY"@, 13) == find_by_name(spec_all_rules(), "CONDITIONAL_IDENTITY"@, 14));
    reveal_strlit("EQUIVALENCE_ELIM");
    assert("EQUIVALENCE_ELIM"@.len() != "CONDITIONAL_IDENTITY"@.len());
    assert(find_by_name(spec_all_rules(), "CONDITIONAL_IDENTITY"@, 14) == find_by_name(spec_all_rules(), "CONDITIONAL_IDENTITY"@, 15));
    reveal_strlit("UNIVERSAL_GENERALIZATION");
    assert("UNIVERSAL_GENERALIZATION"@.len() != "CONDITIONAL_IDENTITY"@.len());
    assert(find_by_name(spec_all_rules(), "CONDITIONAL_IDENTITY"@, 15) == find_by_name(spec_all_rules(), "CONDITIONAL_IDENTITY"@, 16));
    reveal_strlit("UNIVERSAL_INSTANTIATION");
    assert("UNIVERSAL_INSTANTIATION"@.len() != "CONDITIONAL_IDENTITY"@.len());
    assert(find_by_name(spec_all_rules(), "CONDITIONAL_IDENTITY"@, 16) == find_by_name(spec_all_rules(), "CONDITIONAL_IDENTITY"@, 17));
    reveal_strlit("EXISTENTIAL_GENERALIZATION");
    assert("EXISTENTIAL_GENERALIZATION"@.len() != "CONDITIONAL_IDENTITY"@.len());
    assert(find_by_name(spec_all_rules(), "CONDITIONAL_IDENTITY"@, 17) == find_by_name(spec_all_rules(), "CONDITIONAL_IDENTITY"@, 18));
    reveal_strlit("EXISTENTIAL_INSTANTIATION");
    assert("EXISTENTIAL_INSTANTIATION"@.len() != "CONDITIONAL_IDENTITY"@.len());
    assert(find_by_name(spec_all_rules(), "CONDITIONAL_IDENTITY"@, 18) == find_by_name(spec_all_rules(), "CONDITIONAL_IDENTITY"@, 19));
    reveal_strlit("MODUS_TOLLENS");
    assert("MODUS_TOLLENS"@.len() != "CONDITIONAL_IDENTITY"@.len());
    assert(find_by_name(spec_all_rules(), "CONDITIONAL_IDENTITY"@, 19) == find_by_name(spec_all_rules(), "CONDITIONAL_IDENTITY"@, 20));
    reveal_strlit("HYPOTHETICAL_SYLLOGISM");
    assert("HYPOTHETICAL_SYLLOGISM"@.len() != "CONDITIONAL_IDENTITY"@.len());
    assert(find_by_name(spec_all_rules(), "CONDITIONAL_IDENTITY"@, 20) == find_by_name(spec_all_rules(), "CONDITIONAL_IDENTITY"@, 21));
    reveal_strlit("EXCLUDED_MIDDLE");
    assert("EXCLUDED_MIDDLE"@.len() != "CONDITIONAL_IDENTITY"@.len());
    assert(find_by_name(spec_all_rules(), "CONDITIONAL_IDENTITY"@, 21) == find_by_name(spec_all_rules(), "CONDITIONAL_IDENTITY"@, 22));
    reveal_strlit("CONSTRUCTIVE_DILEMMA");
    assert("CONSTRUCTIVE_DILEMMA"@[3] != "CONDITIONAL_IDENTITY"@[3]);
    assert(find_by_name(spec_all_rules(), "CONDITIONAL_IDENTITY"@, 22) == find_by_name(spec_all_rules(), "CONDITIONAL_IDENTITY"@, 23));
    reveal_strlit("ASSOCIATION");
    assert("ASSOCIATION"@.len() != "CONDITIONAL_IDENTITY"@.len());
    assert(find_by_name(spec_all_rules(), "CONDITIONAL_IDENTITY"@, 23) == find_by_name(spec_all_rules(), "CONDITIONAL_IDENTITY"@, 24));
    reveal_strlit("COMMUTATION");
    assert("COMMUTATION"@.len() != "CONDITIONAL_IDENTITY"@.len());
    assert(find_by_name(spec_all_rules(), "CONDITIONAL_IDENTITY"@, 24) == find_by_name(spec_all_rules(), "CONDITIONAL_IDENTITY"@, 25));
    reveal_strlit("IDEMPOTENCE");
    assert("IDEMPOTENCE"@.len() != "CONDITIONAL_IDENTITY"@.len());
    assert(find_by_name(spec_all_rules(), "CONDITIONAL_IDENTITY"@, 25) == find_by_name(spec_all_rules(), "CONDITIONAL_IDENTITY"@, 26));
    reveal_strlit("DE_MORGAN");
    assert("DE_MORGAN"@.len() != "CONDITIONAL_IDENTITY"@.len());
    assert(find_by_name(spec_all_rules(), "CONDITIONAL_IDENTITY"@, 26) == find_by_name(spec_all_rules(), "CONDITIONAL_IDENTITY"@, 27));
    reveal_strlit("DISTRIBUTION");
    assert("DISTRIBUTION"@.len() != "CONDITIONAL_IDENTITY"@.len());
    assert(find_by_name(spec_all_rules(), "CONDITIONAL_IDENTITY"@, 27) == find_by_name(spec_all_rules(), "CONDITIONAL_IDENTITY"@, 28));
    reveal_strlit("DOUBLENEGATION_EQUIV");
    assert("DOUBLENEGATION_EQUIV"@[0] != "CONDITIONAL_IDENTITY"@[0]);
    assert(find_by_name(spec_all_rules(), "CONDITIONAL_IDENTITY"@, 28) == find_by_name(spec_all_rules(), "CONDITIONAL_IDENTITY"@, 29));
    reveal_strlit("COMPLEMENT");
    assert("COMPLEMENT"@.len() != "CONDITIONAL_IDENTITY"@.len());
    assert(find_by_name(spec_all_rules(), "CONDITIONAL_IDENTITY"@, 29) == find_by_name(spec_all_rules(), "CONDITIONAL_IDENTITY"@, 30));
    reveal_strlit("IDENTITY");
    assert("IDENTITY"@.len() != "CONDITIONAL_IDENTITY"@.len());
    assert(find_by_name(spec_all_rules(), "CONDITIONAL_IDENTITY"@, 30) == find_by_name(spec_all_rules(), "CONDITIONAL_IDENTITY"@, 31));
    reveal_strlit("ANNIHILATION");
    assert("ANNIHILATION"@.len() != "CONDITIONAL_IDENTITY"@.len());
    assert(find_by_name(spec_all_rules(), "CONDITIONAL_IDENTITY"@, 31) == find_by_name(spec_all_rules(), "CONDITIONAL_IDENTITY"@, 32));
    reveal_strlit("INVERSE");
    assert("INVERSE"@.len() != "CONDITIONAL_IDENTITY"@.len());
    assert(find_by_name(spec_all_rules(), "CONDITIONAL_IDENTITY"@, 32) == find_by_name(spec_all_rules(), "CONDITIONAL_IDENTITY"@, 33));
    reveal_strlit("ABSORPTION");
    assert("ABSORPTION"@.len() != "CONDITIONAL_IDENTITY"@.len());
    assert(find_by_name(spec_all_rules(), "CONDITIONAL_IDENTITY"@, 33) == find_by_name(spec_all_rules(), "CONDITIONAL_IDENTITY"@, 34));
    reveal_strlit("REDUCTION");
    assert("REDUCTION"@.len() != "CONDITIONAL_IDENTITY"@.len());
    assert(find_by_name(spec_all_rules(), "CONDITIONAL_IDENTITY"@, 34) == find_by_name(spec_all_rules(), "CONDITIONAL_IDENTITY"@, 35));
    reveal_strlit("ADJACENCY");
    assert("ADJACENCY"@.len() != "CONDITIONAL_IDENTITY"@.len());
    assert(find_by_name(spec_all_rules(), "CONDITIONAL_IDENTITY"@, 35) == find_by_name(spec_all_rules(), "CONDITIONAL_IDENTITY"@, 36));
    reveal_strlit("CONDITIONAL_COMPLEMENT");
    assert("CONDITIONAL_COMPLEMENT"@.len() != "CONDITIONAL_IDENTITY"@.len());
    assert(find_by_name(spec_all_rules(), "CONDITIONAL_IDENTITY"@, 36) == find_by_name(spec_all_rules(), "CONDITIONAL_IDENTITY"@, 37));
    assert(find_by_name(spec_all_rules(), "CONDITIONAL_IDENTITY"@, 37) == Some(Rule::Conditional(ConditionalEquivalence::Identity)));
}

proof fn lemma_finds_conditional_annihilation()
    ensures
        find_by_name(spec_all_rules(), "CONDITIONAL_ANNIHILATION"@, 0) == Some(Rule::Conditional(ConditionalEquivalence::Annihilation)),
{
    reveal_strlit("CONDITIONAL_ANNIHILATION");
    reveal_strlit("REITERATION");
    assert("REITERATION"@.len() != "CONDITIONAL_ANNIHILATION"@.len());
    assert(find_by_name(spec_all_rules(), "CONDITIONAL_ANNIHILATION"@, 0) == find_by_name(spec_all_rules(), "CONDITIONAL_ANNIHILATION"@, 1));
    reveal_strlit("CONJUNCTION");
    assert("CONJUNCTION"@.len() != "CONDITIONAL_ANNIHILATION"@.len());
    assert(find_by_name(spec_all_rules(), "CONDITIONAL_ANNIHILATION"@, 1) == find_by_name(spec_all_rules(), "CONDITIONAL_ANNIHILATION"@, 2));
    reveal_strlit("SIMPLIFICATION");
    assert("SIMPLIFICATION"@.len() != "CONDITIONAL_ANNIHILATION"@.len());
    assert(find_by_name(spec_all_rules(), "CONDITIONAL_ANNIHILATION"@, 2) == find_by_name(spec_all_rules(), "CONDITIONAL_ANNIHILATION"@, 3));
    reveal_strlit("ADDITION");
    assert("ADDITION"@.len() != "CONDITIONAL_ANNIHILATION"@.len());
    assert(find_by_name(spec_all_rules(), "CONDITIONAL_ANNIHILATION"@, 3) == find_by_name(spec_all_rules(), "CONDITIONAL_ANNIHILATION"@, 4));
    reveal_strlit("DISJUNCTIVE_SYLLOGISM");
    assert("DISJUNCTIVE_SYLLOGISM"@.len() != "CONDITIONAL_ANNIHILATION"@.len());
    assert(find_by_name(spec_all_rules(), "CONDITIONAL_ANNIHILATION"@, 4) == find_by_name(spec_all_rules(), "CONDITIONAL_ANNIHILATION"@, 5));
    reveal_strlit("CONDITIONAL_PROOF");
    assert("CONDITIONAL_PROOF"@.len() != "CONDITIONAL_ANNIHILATION"@.len());
    assert(find_by_name(spec_all_rules(), "CONDITIONAL_ANNIHILATION"@, 5) == find_by_name(spec_all_rules(), "CONDITIONAL_ANNIHILATION"@, 6));
    reveal_strlit("MODUS_PONENS");
    assert("MODUS_PONENS"@.len() != "CONDITIONAL_ANNIHILATION"@.len());
    assert(find_by_name(spec_all_rules(), "CONDITIONAL_ANNIHILATION"@, 6) == find_by_name(spec_all_rules(), "CONDITIONAL_ANNIHILATION"@, 7));
    reveal_strlit("PROOF_BY_CONTRADICTION");
    assert("PROOF_BY_CONTRADICTION"@.len() != "CONDITIONAL_ANNIHILATION"@.len());
    assert(find_by_name(spec_all_rules(), "CONDITIONAL_ANNIHILATION"@, 7) == find_by_name(spec_all_rules(), "CONDITIONAL_ANNIHILATION"@, 8));
    reveal_strlit("DOUBLENEGATION");
    assert("DOUBLENEGATION"@.len() != "CONDITIONAL_ANNIHILATION"@.len());
    assert(find_by_name(spec_all_rules(), "CONDITIONAL_ANNIHILATION"@, 8) == find_by_name(spec_all_rules(), "CONDITIONAL_ANNIHILATION"@, 9));
    reveal_strlit("CONTRADICTION");
    assert("CONTRADICTION"@.len() != "CONDITIONAL_ANNIHILATION"@.len());
    assert(find_by_name(spec_all_rules(), "CONDITIONAL_ANNIHILATION"@, 9) == find_by_name(spec_all_rules(), "CONDITIONAL_ANNIHILATION"@, 10));
    reveal_strlit("PRINCIPLE_OF_EXPLOSION");
    assert("PRINCIPLE_OF_EXPLOSION"@.len() != "CONDITIONAL_ANNIHILATION"@.len());
    assert(find_by_name(spec_all_rules(), "CONDITIONAL_ANNIHILATION"@, 10) == find_by_name(spec_all_rules(), "CONDITIONAL_ANNIHILATION"@, 11));
    reveal_strlit("BICONDITIONAL_INTRO");
    assert("BICONDITIONAL_INTRO"@.len() != "CONDITIONAL_ANNIHILATION"@.len());
    assert(find_by_name(spec_all_rules(), "CONDITIONAL_ANNIHILATION"@, 11) == find_by_name(spec_all_rules(), "CONDITIONAL_ANNIHILATION"@, 12));
    reveal_strlit("BICONDITIONAL_ELIM");
    assert("BICONDITIONAL_ELIM"@.len() != "CONDITIONAL_ANNIHILATION"@.len());
    assert(find_by_name(spec_all_rules(), "CONDITIONAL_ANNIHILATION"@, 12) == find_by_name(spec_all_rules(), "CONDITIONAL_ANNIHILATION"@, 13));
    reveal_strlit("EQUIVALENCE_INTRO");
    assert("EQUIVALENCE_INTRO"@.len() != "CONDITIONAL_ANNIHILATION"@.len());
    assert(find_by_name(spec_all_rules(), "CONDITIONAL_ANNIHILATION"@, 13) == find_by_name(spec_all_rules(), "CONDITIONAL_ANNIHILATION"@, 14));
    reveal_strlit("EQUIVALENCE_ELIM");
    assert("EQUIVALENCE_ELIM"@.len() != "CONDITIONAL_ANNIHILATION"@.len());
    assert(find_by_name(spec_all_rules(), "CONDITIONAL_ANNIHILATION"@, 14) == find_by_name(spec_all_rules(), "CONDITIONAL_ANNIHILATION"@, 15));
    reveal_strlit("UNIVERSAL_GENERALIZATION");
    assert("UNIVERSAL_GENERALIZATION"@[0] != "CONDITIONAL_ANNIHILATION"@[0]);
    assert(find_by_name(spec_all_rules(), "CONDITIONAL_ANNIHILATION"@, 15) == find_by_name(spec_all_rules(), "CONDITIONAL_ANNIHILATION"@, 16));
    reveal_strlit("UNIVERSAL_INSTANTIATION");
    assert("UNIVERSAL_INSTANTIATION"@.len() != "CONDITIONAL_ANNIHILATION"@.len());
    assert(find_by_name(spec_all_rules(), "CONDITIONAL_ANNIHILATION"@, 16) == find_by_name(spec_all_rules(), "CONDITIONAL_ANNIHILATION"@, 17));
    reveal_strlit("EXISTENTIAL_GENERALIZATION");
    assert("EXISTENTIAL_GENERALIZATION"@.len() != "CONDITIONAL_ANNIHILATION"@.len());
    assert(find_by_name(spec_all_rules(), "CONDITIONAL_ANNIHILATION"@, 17) == find_by_name(spec_all_rules(), "CONDITIONAL_ANNIHILATION"@, 18));
    reveal_strlit("EXISTENTIAL_INSTANTIATION");
    assert("EXISTENTIAL_INSTANTIATION"@.len() != "CONDITIONAL_ANNIHILATION"@.len());
    assert(find_by_name(spec_all_rules(), "CONDITIONAL_ANNIHILATION"@, 18) == find_by_name(spec_all_rules(), "CONDITIONAL_ANNIHILATION"@, 19));
    reveal_strlit("MODUS_TOLLENS");
    assert("MODUS_TOLLENS"@.len() != "CONDITIONAL_ANNIHILATION"@.len());
    assert(find_by_name(spec_all_rules(), "CONDITIONAL_ANNIHILATION"@, 19) == find_by_name(spec_all_rules(), "CONDITIONAL_ANNIHILATION"@, 20));
    reveal_strlit("HYPOTHETICAL_SYLLOGISM");
    assert("HYPOTHETICAL_SYLLOGISM"@.len() != "CONDITIONAL_ANNIHILATION"@.len());
    assert(find_by_name(spec_all_rules(), "CONDITIONAL_ANNIHILATION"@, 20) == find_by_name(spec_all_rules(), "CONDITIONAL_ANNIHILATION"@, 21));
    reveal_strlit("EXCLUDED_MIDDLE");
    assert("EXCLUDED_MIDDLE"@.len() != "CONDITIONAL_ANNIHILATION"@.len());
    assert(find_by_name(spec_all_rules(), "CONDITIONAL_ANNIHILATION"@, 21) == find_by_name(spec_all_rules(), "CONDITIONAL_ANNIHILATION"@, 22));
    reveal_strlit("CONSTRUCTIVE_DILEMMA");
    assert("CONSTRUCTIVE_DILEMMA"@.len() != "CONDITIONAL_ANNIHILATION"@.len());
    assert(find_by_name(spec_all_rules(), "CONDITIONAL_ANNIHILATION"@, 22) == find_by_name(spec_all_rules(), "CONDITIONAL_ANNIHILATION"@, 23));
    reveal_strlit("ASSOCIATION");
    assert("ASSOCIATION"@.len() != "CONDITIONAL_ANNIHILATION"@.len());
    assert(find_by_name(spec_all_rules(), "CONDITIONAL_ANNIHILATION"@, 23) == find_by_name(spec_all_rules(), "CONDITIONAL_ANNIHILATION"@, 24));
    reveal_strlit("COMMUTATION");
    assert("COMMUTATION"@.len() != "CONDITIONAL_ANNIHILATION"@.len());
    assert(find_by_name(spec_all_rules(), "CONDITIONAL_ANNIHILATION"@, 24) == find_by_name(spec_all_rules(), "CONDITIONAL_ANNIHILATION"@, 25));
    reveal_strlit("IDEMPOTENCE");
    assert("IDEMPOTENCE"@.len() != "CONDITIONAL_ANNIHILATION"@.len());
    assert(find_by_name(spec_all_rules(), "CONDITIONAL_ANNIHILATION"@, 25) == find_by_name(spec_all_rules(), "CONDITIONAL_ANNIHILATION"@, 26));
    reveal_strlit("DE_MORGAN");
    assert("DE_MORGAN"@.len() != "CONDITIONAL_ANNIHILATION"@.len());
    assert(find_by_name(spec_all_rules(), "CONDITIONAL_ANNIHILATION"@, 26) == find_by_name(spec_all_rules(), "CONDITIONAL_ANNIHILATION"@, 27));
    reveal_strlit("DISTRIBUTION");
    assert("DISTRIBUTION"@.len() != "CONDITIONAL_ANNIHILATION"@.len());
    assert(find_by_name(spec_all_rules(), "CONDITIONAL_ANNIHILATION"@, 27) == find_by_name(spec_all_rules(), "CONDITIONAL_ANNIHILATION"@, 28));
    reveal_strlit("DOUBLENEGATION_EQUIV");
    assert("DOUBLENEGATION_EQUIV"@.len() != "CONDITIONAL_ANNIHILATION"@.len());
    assert(find_by_name(spec_all_rules(), "CONDITIONAL_ANNIHILATION"@, 28) == find_by_name(spec_all_rules(), "CONDITIONAL_ANNIHILATION"@, 29));
    reveal_strlit("COMPLEMENT");
    assert("COMPLEMENT"@.len() != "CONDITIONAL_ANNIHILATION"@.len());
    assert(find_by_name(spec_all_rules(), "CONDITIONAL_ANNIHILATION"@, 29) == find_by_name(spec_all_rules(), "CONDITIONAL_ANNIHILATION"@, 30));
    reveal_strlit("IDENTITY");
    assert("IDENTITY"@.len() != "CONDITIONAL_ANNIHILATION"@.len());
    assert(find_by_name(spec_all_rules(), "CONDITIONAL_ANNIHILATION"@, 30) == find_by_name(spec_all_rules(), "CONDITIONAL_ANNIHILATION"@, 31));
    reveal_strlit("ANNIHILATION");
    assert("ANNIHILATION"@.len() != "CONDITIONAL_ANNIHILATION"@.len());
    assert(find_by_name(spec_all_rules(), "CONDITIONAL_ANNIHILATION"@, 31) == find_by_name(spec_all_rules(), "CONDITIONAL_ANNIHILATION"@, 32));
    reveal_strlit("INVERSE");
    assert("INVERSE"@.len() != "CONDITIONAL_ANNIHILATION"@.len());
    assert(find_by_name(spec_all_rules(), "CONDITIONAL_ANNIHILATION"@, 32) == find_by_name(spec_all_rules(), "CONDITIONAL_ANNIHILATION"@, 33));
    reveal_strlit("ABSORPTION");
    assert("ABSORPTION"@.len() != "CONDITIONAL_ANNIHILATION"@.len());
    assert(find_by_name(spec_all_rules(), "CONDITIONAL_ANNIHILATION"@, 33) == find_by_name(spec_all_rules(), "CONDITIONAL_ANNIHILATION"@, 34));
    reveal_strlit("REDUCTION");
    assert("REDUCTION"@.len() != "CONDITIONAL_ANNIHILATION"@.len());
    assert(find_by_name(spec_all_rules(), "CONDITIONAL_ANNIHILATION"@, 34) == find_by_name(spec_all_rules(), "CONDITIONAL_ANNIHILATION"@, 35));
    reveal_strlit("ADJACENCY");
    assert("ADJACENCY"@.len() != "CONDITIONAL_ANNIHILATION"@.len());
    assert(find_by_name(spec_all_rules(), "CONDITIONAL_ANNIHILATION"@, 35) == find_by_name(spec_all_rules(), "CONDITIONAL_ANNIHILATION"@, 36));
    reveal_strlit("CONDITIONAL_COMPLEMENT");
    assert("CONDITIONAL_COMPLEMENT"@.len() != "CONDITIONAL_ANNIHILATION"@.len());
    assert(find_by_name(spec_all_rules(), "CONDITIONAL_ANNIHILATION"@, 36) == find_by_name(spec_all_rules(), "CONDITIONAL_ANNIHILATION"@, 37));
    reveal_strlit("CONDITIONAL_IDENTITY");
    assert("CONDITIONAL_IDENTITY"@.len() != "CONDITIONAL_ANNIHILATION"@.len());
    assert(find_by_name(spec_all_rules(), "CONDITIONAL_ANNIHILATION"@, 37) == find_by_name(spec_all_rules(), "CONDITIONAL_ANNIHILATION"@, 38));
    assert(find_by_name(spec_all_rules(), "CONDITIONAL_ANNIHILATION"@, 38) == Some(Rule::Conditional(ConditionalEquivalence::Annihilation)));
}

proof fn lemma_finds_implication()
    ensures
        find_by_name(spec_all_rules(), "IMPLICATION"@, 0) == Some(Rule::Conditional(ConditionalEquivalence::Implication)),
{
    reveal_strlit("IMPLICATION");
    reveal_strlit("REITERATION");
    assert("REITERATION"@[0] != "IMPLICATION"@[0]);
    assert(find_by_name(spec_all_rules(), "IMPLICATION"@, 0) == find_by_name(spec_all_rules(), "IMPLICATION"@, 1));
    reveal_strlit("CONJUNCTION");
    assert("CONJUNCTION"@[0] != "IMPLICATION"@[0]);
    assert(find_by_name(spec_all_rules(), "IMPLICATION"@, 1) == find_by_name(spec_all_rules(), "IMPLICATION"@, 2));
    reveal_strlit("SIMPLIFICATION");
    assert("SIMPLIFICATION"@.len() != "IMPLICATION"@.len());
    assert(find_by_name(spec_all_rules(), "IMPLICATION"@, 2) == find_by_name(spec_all_rules(), "IMPLICATION"@, 3));
    reveal_strlit("ADDITION");
    assert("ADDITION"@.len() != "IMPLICATION"@.len());
    assert(find_by_name(spec_all_rules(), "IMPLICATION"@, 3) == find_by_name(spec_all_rules(), "IMPLICATION"@, 4));
    reveal_strlit("DISJUNCTIVE_SYLLOGISM");
    assert("DISJUNCTIVE_SYLLOGISM"@.len() != "IMPLICATION"@.len());
    assert(find_by_name(spec_all_rules(), "IMPLICATION"@, 4) == find_by_name(spec_all_rules(), "IMPLICATION"@, 5));
    reveal_strlit("CONDITIONAL_PROOF");
    assert("CONDITIONAL_PROOF"@.len() != "IMPLICATION"@.len());
    assert(find_by_name(spec_all_rules(), "IMPLICATION"@, 5) == find_by_name(spec_all_rules(), "IMPLICATION"@, 6));
    reveal_strlit("MODUS_PONENS");
    assert("MODUS_PONENS"@.len() != "IMPLICATION"@.len());
    assert(find_by_name(spec_all_rules(), "IMPLICATION"@, 6) == find_by_name(spec_all_rules(), "IMPLICATION"@, 7));
    reveal_strlit("PROOF_BY_CONTRADICTION");
    assert("PROOF_BY_CONTRADICTION"@.len() != "IMPLICATION"@.len());
    assert(find_by_name(spec_all_rules(), "IMPLICATION"@, 7) == find_by_name(spec_all_rules(), "IMPLICATION"@, 8));
    reveal_strlit("DOUBLENEGATION");
    assert("DOUBLENEGATION"@.len() != "IMPLICATION"@.len());
    assert(find_by_name(spec_all_rules(), "IMPLICATION"@, 8) == find_by_name(spec_all_rules(), "IMPLICATION"@, 9));
    reveal_strlit("CONTRADICTION");
    assert("CONTRADICTION"@.len() != "IMPLICATION"@.len());
    assert(find_by_name(spec_all_rules(), "IMPLICATION"@, 9) == find_by_name(spec_all_rules(), "IMPLICATION"@, 10));
    reveal_strlit("PRINCIPLE_OF_EXPLOSION");
    assert("PRINCIPLE_OF_EXPLOSION"@.len() != "IMPLICATION"@.len());
    assert(find_by_name(spec_all_rules(), "IMPLICATION"@, 10) == find_by_name(spec_all_rules(), "IMPLICATION"@, 11));
    reveal_strlit("BICONDITIONAL_INTRO");
    assert("BICONDITIONAL_INTRO"@.len() != "IMPLICATION"@.len());
    assert(find_by_name(spec_all_rules(), "IMPLICATION"@, 11) == find_by_name(spec_all_rules(), "IMPLICATION"@, 12));
    reveal_strlit("BICONDITIONAL_ELIM");
    assert("BICONDITIONAL_ELIM"@.len() != "IMPLICATION"@.len());
    assert(find_by_name(spec_all_rules(), "IMPLICATION"@, 12) == find_by_name(spec_all_rules(), "IMPLICATION"@, 13));
    reveal_strlit("EQUIVALENCE_INTRO");
    assert("EQUIVALENCE_INTRO"@.len() != "IMPLICATION"@.len());
    assert(find_by_name(spec_all_rules(), "IMPLICATION"@, 13) == find_by_name(spec_all_rules(), "IMPLICATION"@, 14));
    reveal_strlit("EQUIVALENCE_ELIM");
    assert("EQUIVALENCE_ELIM"@.len() != "IMPLICATION"@.len());
    assert(find_by_name(spec_all_rules(), "IMPLICATION"@, 14) == find_by_name(spec_all_rules(), "IMPLICATION"@, 15));
    reveal_strlit("UNIVERSAL_GENERALIZATION");
    assert("UNIVERSAL_GENERALIZATION"@.len() != "IMPLICATION"@.len());
    assert(find_by_name(spec_all_rules(), "IMPLICATION"@, 15) == find_by_name(spec_all_rules(), "IMPLICATION"@, 16));
    reveal_strlit("UNIVERSAL_INSTANTIATION");
    assert("UNIVERSAL_INSTANTIATION"@.len() != "IMPLICATION"@.len());
    assert(find_by_name(spec_all_rules(), "IMPLICATION"@, 16) == find_by_name(spec_all_rules(), "IMPLICATION"@, 17));
    reveal_strlit("EXISTENTIAL_GENERALIZATION");
    assert("EXISTENTIAL_GENERALIZATION"@.len() != "IMPLICATION"@.len());
    assert(find_by_name(spec_all_rules(), "IMPLICATION"@, 17) == find_by_name(spec_all_rules(), "IMPLICATION"@, 18));
    reveal_strlit("EXISTENTIAL_INSTANTIATION");
    assert("EXISTENTIAL_INSTANTIATION"@.len() != "IMPLICATION"@.len());
    assert(find_by_name(spec_all_rules(), "IMPLICATION"@, 18) == find_by_name(spec_all_rules(), "IMPLICATION"@, 19));
    reveal_strlit("MODUS_TOLLENS");
    assert("MODUS_TOLLENS"@.len() != "IMPLICATION"@.len());
    assert(find_by_name(spec_all_rules(), "IMPLICATION"@, 19) == find_by_name(spec_all_rules(), "IMPLICATION"@, 20));
    reveal_strlit("HYPOTHETICAL_SYLLOGISM");
    assert("HYPOTHETICAL_SYLLOGISM"@.len() != "IMPLICATION"@.len());
    assert(find_by_name(spec_all_rules(), "IMPLICATION"@, 20) == find_by_name(spec_all_rules(), "IMPLICATION"@, 21));
    reveal_strlit("EXCLUDED_MIDDLE");
    assert("EXCLUDED_MIDDLE"@.len() != "IMPLICATION"@.len());
    assert(find_by_name(spec_all_rules(), "IMPLICATION"@, 21) == find_by_name(spec_all_rules(), "IMPLICATION"@, 22));
    reveal_strlit("CONSTRUCTIVE_DILEMMA");
    assert("CONSTRUCTIVE_DILEMMA"@.len() != "IMPLICATION"@.len());
    assert(find_by_name(spec_all_rules(), "IMPLICATION"@, 22) == find_by_name(spec_all_rules(), "IMPLICATION"@, 23));
    reveal_strlit("ASSOCIATION");
    assert("ASSOCIATION"@[0] != "IMPLICATION"@[0]);
    assert(find_by_name(spec_all_rules(), "IMPLICATION"@, 23) == find_by_name(spec_all_rules(), "IMPLICATION"@, 24));
    reveal_strlit("COMMUTATION");
    assert("COMMUTATION"@[0] != "IMPLICATION"@[0]);
    assert(find_by_name(spec_all_rules(), "IMPLICATION"@, 24) == find_by_name(spec_all_rules(), "IMPLICATION"@, 25));
    reveal_strlit("IDEMPOTENCE");
    assert("IDEMPOTENCE"@[1] != "IMPLICATION"@[1]);
    assert(find_by_name(spec_all_rules(), "IMPLICATION"@, 25) == find_by_name(spec_all_rules(), "IMPLICATION"@, 26));
    reveal_strlit("DE_MORGAN");
    assert("DE_MORGAN"@.len() != "IMPLICATION"@.len());
    assert(find_by_name(spec_all_rules(), "IMPLICATION"@, 26) == find_by_name(spec_all_rules(), "IMPLICATION"@, 27));
    reveal_strlit("DISTRIBUTION");
    assert("DISTRIBUTION"@.len() != "IMPLICATION"@.len());
    assert(find_by_name(spec_all_rules(), "IMPLICATION"@, 27) == find_by_name(spec_all_rules(), "IMPLICATION"@, 28));
    reveal_strlit("DOUBLENEGATION_EQUIV");
    assert("DOUBLENEGATION_EQUIV"@.len() != "IMPLICATION"@.len());
    assert(find_by_name(spec_all_rules(), "IMPLICATION"@, 28) == find_by_name(spec_all_rules(), "IMPLICATION"@, 29));
    reveal_strlit("COMPLEMENT");
    assert("COMPLEMENT"@.len() != "IMPLICATION"@.len());
    assert(find_by_name(spec_all_rules(), "IMPLICATION"@, 29) == find_by_name(spec_all_rules(), "IMPLICATION"@, 30));
    reveal_strlit("IDENTITY");
    assert("IDENTITY"@.len() != "IMPLICATION"@.len());
    assert(find_by_name(spec_all_rules(), "IMPLICATION"@, 30) == find_by_name(spec_all_rules(), "IMPLICATION"@, 31));
    reveal_strlit("ANNIHILATION");
    assert("ANNIHILATION"@.len() != "IMPLICATION"@.len());
    assert(find_by_name(spec_all_rules(), "IMPLICATION"@, 31) == find_by_name(spec_all_rules(), "IMPLICATION"@, 32));
    reveal_strlit("INVERSE");
    assert("INVERSE"@.len() != "IMPLICATION"@.len());
    assert(find_by_name(spec_all_rules(), "IMPLICATION"@, 32) == find_by_name(spec_all_rules(), "IMPLICATION"@, 33));
    reveal_strlit("ABSORPTION");
    assert("ABSORPTION"@.len() != "IMPLICATION"@.len());
    assert(find_by_name(spec_all_rules(), "IMPLICATION"@, 33) == find_by_name(spec_all_rules(), "IMPLICATION"@, 34));
    reveal_strlit("REDUCTION");
    assert("REDUCTION"@.len() != "IMPLICATION"@.len());
    assert(find_by_name(spec_all_rules(), "IMPLICATION"@, 34) == find_by_name(spec_all_rules(), "IMPLICATION"@, 35));
    reveal_strlit("ADJACENCY");
    assert("ADJACENCY"@.len() != "IMPLICATION"@.len());
    assert(find_by_name(spec_all_rules(), "IMPLICATION"@, 35) == find_by_name(spec_all_rules(), "IMPLICATION"@, 36));
    reveal_strlit("CONDITIONAL_COMPLEMENT");
    assert("CONDITIONAL_COMPLEMENT"@.len() != "IMPLICATION"@.len());
    assert(find_by_name(spec_all_rules(), "IMPLICATION"@, 36) == find_by_name(spec_all_rules(), "IMPLICATION"@, 37));
    reveal_strlit("CONDITIONAL_IDENTITY");
    assert("CONDITIONAL_IDENTITY"@.len() != "IMPLICATION"@.len());
    assert(find_by_name(spec_all_rules(), "IMPLICATION"@, 37) == find_by_name(spec_all_rules(), "IMPLICATION"@, 38));
    reveal_strlit("CONDITIONAL_ANNIHILATION");
    assert("CONDITIONAL_ANNIHILATION"@.len() != "IMPLICATION"@.len());
    assert(find_by_name(spec_all_rules(), "IMPLICATION"@, 38) == find_by_name(spec_all_rules(), "IMPLICATION"@, 39));
    assert(find_by_name(spec_all_rules(), "IMPLICATION"@, 39) == Some(Rule::Conditional(ConditionalEquivalence::Implication)));
}

proof fn lemma_finds_bi_implication()
    ensures
        find_by_name(spec_all_rules(), "BI_IMPLICATION"@, 0) == Some(Rule::Conditional(ConditionalEquivalence::BiImplication)),
{
    reveal_strlit("BI_IMPLICATION");
    reveal_strlit("REITERATION");
    assert("REITERATION"@.len() != "BI_IMPLICATION"@.len());
    assert(find_by_name(spec_all_rules(), "BI_IMPLICATION"@, 0) == find_by_name(spec_all_rules(), "BI_IMPLICATION"@, 1));
    reveal_strlit("CONJUNCTION");
    assert("CONJUNCTION"@.len() != "BI_IMPLICATION"@.len());
    assert(find_by_name(spec_all_rules(), "BI_IMPLICATION"@, 1) == find_by_name(spec_all_rules(), "BI_IMPLICATION"@, 2));
    reveal_strlit("SIMPLIFICATION");
    assert("SIMPLIFICATION"@[0] != "BI_IMPLICATION"@[0]);
    assert(find_by_name(spec_all_rules(), "BI_IMPLICATION"@, 2) == find_by_name(spec_all_rules(), "BI_IMPLICATION"@, 3));
    reveal_strlit("ADDITION");
    assert("ADDITION"@.len() != "BI_IMPLICATION"@.len());
    assert(find_by_name(spec_all_rules(), "BI_IMPLICATION"@, 3) == find_by_name(spec_all_rules(), "BI_IMPLICATION"@, 4));
    reveal_strlit("DISJUNCTIVE_SYLLOGISM");
    assert("DISJUNCTIVE_SYLLOGISM"@.len() != "BI_IMPLICATION"@.len());
    assert(find_by_name(spec_all_rules(), "BI_IMPLICATION"@, 4) == find_by_name(spec_all_rules(), "BI_IMPLICATION"@, 5));
    reveal_strlit("CONDITIONAL_PROOF");
    assert("CONDITIONAL_PROOF"@.len() != "BI_IMPLICATION"@.len());
    assert(find_by_name(spec_all_rules(), "BI_IMPLICATION"@, 5) == find_by_name(spec_all_rules(), "BI_IMPLICATION"@, 6));
    reveal_strlit("MODUS_PONENS");
    assert("MODUS_PONENS"@.len() != "BI_IMPLICATION"@.len());
    assert(find_by_name(spec_all_rules(), "BI_IMPLICATION"@, 6) == find_by_name(spec_all_rules(), "BI_IMPLICATION"@, 7));
    reveal_strlit("PROOF_BY_CONTRADICTION");
    assert("PROOF_BY_CONTRADICTION"@.len() != "BI_IMPLICATION"@.len());
    assert(find_by_name(spec_all_rules(), "BI_IMPLICATION"@, 7) == find_by_name(spec_all_rules(), "BI_IMPLICATION"@, 8));
    reveal_strlit("DOUBLENEGATION");
    assert("DOUBLENEGATION"@[0] != "BI_IMPLICATION"@[0]);
    assert(find_by_name(spec_all_rules(), "BI_IMPLICATION"@, 8) == find_by_name(spec_all_rules(), "BI_IMPLICATION"@, 9));
    reveal_strlit("CONTRADICTION");
    assert("CONTRADICTION"@.len() != "BI_IMPLICATION"@.len());
    assert(find_by_name(spec_all_rules(), "BI_IMPLICATION"@, 9) == find_by_name(spec_all_rules(), "BI_IMPLICATION"@, 10));
    reveal_strlit("PRINCIPLE_OF_EXPLOSION");
    assert("PRINCIPLE_OF_EXPLOSION"@.len() != "BI_IMPLICATION"@.len());
    assert(find_by_name(spec_all_rules(), "BI_IMPLICATION"@, 10) == find_by_name(spec_all_rules(), "BI_IMPLICATION"@, 11));
    reveal_strlit("BICONDITIONAL_INTRO");
    assert("BICONDITIONAL_INTRO"@.len() != "BI_IMPLICATION"@.len());
    assert(find_by_name(spec_all_rules(), "BI_IMPLICATION"@, 11) == find_by_name(spec_all_rules(), "BI_IMPLICATION"@, 12));
    reveal_strlit("BICONDITIONAL_ELIM");
    assert("BICONDITIONAL_ELIM"@.len() != "BI_IMPLICATION"@.len());
    assert(find_by_name(spec_all_rules(), "BI_IMPLICATION"@, 12) == find_by_name(spec_all_rules(), "BI_IMPLICATION"@, 13));
    reveal_strlit("EQUIVALENCE_INTRO");
    assert("EQUIVALENCE_INTRO"@.len() != "BI_IMPLICATION"@.len());
    assert(find_by_name(spec_all_rules(), "BI_IMPLICATION"@, 13) == find_by_name(spec_all_rules(), "BI_IMPLICATION"@, 14));
    reveal_strlit("EQUIVALENCE_ELIM");
    assert("EQUIVALENCE_ELIM"@.len() != "BI_IMPLICATION"@.len());
    assert(find_by_name(spec_all_rules(), "BI_IMPLICATION"@, 14) == find_by_name(spec_all_rules(), "BI_IMPLICATION"@, 15));
    reveal_strlit("UNIVERSAL_GENERALIZATION");
    assert("UNIVERSAL_GENERALIZATION"@.len() != "BI_IMPLICATION"@.len());
    assert(find_by_name(spec_all_rules(), "BI_IMPLICATION"@, 15) == find_by_name(spec_all_rules(), "BI_IMPLICATION"@, 16));
    reveal_strlit("UNIVERSAL_INSTANTIATION");
    assert("UNIVERSAL_INSTANTIATION"@.len() != "BI_IMPLICATION"@.len());
    assert(find_by_name(spec_all_rules(), "BI_IMPLICATION"@, 16) == find_by_name(spec_all_rules(), "BI_IMPLICATION"@, 17));
    reveal_strlit("EXISTENTIAL_GENERALIZATION");
    assert("EXISTENTIAL_GENERALIZATION"@.len() != "BI_IMPLICATION"@.len());
    assert(find_by_name(spec_all_rules(), "BI_IMPLICATION"@, 17) == find_by_name(spec_all_rules(), "BI_IMPLICATION"@, 18));
    reveal_strlit("EXISTENTIAL_INSTANTIATION");
    assert("EXISTENTIAL_INSTANTIATION"@.len() != "BI_IMPLICATION"@.len());
    assert(find_by_name(spec_all_rules(), "BI_IMPLICATION"@, 18) == find_by_name(spec_all_rules(), "BI_IMPLICATION"@, 19));
    reveal_strlit("MODUS_TOLLENS");
    assert("MODUS_TOLLENS"@.len() != "BI_IMPLICATION"@.len());
    assert(find_by_name(spec_all_rules(), "BI_IMPLICATION"@, 19) == find_by_name(spec_all_rules(), "BI_IMPLICATION"@, 20));
    reveal_strlit("HYPOTHETICAL_SYLLOGISM");
    assert("HYPOTHETICAL_SYLLOGISM"@.len() != "BI_IMPLICATION"@.len());
    assert(find_by_name(spec_all_rules(), "BI_IMPLICATION"@, 20) == find_by_name(spec_all_rules(), "BI_IMPLICATION"@, 21));
    reveal_strlit("EXCLUDED_MIDDLE");
    assert("EXCLUDED_MIDDLE"@.len() != "BI_IMPLICATION"@.len());
    assert(find_by_name(spec_all_rules(), "BI_IMPLICATION"@, 21) == find_by_name(spec_all_rules(), "BI_IMPLICATION"@, 22));
    reveal_strlit("CONSTRUCTIVE_DILEMMA");
    assert("CONSTRUCTIVE_DILEMMA"@.len() != "BI_IMPLICATION"@.len());
    assert(find_by_name(spec_all_rules(), "BI_IMPLICATION"@, 22) == find_by_name(spec_all_rules(), "BI_IMPLICATION"@, 23));
    reveal_strlit("ASSOCIATION");
    assert("ASSOCIATION"@.len() != "BI_IMPLICATION"@.len());
    assert(find_by_name(spec_all_rules(), "BI_IMPLICATION"@, 23) == find_by_name(spec_all_rules(), "BI_IMPLICATION"@, 24));
    reveal_strlit("COMMUTATION");
    assert("COMMUTATION"@.len() != "BI_IMPLICATION"@.len());
    assert(find_by_name(spec_all_rules(), "BI_IMPLICATION"@, 24) == find_by_name(spec_all_rules(), "BI_IMPLICATION"@, 25));
    reveal_strlit("IDEMPOTENCE");
    assert("IDEMPOTENCE"@.len() != "BI_IMPLICATION"@.len());
    assert(find_by_name(spec_all_rules(), "BI_IMPLICATION"@, 25) == find_by_name(spec_all_rules(), "BI_IMPLICATION"@, 26));
    reveal_strlit("DE_MORGAN");
    assert("DE_MORGAN"@.len() != "BI_IMPLICATION"@.len());
    assert(find_by_name(spec_all_rules(), "BI_IMPLICATION"@, 26) == find_by_name(spec_all_rules(), "BI_IMPLICATION"@, 27));
    reveal_strlit("DISTRIBUTION");
    assert("DISTRIBUTION"@.len() != "BI_IMPLICATION"@.len());
    assert(find_by_name(spec_all_rules(), "BI_IMPLICATION"@, 27) == find_by_name(spec_all_rules(), "BI_IMPLICATION"@, 28));
    reveal_strlit("DOUBLENEGATION_EQUIV");
    assert("DOUBLENEGATION_EQUIV"@.len() != "BI_IMPLICATION"@.len());
    assert(find_by_name(spec_all_rules(), "BI_IMPLICATION"@, 28) == find_by_name(spec_all_rules(), "BI_IMPLICATION"@, 29));
    reveal_strlit("COMPLEMENT");
    assert("COMPLEMENT"@.len() != "BI_IMPLICATION"@.len());
    assert(find_by_name(spec_all_rules(), "BI_IMPLICATION"@, 29) == find_by_name(spec_all_rules(), "BI_IMPLICATION"@, 30));
    reveal_strlit("IDENTITY");
    assert("IDENTITY"@.len() != "BI_IMPLICATION"@.len());
    assert(find_by_name(spec_all_rules(), "BI_IMPLICATION"@, 30) == find_by_name(spec_all_rules(), "BI_IMPLICATION"@, 31));
    reveal_strlit("ANNIHILATION");
    assert("ANNIHILATION"@.len() != "BI_IMPLICATION"@.len());
    assert(find_by_name(spec_all_rules(), "BI_IMPLICATION"@, 31) == find_by_name(spec_all_rules(), "BI_IMPLICATION"@, 32));
    reveal_strlit("INVERSE");
    assert("INVERSE"@.len() != "BI_IMPLICATION"@.len());
    assert(find_by_name(spec_all_rules(), "BI_IMPLICATION"@, 32) == find_by_name(spec_all_rules(), "BI_IMPLICATION"@, 33));
    reveal_strlit("ABSORPTION");
    assert("ABSORPTION"@.len() != "BI_IMPLICATION"@.len());
    assert(find_by_name(spec_all_rules(), "BI_IMPLICATION"@, 33) == find_by_name(spec_all_rules(), "BI_IMPLICATION"@, 34));
    reveal_strlit("REDUCTION");
    assert("REDUCTION"@.len() != "BI_IMPLICATION"@.len());
    assert(find_by_name(spec_all_rules(), "BI_IMPLICATION"@, 34) == find_by_name(spec_all_rules(), "BI_IMPLICATION"@, 35));
    reveal_strlit("ADJACENCY");
    assert("ADJACENCY"@.len() != "BI_IMPLICATION"@.len());
    assert(find_by_name(spec_all_rules(), "BI_IMPLICATION"@, 35) == find_by_name(spec_all_rules(), "BI_IMPLICATION"@, 36));
    reveal_strlit("CONDITIONAL_COMPLEMENT");
    assert("CONDITIONAL_COMPLEMENT"@.len() != "BI_IMPLICATION"@.len());
    assert(find_by_name(spec_all_rules(), "BI_IMPLICATION"@, 36) == find_by_name(spec_all_rules(), "BI_IMPLICATION"@, 37));
    reveal_strlit("CONDITIONAL_IDENTITY");
    assert("CONDITIONAL_IDENTITY"@.len() != "BI_IMPLICATION"@.len());
    assert(find_by_name(spec_all_rules(), "BI_IMPLICATION"@, 37) == find_by_name(spec_all_rules(), "BI_IMPLICATION"@, 38));
    reveal_strlit("CONDITIONAL_ANNIHILATION");
    assert("CONDITIONAL_ANNIHILATION"@.len() != "BI_IMPLICATION"@.len());
    assert(find_by_name(spec_all_rules(), "BI_IMPLICATION"@, 38) == find_by_name(spec_all_rules(), "BI_IMPLICATION"@, 39));
    reveal_strlit("IMPLICATION");
    assert("IMPLICATION"@.len() != "BI_IMPLICATION"@.len());
    assert(find_by_name(spec_all_rules(), "BI_IMPLICATION"@, 39) == find_by_name(spec_all_rules(), "BI_IMPLICATION"@, 40));
    assert(find_by_name(spec_all_rules(), "BI_IMPLICATION"@, 40) == Some(Rule::Conditional(ConditionalEquivalence::BiImplication)));
}

proof fn lemma_finds_contraposition()
    ensures
        find_by_name(spec_all_rules(), "CONTRAPOSITION"@, 0) == Some(Rule::Conditional(ConditionalEquivalence::Contraposition)),
{
    reveal_strlit("CONTRAPOSITION");
    reveal_strlit("REITERATION");
    assert("REITERATION"@.len() != "CONTRAPOSITION"@.len());
    assert(find_by_name(spec_all_rules(), "CONTRAPOSITION"@, 0) == find_by_name(spec_all_rules(), "CONTRAPOSITION"@, 1));
    reveal_strlit("CONJUNCTION");
    assert("CONJUNCTION"@.len() != "CONTRAPOSITION"@.len());
    assert(find_by_name(spec_all_rules(), "CONTRAPOSITION"@, 1) == find_by_name(spec_all_rules(), "CONTRAPOSITION"@, 2));
    reveal_strlit("SIMPLIFICATION");
    assert("SIMPLIFICATION"@[0] != "CONTRAPOSITION"@[0]);
    assert(find_by_name(spec_all_rules(), "CONTRAPOSITION"@, 2) == find_by_name(spec_all_rules(), "CONTRAPOSITION"@, 3));
    reveal_strlit("ADDITION");
    assert("ADDITION"@.len() != "CONTRAPOSITION"@.len());
    assert(find_by_name(spec_all_rules(), "CONTRAPOSITION"@, 3) == find_by_name(spec_all_rules(), "CONTRAPOSITION"@, 4));
    reveal_strlit("DISJUNCTIVE_SYLLOGISM");
    assert("DISJUNCTIVE_SYLLOGISM"@.len() != "CONTRAPOSITION"@.len());
    assert(find_by_name(spec_all_rules(), "CONTRAPOSITION"@, 4) == find_by_name(spec_all_rules(), "CONTRAPOSITION"@, 5));
    reveal_strlit("CONDITIONAL_PROOF");
    assert("CONDITIONAL_PROOF"@.len() != "CONTRAPOSITION"@.len());
    assert(find_by_name(spec_all_rules(), "CONTRAPOSITION"@, 5) == find_by_name(spec_all_rules(), "CONTRAPOSITION"@, 6));
    reveal_strlit("MODUS_PONENS");
    assert("MODUS_PONENS"@.len() != "CONTRAPOSITION"@.len());
    assert(find_by_name(spec_all_rules(), "CONTRAPOSITION"@, 6) == find_by_name(spec_all_rules(), "CONTRAPOSITION"@, 7));
    reveal_strlit("PROOF_BY_CONTRADICTION");
    assert("PROOF_BY_CONTRADICTION"@.len() != "CONTRAPOSITION"@.len());
    assert(find_by_name(spec_all_rules(), "CONTRAPOSITION"@, 7) == find_by_name(spec_all_rules(), "CONTRAPOSITION"@, 8));
    reveal_strlit("DOUBLENEGATION");
    assert("DOUBLENEGATION"@[0] != "CONTRAPOSITION"@[0]);
    assert(find_by_name(spec_all_rules(), "CONTRAPOSITION"@, 8) == find_by_name(spec_all_rules(), "CONTRAPOSITION"@, 9));
    reveal_strlit("CONTRADICTION");
    assert("CONTRADICTION"@.len() != "CONTRAPOSITION"@.len());
    assert(find_by_name(spec_all_rules(), "CONTRAPOSITION"@, 9) == find_by_name(spec_all_rules(), "CONTRAPOSITION"@, 10));
    reveal_strlit("PRINCIPLE_OF_EXPLOSION");
    assert("PRINCIPLE_OF_EXPLOSION"@.len() != "CONTRAPOSITION"@.len());
    assert(find_by_name(spec_all_rules(), "CONTRAPOSITION"@, 10) == find_by_name(spec_all_rules(), "CONTRAPOSITION"@, 11));
    reveal_strlit("BICONDITIONAL_INTRO");
    assert("BICONDITIONAL_INTRO"@.len() != "CONTRAPOSITION"@.len());
    assert(find_by_name(spec_all_rules(), "CONTRAPOSITION"@, 11) == find_by_name(spec_all_rules(), "CONTRAPOSITION"@, 12));
    reveal_strlit("BICONDITIONAL_ELIM");
    assert("BICONDITIONAL_ELIM"@.len() != "CONTRAPOSITION"@.len());
    assert(find_by_name(spec_all_rules(), "CONTRAPOSITION"@, 12) == find_by_name(spec_all_rules(), "CONTRAPOSITION"@, 13));
    reveal_strlit("EQUIVALENCE_INTRO");
    assert("EQUIVALENCE_INTRO"@.len() != "CONTRAPOSITION"@.len());
    assert(find_by_name(spec_all_rules(), "CONTRAPOSITION"@, 13) == find_by_name(spec_all_rules(), "CONTRAPOSITION"@, 14));
    reveal_strlit("EQUIVALENCE_ELIM");
    assert("EQUIVALENCE_ELIM"@.len() != "CONTRAPOSITION"@.len());
    assert(find_by_name(spec_all_rules(), "CONTRAPOSITION"@, 14) == find_by_name(spec_all_rules(), "CONTRAPOSITION"@, 15));
    reveal_strlit("UNIVERSAL_GENERALIZATION");
    assert("UNIVERSAL_GENERALIZATION"@.len() != "CONTRAPOSITION"@.len());
    assert(find_by_name(spec_all_rules(), "CONTRAPOSITION"@, 15) == find_by_name(spec_all_rules(), "CONTRAPOSITION"@, 16));
    reveal_strlit("UNIVERSAL_INSTANTIATION");
    assert("UNIVERSAL_INSTANTIATION"@.len() != "CONTRAPOSITION"@.len());
    assert(find_by_name(spec_all_rules(), "CONTRAPOSITION"@, 16) == find_by_name(spec_all_rules(), "CONTRAPOSITION"@, 17));
    reveal_strlit("EXISTENTIAL_GENERALIZATION");
    assert("EXISTENTIAL_GENERALIZATION"@.len() != "CONTRAPOSITION"@.len());
    assert(find_by_name(spec_all_rules(), "CONTRAPOSITION"@, 17) == find_by_name(spec_all_rules(), "CONTRAPOSITION"@, 18));
    reveal_strlit("EXISTENTIAL_INSTANTIATION");
    assert("EXISTENTIAL_INSTANTIATION"@.len() != "CONTRAPOSITION"@.len());
    assert(find_by_name(spec_all_rules(), "CONTRAPOSITION"@, 18) == find_by_name(spec_all_rules(), "CONTRAPOSITION"@, 19));
    reveal_strlit("MODUS_TOLLENS");
    assert("MODUS_TOLLENS"@.len() != "CONTRAPOSITION"@.len());
    assert(find_by_name(spec_all_rules(), "CONTRAPOSITION"@, 19) == find_by_name(spec_all_rules(), "CONTRAPOSITION"@, 20));
    reveal_strlit("HYPOTHETICAL_SYLLOGISM");
    assert("HYPOTHETICAL_SYLLOGISM"@.len() != "CONTRAPOSITION"@.len());
    assert(find_by_name(spec_all_rules(), "CONTRAPOSITION"@, 20) == find_by_name(spec_all_rules(), "CONTRAPOSITION"@, 21));
    reveal_strlit("EXCLUDED_MIDDLE");
    assert("EXCLUDED_MIDDLE"@.len() != "CONTRAPOSITION"@.len());
    assert(find_by_name(spec_all_rules(), "CONTRAPOSITION"@, 21) == find_by_name(spec_all_rules(), "CONTRAPOSITION"@, 22));
    reveal_strlit("CONSTRUCTIVE_DILEMMA");
    assert("CONSTRUCTIVE_DILEMMA"@.len() != "CONTRAPOSITION"@.len());
    assert(find_by_name(spec_all_rules(), "CONTRAPOSITION"@, 22) == find_by_name(spec_all_rules(), "CONTRAPOSITION"@, 23));
    reveal_strlit("ASSOCIATION");
    assert("ASSOCIATION"@.len() != "CONTRAPOSITION"@.len());
    assert(find_by_name(spec_all_rules(), "CONTRAPOSITION"@, 23) == find_by_name(spec_all_rules(), "CONTRAPOSITION"@, 24));
    reveal_strlit("COMMUTATION");
    assert("COMMUTATION"@.len() != "CONTRAPOSITION"@.len());
    assert(find_by_name(spec_all_rules(), "CONTRAPOSITION"@, 24) == find_by_name(spec_all_rules(), "CONTRAPOSITION"@, 25));
    reveal_strlit("IDEMPOTENCE");
    assert("IDEMPOTENCE"@.len() != "CONTRAPOSITION"@.len());
    assert(find_by_name(spec_all_rules(), "CONTRAPOSITION"@, 25) == find_by_name(spec_all_rules(), "CONTRAPOSITION"@, 26));
    reveal_strlit("DE_MORGAN");
    assert("DE_MORGAN"@.len() != "CONTRAPOSITION"@.len());
    assert(find_by_name(spec_all_rules(), "CONTRAPOSITION"@, 26) == find_by_name(spec_all_rules(), "CONTRAPOSITION"@, 27));
    reveal_strlit("DISTRIBUTION");
    assert("DISTRIBUTION"@.len() != "CONTRAPOSITION"@.len());
    assert(find_by_name(spec_all_rules(), "CONTRAPOSITION"@, 27) == find_by_name(spec_all_rules(), "CONTRAPOSITION"@, 28));
    reveal_strlit("DOUBLENEGATION_EQUIV");
    assert("DOUBLENEGATION_EQUIV"@.len() != "CONTRAPOSITION"@.len());
    assert(find_by_name(spec_all_rules(), "CONTRAPOSITION"@, 28) == find_by_name(spec_all_rules(), "CONTRAPOSITION"@, 29));
    reveal_strlit("COMPLEMENT");
    assert("COMPLEMENT"@.len() != "CONTRAPOSITION"@.len());
    assert(find_by_name(spec_all_rules(), "CONTRAPOSITION"@, 29) == find_by_name(spec_all_rules(), "CONTRAPOSITION"@, 30));
    reveal_strlit("IDENTITY");
    assert("IDENTITY"@.len() != "CONTRAPOSITION"@.len());
    assert(find_by_name(spec_all_rules(), "CONTRAPOSITION"@, 30) == find_by_name(spec_all_rules(), "CONTRAPOSITION"@, 31));
    reveal_strlit("ANNIHILATION");
    assert("ANNIHILATION"@.len() != "CONTRAPOSITION"@.len());
    assert(find_by_name(spec_all_rules(), "CONTRAPOSITION"@, 31) == find_by_name(spec_all_rules(), "CONTRAPOSITION"@, 32));
    reveal_strlit("INVERSE");
    assert("INVERSE"@.len() != "CONTRAPOSITION"@.len());
    assert(find_by_name(spec_all_rules(), "CONTRAPOSITION"@, 32) == find_by_name(spec_all_rules(), "CONTRAPOSITION"@, 33));
    reveal_strlit("ABSORPTION");
    assert("ABSORPTION"@.len() != "CONTRAPOSITION"@.len());
    assert(find_by_name(spec_all_rules(), "CONTRAPOSITION"@, 33) == find_by_name(spec_all_rules(), "CONTRAPOSITION"@, 34));
    reveal_strlit("REDUCTION");
    assert("REDUCTION"@.len() != "CONTRAPOSITION"@.len());
    assert(find_by_name(spec_all_rules(), "CONTRAPOSITION"@, 34) == find_by_name(spec_all_rules(), "CONTRAPOSITION"@, 35));
    reveal_strlit("ADJACENCY");
    assert("ADJACENCY"@.len() != "CONTRAPOSITION"@.len());
    assert(find_by_name(spec_all_rules(), "CONTRAPOSITION"@, 35) == find_by_name(spec_all_rules(), "CONTRAPOSITION"@, 36));
    reveal_strlit("CONDITIONAL_COMPLEMENT");
    assert("CONDITIONAL_COMPLEMENT"@.len() != "CONTRAPOSITION"@.len());
    assert(find_by_name(spec_all_rules(), "CONTRAPOSITION"@, 36) == find_by_name(spec_all_rules(), "CONTRAPOSITION"@, 37));
    reveal_strlit("CONDITIONAL_IDENTITY");
    assert("CONDITIONAL_IDENTITY"@.len() != "CONTRAPOSITION"@.len());
    assert(find_by_name(spec_all_rules(), "CONTRAPOSITION"@, 37) == find_by_name(spec_all_rules(), "CONTRAPOSITION"@, 38));
    reveal_strlit("CONDITIONAL_ANNIHILATION");
    assert("CONDITIONAL_ANNIHILATION"@.len() != "CONTRAPOSITION"@.len());
    assert(find_by_name(spec_all_rules(), "CONTRAPOSITION"@, 38) == find_by_name(spec_all_rules(), "CONTRAPOSITION"@, 39));
    reveal_strlit("IMPLICATION");
    assert("IMPLICATION"@.len() != "CONTRAPOSITION"@.len());
    assert(find_by_name(spec_all_rules(), "CONTRAPOSITION"@, 39) == find_by_name(spec_all_rules(), "CONTRAPOSITION"@, 40));
    reveal_strlit("BI_IMPLICATION");
    assert("BI_IMPLICATION"@[0] != "CONTRAPOSITION"@[0]);
    assert(find_by_name(spec_all_rules(), "CONTRAPOSITION"@, 40) == find_by_name(spec_all_rules(), "CONTRAPOSITION"@, 41));
    assert(find_by_name(spec_all_rules(), "CONTRAPOSITION"@, 41) == Some(Rule::Conditional(ConditionalEquivalence::Contraposition)));
}

proof fn lemma_finds_currying()
    ensures
        find_by_name(spec_all_rules(), "CURRYING"@, 0) == Some(Rule::Conditional(ConditionalEquivalence::Currying)),
{
    reveal_strlit("CURRYING");
    reveal_strlit("REITERATION");
    assert("REITERATION"@.len() != "CURRYING"@.len());
    assert(find_by_name(spec_all_rules(), "CURRYING"@, 0) == find_by_name(spec_all_rules(), "CURRYING"@, 1));
    reveal_strlit("CONJUNCTION");
    assert("CONJUNCTION"@.len() != "CURRYING"@.len());
    assert(find_by_name(spec_all_rules(), "CURRYING"@, 1) == find_by_name(spec_all_rules(), "CURRYING"@, 2));
    reveal_strlit("SIMPLIFICATION");
    assert("SIMPLIFICATION"@.len() != "CURRYING"@.len());
    assert(find_by_name(spec_all_rules(), "CURRYING"@, 2) == find_by_name(spec_all_rules(), "CURRYING"@, 3));
    reveal_strlit("ADDITION");
    assert("ADDITION"@[0] != "CURRYING"@[0]);
    assert(find_by_name(spec_all_rules(), "CURRYING"@, 3) == find_by_name(spec_all_rules(), "CURRYING"@, 4));
    reveal_strlit("DISJUNCTIVE_SYLLOGISM");
    assert("DISJUNCTIVE_SYLLOGISM"@.len() != "CURRYING"@.len());
    assert(find_by_name(spec_all_rules(), "CURRYING"@, 4) == find_by_name(spec_all_rules(), "CURRYING"@, 5));
    reveal_strlit("CONDITIONAL_PROOF");
    assert("CONDITIONAL_PROOF"@.len() != "CURRYING"@.len());
    assert(find_by_name(spec_all_rules(), "CURRYING"@, 5) == find_by_name(spec_all_rules(), "CURRYING"@, 6));
    reveal_strlit("MODUS_PONENS");
    assert("MODUS_PONENS"@.len() != "CURRYING"@.len());
    assert(find_by_name(spec_all_rules(), "CURRYING"@, 6) == find_by_name(spec_all_rules(), "CURRYING"@, 7));
    reveal_strlit("PROOF_BY_CONTRADICTION");
    assert("PROOF_BY_CONTRADICTION"@.len() != "CURRYING"@.len());
    assert(find_by_name(spec_all_rules(), "CURRYING"@, 7) == find_by_name(spec_all_rules(), "CURRYING"@, 8));
    reveal_strlit("DOUBLENEGATION");
    assert("DOUBLENEGATION"@.len() != "CURRYING"@.len());
    assert(find_by_name(spec_all_rules(), "CURRYING"@, 8) == find_by_name(spec_all_rules(), "CURRYING"@, 9));
    reveal_strlit("CONTRADICTION");
    assert("CONTRADICTION"@.len() != "CURRYING"@.len());
    assert(find_by_name(spec_all_rules(), "CURRYING"@, 9) == find_by_name(spec_all_rules(), "CURRYING"@, 10));
    reveal_strlit("PRINCIPLE_OF_EXPLOSION");
    assert("PRINCIPLE_OF_EXPLOSION"@.len() != "CURRYING"@.len());
    assert(find_by_name(spec_all_rules(), "CURRYING"@, 10) == find_by_name(spec_all_rules(), "CURRYING"@, 11));
    reveal_strlit("BICONDITIONAL_INTRO");
    assert("BICONDITIONAL_INTRO"@.len() != "CURRYING"@.len());
    assert(find_by_name(spec_all_rules(), "CURRYING"@, 11) == find_by_name(spec_all_rules(), "CURRYING"@, 12));
    reveal_strlit("BICONDITIONAL_ELIM");
    assert("BICONDITIONAL_ELIM"@.len() != "CURRYING"@.len());
    assert(find_by_name(spec_all_rules(), "CURRYING"@, 12) == find_by_name(spec_all_rules(), "CURRYING"@, 13));
    reveal_strlit("EQUIVALENCE_INTRO");
    assert("EQUIVALENCE_INTRO"@.len() != "CURRYING"@.len());
    assert(find_by_name(spec_all_rules(), "CURRYING"@, 13) == find_by_name(spec_all_rules(), "CURRYING"@, 14));
    reveal_strlit("EQUIVALENCE_ELIM");
    assert("EQUIVALENCE_ELIM"@.len() != "CURRYING"@.len());
    assert(find_by_name(spec_all_rules(), "CURRYING"@, 14) == find_by_name(spec_all_rules(), "CURRYING"@, 15));
    reveal_strlit("UNIVERSAL_GENERALIZATION");
    assert("UNIVERSAL_GENERALIZATION"@.len() != "CURRYING"@.len());
    assert(find_by_name(spec_all_rules(), "CURRYING"@, 15) == find_by_name(spec_all_rules(), "CURRYING"@, 16));
    reveal_strlit("UNIVERSAL_INSTANTIATION");
    assert("UNIVERSAL_INSTANTIATION"@.len() != "CURRYING"@.len());
    assert(find_by_name(spec_all_rules(), "CURRYING"@, 16) == find_by_name(spec_all_rules(), "CURRYING"@, 17));
    reveal_strlit("EXISTENTIAL_GENERALIZATION");
    assert("EXISTENTIAL_GENERALIZATION"@.len() != "CURRYING"@.len());
    assert(find_by_name(spec_all_rules(), "CURRYING"@, 17) == find_by_name(spec_all_rules(), "CURRYING"@, 18));
    reveal_strlit("EXISTENTIAL_INSTANTIATION");
    assert("EXISTENTIAL_INSTANTIATION"@.len() != "CURRYING"@.len());
    assert(find_by_name(spec_all_rules(), "CURRYING"@, 18) == find_by_name(spec_all_rules(), "CURRYING"@, 19));
    reveal_strlit("MODUS_TOLLENS");
    assert("MODUS_TOLLENS"@.len() != "CURRYING"@.len());
    assert(find_by_name(spec_all_rules(), "CURRYING"@, 19) == find_by_name(spec_all_rules(), "CURRYING"@, 20));
    reveal_strlit("HYPOTHETICAL_SYLLOGISM");
    assert("HYPOTHETICAL_SYLLOGISM"@.len() != "CURRYING"@.len());
    assert(find_by_name(spec_all_rules(), "CURRYING"@, 20) == find_by_name(spec_all_rules(), "CURRYING"@, 21));
    reveal_strlit("EXCLUDED_MIDDLE");
    assert("EXCLUDED_MIDDLE"@.len() != "CURRYING"@.len());
    assert(find_by_name(spec_all_rules(), "CURRYING"@, 21) == find_by_name(spec_all_rules(), "CURRYING"@, 22));
    reveal_strlit("CONSTRUCTIVE_DILEMMA");
    assert("CONSTRUCTIVE_DILEMMA"@.len() != "CURRYING"@.len());
    assert(find_by_name(spec_all_rules(), "CURRYING"@, 22) == find_by_name(spec_all_rules(), "CURRYING"@, 23));
    reveal_strlit("ASSOCIATION");
    assert("ASSOCIATION"@.len() != "CURRYING"@.len());
    assert(find_by_name(spec_all_rules(), "CURRYING"@, 23) == find_by_name(spec_all_rules(), "CURRYING"@, 24));
    reveal_strlit("COMMUTATION");
    assert("COMMUTATION"@.len() != "CURRYING"@.len());
    assert(find_by_name(spec_all_rules(), "CURRYING"@, 24) == find_by_name(spec_all_rules(), "CURRYING"@, 25));
    reveal_strlit("IDEMPOTENCE");
    assert("IDEMPOTENCE"@.len() != "CURRYING"@.len());
    assert(find_by_name(spec_all_rules(), "CURRYING"@, 25) == find_by_name(spec_all_rules(), "CURRYING"@, 26));
    reveal_strlit("DE_MORGAN");
    assert("DE_MORGAN"@.len() != "CURRYING"@.len());
    assert(find_by_name(spec_all_rules(), "CURRYING"@, 26) == find_by_name(spec_all_rules(), "CURRYING"@, 27));
    reveal_strlit("DISTRIBUTION");
    assert("DISTRIBUTION"@.len() != "CURRYING"@.len());
    assert(find_by_name(spec_all_rules(), "CURRYING"@, 27) == find_by_name(spec_all_rules(), "CURRYING"@, 28));
    reveal_strlit("DOUBLENEGATION_EQUIV");
    assert("DOUBLENEGATION_EQUIV"@.len() != "CURRYING"@.len());
    assert(find_by_name(spec_all_rules(), "CURRYING"@, 28) == find_by_name(spec_all_rules(), "CURRYING"@, 29));
    reveal_strlit("COMPLEMENT");
    assert("COMPLEMENT"@.len() != "CURRYING"@.len());
    assert(find_by_name(spec_all_rules(), "CURRYING"@, 29) == find_by_name(spec_all_rules(), "CURRYING"@, 30));
    reveal_strlit("IDENTITY");
    assert("IDENTITY"@[0] != "CURRYING"@[0]);
    assert(find_by_name(spec_all_rules(), "CURRYING"@, 30) == find_by_name(spec_all_rules(), "CURRYING"@, 31));
    reveal_strlit("ANNIHILATION");
    assert("ANNIHILATION"@.len() != "CURRYING"@.len());
    assert(find_by_name(spec_all_rules(), "CURRYING"@, 31) == find_by_name(spec_all_rules(), "CURRYING"@, 32));
    reveal_strlit("INVERSE");
    assert("INVERSE"@.len() != "CURRYING"@.len());
    assert(find_by_name(spec_all_rules(), "CURRYING"@, 32) == find_by_name(spec_all_rules(), "CURRYING"@, 33));
    reveal_strlit("ABSORPTION");
    assert("ABSORPTION"@.len() != "CURRYING"@.len());
    assert(find_by_name(spec_all_rules(), "CURRYING"@, 33) == find_by_name(spec_all_rules(), "CURRYING"@, 34));
    reveal_strlit("REDUCTION");
    assert("REDUCTION"@.len() != "CURRYING"@.len());
    assert(find_by_name(spec_all_rules(), "CURRYING"@, 34) == find_by_name(spec_all_rules(), "CURRYING"@, 35));
    reveal_strlit("ADJACENCY");
    assert("ADJACENCY"@.len() != "CURRYING"@.len());
    assert(find_by_name(spec_all_rules(), "CURRYING"@, 35) == find_by_name(spec_all_rules(), "CURRYING"@, 36));
    reveal_strlit("CONDITIONAL_COMPLEMENT");
    assert("CONDITIONAL_COMPLEMENT"@.len() != "CURRYING"@.len());
    assert(find_by_name(spec_all_rules(), "CURRYING"@, 36) == find_by_name(spec_all_rules(), "CURRYING"@, 37));
    reveal_strlit("CONDITIONAL_IDENTITY");
    assert("CONDITIONAL_IDENTITY"@.len() != "CURRYING"@.len());
    assert(find_by_name(spec_all_rules(), "CURRYING"@, 37) == find_by_name(spec_all_rules(), "CURRYING"@, 38));
    reveal_strlit("CONDITIONAL_ANNIHILATION");
    assert("CONDITIONAL_ANNIHILATION"@.len() != "CURRYING"@.len());
    assert(find_by_name(spec_all_rules(), "CURRYING"@, 38) == find_by_name(spec_all_rules(), "CURRYING"@, 39));
    reveal_strlit("IMPLICATION");
    assert("IMPLICATION"@.len() != "CURRYING"@.len());
    assert(find_by_name(spec_all_rules(), "CURRYING"@, 39) == find_by_name(spec_all_rules(), "CURRYING"@, 40));
    reveal_strlit("BI_IMPLICATION");
    assert("BI_IMPLICATION"@.len() != "CURRYING"@.len());
    assert(find_by_name(spec_all_rules(), "CURRYING"@, 40) == find_by_name(spec_all_rules(), "CURRYING"@, 41));
    reveal_strlit("CONTRAPOSITION");
    assert("CONTRAPOSITION"@.len() != "CURRYING"@.len());
    assert(find_by_name(spec_all_rules(), "CURRYING"@, 41) == find_by_name(spec_all_rules(), "CURRYING"@, 42));
    assert(find_by_name(spec_all_rules(), "CURRYING"@, 42) == Some(Rule::Conditional(ConditionalEquivalence::Currying)));
}

proof fn lemma_finds_conditional_distribution()
    ensures
        find_by_name(spec_all_rules(), "CONDITIONAL_DISTRIBUTION"@, 0) == Some(Rule::Conditional(ConditionalEquivalence::ConditionalDistribution)),
{
    reveal_strlit("CONDITIONAL_DISTRIBUTION");
    reveal_strlit("REITERATION");
    assert("REITERATION"@.len() != "CONDITIONAL_DISTRIBUTION"@.len());
    assert(find_by_name(spec_all_rules(), "CONDITIONAL_DISTRIBUTION"@, 0) == find_by_name(spec_all_rules(), "CONDITIONAL_DISTRIBUTION"@, 1));
    reveal_strlit("CONJUNCTION");
    assert("CONJUNCTION"@.len() != "CONDITIONAL_DISTRIBUTION"@.len());
    assert(find_by_name(spec_all_rules(), "CONDITIONAL_DISTRIBUTION"@, 1) == find_by_name(spec_all_rules(), "CONDITIONAL_DISTRIBUTION"@, 2));
    reveal_strlit("SIMPLIFICATION");
    assert("SIMPLIFICATION"@.len() != "CONDITIONAL_DISTRIBUTION"@.len());
    assert(find_by_name(spec_all_rules(), "CONDITIONAL_DISTRIBUTION"@, 2) == find_by_name(spec_all_rules(), "CONDITIONAL_DISTRIBUTION"@, 3));
    reveal_strlit("ADDITION");
    assert("ADDITION"@.len() != "CONDITIONAL_DISTRIBUTION"@.len());
    assert(find_by_name(spec_all_rules(), "CONDITIONAL_DISTRIBUTION"@, 3) == find_by_name(spec_all_rules(), "CONDITIONAL_DISTRIBUTION"@, 4));
    reveal_strlit("DISJUNCTIVE_SYLLOGISM");
    assert("DISJUNCTIVE_SYLLOGISM"@.len() != "CONDITIONAL_DISTRIBUTION"@.len());
    assert(find_by_name(spec_all_rules(), "CONDITIONAL_DISTRIBUTION"@, 4) == find_by_name(spec_all_rules(), "CONDITIONAL_DISTRIBUTION"@, 5));
    reveal_strlit("CONDITIONAL_PROOF");
    assert("CONDITIONAL_PROOF"@.len() != "CONDITIONAL_DISTRIBUTION"@.len());
    assert(find_by_name(spec_all_rules(), "CONDITIONAL_DISTRIBUTION"@, 5) == find_by_name(spec_all_rules(), "CONDITIONAL_DISTRIBUTION"@, 6));
    reveal_strlit("MODUS_PONENS");
    assert("MODUS_PONENS"@.len() != "CONDITIONAL_DISTRIBUTION"@.len());
    assert(find_by_name(spec_all_rules(), "CONDITIONAL_DISTRIBUTION"@, 6) == find_by_name(spec_all_rules(), "CONDITIONAL_DISTRIBUTION"@, 7));
    reveal_strlit("PROOF_BY_CONTRADICTION");
    assert("PROOF_BY_CONTRADICTION"@.len() != "CONDITIONAL_DISTRIBUTION"@.len());
    assert(find_by_name(spec_all_rules(), "CONDITIONAL_DISTRIBUTION"@, 7) == find_by_name(spec_all_rules(), "CONDITIONAL_DISTRIBUTION"@, 8));
    reveal_strlit("DOUBLENEGATION");
    assert("DOUBLENEGATION"@.len() != "CONDITIONAL_DISTRIBUTION"@.len());
    assert(find_by_name(spec_all_rules(), "CONDITIONAL_DISTRIBUTION"@, 8) == find_by_name(spec_all_rules(), "CONDITIONAL_DISTRIBUTION"@, 9));
    reveal_strlit("CONTRADICTION");
    assert("CONTRADICTION"@.len() != "CONDITIONAL_DISTRIBUTION"@.len());
    assert(find_by_name(spec_all_rules(), "CONDITIONAL_DISTRIBUTION"@, 9) == find_by_name(spec_all_rules(), "CONDITIONAL_DISTRIBUTION"@, 10));
    reveal_strlit("PRINCIPLE_OF_EXPLOSION");
    assert("PRINCIPLE_OF_EXPLOSION"@.len() != "CONDITIONAL_DISTRIBUTION"@.len());
    assert(find_by_name(spec_all_rules(), "CONDITIONAL_DISTRIBUTION"@, 10) == find_by_name(spec_all_rules(), "CONDITIONAL_DISTRIBUTION"@, 11));
    reveal_strlit("BICONDITIONAL_INTRO");
    assert("BICONDITIONAL_INTRO"@.len() != "CONDITIONAL_DISTRIBUTION"@.len());
    assert(find_by_name(spec_all_rules(), "CONDITIONAL_DISTRIBUTION"@, 11) == find_by_name(spec_all_rules(), "CONDITIONAL_DISTRIBUTION"@, 12));
    reveal_strlit("BICONDITIONAL_ELIM");
    assert("BICONDITIONAL_ELIM"@.len() != "CONDITIONAL_DISTRIBUTION"@.len());
    assert(find_by_name(spec_all_rules(), "CONDITIONAL_DISTRIBUTION"@, 12) == find_by_name(spec_all_rules(), "CONDITIONAL_DISTRIBUTION"@, 13));
    reveal_strlit("EQUIVALENCE_INTRO");
    assert("EQUIVALENCE_INTRO"@.len() != "CONDITIONAL_DISTRIBUTION"@.len());
    assert(find_by_name(spec_all_rules(), "CONDITIONAL_DISTRIBUTION"@, 13) == find_by_name(spec_all_rules(), "CONDITIONAL_DISTRIBUTION"@, 14));
    reveal_strlit("EQUIVALENCE_ELIM");
    assert("EQUIVALENCE_ELIM"@.len() != "CONDITIONAL_DISTRIBUTION"@.len());
    assert(find_by_name(spec_all_rules(), "CONDITIONAL_DISTRIBUTION"@, 14) == find_by_name(spec_all_rules(), "CONDITIONAL_DISTRIBUTION"@, 15));
    reveal_strlit("UNIVERSAL_GENERALIZATION");
    assert("UNIVERSAL_GENERALIZATION"@[0] != "CONDITIONAL_DISTRIBUTION"@[0]);
    assert(find_by_name(spec_all_rules(), "CONDITIONAL_DISTRIBUTION"@, 15) == find_by_name(spec_all_rules(), "CONDITIONAL_DISTRIBUTION"@, 16));
    reveal_strlit("UNIVERSAL_INSTANTIATION");
    assert("UNIVERSAL_INSTANTIATION"@.len() != "CONDITIONAL_DISTRIBUTION"@.len());
    assert(find_by_name(spec_all_rules(), "CONDITIONAL_DISTRIBUTION"@, 16) == find_by_name(spec_all_rules(), "CONDITIONAL_DISTRIBUTION"@, 17));
    reveal_strlit("EXISTENTIAL_GENERALIZATION");
    assert("EXISTENTIAL_GENERALIZATION"@.len() != "CONDITIONAL_DISTRIBUTION"@.len());
    assert(find_by_name(spec_all_rules(), "CONDITIONAL_DISTRIBUTION"@, 17) == find_by_name(spec_all_rules(), "CONDITIONAL_DISTRIBUTION"@, 18));
    reveal_strlit("EXISTENTIAL_INSTANTIATION");
    assert("EXISTENTIAL_INSTANTIATION"@.len() != "CONDITIONAL_DISTRIBUTION"@.len());
    assert(find_by_name(spec_all_rules(), "CONDITIONAL_DISTRIBUTION"@, 18) == find_by_name(spec_all_rules(), "CONDITIONAL_DISTRIBUTION"@, 19));
    reveal_strlit("MODUS_TOLLENS");
    assert("MODUS_TOLLENS"@.len() != "CONDITIONAL_DISTRIBUTION"@.len());
    assert(find_by_name(spec_all_rules(), "CONDITIONAL_DISTRIBUTION"@, 19) == find_by_name(spec_all_rules(), "CONDITIONAL_DISTRIBUTION"@, 20));
    reveal_strlit("HYPOTHETICAL_SYLLOGISM");
    assert("HYPOTHETICAL_SYLLOGISM"@.len() != "CONDITIONAL_DISTRIBUTION"@.len());
    assert(find_by_name(spec_all_rules(), "CONDITIONAL_DISTRIBUTION"@, 20) == find_by_name(spec_all_rules(), "CONDITIONAL_DISTRIBUTION"@, 21));
    reveal_strlit("EXCLUDED_MIDDLE");
    assert("EXCLUDED_MIDDLE"@.len() != "CONDITIONAL_DISTRIBUTION"@.len());
    assert(find_by_name(spec_all_rules(), "CONDITIONAL_DISTRIBUTION"@, 21) == find_by_name(spec_all_rules(), "CONDITIONAL_DISTRIBUTION"@, 22));
    reveal_strlit("CONSTRUCTIVE_DILEMMA");
    assert("CONSTRUCTIVE_DILEMMA"@.len() != "CONDITIONAL_DISTRIBUTION"@.len());
    assert(find_by_name(spec_all_rules(), "CONDITIONAL_DISTRIBUTION"@, 22) == find_by_name(spec_all_rules(), "CONDITIONAL_DISTRIBUTION"@, 23));
    reveal_strlit("ASSOCIATION");
    assert("ASSOCIATION"@.len() != "CONDITIONAL_DISTRIBUTION"@.len());
    assert(find_by_name(spec_all_rules(), "CONDITIONAL_DISTRIBUTION"@, 23) == find_by_name(spec_all_rules(), "CONDITIONAL_DISTRIBUTION"@, 24));
    reveal_strlit("COMMUTATION");
    assert("COMMUTATION"@.len() != "CONDITIONAL_DISTRIBUTION"@.len());
    assert(find_by_name(spec_all_rules(), "CONDITIONAL_DISTRIBUTION"@, 24) == find_by_name(spec_all_rules(), "CONDITIONAL_DISTRIBUTION"@, 25));
    reveal_strlit("IDEMPOTENCE");
    assert("IDEMPOTENCE"@.len() != "CONDITIONAL_DISTRIBUTION"@.len());
    assert(find_by_name(spec_all_rules(), "CONDITIONAL_DISTRIBUTION"@, 25) == find_by_name(spec_all_rules(), "CONDITIONAL_DISTRIBUTION"@, 26));
    reveal_strlit("DE_MORGAN");
    assert("DE_MORGAN"@.len() != "CONDITIONAL_DISTRIBUTION"@.len());
    assert(find_by_name(spec_all_rules(), "CONDITIONAL_DISTRIBUTION"@, 26) == find_by_name(spec_all_rules(), "CONDITIONAL_DISTRIBUTION"@, 27));
    reveal_strlit("DISTRIBUTION");
    assert("DISTRIBUTION"@.len() != "CONDITIONAL_DISTRIBUTION"@.len());
    assert(find_by_name(spec_all_rules(), "CONDITIONAL_DISTRIBUTION"@, 27) == find_by_name(spec_all_rules(), "CONDITIONAL_DISTRIBUTION"@, 28));
    reveal_strlit("DOUBLENEGATION_EQUIV");
    assert("DOUBLENEGATION_EQUIV"@.len() != "CONDITIONAL_DISTRIBUTION"@.len());
    assert(find_by_name(spec_all_rules(), "CONDITIONAL_DISTRIBUTION"@, 28) == find_by_name(spec_all_rules(), "CONDITIONAL_DISTRIBUTION"@, 29));
    reveal_strlit("COMPLEMENT");
    assert("COMPLEMENT"@.len() != "CONDITIONAL_DISTRIBUTION"@.len());
    assert(find_by_name(spec_all_rules(), "CONDITIONAL_DISTRIBUTION"@, 29) == find_by_name(spec_all_rules(), "CONDITIONAL_DISTRIBUTION"@, 30));
    reveal_strlit("IDENTITY");
    assert("IDENTITY"@.len() != "CONDITIONAL_DISTRIBUTION"@.len());
    assert(find_by_name(spec_all_rules(), "CONDITIONAL_DISTRIBUTION"@, 30) == find_by_name(spec_all_rules(), "CONDITIONAL_DISTRIBUTION"@, 31));
    reveal_strlit("ANNIHILATION");
    assert("ANNIHILATION"@.len() != "CONDITIONAL_DISTRIBUTION"@.len());
    assert(find_by_name(spec_all_rules(), "CONDITIONAL_DISTRIBUTION"@, 31) == find_by_name(spec_all_rules(), "CONDITIONAL_DISTRIBUTION"@, 32));
    reveal_strlit("INVERSE");
    assert("INVERSE"@.len() != "CONDITIONAL_DISTRIBUTION"@.len());
    assert(find_by_name(spec_all_rules(), "CONDITIONAL_DISTRIBUTION"@, 32) == find_by_name(spec_all_rules(), "CONDITIONAL_DISTRIBUTION"@, 33));
    reveal_strlit("ABSORPTION");
    assert("ABSORPTION"@.len() != "CONDITIONAL_DISTRIBUTION"@.len());
    assert(find_by_name(spec_all_rules(), "CONDITIONAL_DISTRIBUTION"@, 33) == find_by_name(spec_all_rules(), "CONDITIONAL_DISTRIBUTION"@, 34));
    reveal_strlit("REDUCTION");
    assert("REDUCTION"@.len() != "CONDITIONAL_DISTRIBUTION"@.len());
    assert(find_by_name(spec_all_rules(), "CONDITIONAL_DISTRIBUTION"@, 34) == find_by_name(spec_all_rules(), "CONDITIONAL_DISTRIBUTION"@, 35));
    reveal_strlit("ADJACENCY");
    assert("ADJACENCY"@.len() != "CONDITIONAL_DISTRIBUTION"@.len());
    assert(find_by_name(spec_all_rules(), "CONDITIONAL_DISTRIBUTION"@, 35) == find_by_name(spec_all_rules(), "CONDITIONAL_DISTRIBUTION"@, 36));
    reveal_strlit("CONDITIONAL_COMPLEMENT");
    assert("CONDITIONAL_COMPLEMENT"@.len() != "CONDITIONAL_DISTRIBUTION"@.len());
    assert(find_by_name(spec_all_rules(), "CONDITIONAL_DISTRIBUTION"@, 36) == find_by_name(spec_all_rules(), "CONDITIONAL_DISTRIBUTION"@, 37));
    reveal_strlit("CONDITIONAL_IDENTITY");
    assert("CONDITIONAL_IDENTITY"@.len() != "CONDITIONAL_DISTRIBUTION"@.len());
    assert(find_by_name(spec_all_rules(), "CONDITIONAL_DISTRIBUTION"@, 37) == find_by_name(spec_all_rules(), "CONDITIONAL_DISTRIBUTION"@, 38));
    reveal_strlit("CONDITIONAL_ANNIHILATION");
    assert("CONDITIONAL_ANNIHILATION"@[12] != "CONDITIONAL_DISTRIBUTION"@[12]);
    assert(find_by_name(spec_all_rules(), "CONDITIONAL_DISTRIBUTION"@, 38) == find_by_name(spec_all_rules(), "CONDITIONAL_DISTRIBUTION"@, 39));
    reveal_strlit("IMPLICATION");
    assert("IMPLICATION"@.len() != "CONDITIONAL_DISTRIBUTION"@.len());
    assert(find_by_name(spec_all_rules(), "CONDITIONAL_DISTRIBUTION"@, 39) == find_by_name(spec_all_rules(), "CONDITIONAL_DISTRIBUTION"@, 40));
    reveal_strlit("BI_IMPLICATION");
    assert("BI_IMPLICATION"@.len() != "CONDITIONAL_DISTRIBUTION"@.len());
    assert(find_by_name(spec_all_rules(), "CONDITIONAL_DISTRIBUTION"@, 40) == find_by_name(spec_all_rules(), "CONDITIONAL_DISTRIBUTION"@, 41));
    reveal_strlit("CONTRAPOSITION");
    assert("CONTRAPOSITION"@.len() != "CONDITIONAL_DISTRIBUTION"@.len());
    assert(find_by_name(spec_all_rules(), "CONDITIONAL_DISTRIBUTION"@, 41) == find_by_name(spec_all_rules(), "CONDITIONAL_DISTRIBUTION"@, 42));
    reveal_strlit("CURRYING");
    assert("CURRYING"@.len() != "CONDITIONAL_DISTRIBUTION"@.len());
    assert(find_by_name(spec_all_rules(), "CONDITIONAL_DISTRIBUTION"@, 42) == find_by_name(spec_all_rules(), "CONDITIONAL_DISTRIBUTION"@, 43));
    assert(find_by_name(spec_all_rules(), "CONDITIONAL_DISTRIBUTION"@, 43) == Some(Rule::Conditional(ConditionalEquivalence::ConditionalDistribution)));
}

proof fn lemma_finds_conditional_reduction()
    ensures
        find_by_name(spec_all_rules(), "CONDITIONAL_REDUCTION"@, 0) == Some(Rule::Conditional(ConditionalEquivalence::ConditionalReduction)),
{
    reveal_strlit("CONDITIONAL_REDUCTION");
    reveal_strlit("REITERATION");
    assert("REITERATION"@.len() != "CONDITIONAL_REDUCTION"@.len());
    assert(find_by_name(spec_all_rules(), "CONDITIONAL_REDUCTION"@, 0) == find_by_name(spec_all_rules(), "CONDITIONAL_REDUCTION"@, 1));
    reveal_strlit("CONJUNCTION");
    assert("CONJUNCTION"@.len() != "CONDITIONAL_REDUCTION"@.len());
    assert(find_by_name(spec_all_rules(), "CONDITIONAL_REDUCTION"@, 1) == find_by_name(spec_all_rules(), "CONDITIONAL_REDUCTION"@, 2));
    reveal_strlit("SIMPLIFICATION");
    assert("SIMPLIFICATION"@.len() != "CONDITIONAL_REDUCTION"@.len());
    assert(find_by_name(spec_all_rules(), "CONDITIONAL_REDUCTION"@, 2) == find_by_name(spec_all_rules(), "CONDITIONAL_REDUCTION"@, 3));
    reveal_strlit("ADDITION");
    assert("ADDITION"@.len() != "CONDITIONAL_REDUCTION"@.len());
    assert(find_by_name(spec_all_rules(), "CONDITIONAL_REDUCTION"@, 3) == find_by_name(spec_all_rules(), "CONDITIONAL_REDUCTION"@, 4));
    reveal_strlit("DISJUNCTIVE_SYLLOGISM");
    assert("DISJUNCTIVE_SYLLOGISM"@[0] != "CONDITIONAL_REDUCTION"@[0]);
    assert(find_by_name(spec_all_rules(), "CONDITIONAL_REDUCTION"@, 4) == find_by_name(spec_all_rules(), "CONDITIONAL_REDUCTION"@, 5));
    reveal_strlit("CONDITIONAL_PROOF");
    assert("CONDITIONAL_PROOF"@.len() != "CONDITIONAL_REDUCTION"@.len());
    assert(find_by_name(spec_all_rules(), "CONDITIONAL_REDUCTION"@, 5) == find_by_name(spec_all_rules(), "CONDITIONAL_REDUCTION"@, 6));
    reveal_strlit("MODUS_PONENS");
    assert("MODUS_PONENS"@.len() != "CONDITIONAL_REDUCTION"@.len());
    assert(find_by_name(spec_all_rules(), "CONDITIONAL_REDUCTION"@, 6) == find_by_name(spec_all_rules(), "CONDITIONAL_REDUCTION"@, 7));
    reveal_strlit("PROOF_BY_CONTRADICTION");
    assert("PROOF_BY_CONTRADICTION"@.len() != "CONDITIONAL_REDUCTION"@.len());
    assert(find_by_name(spec_all_rules(), "CONDITIONAL_REDUCTION"@, 7) == find_by_name(spec_all_rules(), "CONDITIONAL_REDUCTION"@, 8));
    reveal_strlit("DOUBLENEGATION");
    assert("DOUBLENEGATION"@.len() != "CONDITIONAL_REDUCTION"@.len());
    assert(find_by_name(spec_all_rules(), "CONDITIONAL_REDUCTION"@, 8) == find_by_name(spec_all_rules(), "CONDITIONAL_REDUCTION"@, 9));
    reveal_strlit("CONTRADICTION");
    assert("CONTRADICTION"@.len() != "CONDITIONAL_REDUCTION"@.len());
    assert(find_by_name(spec_all_rules(), "CONDITIONAL_REDUCTION"@, 9) == find_by_name(spec_all_rules(), "CONDITIONAL_REDUCTION"@, 10));
    reveal_strlit("PRINCIPLE_OF_EXPLOSION");
    assert("PRINCIPLE_OF_EXPLOSION"@.len() != "CONDITIONAL_REDUCTION"@.len());
    assert(find_by_name(spec_all_rules(), "CONDITIONAL_REDUCTION"@, 10) == find_by_name(spec_all_rules(), "CONDITIONAL_REDUCTION"@, 11));
    reveal_strlit("BICONDITIONAL_INTRO");
    assert("BICONDITIONAL_INTRO"@.len() != "CONDITIONAL_REDUCTION"@.len());
    assert(find_by_name(spec_all_rules(), "CONDITIONAL_REDUCTION"@, 11) == find_by_name(spec_all_rules(), "CONDITIONAL_REDUCTION"@, 12));
    reveal_strlit("BICONDITIONAL_ELIM");
    assert("BICONDITIONAL_ELIM"@.len() != "CONDITIONAL_REDUCTION"@.len());
    assert(find_by_name(spec_all_rules(), "CONDITIONAL_REDUCTION"@, 12) == find_by_name(spec_all_rules(), "CONDITIONAL_REDUCTION"@, 13));
    reveal_strlit("EQUIVALENCE_INTRO");
    assert("EQUIVALENCE_INTRO"@.len() != "CONDITIONAL_REDUCTION"@.len());
    assert(find_by_name(spec_all_rules(), "CONDITIONAL_REDUCTION"@, 13) == find_by_name(spec_all_rules(), "CONDITIONAL_REDUCTION"@, 14));
    reveal_strlit("EQUIVALENCE_ELIM");
    assert("EQUIVALENCE_ELIM"@.len() != "CONDITIONAL_REDUCTION"@.len());
    assert(find_by_name(spec_all_rules(), "CONDITIONAL_REDUCTION"@, 14) == find_by_name(spec_all_rules(), "CONDITIONAL_REDUCTION"@, 15));
    reveal_strlit("UNIVERSAL_GENERALIZATION");
    assert("UNIVERSAL_GENERALIZATION"@.len() != "CONDITIONAL_REDUCTION"@.len());
    assert(find_by_name(spec_all_rules(), "CONDITIONAL_REDUCTION"@, 15) == find_by_name(spec_all_rules(), "CONDITIONAL_REDUCTION"@, 16));
    reveal_strlit("UNIVERSAL_INSTANTIATION");
    assert("UNIVERSAL_INSTANTIATION"@.len() != "CONDITIONAL_REDUCTION"@.len());
    assert(find_by_name(spec_all_rules(), "CONDITIONAL_REDUCTION"@, 16) == find_by_name(spec_all_rules(), "CONDITIONAL_REDUCTION"@, 17));
    reveal_strlit("EXISTENTIAL_GENERALIZATION");
    assert("EXISTENTIAL_GENERALIZATION"@.len() != "CONDITIONAL_REDUCTION"@.len());
    assert(find_by_name(spec_all_rules(), "CONDITIONAL_REDUCTION"@, 17) == find_by_name(spec_all_rules(), "CONDITIONAL_REDUCTION"@, 18));
    reveal_strlit("EXISTENTIAL_INSTANTIATION");
    assert("EXISTENTIAL_INSTANTIATION"@.len() != "CONDITIONAL_REDUCTION"@.len());
    assert(find_by_name(spec_all_rules(), "CONDITIONAL_REDUCTION"@, 18) == find_by_name(spec_all_rules(), "CONDITIONAL_REDUCTION"@, 19));
    reveal_strlit("MODUS_TOLLENS");
    assert("MODUS_TOLLENS"@.len() != "CONDITIONAL_REDUCTION"@.len());
    assert(find_by_name(spec_all_rules(), "CONDITIONAL_REDUCTION"@, 19) == find_by_name(spec_all_rules(), "CONDITIONAL_REDUCTION"@, 20));
    reveal_strlit("HYPOTHETICAL_SYLLOGISM");
    assert("HYPOTHETICAL_SYLLOGISM"@.len() != "CONDITIONAL_REDUCTION"@.len());
    assert(find_by_name(spec_all_rules(), "CONDITIONAL_REDUCTION"@, 20) == find_by_name(spec_all_rules(), "CONDITIONAL_REDUCTION"@, 21));
    reveal_strlit("EXCLUDED_MIDDLE");
    assert("EXCLUDED_MIDDLE"@.len() != "CONDITIONAL_REDUCTION"@.len());
    assert(find_by_name(spec_all_rules(), "CONDITIONAL_REDUCTION"@, 21) == find_by_name(spec_all_rules(), "CONDITIONAL_REDUCTION"@, 22));
    reveal_strlit("CONSTRUCTIVE_DILEMMA");
    assert("CONSTRUCTIVE_DILEMMA"@.len() != "CONDITIONAL_REDUCTION"@.len());
    assert(find_by_name(spec_all_rules(), "CONDITIONAL_REDUCTION"@, 22) == find_by_name(spec_all_rules(), "CONDITIONAL_REDUCTION"@, 23));
    reveal_strlit("ASSOCIATION");
    assert("ASSOCIATION"@.len() != "CONDITIONAL_REDUCTION"@.len());
    assert(find_by_name(spec_all_rules(), "CONDITIONAL_REDUCTION"@, 23) == find_by_name(spec_all_rules(), "CONDITIONAL_REDUCTION"@, 24));
    reveal_strlit("COMMUTATION");
    assert("COMMUTATION"@.len() != "CONDITIONAL_REDUCTION"@.len());
    assert(find_by_name(spec_all_rules(), "CONDITIONAL_REDUCTION"@, 24) == find_by_name(spec_all_rules(), "CONDITIONAL_REDUCTION"@, 25));
    reveal_strlit("IDEMPOTENCE");
    assert("IDEMPOTENCE"@.len() != "CONDITIONAL_REDUCTION"@.len());
    assert(find_by_name(spec_all_rules(), "CONDITIONAL_REDUCTION"@, 25) == find_by_name(spec_all_rules(), "CONDITIONAL_REDUCTION"@, 26));
    reveal_strlit("DE_MORGAN");
    assert("DE_MORGAN"@.len() != "CONDITIONAL_REDUCTION"@.len());
    assert(find_by_name(spec_all_rules(), "CONDITIONAL_REDUCTION"@, 26) == find_by_name(spec_all_rules(), "CONDITIONAL_REDUCTION"@, 27));
    reveal_strlit("DISTRIBUTION");
    assert("DISTRIBUTION"@.len() != "CONDITIONAL_REDUCTION"@.len());
    assert(find_by_name(spec_all_rules(), "CONDITIONAL_REDUCTION"@, 27) == find_by_name(spec_all_rules(), "CONDITIONAL_REDUCTION"@, 28));
    reveal_strlit("DOUBLENEGATION_EQUIV");
    assert("DOUBLENEGATION_EQUIV"@.len() != "CONDITIONAL_REDUCTION"@.len());
    assert(find_by_name(spec_all_rules(), "CONDITIONAL_REDUCTION"@, 28) == find_by_name(spec_all_rules(), "CONDITIONAL_REDUCTION"@, 29));
    reveal_strlit("COMPLEMENT");
    assert("COMPLEMENT"@.len() != "CONDITIONAL_REDUCTION"@.len());
    assert(find_by_name(spec_all_rules(), "CONDITIONAL_REDUCTION"@, 29) == find_by_name(spec_all_rules(), "CONDITIONAL_REDUCTION"@, 30));
    reveal_strlit("IDENTITY");
    assert("IDENTITY"@.len() != "CONDITIONAL_REDUCTION"@.len());
    assert(find_by_name(spec_all_rules(), "CONDITIONAL_REDUCTION"@, 30) == find_by_name(spec_all_rules(), "CONDITIONAL_REDUCTION"@, 31));
    reveal_strlit("ANNIHILATION");
    assert("ANNIHILATION"@.len() != "CONDITIONAL_REDUCTION"@.len());
    assert(find_by_name(spec_all_rules(), "CONDITIONAL_REDUCTION"@, 31) == find_by_name(spec_all_rules(), "CONDITIONAL_REDUCTION"@, 32));
    reveal_strlit("INVERSE");
    assert("INVERSE"@.len() != "CONDITIONAL_REDUCTION"@.len());
    assert(find_by_name(spec_all_rules(), "CONDITIONAL_REDUCTION"@, 32) == find_by_name(spec_all_rules(), "CONDITIONAL_REDUCTION"@, 33));
    reveal_strlit("ABSORPTION");
    assert("ABSORPTION"@.len() != "CONDITIONAL_REDUCTION"@.len());
    assert(find_by_name(spec_all_rules(), "CONDITIONAL_REDUCTION"@, 33) == find_by_name(spec_all_rules(), "CONDITIONAL_REDUCTION"@, 34));
    reveal_strlit("REDUCTION");
    assert("REDUCTION"@.len() != "CONDITIONAL_REDUCTION"@.len());
    assert(find_by_name(spec_all_rules(), "CONDITIONAL_REDUCTION"@, 34) == find_by_name(spec_all_rules(), "CONDITIONAL_REDUCTION"@, 35));
    reveal_strlit("ADJACENCY");
    assert("ADJACENCY"@.len() != "CONDITIONAL_REDUCTION"@.len());
    assert(find_by_name(spec_all_rules(), "CONDITIONAL_REDUCTION"@, 35) == find_by_name(spec_all_rules(), "CONDITIONAL_REDUCTION"@, 36));
    reveal_strlit("CONDITIONAL_COMPLEMENT");
    assert("CONDITIONAL_COMPLEMENT"@.len() != "CONDITIONAL_REDUCTION"@.len());
    assert(find_by_name(spec_all_rules(), "CONDITIONAL_REDUCTION"@, 36) == find_by_name(spec_all_rules(), "CONDITIONAL_REDUCTION"@, 37));
    reveal_strlit("CONDITIONAL_IDENTITY");
    assert("CONDITIONAL_IDENTITY"@.len() != "CONDITIONAL_REDUCTION"@.len());
    assert(find_by_name(spec_all_rules(), "CONDITIONAL_REDUCTION"@, 37) == find_by_name(spec_all_rules(), "CONDITIONAL_REDUCTION"@, 38));
    reveal_strlit("CONDITIONAL_ANNIHILATION");
    assert("CONDITIONAL_ANNIHILATION"@.len() != "CONDITIONAL_REDUCTION"@.len());
    assert(find_by_name(spec_all_rules(), "CONDITIONAL_REDUCTION"@, 38) == find_by_name(spec_all_rules(), "CONDITIONAL_REDUCTION"@, 39));
    reveal_strlit("IMPLICATION");
    assert("IMPLICATION"@.len() != "CONDITIONAL_REDUCTION"@.len());
    assert(find_by_name(spec_all_rules(), "CONDITIONAL_REDUCTION"@, 39) == find_by_name(spec_all_rules(), "CONDITIONAL_REDUCTION"@, 40));
    reveal_strlit("BI_IMPLICATION");
    assert("BI_IMPLICATION"@.len() != "CONDITIONAL_REDUCTION"@.len());
    assert(find_by_name(spec_all_rules(), "CONDITIONAL_REDUCTION"@, 40) == find_by_name(spec_all_rules(), "CONDITIONAL_REDUCTION"@, 41));
    reveal_strlit("CONTRAPOSITION");
    assert("CONTRAPOSITION"@.len() != "CONDITIONAL_REDUCTION"@.len());
    assert(find_by_name(spec_all_rules(), "CONDITIONAL_REDUCTION"@, 41) == find_by_name(spec_all_rules(), "CONDITIONAL_REDUCTION"@, 42));
    reveal_strlit("CURRYING");
    assert("CURRYING"@.len() != "CONDITIONAL_REDUCTION"@.len());
    assert(find_by_name(spec_all_rules(), "CONDITIONAL_REDUCTION"@, 42) == find_by_name(spec_all_rules(), "CONDITIONAL_REDUCTION"@, 43));
    reveal_strlit("CONDITIONAL_DISTRIBUTION");
    assert("CONDITIONAL_DISTRIBUTION"@.len() != "CONDITIONAL_REDUCTION"@.len());
    assert(find_by_name(spec_all_rules(), "CONDITIONAL_REDUCTION"@, 43) == find_by_name(spec_all_rules(), "CONDITIONAL_REDUCTION"@, 44));
    assert(find_by_name(spec_all_rules(), "CONDITIONAL_REDUCTION"@, 44) == Some(Rule::Conditional(ConditionalEquivalence::ConditionalReduction)));
}

proof fn lemma_finds_knights_and_knaves()
    ensures
        find_by_name(spec_all_rules(), "KNIGHTS_AND_KNAVES"@, 0) == Some(Rule::Conditional(ConditionalEquivalence::KnightsAndKnaves)),
{
    reveal_strlit("KNIGHTS_AND_KNAVES");
    reveal_strlit("REITERATION");
    assert("REITERATION"@.len() != "KNIGHTS_AND_KNAVES"@.len());
    assert(find_by_name(spec_all_rules(), "KNIGHTS_AND_KNAVES"@, 0) == find_by_name(spec_all_rules(), "KNIGHTS_AND_KNAVES"@, 1));
    reveal_strlit("CONJUNCTION");
    assert("CONJUNCTION"@.len() != "KNIGHTS_AND_KNAVES"@.len());
    assert(find_by_name(spec_all_rules(), "KNIGHTS_AND_KNAVES"@, 1) == find_by_name(spec_all_rules(), "KNIGHTS_AND_KNAVES"@, 2));
    reveal_strlit("SIMPLIFICATION");
    assert("SIMPLIFICATION"@.len() != "KNIGHTS_AND_KNAVES"@.len());
    assert(find_by_name(spec_all_rules(), "KNIGHTS_AND_KNAVES"@, 2) == find_by_name(spec_all_rules(), "KNIGHTS_AND_KNAVES"@, 3));
    reveal_strlit("ADDITION");
    assert("ADDITION"@.len() != "KNIGHTS_AND_KNAVES"@.len());
    assert(find_by_name(spec_all_rules(), "KNIGHTS_AND_KNAVES"@, 3) == find_by_name(spec_all_rules(), "KNIGHTS_AND_KNAVES"@, 4));
    reveal_strlit("DISJUNCTIVE_SYLLOGISM");
    assert("DISJUNCTIVE_SYLLOGISM"@.len() != "KNIGHTS_AND_KNAVES"@.len());
    assert(find_by_name(spec_all_rules(), "KNIGHTS_AND_KNAVES"@, 4) == find_by_name(spec_all_rules(), "KNIGHTS_AND_KNAVES"@, 5));
    reveal_strlit("CONDITIONAL_PROOF");
    assert("CONDITIONAL_PROOF"@.len() != "KNIGHTS_AND_KNAVES"@.len());
    assert(find_by_name(spec_all_rules(), "KNIGHTS_AND_KNAVES"@, 5) == find_by_name(spec_all_rules(), "KNIGHTS_AND_KNAVES"@, 6));
    reveal_strlit("MODUS_PONENS");
    assert("MODUS_PONENS"@.len() != "KNIGHTS_AND_KNAVES"@.len());
    assert(find_by_name(spec_all_rules(), "KNIGHTS_AND_KNAVES"@, 6) == find_by_name(spec_all_rules(), "KNIGHTS_AND_KNAVES"@, 7));
    reveal_strlit("PROOF_BY_CONTRADICTION");
    assert("PROOF_BY_CONTRADICTION"@.len() != "KNIGHTS_AND_KNAVES"@.len());
    assert(find_by_name(spec_all_rules(), "KNIGHTS_AND_KNAVES"@, 7) == find_by_name(spec_all_rules(), "KNIGHTS_AND_KNAVES"@, 8));
    reveal_strlit("DOUBLENEGATION");
    assert("DOUBLENEGATION"@.len() != "KNIGHTS_AND_KNAVES"@.len());
    assert(find_by_name(spec_all_rules(), "KNIGHTS_AND_KNAVES"@, 8) == find_by_name(spec_all_rules(), "KNIGHTS_AND_KNAVES"@, 9));
    reveal_strlit("CONTRADICTION");
    assert("CONTRADICTION"@.len() != "KNIGHTS_AND_KNAVES"@.len());
    assert(find_by_name(spec_all_rules(), "KNIGHTS_AND_KNAVES"@, 9) == find_by_name(spec_all_rules(), "KNIGHTS_AND_KNAVES"@, 10));
    reveal_strlit("PRINCIPLE_OF_EXPLOSION");
    assert("PRINCIPLE_OF_EXPLOSION"@.len() != "KNIGHTS_AND_KNAVES"@.len());
    assert(find_by_name(spec_all_rules(), "KNIGHTS_AND_KNAVES"@, 10) == find_by_name(spec_all_rules(), "KNIGHTS_AND_KNAVES"@, 11));
    reveal_strlit("BICONDITIONAL_INTRO");
    assert("BICONDITIONAL_INTRO"@.len() != "KNIGHTS_AND_KNAVES"@.len());
    assert(find_by_name(spec_all_rules(), "KNIGHTS_AND_KNAVES"@, 11) == find_by_name(spec_all_rules(), "KNIGHTS_AND_KNAVES"@, 12));
    reveal_strlit("BICONDITIONAL_ELIM");
    assert("BICONDITIONAL_ELIM"@[0] != "KNIGHTS_AND_KNAVES"@[0]);
    assert(find_by_name(spec_all_rules(), "KNIGHTS_AND_KNAVES"@, 12) == find_by_name(spec_all_rules(), "KNIGHTS_AND_KNAVES"@, 13));
    reveal_strlit("EQUIVALENCE_INTRO");
    assert("EQUIVALENCE_INTRO"@.len() != "KNIGHTS_AND_KNAVES"@.len());
    assert(find_by_name(spec_all_rules(), "KNIGHTS_AND_KNAVES"@, 13) == find_by_name(spec_all_rules(), "KNIGHTS_AND_KNAVES"@, 14));
    reveal_strlit("EQUIVALENCE_ELIM");
    assert("EQUIVALENCE_ELIM"@.len() != "KNIGHTS_AND_KNAVES"@.len());
    assert(find_by_name(spec_all_rules(), "KNIGHTS_AND_KNAVES"@, 14) == find_by_name(spec_all_rules(), "KNIGHTS_AND_KNAVES"@, 15));
    reveal_strlit("UNIVERSAL_GENERALIZATION");
    assert("UNIVERSAL_GENERALIZATION"@.len() != "KNIGHTS_AND_KNAVES"@.len());
    assert(find_by_name(spec_all_rules(), "KNIGHTS_AND_KNAVES"@, 15) == find_by_name(spec_all_rules(), "KNIGHTS_AND_KNAVES"@, 16));
    reveal_strlit("UNIVERSAL_INSTANTIATION");
    assert("UNIVERSAL_INSTANTIATION"@.len() != "KNIGHTS_AND_KNAVES"@.len());
    assert(find_by_name(spec_all_rules(), "KNIGHTS_AND_KNAVES"@, 16) == find_by_name(spec_all_rules(), "KNIGHTS_AND_KNAVES"@, 17));
    reveal_strlit("EXISTENTIAL_GENERALIZATION");
    assert("EXISTENTIAL_GENERALIZATION"@.len() != "KNIGHTS_AND_KNAVES"@.len());
    assert(find_by_name(spec_all_rules(), "KNIGHTS_AND_KNAVES"@, 17) == find_by_name(spec_all_rules(), "KNIGHTS_AND_KNAVES"@, 18));
    reveal_strlit("EXISTENTIAL_INSTANTIATION");
    assert("EXISTENTIAL_INSTANTIATION"@.len() != "KNIGHTS_AND_KNAVES"@.len());
    assert(find_by_name(spec_all_rules(), "KNIGHTS_AND_KNAVES"@, 18) == find_by_name(spec_all_rules(), "KNIGHTS_AND_KNAVES"@, 19));
    reveal_strlit("MODUS_TOLLENS");
    assert("MODUS_TOLLENS"@.len() != "KNIGHTS_AND_KNAVES"@.len());
    assert(find_by_name(spec_all_rules(), "KNIGHTS_AND_KNAVES"@, 19) == find_by_name(spec_all_rules(), "KNIGHTS_AND_KNAVES"@, 20));
    reveal_strlit("HYPOTHETICAL_SYLLOGISM");
    assert("HYPOTHETICAL_SYLLOGISM"@.len() != "KNIGHTS_AND_KNAVES"@.len());
    assert(find_by_name(spec_all_rules(), "KNIGHTS_AND_KNAVES"@, 20) == find_by_name(spec_all_rules(), "KNIGHTS_AND_KNAVES"@, 21));
    reveal_strlit("EXCLUDED_MIDDLE");
    assert("EXCLUDED_MIDDLE"@.len() != "KNIGHTS_AND_KNAVES"@.len());
    assert(find_by_name(spec_all_rules(), "KNIGHTS_AND_KNAVES"@, 21) == find_by_name(spec_all_rules(), "KNIGHTS_AND_KNAVES"@, 22));
    reveal_strlit("CONSTRUCTIVE_DILEMMA");
    assert("CONSTRUCTIVE_DILEMMA"@.len() != "KNIGHTS_AND_KNAVES"@.len());
    assert(find_by_name(spec_all_rules(), "KNIGHTS_AND_KNAVES"@, 22) == find_by_name(spec_all_rules(), "KNIGHTS_AND_KNAVES"@, 23));
    reveal_strlit("ASSOCIATION");
    assert("ASSOCIATION"@.len() != "KNIGHTS_AND_KNAVES"@.len());
    assert(find_by_name(spec_all_rules(), "KNIGHTS_AND_KNAVES"@, 23) == find_by_name(spec_all_rules(), "KNIGHTS_AND_KNAVES"@, 24));
    reveal_strlit("COMMUTATION");
    assert("COMMUTATION"@.len() != "KNIGHTS_AND_KNAVES"@.len());
    assert(find_by_name(spec_all_rules(), "KNIGHTS_AND_KNAVES"@, 24) == find_by_name(spec_all_rules(), "KNIGHTS_AND_KNAVES"@, 25));
    reveal_strlit("IDEMPOTENCE");
    assert("IDEMPOTENCE"@.len() != "KNIGHTS_AND_KNAVES"@.len());
    assert(find_by_name(spec_all_rules(), "KNIGHTS_AND_KNAVES"@, 25) == find_by_name(spec_all_rules(), "KNIGHTS_AND_KNAVES"@, 26));
    reveal_strlit("DE_MORGAN");
    assert("DE_MORGAN"@.len() != "KNIGHTS_AND_KNAVES"@.len());
    assert(find_by_name(spec_all_rules(), "KNIGHTS_AND_KNAVES"@, 26) == find_by_name(spec_all_rules(), "KNIGHTS_AND_KNAVES"@, 27));
    reveal_strlit("DISTRIBUTION");
    assert("DISTRIBUTION"@.len() != "KNIGHTS_AND_KNAVES"@.len());
    assert(find_by_name(spec_all_rules(), "KNIGHTS_AND_KNAVES"@, 27) == find_by_name(spec_all_rules(), "KNIGHTS_AND_KNAVES"@, 28));
    reveal_strlit("DOUBLENEGATION_EQUIV");
    assert("DOUBLENEGATION_EQUIV"@.len() != "KNIGHTS_AND_KNAVES"@.len());
    assert(find_by_name(spec_all_rules(), "KNIGHTS_AND_KNAVES"@, 28) == find_by_name(spec_all_rules(), "KNIGHTS_AND_KNAVES"@, 29));
    reveal_strlit("COMPLEMENT");
    assert("COMPLEMENT"@.len() != "KNIGHTS_AND_KNAVES"@.len());
    assert(find_by_name(spec_all_rules(), "KNIGHTS_AND_KNAVES"@, 29) == find_by_name(spec_all_rules(), "KNIGHTS_AND_KNAVES"@, 30));
    reveal_strlit("IDENTITY");
    assert("IDENTITY"@.len() != "KNIGHTS_AND_KNAVES"@.len());
    assert(find_by_name(spec_all_rules(), "KNIGHTS_AND_KNAVES"@, 30) == find_by_name(spec_all_rules(), "KNIGHTS_AND_KNAVES"@, 31));
    reveal_strlit("ANNIHILATION");
    assert("ANNIHILATION"@.len() != "KNIGHTS_AND_KNAVES"@.len());
    assert(find_by_name(spec_all_rules(), "KNIGHTS_AND_KNAVES"@, 31) == find_by_name(spec_all_rules(), "KNIGHTS_AND_KNAVES"@, 32));
    reveal_strlit("INVERSE");
    assert("INVERSE"@.len() != "KNIGHTS_AND_KNAVES"@.len());
    assert(find_by_name(spec_all_rules(), "KNIGHTS_AND_KNAVES"@, 32) == find_by_name(spec_all_rules(), "KNIGHTS_AND_KNAVES"@, 33));
    reveal_strlit("ABSORPTION");
    assert("ABSORPTION"@.len() != "KNIGHTS_AND_KNAVES"@.len());
    assert(find_by_name(spec_all_rules(), "KNIGHTS_AND_KNAVES"@, 33) == find_by_name(spec_all_rules(), "KNIGHTS_AND_KNAVES"@, 34));
    reveal_strlit("REDUCTION");
    assert("REDUCTION"@.len() != "KNIGHTS_AND_KNAVES"@.len());
    assert(find_by_name(spec_all_rules(), "KNIGHTS_AND_KNAVES"@, 34) == find_by_name(spec_all_rules(), "KNIGHTS_AND_KNAVES"@, 35));
    reveal_strlit("ADJACENCY");
    assert("ADJACENCY"@.len() != "KNIGHTS_AND_KNAVES"@.len());
    assert(find_by_name(spec_all_rules(), "KNIGHTS_AND_KNAVES"@, 35) == find_by_name(spec_all_rules(), "KNIGHTS_AND_KNAVES"@, 36));
    reveal_strlit("CONDITIONAL_COMPLEMENT");
    assert("CONDITIONAL_COMPLEMENT"@.len() != "KNIGHTS_AND_KNAVES"@.len());
    assert(find_by_name(spec_all_rules(), "KNIGHTS_AND_KNAVES"@, 36) == find_by_name(spec_all_rules(), "KNIGHTS_AND_KNAVES"@, 37));
    reveal_strlit("CONDITIONAL_IDENTITY");
    assert("CONDITIONAL_IDENTITY"@.len() != "KNIGHTS_AND_KNAVES"@.len());
    assert(find_by_name(spec_all_rules(), "KNIGHTS_AND_KNAVES"@, 37) == find_by_name(spec_all_rules(), "KNIGHTS_AND_KNAVES"@, 38));
    reveal_strlit("CONDITIONAL_ANNIHILATION");
    assert("CONDITIONAL_ANNIHILATION"@.len() != "KNIGHTS_AND_KNAVES"@.len());
    assert(find_by_name(spec_all_rules(), "KNIGHTS_AND_KNAVES"@, 38) == find_by_name(spec_all_rules(), "KNIGHTS_AND_KNAVES"@, 39));
    reveal_strlit("IMPLICATION");
    assert("IMPLICATION"@.len() != "KNIGHTS_AND_KNAVES"@.len());
    assert(find_by_name(spec_all_rules(), "KNIGHTS_AND_KNAVES"@, 39) == find_by_name(spec_all_rules(), "KNIGHTS_AND_KNAVES"@, 40));
    reveal_strlit("BI_IMPLICATION");
    assert("BI_IMPLICATION"@.len() != "KNIGHTS_AND_KNAVES"@.len());
    assert(find_by_name(spec_all_rules(), "KNIGHTS_AND_KNAVES"@, 40) == find_by_name(spec_all_rules(), "KNIGHTS_AND_KNAVES"@, 41));
    reveal_strlit("CONTRAPOSITION");
    assert("CONTRAPOSITION"@.len() != "KNIGHTS_AND_KNAVES"@.len());
    assert(find_by_name(spec_all_rules(), "KNIGHTS_AND_KNAVES"@, 41) == find_by_name(spec_all_rules(), "KNIGHTS_AND_KNAVES"@, 42));
    reveal_strlit("CURRYING");
    assert("CURRYING"@.len() != "KNIGHTS_AND_KNAVES"@.len());
    assert(find_by_name(spec_all_rules(), "KNIGHTS_AND_KNAVES"@, 42) == find_by_name(spec_all_rules(), "KNIGHTS_AND_KNAVES"@, 43));
    reveal_strlit("CONDITIONAL_DISTRIBUTION");
    assert("CONDITIONAL_DISTRIBUTION"@.len() != "KNIGHTS_AND_KNAVES"@.len());
    assert(find_by_name(spec_all_rules(), "KNIGHTS_AND_KNAVES"@, 43) == find_by_name(spec_all_rules(), "KNIGHTS_AND_KNAVES"@, 44));
    reveal_strlit("CONDITIONAL_REDUCTION");
    assert("CONDITIONAL_REDUCTION"@.len() != "KNIGHTS_AND_KNAVES"@.len());
    assert(find_by_name(spec_all_rules(), "KNIGHTS_AND_KNAVES"@, 44) == find_by_name(spec_all_rules(), "KNIGHTS_AND_KNAVES"@, 45));
    assert(find_by_name(spec_all_rules(), "KNIGHTS_AND_KNAVES"@, 45) == Some(Rule::Conditional(ConditionalEquivalence::KnightsAndKnaves)));
}

proof fn lemma_finds_conditional_idempotence()
    ensures
        find_by_name(spec_all_rules(), "CONDITIONAL_IDEMPOTENCE"@, 0) == Some(Rule::Conditional(ConditionalEquivalence::ConditionalIdempotence)),
{
    reveal_strlit("CONDITIONAL_IDEMPOTENCE");
    reveal_strlit("REITERATION");
    assert("REITERATION"@.len() != "CONDITIONAL_IDEMPOTENCE"@.len());
    assert(find_by_name(spec_all_rules(), "CONDITIONAL_IDEMPOTENCE"@, 0) == find_by_name(spec_all_rules(), "CONDITIONAL_IDEMPOTENCE"@, 1));
    reveal_strlit("CONJUNCTION");
    assert("CONJUNCTION"@.len() != "CONDITIONAL_IDEMPOTENCE"@.len());
    assert(find_by_name(spec_all_rules(), "CONDITIONAL_IDEMPOTENCE"@, 1) == find_by_name(spec_all_rules(), "CONDITIONAL_IDEMPOTENCE"@, 2));
    reveal_strlit("SIMPLIFICATION");
    assert("SIMPLIFICATION"@.len() != "CONDITIONAL_IDEMPOTENCE"@.len());
    assert(find_by_name(spec_all_rules(), "CONDITIONAL_IDEMPOTENCE"@, 2) == find_by_name(spec_all_rules(), "CONDITIONAL_IDEMPOTENCE"@, 3));
    reveal_strlit("ADDITION");
    assert("ADDITION"@.len() != "CONDITIONAL_IDEMPOTENCE"@.len());
    assert(find_by_name(spec_all_rules(), "CONDITIONAL_IDEMPOTENCE"@, 3) == find_by_name(spec_all_rules(), "CONDITIONAL_IDEMPOTENCE"@, 4));
    reveal_strlit("DISJUNCTIVE_SYLLOGISM");
    assert("DISJUNCTIVE_SYLLOGISM"@.len() != "CONDITIONAL_IDEMPOTENCE"@.len());
    assert(find_by_name(spec_all_rules(), "CONDITIONAL_IDEMPOTENCE"@, 4) == find_by_name(spec_all_rules(), "CONDITIONAL_IDEMPOTENCE"@, 5));
    reveal_strlit("CONDITIONAL_PROOF");
    assert("CONDITIONAL_PROOF"@.len() != "CONDITIONAL_IDEMPOTENCE"@.len());
    assert(find_by_name(spec_all_rules(), "CONDITIONAL_IDEMPOTENCE"@, 5) == find_by_name(spec_all_rules(), "CONDITIONAL_IDEMPOTENCE"@, 6));
    reveal_strlit("MODUS_PONENS");
    assert("MODUS_PONENS"@.len() != "CONDITIONAL_IDEMPOTENCE"@.len());
    assert(find_by_name(spec_all_rules(), "CONDITIONAL_IDEMPOTENCE"@, 6) == find_by_name(spec_all_rules(), "CONDITIONAL_IDEMPOTENCE"@, 7));
    reveal_strlit("PROOF_BY_CONTRADICTION");
    assert("PROOF_BY_CONTRADICTION"@.len() != "CONDITIONAL_IDEMPOTENCE"@.len());
    assert(find_by_name(spec_all_rules(), "CONDITIONAL_IDEMPOTENCE"@, 7) == find_by_name(spec_all_rules(), "CONDITIONAL_IDEMPOTENCE"@, 8));
    reveal_strlit("DOUBLENEGATION");
    assert("DOUBLENEGATION"@.len() != "CONDITIONAL_IDEMPOTENCE"@.len());
    assert(find_by_name(spec_all_rules(), "CONDITIONAL_IDEMPOTENCE"@, 8) == find_by_name(spec_all_rules(), "CONDITIONAL_IDEMPOTENCE"@, 9));
    reveal_strlit("CONTRADICTION");
    assert("CONTRADICTION"@.len() != "CONDITIONAL_IDEMPOTENCE"@.len());
    assert(find_by_name(spec_all_rules(), "CONDITIONAL_IDEMPOTENCE"@, 9) == find_by_name(spec_all_rules(), "CONDITIONAL_IDEMPOTENCE"@, 10));
    reveal_strlit("PRINCIPLE_OF_EXPLOSION");
    assert("PRINCIPLE_OF_EXPLOSION"@.len() != "CONDITIONAL_IDEMPOTENCE"@.len());
    assert(find_by_name(spec_all_rules(), "CONDITIONAL_IDEMPOTENCE"@, 10) == find_by_name(spec_all_rules(), "CONDITIONAL_IDEMPOTENCE"@, 11));
    reveal_strlit("BICONDITIONAL_INTRO");
    assert("BICONDITIONAL_INTRO"@.len() != "CONDITIONAL_IDEMPOTENCE"@.len());
    assert(find_by_name(spec_all_rules(), "CONDITIONAL_IDEMPOTENCE"@, 11) == find_by_name(spec_all_rules(), "CONDITIONAL_IDEMPOTENCE"@, 12));
    reveal_strlit("BICONDITIONAL_ELIM");
    assert("BICONDITIONAL_ELIM"@.len() != "CONDITIONAL_IDEMPOTENCE"@.len());
    assert(find_by_name(spec_all_rules(), "CONDITIONAL_IDEMPOTENCE"@, 12) == find_by_name(spec_all_rules(), "CONDITIONAL_IDEMPOTENCE"@, 13));
    reveal_strlit("EQUIVALENCE_INTRO");
    assert("EQUIVALENCE_INTRO"@.len() != "CONDITIONAL_IDEMPOTENCE"@.len());
    assert(find_by_name(spec_all_rules(), "CONDITIONAL_IDEMPOTENCE"@, 13) == find_by_name(spec_all_rules(), "CONDITIONAL_IDEMPOTENCE"@, 14));
    reveal_strlit("EQUIVALENCE_ELIM");
    assert("EQUIVALENCE_ELIM"@.len() != "CONDITIONAL_IDEMPOTENCE"@.len());
    assert(find_by_name(spec_all_rules(), "CONDITIONAL_IDEMPOTENCE"@, 14) == find_by_name(spec_all_rules(), "CONDITIONAL_IDEMPOTENCE"@, 15));
    reveal_strlit("UNIVERSAL_GENERALIZATION");
    assert("UNIVERSAL_GENERALIZATION"@.len() != "CONDITIONAL_IDEMPOTENCE"@.len());
    assert(find_by_name(spec_all_rules(), "CONDITIONAL_IDEMPOTENCE"@, 15) == find_by_name(spec_all_rules(), "CONDITIONAL_IDEMPOTENCE"@, 16));
    reveal_strlit("UNIVERSAL_INSTANTIATION");
    assert("UNIVERSAL_INSTANTIATION"@[0] != "CONDITIONAL_IDEMPOTENCE"@[0]);
    assert(find_by_name(spec_all_rules(), "CONDITIONAL_IDEMPOTENCE"@, 16) == find_by_name(spec_all_rules(), "CONDITIONAL_IDEMPOTENCE"@, 17));
    reveal_strlit("EXISTENTIAL_GENERALIZATION");
    assert("EXISTENTIAL_GENERALIZATION"@.len() != "CONDITIONAL_IDEMPOTENCE"@.len());
    assert(find_by_name(spec_all_rules(), "CONDITIONAL_IDEMPOTENCE"@, 17) == find_by_name(spec_all_rules(), "CONDITIONAL_IDEMPOTENCE"@, 18));
    reveal_strlit("EXISTENTIAL_INSTANTIATION");
    assert("EXISTENTIAL_INSTANTIATION"@.len() != "CONDITIONAL_IDEMPOTENCE"@.len());
    assert(find_by_name(spec_all_rules(), "CONDITIONAL_IDEMPOTENCE"@, 18) == find_by_name(spec_all_rules(), "CONDITIONAL_IDEMPOTENCE"@, 19));
    reveal_strlit("MODUS_TOLLENS");
    assert("MODUS_TOLLENS"@.len() != "CONDITIONAL_IDEMPOTENCE"@.len());
    assert(find_by_name(spec_all_rules(), "CONDITIONAL_IDEMPOTENCE"@, 19) == find_by_name(spec_all_rules(), "CONDITIONAL_IDEMPOTENCE"@, 20));
    reveal_strlit("HYPOTHETICAL_SYLLOGISM");
    assert("HYPOTHETICAL_SYLLOGISM"@.len() != "CONDITIONAL_IDEMPOTENCE"@.len());
    assert(find_by_name(spec_all_rules(), "CONDITIONAL_IDEMPOTENCE"@, 20) == find_by_name(spec_all_rules(), "CONDITIONAL_IDEMPOTENCE"@, 21));
    reveal_strlit("EXCLUDED_MIDDLE");
    assert("EXCLUDED_MIDDLE"@.len() != "CONDITIONAL_IDEMPOTENCE"@.len());
    assert(find_by_name(spec_all_rules(), "CONDITIONAL_IDEMPOTENCE"@, 21) == find_by_name(spec_all_rules(), "CONDITIONAL_IDEMPOTENCE"@, 22));
    reveal_strlit("CONSTRUCTIVE_DILEMMA");
    assert("CONSTRUCTIVE_DILEMMA"@.len() != "CONDITIONAL_IDEMPOTENCE"@.len());
    assert(find_by_name(spec_all_rules(), "CONDITIONAL_IDEMPOTENCE"@, 22) == find_by_name(spec_all_rules(), "CONDITIONAL_IDEMPOTENCE"@, 23));
    reveal_strlit("ASSOCIATION");
    assert("ASSOCIATION"@.len() != "CONDITIONAL_IDEMPOTENCE"@.len());
    assert(find_by_name(spec_all_rules(), "CONDITIONAL_IDEMPOTENCE"@, 23) == find_by_name(spec_all_rules(), "CONDITIONAL_IDEMPOTENCE"@, 24));
    reveal_strlit("COMMUTATION");
    assert("COMMUTATION"@.len() != "CONDITIONAL_IDEMPOTENCE"@.len());
    assert(find_by_name(spec_all_rules(), "CONDITIONAL_IDEMPOTENCE"@, 24) == find_by_name(spec_all_rules(), "CONDITIONAL_IDEMPOTENCE"@, 25));
    reveal_strlit("IDEMPOTENCE");
    assert("IDEMPOTENCE"@.len() != "CONDITIONAL_IDEMPOTENCE"@.len());
    assert(find_by_name(spec_all_rules(), "CONDITIONAL_IDEMPOTENCE"@, 25) == find_by_name(spec_all_rules(), "CONDITIONAL_IDEMPOTENCE"@, 26));
    reveal_strlit("DE_MORGAN");
    assert("DE_MORGAN"@.len() != "CONDITIONAL_IDEMPOTENCE"@.len());
    assert(find_by_name(spec_all_rules(), "CONDITIONAL_IDEMPOTENCE"@, 26) == find_by_name(spec_all_rules(), "CONDITIONAL_IDEMPOTENCE"@, 27));
    reveal_strlit("DISTRIBUTION");
    assert("DISTRIBUTION"@.len() != "CONDITIONAL_IDEMPOTENCE"@.len());
    assert(find_by_name(spec_all_rules(), "CONDITIONAL_IDEMPOTENCE"@, 27) == find_by_name(spec_all_rules(), "CONDITIONAL_IDEMPOTENCE"@, 28));
    reveal_strlit("DOUBLENEGATION_EQUIV");
    assert("DOUBLENEGATION_EQUIV"@.len() != "CONDITIONAL_IDEMPOTENCE"@.len());
    assert(find_by_name(spec_all_rules(), "CONDITIONAL_IDEMPOTENCE"@, 28) == find_by_name(spec_all_rules(), "CONDITIONAL_IDEMPOTENCE"@, 29));
    reveal_strlit("COMPLEMENT");
    assert("COMPLEMENT"@.len() != "CONDITIONAL_IDEMPOTENCE"@.len());
    assert(find_by_name(spec_all_rules(), "CONDITIONAL_IDEMPOTENCE"@, 29) == find_by_name(spec_all_rules(), "CONDITIONAL_IDEMPOTENCE"@, 30));
    reveal_strlit("IDENTITY");
    assert("IDENTITY"@.len() != "CONDITIONAL_IDEMPOTENCE"@.len());
    assert(find_by_name(spec_all_rules(), "CONDITIONAL_IDEMPOTENCE"@, 30) == find_by_name(spec_all_rules(), "CONDITIONAL_IDEMPOTENCE"@, 31));
    reveal_strlit("ANNIHILATION");
    assert("ANNIHILATION"@.len() != "CONDITIONAL_IDEMPOTENCE"@.len());
    assert(find_by_name(spec_all_rules(), "CONDITIONAL_IDEMPOTENCE"@, 31) == find_by_name(spec_all_rules(), "CONDITIONAL_IDEMPOTENCE"@, 32));
    reveal_strlit("INVERSE");
    assert("INVERSE"@.len() != "CONDITIONAL_IDEMPOTENCE"@.len());
    assert(find_by_name(spec_all_rules(), "CONDITIONAL_IDEMPOTENCE"@, 32) == find_by_name(spec_all_rules(), "CONDITIONAL_IDEMPOTENCE"@, 33));
    reveal_strlit("ABSORPTION");
    assert("ABSORPTION"@.len() != "CONDITIONAL_IDEMPOTENCE"@.len());
    assert(find_by_name(spec_all_rules(), "CONDITIONAL_IDEMPOTENCE"@, 33) == find_by_name(spec_all_rules(), "CONDITIONAL_IDEMPOTENCE"@, 34));
    reveal_strlit("REDUCTION");
    assert("REDUCTION"@.len() != "CONDITIONAL_IDEMPOTENCE"@.len());
    assert(find_by_name(spec_all_rules(), "CONDITIONAL_IDEMPOTENCE"@, 34) == find_by_name(spec_all_rules(), "CONDITIONAL_IDEMPOTENCE"@, 35));
    reveal_strlit("ADJACENCY");
    assert("ADJACENCY"@.len() != "CONDITIONAL_IDEMPOTENCE"@.len());
    assert(find_by_name(spec_all_rules(), "CONDITIONAL_IDEMPOTENCE"@, 35) == find_by_name(spec_all_rules(), "CONDITIONAL_IDEMPOTENCE"@, 36));
    reveal_strlit("CONDITIONAL_COMPLEMENT");
    assert("CONDITIONAL_COMPLEMENT"@.len() != "CONDITIONAL_IDEMPOTENCE"@.len());
    assert(find_by_name(spec_all_rules(), "CONDITIONAL_IDEMPOTENCE"@, 36) == find_by_name(spec_all_rules(), "CONDITIONAL_IDEMPOTENCE"@, 37));
    reveal_strlit("CONDITIONAL_IDENTITY");
    assert("CONDITIONAL_IDENTITY"@.len() != "CONDITIONAL_IDEMPOTENCE"@.len());
    assert(find_by_name(spec_all_rules(), "CONDITIONAL_IDEMPOTENCE"@, 37) == find_by_name(spec_all_rules(), "CONDITIONAL_IDEMPOTENCE"@, 38));
    reveal_strlit("CONDITIONAL_ANNIHILATION");
    assert("CONDITIONAL_ANNIHILATION"@.len() != "CONDITIONAL_IDEMPOTENCE"@.len());
    assert(find_by_name(spec_all_rules(), "CONDITIONAL_IDEMPOTENCE"@, 38) == find_by_name(spec_all_rules(), "CONDITIONAL_IDEMPOTENCE"@, 39));
    reveal_strlit("IMPLICATION");
    assert("IMPLICATION"@.len() != "CONDITIONAL_IDEMPOTENCE"@.len());
    assert(find_by_name(spec_all_rules(), "CONDITIONAL_IDEMPOTENCE"@, 39) == find_by_name(spec_all_rules(), "CONDITIONAL_IDEMPOTENCE"@, 40));
    reveal_strlit("BI_IMPLICATION");
    assert("BI_IMPLICATION"@.len() != "CONDITIONAL_IDEMPOTENCE"@.len());
    assert(find_by_name(spec_all_rules(), "CONDITIONAL_IDEMPOTENCE"@, 40) == find_by_name(spec_all_rules(), "CONDITIONAL_IDEMPOTENCE"@, 41));
    reveal_strlit("CONTRAPOSITION");
    assert("CONTRAPOSITION"@.len() != "CONDITIONAL_IDEMPOTENCE"@.len());
    assert(find_by_name(spec_all_rules(), "CONDITIONAL_IDEMPOTENCE"@, 41) == find_by_name(spec_all_rules(), "CONDITIONAL_IDEMPOTENCE"@, 42));
    reveal_strlit("CURRYING");
    assert("CURRYING"@.len() != "CONDITIONAL_IDEMPOTENCE"@.len());
    assert(find_by_name(spec_all_rules(), "CONDITIONAL_IDEMPOTENCE"@, 42) == find_by_name(spec_all_rules(), "CONDITIONAL_IDEMPOTENCE"@, 43));
    reveal_strlit("CONDITIONAL_DISTRIBUTION");
    assert("CONDITIONAL_DISTRIBUTION"@.len() != "CONDITIONAL_IDEMPOTENCE"@.len());
    assert(find_by_name(spec_all_rules(), "CONDITIONAL_IDEMPOTENCE"@, 43) == find_by_name(spec_all_rules(), "CONDITIONAL_IDEMPOTENCE"@, 44));
    reveal_strlit("CONDITIONAL_REDUCTION");
    assert("CONDITIONAL_REDUCTION"@.len() != "CONDITIONAL_IDEMPOTENCE"@.len());
    assert(find_by_name(spec_all_rules(), "CONDITIONAL_IDEMPOTENCE"@, 44) == find_by_name(spec_all_rules(), "CONDITIONAL_IDEMPOTENCE"@, 45));
    reveal_strlit("KNIGHTS_AND_KNAVES");
    assert("KNIGHTS_AND_KNAVES"@.len() != "CONDITIONAL_IDEMPOTENCE"@.len());
    assert(find_by_name(spec_all_rules(), "CONDITIONAL_IDEMPOTENCE"@, 45) == find_by_name(spec_all_rules(), "CONDITIONAL_IDEMPOTENCE"@, 46));
    assert(find_by_name(spec_all_rules(), "CONDITIONAL_IDEMPOTENCE"@, 46) == Some(Rule::Conditional(ConditionalEquivalence::ConditionalIdempotence)));
}

proof fn lemma_finds_biconditional_negation()
    ensures
        find_by_name(spec_all_rules(), "BICONDITIONAL_NEGATION"@, 0) == Some(Rule::Conditional(ConditionalEquivalence::BiconditionalNegation)),
{
    reveal_strlit("BICONDITIONAL_NEGATION");
    reveal_strlit("REITERATION");
    assert("REITERATION"@.len() != "BICONDITIONAL_NEGATION"@.len());
    assert(find_by_name(spec_all_rules(), "BICONDITIONAL_NEGATION"@, 0) == find_by_name(spec_all_rules(), "BICONDITIONAL_NEGATION"@, 1));
    reveal_strlit("CONJUNCTION");
    assert("CONJUNCTION"@.len() != "BICONDITIONAL_NEGATION"@.len());
    assert(find_by_name(spec_all_rules(), "BICONDITIONAL_NEGATION"@, 1) == find_by_name(spec_all_rules(), "BICONDITIONAL_NEGATION"@, 2));
    reveal_strlit("SIMPLIFICATION");
    assert("SIMPLIFICATION"@.len() != "BICONDITIONAL_NEGATION"@.len());
    assert(find_by_name(spec_all_rules(), "BICONDITIONAL_NEGATION"@, 2) == find_by_name(spec_all_rules(), "BICONDITIONAL_NEGATION"@, 3));
    reveal_strlit("ADDITION");
    assert("ADDITION"@.len() != "BICONDITIONAL_NEGATION"@.len());
    assert(find_by_name(spec_all_rules(), "BICONDITIONAL_NEGATION"@, 3) == find_by_name(spec_all_rules(), "BICONDITIONAL_NEGATION"@, 4));
    reveal_strlit("DISJUNCTIVE_SYLLOGISM");
    assert("DISJUNCTIVE_SYLLOGISM"@.len() != "BICONDITIONAL_NEGATION"@.len());
    assert(find_by_name(spec_all_rules(), "BICONDITIONAL_NEGATION"@, 4) == find_by_name(spec_all_rules(), "BICONDITIONAL_NEGATION"@, 5));
    reveal_strlit("CONDITIONAL_PROOF");
    assert("CONDITIONAL_PROOF"@.len() != "BICONDITIONAL_NEGATION"@.len());
    assert(find_by_name(spec_all_rules(), "BICONDITIONAL_NEGATION"@, 5) == find_by_name(spec_all_rules(), "BICONDITIONAL_NEGATION"@, 6));
    reveal_strlit("MODUS_PONENS");
    assert("MODUS_PONENS"@.len() != "BICONDITIONAL_NEGATION"@.len());
    assert(find_by_name(spec_all_rules(), "BICONDITIONAL_NEGATION"@, 6) == find_by_name(spec_all_rules(), "BICONDITIONAL_NEGATION"@, 7));
    reveal_strlit("PROOF_BY_CONTRADICTION");
    assert("PROOF_BY_CONTRADICTION"@[0] != "BICONDITIONAL_NEGATION"@[0]);
    assert(find_by_name(spec_all_rules(), "BICONDITIONAL_NEGATION"@, 7) == find_by_name(spec_all_rules(), "BICONDITIONAL_NEGATION"@, 8));
    reveal_strlit("DOUBLENEGATION");
    assert("DOUBLENEGATION"@.len() != "BICONDITIONAL_NEGATION"@.len());
    assert(find_by_name(spec_all_rules(), "BICONDITIONAL_NEGATION"@, 8) == find_by_name(spec_all_rules(), "BICONDITIONAL_NEGATION"@, 9));
    reveal_strlit("CONTRADICTION");
    assert("CONTRADICTION"@.len() != "BICONDITIONAL_NEGATION"@.len());
    assert(find_by_name(spec_all_rules(), "BICONDITIONAL_NEGATION"@, 9) == find_by_name(spec_all_rules(), "BICONDITIONAL_NEGATION"@, 10));
    reveal_strlit("PRINCIPLE_OF_EXPLOSION");
    assert("PRINCIPLE_OF_EXPLOSION"@[0] != "BICONDITIONAL_NEGATION"@[0]);
    assert(find_by_name(spec_all_rules(), "BICONDITIONAL_NEGATION"@, 10) == find_by_name(spec_all_rules(), "BICONDITIONAL_NEGATION"@, 11));
    reveal_strlit("BICONDITIONAL_INTRO");
    assert("BICONDITIONAL_INTRO"@.len() != "BICONDITIONAL_NEGATION"@.len());
    assert(find_by_name(spec_all_rules(), "BICONDITIONAL_NEGATION"@, 11) == find_by_name(spec_all_rules(), "BICONDITIONAL_NEGATION"@, 12));
    reveal_strlit("BICONDITIONAL_ELIM");
    assert("BICONDITIONAL_ELIM"@.len() != "BICONDITIONAL_NEGATION"@.len());
    assert(find_by_name(spec_all_rules(), "BICONDITIONAL_NEGATION"@, 12) == find_by_name(spec_all_rules(), "BICONDITIONAL_NEGATION"@, 13));
    reveal_strlit("EQUIVALENCE_INTRO");
    assert("EQUIVALENCE_INTRO"@.len() != "BICONDITIONAL_NEGATION"@.len());
    assert(find_by_name(spec_all_rules(), "BICONDITIONAL_NEGATION"@, 13) == find_by_name(spec_all_rules(), "BICONDITIONAL_NEGATION"@, 14));
    reveal_strlit("EQUIVALENCE_ELIM");
    assert("EQUIVALENCE_ELIM"@.len() != "BICONDITIONAL_NEGATION"@.len());
    assert(find_by_name(spec_all_rules(), "BICONDITIONAL_NEGATION"@, 14) == find_by_name(spec_all_rules(), "BICONDITIONAL_NEGATION"@, 15));
    reveal_strlit("UNIVERSAL_GENERALIZATION");
    assert("UNIVERSAL_GENERALIZATION"@.len() != "BICONDITIONAL_NEGATION"@.len());
    assert(find_by_name(spec_all_rules(), "BICONDITIONAL_NEGATION"@, 15) == find_by_name(spec_all_rules(), "BICONDITIONAL_NEGATION"@, 16));
    reveal_strlit("UNIVERSAL_INSTANTIATION");
    assert("UNIVERSAL_INSTANTIATION"@.len() != "BICONDITIONAL_NEGATION"@.len());
    assert(find_by_name(spec_all_rules(), "BICONDITIONAL_NEGATION"@, 16) == find_by_name(spec_all_rules(), "BICONDITIONAL_NEGATION"@, 17));
    reveal_strlit("EXISTENTIAL_GENERALIZATION");
    assert("EXISTENTIAL_GENERALIZATION"@.len() != "BICONDITIONAL_NEGATION"@.len());
    assert(find_by_name(spec_all_rules(), "BICONDITIONAL_NEGATION"@, 17) == find_by_name(spec_all_rules(), "BICONDITIONAL_NEGATION"@, 18));
    reveal_strlit("EXISTENTIAL_INSTANTIATION");
    assert("EXISTENTIAL_INSTANTIATION"@.len() != "BICONDITIONAL_NEGATION"@.len());
    assert(find_by_name(spec_all_rules(), "BICONDITIONAL_NEGATION"@, 18) == find_by_name(spec_all_rules(), "BICONDITIONAL_NEGATION"@, 19));
    reveal_strlit("MODUS_TOLLENS");
    assert("MODUS_TOLLENS"@.len() != "BICONDITIONAL_NEGATION"@.len());
    assert(find_by_name(spec_all_rules(), "BICONDITIONAL_NEGATION"@, 19) == find_by_name(spec_all_rules(), "BICONDITIONAL_NEGATION"@, 20));
    reveal_strlit("HYPOTHETICAL_SYLLOGISM");
    assert("HYPOTHETICAL_SYLLOGISM"@[0] != "BICONDITIONAL_NEGATION"@[0]);
    assert(find_by_name(spec_all_rules(), "BICONDITIONAL_NEGATION"@, 20) == find_by_name(spec_all_rules(), "BICONDITIONAL_NEGATION"@, 21));
    reveal_strlit("EXCLUDED_MIDDLE");
    assert("EXCLUDED_MIDDLE"@.len() != "BICONDITIONAL_NEGATION"@.len());
    assert(find_by_name(spec_all_rules(), "BICONDITIONAL_NEGATION"@, 21) == find_by_name(spec_all_rules(), "BICONDITIONAL_NEGATION"@, 22));
    reveal_strlit("CONSTRUCTIVE_DILEMMA");
    assert("CONSTRUCTIVE_DILEMMA"@.len() != "BICONDITIONAL_NEGATION"@.len());
    assert(find_by_name(spec_all_rules(), "BICONDITIONAL_NEGATION"@, 22) == find_by_name(spec_all_rules(), "BICONDITIONAL_NEGATION"@, 23));
    reveal_strlit("ASSOCIATION");
    assert("ASSOCIATION"@.len() != "BICONDITIONAL_NEGATION"@.len());
    assert(find_by_name(spec_all_rules(), "BICONDITIONAL_NEGATION"@, 23) == find_by_name(spec_all_rules(), "BICONDITIONAL_NEGATION"@, 24));
    reveal_strlit("COMMUTATION");
    assert("COMMUTATION"@.len() != "BICONDITIONAL_NEGATION"@.len());
    assert(find_by_name(spec_all_rules(), "BICONDITIONAL_NEGATION"@, 24) == find_by_name(spec_all_rules(), "BICONDITIONAL_NEGATION"@, 25));
    reveal_strlit("IDEMPOTENCE");
    assert("IDEMPOTENCE"@.len() != "BICONDITIONAL_NEGATION"@.len());
    assert(find_by_name(spec_all_rules(), "BICONDITIONAL_NEGATION"@, 25) == find_by_name(spec_all_rules(), "BICONDITIONAL_NEGATION"@, 26));
    reveal_strlit("DE_MORGAN");
    assert("DE_MORGAN"@.len() != "BICONDITIONAL_NEGATION"@.len());
    assert(find_by_name(spec_all_rules(), "BICONDITIONAL_NEGATION"@, 26) == find_by_name(spec_all_rules(), "BICONDITIONAL_NEGATION"@, 27));
    reveal_strlit("DISTRIBUTION");
    assert("DISTRIBUTION"@.len() != "BICONDITIONAL_NEGATION"@.len());
    assert(find_by_name(spec_all_rules(), "BICONDITIONAL_NEGATION"@, 27) == find_by_name(spec_all_rules(), "BICONDITIONAL_NEGATION"@, 28));
    reveal_strlit("DOUBLENEGATION_EQUIV");
    assert("DOUBLENEGATION_EQUIV"@.len() != "BICONDITIONAL_NEGATION"@.len());
    assert(find_by_name(spec_all_rules(), "BICONDITIONAL_NEGATION"@, 28) == find_by_name(spec_all_rules(), "BICONDITIONAL_NEGATION"@, 29));
    reveal_strlit("COMPLEMENT");
    assert("COMPLEMENT"@.len() != "BICONDITIONAL_NEGATION"@.len());
    assert(find_by_name(spec_all_rules(), "BICONDITIONAL_NEGATION"@, 29) == find_by_name(spec_all_rules(), "BICONDITIONAL_NEGATION"@, 30));
    reveal_strlit("IDENTITY");
    assert("IDENTITY"@.len() != "BICONDITIONAL_NEGATION"@.len());
    assert(find_by_name(spec_all_rules(), "BICONDITIONAL_NEGATION"@, 30) == find_by_name(spec_all_rules(), "BICONDITIONAL_NEGATION"@, 31));
    reveal_strlit("ANNIHILATION");
    assert("ANNIHILATION"@.len() != "BICONDITIONAL_NEGATION"@.len());
    assert(find_by_name(spec_all_rules(), "BICONDITIONAL_NEGATION"@, 31) == find_by_name(spec_all_rules(), "BICONDITIONAL_NEGATION"@, 32));
    reveal_strlit("INVERSE");
    assert("INVERSE"@.len() != "BICONDITIONAL_NEGATION"@.len());
    assert(find_by_name(spec_all_rules(), "BICONDITIONAL_NEGATION"@, 32) == find_by_name(spec_all_rules(), "BICONDITIONAL_NEGATION"@, 33));
    reveal_strlit("ABSORPTION");
    assert("ABSORPTION"@.len() != "BICONDITIONAL_NEGATION"@.len());
    assert(find_by_name(spec_all_rules(), "BICONDITIONAL_NEGATION"@, 33) == find_by_name(spec_all_rules(), "BICONDITIONAL_NEGATION"@, 34));
    reveal_strlit("REDUCTION");
    assert("REDUCTION"@.len() != "BICONDITIONAL_NEGATION"@.len());
    assert(find_by_name(spec_all_rules(), "BICONDITIONAL_NEGATION"@, 34) == find_by_name(spec_all_rules(), "BICONDITIONAL_NEGATION"@, 35));
    reveal_strlit("ADJACENCY");
    assert("ADJACENCY"@.len() != "BICONDITIONAL_NEGATION"@.len());
    assert(find_by_name(spec_all_rules(), "BICONDITIONAL_NEGATION"@, 35) == find_by_name(spec_all_rules(), "BICONDITIONAL_NEGATION"@, 36));
    reveal_strlit("CONDITIONAL_COMPLEMENT");
    assert("CONDITIONAL_COMPLEMENT"@[0] != "BICONDITIONAL_NEGATION"@[0]);
    assert(find_by_name(spec_all_rules(), "BICONDITIONAL_NEGATION"@, 36) == find_by_name(spec_all_rules(), "BICONDITIONAL_NEGATION"@, 37));
    reveal_strlit("CONDITIONAL_IDENTITY");
    assert("CONDITIONAL_IDENTITY"@.len() != "BICONDITIONAL_NEGATION"@.len());
    assert(find_by_name(spec_all_rules(), "BICONDITIONAL_NEGATION"@, 37) == find_by_name(spec_all_rules(), "BICONDITIONAL_NEGATION"@, 38));
    reveal_strlit("CONDITIONAL_ANNIHILATION");
    assert("CONDITIONAL_ANNIHILATION"@.len() != "BICONDITIONAL_NEGATION"@.len());
    assert(find_by_name(spec_all_rules(), "BICONDITIONAL_NEGATION"@, 38) == find_by_name(spec_all_rules(), "BICONDITIONAL_NEGATION"@, 39));
    reveal_strlit("IMPLICATION");
    assert("IMPLICATION"@.len() != "BICONDITIONAL_NEGATION"@.len());
    assert(find_by_name(spec_all_rules(), "BICONDITIONAL_NEGATION"@, 39) == find_by_name(spec_all_rules(), "BICONDITIONAL_NEGATION"@, 40));
    reveal_strlit("BI_IMPLICATION");
    assert("BI_IMPLICATION"@.len() != "BICONDITIONAL_NEGATION"@.len());
    assert(find_by_name(spec_all_rules(), "BICONDITIONAL_NEGATION"@, 40) == find_by_name(spec_all_rules(), "BICONDITIONAL_NEGATION"@, 41));
    reveal_strlit("CONTRAPOSITION");
    assert("CONTRAPOSITION"@.len() != "BICONDITIONAL_NEGATION"@.len());
    assert(find_by_name(spec_all_rules(), "BICONDITIONAL_NEGATION"@, 41) == find_by_name(spec_all_rules(), "BICONDITIONAL_NEGATION"@, 42));
    reveal_strlit("CURRYING");
    assert("CURRYING"@.len() != "BICONDITIONAL_NEGATION"@.len());
    assert(find_by_name(spec_all_rules(), "BICONDITIONAL_NEGATION"@, 42) == find_by_name(spec_all_rules(), "BICONDITIONAL_NEGATION"@, 43));
    reveal_strlit("CONDITIONAL_DISTRIBUTION");
    assert("CONDITIONAL_DISTRIBUTION"@.len() != "BICONDITIONAL_NEGATION"@.len());
    assert(find_by_name(spec_all_rules(), "BICONDITIONAL_NEGATION"@, 43) == find_by_name(spec_all_rules(), "BICONDITIONAL_NEGATION"@, 44));
    reveal_strlit("CONDITIONAL_REDUCTION");
    assert("CONDITIONAL_REDUCTION"@.len() != "BICONDITIONAL_NEGATION"@.len());
    assert(find_by_name(spec_all_rules(), "BICONDITIONAL_NEGATION"@, 44) == find_by_name(spec_all_rules(), "BICONDITIONAL_NEGATION"@, 45));
    reveal_strlit("KNIGHTS_AND_KNAVES");
    assert("KNIGHTS_AND_KNAVES"@.len() != "BICONDITIONAL_NEGATION"@.len());
    assert(find_by_name(spec_all_rules(), "BICONDITIONAL_NEGATION"@, 45) == find_by_name(spec_all_rules(), "BICONDITIONAL_NEGATION"@, 46));
    reveal_strlit("CONDITIONAL_IDEMPOTENCE");
    assert("CONDITIONAL_IDEMPOTENCE"@.len() != "BICONDITIONAL_NEGATION"@.len());
    assert(find_by_name(spec_all_rules(), "BICONDITIONAL_NEGATION"@, 46) == find_by_name(spec_all_rules(), "BICONDITIONAL_NEGATION"@, 47));
    assert(find_by_name(spec_all_rules(), "BICONDITIONAL_NEGATION"@, 47) == Some(Rule::Conditional(ConditionalEquivalence::BiconditionalNegation)));
}

proof fn lemma_finds_biconditional_substitution()
    ensures
        find_by_name(spec_all_rules(), "BICONDITIONAL_SUBSTITUTION"@, 0) == Some(Rule::Conditional(ConditionalEquivalence::BiconditionalSubstitution)),
{
    reveal_strlit("BICONDITIONAL_SUBSTITUTION");
    reveal_strlit("REITERATION");
    assert("REITERATION"@.len() != "BICONDITIONAL_SUBSTITUTION"@.len());
    assert(find_by_name(spec_all_rules(), "BICONDITIONAL_SUBSTITUTION"@, 0) == find_by_name(spec_all_rules(), "BICONDITIONAL_SUBSTITUTION"@, 1));
    reveal_strlit("CONJUNCTION");
    assert("CONJUNCTION"@.len() != "BICONDITIONAL_SUBSTITUTION"@.len());
    assert(find_by_name(spec_all_rules(), "BICONDITIONAL_SUBSTITUTION"@, 1) == find_by_name(spec_all_rules(), "BICONDITIONAL_SUBSTITUTION"@, 2));
    reveal_strlit("SIMPLIFICATION");
    assert("SIMPLIFICATION"@.len() != "BICONDITIONAL_SUBSTITUTION"@.len());
    assert(find_by_name(spec_all_rules(), "BICONDITIONAL_SUBSTITUTION"@, 2) == find_by_name(spec_all_rules(), "BICONDITIONAL_SUBSTITUTION"@, 3));
    reveal_strlit("ADDITION");
    assert("ADDITION"@.len() != "BICONDITIONAL_SUBSTITUTION"@.len());
    assert(find_by_name(spec_all_rules(), "BICONDITIONAL_SUBSTITUTION"@, 3) == find_by_name(spec_all_rules(), "BICONDITIONAL_SUBSTITUTION"@, 4));
    reveal_strlit("DISJUNCTIVE_SYLLOGISM");
    assert("DISJUNCTIVE_SYLLOGISM"@.len() != "BICONDITIONAL_SUBSTITUTION"@.len());
    assert(find_by_name(spec_all_rules(), "BICONDITIONAL_SUBSTITUTION"@, 4) == find_by_name(spec_all_rules(), "BICONDITIONAL_SUBSTITUTION"@, 5));
    reveal_strlit("CONDITIONAL_PROOF");
    assert("CONDITIONAL_PROOF"@.len() != "BICONDITIONAL_SUBSTITUTION"@.len());
    assert(find_by_name(spec_all_rules(), "BICONDITIONAL_SUBSTITUTION"@, 5) == find_by_name(spec_all_rules(), "BICONDITIONAL_SUBSTITUTION"@, 6));
    reveal_strlit("MODUS_PONENS");
    assert("MODUS_PONENS"@.len() != "BICONDITIONAL_SUBSTITUTION"@.len());
    assert(find_by_name(spec_all_rules(), "BICONDITIONAL_SUBSTITUTION"@, 6) == find_by_name(spec_all_rules(), "BICONDITIONAL_SUBSTITUTION"@, 7));
    reveal_strlit("PROOF_BY_CONTRADICTION");
    assert("PROOF_BY_CONTRADICTION"@.len() != "BICONDITIONAL_SUBSTITUTION"@.len());
    assert(find_by_name(spec_all_rules(), "BICONDITIONAL_SUBSTITUTION"@, 7) == find_by_name(spec_all_rules(), "BICONDITIONAL_SUBSTITUTION"@, 8));
    reveal_strlit("DOUBLENEGATION");
    assert("DOUBLENEGATION"@.len() != "BICONDITIONAL_SUBSTITUTION"@.len());
    assert(find_by_name(spec_all_rules(), "BICONDITIONAL_SUBSTITUTION"@, 8) == find_by_name(spec_all_rules(), "BICONDITIONAL_SUBSTITUTION"@, 9));
    reveal_strlit("CONTRADICTION");
    assert("CONTRADICTION"@.len() != "BICONDITIONAL_SUBSTITUTION"@.len());
    assert(find_by_name(spec_all_rules(), "BICONDITIONAL_SUBSTITUTION"@, 9) == find_by_name(spec_all_rules(), "BICONDITIONAL_SUBSTITUTION"@, 10));
    reveal_strlit("PRINCIPLE_OF_EXPLOSION");
    assert("PRINCIPLE_OF_EXPLOSION"@.len() != "BICONDITIONAL_SUBSTITUTION"@.len());
    assert(find_by_name(spec_all_rules(), "BICONDITIONAL_SUBSTITUTION"@, 10) == find_by_name(spec_all_rules(), "BICONDITIONAL_SUBSTITUTION"@, 11));
    reveal_strlit("BICONDITIONAL_INTRO");
    assert("BICONDITIONAL_INTRO"@.len() != "BICONDITIONAL_SUBSTITUTION"@.len());
    assert(find_by_name(spec_all_rules(), "BICONDITIONAL_SUBSTITUTION"@, 11) == find_by_name(spec_all_rules(), "BICONDITIONAL_SUBSTITUTION"@, 12));
    reveal_strlit("BICONDITIONAL_ELIM");
    assert("BICONDITIONAL_ELIM"@.len() != "BICONDITIONAL_SUBSTITUTION"@.len());
    assert(find_by_name(spec_all_rules(), "BICONDITIONAL_SUBSTITUTION"@, 12) == find_by_name(spec_all_rules(), "BICONDITIONAL_SUBSTITUTION"@, 13));
    reveal_strlit("EQUIVALENCE_INTRO");
    assert("EQUIVALENCE_INTRO"@.len() != "BICONDITIONAL_SUBSTITUTION"@.len());
    assert(find_by_name(spec_all_rules(), "BICONDITIONAL_SUBSTITUTION"@, 13) == find_by_name(spec_all_rules(), "BICONDITIONAL_SUBSTITUTION"@, 14));
    reveal_strlit("EQUIVALENCE_ELIM");
    assert("EQUIVALENCE_ELIM"@.len() != "BICONDITIONAL_SUBSTITUTION"@.len());
    assert(find_by_name(spec_all_rules(), "BICONDITIONAL_SUBSTITUTION"@, 14) == find_by_name(spec_all_rules(), "BICONDITIONAL_SUBSTITUTION"@, 15));
    reveal_strlit("UNIVERSAL_GENERALIZATION");
    assert("UNIVERSAL_GENERALIZATION"@.len() != "BICONDITIONAL_SUBSTITUTION"@.len());
    assert(find_by_name(spec_all_rules(), "BICONDITIONAL_SUBSTITUTION"@, 15) == find_by_name(spec_all_rules(), "BICONDITIONAL_SUBSTITUTION"@, 16));
    reveal_strlit("UNIVERSAL_INSTANTIATION");
    assert("UNIVERSAL_INSTANTIATION"@.len() != "BICONDITIONAL_SUBSTITUTION"@.len());
    assert(find_by_name(spec_all_rules(), "BICONDITIONAL_SUBSTITUTION"@, 16) == find_by_name(spec_all_rules(), "BICONDITIONAL_SUBSTITUTION"@, 17));
    reveal_strlit("EXISTENTIAL_GENERALIZATION");
    assert("EXISTENTIAL_GENERALIZATION"@[0] != "BICONDITIONAL_SUBSTITUTION"@[0]);
    assert(find_by_name(spec_all_rules(), "BICONDITIONAL_SUBSTITUTION"@, 17) == find_by_name(spec_all_rules(), "BICONDITIONAL_SUBSTITUTION"@, 18));
    reveal_strlit("EXISTENTIAL_INSTANTIATION");
    assert("EXISTENTIAL_INSTANTIATION"@.len() != "BICONDITIONAL_SUBSTITUTION"@.len());
    assert(find_by_name(spec_all_rules(), "BICONDITIONAL_SUBSTITUTION"@, 18) == find_by_name(spec_all_rules(), "BICONDITIONAL_SUBSTITUTION"@, 19));
    reveal_strlit("MODUS_TOLLENS");
    assert("MODUS_TOLLENS"@.len() != "BICONDITIONAL_SUBSTITUTION"@.len());
    assert(find_by_name(spec_all_rules(), "BICONDITIONAL_SUBSTITUTION"@, 19) == find_by_name(spec_all_rules(), "BICONDITIONAL_SUBSTITUTION"@, 20));
    reveal_strlit("HYPOTHETICAL_SYLLOGISM");
    assert("HYPOTHETICAL_SYLLOGISM"@.len() != "BICONDITIONAL_SUBSTITUTION"@.len());
    assert(find_by_name(spec_all_rules(), "BICONDITIONAL_SUBSTITUTION"@, 20) == find_by_name(spec_all_rules(), "BICONDITIONAL_SUBSTITUTION"@, 21));
    reveal_strlit("EXCLUDED_MIDDLE");
    assert("EXCLUDED_MIDDLE"@.len() != "BICONDITIONAL_SUBSTITUTION"@.len());
    assert(find_by_name(spec_all_rules(), "BICONDITIONAL_SUBSTITUTION"@, 21) == find_by_name(spec_all_rules(), "BICONDITIONAL_SUBSTITUTION"@, 22));
    reveal_strlit("CONSTRUCTIVE_DILEMMA");
    assert("CONSTRUCTIVE_DILEMMA"@.len() != "BICONDITIONAL_SUBSTITUTION"@.len());
    assert(find_by_name(spec_all_rules(), "BICONDITIONAL_SUBSTITUTION"@, 22) == find_by_name(spec_all_rules(), "BICONDITIONAL_SUBSTITUTION"@, 23));
    reveal_strlit("ASSOCIATION");
    assert("ASSOCIATION"@.len() != "BICONDITIONAL_SUBSTITUTION"@.len());
    assert(find_by_name(spec_all_rules(), "BICONDITIONAL_SUBSTITUTION"@, 23) == find_by_name(spec_all_rules(), "BICONDITIONAL_SUBSTITUTION"@, 24));
    reveal_strlit("COMMUTATION");
    assert("COMMUTATION"@.len() != "BICONDITIONAL_SUBSTITUTION"@.len());
    assert(find_by_name(spec_all_rules(), "BICONDITIONAL_SUBSTITUTION"@, 24) == find_by_name(spec_all_rules(), "BICONDITIONAL_SUBSTITUTION"@, 25));
    reveal_strlit("IDEMPOTENCE");
    assert("IDEMPOTENCE"@.len() != "BICONDITIONAL_SUBSTITUTION"@.len());
    assert(find_by_name(spec_all_rules(), "BICONDITIONAL_SUBSTITUTION"@, 25) == find_by_name(spec_all_rules(), "BICONDITIONAL_SUBSTITUTION"@, 26));
    reveal_strlit("DE_MORGAN");
    assert("DE_MORGAN"@.len() != "BICONDITIONAL_SUBSTITUTION"@.len());
    assert(find_by_name(spec_all_rules(), "BICONDITIONAL_SUBSTITUTION"@, 26) == find_by_name(spec_all_rules(), "BICONDITIONAL_SUBSTITUTION"@, 27));
    reveal_strlit("DISTRIBUTION");
    assert("DISTRIBUTION"@.len() != "BICONDITIONAL_SUBSTITUTION"@.len());
    assert(find_by_name(spec_all_rules(), "BICONDITIONAL_SUBSTITUTION"@, 27) == find_by_name(spec_all_rules(), "BICONDITIONAL_SUBSTITUTION"@, 28));
    reveal_strlit("DOUBLENEGATION_EQUIV");
    assert("DOUBLENEGATION_EQUIV"@.len() != "BICONDITIONAL_SUBSTITUTION"@.len());
    assert(find_by_name(spec_all_rules(), "BICONDITIONAL_SUBSTITUTION"@, 28) == find_by_name(spec_all_rules(), "BICONDITIONAL_SUBSTITUTION"@, 29));
    reveal_strlit("COMPLEMENT");
    assert("COMPLEMENT"@.len() != "BICONDITIONAL_SUBSTITUTION"@.len());
    assert(find_by_name(spec_all_rules(), "BICONDITIONAL_SUBSTITUTION"@, 29) == find_by_name(spec_all_rules(), "BICONDITIONAL_SUBSTITUTION"@, 30));
    reveal_strlit("IDENTITY");
    assert("IDENTITY"@.len() != "BICONDITIONAL_SUBSTITUTION"@.len());
    assert(find_by_name(spec_all_rules(), "BICONDITIONAL_SUBSTITUTION"@, 30) == find_by_name(spec_all_rules(), "BICONDITIONAL_SUBSTITUTION"@, 31));
    reveal_strlit("ANNIHILATION");
    assert("ANNIHILATION"@.len() != "BICONDITIONAL_SUBSTITUTION"@.len());
    assert(find_by_name(spec_all_rules(), "BICONDITIONAL_SUBSTITUTION"@, 31) == find_by_name(spec_all_rules(), "BICONDITIONAL_SUBSTITUTION"@, 32));
    reveal_strlit("INVERSE");
    assert("INVERSE"@.len() != "BICONDITIONAL_SUBSTITUTION"@.len());
    assert(find_by_name(spec_all_rules(), "BICONDITIONAL_SUBSTITUTION"@, 32) == find_by_name(spec_all_rules(), "BICONDITIONAL_SUBSTITUTION"@, 33));
    reveal_strlit("ABSORPTION");
    assert("ABSORPTION"@.len() != "BICONDITIONAL_SUBSTITUTION"@.len());
    assert(find_by_name(spec_all_rules(), "BICONDITIONAL_SUBSTITUTION"@, 33) == find_by_name(spec_all_rules(), "BICONDITIONAL_SUBSTITUTION"@, 34));
    reveal_strlit("REDUCTION");
    assert("REDUCTION"@.len() != "BICONDITIONAL_SUBSTITUTION"@.len());
    assert(find_by_name(spec_all_rules(), "BICONDITIONAL_SUBSTITUTION"@, 34) == find_by_name(spec_all_rules(), "BICONDITIONAL_SUBSTITUTION"@, 35));
    reveal_strlit("ADJACENCY");
    assert("ADJACENCY"@.len() != "BICONDITIONAL_SUBSTITUTION"@.len());
    assert(find_by_name(spec_all_rules(), "BICONDITIONAL_SUBSTITUTION"@, 35) == find_by_name(spec_all_rules(), "BICONDITIONAL_SUBSTITUTION"@, 36));
    reveal_strlit("CONDITIONAL_COMPLEMENT");
    assert("CONDITIONAL_COMPLEMENT"@.len() != "BICONDITIONAL_SUBSTITUTION"@.len());
    assert(find_by_name(spec_all_rules(), "BICONDITIONAL_SUBSTITUTION"@, 36) == find_by_name(spec_all_rules(), "BICONDITIONAL_SUBSTITUTION"@, 37));
    reveal_strlit("CONDITIONAL_IDENTITY");
    assert("CONDITIONAL_IDENTITY"@.len() != "BICONDITIONAL_SUBSTITUTION"@.len());
    assert(find_by_name(spec_all_rules(), "BICONDITIONAL_SUBSTITUTION"@, 37) == find_by_name(spec_all_rules(), "BICONDITIONAL_SUBSTITUTION"@, 38));
    reveal_strlit("CONDITIONAL_ANNIHILATION");
    assert("CONDITIONAL_ANNIHILATION"@.len() != "BICONDITIONAL_SUBSTITUTION"@.len());
    assert(find_by_name(spec_all_rules(), "BICONDITIONAL_SUBSTITUTION"@, 38) == find_by_name(spec_all_rules(), "BICONDITIONAL_SUBSTITUTION"@, 39));
    reveal_strlit("IMPLICATION");
    assert("IMPLICATION"@.len() != "BICONDITIONAL_SUBSTITUTION"@.len());
    assert(find_by_name(spec_all_rules(), "BICONDITIONAL_SUBSTITUTION"@, 39) == find_by_name(spec_all_rules(), "BICONDITIONAL_SUBSTITUTION"@, 40));
    reveal_strlit("BI_IMPLICATION");
    assert("BI_IMPLICATION"@.len() != "BICONDITIONAL_SUBSTITUTION"@.len());
    assert(find_by_name(spec_all_rules(), "BICONDITIONAL_SUBSTITUTION"@, 40) == find_by_name(spec_all_rules(), "BICONDITIONAL_SUBSTITUTION"@, 41));
    reveal_strlit("CONTRAPOSITION");
    assert("CONTRAPOSITION"@.len() != "BICONDITIONAL_SUBSTITUTION"@.len());
    assert(find_by_name(spec_all_rules(), "BICONDITIONAL_SUBSTITUTION"@, 41) == find_by_name(spec_all_rules(), "BICONDITIONAL_SUBSTITUTION"@, 42));
    reveal_strlit("CURRYING");
    assert("CURRYING"@.len() != "BICONDITIONAL_SUBSTITUTION"@.len());
    assert(find_by_name(spec_all_rules(), "BICONDITIONAL_SUBSTITUTION"@, 42) == find_by_name(spec_all_rules(), "BICONDITIONAL_SUBSTITUTION"@, 43));
    reveal_strlit("CONDITIONAL_DISTRIBUTION");
    assert("CONDITIONAL_DISTRIBUTION"@.len() != "BICONDITIONAL_SUBSTITUTION"@.len());
    assert(find_by_name(spec_all_rules(), "BICONDITIONAL_SUBSTITUTION"@, 43) == find_by_name(spec_all_rules(), "BICONDITIONAL_SUBSTITUTION"@, 44));
    reveal_strlit("CONDITIONAL_REDUCTION");
    assert("CONDITIONAL_REDUCTION"@.len() != "BICONDITIONAL_SUBSTITUTION"@.len());
    assert(find_by_name(spec_all_rules(), "BICONDITIONAL_SUBSTITUTION"@, 44) == find_by_name(spec_all_rules(), "BICONDITIONAL_SUBSTITUTION"@, 45));
    reveal_strlit("KNIGHTS_AND_KNAVES");
    assert("KNIGHTS_AND_KNAVES"@.len() != "BICONDITIONAL_SUBSTITUTION"@.len());
    assert(find_by_name(spec_all_rules(), "BICONDITIONAL_SUBSTITUTION"@, 45) == find_by_name(spec_all_rules(), "BICONDITIONAL_SUBSTITUTION"@, 46));
    reveal_strlit("CONDITIONAL_IDEMPOTENCE");
    assert("CONDITIONAL_IDEMPOTENCE"@.len() != "BICONDITIONAL_SUBSTITUTION"@.len());
    assert(find_by_name(spec_all_rules(), "BICONDITIONAL_SUBSTITUTION"@, 46) == find_by_name(spec_all_rules(), "BICONDITIONAL_SUBSTITUTION"@, 47));
    reveal_strlit("BICONDITIONAL_NEGATION");
    assert("BICONDITIONAL_NEGATION"@.len() != "BICONDITIONAL_SUBSTITUTION"@.len());
    assert(find_by_name(spec_all_rules(), "BICONDITIONAL_SUBSTITUTION"@, 47) == find_by_name(spec_all_rules(), "BICONDITIONAL_SUBSTITUTION"@, 48));
    assert(find_by_name(spec_all_rules(), "BICONDITIONAL_SUBSTITUTION"@, 48) == Some(Rule::Conditional(ConditionalEquivalence::BiconditionalSubstitution)));
}

proof fn lemma_finds_asymmetric_tautology()
    ensures
        find_by_name(spec_all_rules(), "ASYMMETRIC_TAUTOLOGY"@, 0) == Some(Rule::Automation(AutomationRelatedRules::AsymmetricTautology)),
{
    reveal_strlit("ASYMMETRIC_TAUTOLOGY");
    reveal_strlit("REITERATION");
    assert("REITERATION"@.len() != "ASYMMETRIC_TAUTOLOGY"@.len());
    assert(find_by_name(spec_all_rules(), "ASYMMETRIC_TAUTOLOGY"@, 0) == find_by_name(spec_all_rules(), "ASYMMETRIC_TAUTOLOGY"@, 1));
    reveal_strlit("CONJUNCTION");
    assert("CONJUNCTION"@.len() != "ASYMMETRIC_TAUTOLOGY"@.len());
    assert(find_by_name(spec_all_rules(), "ASYMMETRIC_TAUTOLOGY"@, 1) == find_by_name(spec_all_rules(), "ASYMMETRIC_TAUTOLOGY"@, 2));
    reveal_strlit("SIMPLIFICATION");
    assert("SIMPLIFICATION"@.len() != "ASYMMETRIC_TAUTOLOGY"@.len());
    assert(find_by_name(spec_all_rules(), "ASYMMETRIC_TAUTOLOGY"@, 2) == find_by_name(spec_all_rules(), "ASYMMETRIC_TAUTOLOGY"@, 3));
    reveal_strlit("ADDITION");
    assert("ADDITION"@.len() != "ASYMMETRIC_TAUTOLOGY"@.len());
    assert(find_by_name(spec_all_rules(), "ASYMMETRIC_TAUTOLOGY"@, 3) == find_by_name(spec_all_rules(), "ASYMMETRIC_TAUTOLOGY"@, 4));
    reveal_strlit("DISJUNCTIVE_SYLLOGISM");
    assert("DISJUNCTIVE_SYLLOGISM"@.len() != "ASYMMETRIC_TAUTOLOGY"@.len());
    assert(find_by_name(spec_all_rules(), "ASYMMETRIC_TAUTOLOGY"@, 4) == find_by_name(spec_all_rules(), "ASYMMETRIC_TAUTOLOGY"@, 5));
    reveal_strlit("CONDITIONAL_PROOF");
    assert("CONDITIONAL_PROOF"@.len() != "ASYMMETRIC_TAUTOLOGY"@.len());
    assert(find_by_name(spec_all_rules(), "ASYMMETRIC_TAUTOLOGY"@, 5) == find_by_name(spec_all_rules(), "ASYMMETRIC_TAUTOLOGY"@, 6));
    reveal_strlit("MODUS_PONENS");
    assert("MODUS_PONENS"@.len() != "ASYMMETRIC_TAUTOLOGY"@.len());
    assert(find_by_name(spec_all_rules(), "ASYMMETRIC_TAUTOLOGY"@, 6) == find_by_name(spec_all_rules(), "ASYMMETRIC_TAUTOLOGY"@, 7));
    reveal_strlit("PROOF_BY_CONTRADICTION");
    assert("PROOF_BY_CONTRADICTION"@.len() != "ASYMMETRIC_TAUTOLOGY"@.len());
    assert(find_by_name(spec_all_rules(), "ASYMMETRIC_TAUTOLOGY"@, 7) == find_by_name(spec_all_rules(), "ASYMMETRIC_TAUTOLOGY"@, 8));
    reveal_strlit("DOUBLENEGATION");
    assert("DOUBLENEGATION"@.len() != "ASYMMETRIC_TAUTOLOGY"@.len());
    assert(find_by_name(spec_all_rules(), "ASYMMETRIC_TAUTOLOGY"@, 8) == find_by_name(spec_all_rules(), "ASYMMETRIC_TAUTOLOGY"@, 9));
    reveal_strlit("CONTRADICTION");
    assert("CONTRADICTION"@.len() != "ASYMMETRIC_TAUTOLOGY"@.len());
    assert(find_by_name(spec_all_rules(), "ASYMMETRIC_TAUTOLOGY"@, 9) == find_by_name(spec_all_rules(), "ASYMMETRIC_TAUTOLOGY"@, 10));
    reveal_strlit("PRINCIPLE_OF_EXPLOSION");
    assert("PRINCIPLE_OF_EXPLOSION"@.len() != "ASYMMETRIC_TAUTOLOGY"@.len());
    assert(find_by_name(spec_all_rules(), "ASYMMETRIC_TAUTOLOGY"@, 10) == find_by_name(spec_all_rules(), "ASYMMETRIC_TAUTOLOGY"@, 11));
    reveal_strlit("BICONDITIONAL_INTRO");
    assert("BICONDITIONAL_INTRO"@.len() != "ASYMMETRIC_TAUTOLOGY"@.len());
    assert(find_by_name(spec_all_rules(), "ASYMMETRIC_TAUTOLOGY"@, 11) == find_by_name(spec_all_rules(), "ASYMMETRIC_TAUTOLOGY"@, 12));
    reveal_strlit("BICONDITIONAL_ELIM");
    assert("BICONDITIONAL_ELIM"@.len() != "ASYMMETRIC_TAUTOLOGY"@.len());
    assert(find_by_name(spec_all_rules(), "ASYMMETRIC_TAUTOLOGY"@, 12) == find_by_name(spec_all_rules(), "ASYMMETRIC_TAUTOLOGY"@, 13));
    reveal_strlit("EQUIVALENCE_INTRO");
    assert("EQUIVALENCE_INTRO"@.len() != "ASYMMETRIC_TAUTOLOGY"@.len());
    assert(find_by_name(spec_all_rules(), "ASYMMETRIC_TAUTOLOGY"@, 13) == find_by_name(spec_all_rules(), "ASYMMETRIC_TAUTOLOGY"@, 14));
    reveal_strlit("EQUIVALENCE_ELIM");
    assert("EQUIVALENCE_ELIM"@.len() != "ASYMMETRIC_TAUTOLOGY"@.len());
    assert(find_by_name(spec_all_rules(), "ASYMMETRIC_TAUTOLOGY"@, 14) == find_by_name(spec_all_rules(), "ASYMMETRIC_TAUTOLOGY"@, 15));
    reveal_strlit("UNIVERSAL_GENERALIZATION");
    assert("UNIVERSAL_GENERALIZATION"@.len() != "ASYMMETRIC_TAUTOLOGY"@.len());
    assert(find_by_name(spec_all_rules(), "ASYMMETRIC_TAUTOLOGY"@, 15) == find_by_name(spec_all_rules(), "ASYMMETRIC_TAUTOLOGY"@, 16));
    reveal_strlit("UNIVERSAL_INSTANTIATION");
    assert("UNIVERSAL_INSTANTIATION"@.len() != "ASYMMETRIC_TAUTOLOGY"@.len());
    assert(find_by_name(spec_all_rules(), "ASYMMETRIC_TAUTOLOGY"@, 16) == find_by_name(spec_all_rules(), "ASYMMETRIC_TAUTOLOGY"@, 17));
    reveal_strlit("EXISTENTIAL_GENERALIZATION");
    assert("EXISTENTIAL_GENERALIZATION"@.len() != "ASYMMETRIC_TAUTOLOGY"@.len());
    assert(find_by_name(spec_all_rules(), "ASYMMETRIC_TAUTOLOGY"@, 17) == find_by_name(spec_all_rules(), "ASYMMETRIC_TAUTOLOGY"@, 18));
    reveal_strlit("EXISTENTIAL_INSTANTIATION");
    assert("EXISTENTIAL_INSTANTIATION"@.len() != "ASYMMETRIC_TAUTOLOGY"@.len());
    assert(find_by_name(spec_all_rules(), "ASYMMETRIC_TAUTOLOGY"@, 18) == find_by_name(spec_all_rules(), "ASYMMETRIC_TAUTOLOGY"@, 19));
    reveal_strlit("MODUS_TOLLENS");
    assert("MODUS_TOLLENS"@.len() != "ASYMMETRIC_TAUTOLOGY"@.len());
    assert(find_by_name(spec_all_rules(), "ASYMMETRIC_TAUTOLOGY"@, 19) == find_by_name(spec_all_rules(), "ASYMMETRIC_TAUTOLOGY"@, 20));
    reveal_strlit("HYPOTHETICAL_SYLLOGISM");
    assert("HYPOTHETICAL_SYLLOGISM"@.len() != "ASYMMETRIC_TAUTOLOGY"@.len());
    assert(find_by_name(spec_all_rules(), "ASYMMETRIC_TAUTOLOGY"@, 20) == find_by_name(spec_all_rules(), "ASYMMETRIC_TAUTOLOGY"@, 21));
    reveal_strlit("EXCLUDED_MIDDLE");
    assert("EXCLUDED_MIDDLE"@.len() != "ASYMMETRIC_TAUTOLOGY"@.len());
    assert(find_by_name(spec_all_rules(), "ASYMMETRIC_TAUTOLOGY"@, 21) == find_by_name(spec_all_rules(), "ASYMMETRIC_TAUTOLOGY"@, 22));
    reveal_strlit("CONSTRUCTIVE_DILEMMA");
    assert("CONSTRUCTIVE_DILEMMA"@[0] != "ASYMMETRIC_TAUTOLOGY"@[0]);
    assert(find_by_name(spec_all_rules(), "ASYMMETRIC_TAUTOLOGY"@, 22) == find_by_name(spec_all_rules(), "ASYMMETRIC_TAUTOLOGY"@, 23));
    reveal_strlit("ASSOCIATION");
    assert("ASSOCIATION"@.len() != "ASYMMETRIC_TAUTOLOGY"@.len());
    assert(find_by_name(spec_all_rules(), "ASYMMETRIC_TAUTOLOGY"@, 23) == find_by_name(spec_all_rules(), "ASYMMETRIC_TAUTOLOGY"@, 24));
    reveal_strlit("COMMUTATION");
    assert("COMMUTATION"@.len() != "ASYMMETRIC_TAUTOLOGY"@.len());
    assert(find_by_name(spec_all_rules(), "ASYMMETRIC_TAUTOLOGY"@, 24) == find_by_name(spec_all_rules(), "ASYMMETRIC_TAUTOLOGY"@, 25));
    reveal_strlit("IDEMPOTENCE");
    assert("IDEMPOTENCE"@.len() != "ASYMMETRIC_TAUTOLOGY"@.len());
    assert(find_by_name(spec_all_rules(), "ASYMMETRIC_TAUTOLOGY"@, 25) == find_by_name(spec_all_rules(), "ASYMMETRIC_TAUTOLOGY"@, 26));
    reveal_strlit("DE_MORGAN");
    assert("DE_MORGAN"@.len() != "ASYMMETRIC_TAUTOLOGY"@.len());
    assert(find_by_name(spec_all_rules(), "ASYMMETRIC_TAUTOLOGY"@, 26) == find_by_name(spec_all_rules(), "ASYMMETRIC_TAUTOLOGY"@, 27));
    reveal_strlit("DISTRIBUTION");
    assert("DISTRIBUTION"@.len() != "ASYMMETRIC_TAUTOLOGY"@.len());
    assert(find_by_name(spec_all_rules(), "ASYMMETRIC_TAUTOLOGY"@, 27) == find_by_name(spec_all_rules(), "ASYMMETRIC_TAUTOLOGY"@, 28));
    reveal_strlit("DOUBLENEGATION_EQUIV");
    assert("DOUBLENEGATION_EQUIV"@[0] != "ASYMMETRIC_TAUTOLOGY"@[0]);
    assert(find_by_name(spec_all_rules(), "ASYMMETRIC_TAUTOLOGY"@, 28) == find_by_name(spec_all_rules(), "ASYMMETRIC_TAUTOLOGY"@, 29));
    reveal_strlit("COMPLEMENT");
    assert("COMPLEMENT"@.len() != "ASYMMETRIC_TAUTOLOGY"@.len());
    assert(find_by_name(spec_all_rules(), "ASYMMETRIC_TAUTOLOGY"@, 29) == find_by_name(spec_all_rules(), "ASYMMETRIC_TAUTOLOGY"@, 30));
    reveal_strlit("IDENTITY");
    assert("IDENTITY"@.len() != "ASYMMETRIC_TAUTOLOGY"@.len());
    assert(find_by_name(spec_all_rules(), "ASYMMETRIC_TAUTOLOGY"@, 30) == find_by_name(spec_all_rules(), "ASYMMETRIC_TAUTOLOGY"@, 31));
    reveal_strlit("ANNIHILATION");
    assert("ANNIHILATION"@.len() != "ASYMMETRIC_TAUTOLOGY"@.len());
    assert(find_by_name(spec_all_rules(), "ASYMMETRIC_TAUTOLOGY"@, 31) == find_by_name(spec_all_rules(), "ASYMMETRIC_TAUTOLOGY"@, 32));
    reveal_strlit("INVERSE");
    assert("INVERSE"@.len() != "ASYMMETRIC_TAUTOLOGY"@.len());
    assert(find_by_name(spec_all_rules(), "ASYMMETRIC_TAUTOLOGY"@, 32) == find_by_name(spec_all_rules(), "ASYMMETRIC_TAUTOLOGY"@, 33));
    reveal_strlit("ABSORPTION");
    assert("ABSORPTION"@.len() != "ASYMMETRIC_TAUTOLOGY"@.len());
    assert(find_by_name(spec_all_rules(), "ASYMMETRIC_TAUTOLOGY"@, 33) == find_by_name(spec_all_rules(), "ASYMMETRIC_TAUTOLOGY"@, 34));
    reveal_strlit("REDUCTION");
    assert("REDUCTION"@.len() != "ASYMMETRIC_TAUTOLOGY"@.len());
    assert(find_by_name(spec_all_rules(), "ASYMMETRIC_TAUTOLOGY"@, 34) == find_by_name(spec_all_rules(), "ASYMMETRIC_TAUTOLOGY"@, 35));
    reveal_strlit("ADJACENCY");
    assert("ADJACENCY"@.len() != "ASYMMETRIC_TAUTOLOGY"@.len());
    assert(find_by_name(spec_all_rules(), "ASYMMETRIC_TAUTOLOGY"@, 35) == find_by_name(spec_all_rules(), "ASYMMETRIC_TAUTOLOGY"@, 36));
    reveal_strlit("CONDITIONAL_COMPLEMENT");
    assert("CONDITIONAL_COMPLEMENT"@.len() != "ASYMMETRIC_TAUTOLOGY"@.len());
    assert(find_by_name(spec_all_rules(), "ASYMMETRIC_TAUTOLOGY"@, 36) == find_by_name(spec_all_rules(), "ASYMMETRIC_TAUTOLOGY"@, 37));
    reveal_strlit("CONDITIONAL_IDENTITY");
    assert("CONDITIONAL_IDENTITY"@[0] != "ASYMMETRIC_TAUTOLOGY"@[0]);
    assert(find_by_name(spec_all_rules(), "ASYMMETRIC_TAUTOLOGY"@, 37) == find_by_name(spec_all_rules(), "ASYMMETRIC_TAUTOLOGY"@, 38));
    reveal_strlit("CONDITIONAL_ANNIHILATION");
    assert("CONDITIONAL_ANNIHILATION"@.len() != "ASYMMETRIC_TAUTOLOGY"@.len());
    assert(find_by_name(spec_all_rules(), "ASYMMETRIC_TAUTOLOGY"@, 38) == find_by_name(spec_all_rules(), "ASYMMETRIC_TAUTOLOGY"@, 39));
    reveal_strlit("IMPLICATION");
    assert("IMPLICATION"@.len() != "ASYMMETRIC_TAUTOLOGY"@.len());
    assert(find_by_name(spec_all_rules(), "ASYMMETRIC_TAUTOLOGY"@, 39) == find_by_name(spec_all_rules(), "ASYMMETRIC_TAUTOLOGY"@, 40));
    reveal_strlit("BI_IMPLICATION");
    assert("BI_IMPLICATION"@.len() != "ASYMMETRIC_TAUTOLOGY"@.len());
    assert(find_by_name(spec_all_rules(), "ASYMMETRIC_TAUTOLOGY"@, 40) == find_by_name(spec_all_rules(), "ASYMMETRIC_TAUTOLOGY"@, 41));
    reveal_strlit("CONTRAPOSITION");
    assert("CONTRAPOSITION"@.len() != "ASYMMETRIC_TAUTOLOGY"@.len());
    assert(find_by_name(spec_all_rules(), "ASYMMETRIC_TAUTOLOGY"@, 41) == find_by_name(spec_all_rules(), "ASYMMETRIC_TAUTOLOGY"@, 42));
    reveal_strlit("CURRYING");
    assert("CURRYING"@.len() != "ASYMMETRIC_TAUTOLOGY"@.len());
    assert(find_by_name(spec_all_rules(), "ASYMMETRIC_TAUTOLOGY"@, 42) == find_by_name(spec_all_rules(), "ASYMMETRIC_TAUTOLOGY"@, 43));
    reveal_strlit("CONDITIONAL_DISTRIBUTION");
    assert("CONDITIONAL_DISTRIBUTION"@.len() != "ASYMMETRIC_TAUTOLOGY"@.len());
    assert(find_by_name(spec_all_rules(), "ASYMMETRIC_TAUTOLOGY"@, 43) == find_by_name(spec_all_rules(), "ASYMMETRIC_TAUTOLOGY"@, 44));
    reveal_strlit("CONDITIONAL_REDUCTION");
    assert("CONDITIONAL_REDUCTION"@.len() != "ASYMMETRIC_TAUTOLOGY"@.len());
    assert(find_by_name(spec_all_rules(), "ASYMMETRIC_TAUTOLOGY"@, 44) == find_by_name(spec_all_rules(), "ASYMMETRIC_TAUTOLOGY"@, 45));
    reveal_strlit("KNIGHTS_AND_KNAVES");
    assert("KNIGHTS_AND_KNAVES"@.len() != "ASYMMETRIC_TAUTOLOGY"@.len());
    assert(find_by_name(spec_all_rules(), "ASYMMETRIC_TAUTOLOGY"@, 45) == find_by_name(spec_all_rules(), "ASYMMETRIC_TAUTOLOGY"@, 46));
    reveal_strlit("CONDITIONAL_IDEMPOTENCE");
    assert("CONDITIONAL_IDEMPOTENCE"@.len() != "ASYMMETRIC_TAUTOLOGY"@.len());
    assert(find_by_name(spec_all_rules(), "ASYMMETRIC_TAUTOLOGY"@, 46) == find_by_name(spec_all_rules(), "ASYMMETRIC_TAUTOLOGY"@, 47));
    reveal_strlit("BICONDITIONAL_NEGATION");
    assert("BICONDITIONAL_NEGATION"@.len() != "ASYMMETRIC_TAUTOLOGY"@.len());
    assert(find_by_name(spec_all_rules(), "ASYMMETRIC_TAUTOLOGY"@, 47) == find_by_name(spec_all_rules(), "ASYMMETRIC_TAUTOLOGY"@, 48));
    reveal_strlit("BICONDITIONAL_SUBSTITUTION");
    assert("BICONDITIONAL_SUBSTITUTION"@.len() != "ASYMMETRIC_TAUTOLOGY"@.len());
    assert(find_by_name(spec_all_rules(), "ASYMMETRIC_TAUTOLOGY"@, 48) == find_by_name(spec_all_rules(), "ASYMMETRIC_TAUTOLOGY"@, 49));
    assert(find_by_name(spec_all_rules(), "ASYMMETRIC_TAUTOLOGY"@, 49) == Some(Rule::Automation(AutomationRelatedRules::AsymmetricTautology)));
}

proof fn lemma_finds_resolution()
    ensures
        find_by_name(spec_all_rules(), "RESOLUTION"@, 0) == Some(Rule::Automation(AutomationRelatedRules::Resolution)),
{
    reveal_strlit("RESOLUTION");
    reveal_strlit("REITERATION");
    assert("REITERATION"@.len() != "RESOLUTION"@.len());
    assert(find_by_name(spec_all_rules(), "RESOLUTION"@, 0) == find_by_name(spec_all_rules(), "RESOLUTION"@, 1));
    reveal_strlit("CONJUNCTION");
    assert("CONJUNCTION"@.len() != "RESOLUTION"@.len());
    assert(find_by_name(spec_all_rules(), "RESOLUTION"@, 1) == find_by_name(spec_all_rules(), "RESOLUTION"@, 2));
    reveal_strlit("SIMPLIFICATION");
    assert("SIMPLIFICATION"@.len() != "RESOLUTION"@.len());
    assert(find_by_name(spec_all_rules(), "RESOLUTION"@, 2) == find_by_name(spec_all_rules(), "RESOLUTION"@, 3));
    reveal_strlit("ADDITION");
    assert("ADDITION"@.len() != "RESOLUTION"@.len());
    assert(find_by_name(spec_all_rules(), "RESOLUTION"@, 3) == find_by_name(spec_all_rules(), "RESOLUTION"@, 4));
    reveal_strlit("DISJUNCTIVE_SYLLOGISM");
    assert("DISJUNCTIVE_SYLLOGISM"@.len() != "RESOLUTION"@.len());
    assert(find_by_name(spec_all_rules(), "RESOLUTION"@, 4) == find_by_name(spec_all_rules(), "RESOLUTION"@, 5));
    reveal_strlit("CONDITIONAL_PROOF");
    assert("CONDITIONAL_PROOF"@.len() != "RESOLUTION"@.len());
    assert(find_by_name(spec_all_rules(), "RESOLUTION"@, 5) == find_by_name(spec_all_rules(), "RESOLUTION"@, 6));
    reveal_strlit("MODUS_PONENS");
    assert("MODUS_PONENS"@.len() != "RESOLUTION"@.len());
    assert(find_by_name(spec_all_rules(), "RESOLUTION"@, 6) == find_by_name(spec_all_rules(), "RESOLUTION"@, 7));
    reveal_strlit("PROOF_BY_CONTRADICTION");
    assert("PROOF_BY_CONTRADICTION"@.len() != "RESOLUTION"@.len());
    assert(find_by_name(spec_all_rules(), "RESOLUTION"@, 7) == find_by_name(spec_all_rules(), "RESOLUTION"@, 8));
    reveal_strlit("DOUBLENEGATION");
    assert("DOUBLENEGATION"@.len() != "RESOLUTION"@.len());
    assert(find_by_name(spec_all_rules(), "RESOLUTION"@, 8) == find_by_name(spec_all_rules(), "RESOLUTION"@, 9));
    reveal_strlit("CONTRADICTION");
    assert("CONTRADICTION"@.len() != "RESOLUTION"@.len());
    assert(find_by_name(spec_all_rules(), "RESOLUTION"@, 9) == find_by_name(spec_all_rules(), "RESOLUTION"@, 10));
    reveal_strlit("PRINCIPLE_OF_EXPLOSION");
    assert("PRINCIPLE_OF_EXPLOSION"@.len() != "RESOLUTION"@.len());
    assert(find_by_name(spec_all_rules(), "RESOLUTION"@, 10) == find_by_name(spec_all_rules(), "RESOLUTION"@, 11));
    reveal_strlit("BICONDITIONAL_INTRO");
    assert("BICONDITIONAL_INTRO"@.len() != "RESOLUTION"@.len());
    assert(find_by_name(spec_all_rules(), "RESOLUTION"@, 11) == find_by_name(spec_all_rules(), "RESOLUTION"@, 12));
    reveal_strlit("BICONDITIONAL_ELIM");
    assert("BICONDITIONAL_ELIM"@.len() != "RESOLUTION"@.len());
    assert(find_by_name(spec_all_rules(), "RESOLUTION"@, 12) == find_by_name(spec_all_rules(), "RESOLUTION"@, 13));
    reveal_strlit("EQUIVALENCE_INTRO");
    assert("EQUIVALENCE_INTRO"@.len() != "RESOLUTION"@.len());
    assert(find_by_name(spec_all_rules(), "RESOLUTION"@, 13) == find_by_name(spec_all_rules(), "RESOLUTION"@, 14));
    reveal_strlit("EQUIVALENCE_ELIM");
    assert("EQUIVALENCE_ELIM"@.len() != "RESOLUTION"@.len());
    assert(find_by_name(spec_all_rules(), "RESOLUTION"@, 14) == find_by_name(spec_all_rules(), "RESOLUTION"@, 15));
    reveal_strlit("UNIVERSAL_GENERALIZATION");
    assert("UNIVERSAL_GENERALIZATION"@.len() != "RESOLUTION"@.len());
    assert(find_by_name(spec_all_rules(), "RESOLUTION"@, 15) == find_by_name(spec_all_rules(), "RESOLUTION"@, 16));
    reveal_strlit("UNIVERSAL_INSTANTIATION");
    assert("UNIVERSAL_INSTANTIATION"@.len() != "RESOLUTION"@.len());
    assert(find_by_name(spec_all_rules(), "RESOLUTION"@, 16) == find_by_name(spec_all_rules(), "RESOLUTION"@, 17));
    reveal_strlit("EXISTENTIAL_GENERALIZATION");
    assert("EXISTENTIAL_GENERALIZATION"@.len() != "RESOLUTION"@.len());
    assert(find_by_name(spec_all_rules(), "RESOLUTION"@, 17) == find_by_name(spec_all_rules(), "RESOLUTION"@, 18));
    reveal_strlit("EXISTENTIAL_INSTANTIATION");
    assert("EXISTENTIAL_INSTANTIATION"@.len() != "RESOLUTION"@.len());
    assert(find_by_name(spec_all_rules(), "RESOLUTION"@, 18) == find_by_name(spec_all_rules(), "RESOLUTION"@, 19));
    reveal_strlit("MODUS_TOLLENS");
    assert("MODUS_TOLLENS"@.len() != "RESOLUTION"@.len());
    assert(find_by_name(spec_all_rules(), "RESOLUTION"@, 19) == find_by_name(spec_all_rules(), "RESOLUTION"@, 20));
    reveal_strlit("HYPOTHETICAL_SYLLOGISM");
    assert("HYPOTHETICAL_SYLLOGISM"@.len() != "RESOLUTION"@.len());
    assert(find_by_name(spec_all_rules(), "RESOLUTION"@, 20) == find_by_name(spec_all_rules(), "RESOLUTION"@, 21));
    reveal_strlit("EXCLUDED_MIDDLE");
    assert("EXCLUDED_MIDDLE"@.len() != "RESOLUTION"@.len());
    assert(find_by_name(spec_all_rules(), "RESOLUTION"@, 21) == find_by_name(spec_all_rules(), "RESOLUTION"@, 22));
    reveal_strlit("CONSTRUCTIVE_DILEMMA");
    assert("CONSTRUCTIVE_DILEMMA"@.len() != "RESOLUTION"@.len());
    assert(find_by_name(spec_all_rules(), "RESOLUTION"@, 22) == find_by_name(spec_all_rules(), "RESOLUTION"@, 23));
    reveal_strlit("ASSOCIATION");
    assert("ASSOCIATION"@.len() != "RESOLUTION"@.len());
    assert(find_by_name(spec_all_rules(), "RESOLUTION"@, 23) == find_by_name(spec_all_rules(), "RESOLUTION"@, 24));
    reveal_strlit("COMMUTATION");
    assert("COMMUTATION"@.len() != "RESOLUTION"@.len());
    assert(find_by_name(spec_all_rules(), "RESOLUTION"@, 24) == find_by_name(spec_all_rules(), "RESOLUTION"@, 25));
    reveal_strlit("IDEMPOTENCE");
    assert("IDEMPOTENCE"@.len() != "RESOLUTION"@.len());
    assert(find_by_name(spec_all_rules(), "RESOLUTION"@, 25) == find_by_name(spec_all_rules(), "RESOLUTION"@, 26));
    reveal_strlit("DE_MORGAN");
    assert("DE_MORGAN"@.len() != "RESOLUTION"@.len());
    assert(find_by_name(spec_all_rules(), "RESOLUTION"@, 26) == find_by_name(spec_all_rules(), "RESOLUTION"@, 27));
    reveal_strlit("DISTRIBUTION");
    assert("DISTRIBUTION"@.len() != "RESOLUTION"@.len());
    assert(find_by_name(spec_all_rules(), "RESOLUTION"@, 27) == find_by_name(spec_all_rules(), "RESOLUTION"@, 28));
    reveal_strlit("DOUBLENEGATION_EQUIV");
    assert("DOUBLENEGATION_EQUIV"@.len() != "RESOLUTION"@.len());
    assert(find_by_name(spec_all_rules(), "RESOLUTION"@, 28) == find_by_name(spec_all_rules(), "RESOLUTION"@, 29));
    reveal_strlit("COMPLEMENT");
    assert("COMPLEMENT"@[0] != "RESOLUTION"@[0]);
    assert(find_by_name(spec_all_rules(), "RESOLUTION"@, 29) == find_by_name(spec_all_rules(), "RESOLUTION"@, 30));
    reveal_strlit("IDENTITY");
    assert("IDENTITY"@.len() != "RESOLUTION"@.len());
    assert(find_by_name(spec_all_rules(), "RESOLUTION"@, 30) == find_by_name(spec_all_rules(), "RESOLUTION"@, 31));
    reveal_strlit("ANNIHILATION");
    assert("ANNIHILATION"@.len() != "RESOLUTION"@.len());
    assert(find_by_name(spec_all_rules(), "RESOLUTION"@, 31) == find_by_name(spec_all_rules(), "RESOLUTION"@, 32));
    reveal_strlit("INVERSE");
    assert("INVERSE"@.len() != "RESOLUTION"@.len());
    assert(find_by_name(spec_all_rules(), "RESOLUTION"@, 32) == find_by_name(spec_all_rules(), "RESOLUTION"@, 33));
    reveal_strlit("ABSORPTION");
    assert("ABSORPTION"@[0] != "RESOLUTION"@[0]);
    assert(find_by_name(spec_all_rules(), "RESOLUTION"@, 33) == find_by_name(spec_all_rules(), "RESOLUTION"@, 34));
    reveal_strlit("REDUCTION");
    assert("REDUCTION"@.len() != "RESOLUTION"@.len());
    assert(find_by_name(spec_all_rules(), "RESOLUTION"@, 34) == find_by_name(spec_all_rules(), "RESOLUTION"@, 35));
    reveal_strlit("ADJACENCY");
    assert("ADJACENCY"@.len() != "RESOLUTION"@.len());
    assert(find_by_name(spec_all_rules(), "RESOLUTION"@, 35) == find_by_name(spec_all_rules(), "RESOLUTION"@, 36));
    reveal_strlit("CONDITIONAL_COMPLEMENT");
    assert("CONDITIONAL_COMPLEMENT"@.len() != "RESOLUTION"@.len());
    assert(find_by_name(spec_all_rules(), "RESOLUTION"@, 36) == find_by_name(spec_all_rules(), "RESOLUTION"@, 37));
    reveal_strlit("CONDITIONAL_IDENTITY");
    assert("CONDITIONAL_IDENTITY"@.len() != "RESOLUTION"@.len());
    assert(find_by_name(spec_all_rules(), "RESOLUTION"@, 37) == find_by_name(spec_all_rules(), "RESOLUTION"@, 38));
    reveal_strlit("CONDITIONAL_ANNIHILATION");
    assert("CONDITIONAL_ANNIHILATION"@.len() != "RESOLUTION"@.len());
    assert(find_by_name(spec_all_rules(), "RESOLUTION"@, 38) == find_by_name(spec_all_rules(), "RESOLUTION"@, 39));
    reveal_strlit("IMPLICATION");
    assert("IMPLICATION"@.len() != "RESOLUTION"@.len());
    assert(find_by_name(spec_all_rules(), "RESOLUTION"@, 39) == find_by_name(spec_all_rules(), "RESOLUTION"@, 40));
    reveal_strlit("BI_IMPLICATION");
    assert("BI_IMPLICATION"@.len() != "RESOLUTION"@.len());
    assert(find_by_name(spec_all_rules(), "RESOLUTION"@, 40) == find_by_name(spec_all_rules(), "RESOLUTION"@, 41));
    reveal_strlit("CONTRAPOSITION");
    assert("CONTRAPOSITION"@.len() != "RESOLUTION"@.len());
    assert(find_by_name(spec_all_rules(), "RESOLUTION"@, 41) == find_by_name(spec_all_rules(), "RESOLUTION"@, 42));
    reveal_strlit("CURRYING");
    assert("CURRYING"@.len() != "RESOLUTION"@.len());
    assert(find_by_name(spec_all_rules(), "RESOLUTION"@, 42) == find_by_name(spec_all_rules(), "RESOLUTION"@, 43));
    reveal_strlit("CONDITIONAL_DISTRIBUTION");
    assert("CONDITIONAL_DISTRIBUTION"@.len() != "RESOLUTION"@.len());
    assert(find_by_name(spec_all_rules(), "RESOLUTION"@, 43) == find_by_name(spec_all_rules(), "RESOLUTION"@, 44));
    reveal_strlit("CONDITIONAL_REDUCTION");
    assert("CONDITIONAL_REDUCTION"@.len() != "RESOLUTION"@.len());
    assert(find_by_name(spec_all_rules(), "RESOLUTION"@, 44) == find_by_name(spec_all_rules(), "RESOLUTION"@, 45));
    reveal_strlit("KNIGHTS_AND_KNAVES");
    assert("KNIGHTS_AND_KNAVES"@.len() != "RESOLUTION"@.len());
    assert(find_by_name(spec_all_rules(), "RESOLUTION"@, 45) == find_by_name(spec_all_rules(), "RESOLUTION"@, 46));
    reveal_strlit("CONDITIONAL_IDEMPOTENCE");
    assert("CONDITIONAL_IDEMPOTENCE"@.len() != "RESOLUTION"@.len());
    assert(find_by_name(spec_all_rules(), "RESOLUTION"@, 46) == find_by_name(spec_all_rules(), "RESOLUTION"@, 47));
    reveal_strlit("BICONDITIONAL_NEGATION");
    assert("BICONDITIONAL_NEGATION"@.len() != "RESOLUTION"@.len());
    assert(find_by_name(spec_all_rules(), "RESOLUTION"@, 47) == find_by_name(spec_all_rules(), "RESOLUTION"@, 48));
    reveal_strlit("BICONDITIONAL_SUBSTITUTION");
    assert("BICONDITIONAL_SUBSTITUTION"@.len() != "RESOLUTION"@.len());
    assert(find_by_name(spec_all_rules(), "RESOLUTION"@, 48) == find_by_name(spec_all_rules(), "RESOLUTION"@, 49));
    reveal_strlit("ASYMMETRIC_TAUTOLOGY");
    assert("ASYMMETRIC_TAUTOLOGY"@.len() != "RESOLUTION"@.len());
    assert(find_by_name(spec_all_rules(), "RESOLUTION"@, 49) == find_by_name(spec_all_rules(), "RESOLUTION"@, 50));
    assert(find_by_name(spec_all_rules(), "RESOLUTION"@, 50) == Some(Rule::Automation(AutomationRelatedRules::Resolution)));
}

proof fn lemma_finds_tautological_consequence()
    ensures
        find_by_name(spec_all_rules(), "TAUTOLOGICAL_CONSEQUENCE"@, 0) == Some(Rule::Automation(AutomationRelatedRules::TautologicalConsequence)),
{
    reveal_strlit("TAUTOLOGICAL_CONSEQUENCE");
    reveal_strlit("REITERATION");
    assert("REITERATION"@.len() != "TAUTOLOGICAL_CONSEQUENCE"@.len());
    assert(find_by_name(spec_all_rules(), "TAUTOLOGICAL_CONSEQUENCE"@, 0) == find_by_name(spec_all_rules(), "TAUTOLOGICAL_CONSEQUENCE"@, 1));
    reveal_strlit("CONJUNCTION");
    assert("CONJUNCTION"@.len() != "TAUTOLOGICAL_CONSEQUENCE"@.len());
    assert(find_by_name(spec_all_rules(), "TAUTOLOGICAL_CONSEQUENCE"@, 1) == find_by_name(spec_all_rules(), "TAUTOLOGICAL_CONSEQUENCE"@, 2));
    reveal_strlit("SIMPLIFICATION");
    assert("SIMPLIFICATION"@.len() != "TAUTOLOGICAL_CONSEQUENCE"@.len());
    assert(find_by_name(spec_all_rules(), "TAUTOLOGICAL_CONSEQUENCE"@, 2) == find_by_name(spec_all_rules(), "TAUTOLOGICAL_CONSEQUENCE"@, 3));
    reveal_strlit("ADDITION");
    assert("ADDITION"@.len() != "TAUTOLOGICAL_CONSEQUENCE"@.len());
    assert(find_by_name(spec_all_rules(), "TAUTOLOGICAL_CONSEQUENCE"@, 3) == find_by_name(spec_all_rules(), "TAUTOLOGICAL_CONSEQUENCE"@, 4));
    reveal_strlit("DISJUNCTIVE_SYLLOGISM");
    assert("DISJUNCTIVE_SYLLOGISM"@.len() != "TAUTOLOGICAL_CONSEQUENCE"@.len());
    assert(find_by_name(spec_all_rules(), "TAUTOLOGICAL_CONSEQUENCE"@, 4) == find_by_name(spec_all_rules(), "TAUTOLOGICAL_CONSEQUENCE"@, 5));
    reveal_strlit("CONDITIONAL_PROOF");
    assert("CONDITIONAL_PROOF"@.len() != "TAUTOLOGICAL_CONSEQUENCE"@.len());
    assert(find_by_name(spec_all_rules(), "TAUTOLOGICAL_CONSEQUENCE"@, 5) == find_by_name(spec_all_rules(), "TAUTOLOGICAL_CONSEQUENCE"@, 6));
    reveal_strlit("MODUS_PONENS");
    assert("MODUS_PONENS"@.len() != "TAUTOLOGICAL_CONSEQUENCE"@.len());
    assert(find_by_name(spec_all_rules(), "TAUTOLOGICAL_CONSEQUENCE"@, 6) == find_by_name(spec_all_rules(), "TAUTOLOGICAL_CONSEQUENCE"@, 7));
    reveal_strlit("PROOF_BY_CONTRADICTION");
    assert("PROOF_BY_CONTRADICTION"@.len() != "TAUTOLOGICAL_CONSEQUENCE"@.len());
    assert(find_by_name(spec_all_rules(), "TAUTOLOGICAL_CONSEQUENCE"@, 7) == find_by_name(spec_all_rules(), "TAUTOLOGICAL_CONSEQUENCE"@, 8));
    reveal_strlit("DOUBLENEGATION");
    assert("DOUBLENEGATION"@.len() != "TAUTOLOGICAL_CONSEQUENCE"@.len());
    assert(find_by_name(spec_all_rules(), "TAUTOLOGICAL_CONSEQUENCE"@, 8) == find_by_name(spec_all_rules(), "TAUTOLOGICAL_CONSEQUENCE"@, 9));
    reveal_strlit("CONTRADICTION");
    assert("CONTRADICTION"@.len() != "TAUTOLOGICAL_CONSEQUENCE"@.len());
    assert(find_by_name(spec_all_rules(), "TAUTOLOGICAL_CONSEQUENCE"@, 9) == find_by_name(spec_all_rules(), "TAUTOLOGICAL_CONSEQUENCE"@, 10));
    reveal_strlit("PRINCIPLE_OF_EXPLOSION");
    assert("PRINCIPLE_OF_EXPLOSION"@.len() != "TAUTOLOGICAL_CONSEQUENCE"@.len());
    assert(find_by_name(spec_all_rules(), "TAUTOLOGICAL_CONSEQUENCE"@, 10) == find_by_name(spec_all_rules(), "TAUTOLOGICAL_CONSEQUENCE"@, 11));
    reveal_strlit("BICONDITIONAL_INTRO");
    assert("BICONDITIONAL_INTRO"@.len() != "TAUTOLOGICAL_CONSEQUENCE"@.len());
    assert(find_by_name(spec_all_rules(), "TAUTOLOGICAL_CONSEQUENCE"@, 11) == find_by_name(spec_all_rules(), "TAUTOLOGICAL_CONSEQUENCE"@, 12));
    reveal_strlit("BICONDITIONAL_ELIM");
    assert("BICONDITIONAL_ELIM"@.len() != "TAUTOLOGICAL_CONSEQUENCE"@.len());
    assert(find_by_name(spec_all_rules(), "TAUTOLOGICAL_CONSEQUENCE"@, 12) == find_by_name(spec_all_rules(), "TAUTOLOGICAL_CONSEQUENCE"@, 13));
    reveal_strlit("EQUIVALENCE_INTRO");
    assert("EQUIVALENCE_INTRO"@.len() != "TAUTOLOGICAL_CONSEQUENCE"@.len());
    assert(find_by_name(spec_all_rules(), "TAUTOLOGICAL_CONSEQUENCE"@, 13) == find_by_name(spec_all_rules(), "TAUTOLOGICAL_CONSEQUENCE"@, 14));
    reveal_strlit("EQUIVALENCE_ELIM");
    assert("EQUIVALENCE_ELIM"@.len() != "TAUTOLOGICAL_CONSEQUENCE"@.len());
    assert(find_by_name(spec_all_rules(), "TAUTOLOGICAL_CONSEQUENCE"@, 14) == find_by_name(spec_all_rules(), "TAUTOLOGICAL_CONSEQUENCE"@, 15));
    reveal_strlit("UNIVERSAL_GENERALIZATION");
    assert("UNIVERSAL_GENERALIZATION"@[0] != "TAUTOLOGICAL_CONSEQUENCE"@[0]);
    assert(find_by_name(spec_all_rules(), "TAUTOLOGICAL_CONSEQUENCE"@, 15) == find_by_name(spec_all_rules(), "TAUTOLOGICAL_CONSEQUENCE"@, 16));
    reveal_strlit("UNIVERSAL_INSTANTIATION");
    assert("UNIVERSAL_INSTANTIATION"@.len() != "TAUTOLOGICAL_CONSEQUENCE"@.len());
    assert(find_by_name(spec_all_rules(), "TAUTOLOGICAL_CONSEQUENCE"@, 16) == find_by_name(spec_all_rules(), "TAUTOLOGICAL_CONSEQUENCE"@, 17));
    reveal_strlit("EXISTENTIAL_GENERALIZATION");
    assert("EXISTENTIAL_GENERALIZATION"@.len() != "TAUTOLOGICAL_CONSEQUENCE"@.len());
    assert(find_by_name(spec_all_rules(), "TAUTOLOGICAL_CONSEQUENCE"@, 17) == find_by_name(spec_all_rules(), "TAUTOLOGICAL_CONSEQUENCE"@, 18));
    reveal_strlit("EXISTENTIAL_INSTANTIATION");
    assert("EXISTENTIAL_INSTANTIATION"@.len() != "TAUTOLOGICAL_CONSEQUENCE"@.len());
    assert(find_by_name(spec_all_rules(), "TAUTOLOGICAL_CONSEQUENCE"@, 18) == find_by_name(spec_all_rules(), "TAUTOLOGICAL_CONSEQUENCE"@, 19));
    reveal_strlit("MODUS_TOLLENS");
    assert("MODUS_TOLLENS"@.len() != "TAUTOLOGICAL_CONSEQUENCE"@.len());
    assert(find_by_name(spec_all_rules(), "TAUTOLOGICAL_CONSEQUENCE"@, 19) == find_by_name(spec_all_rules(), "TAUTOLOGICAL_CONSEQUENCE"@, 20));
    reveal_strlit("HYPOTHETICAL_SYLLOGISM");
    assert("HYPOTHETICAL_SYLLOGISM"@.len() != "TAUTOLOGICAL_CONSEQUENCE"@.len());
    assert(find_by_name(spec_all_rules(), "TAUTOLOGICAL_CONSEQUENCE"@, 20) == find_by_name(spec_all_rules(), "TAUTOLOGICAL_CONSEQUENCE"@, 21));
    reveal_strlit("EXCLUDED_MIDDLE");
    assert("EXCLUDED_MIDDLE"@.len() != "TAUTOLOGICAL_CONSEQUENCE"@.len());
    assert(find_by_name(spec_all_rules(), "TAUTOLOGICAL_CONSEQUENCE"@, 21) == find_by_name(spec_all_rules(), "TAUTOLOGICAL_CONSEQUENCE"@, 22));
    reveal_strlit("CONSTRUCTIVE_DILEMMA");
    assert("CONSTRUCTIVE_DILEMMA"@.len() != "TAUTOLOGICAL_CONSEQUENCE"@.len());
    assert(find_by_name(spec_all_rules(), "TAUTOLOGICAL_CONSEQUENCE"@, 22) == find_by_name(spec_all_rules(), "TAUTOLOGICAL_CONSEQUENCE"@, 23));
    reveal_strlit("ASSOCIATION");
    assert("ASSOCIATION"@.len() != "TAUTOLOGICAL_CONSEQUENCE"@.len());
    assert(find_by_name(spec_all_rules(), "TAUTOLOGICAL_CONSEQUENCE"@, 23) == find_by_name(spec_all_rules(), "TAUTOLOGICAL_CONSEQUENCE"@, 24));
    reveal_strlit("COMMUTATION");
    assert("COMMUTATION"@.len() != "TAUTOLOGICAL_CONSEQUENCE"@.len());
    assert(find_by_name(spec_all_rules(), "TAUTOLOGICAL_CONSEQUENCE"@, 24) == find_by_name(spec_all_rules(), "TAUTOLOGICAL_CONSEQUENCE"@, 25));
    reveal_strlit("IDEMPOTENCE");
    assert("IDEMPOTENCE"@.len() != "TAUTOLOGICAL_CONSEQUENCE"@.len());
    assert(find_by_name(spec_all_rules(), "TAUTOLOGICAL_CONSEQUENCE"@, 25) == find_by_name(spec_all_rules(), "TAUTOLOGICAL_CONSEQUENCE"@, 26));
    reveal_strlit("DE_MORGAN");
    assert("DE_MORGAN"@.len() != "TAUTOLOGICAL_CONSEQUENCE"@.len());
    assert(find_by_name(spec_all_rules(), "TAUTOLOGICAL_CONSEQUENCE"@, 26) == find_by_name(spec_all_rules(), "TAUTOLOGICAL_CONSEQUENCE"@, 27));
    reveal_strlit("DISTRIBUTION");
    assert("DISTRIBUTION"@.len() != "TAUTOLOGICAL_CONSEQUENCE"@.len());
    assert(find_by_name(spec_all_rules(), "TAUTOLOGICAL_CONSEQUENCE"@, 27) == find_by_name(spec_all_rules(), "TAUTOLOGICAL_CONSEQUENCE"@, 28));
    reveal_strlit("DOUBLENEGATION_EQUIV");
    assert("DOUBLENEGATION_EQUIV"@.len() != "TAUTOLOGICAL_CONSEQUENCE"@.len());
    assert(find_by_name(spec_all_rules(), "TAUTOLOGICAL_CONSEQUENCE"@, 28) == find_by_name(spec_all_rules(), "TAUTOLOGICAL_CONSEQUENCE"@, 29));
    reveal_strlit("COMPLEMENT");
    assert("COMPLEMENT"@.len() != "TAUTOLOGICAL_CONSEQUENCE"@.len());
    assert(find_by_name(spec_all_rules(), "TAUTOLOGICAL_CONSEQUENCE"@, 29) == find_by_name(spec_all_rules(), "TAUTOLOGICAL_CONSEQUENCE"@, 30));
    reveal_strlit("IDENTITY");
    assert("IDENTITY"@.len() != "TAUTOLOGICAL_CONSEQUENCE"@.len());
    assert(find_by_name(spec_all_rules(), "TAUTOLOGICAL_CONSEQUENCE"@, 30) == find_by_name(spec_all_rules(), "TAUTOLOGICAL_CONSEQUENCE"@, 31));
    reveal_strlit("ANNIHILATION");
    assert("ANNIHILATION"@.len() != "TAUTOLOGICAL_CONSEQUENCE"@.len());
    assert(find_by_name(spec_all_rules(), "TAUTOLOGICAL_CONSEQUENCE"@, 31) == find_by_name(spec_all_rules(), "TAUTOLOGICAL_CONSEQUENCE"@, 32));
    reveal_strlit("INVERSE");
    assert("INVERSE"@.len() != "TAUTOLOGICAL_CONSEQUENCE"@.len());
    assert(find_by_name(spec_all_rules(), "TAUTOLOGICAL_CONSEQUENCE"@, 32) == find_by_name(spec_all_rules(), "TAUTOLOGICAL_CONSEQUENCE"@, 33));
    reveal_strlit("ABSORPTION");
    assert("ABSORPTION"@.len() != "TAUTOLOGICAL_CONSEQUENCE"@.len());
    assert(find_by_name(spec_all_rules(), "TAUTOLOGICAL_CONSEQUENCE"@, 33) == find_by_name(spec_all_rules(), "TAUTOLOGICAL_CONSEQUENCE"@, 34));
    reveal_strlit("REDUCTION");
    assert("REDUCTION"@.len() != "TAUTOLOGICAL_CONSEQUENCE"@.len());
    assert(find_by_name(spec_all_rules(), "TAUTOLOGICAL_CONSEQUENCE"@, 34) == find_by_name(spec_all_rules(), "TAUTOLOGICAL_CONSEQUENCE"@, 35));
    reveal_strlit("ADJACENCY");
    assert("ADJACENCY"@.len() != "TAUTOLOGICAL_CONSEQUENCE"@.len());
    assert(find_by_name(spec_all_rules(), "TAUTOLOGICAL_CONSEQUENCE"@, 35) == find_by_name(spec_all_rules(), "TAUTOLOGICAL_CONSEQUENCE"@, 36));
    reveal_strlit("CONDITIONAL_COMPLEMENT");
    assert("CONDITIONAL_COMPLEMENT"@.len() != "TAUTOLOGICAL_CONSEQUENCE"@.len());
    assert(find_by_name(spec_all_rules(), "TAUTOLOGICAL_CONSEQUENCE"@, 36) == find_by_name(spec_all_rules(), "TAUTOLOGICAL_CONSEQUENCE"@, 37));
    reveal_strlit("CONDITIONAL_IDENTITY");
    assert("CONDITIONAL_IDENTITY"@.len() != "TAUTOLOGICAL_CONSEQUENCE"@.len());
    assert(find_by_name(spec_all_rules(), "TAUTOLOGICAL_CONSEQUENCE"@, 37) == find_by_name(spec_all_rules(), "TAUTOLOGICAL_CONSEQUENCE"@, 38));
    reveal_strlit("CONDITIONAL_ANNIHILATION");
    assert("CONDITIONAL_ANNIHILATION"@[0] != "TAUTOLOGICAL_CONSEQUENCE"@[0]);
    assert(find_by_name(spec_all_rules(), "TAUTOLOGICAL_CONSEQUENCE"@, 38) == find_by_name(spec_all_rules(), "TAUTOLOGICAL_CONSEQUENCE"@, 39));
    reveal_strlit("IMPLICATION");
    assert("IMPLICATION"@.len() != "TAUTOLOGICAL_CONSEQUENCE"@.len());
    assert(find_by_name(spec_all_rules(), "TAUTOLOGICAL_CONSEQUENCE"@, 39) == find_by_name(spec_all_rules(), "TAUTOLOGICAL_CONSEQUENCE"@, 40));
    reveal_strlit("BI_IMPLICATION");
    assert("BI_IMPLICATION"@.len() != "TAUTOLOGICAL_CONSEQUENCE"@.len());
    assert(find_by_name(spec_all_rules(), "TAUTOLOGICAL_CONSEQUENCE"@, 40) == find_by_name(spec_all_rules(), "TAUTOLOGICAL_CONSEQUENCE"@, 41));
    reveal_strlit("CONTRAPOSITION");
    assert("CONTRAPOSITION"@.len() != "TAUTOLOGICAL_CONSEQUENCE"@.len());
    assert(find_by_name(spec_all_rules(), "TAUTOLOGICAL_CONSEQUENCE"@, 41) == find_by_name(spec_all_rules(), "TAUTOLOGICAL_CONSEQUENCE"@, 42));
    reveal_strlit("CURRYING");
    assert("CURRYING"@.len() != "TAUTOLOGICAL_CONSEQUENCE"@.len());
    assert(find_by_name(spec_all_rules(), "TAUTOLOGICAL_CONSEQUENCE"@, 42) == find_by_name(spec_all_rules(), "TAUTOLOGICAL_CONSEQUENCE"@, 43));
    reveal_strlit("CONDITIONAL_DISTRIBUTION");
    assert("CONDITIONAL_DISTRIBUTION"@[0] != "TAUTOLOGICAL_CONSEQUENCE"@[0]);
    assert(find_by_name(spec_all_rules(), "TAUTOLOGICAL_CONSEQUENCE"@, 43) == find_by_name(spec_all_rules(), "TAUTOLOGICAL_CONSEQUENCE"@, 44));
    reveal_strlit("CONDITIONAL_REDUCTION");
    assert("CONDITIONAL_REDUCTION"@.len() != "TAUTOLOGICAL_CONSEQUENCE"@.len());
    assert(find_by_name(spec_all_rules(), "TAUTOLOGICAL_CONSEQUENCE"@, 44) == find_by_name(spec_all_rules(), "TAUTOLOGICAL_CONSEQUENCE"@, 45));
    reveal_strlit("KNIGHTS_AND_KNAVES");
    assert("KNIGHTS_AND_KNAVES"@.len() != "TAUTOLOGICAL_CONSEQUENCE"@.len());
    assert(find_by_name(spec_all_rules(), "TAUTOLOGICAL_CONSEQUENCE"@, 45) == find_by_name(spec_all_rules(), "TAUTOLOGICAL_CONSEQUENCE"@, 46));
    reveal_strlit("CONDITIONAL_IDEMPOTENCE");
    assert("CONDITIONAL_IDEMPOTENCE"@.len() != "TAUTOLOGICAL_CONSEQUENCE"@.len());
    assert(find_by_name(spec_all_rules(), "TAUTOLOGICAL_CONSEQUENCE"@, 46) == find_by_name(spec_all_rules(), "TAUTOLOGICAL_CONSEQUENCE"@, 47));
    reveal_strlit("BICONDITIONAL_NEGATION");
    assert("BICONDITIONAL_NEGATION"@.len() != "TAUTOLOGICAL_CONSEQUENCE"@.len());
    assert(find_by_name(spec_all_rules(), "TAUTOLOGICAL_CONSEQUENCE"@, 47) == find_by_name(spec_all_rules(), "TAUTOLOGICAL_CONSEQUENCE"@, 48));
    reveal_strlit("BICONDITIONAL_SUBSTITUTION");
    assert("BICONDITIONAL_SUBSTITUTION"@.len() != "TAUTOLOGICAL_CONSEQUENCE"@.len());
    assert(find_by_name(spec_all_rules(), "TAUTOLOGICAL_CONSEQUENCE"@, 48) == find_by_name(spec_all_rules(), "TAUTOLOGICAL_CONSEQUENCE"@, 49));
    reveal_strlit("ASYMMETRIC_TAUTOLOGY");
    assert("ASYMMETRIC_TAUTOLOGY"@.len() != "TAUTOLOGICAL_CONSEQUENCE"@.len());
    assert(find_by_name(spec_all_rules(), "TAUTOLOGICAL_CONSEQUENCE"@, 49) == find_by_name(spec_all_rules(), "TAUTOLOGICAL_CONSEQUENCE"@, 50));
    reveal_strlit("RESOLUTION");
    assert("RESOLUTION"@.len() != "TAUTOLOGICAL_CONSEQUENCE"@.len());
    assert(find_by_name(spec_all_rules(), "TAUTOLOGICAL_CONSEQUENCE"@, 50) == find_by_name(spec_all_rules(), "TAUTOLOGICAL_CONSEQUENCE"@, 51));
    assert(find_by_name(spec_all_rules(), "TAUTOLOGICAL_CONSEQUENCE"@, 51) == Some(Rule::Automation(AutomationRelatedRules::TautologicalConsequence)));
}

proof fn lemma_finds_quantifier_negation()
    ensures
        find_by_name(spec_all_rules(), "QUANTIFIER_NEGATION"@, 0) == Some(Rule::Quantifier(QuantifierEquivalence::QuantifierNegation)),
{
    reveal_strlit("QUANTIFIER_NEGATION");
    reveal_strlit("REITERATION");
    assert("REITERATION"@.len() != "QUANTIFIER_NEGATION"@.len());
    assert(find_by_name(spec_all_rules(), "QUANTIFIER_NEGATION"@, 0) == find_by_name(spec_all_rules(), "QUANTIFIER_NEGATION"@, 1));
    reveal_strlit("CONJUNCTION");
    assert("CONJUNCTION"@.len() != "QUANTIFIER_NEGATION"@.len());
    assert(find_by_name(spec_all_rules(), "QUANTIFIER_NEGATION"@, 1) == find_by_name(spec_all_rules(), "QUANTIFIER_NEGATION"@, 2));
    reveal_strlit("SIMPLIFICATION");
    assert("SIMPLIFICATION"@.len() != "QUANTIFIER_NEGATION"@.len());
    assert(find_by_name(spec_all_rules(), "QUANTIFIER_NEGATION"@, 2) == find_by_name(spec_all_rules(), "QUANTIFIER_NEGATION"@, 3));
    reveal_strlit("ADDITION");
    assert("ADDITION"@.len() != "QUANTIFIER_NEGATION"@.len());
    assert(find_by_name(spec_all_rules(), "QUANTIFIER_NEGATION"@, 3) == find_by_name(spec_all_rules(), "QUANTIFIER_NEGATION"@, 4));
    reveal_strlit("DISJUNCTIVE_SYLLOGISM");
    assert("DISJUNCTIVE_SYLLOGISM"@.len() != "QUANTIFIER_NEGATION"@.len());
    assert(find_by_name(spec_all_rules(), "QUANTIFIER_NEGATION"@, 4) == find_by_name(spec_all_rules(), "QUANTIFIER_NEGATION"@, 5));
    reveal_strlit("CONDITIONAL_PROOF");
    assert("CONDITIONAL_PROOF"@.len() != "QUANTIFIER_NEGATION"@.len());
    assert(find_by_name(spec_all_rules(), "QUANTIFIER_NEGATION"@, 5) == find_by_name(spec_all_rules(), "QUANTIFIER_NEGATION"@, 6));
    reveal_strlit("MODUS_PONENS");
    assert("MODUS_PONENS"@.len() != "QUANTIFIER_NEGATION"@.len());
    assert(find_by_name(spec_all_rules(), "QUANTIFIER_NEGATION"@, 6) == find_by_name(spec_all_rules(), "QUANTIFIER_NEGATION"@, 7));
    reveal_strlit("PROOF_BY_CONTRADICTION");
    assert("PROOF_BY_CONTRADICTION"@.len() != "QUANTIFIER_NEGATION"@.len());
    assert(find_by_name(spec_all_rules(), "QUANTIFIER_NEGATION"@, 7) == find_by_name(spec_all_rules(), "QUANTIFIER_NEGATION"@, 8));
    reveal_strlit("DOUBLENEGATION");
    assert("DOUBLENEGATION"@.len() != "QUANTIFIER_NEGATION"@.len());
    assert(find_by_name(spec_all_rules(), "QUANTIFIER_NEGATION"@, 8) == find_by_name(spec_all_rules(), "QUANTIFIER_NEGATION"@, 9));
    reveal_strlit("CONTRADICTION");
    assert("CONTRADICTION"@.len() != "QUANTIFIER_NEGATION"@.len());
    assert(find_by_name(spec_all_rules(), "QUANTIFIER_NEGATION"@, 9) == find_by_name(spec_all_rules(), "QUANTIFIER_NEGATION"@, 10));
    reveal_strlit("PRINCIPLE_OF_EXPLOSION");
    assert("PRINCIPLE_OF_EXPLOSION"@.len() != "QUANTIFIER_NEGATION"@.len());
    assert(find_by_name(spec_all_rules(), "QUANTIFIER_NEGATION"@, 10) == find_by_name(spec_all_rules(), "QUANTIFIER_NEGATION"@, 11));
    reveal_strlit("BICONDITIONAL_INTRO");
    assert("BICONDITIONAL_INTRO"@[0] != "QUANTIFIER_NEGATION"@[0]);
    assert(find_by_name(spec_all_rules(), "QUANTIFIER_NEGATION"@, 11) == find_by_name(spec_all_rules(), "QUANTIFIER_NEGATION"@, 12));
    reveal_strlit("BICONDITIONAL_ELIM");
    assert("BICONDITIONAL_ELIM"@.len() != "QUANTIFIER_NEGATION"@.len());
    assert(find_by_name(spec_all_rules(), "QUANTIFIER_NEGATION"@, 12) == find_by_name(spec_all_rules(), "QUANTIFIER_NEGATION"@, 13));
    reveal_strlit("EQUIVALENCE_INTRO");
    assert("EQUIVALENCE_INTRO"@.len() != "QUANTIFIER_NEGATION"@.len());
    assert(find_by_name(spec_all_rules(), "QUANTIFIER_NEGATION"@, 13) == find_by_name(spec_all_rules(), "QUANTIFIER_NEGATION"@, 14));
    reveal_strlit("EQUIVALENCE_ELIM");
    assert("EQUIVALENCE_ELIM"@.len() != "QUANTIFIER_NEGATION"@.len());
    assert(find_by_name(spec_all_rules(), "QUANTIFIER_NEGATION"@, 14) == find_by_name(spec_all_rules(), "QUANTIFIER_NEGATION"@, 15));
    reveal_strlit("UNIVERSAL_GENERALIZATION");
    assert("UNIVERSAL_GENERALIZATION"@.len() != "QUANTIFIER_NEGATION"@.len());
    assert(find_by_name(spec_all_rules(), "QUANTIFIER_NEGATION"@, 15) == find_by_name(spec_all_rules(), "QUANTIFIER_NEGATION"@, 16));
    reveal_strlit("UNIVERSAL_INSTANTIATION");
    assert("UNIVERSAL_INSTANTIATION"@.len() != "QUANTIFIER_NEGATION"@.len());
    assert(find_by_name(spec_all_rules(), "QUANTIFIER_NEGATION"@, 16) == find_by_name(spec_all_rules(), "QUANTIFIER_NEGATION"@, 17));
    reveal_strlit("EXISTENTIAL_GENERALIZATION");
    assert("EXISTENTIAL_GENERALIZATION"@.len() != "QUANTIFIER_NEGATION"@.len());
    assert(find_by_name(spec_all_rules(), "QUANTIFIER_NEGATION"@, 17) == find_by_name(spec_all_rules(), "QUANTIFIER_NEGATION"@, 18));
    reveal_strlit("EXISTENTIAL_INSTANTIATION");
    assert("EXISTENTIAL_INSTANTIATION"@.len() != "QUANTIFIER_NEGATION"@.len());
    assert(find_by_name(spec_all_rules(), "QUANTIFIER_NEGATION"@, 18) == find_by_name(spec_all_rules(), "QUANTIFIER_NEGATION"@, 19));
    reveal_strlit("MODUS_TOLLENS");
    assert("MODUS_TOLLENS"@.len() != "QUANTIFIER_NEGATION"@.len());
    assert(find_by_name(spec_all_rules(), "QUANTIFIER_NEGATION"@, 19) == find_by_name(spec_all_rules(), "QUANTIFIER_NEGATION"@, 20));
    reveal_strlit("HYPOTHETICAL_SYLLOGISM");
    assert("HYPOTHETICAL_SYLLOGISM"@.len() != "QUANTIFIER_NEGATION"@.len());
    assert(find_by_name(spec_all_rules(), "QUANTIFIER_NEGATION"@, 20) == find_by_name(spec_all_rules(), "QUANTIFIER_NEGATION"@, 21));
    reveal_strlit("EXCLUDED_MIDDLE");
    assert("EXCLUDED_MIDDLE"@.len() != "QUANTIFIER_NEGATION"@.len());
    assert(find_by_name(spec_all_rules(), "QUANTIFIER_NEGATION"@, 21) == find_by_name(spec_all_rules(), "QUANTIFIER_NEGATION"@, 22));
    reveal_strlit("CONSTRUCTIVE_DILEMMA");
    assert("CONSTRUCTIVE_DILEMMA"@.len() != "QUANTIFIER_NEGATION"@.len());
    assert(find_by_name(spec_all_rules(), "QUANTIFIER_NEGATION"@, 22) == find_by_name(spec_all_rules(), "QUANTIFIER_NEGATION"@, 23));
    reveal_strlit("ASSOCIATION");
    assert("ASSOCIATION"@.len() != "QUANTIFIER_NEGATION"@.len());
    assert(find_by_name(spec_all_rules(), "QUANTIFIER_NEGATION"@, 23) == find_by_name(spec_all_rules(), "QUANTIFIER_NEGATION"@, 24));
    reveal_strlit("COMMUTATION");
    assert("COMMUTATION"@.len() != "QUANTIFIER_NEGATION"@.len());
    assert(find_by_name(spec_all_rules(), "QUANTIFIER_NEGATION"@, 24) == find_by_name(spec_all_rules(), "QUANTIFIER_NEGATION"@, 25));
    reveal_strlit("IDEMPOTENCE");
    assert("IDEMPOTENCE"@.len() != "QUANTIFIER_NEGATION"@.len());
    assert(find_by_name(spec_all_rules(), "QUANTIFIER_NEGATION"@, 25) == find_by_name(spec_all_rules(), "QUANTIFIER_NEGATION"@, 26));
    reveal_strlit("DE_MORGAN");
    assert("DE_MORGAN"@.len() != "QUANTIFIER_NEGATION"@.len());
    assert(find_by_name(spec_all_rules(), "QUANTIFIER_NEGATION"@, 26) == find_by_name(spec_all_rules(), "QUANTIFIER_NEGATION"@, 27));
    reveal_strlit("DISTRIBUTION");
    assert("DISTRIBUTION"@.len() != "QUANTIFIER_NEGATION"@.len());
    assert(find_by_name(spec_all_rules(), "QUANTIFIER_NEGATION"@, 27) == find_by_name(spec_all_rules(), "QUANTIFIER_NEGATION"@, 28));
    reveal_strlit("DOUBLENEGATION_EQUIV");
    assert("DOUBLENEGATION_EQUIV"@.len() != "QUANTIFIER_NEGATION"@.len());
    assert(find_by_name(spec_all_rules(), "QUANTIFIER_NEGATION"@, 28) == find_by_name(spec_all_rules(), "QUANTIFIER_NEGATION"@, 29));
    reveal_strlit("COMPLEMENT");
    assert("COMPLEMENT"@.len() != "QUANTIFIER_NEGATION"@.len());
    assert(find_by_name(spec_all_rules(), "QUANTIFIER_NEGATION"@, 29) == find_by_name(spec_all_rules(), "QUANTIFIER_NEGATION"@, 30));
    reveal_strlit("IDENTITY");
    assert("IDENTITY"@.len() != "QUANTIFIER_NEGATION"@.len());
    assert(find_by_name(spec_all_rules(), "QUANTIFIER_NEGATION"@, 30) == find_by_name(spec_all_rules(), "QUANTIFIER_NEGATION"@, 31));
    reveal_strlit("ANNIHILATION");
    assert("ANNIHILATION"@.len() != "QUANTIFIER_NEGATION"@.len());
    assert(find_by_name(spec_all_rules(), "QUANTIFIER_NEGATION"@, 31) == find_by_name(spec_all_rules(), "QUANTIFIER_NEGATION"@, 32));
    reveal_strlit("INVERSE");
    assert("INVERSE"@.len() != "QUANTIFIER_NEGATION"@.len());
    assert(find_by_name(spec_all_rules(), "QUANTIFIER_NEGATION"@, 32) == find_by_name(spec_all_rules(), "QUANTIFIER_NEGATION"@, 33));
    reveal_strlit("ABSORPTION");
    assert("ABSORPTION"@.len() != "QUANTIFIER_NEGATION"@.len());
    assert(find_by_name(spec_all_rules(), "QUANTIFIER_NEGATION"@, 33) == find_by_name(spec_all_rules(), "QUANTIFIER_NEGATION"@, 34));
    reveal_strlit("REDUCTION");
    assert("REDUCTION"@.len() != "QUANTIFIER_NEGATION"@.len());
    assert(find_by_name(spec_all_rules(), "QUANTIFIER_NEGATION"@, 34) == find_by_name(spec_all_rules(), "QUANTIFIER_NEGATION"@, 35));
    reveal_strlit("ADJACENCY");
    assert("ADJACENCY"@.len() != "QUANTIFIER_NEGATION"@.len());
    assert(find_by_name(spec_all_rules(), "QUANTIFIER_NEGATION"@, 35) == find_by_name(spec_all_rules(), "QUANTIFIER_NEGATION"@, 36));
    reveal_strlit("CONDITIONAL_COMPLEMENT");
    assert("CONDITIONAL_COMPLEMENT"@.len() != "QUANTIFIER_NEGATION"@.len());
    assert(find_by_name(spec_all_rules(), "QUANTIFIER_NEGATION"@, 36) == find_by_name(spec_all_rules(), "QUANTIFIER_NEGATION"@, 37));
    reveal_strlit("CONDITIONAL_IDENTITY");
    assert("CONDITIONAL_IDENTITY"@.len() != "QUANTIFIER_NEGATION"@.len());
    assert(find_by_name(spec_all_rules(), "QUANTIFIER_NEGATION"@, 37) == find_by_name(spec_all_rules(), "QUANTIFIER_NEGATION"@, 38));
    reveal_strlit("CONDITIONAL_ANNIHILATION");
    assert("CONDITIONAL_ANNIHILATION"@.len() != "QUANTIFIER_NEGATION"@.len());
    assert(find_by_name(spec_all_rules(), "QUANTIFIER_NEGATION"@, 38) == find_by_name(spec_all_rules(), "QUANTIFIER_NEGATION"@, 39));
    reveal_strlit("IMPLICATION");
    assert("IMPLICATION"@.len() != "QUANTIFIER_NEGATION"@.len());
    assert(find_by_name(spec_all_rules(), "QUANTIFIER_NEGATION"@, 39) == find_by_name(spec_all_rules(), "QUANTIFIER_NEGATION"@, 40));
    reveal_strlit("BI_IMPLICATION");
    assert("BI_IMPLICATION"@.len() != "QUANTIFIER_NEGATION"@.len());
    assert(find_by_name(spec_all_rules(), "QUANTIFIER_NEGATION"@, 40) == find_by_name(spec_all_rules(), "QUANTIFIER_NEGATION"@, 41));
    reveal_strlit("CONTRAPOSITION");
    assert("CONTRAPOSITION"@.len() != "QUANTIFIER_NEGATION"@.len());
    assert(find_by_name(spec_all_rules(), "QUANTIFIER_NEGATION"@, 41) == find_by_name(spec_all_rules(), "QUANTIFIER_NEGATION"@, 42));
    reveal_strlit("CURRYING");
    assert("CURRYING"@.len() != "QUANTIFIER_NEGATION"@.len());
    assert(find_by_name(spec_all_rules(), "QUANTIFIER_NEGATION"@, 42) == find_by_name(spec_all_rules(), "QUANTIFIER_NEGATION"@, 43));
    reveal_strlit("CONDITIONAL_DISTRIBUTION");
    assert("CONDITIONAL_DISTRIBUTION"@.len() != "QUANTIFIER_NEGATION"@.len());
    assert(find_by_name(spec_all_rules(), "QUANTIFIER_NEGATION"@, 43) == find_by_name(spec_all_rules(), "QUANTIFIER_NEGATION"@, 44));
    reveal_strlit("CONDITIONAL_REDUCTION");
    assert("CONDITIONAL_REDUCTION"@.len() != "QUANTIFIER_NEGATION"@.len());
    assert(find_by_name(spec_all_rules(), "QUANTIFIER_NEGATION"@, 44) == find_by_name(spec_all_rules(), "QUANTIFIER_NEGATION"@, 45));
    reveal_strlit("KNIGHTS_AND_KNAVES");
    assert("KNIGHTS_AND_KNAVES"@.len() != "QUANTIFIER_NEGATION"@.len());
    assert(find_by_name(spec_all_rules(), "QUANTIFIER_NEGATION"@, 45) == find_by_name(spec_all_rules(), "QUANTIFIER_NEGATION"@, 46));
    reveal_strlit("CONDITIONAL_IDEMPOTENCE");
    assert("CONDITIONAL_IDEMPOTENCE"@.len() != "QUANTIFIER_NEGATION"@.len());
    assert(find_by_name(spec_all_rules(), "QUANTIFIER_NEGATION"@, 46) == find_by_name(spec_all_rules(), "QUANTIFIER_NEGATION"@, 47));
    reveal_strlit("BICONDITIONAL_NEGATION");
    assert("BICONDITIONAL_NEGATION"@.len() != "QUANTIFIER_NEGATION"@.len());
    assert(find_by_name(spec_all_rules(), "QUANTIFIER_NEGATION"@, 47) == find_by_name(spec_all_rules(), "QUANTIFIER_NEGATION"@, 48));
    reveal_strlit("BICONDITIONAL_SUBSTITUTION");
    assert("BICONDITIONAL_SUBSTITUTION"@.len() != "QUANTIFIER_NEGATION"@.len());
    assert(find_by_name(spec_all_rules(), "QUANTIFIER_NEGATION"@, 48) == find_by_name(spec_all_rules(), "QUANTIFIER_NEGATION"@, 49));
    reveal_strlit("ASYMMETRIC_TAUTOLOGY");
    assert("ASYMMETRIC_TAUTOLOGY"@.len() != "QUANTIFIER_NEGATION"@.len());
    assert(find_by_name(spec_all_rules(), "QUANTIFIER_NEGATION"@, 49) == find_by_name(spec_all_rules(), "QUANTIFIER_NEGATION"@, 50));
    reveal_strlit("RESOLUTION");
    assert("RESOLUTION"@.len() != "QUANTIFIER_NEGATION"@.len());
    assert(find_by_name(spec_all_rules(), "QUANTIFIER_NEGATION"@, 50) == find_by_name(spec_all_rules(), "QUANTIFIER_NEGATION"@, 51));
    reveal_strlit("TAUTOLOGICAL_CONSEQUENCE");
    assert("TAUTOLOGICAL_CONSEQUENCE"@.len() != "QUANTIFIER_NEGATION"@.len());
    assert(find_by_name(spec_all_rules(), "QUANTIFIER_NEGATION"@, 51) == find_by_name(spec_all_rules(), "QUANTIFIER_NEGATION"@, 52));
    assert(find_by_name(spec_all_rules(), "QUANTIFIER_NEGATION"@, 52) == Some(Rule::Quantifier(QuantifierEquivalence::QuantifierNegation)));
}

proof fn lemma_finds_null_quantification()
    ensures
        find_by_name(spec_all_rules(), "NULL_QUANTIFICATION"@, 0) == Some(Rule::Quantifier(QuantifierEquivalence::NullQuantification)),
{
    reveal_strlit("NULL_QUANTIFICATION");
    reveal_strlit("REITERATION");
    assert("REITERATION"@.len() != "NULL_QUANTIFICATION"@.len());
    assert(find_by_name(spec_all_rules(), "NULL_QUANTIFICATION"@, 0) == find_by_name(spec_all_rules(), "NULL_QUANTIFICATION"@, 1));
    reveal_strlit("CONJUNCTION");
    assert("CONJUNCTION"@.len() != "NULL_QUANTIFICATION"@.len());
    assert(find_by_name(spec_all_rules(), "NULL_QUANTIFICATION"@, 1) == find_by_name(spec_all_rules(), "NULL_QUANTIFICATION"@, 2));
    reveal_strlit("SIMPLIFICATION");
    assert("SIMPLIFICATION"@.len() != "NULL_QUANTIFICATION"@.len());
    assert(find_by_name(spec_all_rules(), "NULL_QUANTIFICATION"@, 2) == find_by_name(spec_all_rules(), "NULL_QUANTIFICATION"@, 3));
    reveal_strlit("ADDITION");
    assert("ADDITION"@.len() != "NULL_QUANTIFICATION"@.len());
    assert(find_by_name(spec_all_rules(), "NULL_QUANTIFICATION"@, 3) == find_by_name(spec_all_rules(), "NULL_QUANTIFICATION"@, 4));
    reveal_strlit("DISJUNCTIVE_SYLLOGISM");
    assert("DISJUNCTIVE_SYLLOGISM"@.len() != "NULL_QUANTIFICATION"@.len());
    assert(find_by_name(spec_all_rules(), "NULL_QUANTIFICATION"@, 4) == find_by_name(spec_all_rules(), "NULL_QUANTIFICATION"@, 5));
    reveal_strlit("CONDITIONAL_PROOF");
    assert("CONDITIONAL_PROOF"@.len() != "NULL_QUANTIFICATION"@.len());
    assert(find_by_name(spec_all_rules(), "NULL_QUANTIFICATION"@, 5) == find_by_name(spec_all_rules(), "NULL_QUANTIFICATION"@, 6));
    reveal_strlit("MODUS_PONENS");
    assert("MODUS_PONENS"@.len() != "NULL_QUANTIFICATION"@.len());
    assert(find_by_name(spec_all_rules(), "NULL_QUANTIFICATION"@, 6) == find_by_name(spec_all_rules(), "NULL_QUANTIFICATION"@, 7));
    reveal_strlit("PROOF_BY_CONTRADICTION");
    assert("PROOF_BY_CONTRADICTION"@.len() != "NULL_QUANTIFICATION"@.len());
    assert(find_by_name(spec_all_rules(), "NULL_QUANTIFICATION"@, 7) == find_by_name(spec_all_rules(), "NULL_QUANTIFICATION"@, 8));
    reveal_strlit("DOUBLENEGATION");
    assert("DOUBLENEGATION"@.len() != "NULL_QUANTIFICATION"@.len());
    assert(find_by_name(spec_all_rules(), "NULL_QUANTIFICATION"@, 8) == find_by_name(spec_all_rules(), "NULL_QUANTIFICATION"@, 9));
    reveal_strlit("CONTRADICTION");
    assert("CONTRADICTION"@.len() != "NULL_QUANTIFICATION"@.len());
    assert(find_by_name(spec_all_rules(), "NULL_QUANTIFICATION"@, 9) == find_by_name(spec_all_rules(), "NULL_QUANTIFICATION"@, 10));
    reveal_strlit("PRINCIPLE_OF_EXPLOSION");
    assert("PRINCIPLE_OF_EXPLOSION"@.len() != "NULL_QUANTIFICATION"@.len());
    assert(find_by_name(spec_all_rules(), "NULL_QUANTIFICATION"@, 10) == find_by_name(spec_all_rules(), "NULL_QUANTIFICATION"@, 11));
    reveal_strlit("BICONDITIONAL_INTRO");
    assert("BICONDITIONAL_INTRO"@[0] != "NULL_QUANTIFICATION"@[0]);
    assert(find_by_name(spec_all_rules(), "NULL_QUANTIFICATION"@, 11) == find_by_name(spec_all_rules(), "NULL_QUANTIFICATION"@, 12));
    reveal_strlit("BICONDITIONAL_ELIM");
    assert("BICONDITIONAL_ELIM"@.len() != "NULL_QUANTIFICATION"@.len());
    assert(find_by_name(spec_all_rules(), "NULL_QUANTIFICATION"@, 12) == find_by_name(spec_all_rules(), "NULL_QUANTIFICATION"@, 13));
    reveal_strlit("EQUIVALENCE_INTRO");
    assert("EQUIVALENCE_INTRO"@.len() != "NULL_QUANTIFICATION"@.len());
    assert(find_by_name(spec_all_rules(), "NULL_QUANTIFICATION"@, 13) == find_by_name(spec_all_rules(), "NULL_QUANTIFICATION"@, 14));
    reveal_strlit("EQUIVALENCE_ELIM");
    assert("EQUIVALENCE_ELIM"@.len() != "NULL_QUANTIFICATION"@.len());
    assert(find_by_name(spec_all_rules(), "NULL_QUANTIFICATION"@, 14) == find_by_name(spec_all_rules(), "NULL_QUANTIFICATION"@, 15));
    reveal_strlit("UNIVERSAL_GENERALIZATION");
    assert("UNIVERSAL_GENERALIZATION"@.len() != "NULL_QUANTIFICATION"@.len());
    assert(find_by_name(spec_all_rules(), "NULL_QUANTIFICATION"@, 15) == find_by_name(spec_all_rules(), "NULL_QUANTIFICATION"@, 16));
    reveal_strlit("UNIVERSAL_INSTANTIATION");
    assert("UNIVERSAL_INSTANTIATION"@.len() != "NULL_QUANTIFICATION"@.len());
    assert(find_by_name(spec_all_rules(), "NULL_QUANTIFICATION"@, 16) == find_by_name(spec_all_rules(), "NULL_QUANTIFICATION"@, 17));
    reveal_strlit("EXISTENTIAL_GENERALIZATION");
    assert("EXISTENTIAL_GENERALIZATION"@.len() != "NULL_QUANTIFICATION"@.len());
    assert(find_by_name(spec_all_rules(), "NULL_QUANTIFICATION"@, 17) == find_by_name(spec_all_rules(), "NULL_QUANTIFICATION"@, 18));
    reveal_strlit("EXISTENTIAL_INSTANTIATION");
    assert("EXISTENTIAL_INSTANTIATION"@.len() != "NULL_QUANTIFICATION"@.len());
    assert(find_by_name(spec_all_rules(), "NULL_QUANTIFICATION"@, 18) == find_by_name(spec_all_rules(), "NULL_QUANTIFICATION"@, 19));
    reveal_strlit("MODUS_TOLLENS");
    assert("MODUS_TOLLENS"@.len() != "NULL_QUANTIFICATION"@.len());
    assert(find_by_name(spec_all_rules(), "NULL_QUANTIFICATION"@, 19) == find_by_name(spec_all_rules(), "NULL_QUANTIFICATION"@, 20));
    reveal_strlit("HYPOTHETICAL_SYLLOGISM");
    assert("HYPOTHETICAL_SYLLOGISM"@.len() != "NULL_QUANTIFICATION"@.len());
    assert(find_by_name(spec_all_rules(), "NULL_QUANTIFICATION"@, 20) == find_by_name(spec_all_rules(), "NULL_QUANTIFICATION"@, 21));
    reveal_strlit("EXCLUDED_MIDDLE");
    assert("EXCLUDED_MIDDLE"@.len() != "NULL_QUANTIFICATION"@.len());
    assert(find_by_name(spec_all_rules(), "NULL_QUANTIFICATION"@, 21) == find_by_name(spec_all_rules(), "NULL_QUANTIFICATION"@, 22));
    reveal_strlit("CONSTRUCTIVE_DILEMMA");
    assert("CONSTRUCTIVE_DILEMMA"@.len() != "NULL_QUANTIFICATION"@.len());
    assert(find_by_name(spec_all_rules(), "NULL_QUANTIFICATION"@, 22) == find_by_name(spec_all_rules(), "NULL_QUANTIFICATION"@, 23));
    reveal_strlit("ASSOCIATION");
    assert("ASSOCIATION"@.len() != "NULL_QUANTIFICATION"@.len());
    assert(find_by_name(spec_all_rules(), "NULL_QUANTIFICATION"@, 23) == find_by_name(spec_all_rules(), "NULL_QUANTIFICATION"@, 24));
    reveal_strlit("COMMUTATION");
    assert("COMMUTATION"@.len() != "NULL_QUANTIFICATION"@.len());
    assert(find_by_name(spec_all_rules(), "NULL_QUANTIFICATION"@, 24) == find_by_name(spec_all_rules(), "NULL_QUANTIFICATION"@, 25));
    reveal_strlit("IDEMPOTENCE");
    assert("IDEMPOTENCE"@.len() != "NULL_QUANTIFICATION"@.len());
    assert(find_by_name(spec_all_rules(), "NULL_QUANTIFICATION"@, 25) == find_by_name(spec_all_rules(), "NULL_QUANTIFICATION"@, 26));
    reveal_strlit("DE_MORGAN");
    assert("DE_MORGAN"@.len() != "NULL_QUANTIFICATION"@.len());
    assert(find_by_name(spec_all_rules(), "NULL_QUANTIFICATION"@, 26) == find_by_name(spec_all_rules(), "NULL_QUANTIFICATION"@, 27));
    reveal_strlit("DISTRIBUTION");
    assert("DISTRIBUTION"@.len() != "NULL_QUANTIFICATION"@.len());
    assert(find_by_name(spec_all_rules(), "NULL_QUANTIFICATION"@, 27) == find_by_name(spec_all_rules(), "NULL_QUANTIFICATION"@, 28));
    reveal_strlit("DOUBLENEGATION_EQUIV");
    assert("DOUBLENEGATION_EQUIV"@.len() != "NULL_QUANTIFICATION"@.len());
    assert(find_by_name(spec_all_rules(), "NULL_QUANTIFICATION"@, 28) == find_by_name(spec_all_rules(), "NULL_QUANTIFICATION"@, 29));
    reveal_strlit("COMPLEMENT");
    assert("COMPLEMENT"@.len() != "NULL_QUANTIFICATION"@.len());
    assert(find_by_name(spec_all_rules(), "NULL_QUANTIFICATION"@, 29) == find_by_name(spec_all_rules(), "NULL_QUANTIFICATION"@, 30));
    reveal_strlit("IDENTITY");
    assert("IDENTITY"@.len() != "NULL_QUANTIFICATION"@.len());
    assert(find_by_name(spec_all_rules(), "NULL_QUANTIFICATION"@, 30) == find_by_name(spec_all_rules(), "NULL_QUANTIFICATION"@, 31));
    reveal_strlit("ANNIHILATION");
    assert("ANNIHILATION"@.len() != "NULL_QUANTIFICATION"@.len());
    assert(find_by_name(spec_all_rules(), "NULL_QUANTIFICATION"@, 31) == find_by_name(spec_all_rules(), "NULL_QUANTIFICATION"@, 32));
    reveal_strlit("INVERSE");
    assert("INVERSE"@.len() != "NULL_QUANTIFICATION"@.len());
    assert(find_by_name(spec_all_rules(), "NULL_QUANTIFICATION"@, 32) == find_by_name(spec_all_rules(), "NULL_QUANTIFICATION"@, 33));
    reveal_strlit("ABSORPTION");
    assert("ABSORPTION"@.len() != "NULL_QUANTIFICATION"@.len());
    assert(find_by_name(spec_all_rules(), "NULL_QUANTIFICATION"@, 33) == find_by_name(spec_all_rules(), "NULL_QUANTIFICATION"@, 34));
    reveal_strlit("REDUCTION");
    assert("REDUCTION"@.len() != "NULL_QUANTIFICATION"@.len());
    assert(find_by_name(spec_all_rules(), "NULL_QUANTIFICATION"@, 34) == find_by_name(spec_all_rules(), "NULL_QUANTIFICATION"@, 35));
    reveal_strlit("ADJACENCY");
    assert("ADJACENCY"@.len() != "NULL_QUANTIFICATION"@.len());
    assert(find_by_name(spec_all_rules(), "NULL_QUANTIFICATION"@, 35) == find_by_name(spec_all_rules(), "NULL_QUANTIFICATION"@, 36));
    reveal_strlit("CONDITIONAL_COMPLEMENT");
    assert("CONDITIONAL_COMPLEMENT"@.len() != "NULL_QUANTIFICATION"@.len());
    assert(find_by_name(spec_all_rules(), "NULL_QUANTIFICATION"@, 36) == find_by_name(spec_all_rules(), "NULL_QUANTIFICATION"@, 37));
    reveal_strlit("CONDITIONAL_IDENTITY");
    assert("CONDITIONAL_IDENTITY"@.len() != "NULL_QUANTIFICATION"@.len());
    assert(find_by_name(spec_all_rules(), "NULL_QUANTIFICATION"@, 37) == find_by_name(spec_all_rules(), "NULL_QUANTIFICATION"@, 38));
    reveal_strlit("CONDITIONAL_ANNIHILATION");
    assert("CONDITIONAL_ANNIHILATION"@.len() != "NULL_QUANTIFICATION"@.len());
    assert(find_by_name(spec_all_rules(), "NULL_QUANTIFICATION"@, 38) == find_by_name(spec_all_rules(), "NULL_QUANTIFICATION"@, 39));
    reveal_strlit("IMPLICATION");
    assert("IMPLICATION"@.len() != "NULL_QUANTIFICATION"@.len());
    assert(find_by_name(spec_all_rules(), "NULL_QUANTIFICATION"@, 39) == find_by_name(spec_all_rules(), "NULL_QUANTIFICATION"@, 40));
    reveal_strlit("BI_IMPLICATION");
    assert("BI_IMPLICATION"@.len() != "NULL_QUANTIFICATION"@.len());
    assert(find_by_name(spec_all_rules(), "NULL_QUANTIFICATION"@, 40) == find_by_name(spec_all_rules(), "NULL_QUANTIFICATION"@, 41));
    reveal_strlit("CONTRAPOSITION");
    assert("CONTRAPOSITION"@.len() != "NULL_QUANTIFICATION"@.len());
    assert(find_by_name(spec_all_rules(), "NULL_QUANTIFICATION"@, 41) == find_by_name(spec_all_rules(), "NULL_QUANTIFICATION"@, 42));
    reveal_strlit("CURRYING");
    assert("CURRYING"@.len() != "NULL_QUANTIFICATION"@.len());
    assert(find_by_name(spec_all_rules(), "NULL_QUANTIFICATION"@, 42) == find_by_name(spec_all_rules(), "NULL_QUANTIFICATION"@, 43));
    reveal_strlit("CONDITIONAL_DISTRIBUTION");
    assert("CONDITIONAL_DISTRIBUTION"@.len() != "NULL_QUANTIFICATION"@.len());
    assert(find_by_name(spec_all_rules(), "NULL_QUANTIFICATION"@, 43) == find_by_name(spec_all_rules(), "NULL_QUANTIFICATION"@, 44));
    reveal_strlit("CONDITIONAL_REDUCTION");
    assert("CONDITIONAL_REDUCTION"@.len() != "NULL_QUANTIFICATION"@.len());
    assert(find_by_name(spec_all_rules(), "NULL_QUANTIFICATION"@, 44) == find_by_name(spec_all_rules(), "NULL_QUANTIFICATION"@, 45));
    reveal_strlit("KNIGHTS_AND_KNAVES");
    assert("KNIGHTS_AND_KNAVES"@.len() != "NULL_QUANTIFICATION"@.len());
    assert(find_by_name(spec_all_rules(), "NULL_QUANTIFICATION"@, 45) == find_by_name(spec_all_rules(), "NULL_QUANTIFICATION"@, 46));
    reveal_strlit("CONDITIONAL_IDEMPOTENCE");
    assert("CONDITIONAL_IDEMPOTENCE"@.len() != "NULL_QUANTIFICATION"@.len());
    assert(find_by_name(spec_all_rules(), "NULL_QUANTIFICATION"@, 46) == find_by_name(spec_all_rules(), "NULL_QUANTIFICATION"@, 47));
    reveal_strlit("BICONDITIONAL_NEGATION");
    assert("BICONDITIONAL_NEGATION"@.len() != "NULL_QUANTIFICATION"@.len());
    assert(find_by_name(spec_all_rules(), "NULL_QUANTIFICATION"@, 47) == find_by_name(spec_all_rules(), "NULL_QUANTIFICATION"@, 48));
    reveal_strlit("BICONDITIONAL_SUBSTITUTION");
    assert("BICONDITIONAL_SUBSTITUTION"@.len() != "NULL_QUANTIFICATION"@.len());
    assert(find_by_name(spec_all_rules(), "NULL_QUANTIFICATION"@, 48) == find_by_name(spec_all_rules(), "NULL_QUANTIFICATION"@, 49));
    reveal_strlit("ASYMMETRIC_TAUTOLOGY");
    assert("ASYMMETRIC_TAUTOLOGY"@.len() != "NULL_QUANTIFICATION"@.len());
    assert(find_by_name(spec_all_rules(), "NULL_QUANTIFICATION"@, 49) == find_by_name(spec_all_rules(), "NULL_QUANTIFICATION"@, 50));
    reveal_strlit("RESOLUTION");
    assert("RESOLUTION"@.len() != "NULL_QUANTIFICATION"@.len());
    assert(find_by_name(spec_all_rules(), "NULL_QUANTIFICATION"@, 50) == find_by_name(spec_all_rules(), "NULL_QUANTIFICATION"@, 51));
    reveal_strlit("TAUTOLOGICAL_CONSEQUENCE");
    assert("TAUTOLOGICAL_CONSEQUENCE"@.len() != "NULL_QUANTIFICATION"@.len());
    assert(find_by_name(spec_all_rules(), "NULL_QUANTIFICATION"@, 51) == find_by_name(spec_all_rules(), "NULL_QUANTIFICATION"@, 52));
    reveal_strlit("QUANTIFIER_NEGATION");
    assert("QUANTIFIER_NEGATION"@[0] != "NULL_QUANTIFICATION"@[0]);
    assert(find_by_name(spec_all_rules(), "NULL_QUANTIFICATION"@, 52) == find_by_name(spec_all_rules(), "NULL_QUANTIFICATION"@, 53));
    assert(find_by_name(spec_all_rules(), "NULL_QUANTIFICATION"@, 53) == Some(Rule::Quantifier(QuantifierEquivalence::NullQuantification)));
}

proof fn lemma_finds_replacing_bound_vars()
    ensures
        find_by_name(spec_all_rules(), "REPLACING_BOUND_VARS"@, 0) == Some(Rule::Quantifier(QuantifierEquivalence::ReplacingBoundVars)),
{
    reveal_strlit("REPLACING_BOUND_VARS");
    reveal_strlit("REITERATION");
    assert("REITERATION"@.len() != "REPLACING_BOUND_VARS"@.len());
    assert(find_by_name(spec_all_rules(), "REPLACING_BOUND_VARS"@, 0) == find_by_name(spec_all_rules(), "REPLACING_BOUND_VARS"@, 1));
    reveal_strlit("CONJUNCTION");
    assert("CONJUNCTION"@.len() != "REPLACING_BOUND_VARS"@.len());
    assert(find_by_name(spec_all_rules(), "REPLACING_BOUND_VARS"@, 1) == find_by_name(spec_all_rules(), "REPLACING_BOUND_VARS"@, 2));
    reveal_strlit("SIMPLIFICATION");
    assert("SIMPLIFICATION"@.len() != "REPLACING_BOUND_VARS"@.len());
    assert(find_by_name(spec_all_rules(), "REPLACING_BOUND_VARS"@, 2) == find_by_name(spec_all_rules(), "REPLACING_BOUND_VARS"@, 3));
    reveal_strlit("ADDITION");
    assert("ADDITION"@.len() != "REPLACING_BOUND_VARS"@.len());
    assert(find_by_name(spec_all_rules(), "REPLACING_BOUND_VARS"@, 3) == find_by_name(spec_all_rules(), "REPLACING_BOUND_VARS"@, 4));
    reveal_strlit("DISJUNCTIVE_SYLLOGISM");
    assert("DISJUNCTIVE_SYLLOGISM"@.len() != "REPLACING_BOUND_VARS"@.len());
    assert(find_by_name(spec_all_rules(), "REPLACING_BOUND_VARS"@, 4) == find_by_name(spec_all_rules(), "REPLACING_BOUND_VARS"@, 5));
    reveal_strlit("CONDITIONAL_PROOF");
    assert("CONDITIONAL_PROOF"@.len() != "REPLACING_BOUND_VARS"@.len());
    assert(find_by_name(spec_all_rules(), "REPLACING_BOUND_VARS"@, 5) == find_by_name(spec_all_rules(), "REPLACING_BOUND_VARS"@, 6));
    reveal_strlit("MODUS_PONENS");
    assert("MODUS_PONENS"@.len() != "REPLACING_BOUND_VARS"@.len());
    assert(find_by_name(spec_all_rules(), "REPLACING_BOUND_VARS"@, 6) == find_by_name(spec_all_rules(), "REPLACING_BOUND_VARS"@, 7));
    reveal_strlit("PROOF_BY_CONTRADICTION");
    assert("PROOF_BY_CONTRADICTION"@.len() != "REPLACING_BOUND_VARS"@.len());
    assert(find_by_name(spec_all_rules(), "REPLACING_BOUND_VARS"@, 7) == find_by_name(spec_all_rules(), "REPLACING_BOUND_VARS"@, 8));
    reveal_strlit("DOUBLENEGATION");
    assert("DOUBLENEGATION"@.len() != "REPLACING_BOUND_VARS"@.len());
    assert(find_by_name(spec_all_rules(), "REPLACING_BOUND_VARS"@, 8) == find_by_name(spec_all_rules(), "REPLACING_BOUND_VARS"@, 9));
    reveal_strlit("CONTRADICTION");
    assert("CONTRADICTION"@.len() != "REPLACING_BOUND_VARS"@.len());
    assert(find_by_name(spec_all_rules(), "REPLACING_BOUND_VARS"@, 9) == find_by_name(spec_all_rules(), "REPLACING_BOUND_VARS"@, 10));
    reveal_strlit("PRINCIPLE_OF_EXPLOSION");
    assert("PRINCIPLE_OF_EXPLOSION"@.len() != "REPLACING_BOUND_VARS"@.len());
    assert(find_by_name(spec_all_rules(), "REPLACING_BOUND_VARS"@, 10) == find_by_name(spec_all_rules(), "REPLACING_BOUND_VARS"@, 11));
    reveal_strlit("BICONDITIONAL_INTRO");
    assert("BICONDITIONAL_INTRO"@.len() != "REPLACING_BOUND_VARS"@.len());
    assert(find_by_name(spec_all_rules(), "REPLACING_BOUND_VARS"@, 11) == find_by_name(spec_all_rules(), "REPLACING_BOUND_VARS"@, 12));
    reveal_strlit("BICONDITIONAL_ELIM");
    assert("BICONDITIONAL_ELIM"@.len() != "REPLACING_BOUND_VARS"@.len());
    assert(find_by_name(spec_all_rules(), "REPLACING_BOUND_VARS"@, 12) == find_by_name(spec_all_rules(), "REPLACING_BOUND_VARS"@, 13));
    reveal_strlit("EQUIVALENCE_INTRO");
    assert("EQUIVALENCE_INTRO"@.len() != "REPLACING_BOUND_VARS"@.len());
    assert(find_by_name(spec_all_rules(), "REPLACING_BOUND_VARS"@, 13) == find_by_name(spec_all_rules(), "REPLACING_BOUND_VARS"@, 14));
    reveal_strlit("EQUIVALENCE_ELIM");
    assert("EQUIVALENCE_ELIM"@.len() != "REPLACING_BOUND_VARS"@.len());
    assert(find_by_name(spec_all_rules(), "REPLACING_BOUND_VARS"@, 14) == find_by_name(spec_all_rules(), "REPLACING_BOUND_VARS"@, 15));
    reveal_strlit("UNIVERSAL_GENERALIZATION");
    assert("UNIVERSAL_GENERALIZATION"@.len() != "REPLACING_BOUND_VARS"@.len());
    assert(find_by_name(spec_all_rules(), "REPLACING_BOUND_VARS"@, 15) == find_by_name(spec_all_rules(), "REPLACING_BOUND_VARS"@, 16));
    reveal_strlit("UNIVERSAL_INSTANTIATION");
    assert("UNIVERSAL_INSTANTIATION"@.len() != "REPLACING_BOUND_VARS"@.len());
    assert(find_by_name(spec_all_rules(), "REPLACING_BOUND_VARS"@, 16) == find_by_name(spec_all_rules(), "REPLACING_BOUND_VARS"@, 17));
    reveal_strlit("EXISTENTIAL_GENERALIZATION");
    assert("EXISTENTIAL_GENERALIZATION"@.len() != "REPLACING_BOUND_VARS"@.len());
    assert(find_by_name(spec_all_rules(), "REPLACING_BOUND_VARS"@, 17) == find_by_name(spec_all_rules(), "REPLACING_BOUND_VARS"@, 18));
    reveal_strlit("EXISTENTIAL_INSTANTIATION");
    assert("EXISTENTIAL_INSTANTIATION"@.len() != "REPLACING_BOUND_VARS"@.len());
    assert(find_by_name(spec_all_rules(), "REPLACING_BOUND_VARS"@, 18) == find_by_name(spec_all_rules(), "REPLACING_BOUND_VARS"@, 19));
    reveal_strlit("MODUS_TOLLENS");
    assert("MODUS_TOLLENS"@.len() != "REPLACING_BOUND_VARS"@.len());
    assert(find_by_name(spec_all_rules(), "REPLACING_BOUND_VARS"@, 19) == find_by_name(spec_all_rules(), "REPLACING_BOUND_VARS"@, 20));
    reveal_strlit("HYPOTHETICAL_SYLLOGISM");
    assert("HYPOTHETICAL_SYLLOGISM"@.len() != "REPLACING_BOUND_VARS"@.len());
    assert(find_by_name(spec_all_rules(), "REPLACING_BOUND_VARS"@, 20) == find_by_name(spec_all_rules(), "REPLACING_BOUND_VARS"@, 21));
    reveal_strlit("EXCLUDED_MIDDLE");
    assert("EXCLUDED_MIDDLE"@.len() != "REPLACING_BOUND_VARS"@.len());
    assert(find_by_name(spec_all_rules(), "REPLACING_BOUND_VARS"@, 21) == find_by_name(spec_all_rules(), "REPLACING_BOUND_VARS"@, 22));
    reveal_strlit("CONSTRUCTIVE_DILEMMA");
    assert("CONSTRUCTIVE_DILEMMA"@[0] != "REPLACING_BOUND_VARS"@[0]);
    assert(find_by_name(spec_all_rules(), "REPLACING_BOUND_VARS"@, 22) == find_by_name(spec_all_rules(), "REPLACING_BOUND_VARS"@, 23));
    reveal_strlit("ASSOCIATION");
    assert("ASSOCIATION"@.len() != "REPLACING_BOUND_VARS"@.len());
    assert(find_by_name(spec_all_rules(), "REPLACING_BOUND_VARS"@, 23) == find_by_name(spec_all_rules(), "REPLACING_BOUND_VARS"@, 24));
    reveal_strlit("COMMUTATION");
    assert("COMMUTATION"@.len() != "REPLACING_BOUND_VARS"@.len());
    assert(find_by_name(spec_all_rules(), "REPLACING_BOUND_VARS"@, 24) == find_by_name(spec_all_rules(), "REPLACING_BOUND_VARS"@, 25));
    reveal_strlit("IDEMPOTENCE");
    assert("IDEMPOTENCE"@.len() != "REPLACING_BOUND_VARS"@.len());
    assert(find_by_name(spec_all_rules(), "REPLACING_BOUND_VARS"@, 25) == find_by_name(spec_all_rules(), "REPLACING_BOUND_VARS"@, 26));
    reveal_strlit("DE_MORGAN");
    assert("DE_MORGAN"@.len() != "REPLACING_BOUND_VARS"@.len());
    assert(find_by_name(spec_all_rules(), "REPLACING_BOUND_VARS"@, 26) == find_by_name(spec_all_rules(), "REPLACING_BOUND_VARS"@, 27));
    reveal_strlit("DISTRIBUTION");
    assert("DISTRIBUTION"@.len() != "REPLACING_BOUND_VARS"@.len());
    assert(find_by_name(spec_all_rules(), "REPLACING_BOUND_VARS"@, 27) == find_by_name(spec_all_rules(), "REPLACING_BOUND_VARS"@, 28));
    reveal_strlit("DOUBLENEGATION_EQUIV");
    assert("DOUBLENEGATION_EQUIV"@[0] != "REPLACING_BOUND_VARS"@[0]);
    assert(find_by_name(spec_all_rules(), "REPLACING_BOUND_VARS"@, 28) == find_by_name(spec_all_rules(), "REPLACING_BOUND_VARS"@, 29));
    reveal_strlit("COMPLEMENT");
    assert("COMPLEMENT"@.len() != "REPLACING_BOUND_VARS"@.len());
    assert(find_by_name(spec_all_rules(), "REPLACING_BOUND_VARS"@, 29) == find_by_name(spec_all_rules(), "REPLACING_BOUND_VARS"@, 30));
    reveal_strlit("IDENTITY");
    assert("IDENTITY"@.len() != "REPLACING_BOUND_VARS"@.len());
    assert(find_by_name(spec_all_rules(), "REPLACING_BOUND_VARS"@, 30) == find_by_name(spec_all_rules(), "REPLACING_BOUND_VARS"@, 31));
    reveal_strlit("ANNIHILATION");
    assert("ANNIHILATION"@.len() != "REPLACING_BOUND_VARS"@.len());
    assert(find_by_name(spec_all_rules(), "REPLACING_BOUND_VARS"@, 31) == find_by_name(spec_all_rules(), "REPLACING_BOUND_VARS"@, 32));
    reveal_strlit("INVERSE");
    assert("INVERSE"@.len() != "REPLACING_BOUND_VARS"@.len());
    assert(find_by_name(spec_all_rules(), "REPLACING_BOUND_VARS"@, 32) == find_by_name(spec_all_rules(), "REPLACING_BOUND_VARS"@, 33));
    reveal_strlit("ABSORPTION");
    assert("ABSORPTION"@.len() != "REPLACING_BOUND_VARS"@.len());
    assert(find_by_name(spec_all_rules(), "REPLACING_BOUND_VARS"@, 33) == find_by_name(spec_all_rules(), "REPLACING_BOUND_VARS"@, 34));
    reveal_strlit("REDUCTION");
    assert("REDUCTION"@.len() != "REPLACING_BOUND_VARS"@.len());
    assert(find_by_name(spec_all_rules(), "REPLACING_BOUND_VARS"@, 34) == find_by_name(spec_all_rules(), "REPLACING_BOUND_VARS"@, 35));
    reveal_strlit("ADJACENCY");
    assert("ADJACENCY"@.len() != "REPLACING_BOUND_VARS"@.len());
    assert(find_by_name(spec_all_rules(), "REPLACING_BOUND_VARS"@, 35) == find_by_name(spec_all_rules(), "REPLACING_BOUND_VARS"@, 36));
    reveal_strlit("CONDITIONAL_COMPLEMENT");
    assert("CONDITIONAL_COMPLEMENT"@.len() != "REPLACING_BOUND_VARS"@.len());
    assert(find_by_name(spec_all_rules(), "REPLACING_BOUND_VARS"@, 36) == find_by_name(spec_all_rules(), "REPLACING_BOUND_VARS"@, 37));
    reveal_strlit("CONDITIONAL_IDENTITY");
    assert("CONDITIONAL_IDENTITY"@[0] != "REPLACING_BOUND_VARS"@[0]);
    assert(find_by_name(spec_all_rules(), "REPLACING_BOUND_VARS"@, 37) == find_by_name(spec_all_rules(), "REPLACING_BOUND_VARS"@, 38));
    reveal_strlit("CONDITIONAL_ANNIHILATION");
    assert("CONDITIONAL_ANNIHILATION"@.len() != "REPLACING_BOUND_VARS"@.len());
    assert(find_by_name(spec_all_rules(), "REPLACING_BOUND_VARS"@, 38) == find_by_name(spec_all_rules(), "REPLACING_BOUND_VARS"@, 39));
    reveal_strlit("IMPLICATION");
    assert("IMPLICATION"@.len() != "REPLACING_BOUND_VARS"@.len());
    assert(find_by_name(spec_all_rules(), "REPLACING_BOUND_VARS"@, 39) == find_by_name(spec_all_rules(), "REPLACING_BOUND_VARS"@, 40));
    reveal_strlit("BI_IMPLICATION");
    assert("BI_IMPLICATION"@.len() != "REPLACING_BOUND_VARS"@.len());
    assert(find_by_name(spec_all_rules(), "REPLACING_BOUND_VARS"@, 40) == find_by_name(spec_all_rules(), "REPLACING_BOUND_VARS"@, 41));
    reveal_strlit("CONTRAPOSITION");
    assert("CONTRAPOSITION"@.len() != "REPLACING_BOUND_VARS"@.len());
    assert(find_by_name(spec_all_rules(), "REPLACING_BOUND_VARS"@, 41) == find_by_name(spec_all_rules(), "REPLACING_BOUND_VARS"@, 42));
    reveal_strlit("CURRYING");
    assert("CURRYING"@.len() != "REPLACING_BOUND_VARS"@.len());
    assert(find_by_name(spec_all_rules(), "REPLACING_BOUND_VARS"@, 42) == find_by_name(spec_all_rules(), "REPLACING_BOUND_VARS"@, 43));
    reveal_strlit("CONDITIONAL_DISTRIBUTION");
    assert("CONDITIONAL_DISTRIBUTION"@.len() != "REPLACING_BOUND_VARS"@.len());
    assert(find_by_name(spec_all_rules(), "REPLACING_BOUND_VARS"@, 43) == find_by_name(spec_all_rules(), "REPLACING_BOUND_VARS"@, 44));
    reveal_strlit("CONDITIONAL_REDUCTION");
    assert("CONDITIONAL_REDUCTION"@.len() != "REPLACING_BOUND_VARS"@.len());
    assert(find_by_name(spec_all_rules(), "REPLACING_BOUND_VARS"@, 44) == find_by_name(spec_all_rules(), "REPLACING_BOUND_VARS"@, 45));
    reveal_strlit("KNIGHTS_AND_KNAVES");
    assert("KNIGHTS_AND_KNAVES"@.len() != "REPLACING_BOUND_VARS"@.len());
    assert(find_by_name(spec_all_rules(), "REPLACING_BOUND_VARS"@, 45) == find_by_name(spec_all_rules(), "REPLACING_BOUND_VARS"@, 46));
    reveal_strlit("CONDITIONAL_IDEMPOTENCE");
    assert("CONDITIONAL_IDEMPOTENCE"@.len() != "REPLACING_BOUND_VARS"@.len());
    assert(find_by_name(spec_all_rules(), "REPLACING_BOUND_VARS"@, 46) == find_by_name(spec_all_rules(), "REPLACING_BOUND_VARS"@, 47));
    reveal_strlit("BICONDITIONAL_NEGATION");
    assert("BICONDITIONAL_NEGATION"@.len() != "REPLACING_BOUND_VARS"@.len());
    assert(find_by_name(spec_all_rules(), "REPLACING_BOUND_VARS"@, 47) == find_by_name(spec_all_rules(), "REPLACING_BOUND_VARS"@, 48));
    reveal_strlit("BICONDITIONAL_SUBSTITUTION");
    assert("BICONDITIONAL_SUBSTITUTION"@.len() != "REPLACING_BOUND_VARS"@.len());
    assert(find_by_name(spec_all_rules(), "REPLACING_BOUND_VARS"@, 48) == find_by_name(spec_all_rules(), "REPLACING_BOUND_VARS"@, 49));
    reveal_strlit("ASYMMETRIC_TAUTOLOGY");
    assert("ASYMMETRIC_TAUTOLOGY"@[0] != "REPLACING_BOUND_VARS"@[0]);
    assert(find_by_name(spec_all_rules(), "REPLACING_BOUND_VARS"@, 49) == find_by_name(spec_all_rules(), "REPLACING_BOUND_VARS"@, 50));
    reveal_strlit("RESOLUTION");
    assert("RESOLUTION"@.len() != "REPLACING_BOUND_VARS"@.len());
    assert(find_by_name(spec_all_rules(), "REPLACING_BOUND_VARS"@, 50) == find_by_name(spec_all_rules(), "REPLACING_BOUND_VARS"@, 51));
    reveal_strlit("TAUTOLOGICAL_CONSEQUENCE");
    assert("TAUTOLOGICAL_CONSEQUENCE"@.len() != "REPLACING_BOUND_VARS"@.len());
    assert(find_by_name(spec_all_rules(), "REPLACING_BOUND_VARS"@, 51) == find_by_name(spec_all_rules(), "REPLACING_BOUND_VARS"@, 52));
    reveal_strlit("QUANTIFIER_NEGATION");
    assert("QUANTIFIER_NEGATION"@.len() != "REPLACING_BOUND_VARS"@.len());
    assert(find_by_name(spec_all_rules(), "REPLACING_BOUND_VARS"@, 52) == find_by_name(spec_all_rules(), "REPLACING_BOUND_VARS"@, 53));
    reveal_strlit("NULL_QUANTIFICATION");
    assert("NULL_QUANTIFICATION"@.len() != "REPLACING_BOUND_VARS"@.len());
    assert(find_by_name(spec_all_rules(), "REPLACING_BOUND_VARS"@, 53) == find_by_name(spec_all_rules(), "REPLACING_BOUND_VARS"@, 54));
    assert(find_by_name(spec_all_rules(), "REPLACING_BOUND_VARS"@, 54) == Some(Rule::Quantifier(QuantifierEquivalence::ReplacingBoundVars)));
}

proof fn lemma_finds_swapping_quantifiers()
    ensures
        find_by_name(spec_all_rules(), "SWAPPING_QUANTIFIERS"@, 0) == Some(Rule::Quantifier(QuantifierEquivalence::SwappingQuantifiers)),
{
    reveal_strlit("SWAPPING_QUANTIFIERS");
    reveal_strlit("REITERATION");
    assert("REITERATION"@.len() != "SWAPPING_QUANTIFIERS"@.len());
    assert(find_by_name(spec_all_rules(), "SWAPPING_QUANTIFIERS"@, 0) == find_by_name(spec_all_rules(), "SWAPPING_QUANTIFIERS"@, 1));
    reveal_strlit("CONJUNCTION");
    assert("CONJUNCTION"@.len() != "SWAPPING_QUANTIFIERS"@.len());
    assert(find_by_name(spec_all_rules(), "SWAPPING_QUANTIFIERS"@, 1) == find_by_name(spec_all_rules(), "SWAPPING_QUANTIFIERS"@, 2));
    reveal_strlit("SIMPLIFICATION");
    assert("SIMPLIFICATION"@.len() != "SWAPPING_QUANTIFIERS"@.len());
    assert(find_by_name(spec_all_rules(), "SWAPPING_QUANTIFIERS"@, 2) == find_by_name(spec_all_rules(), "SWAPPING_QUANTIFIERS"@, 3));
    reveal_strlit("ADDITION");
    assert("ADDITION"@.len() != "SWAPPING_QUANTIFIERS"@.len());
    assert(find_by_name(spec_all_rules(), "SWAPPING_QUANTIFIERS"@, 3) == find_by_name(spec_all_rules(), "SWAPPING_QUANTIFIERS"@, 4));
    reveal_strlit("DISJUNCTIVE_SYLLOGISM");
    assert("DISJUNCTIVE_SYLLOGISM"@.len() != "SWAPPING_QUANTIFIERS"@.len());
    assert(find_by_name(spec_all_rules(), "SWAPPING_QUANTIFIERS"@, 4) == find_by_name(spec_all_rules(), "SWAPPING_QUANTIFIERS"@, 5));
    reveal_strlit("CONDITIONAL_PROOF");
    assert("CONDITIONAL_PROOF"@.len() != "SWAPPING_QUANTIFIERS"@.len());
    assert(find_by_name(spec_all_rules(), "SWAPPING_QUANTIFIERS"@, 5) == find_by_name(spec_all_rules(), "SWAPPING_QUANTIFIERS"@, 6));
    reveal_strlit("MODUS_PONENS");
    assert("MODUS_PONENS"@.len() != "SWAPPING_QUANTIFIERS"@.len());
    assert(find_by_name(spec_all_rules(), "SWAPPING_QUANTIFIERS"@, 6) == find_by_name(spec_all_rules(), "SWAPPING_QUANTIFIERS"@, 7));
    reveal_strlit("PROOF_BY_CONTRADICTION");
    assert("PROOF_BY_CONTRADICTION"@.len() != "SWAPPING_QUANTIFIERS"@.len());
    assert(find_by_name(spec_all_rules(), "SWAPPING_QUANTIFIERS"@, 7) == find_by_name(spec_all_rules(), "SWAPPING_QUANTIFIERS"@, 8));
    reveal_strlit("DOUBLENEGATION");
    assert("DOUBLENEGATION"@.len() != "SWAPPING_QUANTIFIERS"@.len());
    assert(find_by_name(spec_all_rules(), "SWAPPING_QUANTIFIERS"@, 8) == find_by_name(spec_all_rules(), "SWAPPING_QUANTIFIERS"@, 9));
    reveal_strlit("CONTRADICTION");
    assert("CONTRADICTION"@.len() != "SWAPPING_QUANTIFIERS"@.len());
    assert(find_by_name(spec_all_rules(), "SWAPPING_QUANTIFIERS"@, 9) == find_by_name(spec_all_rules(), "SWAPPING_QUANTIFIERS"@, 10));
    reveal_strlit("PRINCIPLE_OF_EXPLOSION");
    assert("PRINCIPLE_OF_EXPLOSION"@.len() != "SWAPPING_QUANTIFIERS"@.len());
    assert(find_by_name(spec_all_rules(), "SWAPPING_QUANTIFIERS"@, 10) == find_by_name(spec_all_rules(), "SWAPPING_QUANTIFIERS"@, 11));
    reveal_strlit("BICONDITIONAL_INTRO");
    assert("BICONDITIONAL_INTRO"@.len() != "SWAPPING_QUANTIFIERS"@.len());
    assert(find_by_name(spec_all_rules(), "SWAPPING_QUANTIFIERS"@, 11) == find_by_name(spec_all_rules(), "SWAPPING_QUANTIFIERS"@, 12));
    reveal_strlit("BICONDITIONAL_ELIM");
    assert("BICONDITIONAL_ELIM"@.len() != "SWAPPING_QUANTIFIERS"@.len());
    assert(find_by_name(spec_all_rules(), "SWAPPING_QUANTIFIERS"@, 12) == find_by_name(spec_all_rules(), "SWAPPING_QUANTIFIERS"@, 13));
    reveal_strlit("EQUIVALENCE_INTRO");
    assert("EQUIVALENCE_INTRO"@.len() != "SWAPPING_QUANTIFIERS"@.len());
    assert(find_by_name(spec_all_rules(), "SWAPPING_QUANTIFIERS"@, 13) == find_by_name(spec_all_rules(), "SWAPPING_QUANTIFIERS"@, 14));
    reveal_strlit("EQUIVALENCE_ELIM");
    assert("EQUIVALENCE_ELIM"@.len() != "SWAPPING_QUANTIFIERS"@.len());
    assert(find_by_name(spec_all_rules(), "SWAPPING_QUANTIFIERS"@, 14) == find_by_name(spec_all_rules(), "SWAPPING_QUANTIFIERS"@, 15));
    reveal_strlit("UNIVERSAL_GENERALIZATION");
    assert("UNIVERSAL_GENERALIZATION"@.len() != "SWAPPING_QUANTIFIERS"@.len());
    assert(find_by_name(spec_all_rules(), "SWAPPING_QUANTIFIERS"@, 15) == find_by_name(spec_all_rules(), "SWAPPING_QUANTIFIERS"@, 16));
    reveal_strlit("UNIVERSAL_INSTANTIATION");
    assert("UNIVERSAL_INSTANTIATION"@.len() != "SWAPPING_QUANTIFIERS"@.len());
    assert(find_by_name(spec_all_rules(), "SWAPPING_QUANTIFIERS"@, 16) == find_by_name(spec_all_rules(), "SWAPPING_QUANTIFIERS"@, 17));
    reveal_strlit("EXISTENTIAL_GENERALIZATION");
    assert("EXISTENTIAL_GENERALIZATION"@.len() != "SWAPPING_QUANTIFIERS"@.len());
    assert(find_by_name(spec_all_rules(), "SWAPPING_QUANTIFIERS"@, 17) == find_by_name(spec_all_rules(), "SWAPPING_QUANTIFIERS"@, 18));
    reveal_strlit("EXISTENTIAL_INSTANTIATION");
    assert("EXISTENTIAL_INSTANTIATION"@.len() != "SWAPPING_QUANTIFIERS"@.len());
    assert(find_by_name(spec_all_rules(), "SWAPPING_QUANTIFIERS"@, 18) == find_by_name(spec_all_rules(), "SWAPPING_QUANTIFIERS"@, 19));
    reveal_strlit("MODUS_TOLLENS");
    assert("MODUS_TOLLENS"@.len() != "SWAPPING_QUANTIFIERS"@.len());
    assert(find_by_name(spec_all_rules(), "SWAPPING_QUANTIFIERS"@, 19) == find_by_name(spec_all_rules(), "SWAPPING_QUANTIFIERS"@, 20));
    reveal_strlit("HYPOTHETICAL_SYLLOGISM");
    assert("HYPOTHETICAL_SYLLOGISM"@.len() != "SWAPPING_QUANTIFIERS"@.len());
    assert(find_by_name(spec_all_rules(), "SWAPPING_QUANTIFIERS"@, 20) == find_by_name(spec_all_rules(), "SWAPPING_QUANTIFIERS"@, 21));
    reveal_strlit("EXCLUDED_MIDDLE");
    assert("EXCLUDED_MIDDLE"@.len() != "SWAPPING_QUANTIFIERS"@.len());
    assert(find_by_name(spec_all_rules(), "SWAPPING_QUANTIFIERS"@, 21) == find_by_name(spec_all_rules(), "SWAPPING_QUANTIFIERS"@, 22));
    reveal_strlit("CONSTRUCTIVE_DILEMMA");
    assert("CONSTRUCTIVE_DILEMMA"@[0] != "SWAPPING_QUANTIFIERS"@[0]);
    assert(find_by_name(spec_all_rules(), "SWAPPING_QUANTIFIERS"@, 22) == find_by_name(spec_all_rules(), "SWAPPING_QUANTIFIERS"@, 23));
    reveal_strlit("ASSOCIATION");
    assert("ASSOCIATION"@.len() != "SWAPPING_QUANTIFIERS"@.len());
    assert(find_by_name(spec_all_rules(), "SWAPPING_QUANTIFIERS"@, 23) == find_by_name(spec_all_rules(), "SWAPPING_QUANTIFIERS"@, 24));
    reveal_strlit("COMMUTATION");
    assert("COMMUTATION"@.len() != "SWAPPING_QUANTIFIERS"@.len());
    assert(find_by_name(spec_all_rules(), "SWAPPING_QUANTIFIERS"@, 24) == find_by_name(spec_all_rules(), "SWAPPING_QUANTIFIERS"@, 25));
    reveal_strlit("IDEMPOTENCE");
    assert("IDEMPOTENCE"@.len() != "SWAPPING_QUANTIFIERS"@.len());
    assert(find_by_name(spec_all_rules(), "SWAPPING_QUANTIFIERS"@, 25) == find_by_name(spec_all_rules(), "SWAPPING_QUANTIFIERS"@, 26));
    reveal_strlit("DE_MORGAN");
    assert("DE_MORGAN"@.len() != "SWAPPING_QUANTIFIERS"@.len());
    assert(find_by_name(spec_all_rules(), "SWAPPING_QUANTIFIERS"@, 26) == find_by_name(spec_all_rules(), "SWAPPING_QUANTIFIERS"@, 27));
    reveal_strlit("DISTRIBUTION");
    assert("DISTRIBUTION"@.len() != "SWAPPING_QUANTIFIERS"@.len());
    assert(find_by_name(spec_all_rules(), "SWAPPING_QUANTIFIERS"@, 27) == find_by_name(spec_all_rules(), "SWAPPING_QUANTIFIERS"@, 28));
    reveal_strlit("DOUBLENEGATION_EQUIV");
    assert("DOUBLENEGATION_EQUIV"@[0] != "SWAPPING_QUANTIFIERS"@[0]);
    assert(find_by_name(spec_all_rules(), "SWAPPING_QUANTIFIERS"@, 28) == find_by_name(spec_all_rules(), "SWAPPING_QUANTIFIERS"@, 29));
    reveal_strlit("COMPLEMENT");
    assert("COMPLEMENT"@.len() != "SWAPPING_QUANTIFIERS"@.len());
    assert(find_by_name(spec_all_rules(), "SWAPPING_QUANTIFIERS"@, 29) == find_by_name(spec_all_rules(), "SWAPPING_QUANTIFIERS"@, 30));
    reveal_strlit("IDENTITY");
    assert("IDENTITY"@.len() != "SWAPPING_QUANTIFIERS"@.len());
    assert(find_by_name(spec_all_rules(), "SWAPPING_QUANTIFIERS"@, 30) == find_by_name(spec_all_rules(), "SWAPPING_QUANTIFIERS"@, 31));
    reveal_strlit("ANNIHILATION");
    assert("ANNIHILATION"@.len() != "SWAPPING_QUANTIFIERS"@.len());
    assert(find_by_name(spec_all_rules(), "SWAPPING_QUANTIFIERS"@, 31) == find_by_name(spec_all_rules(), "SWAPPING_QUANTIFIERS"@, 32));
    reveal_strlit("INVERSE");
    assert("INVERSE"@.len() != "SWAPPING_QUANTIFIERS"@.len());
    assert(find_by_name(spec_all_rules(), "SWAPPING_QUANTIFIERS"@, 32) == find_by_name(spec_all_rules(), "SWAPPING_QUANTIFIERS"@, 33));
    reveal_strlit("ABSORPTION");
    assert("ABSORPTION"@.len() != "SWAPPING_QUANTIFIERS"@.len());
    assert(find_by_name(spec_all_rules(), "SWAPPING_QUANTIFIERS"@, 33) == find_by_name(spec_all_rules(), "SWAPPING_QUANTIFIERS"@, 34));
    reveal_strlit("REDUCTION");
    assert("REDUCTION"@.len() != "SWAPPING_QUANTIFIERS"@.len());
    assert(find_by_name(spec_all_rules(), "SWAPPING_QUANTIFIERS"@, 34) == find_by_name(spec_all_rules(), "SWAPPING_QUANTIFIERS"@, 35));
    reveal_strlit("ADJACENCY");
    assert("ADJACENCY"@.len() != "SWAPPING_QUANTIFIERS"@.len());
    assert(find_by_name(spec_all_rules(), "SWAPPING_QUANTIFIERS"@, 35) == find_by_name(spec_all_rules(), "SWAPPING_QUANTIFIERS"@, 36));
    reveal_strlit("CONDITIONAL_COMPLEMENT");
    assert("CONDITIONAL_COMPLEMENT"@.len() != "SWAPPING_QUANTIFIERS"@.len());
    assert(find_by_name(spec_all_rules(), "SWAPPING_QUANTIFIERS"@, 36) == find_by_name(spec_all_rules(), "SWAPPING_QUANTIFIERS"@, 37));
    reveal_strlit("CONDITIONAL_IDENTITY");
    assert("CONDITIONAL_IDENTITY"@[0] != "SWAPPING_QUANTIFIERS"@[0]);
    assert(find_by_name(spec_all_rules(), "SWAPPING_QUANTIFIERS"@, 37) == find_by_name(spec_all_rules(), "SWAPPING_QUANTIFIERS"@, 38));
    reveal_strlit("CONDITIONAL_ANNIHILATION");
    assert("CONDITIONAL_ANNIHILATION"@.len() != "SWAPPING_QUANTIFIERS"@.len());
    assert(find_by_name(spec_all_rules(), "SWAPPING_QUANTIFIERS"@, 38) == find_by_name(spec_all_rules(), "SWAPPING_QUANTIFIERS"@, 39));
    reveal_strlit("IMPLICATION");
    assert("IMPLICATION"@.len() != "SWAPPING_QUANTIFIERS"@.len());
    assert(find_by_name(spec_all_rules(), "SWAPPING_QUANTIFIERS"@, 39) == find_by_name(spec_all_rules(), "SWAPPING_QUANTIFIERS"@, 40));
    reveal_strlit("BI_IMPLICATION");
    assert("BI_IMPLICATION"@.len() != "SWAPPING_QUANTIFIERS"@.len());
    assert(find_by_name(spec_all_rules(), "SWAPPING_QUANTIFIERS"@, 40) == find_by_name(spec_all_rules(), "SWAPPING_QUANTIFIERS"@, 41));
    reveal_strlit("CONTRAPOSITION");
    assert("CONTRAPOSITION"@.len() != "SWAPPING_QUANTIFIERS"@.len());
    assert(find_by_name(spec_all_rules(), "SWAPPING_QUANTIFIERS"@, 41) == find_by_name(spec_all_rules(), "SWAPPING_QUANTIFIERS"@, 42));
    reveal_strlit("CURRYING");
    assert("CURRYING"@.len() != "SWAPPING_QUANTIFIERS"@.len());
    assert(find_by_name(spec_all_rules(), "SWAPPING_QUANTIFIERS"@, 42) == find_by_name(spec_all_rules(), "SWAPPING_QUANTIFIERS"@, 43));
    reveal_strlit("CONDITIONAL_DISTRIBUTION");
    assert("CONDITIONAL_DISTRIBUTION"@.len() != "SWAPPING_QUANTIFIERS"@.len());
    assert(find_by_name(spec_all_rules(), "SWAPPING_QUANTIFIERS"@, 43) == find_by_name(spec_all_rules(), "SWAPPING_QUANTIFIERS"@, 44));
    reveal_strlit("CONDITIONAL_REDUCTION");
    assert("CONDITIONAL_REDUCTION"@.len() != "SWAPPING_QUANTIFIERS"@.len());
    assert(find_by_name(spec_all_rules(), "SWAPPING_QUANTIFIERS"@, 44) == find_by_name(spec_all_rules(), "SWAPPING_QUANTIFIERS"@, 45));
    reveal_strlit("KNIGHTS_AND_KNAVES");
    assert("KNIGHTS_AND_KNAVES"@.len() != "SWAPPING_QUANTIFIERS"@.len());
    assert(find_by_name(spec_all_rules(), "SWAPPING_QUANTIFIERS"@, 45) == find_by_name(spec_all_rules(), "SWAPPING_QUANTIFIERS"@, 46));
    reveal_strlit("CONDITIONAL_IDEMPOTENCE");
    assert("CONDITIONAL_IDEMPOTENCE"@.len() != "SWAPPING_QUANTIFIERS"@.len());
    assert(find_by_name(spec_all_rules(), "SWAPPING_QUANTIFIERS"@, 46) == find_by_name(spec_all_rules(), "SWAPPING_QUANTIFIERS"@, 47));
    reveal_strlit("BICONDITIONAL_NEGATION");
    assert("BICONDITIONAL_NEGATION"@.len() != "SWAPPING_QUANTIFIERS"@.len());
    assert(find_by_name(spec_all_rules(), "SWAPPING_QUANTIFIERS"@, 47) == find_by_name(spec_all_rules(), "SWAPPING_QUANTIFIERS"@, 48));
    reveal_strlit("BICONDITIONAL_SUBSTITUTION");
    assert("BICONDITIONAL_SUBSTITUTION"@.len() != "SWAPPING_QUANTIFIERS"@.len());
    assert(find_by_name(spec_all_rules(), "SWAPPING_QUANTIFIERS"@, 48) == find_by_name(spec_all_rules(), "SWAPPING_QUANTIFIERS"@, 49));
    reveal_strlit("ASYMMETRIC_TAUTOLOGY");
    assert("ASYMMETRIC_TAUTOLOGY"@[0] != "SWAPPING_QUANTIFIERS"@[0]);
    assert(find_by_name(spec_all_rules(), "SWAPPING_QUANTIFIERS"@, 49) == find_by_name(spec_all_rules(), "SWAPPING_QUANTIFIERS"@, 50));
    reveal_strlit("RESOLUTION");
    assert("RESOLUTION"@.len() != "SWAPPING_QUANTIFIERS"@.len());
    assert(find_by_name(spec_all_rules(), "SWAPPING_QUANTIFIERS"@, 50) == find_by_name(spec_all_rules(), "SWAPPING_QUANTIFIERS"@, 51));
    reveal_strlit("TAUTOLOGICAL_CONSEQUENCE");
    assert("TAUTOLOGICAL_CONSEQUENCE"@.len() != "SWAPPING_QUANTIFIERS"@.len());
    assert(find_by_name(spec_all_rules(), "SWAPPING_QUANTIFIERS"@, 51) == find_by_name(spec_all_rules(), "SWAPPING_QUANTIFIERS"@, 52));
    reveal_strlit("QUANTIFIER_NEGATION");
    assert("QUANTIFIER_NEGATION"@.len() != "SWAPPING_QUANTIFIERS"@.len());
    assert(find_by_name(spec_all_rules(), "SWAPPING_QUANTIFIERS"@, 52) == find_by_name(spec_all_rules(), "SWAPPING_QUANTIFIERS"@, 53));
    reveal_strlit("NULL_QUANTIFICATION");
    assert("NULL_QUANTIFICATION"@.len() != "SWAPPING_QUANTIFIERS"@.len());
    assert(find_by_name(spec_all_rules(), "SWAPPING_QUANTIFIERS"@, 53) == find_by_name(spec_all_rules(), "SWAPPING_QUANTIFIERS"@, 54));
    reveal_strlit("REPLACING_BOUND_VARS");
    assert("REPLACING_BOUND_VARS"@[0] != "SWAPPING_QUANTIFIERS"@[0]);
    assert(find_by_name(spec_all_rules(), "SWAPPING_QUANTIFIERS"@, 54) == find_by_name(spec_all_rules(), "SWAPPING_QUANTIFIERS"@, 55));
    assert(find_by_name(spec_all_rules(), "SWAPPING_QUANTIFIERS"@, 55) == Some(Rule::Quantifier(QuantifierEquivalence::SwappingQuantifiers)));
}

proof fn lemma_finds_aristotelean_square()
    ensures
        find_by_name(spec_all_rules(), "ARISTOTELEAN_SQUARE"@, 0) == Some(Rule::Quantifier(QuantifierEquivalence::AristoteleanSquare)),
{
    reveal_strlit("ARISTOTELEAN_SQUARE");
    reveal_strlit("REITERATION");
    assert("REITERATION"@.len() != "ARISTOTELEAN_SQUARE"@.len());
    assert(find_by_name(spec_all_rules(), "ARISTOTELEAN_SQUARE"@, 0) == find_by_name(spec_all_rules(), "ARISTOTELEAN_SQUARE"@, 1));
    reveal_strlit("CONJUNCTION");
    assert("CONJUNCTION"@.len() != "ARISTOTELEAN_SQUARE"@.len());
    assert(find_by_name(spec_all_rules(), "ARISTOTELEAN_SQUARE"@, 1) == find_by_name(spec_all_rules(), "ARISTOTELEAN_SQUARE"@, 2));
    reveal_strlit("SIMPLIFICATION");
    assert("SIMPLIFICATION"@.len() != "ARISTOTELEAN_SQUARE"@.len());
    assert(find_by_name(spec_all_rules(), "ARISTOTELEAN_SQUARE"@, 2) == find_by_name(spec_all_rules(), "ARISTOTELEAN_SQUARE"@, 3));
    reveal_strlit("ADDITION");
    assert("ADDITION"@.len() != "ARISTOTELEAN_SQUARE"@.len());
    assert(find_by_name(spec_all_rules(), "ARISTOTELEAN_SQUARE"@, 3) == find_by_name(spec_all_rules(), "ARISTOTELEAN_SQUARE"@, 4));
    reveal_strlit("DISJUNCTIVE_SYLLOGISM");
    assert("DISJUNCTIVE_SYLLOGISM"@.len() != "ARISTOTELEAN_SQUARE"@.len());
    assert(find_by_name(spec_all_rules(), "ARISTOTELEAN_SQUARE"@, 4) == find_by_name(spec_all_rules(), "ARISTOTELEAN_SQUARE"@, 5));
    reveal_strlit("CONDITIONAL_PROOF");
    assert("CONDITIONAL_PROOF"@.len() != "ARISTOTELEAN_SQUARE"@.len());
    assert(find_by_name(spec_all_rules(), "ARISTOTELEAN_SQUARE"@, 5) == find_by_name(spec_all_rules(), "ARISTOTELEAN_SQUARE"@, 6));
    reveal_strlit("MODUS_PONENS");
    assert("MODUS_PONENS"@.len() != "ARISTOTELEAN_SQUARE"@.len());
    assert(find_by_name(spec_all_rules(), "ARISTOTELEAN_SQUARE"@, 6) == find_by_name(spec_all_rules(), "ARISTOTELEAN_SQUARE"@, 7));
    reveal_strlit("PROOF_BY_CONTRADICTION");
    assert("PROOF_BY_CONTRADICTION"@.len() != "ARISTOTELEAN_SQUARE"@.len());
    assert(find_by_name(spec_all_rules(), "ARISTOTELEAN_SQUARE"@, 7) == find_by_name(spec_all_rules(), "ARISTOTELEAN_SQUARE"@, 8));
    reveal_strlit("DOUBLENEGATION");
    assert("DOUBLENEGATION"@.len() != "ARISTOTELEAN_SQUARE"@.len());
    assert(find_by_name(spec_all_rules(), "ARISTOTELEAN_SQUARE"@, 8) == find_by_name(spec_all_rules(), "ARISTOTELEAN_SQUARE"@, 9));
    reveal_strlit("CONTRADICTION");
    assert("CONTRADICTION"@.len() != "ARISTOTELEAN_SQUARE"@.len());
    assert(find_by_name(spec_all_rules(), "ARISTOTELEAN_SQUARE"@, 9) == find_by_name(spec_all_rules(), "ARISTOTELEAN_SQUARE"@, 10));
    reveal_strlit("PRINCIPLE_OF_EXPLOSION");
    assert("PRINCIPLE_OF_EXPLOSION"@.len() != "ARISTOTELEAN_SQUARE"@.len());
    assert(find_by_name(spec_all_rules(), "ARISTOTELEAN_SQUARE"@, 10) == find_by_name(spec_all_rules(), "ARISTOTELEAN_SQUARE"@, 11));
    reveal_strlit("BICONDITIONAL_INTRO");
    assert("BICONDITIONAL_INTRO"@[0] != "ARISTOTELEAN_SQUARE"@[0]);
    assert(find_by_name(spec_all_rules(), "ARISTOTELEAN_SQUARE"@, 11) == find_by_name(spec_all_rules(), "ARISTOTELEAN_SQUARE"@, 12));
    reveal_strlit("BICONDITIONAL_ELIM");
    assert("BICONDITIONAL_ELIM"@.len() != "ARISTOTELEAN_SQUARE"@.len());
    assert(find_by_name(spec_all_rules(), "ARISTOTELEAN_SQUARE"@, 12) == find_by_name(spec_all_rules(), "ARISTOTELEAN_SQUARE"@, 13));
    reveal_strlit("EQUIVALENCE_INTRO");
    assert("EQUIVALENCE_INTRO"@.len() != "ARISTOTELEAN_SQUARE"@.len());
    assert(find_by_name(spec_all_rules(), "ARISTOTELEAN_SQUARE"@, 13) == find_by_name(spec_all_rules(), "ARISTOTELEAN_SQUARE"@, 14));
    reveal_strlit("EQUIVALENCE_ELIM");
    assert("EQUIVALENCE_ELIM"@.len() != "ARISTOTELEAN_SQUARE"@.len());
    assert(find_by_name(spec_all_rules(), "ARISTOTELEAN_SQUARE"@, 14) == find_by_name(spec_all_rules(), "ARISTOTELEAN_SQUARE"@, 15));
    reveal_strlit("UNIVERSAL_GENERALIZATION");
    assert("UNIVERSAL_GENERALIZATION"@.len() != "ARISTOTELEAN_SQUARE"@.len());
    assert(find_by_name(spec_all_rules(), "ARISTOTELEAN_SQUARE"@, 15) == find_by_name(spec_all_rules(), "ARISTOTELEAN_SQUARE"@, 16));
    reveal_strlit("UNIVERSAL_INSTANTIATION");
    assert("UNIVERSAL_INSTANTIATION"@.len() != "ARISTOTELEAN_SQUARE"@.len());
    assert(find_by_name(spec_all_rules(), "ARISTOTELEAN_SQUARE"@, 16) == find_by_name(spec_all_rules(), "ARISTOTELEAN_SQUARE"@, 17));
    reveal_strlit("EXISTENTIAL_GENERALIZATION");
    assert("EXISTENTIAL_GENERALIZATION"@.len() != "ARISTOTELEAN_SQUARE"@.len());
    assert(find_by_name(spec_all_rules(), "ARISTOTELEAN_SQUARE"@, 17) == find_by_name(spec_all_rules(), "ARISTOTELEAN_SQUARE"@, 18));
    reveal_strlit("EXISTENTIAL_INSTANTIATION");
    assert("EXISTENTIAL_INSTANTIATION"@.len() != "ARISTOTELEAN_SQUARE"@.len());
    assert(find_by_name(spec_all_rules(), "ARISTOTELEAN_SQUARE"@, 18) == find_by_name(spec_all_rules(), "ARISTOTELEAN_SQUARE"@, 19));
    reveal_strlit("MODUS_TOLLENS");
    assert("MODUS_TOLLENS"@.len() != "ARISTOTELEAN_SQUARE"@.len());
    assert(find_by_name(spec_all_rules(), "ARISTOTELEAN_SQUARE"@, 19) == find_by_name(spec_all_rules(), "ARISTOTELEAN_SQUARE"@, 20));
    reveal_strlit("HYPOTHETICAL_SYLLOGISM");
    assert("HYPOTHETICAL_SYLLOGISM"@.len() != "ARISTOTELEAN_SQUARE"@.len());
    assert(find_by_name(spec_all_rules(), "ARISTOTELEAN_SQUARE"@, 20) == find_by_name(spec_all_rules(), "ARISTOTELEAN_SQUARE"@, 21));
    reveal_strlit("EXCLUDED_MIDDLE");
    assert("EXCLUDED_MIDDLE"@.len() != "ARISTOTELEAN_SQUARE"@.len());
    assert(find_by_name(spec_all_rules(), "ARISTOTELEAN_SQUARE"@, 21) == find_by_name(spec_all_rules(), "ARISTOTELEAN_SQUARE"@, 22));
    reveal_strlit("CONSTRUCTIVE_DILEMMA");
    assert("CONSTRUCTIVE_DILEMMA"@.len() != "ARISTOTELEAN_SQUARE"@.len());
    assert(find_by_name(spec_all_rules(), "ARISTOTELEAN_SQUARE"@, 22) == find_by_name(spec_all_rules(), "ARISTOTELEAN_SQUARE"@, 23));
    reveal_strlit("ASSOCIATION");
    assert("ASSOCIATION"@.len() != "ARISTOTELEAN_SQUARE"@.len());
    assert(find_by_name(spec_all_rules(), "ARISTOTELEAN_SQUARE"@, 23) == find_by_name(spec_all_rules(), "ARISTOTELEAN_SQUARE"@, 24));
    reveal_strlit("COMMUTATION");
    assert("COMMUTATION"@.len() != "ARISTOTELEAN_SQUARE"@.len());
    assert(find_by_name(spec_all_rules(), "ARISTOTELEAN_SQUARE"@, 24) == find_by_name(spec_all_rules(), "ARISTOTELEAN_SQUARE"@, 25));
    reveal_strlit("IDEMPOTENCE");
    assert("IDEMPOTENCE"@.len() != "ARISTOTELEAN_SQUARE"@.len());
    assert(find_by_name(spec_all_rules(), "ARISTOTELEAN_SQUARE"@, 25) == find_by_name(spec_all_rules(), "ARISTOTELEAN_SQUARE"@, 26));
    reveal_strlit("DE_MORGAN");
    assert("DE_MORGAN"@.len() != "ARISTOTELEAN_SQUARE"@.len());
    assert(find_by_name(spec_all_rules(), "ARISTOTELEAN_SQUARE"@, 26) == find_by_name(spec_all_rules(), "ARISTOTELEAN_SQUARE"@, 27));
    reveal_strlit("DISTRIBUTION");
    assert("DISTRIBUTION"@.len() != "ARISTOTELEAN_SQUARE"@.len());
    assert(find_by_name(spec_all_rules(), "ARISTOTELEAN_SQUARE"@, 27) == find_by_name(spec_all_rules(), "ARISTOTELEAN_SQUARE"@, 28));
    reveal_strlit("DOUBLENEGATION_EQUIV");
    assert("DOUBLENEGATION_EQUIV"@.len() != "ARISTOTELEAN_SQUARE"@.len());
    assert(find_by_name(spec_all_rules(), "ARISTOTELEAN_SQUARE"@, 28) == find_by_name(spec_all_rules(), "ARISTOTELEAN_SQUARE"@, 29));
    reveal_strlit("COMPLEMENT");
    assert("COMPLEMENT"@.len() != "ARISTOTELEAN_SQUARE"@.len());
    assert(find_by_name(spec_all_rules(), "ARISTOTELEAN_SQUARE"@, 29) == find_by_name(spec_all_rules(), "ARISTOTELEAN_SQUARE"@, 30));
    reveal_strlit("IDENTITY");
    assert("IDENTITY"@.len() != "ARISTOTELEAN_SQUARE"@.len());
    assert(find_by_name(spec_all_rules(), "ARISTOTELEAN_SQUARE"@, 30) == find_by_name(spec_all_rules(), "ARISTOTELEAN_SQUARE"@, 31));
    reveal_strlit("ANNIHILATION");
    assert("ANNIHILATION"@.len() != "ARISTOTELEAN_SQUARE"@.len());
    assert(find_by_name(spec_all_rules(), "ARISTOTELEAN_SQUARE"@, 31) == find_by_name(spec_all_rules(), "ARISTOTELEAN_SQUARE"@, 32));
    reveal_strlit("INVERSE");
    assert("INVERSE"@.len() != "ARISTOTELEAN_SQUARE"@.len());
    assert(find_by_name(spec_all_rules(), "ARISTOTELEAN_SQUARE"@, 32) == find_by_name(spec_all_rules(), "ARISTOTELEAN_SQUARE"@, 33));
    reveal_strlit("ABSORPTION");
    assert("ABSORPTION"@.len() != "ARISTOTELEAN_SQUARE"@.len());
    assert(find_by_name(spec_all_rules(), "ARISTOTELEAN_SQUARE"@, 33) == find_by_name(spec_all_rules(), "ARISTOTELEAN_SQUARE"@, 34));
    reveal_strlit("REDUCTION");
    assert("REDUCTION"@.len() != "ARISTOTELEAN_SQUARE"@.len());
    assert(find_by_name(spec_all_rules(), "ARISTOTELEAN_SQUARE"@, 34) == find_by_name(spec_all_rules(), "ARISTOTELEAN_SQUARE"@, 35));
    reveal_strlit("ADJACENCY");
    assert("ADJACENCY"@.len() != "ARISTOTELEAN_SQUARE"@.len());
    assert(find_by_name(spec_all_rules(), "ARISTOTELEAN_SQUARE"@, 35) == find_by_name(spec_all_rules(), "ARISTOTELEAN_SQUARE"@, 36));
    reveal_strlit("CONDITIONAL_COMPLEMENT");
    assert("CONDITIONAL_COMPLEMENT"@.len() != "ARISTOTELEAN_SQUARE"@.len());
    assert(find_by_name(spec_all_rules(), "ARISTOTELEAN_SQUARE"@, 36) == find_by_name(spec_all_rules(), "ARISTOTELEAN_SQUARE"@, 37));
    reveal_strlit("CONDITIONAL_IDENTITY");
    assert("CONDITIONAL_IDENTITY"@.len() != "ARISTOTELEAN_SQUARE"@.len());
    assert(find_by_name(spec_all_rules(), "ARISTOTELEAN_SQUARE"@, 37) == find_by_name(spec_all_rules(), "ARISTOTELEAN_SQUARE"@, 38));
    reveal_strlit("CONDITIONAL_ANNIHILATION");
    assert("CONDITIONAL_ANNIHILATION"@.len() != "ARISTOTELEAN_SQUARE"@.len());
    assert(find_by_name(spec_all_rules(), "ARISTOTELEAN_SQUARE"@, 38) == find_by_name(spec_all_rules(), "ARISTOTELEAN_SQUARE"@, 39));
    reveal_strlit("IMPLICATION");
    assert("IMPLICATION"@.len() != "ARISTOTELEAN_SQUARE"@.len());
    assert(find_by_name(spec_all_rules(), "ARISTOTELEAN_SQUARE"@, 39) == find_by_name(spec_all_rules(), "ARISTOTELEAN_SQUARE"@, 40));
    reveal_strlit("BI_IMPLICATION");
    assert("BI_IMPLICATION"@.len() != "ARISTOTELEAN_SQUARE"@.len());
    assert(find_by_name(spec_all_rules(), "ARISTOTELEAN_SQUARE"@, 40) == find_by_name(spec_all_rules(), "ARISTOTELEAN_SQUARE"@, 41));
    reveal_strlit("CONTRAPOSITION");
    assert("CONTRAPOSITION"@.len() != "ARISTOTELEAN_SQUARE"@.len());
    assert(find_by_name(spec_all_rules(), "ARISTOTELEAN_SQUARE"@, 41) == find_by_name(spec_all_rules(), "ARISTOTELEAN_SQUARE"@, 42));
    reveal_strlit("CURRYING");
    assert("CURRYING"@.len() != "ARISTOTELEAN_SQUARE"@.len());
    assert(find_by_name(spec_all_rules(), "ARISTOTELEAN_SQUARE"@, 42) == find_by_name(spec_all_rules(), "ARISTOTELEAN_SQUARE"@, 43));
    reveal_strlit("CONDITIONAL_DISTRIBUTION");
    assert("CONDITIONAL_DISTRIBUTION"@.len() != "ARISTOTELEAN_SQUARE"@.len());
    assert(find_by_name(spec_all_rules(), "ARISTOTELEAN_SQUARE"@, 43) == find_by_name(spec_all_rules(), "ARISTOTELEAN_SQUARE"@, 44));
    reveal_strlit("CONDITIONAL_REDUCTION");
    assert("CONDITIONAL_REDUCTION"@.len() != "ARISTOTELEAN_SQUARE"@.len());
    assert(find_by_name(spec_all_rules(), "ARISTOTELEAN_SQUARE"@, 44) == find_by_name(spec_all_rules(), "ARISTOTELEAN_SQUARE"@, 45));
    reveal_strlit("KNIGHTS_AND_KNAVES");
    assert("KNIGHTS_AND_KNAVES"@.len() != "ARISTOTELEAN_SQUARE"@.len());
    assert(find_by_name(spec_all_rules(), "ARISTOTELEAN_SQUARE"@, 45) == find_by_name(spec_all_rules(), "ARISTOTELEAN_SQUARE"@, 46));
    reveal_strlit("CONDITIONAL_IDEMPOTENCE");
    assert("CONDITIONAL_IDEMPOTENCE"@.len() != "ARISTOTELEAN_SQUARE"@.len());
    assert(find_by_name(spec_all_rules(), "ARISTOTELEAN_SQUARE"@, 46) == find_by_name(spec_all_rules(), "ARISTOTELEAN_SQUARE"@, 47));
    reveal_strlit("BICONDITIONAL_NEGATION");
    assert("BICONDITIONAL_NEGATION"@.len() != "ARISTOTELEAN_SQUARE"@.len());
    assert(find_by_name(spec_all_rules(), "ARISTOTELEAN_SQUARE"@, 47) == find_by_name(spec_all_rules(), "ARISTOTELEAN_SQUARE"@, 48));
    reveal_strlit("BICONDITIONAL_SUBSTITUTION");
    assert("BICONDITIONAL_SUBSTITUTION"@.len() != "ARISTOTELEAN_SQUARE"@.len());
    assert(find_by_name(spec_all_rules(), "ARISTOTELEAN_SQUARE"@, 48) == find_by_name(spec_all_rules(), "ARISTOTELEAN_SQUARE"@, 49));
    reveal_strlit("ASYMMETRIC_TAUTOLOGY");
    assert("ASYMMETRIC_TAUTOLOGY"@.len() != "ARISTOTELEAN_SQUARE"@.len());
    assert(find_by_name(spec_all_rules(), "ARISTOTELEAN_SQUARE"@, 49) == find_by_name(spec_all_rules(), "ARISTOTELEAN_SQUARE"@, 50));
    reveal_strlit("RESOLUTION");
    assert("RESOLUTION"@.len() != "ARISTOTELEAN_SQUARE"@.len());
    assert(find_by_name(spec_all_rules(), "ARISTOTELEAN_SQUARE"@, 50) == find_by_name(spec_all_rules(), "ARISTOTELEAN_SQUARE"@, 51));
    reveal_strlit("TAUTOLOGICAL_CONSEQUENCE");
    assert("TAUTOLOGICAL_CONSEQUENCE"@.len() != "ARISTOTELEAN_SQUARE"@.len());
    assert(find_by_name(spec_all_rules(), "ARISTOTELEAN_SQUARE"@, 51) == find_by_name(spec_all_rules(), "ARISTOTELEAN_SQUARE"@, 52));
    reveal_strlit("QUANTIFIER_NEGATION");
    assert("QUANTIFIER_NEGATION"@[0] != "ARISTOTELEAN_SQUARE"@[0]);
    assert(find_by_name(spec_all_rules(), "ARISTOTELEAN_SQUARE"@, 52) == find_by_name(spec_all_rules(), "ARISTOTELEAN_SQUARE"@, 53));
    reveal_strlit("NULL_QUANTIFICATION");
    assert("NULL_QUANTIFICATION"@[0] != "ARISTOTELEAN_SQUARE"@[0]);
    assert(find_by_name(spec_all_rules(), "ARISTOTELEAN_SQUARE"@, 53) == find_by_name(spec_all_rules(), "ARISTOTELEAN_SQUARE"@, 54));
    reveal_strlit("REPLACING_BOUND_VARS");
    assert("REPLACING_BOUND_VARS"@.len() != "ARISTOTELEAN_SQUARE"@.len());
    assert(find_by_name(spec_all_rules(), "ARISTOTELEAN_SQUARE"@, 54) == find_by_name(spec_all_rules(), "ARISTOTELEAN_SQUARE"@, 55));
    reveal_strlit("SWAPPING_QUANTIFIERS");
    assert("SWAPPING_QUANTIFIERS"@.len() != "ARISTOTELEAN_SQUARE"@.len());
    assert(find_by_name(spec_all_rules(), "ARISTOTELEAN_SQUARE"@, 55) == find_by_name(spec_all_rules(), "ARISTOTELEAN_SQUARE"@, 56));
    assert(find_by_name(spec_all_rules(), "ARISTOTELEAN_SQUARE"@, 56) == Some(Rule::Quantifier(QuantifierEquivalence::AristoteleanSquare)));
}

proof fn lemma_finds_quantifier_distribution()
    ensures
        find_by_name(spec_all_rules(), "QUANTIFIER_DISTRIBUTION"@, 0) == Some(Rule::Quantifier(QuantifierEquivalence::QuantifierDistribution)),
{
    reveal_strlit("QUANTIFIER_DISTRIBUTION");
    reveal_strlit("REITERATION");
    assert("REITERATION"@.len() != "QUANTIFIER_DISTRIBUTION"@.len());
    assert(find_by_name(spec_all_rules(), "QUANTIFIER_DISTRIBUTION"@, 0) == find_by_name(spec_all_rules(), "QUANTIFIER_DISTRIBUTION"@, 1));
    reveal_strlit("CONJUNCTION");
    assert("CONJUNCTION"@.len() != "QUANTIFIER_DISTRIBUTION"@.len());
    assert(find_by_name(spec_all_rules(), "QUANTIFIER_DISTRIBUTION"@, 1) == find_by_name(spec_all_rules(), "QUANTIFIER_DISTRIBUTION"@, 2));
    reveal_strlit("SIMPLIFICATION");
    assert("SIMPLIFICATION"@.len() != "QUANTIFIER_DISTRIBUTION"@.len());
    assert(find_by_name(spec_all_rules(), "QUANTIFIER_DISTRIBUTION"@, 2) == find_by_name(spec_all_rules(), "QUANTIFIER_DISTRIBUTION"@, 3));
    reveal_strlit("ADDITION");
    assert("ADDITION"@.len() != "QUANTIFIER_DISTRIBUTION"@.len());
    assert(find_by_name(spec_all_rules(), "QUANTIFIER_DISTRIBUTION"@, 3) == find_by_name(spec_all_rules(), "QUANTIFIER_DISTRIBUTION"@, 4));
    reveal_strlit("DISJUNCTIVE_SYLLOGISM");
    assert("DISJUNCTIVE_SYLLOGISM"@.len() != "QUANTIFIER_DISTRIBUTION"@.len());
    assert(find_by_name(spec_all_rules(), "QUANTIFIER_DISTRIBUTION"@, 4) == find_by_name(spec_all_rules(), "QUANTIFIER_DISTRIBUTION"@, 5));
    reveal_strlit("CONDITIONAL_PROOF");
    assert("CONDITIONAL_PROOF"@.len() != "QUANTIFIER_DISTRIBUTION"@.len());
    assert(find_by_name(spec_all_rules(), "QUANTIFIER_DISTRIBUTION"@, 5) == find_by_name(spec_all_rules(), "QUANTIFIER_DISTRIBUTION"@, 6));
    reveal_strlit("MODUS_PONENS");
    assert("MODUS_PONENS"@.len() != "QUANTIFIER_DISTRIBUTION"@.len());
    assert(find_by_name(spec_all_rules(), "QUANTIFIER_DISTRIBUTION"@, 6) == find_by_name(spec_all_rules(), "QUANTIFIER_DISTRIBUTION"@, 7));
    reveal_strlit("PROOF_BY_CONTRADICTION");
    assert("PROOF_BY_CONTRADICTION"@.len() != "QUANTIFIER_DISTRIBUTION"@.len());
    assert(find_by_name(spec_all_rules(), "QUANTIFIER_DISTRIBUTION"@, 7) == find_by_name(spec_all_rules(), "QUANTIFIER_DISTRIBUTION"@, 8));
    reveal_strlit("DOUBLENEGATION");
    assert("DOUBLENEGATION"@.len() != "QUANTIFIER_DISTRIBUTION"@.len());
    assert(find_by_name(spec_all_rules(), "QUANTIFIER_DISTRIBUTION"@, 8) == find_by_name(spec_all_rules(), "QUANTIFIER_DISTRIBUTION"@, 9));
    reveal_strlit("CONTRADICTION");
    assert("CONTRADICTION"@.len() != "QUANTIFIER_DISTRIBUTION"@.len());
    assert(find_by_name(spec_all_rules(), "QUANTIFIER_DISTRIBUTION"@, 9) == find_by_name(spec_all_rules(), "QUANTIFIER_DISTRIBUTION"@, 10));
    reveal_strlit("PRINCIPLE_OF_EXPLOSION");
    assert("PRINCIPLE_OF_EXPLOSION"@.len() != "QUANTIFIER_DISTRIBUTION"@.len());
    assert(find_by_name(spec_all_rules(), "QUANTIFIER_DISTRIBUTION"@, 10) == find_by_name(spec_all_rules(), "QUANTIFIER_DISTRIBUTION"@, 11));
    reveal_strlit("BICONDITIONAL_INTRO");
    assert("BICONDITIONAL_INTRO"@.len() != "QUANTIFIER_DISTRIBUTION"@.len());
    assert(find_by_name(spec_all_rules(), "QUANTIFIER_DISTRIBUTION"@, 11) == find_by_name(spec_all_rules(), "QUANTIFIER_DISTRIBUTION"@, 12));
    reveal_strlit("BICONDITIONAL_ELIM");
    assert("BICONDITIONAL_ELIM"@.len() != "QUANTIFIER_DISTRIBUTION"@.len());
    assert(find_by_name(spec_all_rules(), "QUANTIFIER_DISTRIBUTION"@, 12) == find_by_name(spec_all_rules(), "QUANTIFIER_DISTRIBUTION"@, 13));
    reveal_strlit("EQUIVALENCE_INTRO");
    assert("EQUIVALENCE_INTRO"@.len() != "QUANTIFIER_DISTRIBUTION"@.len());
    assert(find_by_name(spec_all_rules(), "QUANTIFIER_DISTRIBUTION"@, 13) == find_by_name(spec_all_rules(), "QUANTIFIER_DISTRIBUTION"@, 14));
    reveal_strlit("EQUIVALENCE_ELIM");
    assert("EQUIVALENCE_ELIM"@.len() != "QUANTIFIER_DISTRIBUTION"@.len());
    assert(find_by_name(spec_all_rules(), "QUANTIFIER_DISTRIBUTION"@, 14) == find_by_name(spec_all_rules(), "QUANTIFIER_DISTRIBUTION"@, 15));
    reveal_strlit("UNIVERSAL_GENERALIZATION");
    assert("UNIVERSAL_GENERALIZATION"@.len() != "QUANTIFIER_DISTRIBUTION"@.len());
    assert(find_by_name(spec_all_rules(), "QUANTIFIER_DISTRIBUTION"@, 15) == find_by_name(spec_all_rules(), "QUANTIFIER_DISTRIBUTION"@, 16));
    reveal_strlit("UNIVERSAL_INSTANTIATION");
    assert("UNIVERSAL_INSTANTIATION"@[0] != "QUANTIFIER_DISTRIBUTION"@[0]);
    assert(find_by_name(spec_all_rules(), "QUANTIFIER_DISTRIBUTION"@, 16) == find_by_name(spec_all_rules(), "QUANTIFIER_DISTRIBUTION"@, 17));
    reveal_strlit("EXISTENTIAL_GENERALIZATION");
    assert("EXISTENTIAL_GENERALIZATION"@.len() != "QUANTIFIER_DISTRIBUTION"@.len());
    assert(find_by_name(spec_all_rules(), "QUANTIFIER_DISTRIBUTION"@, 17) == find_by_name(spec_all_rules(), "QUANTIFIER_DISTRIBUTION"@, 18));
    reveal_strlit("EXISTENTIAL_INSTANTIATION");
    assert("EXISTENTIAL_INSTANTIATION"@.len() != "QUANTIFIER_DISTRIBUTION"@.len());
    assert(find_by_name(spec_all_rules(), "QUANTIFIER_DISTRIBUTION"@, 18) == find_by_name(spec_all_rules(), "QUANTIFIER_DISTRIBUTION"@, 19));
    reveal_strlit("MODUS_TOLLENS");
    assert("MODUS_TOLLENS"@.len() != "QUANTIFIER_DISTRIBUTION"@.len());
    assert(find_by_name(spec_all_rules(), "QUANTIFIER_DISTRIBUTION"@, 19) == find_by_name(spec_all_rules(), "QUANTIFIER_DISTRIBUTION"@, 20));
    reveal_strlit("HYPOTHETICAL_SYLLOGISM");
    assert("HYPOTHETICAL_SYLLOGISM"@.len() != "QUANTIFIER_DISTRIBUTION"@.len());
    assert(find_by_name(spec_all_rules(), "QUANTIFIER_DISTRIBUTION"@, 20) == find_by_name(spec_all_rules(), "QUANTIFIER_DISTRIBUTION"@, 21));
    reveal_strlit("EXCLUDED_MIDDLE");
    assert("EXCLUDED_MIDDLE"@.len() != "QUANTIFIER_DISTRIBUTION"@.len());
    assert(find_by_name(spec_all_rules(), "QUANTIFIER_DISTRIBUTION"@, 21) == find_by_name(spec_all_rules(), "QUANTIFIER_DISTRIBUTION"@, 22));
    reveal_strlit("CONSTRUCTIVE_DILEMMA");
    assert("CONSTRUCTIVE_DILEMMA"@.len() != "QUANTIFIER_DISTRIBUTION"@.len());
    assert(find_by_name(spec_all_rules(), "QUANTIFIER_DISTRIBUTION"@, 22) == find_by_name(spec_all_rules(), "QUANTIFIER_DISTRIBUTION"@, 23));
    reveal_strlit("ASSOCIATION");
    assert("ASSOCIATION"@.len() != "QUANTIFIER_DISTRIBUTION"@.len());
    assert(find_by_name(spec_all_rules(), "QUANTIFIER_DISTRIBUTION"@, 23) == find_by_name(spec_all_rules(), "QUANTIFIER_DISTRIBUTION"@, 24));
    reveal_strlit("COMMUTATION");
    assert("COMMUTATION"@.len() != "QUANTIFIER_DISTRIBUTION"@.len());
    assert(find_by_name(spec_all_rules(), "QUANTIFIER_DISTRIBUTION"@, 24) == find_by_name(spec_all_rules(), "QUANTIFIER_DISTRIBUTION"@, 25));
    reveal_strlit("IDEMPOTENCE");
    assert("IDEMPOTENCE"@.len() != "QUANTIFIER_DISTRIBUTION"@.len());
    assert(find_by_name(spec_all_rules(), "QUANTIFIER_DISTRIBUTION"@, 25) == find_by_name(spec_all_rules(), "QUANTIFIER_DISTRIBUTION"@, 26));
    reveal_strlit("DE_MORGAN");
    assert("DE_MORGAN"@.len() != "QUANTIFIER_DISTRIBUTION"@.len());
    assert(find_by_name(spec_all_rules(), "QUANTIFIER_DISTRIBUTION"@, 26) == find_by_name(spec_all_rules(), "QUANTIFIER_DISTRIBUTION"@, 27));
    reveal_strlit("DISTRIBUTION");
    assert("DISTRIBUTION"@.len() != "QUANTIFIER_DISTRIBUTION"@.len());
    assert(find_by_name(spec_all_rules(), "QUANTIFIER_DISTRIBUTION"@, 27) == find_by_name(spec_all_rules(), "QUANTIFIER_DISTRIBUTION"@, 28));
    reveal_strlit("DOUBLENEGATION_EQUIV");
    assert("DOUBLENEGATION_EQUIV"@.len() != "QUANTIFIER_DISTRIBUTION"@.len());
    assert(find_by_name(spec_all_rules(), "QUANTIFIER_DISTRIBUTION"@, 28) == find_by_name(spec_all_rules(), "QUANTIFIER_DISTRIBUTION"@, 29));
    reveal_strlit("COMPLEMENT");
    assert("COMPLEMENT"@.len() != "QUANTIFIER_DISTRIBUTION"@.len());
    assert(find_by_name(spec_all_rules(), "QUANTIFIER_DISTRIBUTION"@, 29) == find_by_name(spec_all_rules(), "QUANTIFIER_DISTRIBUTION"@, 30));
    reveal_strlit("IDENTITY");
    assert("IDENTITY"@.len() != "QUANTIFIER_DISTRIBUTION"@.len());
    assert(find_by_name(spec_all_rules(), "QUANTIFIER_DISTRIBUTION"@, 30) == find_by_name(spec_all_rules(), "QUANTIFIER_DISTRIBUTION"@, 31));
    reveal_strlit("ANNIHILATION");
    assert("ANNIHILATION"@.len() != "QUANTIFIER_DISTRIBUTION"@.len());
    assert(find_by_name(spec_all_rules(), "QUANTIFIER_DISTRIBUTION"@, 31) == find_by_name(spec_all_rules(), "QUANTIFIER_DISTRIBUTION"@, 32));
    reveal_strlit("INVERSE");
    assert("INVERSE"@.len() != "QUANTIFIER_DISTRIBUTION"@.len());
    assert(find_by_name(spec_all_rules(), "QUANTIFIER_DISTRIBUTION"@, 32) == find_by_name(spec_all_rules(), "QUANTIFIER_DISTRIBUTION"@, 33));
    reveal_strlit("ABSORPTION");
    assert("ABSORPTION"@.len() != "QUANTIFIER_DISTRIBUTION"@.len());
    assert(find_by_name(spec_all_rules(), "QUANTIFIER_DISTRIBUTION"@, 33) == find_by_name(spec_all_rules(), "QUANTIFIER_DISTRIBUTION"@, 34));
    reveal_strlit("REDUCTION");
    assert("REDUCTION"@.len() != "QUANTIFIER_DISTRIBUTION"@.len());
    assert(find_by_name(spec_all_rules(), "QUANTIFIER_DISTRIBUTION"@, 34) == find_by_name(spec_all_rules(), "QUANTIFIER_DISTRIBUTION"@, 35));
    reveal_strlit("ADJACENCY");
    assert("ADJACENCY"@.len() != "QUANTIFIER_DISTRIBUTION"@.len());
    assert(find_by_name(spec_all_rules(), "QUANTIFIER_DISTRIBUTION"@, 35) == find_by_name(spec_all_rules(), "QUANTIFIER_DISTRIBUTION"@, 36));
    reveal_strlit("CONDITIONAL_COMPLEMENT");
    assert("CONDITIONAL_COMPLEMENT"@.len() != "QUANTIFIER_DISTRIBUTION"@.len());
    assert(find_by_name(spec_all_rules(), "QUANTIFIER_DISTRIBUTION"@, 36) == find_by_name(spec_all_rules(), "QUANTIFIER_DISTRIBUTION"@, 37));
    reveal_strlit("CONDITIONAL_IDENTITY");
    assert("CONDITIONAL_IDENTITY"@.len() != "QUANTIFIER_DISTRIBUTION"@.len());
    assert(find_by_name(spec_all_rules(), "QUANTIFIER_DISTRIBUTION"@, 37) == find_by_name(spec_all_rules(), "QUANTIFIER_DISTRIBUTION"@, 38));
    reveal_strlit("CONDITIONAL_ANNIHILATION");
    assert("CONDITIONAL_ANNIHILATION"@.len() != "QUANTIFIER_DISTRIBUTION"@.len());
    assert(find_by_name(spec_all_rules(), "QUANTIFIER_DISTRIBUTION"@, 38) == find_by_name(spec_all_rules(), "QUANTIFIER_DISTRIBUTION"@, 39));
    reveal_strlit("IMPLICATION");
    assert("IMPLICATION"@.len() != "QUANTIFIER_DISTRIBUTION"@.len());
    assert(find_by_name(spec_all_rules(), "QUANTIFIER_DISTRIBUTION"@, 39) == find_by_name(spec_all_rules(), "QUANTIFIER_DISTRIBUTION"@, 40));
    reveal_strlit("BI_IMPLICATION");
    assert("BI_IMPLICATION"@.len() != "QUANTIFIER_DISTRIBUTION"@.len());
    assert(find_by_name(spec_all_rules(), "QUANTIFIER_DISTRIBUTION"@, 40) == find_by_name(spec_all_rules(), "QUANTIFIER_DISTRIBUTION"@, 41));
    reveal_strlit("CONTRAPOSITION");
    assert("CONTRAPOSITION"@.len() != "QUANTIFIER_DISTRIBUTION"@.len());
    assert(find_by_name(spec_all_rules(), "QUANTIFIER_DISTRIBUTION"@, 41) == find_by_name(spec_all_rules(), "QUANTIFIER_DISTRIBUTION"@, 42));
    reveal_strlit("CURRYING");
    assert("CURRYING"@.len() != "QUANTIFIER_DISTRIBUTION"@.len());
    assert(find_by_name(spec_all_rules(), "QUANTIFIER_DISTRIBUTION"@, 42) == find_by_name(spec_all_rules(), "QUANTIFIER_DISTRIBUTION"@, 43));
    reveal_strlit("CONDITIONAL_DISTRIBUTION");
    assert("CONDITIONAL_DISTRIBUTION"@.len() != "QUANTIFIER_DISTRIBUTION"@.len());
    assert(find_by_name(spec_all_rules(), "QUANTIFIER_DISTRIBUTION"@, 43) == find_by_name(spec_all_rules(), "QUANTIFIER_DISTRIBUTION"@, 44));
    reveal_strlit("CONDITIONAL_REDUCTION");
    assert("CONDITIONAL_REDUCTION"@.len() != "QUANTIFIER_DISTRIBUTION"@.len());
    assert(find_by_name(spec_all_rules(), "QUANTIFIER_DISTRIBUTION"@, 44) == find_by_name(spec_all_rules(), "QUANTIFIER_DISTRIBUTION"@, 45));
    reveal_strlit("KNIGHTS_AND_KNAVES");
    assert("KNIGHTS_AND_KNAVES"@.len() != "QUANTIFIER_DISTRIBUTION"@.len());
    assert(find_by_name(spec_all_rules(), "QUANTIFIER_DISTRIBUTION"@, 45) == find_by_name(spec_all_rules(), "QUANTIFIER_DISTRIBUTION"@, 46));
    reveal_strlit("CONDITIONAL_IDEMPOTENCE");
    assert("CONDITIONAL_IDEMPOTENCE"@[0] != "QUANTIFIER_DISTRIBUTION"@[0]);
    assert(find_by_name(spec_all_rules(), "QUANTIFIER_DISTRIBUTION"@, 46) == find_by_name(spec_all_rules(), "QUANTIFIER_DISTRIBUTION"@, 47));
    reveal_strlit("BICONDITIONAL_NEGATION");
    assert("BICONDITIONAL_NEGATION"@.len() != "QUANTIFIER_DISTRIBUTION"@.len());
    assert(find_by_name(spec_all_rules(), "QUANTIFIER_DISTRIBUTION"@, 47) == find_by_name(spec_all_rules(), "QUANTIFIER_DISTRIBUTION"@, 48));
    reveal_strlit("BICONDITIONAL_SUBSTITUTION");
    assert("BICONDITIONAL_SUBSTITUTION"@.len() != "QUANTIFIER_DISTRIBUTION"@.len());
    assert(find_by_name(spec_all_rules(), "QUANTIFIER_DISTRIBUTION"@, 48) == find_by_name(spec_all_rules(), "QUANTIFIER_DISTRIBUTION"@, 49));
    reveal_strlit("ASYMMETRIC_TAUTOLOGY");
    assert("ASYMMETRIC_TAUTOLOGY"@.len() != "QUANTIFIER_DISTRIBUTION"@.len());
    assert(find_by_name(spec_all_rules(), "QUANTIFIER_DISTRIBUTION"@, 49) == find_by_name(spec_all_rules(), "QUANTIFIER_DISTRIBUTION"@, 50));
    reveal_strlit("RESOLUTION");
    assert("RESOLUTION"@.len() != "QUANTIFIER_DISTRIBUTION"@.len());
    assert(find_by_name(spec_all_rules(), "QUANTIFIER_DISTRIBUTION"@, 50) == find_by_name(spec_all_rules(), "QUANTIFIER_DISTRIBUTION"@, 51));
    reveal_strlit("TAUTOLOGICAL_CONSEQUENCE");
    assert("TAUTOLOGICAL_CONSEQUENCE"@.len() != "QUANTIFIER_DISTRIBUTION"@.len());
    assert(find_by_name(spec_all_rules(), "QUANTIFIER_DISTRIBUTION"@, 51) == find_by_name(spec_all_rules(), "QUANTIFIER_DISTRIBUTION"@, 52));
    reveal_strlit("QUANTIFIER_NEGATION");
    assert("QUANTIFIER_NEGATION"@.len() != "QUANTIFIER_DISTRIBUTION"@.len());
    assert(find_by_name(spec_all_rules(), "QUANTIFIER_DISTRIBUTION"@, 52) == find_by_name(spec_all_rules(), "QUANTIFIER_DISTRIBUTION"@, 53));
    reveal_strlit("NULL_QUANTIFICATION");
    assert("NULL_QUANTIFICATION"@.len() != "QUANTIFIER_DISTRIBUTION"@.len());
    assert(find_by_name(spec_all_rules(), "QUANTIFIER_DISTRIBUTION"@, 53) == find_by_name(spec_all_rules(), "QUANTIFIER_DISTRIBUTION"@, 54));
    reveal_strlit("REPLACING_BOUND_VARS");
    assert("REPLACING_BOUND_VARS"@.len() != "QUANTIFIER_DISTRIBUTION"@.len());
    assert(find_by_name(spec_all_rules(), "QUANTIFIER_DISTRIBUTION"@, 54) == find_by_name(spec_all_rules(), "QUANTIFIER_DISTRIBUTION"@, 55));
    reveal_strlit("SWAPPING_QUANTIFIERS");
    assert("SWAPPING_QUANTIFIERS"@.len() != "QUANTIFIER_DISTRIBUTION"@.len());
    assert(find_by_name(spec_all_rules(), "QUANTIFIER_DISTRIBUTION"@, 55) == find_by_name(spec_all_rules(), "QUANTIFIER_DISTRIBUTION"@, 56));
    reveal_strlit("ARISTOTELEAN_SQUARE");
    assert("ARISTOTELEAN_SQUARE"@.len() != "QUANTIFIER_DISTRIBUTION"@.len());
    assert(find_by_name(spec_all_rules(), "QUANTIFIER_DISTRIBUTION"@, 56) == find_by_name(spec_all_rules(), "QUANTIFIER_DISTRIBUTION"@, 57));
    assert(find_by_name(spec_all_rules(), "QUANTIFIER_DISTRIBUTION"@, 57) == Some(Rule::Quantifier(QuantifierEquivalence::QuantifierDistribution)));
}

proof fn lemma_finds_prenex_laws()
    ensures
        find_by_name(spec_all_rules(), "PRENEX_LAWS"@, 0) == Some(Rule::Quantifier(QuantifierEquivalence::PrenexLaws)),
{
    reveal_strlit("PRENEX_LAWS");
    reveal_strlit("REITERATION");
    assert("REITERATION"@[0] != "PRENEX_LAWS"@[0]);
    assert(find_by_name(spec_all_rules(), "PRENEX_LAWS"@, 0) == find_by_name(spec_all_rules(), "PRENEX_LAWS"@, 1));
    reveal_strlit("CONJUNCTION");
    assert("CONJUNCTION"@[0] != "PRENEX_LAWS"@[0]);
    assert(find_by_name(spec_all_rules(), "PRENEX_LAWS"@, 1) == find_by_name(spec_all_rules(), "PRENEX_LAWS"@, 2));
    reveal_strlit("SIMPLIFICATION");
    assert("SIMPLIFICATION"@.len() != "PRENEX_LAWS"@.len());
    assert(find_by_name(spec_all_rules(), "PRENEX_LAWS"@, 2) == find_by_name(spec_all_rules(), "PRENEX_LAWS"@, 3));
    reveal_strlit("ADDITION");
    assert("ADDITION"@.len() != "PRENEX_LAWS"@.len());
    assert(find_by_name(spec_all_rules(), "PRENEX_LAWS"@, 3) == find_by_name(spec_all_rules(), "PRENEX_LAWS"@, 4));
    reveal_strlit("DISJUNCTIVE_SYLLOGISM");
    assert("DISJUNCTIVE_SYLLOGISM"@.len() != "PRENEX_LAWS"@.len());
    assert(find_by_name(spec_all_rules(), "PRENEX_LAWS"@, 4) == find_by_name(spec_all_rules(), "PRENEX_LAWS"@, 5));
    reveal_strlit("CONDITIONAL_PROOF");
    assert("CONDITIONAL_PROOF"@.len() != "PRENEX_LAWS"@.len());
    assert(find_by_name(spec_all_rules(), "PRENEX_LAWS"@, 5) == find_by_name(spec_all_rules(), "PRENEX_LAWS"@, 6));
    reveal_strlit("MODUS_PONENS");
    assert("MODUS_PONENS"@.len() != "PRENEX_LAWS"@.len());
    assert(find_by_name(spec_all_rules(), "PRENEX_LAWS"@, 6) == find_by_name(spec_all_rules(), "PRENEX_LAWS"@, 7));
    reveal_strlit("PROOF_BY_CONTRADICTION");
    assert("PROOF_BY_CONTRADICTION"@.len() != "PRENEX_LAWS"@.len());
    assert(find_by_name(spec_all_rules(), "PRENEX_LAWS"@, 7) == find_by_name(spec_all_rules(), "PRENEX_LAWS"@, 8));
    reveal_strlit("DOUBLENEGATION");
    assert("DOUBLENEGATION"@.len() != "PRENEX_LAWS"@.len());
    assert(find_by_name(spec_all_rules(), "PRENEX_LAWS"@, 8) == find_by_name(spec_all_rules(), "PRENEX_LAWS"@, 9));
    reveal_strlit("CONTRADICTION");
    assert("CONTRADICTION"@.len() != "PRENEX_LAWS"@.len());
    assert(find_by_name(spec_all_rules(), "PRENEX_LAWS"@, 9) == find_by_name(spec_all_rules(), "PRENEX_LAWS"@, 10));
    reveal_strlit("PRINCIPLE_OF_EXPLOSION");
    assert("PRINCIPLE_OF_EXPLOSION"@.len() != "PRENEX_LAWS"@.len());
    assert(find_by_name(spec_all_rules(), "PRENEX_LAWS"@, 10) == find_by_name(spec_all_rules(), "PRENEX_LAWS"@, 11));
    reveal_strlit("BICONDITIONAL_INTRO");
    assert("BICONDITIONAL_INTRO"@.len() != "PRENEX_LAWS"@.len());
    assert(find_by_name(spec_all_rules(), "PRENEX_LAWS"@, 11) == find_by_name(spec_all_rules(), "PRENEX_LAWS"@, 12));
    reveal_strlit("BICONDITIONAL_ELIM");
    assert("BICONDITIONAL_ELIM"@.len() != "PRENEX_LAWS"@.len());
    assert(find_by_name(spec_all_rules(), "PRENEX_LAWS"@, 12) == find_by_name(spec_all_rules(), "PRENEX_LAWS"@, 13));
    reveal_strlit("EQUIVALENCE_INTRO");
    assert("EQUIVALENCE_INTRO"@.len() != "PRENEX_LAWS"@.len());
    assert(find_by_name(spec_all_rules(), "PRENEX_LAWS"@, 13) == find_by_name(spec_all_rules(), "PRENEX_LAWS"@, 14));
    reveal_strlit("EQUIVALENCE_ELIM");
    assert("EQUIVALENCE_ELIM"@.len() != "PRENEX_LAWS"@.len());
    assert(find_by_name(spec_all_rules(), "PRENEX_LAWS"@, 14) == find_by_name(spec_all_rules(), "PRENEX_LAWS"@, 15));
    reveal_strlit("UNIVERSAL_GENERALIZATION");
    assert("UNIVERSAL_GENERALIZATION"@.len() != "PRENEX_LAWS"@.len());
    assert(find_by_name(spec_all_rules(), "PRENEX_LAWS"@, 15) == find_by_name(spec_all_rules(), "PRENEX_LAWS"@, 16));
    reveal_strlit("UNIVERSAL_INSTANTIATION");
    assert("UNIVERSAL_INSTANTIATION"@.len() != "PRENEX_LAWS"@.len());
    assert(find_by_name(spec_all_rules(), "PRENEX_LAWS"@, 16) == find_by_name(spec_all_rules(), "PRENEX_LAWS"@, 17));
    reveal_strlit("EXISTENTIAL_GENERALIZATION");
    assert("EXISTENTIAL_GENERALIZATION"@.len() != "PRENEX_LAWS"@.len());
    assert(find_by_name(spec_all_rules(), "PRENEX_LAWS"@, 17) == find_by_name(spec_all_rules(), "PRENEX_LAWS"@, 18));
    reveal_strlit("EXISTENTIAL_INSTANTIATION");
    assert("EXISTENTIAL_INSTANTIATION"@.len() != "PRENEX_LAWS"@.len());
    assert(find_by_name(spec_all_rules(), "PRENEX_LAWS"@, 18) == find_by_name(spec_all_rules(), "PRENEX_LAWS"@, 19));
    reveal_strlit("MODUS_TOLLENS");
    assert("MODUS_TOLLENS"@.len() != "PRENEX_LAWS"@.len());
    assert(find_by_name(spec_all_rules(), "PRENEX_LAWS"@, 19) == find_by_name(spec_all_rules(), "PRENEX_LAWS"@, 20));
    reveal_strlit("HYPOTHETICAL_SYLLOGISM");
    assert("HYPOTHETICAL_SYLLOGISM"@.len() != "PRENEX_LAWS"@.len());
    assert(find_by_name(spec_all_rules(), "PRENEX_LAWS"@, 20) == find_by_name(spec_all_rules(), "PRENEX_LAWS"@, 21));
    reveal_strlit("EXCLUDED_MIDDLE");
    assert("EXCLUDED_MIDDLE"@.len() != "PRENEX_LAWS"@.len());
    assert(find_by_name(spec_all_rules(), "PRENEX_LAWS"@, 21) == find_by_name(spec_all_rules(), "PRENEX_LAWS"@, 22));
    reveal_strlit("CONSTRUCTIVE_DILEMMA");
    assert("CONSTRUCTIVE_DILEMMA"@.len() != "PRENEX_LAWS"@.len());
    assert(find_by_name(spec_all_rules(), "PRENEX_LAWS"@, 22) == find_by_name(spec_all_rules(), "PRENEX_LAWS"@, 23));
    reveal_strlit("ASSOCIATION");
    assert("ASSOCIATION"@[0] != "PRENEX_LAWS"@[0]);
    assert(find_by_name(spec_all_rules(), "PRENEX_LAWS"@, 23) == find_by_name(spec_all_rules(), "PRENEX_LAWS"@, 24));
    reveal_strlit("COMMUTATION");
    assert("COMMUTATION"@[0] != "PRENEX_LAWS"@[0]);
    assert(find_by_name(spec_all_rules(), "PRENEX_LAWS"@, 24) == find_by_name(spec_all_rules(), "PRENEX_LAWS"@, 25));
    reveal_strlit("IDEMPOTENCE");
    assert("IDEMPOTENCE"@[0] != "PRENEX_LAWS"@[0]);
    assert(find_by_name(spec_all_rules(), "PRENEX_LAWS"@, 25) == find_by_name(spec_all_rules(), "PRENEX_LAWS"@, 26));
    reveal_strlit("DE_MORGAN");
    assert("DE_MORGAN"@.len() != "PRENEX_LAWS"@.len());
    assert(find_by_name(spec_all_rules(), "PRENEX_LAWS"@, 26) == find_by_name(spec_all_rules(), "PRENEX_LAWS"@, 27));
    reveal_strlit("DISTRIBUTION");
    assert("DISTRIBUTION"@.len() != "PRENEX_LAWS"@.len());
    assert(find_by_name(spec_all_rules(), "PRENEX_LAWS"@, 27) == find_by_name(spec_all_rules(), "PRENEX_LAWS"@, 28));
    reveal_strlit("DOUBLENEGATION_EQUIV");
    assert("DOUBLENEGATION_EQUIV"@.len() != "PRENEX_LAWS"@.len());
    assert(find_by_name(spec_all_rules(), "PRENEX_LAWS"@, 28) == find_by_name(spec_all_rules(), "PRENEX_LAWS"@, 29));
    reveal_strlit("COMPLEMENT");
    assert("COMPLEMENT"@.len() != "PRENEX_LAWS"@.len());
    assert(find_by_name(spec_all_rules(), "PRENEX_LAWS"@, 29) == find_by_name(spec_all_rules(), "PRENEX_LAWS"@, 30));
    reveal_strlit("IDENTITY");
    assert("IDENTITY"@.len() != "PRENEX_LAWS"@.len());
    assert(find_by_name(spec_all_rules(), "PRENEX_LAWS"@, 30) == find_by_name(spec_all_rules(), "PRENEX_LAWS"@, 31));
    reveal_strlit("ANNIHILATION");
    assert("ANNIHILATION"@.len() != "PRENEX_LAWS"@.len());
    assert(find_by_name(spec_all_rules(), "PRENEX_LAWS"@, 31) == find_by_name(spec_all_rules(), "PRENEX_LAWS"@, 32));
    reveal_strlit("INVERSE");
    assert("INVERSE"@.len() != "PRENEX_LAWS"@.len());
    assert(find_by_name(spec_all_rules(), "PRENEX_LAWS"@, 32) == find_by_name(spec_all_rules(), "PRENEX_LAWS"@, 33));
    reveal_strlit("ABSORPTION");
    assert("ABSORPTION"@.len() != "PRENEX_LAWS"@.len());
    assert(find_by_name(spec_all_rules(), "PRENEX_LAWS"@, 33) == find_by_name(spec_all_rules(), "PRENEX_LAWS"@, 34));
    reveal_strlit("REDUCTION");
    assert("REDUCTION"@.len() != "PRENEX_LAWS"@.len());
    assert(find_by_name(spec_all_rules(), "PRENEX_LAWS"@, 34) == find_by_name(spec_all_rules(), "PRENEX_LAWS"@, 35));
    reveal_strlit("ADJACENCY");
    assert("ADJACENCY"@.len() != "PRENEX_LAWS"@.len());
    assert(find_by_name(spec_all_rules(), "PRENEX_LAWS"@, 35) == find_by_name(spec_all_rules(), "PRENEX_LAWS"@, 36));
    reveal_strlit("CONDITIONAL_COMPLEMENT");
    assert("CONDITIONAL_COMPLEMENT"@.len() != "PRENEX_LAWS"@.len());
    assert(find_by_name(spec_all_rules(), "PRENEX_LAWS"@, 36) == find_by_name(spec_all_rules(), "PRENEX_LAWS"@, 37));
    reveal_strlit("CONDITIONAL_IDENTITY");
    assert("CONDITIONAL_IDENTITY"@.len() != "PRENEX_LAWS"@.len());
    assert(find_by_name(spec_all_rules(), "PRENEX_LAWS"@, 37) == find_by_name(spec_all_rules(), "PRENEX_LAWS"@, 38));
    reveal_strlit("CONDITIONAL_ANNIHILATION");
    assert("CONDITIONAL_ANNIHILATION"@.len() != "PRENEX_LAWS"@.len());
    assert(find_by_name(spec_all_rules(), "PRENEX_LAWS"@, 38) == find_by_name(spec_all_rules(), "PRENEX_LAWS"@, 39));
    reveal_strlit("IMPLICATION");
    assert("IMPLICATION"@[0] != "PRENEX_LAWS"@[0]);
    assert(find_by_name(spec_all_rules(), "PRENEX_LAWS"@, 39) == find_by_name(spec_all_rules(), "PRENEX_LAWS"@, 40));
    reveal_strlit("BI_IMPLICATION");
    assert("BI_IMPLICATION"@.len() != "PRENEX_LAWS"@.len());
    assert(find_by_name(spec_all_rules(), "PRENEX_LAWS"@, 40) == find_by_name(spec_all_rules(), "PRENEX_LAWS"@, 41));
    reveal_strlit("CONTRAPOSITION");
    assert("CONTRAPOSITION"@.len() != "PRENEX_LAWS"@.len());
    assert(find_by_name(spec_all_rules(), "PRENEX_LAWS"@, 41) == find_by_name(spec_all_rules(), "PRENEX_LAWS"@, 42));
    reveal_strlit("CURRYING");
    assert("CURRYING"@.len() != "PRENEX_LAWS"@.len());
    assert(find_by_name(spec_all_rules(), "PRENEX_LAWS"@, 42) == find_by_name(spec_all_rules(), "PRENEX_LAWS"@, 43));
    reveal_strlit("CONDITIONAL_DISTRIBUTION");
    assert("CONDITIONAL_DISTRIBUTION"@.len() != "PRENEX_LAWS"@.len());
    assert(find_by_name(spec_all_rules(), "PRENEX_LAWS"@, 43) == find_by_name(spec_all_rules(), "PRENEX_LAWS"@, 44));
    reveal_strlit("CONDITIONAL_REDUCTION");
    assert("CONDITIONAL_REDUCTION"@.len() != "PRENEX_LAWS"@.len());
    assert(find_by_name(spec_all_rules(), "PRENEX_LAWS"@, 44) == find_by_name(spec_all_rules(), "PRENEX_LAWS"@, 45));
    reveal_strlit("KNIGHTS_AND_KNAVES");
    assert("KNIGHTS_AND_KNAVES"@.len() != "PRENEX_LAWS"@.len());
    assert(find_by_name(spec_all_rules(), "PRENEX_LAWS"@, 45) == find_by_name(spec_all_rules(), "PRENEX_LAWS"@, 46));
    reveal_strlit("CONDITIONAL_IDEMPOTENCE");
    assert("CONDITIONAL_IDEMPOTENCE"@.len() != "PRENEX_LAWS"@.len());
    assert(find_by_name(spec_all_rules(), "PRENEX_LAWS"@, 46) == find_by_name(spec_all_rules(), "PRENEX_LAWS"@, 47));
    reveal_strlit("BICONDITIONAL_NEGATION");
    assert("BICONDITIONAL_NEGATION"@.len() != "PRENEX_LAWS"@.len());
    assert(find_by_name(spec_all_rules(), "PRENEX_LAWS"@, 47) == find_by_name(spec_all_rules(), "PRENEX_LAWS"@, 48));
    reveal_strlit("BICONDITIONAL_SUBSTITUTION");
    assert("BICONDITIONAL_SUBSTITUTION"@.len() != "PRENEX_LAWS"@.len());
    assert(find_by_name(spec_all_rules(), "PRENEX_LAWS"@, 48) == find_by_name(spec_all_rules(), "PRENEX_LAWS"@, 49));
    reveal_strlit("ASYMMETRIC_TAUTOLOGY");
    assert("ASYMMETRIC_TAUTOLOGY"@.len() != "PRENEX_LAWS"@.len());
    assert(find_by_name(spec_all_rules(), "PRENEX_LAWS"@, 49) == find_by_name(spec_all_rules(), "PRENEX_LAWS"@, 50));
    reveal_strlit("RESOLUTION");
    assert("RESOLUTION"@.len() != "PRENEX_LAWS"@.len());
    assert(find_by_name(spec_all_rules(), "PRENEX_LAWS"@, 50) == find_by_name(spec_all_rules(), "PRENEX_LAWS"@, 51));
    reveal_strlit("TAUTOLOGICAL_CONSEQUENCE");
    assert("TAUTOLOGICAL_CONSEQUENCE"@.len() != "PRENEX_LAWS"@.len());
    assert(find_by_name(spec_all_rules(), "PRENEX_LAWS"@, 51) == find_by_name(spec_all_rules(), "PRENEX_LAWS"@, 52));
    reveal_strlit("QUANTIFIER_NEGATION");
    assert("QUANTIFIER_NEGATION"@.len() != "PRENEX_LAWS"@.len());
    assert(find_by_name(spec_all_rules(), "PRENEX_LAWS"@, 52) == find_by_name(spec_all_rules(), "PRENEX_LAWS"@, 53));
    reveal_strlit("NULL_QUANTIFICATION");
    assert("NULL_QUANTIFICATION"@.len() != "PRENEX_LAWS"@.len());
    assert(find_by_name(spec_all_rules(), "PRENEX_LAWS"@, 53) == find_by_name(spec_all_rules(), "PRENEX_LAWS"@, 54));
    reveal_strlit("REPLACING_BOUND_VARS");
    assert("REPLACING_BOUND_VARS"@.len() != "PRENEX_LAWS"@.len());
    assert(find_by_name(spec_all_rules(), "PRENEX_LAWS"@, 54) == find_by_name(spec_all_rules(), "PRENEX_LAWS"@, 55));
    reveal_strlit("SWAPPING_QUANTIFIERS");
    assert("SWAPPING_QUANTIFIERS"@.len() != "PRENEX_LAWS"@.len());
    assert(find_by_name(spec_all_rules(), "PRENEX_LAWS"@, 55) == find_by_name(spec_all_rules(), "PRENEX_LAWS"@, 56));
    reveal_strlit("ARISTOTELEAN_SQUARE");
    assert("ARISTOTELEAN_SQUARE"@.len() != "PRENEX_LAWS"@.len());
    assert(find_by_name(spec_all_rules(), "PRENEX_LAWS"@, 56) == find_by_name(spec_all_rules(), "PRENEX_LAWS"@, 57));
    reveal_strlit("QUANTIFIER_DISTRIBUTION");
    assert("QUANTIFIER_DISTRIBUTION"@.len() != "PRENEX_LAWS"@.len());
    assert(find_by_name(spec_all_rules(), "PRENEX_LAWS"@, 57) == find_by_name(spec_all_rules(), "PRENEX_LAWS"@, 58));
    assert(find_by_name(spec_all_rules(), "PRENEX_LAWS"@, 58) == Some(Rule::Quantifier(QuantifierEquivalence::PrenexLaws)));
}

proof fn lemma_finds_empty_rule()
    ensures
        find_by_name(spec_all_rules(), "EMPTY_RULE"@, 0) == Some(Rule::Empty(EmptyRule)),
{
    reveal_strlit("EMPTY_RULE");
    reveal_strlit("REITERATION");
    assert("REITERATION"@.len() != "EMPTY_RULE"@.len());
    assert(find_by_name(spec_all_rules(), "EMPTY_RULE"@, 0) == find_by_name(spec_all_rules(), "EMPTY_RULE"@, 1));
    reveal_strlit("CONJUNCTION");
    assert("CONJUNCTION"@.len() != "EMPTY_RULE"@.len());
    assert(find_by_name(spec_all_rules(), "EMPTY_RULE"@, 1) == find_by_name(spec_all_rules(), "EMPTY_RULE"@, 2));
    reveal_strlit("SIMPLIFICATION");
    assert("SIMPLIFICATION"@.len() != "EMPTY_RULE"@.len());
    assert(find_by_name(spec_all_rules(), "EMPTY_RULE"@, 2) == find_by_name(spec_all_rules(), "EMPTY_RULE"@, 3));
    reveal_strlit("ADDITION");
    assert("ADDITION"@.len() != "EMPTY_RULE"@.len());
    assert(find_by_name(spec_all_rules(), "EMPTY_RULE"@, 3) == find_by_name(spec_all_rules(), "EMPTY_RULE"@, 4));
    reveal_strlit("DISJUNCTIVE_SYLLOGISM");
    assert("DISJUNCTIVE_SYLLOGISM"@.len() != "EMPTY_RULE"@.len());
    assert(find_by_name(spec_all_rules(), "EMPTY_RULE"@, 4) == find_by_name(spec_all_rules(), "EMPTY_RULE"@, 5));
    reveal_strlit("CONDITIONAL_PROOF");
    assert("CONDITIONAL_PROOF"@.len() != "EMPTY_RULE"@.len());
    assert(find_by_name(spec_all_rules(), "EMPTY_RULE"@, 5) == find_by_name(spec_all_rules(), "EMPTY_RULE"@, 6));
    reveal_strlit("MODUS_PONENS");
    assert("MODUS_PONENS"@.len() != "EMPTY_RULE"@.len());
    assert(find_by_name(spec_all_rules(), "EMPTY_RULE"@, 6) == find_by_name(spec_all_rules(), "EMPTY_RULE"@, 7));
    reveal_strlit("PROOF_BY_CONTRADICTION");
    assert("PROOF_BY_CONTRADICTION"@.len() != "EMPTY_RULE"@.len());
    assert(find_by_name(spec_all_rules(), "EMPTY_RULE"@, 7) == find_by_name(spec_all_rules(), "EMPTY_RULE"@, 8));
    reveal_strlit("DOUBLENEGATION");
    assert("DOUBLENEGATION"@.len() != "EMPTY_RULE"@.len());
    assert(find_by_name(spec_all_rules(), "EMPTY_RULE"@, 8) == find_by_name(spec_all_rules(), "EMPTY_RULE"@, 9));
    reveal_strlit("CONTRADICTION");
    assert("CONTRADICTION"@.len() != "EMPTY_RULE"@.len());
    assert(find_by_name(spec_all_rules(), "EMPTY_RULE"@, 9) == find_by_name(spec_all_rules(), "EMPTY_RULE"@, 10));
    reveal_strlit("PRINCIPLE_OF_EXPLOSION");
    assert("PRINCIPLE_OF_EXPLOSION"@.len() != "EMPTY_RULE"@.len());
    assert(find_by_name(spec_all_rules(), "EMPTY_RULE"@, 10) == find_by_name(spec_all_rules(), "EMPTY_RULE"@, 11));
    reveal_strlit("BICONDITIONAL_INTRO");
    assert("BICONDITIONAL_INTRO"@.len() != "EMPTY_RULE"@.len());
    assert(find_by_name(spec_all_rules(), "EMPTY_RULE"@, 11) == find_by_name(spec_all_rules(), "EMPTY_RULE"@, 12));
    reveal_strlit("BICONDITIONAL_ELIM");
    assert("BICONDITIONAL_ELIM"@.len() != "EMPTY_RULE"@.len());
    assert(find_by_name(spec_all_rules(), "EMPTY_RULE"@, 12) == find_by_name(spec_all_rules(), "EMPTY_RULE"@, 13));
    reveal_strlit("EQUIVALENCE_INTRO");
    assert("EQUIVALENCE_INTRO"@.len() != "EMPTY_RULE"@.len());
    assert(find_by_name(spec_all_rules(), "EMPTY_RULE"@, 13) == find_by_name(spec_all_rules(), "EMPTY_RULE"@, 14));
    reveal_strlit("EQUIVALENCE_ELIM");
    assert("EQUIVALENCE_ELIM"@.len() != "EMPTY_RULE"@.len());
    assert(find_by_name(spec_all_rules(), "EMPTY_RULE"@, 14) == find_by_name(spec_all_rules(), "EMPTY_RULE"@, 15));
    reveal_strlit("UNIVERSAL_GENERALIZATION");
    assert("UNIVERSAL_GENERALIZATION"@.len() != "EMPTY_RULE"@.len());
    assert(find_by_name(spec_all_rules(), "EMPTY_RULE"@, 15) == find_by_name(spec_all_rules(), "EMPTY_RULE"@, 16));
    reveal_strlit("UNIVERSAL_INSTANTIATION");
    assert("UNIVERSAL_INSTANTIATION"@.len() != "EMPTY_RULE"@.len());
    assert(find_by_name(spec_all_rules(), "EMPTY_RULE"@, 16) == find_by_name(spec_all_rules(), "EMPTY_RULE"@, 17));
    reveal_strlit("EXISTENTIAL_GENERALIZATION");
    assert("EXISTENTIAL_GENERALIZATION"@.len() != "EMPTY_RULE"@.len());
    assert(find_by_name(spec_all_rules(), "EMPTY_RULE"@, 17) == find_by_name(spec_all_rules(), "EMPTY_RULE"@, 18));
    reveal_strlit("EXISTENTIAL_INSTANTIATION");
    assert("EXISTENTIAL_INSTANTIATION"@.len() != "EMPTY_RULE"@.len());
    assert(find_by_name(spec_all_rules(), "EMPTY_RULE"@, 18) == find_by_name(spec_all_rules(), "EMPTY_RULE"@, 19));
    reveal_strlit("MODUS_TOLLENS");
    assert("MODUS_TOLLENS"@.len() != "EMPTY_RULE"@.len());
    assert(find_by_name(spec_all_rules(), "EMPTY_RULE"@, 19) == find_by_name(spec_all_rules(), "EMPTY_RULE"@, 20));
    reveal_strlit("HYPOTHETICAL_SYLLOGISM");
    assert("HYPOTHETICAL_SYLLOGISM"@.len() != "EMPTY_RULE"@.len());
    assert(find_by_name(spec_all_rules(), "EMPTY_RULE"@, 20) == find_by_name(spec_all_rules(), "EMPTY_RULE"@, 21));
    reveal_strlit("EXCLUDED_MIDDLE");
    assert("EXCLUDED_MIDDLE"@.len() != "EMPTY_RULE"@.len());
    assert(find_by_name(spec_all_rules(), "EMPTY_RULE"@, 21) == find_by_name(spec_all_rules(), "EMPTY_RULE"@, 22));
    reveal_strlit("CONSTRUCTIVE_DILEMMA");
    assert("CONSTRUCTIVE_DILEMMA"@.len() != "EMPTY_RULE"@.len());
    assert(find_by_name(spec_all_rules(), "EMPTY_RULE"@, 22) == find_by_name(spec_all_rules(), "EMPTY_RULE"@, 23));
    reveal_strlit("ASSOCIATION");
    assert("ASSOCIATION"@.len() != "EMPTY_RULE"@.len());
    assert(find_by_name(spec_all_rules(), "EMPTY_RULE"@, 23) == find_by_name(spec_all_rules(), "EMPTY_RULE"@, 24));
    reveal_strlit("COMMUTATION");
    assert("COMMUTATION"@.len() != "EMPTY_RULE"@.len());
    assert(find_by_name(spec_all_rules(), "EMPTY_RULE"@, 24) == find_by_name(spec_all_rules(), "EMPTY_RULE"@, 25));
    reveal_strlit("IDEMPOTENCE");
    assert("IDEMPOTENCE"@.len() != "EMPTY_RULE"@.len());
    assert(find_by_name(spec_all_rules(), "EMPTY_RULE"@, 25) == find_by_name(spec_all_rules(), "EMPTY_RULE"@, 26));
    reveal_strlit("DE_MORGAN");
    assert("DE_MORGAN"@.len() != "EMPTY_RULE"@.len());
    assert(find_by_name(spec_all_rules(), "EMPTY_RULE"@, 26) == find_by_name(spec_all_rules(), "EMPTY_RULE"@, 27));
    reveal_strlit("DISTRIBUTION");
    assert("DISTRIBUTION"@.len() != "EMPTY_RULE"@.len());
    assert(find_by_name(spec_all_rules(), "EMPTY_RULE"@, 27) == find_by_name(spec_all_rules(), "EMPTY_RULE"@, 28));
    reveal_strlit("DOUBLENEGATION_EQUIV");
    assert("DOUBLENEGATION_EQUIV"@.len() != "EMPTY_RULE"@.len());
    assert(find_by_name(spec_all_rules(), "EMPTY_RULE"@, 28) == find_by_name(spec_all_rules(), "EMPTY_RULE"@, 29));
    reveal_strlit("COMPLEMENT");
    assert("COMPLEMENT"@[0] != "EMPTY_RULE"@[0]);
    assert(find_by_name(spec_all_rules(), "EMPTY_RULE"@, 29) == find_by_name(spec_all_rules(), "EMPTY_RULE"@, 30));
    reveal_strlit("IDENTITY");
    assert("IDENTITY"@.len() != "EMPTY_RULE"@.len());
    assert(find_by_name(spec_all_rules(), "EMPTY_RULE"@, 30) == find_by_name(spec_all_rules(), "EMPTY_RULE"@, 31));
    reveal_strlit("ANNIHILATION");
    assert("ANNIHILATION"@.len() != "EMPTY_RULE"@.len());
    assert(find_by_name(spec_all_rules(), "EMPTY_RULE"@, 31) == find_by_name(spec_all_rules(), "EMPTY_RULE"@, 32));
    reveal_strlit("INVERSE");
    assert("INVERSE"@.len() != "EMPTY_RULE"@.len());
    assert(find_by_name(spec_all_rules(), "EMPTY_RULE"@, 32) == find_by_name(spec_all_rules(), "EMPTY_RULE"@, 33));
    reveal_strlit("ABSORPTION");
    assert("ABSORPTION"@[0] != "EMPTY_RULE"@[0]);
    assert(find_by_name(spec_all_rules(), "EMPTY_RULE"@, 33) == find_by_name(spec_all_rules(), "EMPTY_RULE"@, 34));
    reveal_strlit("REDUCTION");
    assert("REDUCTION"@.len() != "EMPTY_RULE"@.len());
    assert(find_by_name(spec_all_rules(), "EMPTY_RULE"@, 34) == find_by_name(spec_all_rules(), "EMPTY_RULE"@, 35));
    reveal_strlit("ADJACENCY");
    assert("ADJACENCY"@.len() != "EMPTY_RULE"@.len());
    assert(find_by_name(spec_all_rules(), "EMPTY_RULE"@, 35) == find_by_name(spec_all_rules(), "EMPTY_RULE"@, 36));
    reveal_strlit("CONDITIONAL_COMPLEMENT");
    assert("CONDITIONAL_COMPLEMENT"@.len() != "EMPTY_RULE"@.len());
    assert(find_by_name(spec_all_rules(), "EMPTY_RULE"@, 36) == find_by_name(spec_all_rules(), "EMPTY_RULE"@, 37));
    reveal_strlit("CONDITIONAL_IDENTITY");
    assert("CONDITIONAL_IDENTITY"@.len() != "EMPTY_RULE"@.len());
    assert(find_by_name(spec_all_rules(), "EMPTY_RULE"@, 37) == find_by_name(spec_all_rules(), "EMPTY_RULE"@, 38));
    reveal_strlit("CONDITIONAL_ANNIHILATION");
    assert("CONDITIONAL_ANNIHILATION"@.len() != "EMPTY_RULE"@.len());
    assert(find_by_name(spec_all_rules(), "EMPTY_RULE"@, 38) == find_by_name(spec_all_rules(), "EMPTY_RULE"@, 39));
    reveal_strlit("IMPLICATION");
    assert("IMPLICATION"@.len() != "EMPTY_RULE"@.len());
    assert(find_by_name(spec_all_rules(), "EMPTY_RULE"@, 39) == find_by_name(spec_all_rules(), "EMPTY_RULE"@, 40));
    reveal_strlit("BI_IMPLICATION");
    assert("BI_IMPLICATION"@.len() != "EMPTY_RULE"@.len());
    assert(find_by_name(spec_all_rules(), "EMPTY_RULE"@, 40) == find_by_name(spec_all_rules(), "EMPTY_RULE"@, 41));
    reveal_strlit("CONTRAPOSITION");
    assert("CONTRAPOSITION"@.len() != "EMPTY_RULE"@.len());
    assert(find_by_name(spec_all_rules(), "EMPTY_RULE"@, 41) == find_by_name(spec_all_rules(), "EMPTY_RULE"@, 42));
    reveal_strlit("CURRYING");
    assert("CURRYING"@.len() != "EMPTY_RULE"@.len());
    assert(find_by_name(spec_all_rules(), "EMPTY_RULE"@, 42) == find_by_name(spec_all_rules(), "EMPTY_RULE"@, 43));
    reveal_strlit("CONDITIONAL_DISTRIBUTION");
    assert("CONDITIONAL_DISTRIBUTION"@.len() != "EMPTY_RULE"@.len());
    assert(find_by_name(spec_all_rules(), "EMPTY_RULE"@, 43) == find_by_name(spec_all_rules(), "EMPTY_RULE"@, 44));
    reveal_strlit("CONDITIONAL_REDUCTION");
    assert("CONDITIONAL_REDUCTION"@.len() != "EMPTY_RULE"@.len());
    assert(find_by_name(spec_all_rules(), "EMPTY_RULE"@, 44) == find_by_name(spec_all_rules(), "EMPTY_RULE"@, 45));
    reveal_strlit("KNIGHTS_AND_KNAVES");
    assert("KNIGHTS_AND_KNAVES"@.len() != "EMPTY_RULE"@.len());
    assert(find_by_name(spec_all_rules(), "EMPTY_RULE"@, 45) == find_by_name(spec_all_rules(), "EMPTY_RULE"@, 46));
    reveal_strlit("CONDITIONAL_IDEMPOTENCE");
    assert("CONDITIONAL_IDEMPOTENCE"@.len() != "EMPTY_RULE"@.len());
    assert(find_by_name(spec_all_rules(), "EMPTY_RULE"@, 46) == find_by_name(spec_all_rules(), "EMPTY_RULE"@, 47));
    reveal_strlit("BICONDITIONAL_NEGATION");
    assert("BICONDITIONAL_NEGATION"@.len() != "EMPTY_RULE"@.len());
    assert(find_by_name(spec_all_rules(), "EMPTY_RULE"@, 47) == find_by_name(spec_all_rules(), "EMPTY_RULE"@, 48));
    reveal_strlit("BICONDITIONAL_SUBSTITUTION");
    assert("BICONDITIONAL_SUBSTITUTION"@.len() != "EMPTY_RULE"@.len());
    assert(find_by_name(spec_all_rules(), "EMPTY_RULE"@, 48) == find_by_name(spec_all_rules(), "EMPTY_RULE"@, 49));
    reveal_strlit("ASYMMETRIC_TAUTOLOGY");
    assert("ASYMMETRIC_TAUTOLOGY"@.len() != "EMPTY_RULE"@.len());
    assert(find_by_name(spec_all_rules(), "EMPTY_RULE"@, 49) == find_by_name(spec_all_rules(), "EMPTY_RULE"@, 50));
    reveal_strlit("RESOLUTION");
    assert("RESOLUTION"@[0] != "EMPTY_RULE"@[0]);
    assert(find_by_name(spec_all_rules(), "EMPTY_RULE"@, 50) == find_by_name(spec_all_rules(), "EMPTY_RULE"@, 51));
    reveal_strlit("TAUTOLOGICAL_CONSEQUENCE");
    assert("TAUTOLOGICAL_CONSEQUENCE"@.len() != "EMPTY_RULE"@.len());
    assert(find_by_name(spec_all_rules(), "EMPTY_RULE"@, 51) == find_by_name(spec_all_rules(), "EMPTY_RULE"@, 52));
    reveal_strlit("QUANTIFIER_NEGATION");
    assert("QUANTIFIER_NEGATION"@.len() != "EMPTY_RULE"@.len());
    assert(find_by_name(spec_all_rules(), "EMPTY_RULE"@, 52) == find_by_name(spec_all_rules(), "EMPTY_RULE"@, 53));
    reveal_strlit("NULL_QUANTIFICATION");
    assert("NULL_QUANTIFICATION"@.len() != "EMPTY_RULE"@.len());
    assert(find_by_name(spec_all_rules(), "EMPTY_RULE"@, 53) == find_by_name(spec_all_rules(), "EMPTY_RULE"@, 54));
    reveal_strlit("REPLACING_BOUND_VARS");
    assert("REPLACING_BOUND_VARS"@.len() != "EMPTY_RULE"@.len());
    assert(find_by_name(spec_all_rules(), "EMPTY_RULE"@, 54) == find_by_name(spec_all_rules(), "EMPTY_RULE"@, 55));
    reveal_strlit("SWAPPING_QUANTIFIERS");
    assert("SWAPPING_QUANTIFIERS"@.len() != "EMPTY_RULE"@.len());
    assert(find_by_name(spec_all_rules(), "EMPTY_RULE"@, 55) == find_by_name(spec_all_rules(), "EMPTY_RULE"@, 56));
    reveal_strlit("ARISTOTELEAN_SQUARE");
    assert("ARISTOTELEAN_SQUARE"@.len() != "EMPTY_RULE"@.len());
    assert(find_by_name(spec_all_rules(), "EMPTY_RULE"@, 56) == find_by_name(spec_all_rules(), "EMPTY_RULE"@, 57));
    reveal_strlit("QUANTIFIER_DISTRIBUTION");
    assert("QUANTIFIER_DISTRIBUTION"@.len() != "EMPTY_RULE"@.len());
    assert(find_by_name(spec_all_rules(), "EMPTY_RULE"@, 57) == find_by_name(spec_all_rules(), "EMPTY_RULE"@, 58));
    reveal_strlit("PRENEX_LAWS");
    assert("PRENEX_LAWS"@.len() != "EMPTY_RULE"@.len());
    assert(find_by_name(spec_all_rules(), "EMPTY_RULE"@, 58) == find_by_name(spec_all_rules(), "EMPTY_RULE"@, 59));
    assert(find_by_name(spec_all_rules(), "EMPTY_RULE"@, 59) == Some(Rule::Empty(EmptyRule)));
}

/// Every rule is found again under its stable name: reading back the name
/// that `to_serialized_name` writes gives the same rule.
pub proof fn lemma_serialization_round_trip(r: Rule)
    ensures
        find_by_name(spec_all_rules(), r.serialized(), 0) == Some(r),
{
    match r {
        Rule::Prepositional(PrepositionalInference::Reit) => lemma_finds_reiteration(),
        Rule::Prepositional(PrepositionalInference::AndIntro) => lemma_finds_conjunction(),
        Rule::Prepositional(PrepositionalInference::AndElim) => lemma_finds_simplification(),
        Rule::Prepositional(PrepositionalInference::OrIntro) => lemma_finds_addition(),
        Rule::Prepositional(PrepositionalInference::OrElim) => lemma_finds_disjunctive_syllogism(),
        Rule::Prepositional(PrepositionalInference::ImpIntro) => lemma_finds_conditional_proof(),
        Rule::Prepositional(PrepositionalInference::ImpElim) => lemma_finds_modus_ponens(),
        Rule::Prepositional(PrepositionalInference::NotIntro) => lemma_finds_proof_by_contradiction(),
        Rule::Prepositional(PrepositionalInference::NotElim) => lemma_finds_doublenegation(),
        Rule::Prepositional(PrepositionalInference::ContradictionIntro) => lemma_finds_contradiction(),
        Rule::Prepositional(PrepositionalInference::ContradictionElim) => lemma_finds_principle_of_explosion(),
        Rule::Prepositional(PrepositionalInference::BiconditionalIntro) => lemma_finds_biconditional_intro(),
        Rule::Prepositional(PrepositionalInference::BiconditionalElim) => lemma_finds_biconditional_elim(),
        Rule::Prepositional(PrepositionalInference::EquivalenceIntro) => lemma_finds_equivalence_intro(),
        Rule::Prepositional(PrepositionalInference::EquivalenceElim) => lemma_finds_equivalence_elim(),
        Rule::Predicate(PredicateInference::ForallIntro) => lemma_finds_universal_generalization(),
        Rule::Predicate(PredicateInference::ForallElim) => lemma_finds_universal_instantiation(),
        Rule::Predicate(PredicateInference::ExistsIntro) => lemma_finds_existential_generalization(),
        Rule::Predicate(PredicateInference::ExistsElim) => lemma_finds_existential_instantiation(),
        Rule::Redundant(RedundantPrepositionalInference::ModusTollens) => lemma_finds_modus_tollens(),
        Rule::Redundant(RedundantPrepositionalInference::HypotheticalSyllogism) => lemma_finds_hypothetical_syllogism(),
        Rule::Redundant(RedundantPrepositionalInference::ExcludedMiddle) => lemma_finds_excluded_middle(),
        Rule::Redundant(RedundantPrepositionalInference::ConstructiveDilemma) => lemma_finds_constructive_dilemma(),
        Rule::Boolean(BooleanEquivalence::Association) => lemma_finds_association(),
        Rule::Boolean(BooleanEquivalence::Commutation) => lemma_finds_commutation(),
        Rule::Boolean(BooleanEquivalence::Idempotence) => lemma_finds_idempotence(),
        Rule::Boolean(BooleanEquivalence::DeMorgan) => lemma_finds_de_morgan(),
        Rule::Boolean(BooleanEquivalence::Distribution) => lemma_finds_distribution(),
        Rule::Boolean(BooleanEquivalence::DoubleNegation) => lemma_finds_doublenegation_equiv(),
        Rule::Boolean(BooleanEquivalence::Complement) => lemma_finds_complement(),
        Rule::Boolean(BooleanEquivalence::Identity) => lemma_finds_identity(),
        Rule::Boolean(BooleanEquivalence::Annihilation) => lemma_finds_annihilation(),
        Rule::Boolean(BooleanEquivalence::Inverse) => lemma_finds_inverse(),
        Rule::Boolean(BooleanEquivalence::Absorption) => lemma_finds_absorption(),
        Rule::Boolean(BooleanEquivalence::Reduction) => lemma_finds_reduction(),
        Rule::Boolean(BooleanEquivalence::Adjacency) => lemma_finds_adjacency(),
        Rule::Conditional(ConditionalEquivalence::Complement) => lemma_finds_conditional_complement(),
        Rule::Conditional(ConditionalEquivalence::Identity) => lemma_finds_conditional_identity(),
        Rule::Conditional(ConditionalEquivalence::Annihilation) => lemma_finds_conditional_annihilation(),
        Rule::Conditional(ConditionalEquivalence::Implication) => lemma_finds_implication(),
        Rule::Conditional(ConditionalEquivalence::BiImplication) => lemma_finds_bi_implication(),
        Rule::Conditional(ConditionalEquivalence::Contraposition) => lemma_finds_contraposition(),
        Rule::Conditional(ConditionalEquivalence::Currying) => lemma_finds_currying(),
        Rule::Conditional(ConditionalEquivalence::ConditionalDistribution) => lemma_finds_conditional_distribution(),
        Rule::Conditional(ConditionalEquivalence::ConditionalReduction) => lemma_finds_conditional_reduction(),
        Rule::Conditional(ConditionalEquivalence::KnightsAndKnaves) => lemma_finds_knights_and_knaves(),
        Rule::Conditional(ConditionalEquivalence::ConditionalIdempotence) => lemma_finds_conditional_idempotence(),
        Rule::Conditional(ConditionalEquivalence::BiconditionalNegation) => lemma_finds_biconditional_negation(),
        Rule::Conditional(ConditionalEquivalence::BiconditionalSubstitution) => lemma_finds_biconditional_substitution(),
        Rule::Automation(AutomationRelatedRules::AsymmetricTautology) => lemma_finds_asymmetric_tautology(),
        Rule::Automation(AutomationRelatedRules::Resolution) => lemma_finds_resolution(),
        Rule::Automation(AutomationRelatedRules::TautologicalConsequence) => lemma_finds_tautological_consequence(),
        Rule::Quantifier(QuantifierEquivalence::QuantifierNegation) => lemma_finds_quantifier_negation(),
        Rule::Quantifier(QuantifierEquivalence::NullQuantification) => lemma_finds_null_quantification(),
        Rule::Quantifier(QuantifierEquivalence::ReplacingBoundVars) => lemma_finds_replacing_bound_vars(),
        Rule::Quantifier(QuantifierEquivalence::SwappingQuantifiers) => lemma_finds_swapping_quantifiers(),
        Rule::Quantifier(QuantifierEquivalence::AristoteleanSquare) => lemma_finds_aristotelean_square(),
        Rule::Quantifier(QuantifierEquivalence::QuantifierDistribution) => lemma_finds_quantifier_distribution(),
        Rule::Quantifier(QuantifierEquivalence::PrenexLaws) => lemma_finds_prenex_laws(),
        Rule::Empty(EmptyRule) => lemma_finds_empty_rule(),
    }
}

} // verus!
