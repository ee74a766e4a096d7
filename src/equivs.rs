//! The rewrite rules of the equivalences that are checked by rewriting.
use vstd::prelude::*;
use crate::expr::{Expr, Formula, Op, QuantKind, var, not, implication, or_like, quant};
use crate::rewrite::{RewriteRule, RuleModel, Side, SideModel, rules_model};

verus! {

/// The equivalences that are checked by rewriting both sides.
#[derive(PartialEq, Eq, Structural, Clone, Copy, Debug)]
pub enum Bundle {
    /// Double negation.
    DoubleNegation,
    /// Distribution of each of conjunction and disjunction over the other.
    Distribution,
    /// A formula and its negation; the tautology is written as the negation of the absurdity.
    Complement,
    /// Units of conjunction and disjunction.
    Identity,
    /// Absorbing elements of conjunction and disjunction.
    Annihilation,
    /// The negation of the tautology is the absurdity.
    Inverse,
    /// Absorption.
    Absorption,
    /// Reduction.
    Reduction,
    /// Adjacency.
    Adjacency,
    /// Conditional complement.
    CondComplement,
    /// Conditional identity.
    CondIdentity,
    /// Conditional annihilation.
    CondAnnihilation,
    /// Implication as disjunction.
    CondImplication,
    /// The biconditional as two implications.
    CondBiImplication,
    /// Contraposition.
    CondContraposition,
    /// Exportation.
    CondCurrying,
    /// Distribution of implication.
    CondDistribution,
    /// Conditional reduction.
    CondReduction,
    /// Knights and knaves.
    KnightsAndKnaves,
    /// Conditional idempotence.
    CondIdempotence,
    /// Negation across a biconditional.
    BiconditionalNegation,
    /// Substitution through a biconditional.
    BiconditionalSubstitution,
    /// Negation across a quantifier.
    QuantifierNegation,
    /// A quantifier whose variable does not occur.
    NullQuantification,
    /// Adjacent quantifiers of one kind, in order of their variables.
    SwappingQuantifiers,
    /// The square of opposition.
    AristoteleanSquare,
    /// Distribution of quantifiers.
    QuantifierDistribution,
    /// Moving quantifiers outwards.
    PrenexLaws,
}

/// The rewrite rules of each equivalence.
pub open spec fn bundle(b: Bundle) -> Seq<RuleModel> {
    match b {
        Bundle::DoubleNegation => seq![
            RuleModel { lhs: Formula::Not { operand: Box::new(Formula::Not { operand: Box::new(Formula::Var { name: "P"@ }) }) }, rhs: Formula::Var { name: "P"@ }, side: SideModel::Always },
        ],
        Bundle::Distribution => seq![
            RuleModel { lhs: Formula::Assoc { op: Op::Or, exprs: seq![Formula::Assoc { op: Op::And, exprs: seq![Formula::Var { name: "P"@ }, Formula::Var { name: "Q"@ }] }, Formula::Assoc { op: Op::And, exprs: seq![Formula::Var { name: "P"@ }, Formula::Var { name: "R"@ }] }] }, rhs: Formula::Assoc { op: Op::And, exprs: seq![Formula::Var { name: "P"@ }, Formula::Assoc { op: Op::Or, exprs: seq![Formula::Var { name: "Q"@ }, Formula::Var { name: "R"@ }] }] }, side: SideModel::Always },
            RuleModel { lhs: Formula::Assoc { op: Op::And, exprs: seq![Formula::Assoc { op: Op::Or, exprs: seq![Formula::Var { name: "P"@ }, Formula::Var { name: "Q"@ }] }, Formula::Assoc { op: Op::Or, exprs: seq![Formula::Var { name: "P"@ }, Formula::Var { name: "R"@ }] }] }, rhs: Formula::Assoc { op: Op::Or, exprs: seq![Formula::Var { name: "P"@ }, Formula::Assoc { op: Op::And, exprs: seq![Formula::Var { name: "Q"@ }, Formula::Var { name: "R"@ }] }] }, side: SideModel::Always },
            RuleModel { lhs: Formula::Assoc { op: Op::Or, exprs: seq![Formula::Assoc { op: Op::And, exprs: seq![Formula::Var { name: "Q"@ }, Formula::Var { name: "P"@ }] }, Formula::Assoc { op: Op::And, exprs: seq![Formula::Var { name: "R"@ }, Formula::Var { name: "P"@ }] }] }, rhs: Formula::Assoc { op: Op::And, exprs: seq![Formula::Assoc { op: Op::Or, exprs: seq![Formula::Var { name: "Q"@ }, Formula::Var { name: "R"@ }] }, Formula::Var { name: "P"@ }] }, side: SideModel::Always },
            RuleModel { lhs: Formula::Assoc { op: Op::And, exprs: seq![Formula::Assoc { op: Op::Or, exprs: seq![Formula::Var { name: "Q"@ }, Formula::Var { name: "P"@ }] }, Formula::Assoc { op: Op::Or, exprs: seq![Formula::Var { name: "R"@ }, Formula::Var { name: "P"@ }] }] }, rhs: Formula::Assoc { op: Op::Or, exprs: seq![Formula::Assoc { op: Op::And, exprs: seq![Formula::Var { name: "Q"@ }, Formula::Var { name: "R"@ }] }, Formula::Var { name: "P"@ }] }, side: SideModel::Always },
        ],
        Bundle::Complement => seq![
            RuleModel { lhs: Formula::Assoc { op: Op::And, exprs: seq![Formula::Var { name: "P"@ }, Formula::Not { operand: Box::new(Formula::Var { name: "P"@ }) }] }, rhs: Formula::Contra, side: SideModel::Always },
            RuleModel { lhs: Formula::Assoc { op: Op::And, exprs: seq![Formula::Not { operand: Box::new(Formula::Var { name: "P"@ }) }, Formula::Var { name: "P"@ }] }, rhs: Formula::Contra, side: SideModel::Always },
            RuleModel { lhs: Formula::Assoc { op: Op::Or, exprs: seq![Formula::Var { name: "P"@ }, Formula::Not { operand: Box::new(Formula::Var { name: "P"@ }) }] }, rhs: Formula::Not { operand: Box::new(Formula::Contra) }, side: SideModel::Always },
            RuleModel { lhs: Formula::Assoc { op: Op::Or, exprs: seq![Formula::Not { operand: Box::new(Formula::Var { name: "P"@ }) }, Formula::Var { name: "P"@ }] }, rhs: Formula::Not { operand: Box::new(Formula::Contra) }, side: SideModel::Always },
        ],
        Bundle::Identity => seq![
            RuleModel { lhs: Formula::Assoc { op: Op::And, exprs: seq![Formula::Var { name: "P"@ }, Formula::Not { operand: Box::new(Formula::Contra) }] }, rhs: Formula::Var { name: "P"@ }, side: SideModel::Always },
            RuleModel { lhs: Formula::Assoc { op: Op::And, exprs: seq![Formula::Not { operand: Box::new(Formula::Contra) }, Formula::Var { name: "P"@ }] }, rhs: Formula::Var { name: "P"@ }, side: SideModel::Always },
            RuleModel { lhs: Formula::Assoc { op: Op::Or, exprs: seq![Formula::Var { name: "P"@ }, Formula::Contra] }, rhs: Formula::Var { name: "P"@ }, side: SideModel::Always },
            RuleModel { lhs: Formula::Assoc { op: Op::Or, exprs: seq![Formula::Contra, Formula::Var { name: "P"@ }] }, rhs: Formula::Var { name: "P"@ }, side: SideModel::Always },
        ],
        Bundle::Annihilation => seq![
            RuleModel { lhs: Formula::Assoc { op: Op::And, exprs: seq![Formula::Var { name: "P"@ }, Formula::Contra] }, rhs: Formula::Contra, side: SideModel::Always },
            RuleModel { lhs: Formula::Assoc { op: Op::And, exprs: seq![Formula::Contra, Formula::Var { name: "P"@ }] }, rhs: Formula::Contra, side: SideModel::Always },
            RuleModel { lhs: Formula::Assoc { op: Op::Or, exprs: seq![Formula::Var { name: "P"@ }, Formula::Not { operand: Box::new(Formula::Contra) }] }, rhs: Formula::Not { operand: Box::new(Formula::Contra) }, side: SideModel::Always },
            RuleModel { lhs: Formula::Assoc { op: Op::Or, exprs: seq![Formula::Not { operand: Box::new(Formula::Contra) }, Formula::Var { name: "P"@ }] }, rhs: Formula::Not { operand: Box::new(Formula::Contra) }, side: SideModel::Always },
        ],
        Bundle::Inverse => seq![
            RuleModel { lhs: Formula::Not { operand: Box::new(Formula::Not { operand: Box::new(Formula::Contra) }) }, rhs: Formula::Contra, side: SideModel::Always },
        ],
        Bundle::Absorption => seq![
            RuleModel { lhs: Formula::Assoc { op: Op::And, exprs: seq![Formula::Var { name: "P"@ }, Formula::Assoc { op: Op::Or, exprs: seq![Formula::Var { name: "P"@ }, Formula::Var { name: "Q"@ }] }] }, rhs: Formula::Var { name: "P"@ }, side: SideModel::Always },
            RuleModel { lhs: Formula::Assoc { op: Op::Or, exprs: seq![Formula::Var { name: "P"@ }, Formula::Assoc { op: Op::And, exprs: seq![Formula::Var { name: "P"@ }, Formula::Var { name: "Q"@ }] }] }, rhs: Formula::Var { name: "P"@ }, side: SideModel::Always },
            RuleModel { lhs: Formula::Assoc { op: Op::And, exprs: seq![Formula::Assoc { op: Op::Or, exprs: seq![Formula::Var { name: "P"@ }, Formula::Var { name: "Q"@ }] }, Formula::Var { name: "P"@ }] }, rhs: Formula::Var { name: "P"@ }, side: SideModel::Always },
            RuleModel { lhs: Formula::Assoc { op: Op::Or, exprs: seq![Formula::Assoc { op: Op::And, exprs: seq![Formula::Var { name: "P"@ }, Formula::Var { name: "Q"@ }] }, Formula::Var { name: "P"@ }] }, rhs: Formula::Var { name: "P"@ }, side: SideModel::Always },
            RuleModel { lhs: Formula::Assoc { op: Op::And, exprs: seq![Formula::Var { name: "P"@ }, Formula::Assoc { op: Op::Or, exprs: seq![Formula::Var { name: "Q"@ }, Formula::Var { name: "P"@ }] }] }, rhs: Formula::Var { name: "P"@ }, side: SideModel::Always },
            RuleModel { lhs: Formula::Assoc { op: Op::Or, exprs: seq![Formula::Var { name: "P"@ }, Formula::Assoc { op: Op::And, exprs: seq![Formula::Var { name: "Q"@ }, Formula::Var { name: "P"@ }] }] }, rhs: Formula::Var { name: "P"@ }, side: SideModel::Always },
            RuleModel { lhs: Formula::Assoc { op: Op::And, exprs: seq![Formula::Assoc { op: Op::Or, exprs: seq![Formula::Var { name: "Q"@ }, Formula::Var { name: "P"@ }] }, Formula::Var { name: "P"@ }] }, rhs: Formula::Var { name: "P"@ }, side: SideModel::Always },
            RuleModel { lhs: Formula::Assoc { op: Op::Or, exprs: seq![Formula::Assoc { op: Op::And, exprs: seq![Formula::Var { name: "Q"@ }, Formula::Var { name: "P"@ }] }, Formula::Var { name: "P"@ }] }, rhs: Formula::Var { name: "P"@ }, side: SideModel::Always },
        ],
        Bundle::Reduction => seq![
            RuleModel { lhs: Formula::Assoc { op: Op::And, exprs: seq![Formula::Var { name: "P"@ }, Formula::Assoc { op: Op::Or, exprs: seq![Formula::Not { operand: Box::new(Formula::Var { name: "P"@ }) }, Formula::Var { name: "Q"@ }] }] }, rhs: Formula::Assoc { op: Op::And, exprs: seq![Formula::Var { name: "P"@ }, Formula::Var { name: "Q"@ }] }, side: SideModel::Always },
            RuleModel { lhs: Formula::Assoc { op: Op::Or, exprs: seq![Formula::Var { name: "P"@ }, Formula::Assoc { op: Op::And, exprs: seq![Formula::Not { operand: Box::new(Formula::Var { name: "P"@ }) }, Formula::Var { name: "Q"@ }] }] }, rhs: Formula::Assoc { op: Op::Or, exprs: seq![Formula::Var { name: "P"@ }, Formula::Var { name: "Q"@ }] }, side: SideModel::Always },
            RuleModel { lhs: Formula::Assoc { op: Op::And, exprs: seq![Formula::Not { operand: Box::new(Formula::Var { name: "P"@ }) }, Formula::Assoc { op: Op::Or, exprs: seq![Formula::Var { name: "P"@ }, Formula::Var { name: "Q"@ }] }] }, rhs: Formula::Assoc { op: Op::And, exprs: seq![Formula::Not { operand: Box::new(Formula::Var { name: "P"@ }) }, Formula::Var { name: "Q"@ }] }, side: SideModel::Always },
            RuleModel { lhs: Formula::Assoc { op: Op::Or, exprs: seq![Formula::Not { operand: Box::new(Formula::Var { name: "P"@ }) }, Formula::Assoc { op: Op::And, exprs: seq![Formula::Var { name: "P"@ }, Formula::Var { name: "Q"@ }] }] }, rhs: Formula::Assoc { op: Op::Or, exprs: seq![Formula::Not { operand: Box::new(Formula::Var { name: "P"@ }) }, Formula::Var { name: "Q"@ }] }, side: SideModel::Always },
            RuleModel { lhs: Formula::Assoc { op: Op::And, exprs: seq![Formula::Assoc { op: Op::Or, exprs: seq![Formula::Not { operand: Box::new(Formula::Var { name: "P"@ }) }, Formula::Var { name: "Q"@ }] }, Formula::Var { name: "P"@ }] }, rhs: Formula::Assoc { op: Op::And, exprs: seq![Formula::Var { name: "Q"@ }, Formula::Var { name: "P"@ }] }, side: SideModel::Always },
            RuleModel { lhs: Formula::Assoc { op: Op::Or, exprs: seq![Formula::Assoc { op: Op::And, exprs: seq![Formula::Not { operand: Box::new(Formula::Var { name: "P"@ }) }, Formula::Var { name: "Q"@ }] }, Formula::Var { name: "P"@ }] }, rhs: Formula::Assoc { op: Op::Or, exprs: seq![Formula::Var { name: "Q"@ }, Formula::Var { name: "P"@ }] }, side: SideModel::Always },
            RuleModel { lhs: Formula::Assoc { op: Op::And, exprs: seq![Formula::Assoc { op: Op::Or, exprs: seq![Formula::Var { name: "P"@ }, Formula::Var { name: "Q"@ }] }, Formula::Not { operand: Box::new(Formula::Var { name: "P"@ }) }] }, rhs: Formula::Assoc { op: Op::And, exprs: seq![Formula::Var { name: "Q"@ }, Formula::Not { operand: Box::new(Formula::Var { name: "P"@ }) }] }, side: SideModel::Always },
            RuleModel { lhs: Formula::Assoc { op: Op::Or, exprs: seq![Formula::Assoc { op: Op::And, exprs: seq![Formula::Var { name: "P"@ }, Formula::Var { name: "Q"@ }] }, Formula::Not { operand: Box::new(Formula::Var { name: "P"@ }) }] }, rhs: Formula::Assoc { op: Op::Or, exprs: seq![Formula::Var { name: "Q"@ }, Formula::Not { operand: Box::new(Formula::Var { name: "P"@ }) }] }, side: SideModel::Always },
        ],
        Bundle::Adjacency => seq![
            RuleModel { lhs: Formula::Assoc { op: Op::And, exprs: seq![Formula::Assoc { op: Op::Or, exprs: seq![Formula::Var { name: "P"@ }, Formula::Var { name: "Q"@ }] }, Formula::Assoc { op: Op::Or, exprs: seq![Formula::Var { name: "P"@ }, Formula::Not { operand: Box::new(Formula::Var { name: "Q"@ }) }] }] }, rhs: Formula::Var { name: "P"@ }, side: SideModel::Always },
            RuleModel { lhs: Formula::Assoc { op: Op::Or, exprs: seq![Formula::Assoc { op: Op::And, exprs: seq![Formula::Var { name: "P"@ }, Formula::Var { name: "Q"@ }] }, Formula::Assoc { op: Op::And, exprs: seq![Formula::Var { name: "P"@ }, Formula::Not { operand: Box::new(Formula::Var { name: "Q"@ }) }] }] }, rhs: Formula::Var { name: "P"@ }, side: SideModel::Always },
        ],
        Bundle::CondComplement => seq![
            RuleModel { lhs: Formula::Impl { left: Box::new(Formula::Var { name: "P"@ }), right: Box::new(Formula::Var { name: "P"@ }) }, rhs: Formula::Not { operand: Box::new(Formula::Contra) }, side: SideModel::Always },
            RuleModel { lhs: Formula::Assoc { op: Op::Bicon, exprs: seq![Formula::Var { name: "P"@ }, Formula::Var { name: "P"@ }] }, rhs: Formula::Not { operand: Box::new(Formula::Contra) }, side: SideModel::Always },
            RuleModel { lhs: Formula::Assoc { op: Op::Bicon, exprs: seq![Formula::Var { name: "P"@ }, Formula::Not { operand: Box::new(Formula::Var { name: "P"@ }) }] }, rhs: Formula::Contra, side: SideModel::Always },
            RuleModel { lhs: Formula::Assoc { op: Op::Bicon, exprs: seq![Formula::Not { operand: Box::new(Formula::Var { name: "P"@ }) }, Formula::Var { name: "P"@ }] }, rhs: Formula::Contra, side: SideModel::Always },
        ],
        Bundle::CondIdentity => seq![
            RuleModel { lhs: Formula::Impl { left: Box::new(Formula::Var { name: "P"@ }), right: Box::new(Formula::Contra) }, rhs: Formula::Not { operand: Box::new(Formula::Var { name: "P"@ }) }, side: SideModel::Always },
            RuleModel { lhs: Formula::Impl { left: Box::new(Formula::Not { operand: Box::new(Formula::Contra) }), right: Box::new(Formula::Var { name: "P"@ }) }, rhs: Formula::Var { name: "P"@ }, side: SideModel::Always },
            RuleModel { lhs: Formula::Assoc { op: Op::Bicon, exprs: seq![Formula::Var { name: "P"@ }, Formula::Not { operand: Box::new(Formula::Contra) }] }, rhs: Formula::Var { name: "P"@ }, side: SideModel::Always },
            RuleModel { lhs: Formula::Assoc { op: Op::Bicon, exprs: seq![Formula::Var { name: "P"@ }, Formula::Contra] }, rhs: Formula::Not { operand: Box::new(Formula::Var { name: "P"@ }) }, side: SideModel::Always },
        ],
        Bundle::CondAnnihilation => seq![
            RuleModel { lhs: Formula::Impl { left: Box::new(Formula::Var { name: "P"@ }), right: Box::new(Formula::Not { operand: Box::new(Formula::Contra) }) }, rhs: Formula::Not { operand: Box::new(Formula::Contra) }, side: SideModel::Always },
            RuleModel { lhs: Formula::Impl { left: Box::new(Formula::Contra), right: Box::new(Formula::Var { name: "P"@ }) }, rhs: Formula::Not { operand: Box::new(Formula::Contra) }, side: SideModel::Always },
        ],
        Bundle::CondImplication => seq![
            RuleModel { lhs: Formula::Impl { left: Box::new(Formula::Var { name: "P"@ }), right: Box::new(Formula::Var { name: "Q"@ }) }, rhs: Formula::Assoc { op: Op::Or, exprs: seq![Formula::Not { operand: Box::new(Formula::Var { name: "P"@ }) }, Formula::Var { name: "Q"@ }] }, side: SideModel::Always },
            RuleModel { lhs: Formula::Not { operand: Box::new(Formula::Impl { left: Box::new(Formula::Var { name: "P"@ }), right: Box::new(Formula::Var { name: "Q"@ }) }) }, rhs: Formula::Assoc { op: Op::And, exprs: seq![Formula::Var { name: "P"@ }, Formula::Not { operand: Box::new(Formula::Var { name: "Q"@ }) }] }, side: SideModel::Always },
        ],
        Bundle::CondBiImplication => seq![
            RuleModel { lhs: Formula::Assoc { op: Op::Bicon, exprs: seq![Formula::Var { name: "P"@ }, Formula::Var { name: "Q"@ }] }, rhs: Formula::Assoc { op: Op::And, exprs: seq![Formula::Impl { left: Box::new(Formula::Var { name: "P"@ }), right: Box::new(Formula::Var { name: "Q"@ }) }, Formula::Impl { left: Box::new(Formula::Var { name: "Q"@ }), right: Box::new(Formula::Var { name: "P"@ }) }] }, side: SideModel::Always },
        ],
        Bundle::CondContraposition => seq![
            RuleModel { lhs: Formula::Impl { left: Box::new(Formula::Not { operand: Box::new(Formula::Var { name: "P"@ }) }), right: Box::new(Formula::Not { operand: Box::new(Formula::Var { name: "Q"@ }) }) }, rhs: Formula::Impl { left: Box::new(Formula::Var { name: "Q"@ }), right: Box::new(Formula::Var { name: "P"@ }) }, side: SideModel::Always },
        ],
        Bundle::CondCurrying => seq![
            RuleModel { lhs: Formula::Impl { left: Box::new(Formula::Var { name: "P"@ }), right: Box::new(Formula::Impl { left: Box::new(Formula::Var { name: "Q"@ }), right: Box::new(Formula::Var { name: "R"@ }) }) }, rhs: Formula::Impl { left: Box::new(Formula::Assoc { op: Op::And, exprs: seq![Formula::Var { name: "P"@ }, Formula::Var { name: "Q"@ }] }), right: Box::new(Formula::Var { name: "R"@ }) }, side: SideModel::Always },
        ],
        Bundle::CondDistribution => seq![
            RuleModel { lhs: Formula::Assoc { op: Op::And, exprs: seq![Formula::Impl { left: Box::new(Formula::Var { name: "P"@ }), right: Box::new(Formula::Var { name: "Q"@ }) }, Formula::Impl { left: Box::new(Formula::Var { name: "P"@ }), right: Box::new(Formula::Var { name: "R"@ }) }] }, rhs: Formula::Impl { left: Box::new(Formula::Var { name: "P"@ }), right: Box::new(Formula::Assoc { op: Op::And, exprs: seq![Formula::Var { name: "Q"@ }, Formula::Var { name: "R"@ }] }) }, side: SideModel::Always },
            RuleModel { lhs: Formula::Assoc { op: Op::Or, exprs: seq![Formula::Impl { left: Box::new(Formula::Var { name: "P"@ }), right: Box::new(Formula::Var { name: "R"@ }) }, Formula::Impl { left: Box::new(Formula::Var { name: "Q"@ }), right: Box::new(Formula::Var { name: "R"@ }) }] }, rhs: Formula::Impl { left: Box::new(Formula::Assoc { op: Op::And, exprs: seq![Formula::Var { name: "P"@ }, Formula::Var { name: "Q"@ }] }), right: Box::new(Formula::Var { name: "R"@ }) }, side: SideModel::Always },
            RuleModel { lhs: Formula::Assoc { op: Op::Or, exprs: seq![Formula::Impl { left: Box::new(Formula::Var { name: "P"@ }), right: Box::new(Formula::Var { name: "Q"@ }) }, Formula::Impl { left: Box::new(Formula::Var { name: "P"@ }), right: Box::new(Formula::Var { name: "R"@ }) }] }, rhs: Formula::Impl { left: Box::new(Formula::Var { name: "P"@ }), right: Box::new(Formula::Assoc { op: Op::Or, exprs: seq![Formula::Var { name: "Q"@ }, Formula::Var { name: "R"@ }] }) }, side: SideModel::Always },
            RuleModel { lhs: Formula::Assoc { op: Op::And, exprs: seq![Formula::Impl { left: Box::new(Formula::Var { name: "P"@ }), right: Box::new(Formula::Var { name: "R"@ }) }, Formula::Impl { left: Box::new(Formula::Var { name: "Q"@ }), right: Box::new(Formula::Var { name: "R"@ }) }] }, rhs: Formula::Impl { left: Box::new(Formula::Assoc { op: Op::Or, exprs: seq![Formula::Var { name: "P"@ }, Formula::Var { name: "Q"@ }] }), right: Box::new(Formula::Var { name: "R"@ }) }, side: SideModel::Always },
        ],
        Bundle::CondReduction => seq![
            RuleModel { lhs: Formula::Assoc { op: Op::And, exprs: seq![Formula::Var { name: "P"@ }, Formula::Impl { left: Box::new(Formula::Var { name: "P"@ }), right: Box::new(Formula::Var { name: "Q"@ }) }] }, rhs: Formula::Assoc { op: Op::And, exprs: seq![Formula::Var { name: "P"@ }, Formula::Var { name: "Q"@ }] }, side: SideModel::Always },
            RuleModel { lhs: Formula::Assoc { op: Op::And, exprs: seq![Formula::Not { operand: Box::new(Formula::Var { name: "Q"@ }) }, Formula::Impl { left: Box::new(Formula::Var { name: "P"@ }), right: Box::new(Formula::Var { name: "Q"@ }) }] }, rhs: Formula::Assoc { op: Op::And, exprs: seq![Formula::Not { operand: Box::new(Formula::Var { name: "P"@ }) }, Formula::Not { operand: Box::new(Formula::Var { name: "Q"@ }) }] }, side: SideModel::Always },
        ],
        Bundle::KnightsAndKnaves => seq![
            RuleModel { lhs: Formula::Assoc { op: Op::Bicon, exprs: seq![Formula::Var { name: "P"@ }, Formula::Assoc { op: Op::And, exprs: seq![Formula::Var { name: "P"@ }, Formula::Var { name: "Q"@ }] }] }, rhs: Formula::Impl { left: Box::new(Formula::Var { name: "P"@ }), right: Box::new(Formula::Var { name: "Q"@ }) }, side: SideModel::Always },
            RuleModel { lhs: Formula::Assoc { op: Op::Bicon, exprs: seq![Formula::Var { name: "P"@ }, Formula::Assoc { op: Op::Or, exprs: seq![Formula::Var { name: "P"@ }, Formula::Var { name: "Q"@ }] }] }, rhs: Formula::Impl { left: Box::new(Formula::Var { name: "Q"@ }), right: Box::new(Formula::Var { name: "P"@ }) }, side: SideModel::Always },
        ],
        Bundle::CondIdempotence => seq![
            RuleModel { lhs: Formula::Impl { left: Box::new(Formula::Var { name: "P"@ }), right: Box::new(Formula::Not { operand: Box::new(Formula::Var { name: "P"@ }) }) }, rhs: Formula::Not { operand: Box::new(Formula::Var { name: "P"@ }) }, side: SideModel::Always },
            RuleModel { lhs: Formula::Impl { left: Box::new(Formula::Not { operand: Box::new(Formula::Var { name: "P"@ }) }), right: Box::new(Formula::Var { name: "P"@ }) }, rhs: Formula::Var { name: "P"@ }, side: SideModel::Always },
        ],
        Bundle::BiconditionalNegation => seq![
            RuleModel { lhs: Formula::Assoc { op: Op::Bicon, exprs: seq![Formula::Not { operand: Box::new(Formula::Var { name: "P"@ }) }, Formula::Var { name: "Q"@ }] }, rhs: Formula::Not { operand: Box::new(Formula::Assoc { op: Op::Bicon, exprs: seq![Formula::Var { name: "P"@ }, Formula::Var { name: "Q"@ }] }) }, side: SideModel::Always },
            RuleModel { lhs: Formula::Assoc { op: Op::Bicon, exprs: seq![Formula::Var { name: "P"@ }, Formula::Not { operand: Box::new(Formula::Var { name: "Q"@ }) }] }, rhs: Formula::Not { operand: Box::new(Formula::Assoc { op: Op::Bicon, exprs: seq![Formula::Var { name: "P"@ }, Formula::Var { name: "Q"@ }] }) }, side: SideModel::Always },
        ],
        Bundle::BiconditionalSubstitution => seq![
            RuleModel { lhs: Formula::Assoc { op: Op::And, exprs: seq![Formula::Assoc { op: Op::Bicon, exprs: seq![Formula::Var { name: "P"@ }, Formula::Var { name: "Q"@ }] }, Formula::Var { name: "Q"@ }] }, rhs: Formula::Assoc { op: Op::And, exprs: seq![Formula::Var { name: "P"@ }, Formula::Var { name: "Q"@ }] }, side: SideModel::Always },
            RuleModel { lhs: Formula::Assoc { op: Op::And, exprs: seq![Formula::Assoc { op: Op::Bicon, exprs: seq![Formula::Var { name: "P"@ }, Formula::Var { name: "Q"@ }] }, Formula::Var { name: "P"@ }] }, rhs: Formula::Assoc { op: Op::And, exprs: seq![Formula::Var { name: "P"@ }, Formula::Var { name: "Q"@ }] }, side: SideModel::Always },
        ],
        Bundle::QuantifierNegation => seq![
            RuleModel { lhs: Formula::Not { operand: Box::new(Formula::Quant { kind: QuantKind::Forall, name: "x"@, body: Box::new(Formula::Var { name: "P"@ }) }) }, rhs: Formula::Quant { kind: QuantKind::Exists, name: "x"@, body: Box::new(Formula::Not { operand: Box::new(Formula::Var { name: "P"@ }) }) }, side: SideModel::Always },
            RuleModel { lhs: Formula::Not { operand: Box::new(Formula::Quant { kind: QuantKind::Exists, name: "x"@, body: Box::new(Formula::Var { name: "P"@ }) }) }, rhs: Formula::Quant { kind: QuantKind::Forall, name: "x"@, body: Box::new(Formula::Not { operand: Box::new(Formula::Var { name: "P"@ }) }) }, side: SideModel::Always },
        ],
        Bundle::NullQuantification => seq![
            RuleModel { lhs: Formula::Quant { kind: QuantKind::Forall, name: "x"@, body: Box::new(Formula::Var { name: "P"@ }) }, rhs: Formula::Var { name: "P"@ }, side: SideModel::NotFree("x"@, "P"@) },
            RuleModel { lhs: Formula::Quant { kind: QuantKind::Exists, name: "x"@, body: Box::new(Formula::Var { name: "P"@ }) }, rhs: Formula::Var { name: "P"@ }, side: SideModel::NotFree("x"@, "P"@) },
        ],
        Bundle::SwappingQuantifiers => seq![
            RuleModel { lhs: Formula::Quant { kind: QuantKind::Forall, name: "x"@, body: Box::new(Formula::Quant { kind: QuantKind::Forall, name: "y"@, body: Box::new(Formula::Var { name: "P"@ }) }) }, rhs: Formula::Quant { kind: QuantKind::Forall, name: "y"@, body: Box::new(Formula::Quant { kind: QuantKind::Forall, name: "x"@, body: Box::new(Formula::Var { name: "P"@ }) }) }, side: SideModel::Before("y"@, "x"@) },
            RuleModel { lhs: Formula::Quant { kind: QuantKind::Exists, name: "x"@, body: Box::new(Formula::Quant { kind: QuantKind::Exists, name: "y"@, body: Box::new(Formula::Var { name: "P"@ }) }) }, rhs: Formula::Quant { kind: QuantKind::Exists, name: "y"@, body: Box::new(Formula::Quant { kind: QuantKind::Exists, name: "x"@, body: Box::new(Formula::Var { name: "P"@ }) }) }, side: SideModel::Before("y"@, "x"@) },
        ],
        Bundle::AristoteleanSquare => seq![
            RuleModel { lhs: Formula::Quant { kind: QuantKind::Forall, name: "x"@, body: Box::new(Formula::Not { operand: Box::new(Formula::Var { name: "P"@ }) }) }, rhs: Formula::Not { operand: Box::new(Formula::Quant { kind: QuantKind::Exists, name: "x"@, body: Box::new(Formula::Var { name: "P"@ }) }) }, side: SideModel::Always },
            RuleModel { lhs: Formula::Quant { kind: QuantKind::Exists, name: "x"@, body: Box::new(Formula::Not { operand: Box::new(Formula::Var { name: "P"@ }) }) }, rhs: Formula::Not { operand: Box::new(Formula::Quant { kind: QuantKind::Forall, name: "x"@, body: Box::new(Formula::Var { name: "P"@ }) }) }, side: SideModel::Always },
        ],
        Bundle::QuantifierDistribution => seq![
            RuleModel { lhs: Formula::Quant { kind: QuantKind::Forall, name: "x"@, body: Box::new(Formula::Assoc { op: Op::And, exprs: seq![Formula::Var { name: "P"@ }, Formula::Var { name: "Q"@ }] }) }, rhs: Formula::Assoc { op: Op::And, exprs: seq![Formula::Quant { kind: QuantKind::Forall, name: "x"@, body: Box::new(Formula::Var { name: "P"@ }) }, Formula::Quant { kind: QuantKind::Forall, name: "x"@, body: Box::new(Formula::Var { name: "Q"@ }) }] }, side: SideModel::Always },
            RuleModel { lhs: Formula::Quant { kind: QuantKind::Exists, name: "x"@, body: Box::new(Formula::Assoc { op: Op::Or, exprs: seq![Formula::Var { name: "P"@ }, Formula::Var { name: "Q"@ }] }) }, rhs: Formula::Assoc { op: Op::Or, exprs: seq![Formula::Quant { kind: QuantKind::Exists, name: "x"@, body: Box::new(Formula::Var { name: "P"@ }) }, Formula::Quant { kind: QuantKind::Exists, name: "x"@, body: Box::new(Formula::Var { name: "Q"@ }) }] }, side: SideModel::Always },
        ],
        Bundle::PrenexLaws => seq![
            RuleModel { lhs: Formula::Assoc { op: Op::And, exprs: seq![Formula::Quant { kind: QuantKind::Forall, name: "x"@, body: Box::new(Formula::Var { name: "P"@ }) }, Formula::Var { name: "Q"@ }] }, rhs: Formula::Quant { kind: QuantKind::Forall, name: "x"@, body: Box::new(Formula::Assoc { op: Op::And, exprs: seq![Formula::Var { name: "P"@ }, Formula::Var { name: "Q"@ }] }) }, side: SideModel::NotFree("x"@, "Q"@) },
            RuleModel { lhs: Formula::Assoc { op: Op::And, exprs: seq![Formula::Var { name: "Q"@ }, Formula::Quant { kind: QuantKind::Forall, name: "x"@, body: Box::new(Formula::Var { name: "P"@ }) }] }, rhs: Formula::Quant { kind: QuantKind::Forall, name: "x"@, body: Box::new(Formula::Assoc { op: Op::And, exprs: seq![Formula::Var { name: "Q"@ }, Formula::Var { name: "P"@ }] }) }, side: SideModel::NotFree("x"@, "Q"@) },
            RuleModel { lhs: Formula::Assoc { op: Op::And, exprs: seq![Formula::Quant { kind: QuantKind::Exists, name: "x"@, body: Box::new(Formula::Var { name: "P"@ }) }, Formula::Var { name: "Q"@ }] }, rhs: Formula::Quant { kind: QuantKind::Exists, name: "x"@, body: Box::new(Formula::Assoc { op: Op::And, exprs: seq![Formula::Var { name: "P"@ }, Formula::Var { name: "Q"@ }] }) }, side: SideModel::NotFree("x"@, "Q"@) },
            RuleModel { lhs: Formula::Assoc { op: Op::And, exprs: seq![Formula::Var { name: "Q"@ }, Formula::Quant { kind: QuantKind::Exists, name: "x"@, body: Box::new(Formula::Var { name: "P"@ }) }] }, rhs: Formula::Quant { kind: QuantKind::Exists, name: "x"@, body: Box::new(Formula::Assoc { op: Op::And, exprs: seq![Formula::Var { name: "Q"@ }, Formula::Var { name: "P"@ }] }) }, side: SideModel::NotFree("x"@, "Q"@) },
            RuleModel { lhs: Formula::Assoc { op: Op::Or, exprs: seq![Formula::Quant { kind: QuantKind::Forall, name: "x"@, body: Box::new(Formula::Var { name: "P"@ }) }, Formula::Var { name: "Q"@ }] }, rhs: Formula::Quant { kind: QuantKind::Forall, name: "x"@, body: Box::new(Formula::Assoc { op: Op::Or, exprs: seq![Formula::Var { name: "P"@ }, Formula::Var { name: "Q"@ }] }) }, side: SideModel::NotFree("x"@, "Q"@) },
            RuleModel { lhs: Formula::Assoc { op: Op::Or, exprs: seq![Formula::Var { name: "Q"@ }, Formula::Quant { kind: QuantKind::Forall, name: "x"@, body: Box::new(Formula::Var { name: "P"@ }) }] }, rhs: Formula::Quant { kind: QuantKind::Forall, name: "x"@, body: Box::new(Formula::Assoc { op: Op::Or, exprs: seq![Formula::Var { name: "Q"@ }, Formula::Var { name: "P"@ }] }) }, side: SideModel::NotFree("x"@, "Q"@) },
            RuleModel { lhs: Formula::Assoc { op: Op::Or, exprs: seq![Formula::Quant { kind: QuantKind::Exists, name: "x"@, body: Box::new(Formula::Var { name: "P"@ }) }, Formula::Var { name: "Q"@ }] }, rhs: Formula::Quant { kind: QuantKind::Exists, name: "x"@, body: Box::new(Formula::Assoc { op: Op::Or, exprs: seq![Formula::Var { name: "P"@ }, Formula::Var { name: "Q"@ }] }) }, side: SideModel::NotFree("x"@, "Q"@) },
            RuleModel { lhs: Formula::Assoc { op: Op::Or, exprs: seq![Formula::Var { name: "Q"@ }, Formula::Quant { kind: QuantKind::Exists, name: "x"@, body: Box::new(Formula::Var { name: "P"@ }) }] }, rhs: Formula::Quant { kind: QuantKind::Exists, name: "x"@, body: Box::new(Formula::Assoc { op: Op::Or, exprs: seq![Formula::Var { name: "Q"@ }, Formula::Var { name: "P"@ }] }) }, side: SideModel::NotFree("x"@, "Q"@) },
            RuleModel { lhs: Formula::Impl { left: Box::new(Formula::Quant { kind: QuantKind::Forall, name: "x"@, body: Box::new(Formula::Var { name: "P"@ }) }), right: Box::new(Formula::Var { name: "Q"@ }) }, rhs: Formula::Quant { kind: QuantKind::Exists, name: "x"@, body: Box::new(Formula::Impl { left: Box::new(Formula::Var { name: "P"@ }), right: Box::new(Formula::Var { name: "Q"@ }) }) }, side: SideModel::NotFree("x"@, "Q"@) },
            RuleModel { lhs: Formula::Impl { left: Box::new(Formula::Quant { kind: QuantKind::Exists, name: "x"@, body: Box::new(Formula::Var { name: "P"@ }) }), right: Box::new(Formula::Var { name: "Q"@ }) }, rhs: Formula::Quant { kind: QuantKind::Forall, name: "x"@, body: Box::new(Formula::Impl { left: Box::new(Formula::Var { name: "P"@ }), right: Box::new(Formula::Var { name: "Q"@ }) }) }, side: SideModel::NotFree("x"@, "Q"@) },
            RuleModel { lhs: Formula::Impl { left: Box::new(Formula::Var { name: "Q"@ }), right: Box::new(Formula::Quant { kind: QuantKind::Forall, name: "x"@, body: Box::new(Formula::Var { name: "P"@ }) }) }, rhs: Formula::Quant { kind: QuantKind::Forall, name: "x"@, body: Box::new(Formula::Impl { left: Box::new(Formula::Var { name: "Q"@ }), right: Box::new(Formula::Var { name: "P"@ }) }) }, side: SideModel::NotFree("x"@, "Q"@) },
            RuleModel { lhs: Formula::Impl { left: Box::new(Formula::Var { name: "Q"@ }), right: Box::new(Formula::Quant { kind: QuantKind::Exists, name: "x"@, body: Box::new(Formula::Var { name: "P"@ }) }) }, rhs: Formula::Quant { kind: QuantKind::Exists, name: "x"@, body: Box::new(Formula::Impl { left: Box::new(Formula::Var { name: "Q"@ }), right: Box::new(Formula::Var { name: "P"@ }) }) }, side: SideModel::NotFree("x"@, "Q"@) },
        ],
    }
}

fn rules_double_negation() -> (r: Vec<RewriteRule>)
    ensures
        rules_model(r@) == bundle(Bundle::DoubleNegation),
{
    let mut v: Vec<RewriteRule> = Vec::new();
    v.push(RewriteRule { lhs: not(not(var("P"))), rhs: var("P"), side: Side::Always });
    assert(rules_model(v@) =~= bundle(Bundle::DoubleNegation));
    v
}

fn rules_distribution() -> (r: Vec<RewriteRule>)
    ensures
        rules_model(r@) == bundle(Bundle::Distribution),
{
    let mut v: Vec<RewriteRule> = Vec::new();
    v.push(RewriteRule { lhs: or_like(Op::Or, or_like(Op::And, var("P"), var("Q")), or_like(Op::And, var("P"), var("R"))), rhs: or_like(Op::And, var("P"), or_like(Op::Or, var("Q"), var("R"))), side: Side::Always });
    v.push(RewriteRule { lhs: or_like(Op::And, or_like(Op::Or, var("P"), var("Q")), or_like(Op::Or, var("P"), var("R"))), rhs: or_like(Op::Or, var("P"), or_like(Op::And, var("Q"), var("R"))), side: Side::Always });
    v.push(RewriteRule { lhs: or_like(Op::Or, or_like(Op::And, var("Q"), var("P")), or_like(Op::And, var("R"), var("P"))), rhs: or_like(Op::And, or_like(Op::Or, var("Q"), var("R")), var("P")), side: Side::Always });
    v.push(RewriteRule { lhs: or_like(Op::And, or_like(Op::Or, var("Q"), var("P")), or_like(Op::Or, var("R"), var("P"))), rhs: or_like(Op::Or, or_like(Op::And, var("Q"), var("R")), var("P")), side: Side::Always });
    assert(rules_model(v@) =~= bundle(Bundle::Distribution));
    v
}

fn rules_complement() -> (r: Vec<RewriteRule>)
    ensures
        rules_model(r@) == bundle(Bundle::Complement),
{
    let mut v: Vec<RewriteRule> = Vec::new();
    v.push(RewriteRule { lhs: or_like(Op::And, var("P"), not(var("P"))), rhs: Expr::Contra, side: Side::Always });
    v.push(RewriteRule { lhs: or_like(Op::And, not(var("P")), var("P")), rhs: Expr::Contra, side: Side::Always });
    v.push(RewriteRule { lhs: or_like(Op::Or, var("P"), not(var("P"))), rhs: not(Expr::Contra), side: Side::Always });
    v.push(RewriteRule { lhs: or_like(Op::Or, not(var("P")), var("P")), rhs: not(Expr::Contra), side: Side::Always });
    assert(rules_model(v@) =~= bundle(Bundle::Complement));
    v
}

fn rules_identity() -> (r: Vec<RewriteRule>)
    ensures
        rules_model(r@) == bundle(Bundle::Identity),
{
    let mut v: Vec<RewriteRule> = Vec::new();
    v.push(RewriteRule { lhs: or_like(Op::And, var("P"), not(Expr::Contra)), rhs: var("P"), side: Side::Always });
    v.push(RewriteRule { lhs: or_like(Op::And, not(Expr::Contra), var("P")), rhs: var("P"), side: Side::Always });
    v.push(RewriteRule { lhs: or_like(Op::Or, var("P"), Expr::Contra), rhs: var("P"), side: Side::Always });
    v.push(RewriteRule { lhs: or_like(Op::Or, Expr::Contra, var("P")), rhs: var("P"), side: Side::Always });
    assert(rules_model(v@) =~= bundle(Bundle::Identity));
    v
}

fn rules_annihilation() -> (r: Vec<RewriteRule>)
    ensures
        rules_model(r@) == bundle(Bundle::Annihilation),
{
    let mut v: Vec<RewriteRule> = Vec::new();
    v.push(RewriteRule { lhs: or_like(Op::And, var("P"), Expr::Contra), rhs: Expr::Contra, side: Side::Always });
    v.push(RewriteRule { lhs: or_like(Op::And, Expr::Contra, var("P")), rhs: Expr::Contra, side: Side::Always });
    v.push(RewriteRule { lhs: or_like(Op::Or, var("P"), not(Expr::Contra)), rhs: not(Expr::Contra), side: Side::Always });
    v.push(RewriteRule { lhs: or_like(Op::Or, not(Expr::Contra), var("P")), rhs: not(Expr::Contra), side: Side::Always });
    assert(rules_model(v@) =~= bundle(Bundle::Annihilation));
    v
}

fn rules_inverse() -> (r: Vec<RewriteRule>)
    ensures
        rules_model(r@) == bundle(Bundle::Inverse),
{
    let mut v: Vec<RewriteRule> = Vec::new();
    v.push(RewriteRule { lhs: not(not(Expr::Contra)), rhs: Expr::Contra, side: Side::Always });
    assert(rules_model(v@) =~= bundle(Bundle::Inverse));
    v
}

fn rules_absorption() -> (r: Vec<RewriteRule>)
    ensures
        rules_model(r@) == bundle(Bundle::Absorption),
{
    let mut v: Vec<RewriteRule> = Vec::new();
    v.push(RewriteRule { lhs: or_like(Op::And, var("P"), or_like(Op::Or, var("P"), var("Q"))), rhs: var("P"), side: Side::Always });
    v.push(RewriteRule { lhs: or_like(Op::Or, var("P"), or_like(Op::And, var("P"), var("Q"))), rhs: var("P"), side: Side::Always });
    v.push(RewriteRule { lhs: or_like(Op::And, or_like(Op::Or, var("P"), var("Q")), var("P")), rhs: var("P"), side: Side::Always });
    v.push(RewriteRule { lhs: or_like(Op::Or, or_like(Op::And, var("P"), var("Q")), var("P")), rhs: var("P"), side: Side::Always });
    v.push(RewriteRule { lhs: or_like(Op::And, var("P"), or_like(Op::Or, var("Q"), var("P"))), rhs: var("P"), side: Side::Always });
    v.push(RewriteRule { lhs: or_like(Op::Or, var("P"), or_like(Op::And, var("Q"), var("P"))), rhs: var("P"), side: Side::Always });
    v.push(RewriteRule { lhs: or_like(Op::And, or_like(Op::Or, var("Q"), var("P")), var("P")), rhs: var("P"), side: Side::Always });
    v.push(RewriteRule { lhs: or_like(Op::Or, or_like(Op::And, var("Q"), var("P")), var("P")), rhs: var("P"), side: Side::Always });
    assert(rules_model(v@) =~= bundle(Bundle::Absorption));
    v
}

fn rules_reduction() -> (r: Vec<RewriteRule>)
    ensures
        rules_model(r@) == bundle(Bundle::Reduction),
{
    let mut v: Vec<RewriteRule> = Vec::new();
    v.push(RewriteRule { lhs: or_like(Op::And, var("P"), or_like(Op::Or, not(var("P")), var("Q"))), rhs: or_like(Op::And, var("P"), var("Q")), side: Side::Always });
    v.push(RewriteRule { lhs: or_like(Op::Or, var("P"), or_like(Op::And, not(var("P")), var("Q"))), rhs: or_like(Op::Or, var("P"), var("Q")), side: Side::Always });
    v.push(RewriteRule { lhs: or_like(Op::And, not(var("P")), or_like(Op::Or, var("P"), var("Q"))), rhs: or_like(Op::And, not(var("P")), var("Q")), side: Side::Always });
    v.push(RewriteRule { lhs: or_like(Op::Or, not(var("P")), or_like(Op::And, var("P"), var("Q"))), rhs: or_like(Op::Or, not(var("P")), var("Q")), side: Side::Always });
    v.push(RewriteRule { lhs: or_like(Op::And, or_like(Op::Or, not(var("P")), var("Q")), var("P")), rhs: or_like(Op::And, var("Q"), var("P")), side: Side::Always });
    v.push(RewriteRule { lhs: or_like(Op::Or, or_like(Op::And, not(var("P")), var("Q")), var("P")), rhs: or_like(Op::Or, var("Q"), var("P")), side: Side::Always });
    v.push(RewriteRule { lhs: or_like(Op::And, or_like(Op::Or, var("P"), var("Q")), not(var("P"))), rhs: or_like(Op::And, var("Q"), not(var("P"))), side: Side::Always });
    v.push(RewriteRule { lhs: or_like(Op::Or, or_like(Op::And, var("P"), var("Q")), not(var("P"))), rhs: or_like(Op::Or, var("Q"), not(var("P"))), side: Side::Always });
    assert(rules_model(v@) =~= bundle(Bundle::Reduction));
    v
}

fn rules_adjacency() -> (r: Vec<RewriteRule>)
    ensures
        rules_model(r@) == bundle(Bundle::Adjacency),
{
    let mut v: Vec<RewriteRule> = Vec::new();
    v.push(RewriteRule { lhs: or_like(Op::And, or_like(Op::Or, var("P"), var("Q")), or_like(Op::Or, var("P"), not(var("Q")))), rhs: var("P"), side: Side::Always });
    v.push(RewriteRule { lhs: or_like(Op::Or, or_like(Op::And, var("P"), var("Q")), or_like(Op::And, var("P"), not(var("Q")))), rhs: var("P"), side: Side::Always });
    assert(rules_model(v@) =~= bundle(Bundle::Adjacency));
    v
}

fn rules_cond_complement() -> (r: Vec<RewriteRule>)
    ensures
        rules_model(r@) == bundle(Bundle::CondComplement),
{
    let mut v: Vec<RewriteRule> = Vec::new();
    v.push(RewriteRule { lhs: implication(var("P"), var("P")), rhs: not(Expr::Contra), side: Side::Always });
    v.push(RewriteRule { lhs: or_like(Op::Bicon, var("P"), var("P")), rhs: not(Expr::Contra), side: Side::Always });
    v.push(RewriteRule { lhs: or_like(Op::Bicon, var("P"), not(var("P"))), rhs: Expr::Contra, side: Side::Always });
    v.push(RewriteRule { lhs: or_like(Op::Bicon, not(var("P")), var("P")), rhs: Expr::Contra, side: Side::Always });
    assert(rules_model(v@) =~= bundle(Bundle::CondComplement));
    v
}

fn rules_cond_identity() -> (r: Vec<RewriteRule>)
    ensures
        rules_model(r@) == bundle(Bundle::CondIdentity),
{
    let mut v: Vec<RewriteRule> = Vec::new();
    v.push(RewriteRule { lhs: implication(var("P"), Expr::Contra), rhs: not(var("P")), side: Side::Always });
    v.push(RewriteRule { lhs: implication(not(Expr::Contra), var("P")), rhs: var("P"), side: Side::Always });
    v.push(RewriteRule { lhs: or_like(Op::Bicon, var("P"), not(Expr::Contra)), rhs: var("P"), side: Side::Always });
    v.push(RewriteRule { lhs: or_like(Op::Bicon, var("P"), Expr::Contra), rhs: not(var("P")), side: Side::Always });
    assert(rules_model(v@) =~= bundle(Bundle::CondIdentity));
    v
}

fn rules_cond_annihilation() -> (r: Vec<RewriteRule>)
    ensures
        rules_model(r@) == bundle(Bundle::CondAnnihilation),
{
    let mut v: Vec<RewriteRule> = Vec::new();
    v.push(RewriteRule { lhs: implication(var("P"), not(Expr::Contra)), rhs: not(Expr::Contra), side: Side::Always });
    v.push(RewriteRule { lhs: implication(Expr::Contra, var("P")), rhs: not(Expr::Contra), side: Side::Always });
    assert(rules_model(v@) =~= bundle(Bundle::CondAnnihilation));
    v
}

fn rules_cond_implication() -> (r: Vec<RewriteRule>)
    ensures
        rules_model(r@) == bundle(Bundle::CondImplication),
{
    let mut v: Vec<RewriteRule> = Vec::new();
    v.push(RewriteRule { lhs: implication(var("P"), var("Q")), rhs: or_like(Op::Or, not(var("P")), var("Q")), side: Side::Always });
    v.push(RewriteRule { lhs: not(implication(var("P"), var("Q"))), rhs: or_like(Op::And, var("P"), not(var("Q"))), side: Side::Always });
    assert(rules_model(v@) =~= bundle(Bundle::CondImplication));
    v
}

fn rules_cond_bi_implication() -> (r: Vec<RewriteRule>)
    ensures
        rules_model(r@) == bundle(Bundle::CondBiImplication),
{
    let mut v: Vec<RewriteRule> = Vec::new();
    v.push(RewriteRule { lhs: or_like(Op::Bicon, var("P"), var("Q")), rhs: or_like(Op::And, implication(var("P"), var("Q")), implication(var("Q"), var("P"))), side: Side::Always });
    assert(rules_model(v@) =~= bundle(Bundle::CondBiImplication));
    v
}

fn rules_cond_contraposition() -> (r: Vec<RewriteRule>)
    ensures
        rules_model(r@) == bundle(Bundle::CondContraposition),
{
    let mut v: Vec<RewriteRule> = Vec::new();
    v.push(RewriteRule { lhs: implication(not(var("P")), not(var("Q"))), rhs: implication(var("Q"), var("P")), side: Side::Always });
    assert(rules_model(v@) =~= bundle(Bundle::CondContraposition));
    v
}

fn rules_cond_currying() -> (r: Vec<RewriteRule>)
    ensures
        rules_model(r@) == bundle(Bundle::CondCurrying),
{
    let mut v: Vec<RewriteRule> = Vec::new();
    v.push(RewriteRule { lhs: implication(var("P"), implication(var("Q"), var("R"))), rhs: implication(or_like(Op::And, var("P"), var("Q")), var("R")), side: Side::Always });
    assert(rules_model(v@) =~= bundle(Bundle::CondCurrying));
    v
}

fn rules_cond_distribution() -> (r: Vec<RewriteRule>)
    ensures
        rules_model(r@) == bundle(Bundle::CondDistribution),
{
    let mut v: Vec<RewriteRule> = Vec::new();
    v.push(RewriteRule { lhs: or_like(Op::And, implication(var("P"), var("Q")), implication(var("P"), var("R"))), rhs: implication(var("P"), or_like(Op::And, var("Q"), var("R"))), side: Side::Always });
    v.push(RewriteRule { lhs: or_like(Op::Or, implication(var("P"), var("R")), implication(var("Q"), var("R"))), rhs: implication(or_like(Op::And, var("P"), var("Q")), var("R")), side: Side::Always });
    v.push(RewriteRule { lhs: or_like(Op::Or, implication(var("P"), var("Q")), implication(var("P"), var("R"))), rhs: implication(var("P"), or_like(Op::Or, var("Q"), var("R"))), side: Side::Always });
    v.push(RewriteRule { lhs: or_like(Op::And, implication(var("P"), var("R")), implication(var("Q"), var("R"))), rhs: implication(or_like(Op::Or, var("P"), var("Q")), var("R")), side: Side::Always });
    assert(rules_model(v@) =~= bundle(Bundle::CondDistribution));
    v
}

fn rules_cond_reduction() -> (r: Vec<RewriteRule>)
    ensures
        rules_model(r@) == bundle(Bundle::CondReduction),
{
    let mut v: Vec<RewriteRule> = Vec::new();
    v.push(RewriteRule { lhs: or_like(Op::And, var("P"), implication(var("P"), var("Q"))), rhs: or_like(Op::And, var("P"), var("Q")), side: Side::Always });
    v.push(RewriteRule { lhs: or_like(Op::And, not(var("Q")), implication(var("P"), var("Q"))), rhs: or_like(Op::And, not(var("P")), not(var("Q"))), side: Side::Always });
    assert(rules_model(v@) =~= bundle(Bundle::CondReduction));
    v
}

fn rules_knights_and_knaves() -> (r: Vec<RewriteRule>)
    ensures
        rules_model(r@) == bundle(Bundle::KnightsAndKnaves),
{
    let mut v: Vec<RewriteRule> = Vec::new();
    v.push(RewriteRule { lhs: or_like(Op::Bicon, var("P"), or_like(Op::And, var("P"), var("Q"))), rhs: implication(var("P"), var("Q")), side: Side::Always });
    v.push(RewriteRule { lhs: or_like(Op::Bicon, var("P"), or_like(Op::Or, var("P"), var("Q"))), rhs: implication(var("Q"), var("P")), side: Side::Always });
    assert(rules_model(v@) =~= bundle(Bundle::KnightsAndKnaves));
    v
}

fn rules_cond_idempotence() -> (r: Vec<RewriteRule>)
    ensures
        rules_model(r@) == bundle(Bundle::CondIdempotence),
{
    let mut v: Vec<RewriteRule> = Vec::new();
    v.push(RewriteRule { lhs: implication(var("P"), not(var("P"))), rhs: not(var("P")), side: Side::Always });
    v.push(RewriteRule { lhs: implication(not(var("P")), var("P")), rhs: var("P"), side: Side::Always });
    assert(rules_model(v@) =~= bundle(Bundle::CondIdempotence));
    v
}

fn rules_biconditional_negation() -> (r: Vec<RewriteRule>)
    ensures
        rules_model(r@) == bundle(Bundle::BiconditionalNegation),
{
    let mut v: Vec<RewriteRule> = Vec::new();
    v.push(RewriteRule { lhs: or_like(Op::Bicon, not(var("P")), var("Q")), rhs: not(or_like(Op::Bicon, var("P"), var("Q"))), side: Side::Always });
    v.push(RewriteRule { lhs: or_like(Op::Bicon, var("P"), not(var("Q"))), rhs: not(or_like(Op::Bicon, var("P"), var("Q"))), side: Side::Always });
    assert(rules_model(v@) =~= bundle(Bundle::BiconditionalNegation));
    v
}

fn rules_biconditional_substitution() -> (r: Vec<RewriteRule>)
    ensures
        rules_model(r@) == bundle(Bundle::BiconditionalSubstitution),
{
    let mut v: Vec<RewriteRule> = Vec::new();
    v.push(RewriteRule { lhs: or_like(Op::And, or_like(Op::Bicon, var("P"), var("Q")), var("Q")), rhs: or_like(Op::And, var("P"), var("Q")), side: Side::Always });
    v.push(RewriteRule { lhs: or_like(Op::And, or_like(Op::Bicon, var("P"), var("Q")), var("P")), rhs: or_like(Op::And, var("P"), var("Q")), side: Side::Always });
    assert(rules_model(v@) =~= bundle(Bundle::BiconditionalSubstitution));
    v
}

fn rules_quantifier_negation() -> (r: Vec<RewriteRule>)
    ensures
        rules_model(r@) == bundle(Bundle::QuantifierNegation),
{
    let mut v: Vec<RewriteRule> = Vec::new();
    v.push(RewriteRule { lhs: not(quant(QuantKind::Forall, "x", var("P"))), rhs: quant(QuantKind::Exists, "x", not(var("P"))), side: Side::Always });
    v.push(RewriteRule { lhs: not(quant(QuantKind::Exists, "x", var("P"))), rhs: quant(QuantKind::Forall, "x", not(var("P"))), side: Side::Always });
    assert(rules_model(v@) =~= bundle(Bundle::QuantifierNegation));
    v
}

fn rules_null_quantification() -> (r: Vec<RewriteRule>)
    ensures
        rules_model(r@) == bundle(Bundle::NullQuantification),
{
    let mut v: Vec<RewriteRule> = Vec::new();
    v.push(RewriteRule { lhs: quant(QuantKind::Forall, "x", var("P")), rhs: var("P"), side: Side::NotFree(String::from_str("x"), String::from_str("P")) });
    v.push(RewriteRule { lhs: quant(QuantKind::Exists, "x", var("P")), rhs: var("P"), side: Side::NotFree(String::from_str("x"), String::from_str("P")) });
    assert(rules_model(v@) =~= bundle(Bundle::NullQuantification));
    v
}

fn rules_swapping_quantifiers() -> (r: Vec<RewriteRule>)
    ensures
        rules_model(r@) == bundle(Bundle::SwappingQuantifiers),
{
    let mut v: Vec<RewriteRule> = Vec::new();
    v.push(RewriteRule { lhs: quant(QuantKind::Forall, "x", quant(QuantKind::Forall, "y", var("P"))), rhs: quant(QuantKind::Forall, "y", quant(QuantKind::Forall, "x", var("P"))), side: Side::Before(String::from_str("y"), String::from_str("x")) });
    v.push(RewriteRule { lhs: quant(QuantKind::Exists, "x", quant(QuantKind::Exists, "y", var("P"))), rhs: quant(QuantKind::Exists, "y", quant(QuantKind::Exists, "x", var("P"))), side: Side::Before(String::from_str("y"), String::from_str("x")) });
    assert(rules_model(v@) =~= bundle(Bundle::SwappingQuantifiers));
    v
}

fn rules_aristotelean_square() -> (r: Vec<RewriteRule>)
    ensures
        rules_model(r@) == bundle(Bundle::AristoteleanSquare),
{
    let mut v: Vec<RewriteRule> = Vec::new();
    v.push(RewriteRule { lhs: quant(QuantKind::Forall, "x", not(var("P"))), rhs: not(quant(QuantKind::Exists, "x", var("P"))), side: Side::Always });
    v.push(RewriteRule { lhs: quant(QuantKind::Exists, "x", not(var("P"))), rhs: not(quant(QuantKind::Forall, "x", var("P"))), side: Side::Always });
    assert(rules_model(v@) =~= bundle(Bundle::AristoteleanSquare));
    v
}

fn rules_quantifier_distribution() -> (r: Vec<RewriteRule>)
    ensures
        rules_model(r@) == bundle(Bundle::QuantifierDistribution),
{
    let mut v: Vec<RewriteRule> = Vec::new();
    v.push(RewriteRule { lhs: quant(QuantKind::Forall, "x", or_like(Op::And, var("P"), var("Q"))), rhs: or_like(Op::And, quant(QuantKind::Forall, "x", var("P")), quant(QuantKind::Forall, "x", var("Q"))), side: Side::Always });
    v.push(RewriteRule { lhs: quant(QuantKind::Exists, "x", or_like(Op::Or, var("P"), var("Q"))), rhs: or_like(Op::Or, quant(QuantKind::Exists, "x", var("P")), quant(QuantKind::Exists, "x", var("Q"))), side: Side::Always });
    assert(rules_model(v@) =~= bundle(Bundle::QuantifierDistribution));
    v
}

fn rules_prenex_laws() -> (r: Vec<RewriteRule>)
    ensures
        rules_model(r@) == bundle(Bundle::PrenexLaws),
{
    let mut v: Vec<RewriteRule> = Vec::new();
    v.push(RewriteRule { lhs: or_like(Op::And, quant(QuantKind::Forall, "x", var("P")), var("Q")), rhs: quant(QuantKind::Forall, "x", or_like(Op::And, var("P"), var("Q"))), side: Side::NotFree(String::from_str("x"), String::from_str("Q")) });
    v.push(RewriteRule { lhs: or_like(Op::And, var("Q"), quant(QuantKind::Forall, "x", var("P"))), rhs: quant(QuantKind::Forall, "x", or_like(Op::And, var("Q"), var("P"))), side: Side::NotFree(String::from_str("x"), String::from_str("Q")) });
    v.push(RewriteRule { lhs: or_like(Op::And, quant(QuantKind::Exists, "x", var("P")), var("Q")), rhs: quant(QuantKind::Exists, "x", or_like(Op::And, var("P"), var("Q"))), side: Side::NotFree(String::from_str("x"), String::from_str("Q")) });
    v.push(RewriteRule { lhs: or_like(Op::And, var("Q"), quant(QuantKind::Exists, "x", var("P"))), rhs: quant(QuantKind::Exists, "x", or_like(Op::And, var("Q"), var("P"))), side: Side::NotFree(String::from_str("x"), String::from_str("Q")) });
    v.push(RewriteRule { lhs: or_like(Op::Or, quant(QuantKind::Forall, "x", var("P")), var("Q")), rhs: quant(QuantKind::Forall, "x", or_like(Op::Or, var("P"), var("Q"))), side: Side::NotFree(String::from_str("x"), String::from_str("Q")) });
    v.push(RewriteRule { lhs: or_like(Op::Or, var("Q"), quant(QuantKind::Forall, "x", var("P"))), rhs: quant(QuantKind::Forall, "x", or_like(Op::Or, var("Q"), var("P"))), side: Side::NotFree(String::from_str("x"), String::from_str("Q")) });
    v.push(RewriteRule { lhs: or_like(Op::Or, quant(QuantKind::Exists, "x", var("P")), var("Q")), rhs: quant(QuantKind::Exists, "x", or_like(Op::Or, var("P"), var("Q"))), side: Side::NotFree(String::from_str("x"), String::from_str("Q")) });
    v.push(RewriteRule { lhs: or_like(Op::Or, var("Q"), quant(QuantKind::Exists, "x", var("P"))), rhs: quant(QuantKind::Exists, "x", or_like(Op::Or, var("Q"), var("P"))), side: Side::NotFree(String::from_str("x"), String::from_str("Q")) });
    v.push(RewriteRule { lhs: implication(quant(QuantKind::Forall, "x", var("P")), var("Q")), rhs: quant(QuantKind::Exists, "x", implication(var("P"), var("Q"))), side: Side::NotFree(String::from_str("x"), String::from_str("Q")) });
    v.push(RewriteRule { lhs: implication(quant(QuantKind::Exists, "x", var("P")), var("Q")), rhs: quant(QuantKind::Forall, "x", implication(var("P"), var("Q"))), side: Side::NotFree(String::from_str("x"), String::from_str("Q")) });
    v.push(RewriteRule { lhs: implication(var("Q"), quant(QuantKind::Forall, "x", var("P"))), rhs: quant(QuantKind::Forall, "x", implication(var("Q"), var("P"))), side: Side::NotFree(String::from_str("x"), String::from_str("Q")) });
    v.push(RewriteRule { lhs: implication(var("Q"), quant(QuantKind::Exists, "x", var("P"))), rhs: quant(QuantKind::Exists, "x", implication(var("Q"), var("P"))), side: Side::NotFree(String::from_str("x"), String::from_str("Q")) });
    assert(rules_model(v@) =~= bundle(Bundle::PrenexLaws));
    v
}

/// The rewrite rules of an equivalence.
pub fn bundle_rules(b: Bundle) -> (r: Vec<RewriteRule>)
    ensures
        rules_model(r@) == bundle(b),
{
    match b {
        Bundle::DoubleNegation => rules_double_negation(),
        Bundle::Distribution => rules_distribution(),
        Bundle::Complement => rules_complement(),
        Bundle::Identity => rules_identity(),
        Bundle::Annihilation => rules_annihilation(),
        Bundle::Inverse => rules_inverse(),
        Bundle::Absorption => rules_absorption(),
        Bundle::Reduction => rules_reduction(),
        Bundle::Adjacency => rules_adjacency(),
        Bundle::CondComplement => rules_cond_complement(),
        Bundle::CondIdentity => rules_cond_identity(),
        Bundle::CondAnnihilation => rules_cond_annihilation(),
        Bundle::CondImplication => rules_cond_implication(),
        Bundle::CondBiImplication => rules_cond_bi_implication(),
        Bundle::CondContraposition => rules_cond_contraposition(),
        Bundle::CondCurrying => rules_cond_currying(),
        Bundle::CondDistribution => rules_cond_distribution(),
        Bundle::CondReduction => rules_cond_reduction(),
        Bundle::KnightsAndKnaves => rules_knights_and_knaves(),
        Bundle::CondIdempotence => rules_cond_idempotence(),
        Bundle::BiconditionalNegation => rules_biconditional_negation(),
        Bundle::BiconditionalSubstitution => rules_biconditional_substitution(),
        Bundle::QuantifierNegation => rules_quantifier_negation(),
        Bundle::NullQuantification => rules_null_quantification(),
        Bundle::SwappingQuantifiers => rules_swapping_quantifiers(),
        Bundle::AristoteleanSquare => rules_aristotelean_square(),
        Bundle::QuantifierDistribution => rules_quantifier_distribution(),
        Bundle::PrenexLaws => rules_prenex_laws(),
    }
}

} // verus!
