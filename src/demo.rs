//! Two small proofs, one valid and one with mistakes, for trying the checker.
use vstd::prelude::*;
use crate::expr::{Expr, Formula, Op, var, implication, or_like};
use crate::proofs::Proof;
use crate::rules::{Rule, PrepositionalInference};

verus! {

pub open spec fn atom(n: Seq<char>) -> Formula {
    Formula::Var { name: n }
}

/// Premises `A` and `B`; `A & B` by conjunction; a subproof from `C`
/// reiterating `A & B`; and `C -> (A & B)` by conditional proof on it.
pub fn demo_proof_1() -> (p: Proof)
    ensures
        p.wf(),
        p.num_lines() == 6,
        p.num_subproofs() == 2,
        p.expr_at(0) == Some(atom("A"@)),
        p.expr_at(1) == Some(atom("B"@)),
        p.expr_at(2) == Some(Formula::Assoc { op: Op::And, exprs: seq![atom("A"@), atom("B"@)] }),
        p.expr_at(3) == Some(atom("C"@)),
        p.expr_at(4) == Some(Formula::Assoc { op: Op::And, exprs: seq![atom("A"@), atom("B"@)] }),
        p.expr_at(5) == Some(Formula::Impl {
            left: Box::new(atom("C"@)),
            right: Box::new(Formula::Assoc { op: Op::And, exprs: seq![atom("A"@), atom("B"@)] }),
        }),
{
    let mut p = Proof::new();
    let r1 = p.add_premise(0, var("A"));
    let r2 = p.add_premise(0, var("B"));
    let r3 = p.add_step(0, or_like(Op::And, var("A"), var("B")), Rule::Prepositional(PrepositionalInference::AndIntro), vec![r1, r2], vec![]);
    let sub = p.add_subproof(0);
    p.add_premise(sub, var("C"));
    p.add_step(sub, or_like(Op::And, var("A"), var("B")), Rule::Prepositional(PrepositionalInference::Reit), vec![r3], vec![]);
    p.add_step(
        0,
        implication(var("C"), or_like(Op::And, var("A"), var("B"))),
        Rule::Prepositional(PrepositionalInference::ImpIntro),
        vec![],
        vec![sub],
    );
    p
}

/// Premises `A & B & C & D` and `E | F`, then four steps by conjunction
/// elimination: `A` (valid), `E` (not a conjunct), `A` citing two lines, and
/// `A` citing the disjunction.
pub fn demo_proof_2() -> (p: Proof)
    ensures
        p.wf(),
        p.num_lines() == 6,
        p.expr_at(0) == Some(Formula::Assoc { op: Op::And, exprs: seq![atom("A"@), atom("B"@), atom("C"@), atom("D"@)] }),
        p.expr_at(1) == Some(Formula::Assoc { op: Op::Or, exprs: seq![atom("E"@), atom("F"@)] }),
        p.expr_at(2) == Some(atom("A"@)),
        p.expr_at(3) == Some(atom("E"@)),
        p.expr_at(4) == Some(atom("A"@)),
        p.expr_at(5) == Some(atom("A"@)),
{
    let mut p = Proof::new();
    let conj = vec![var("A"), var("B"), var("C"), var("D")];
    proof {
        crate::expr::lemma_models_index(conj@);
        assert(crate::expr::models(conj@) =~= seq![atom("A"@), atom("B"@), atom("C"@), atom("D"@)]);
    }
    let r1 = p.add_premise(0, Expr::Assoc { op: Op::And, exprs: conj });
    let r2 = p.add_premise(0, or_like(Op::Or, var("E"), var("F")));
    let and_elim = Rule::Prepositional(PrepositionalInference::AndElim);
    p.add_step(0, var("A"), and_elim, vec![r1], vec![]);
    p.add_step(0, var("E"), and_elim, vec![r1], vec![]);
    p.add_step(0, var("A"), and_elim, vec![r1, r1], vec![]);
    p.add_step(0, var("A"), and_elim, vec![r2], vec![]);
    p
}

} // verus!
