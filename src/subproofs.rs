//! What the rules read from the subproofs that a step cites.
use vstd::prelude::*;
use crate::expr::{Expr, Formula, expr_eq};
use crate::error::ProofCheckError;
use crate::proofs::Proof;
use crate::lookup::lookup_expr_or_die;

verus! {

/// Whether every subproof that `sdeps` cites exists.
pub open spec fn subs_exist(p: &Proof, sdeps: Seq<usize>) -> bool {
    forall|i: int| 0 <= i < sdeps.len() ==> #[trigger] sdeps[i] < p.num_subproofs()
}

/// Whether some step directly in subproof `s` concludes `f`.
pub open spec fn has_step_with(p: &Proof, s: int, f: Formula) -> bool {
    exists|k: int| 0 <= k < p.steps_of(s).len() && p.expr_at(#[trigger] p.steps_of(s)[k] as int) == Some(f)
}

/// The expression of the only premise of subproof `s`, if it has exactly one.
pub open spec fn sole_premise(p: &Proof, s: int) -> Option<Formula> {
    if p.premises_of(s).len() == 1 {
        p.expr_at(p.premises_of(s)[0] as int)
    } else {
        None
    }
}

/// Nothing, or the error that subproof `s` does not exist.
pub fn lookup_subproof_or_die(p: &Proof, s: usize) -> (r: Result<(), ProofCheckError>)
    ensures
        r is Err ==> crate::error::err_wf(r->Err_0@),
        r is Ok <==> s < p.num_subproofs(),
        r is Err ==> r->Err_0 == ProofCheckError::SubproofDoesNotExist(s),
{
    if s < p.subproof_count() {
        Ok(())
    } else {
        Err(ProofCheckError::SubproofDoesNotExist(s))
    }
}

/// Nothing, or the error for the first cited subproof that does not exist.
pub fn lookup_all_subproofs(p: &Proof, sdeps: &Vec<usize>) -> (r: Result<(), ProofCheckError>)
    ensures
        r is Err ==> crate::error::err_wf(r->Err_0@),
        r is Ok <==> subs_exist(p, sdeps@),
        r is Err ==> exists|j: int| 0 <= j < sdeps@.len() && sdeps@[j] >= p.num_subproofs()
            && r->Err_0 == ProofCheckError::SubproofDoesNotExist(#[trigger] sdeps@[j]),
{
    let mut i: usize = 0;
    while i < sdeps.len()
        invariant
            0 <= i <= sdeps@.len(),
            forall|j: int| 0 <= j < i ==> #[trigger] sdeps@[j] < p.num_subproofs(),
        decreases sdeps.len() - i,
    {
        match lookup_subproof_or_die(p, sdeps[i]) {
            Ok(()) => {},
            Err(e) => {
                return Err(e);
            },
        }
        i = i + 1;
    }
    Ok(())
}

/// Whether some step directly in subproof `s` concludes `f`.
pub fn subproof_has_step(p: &Proof, s: usize, f: &Expr) -> (r: bool)
    ensures
        r == has_step_with(p, s as int, f@),
{
    let steps = p.exprs(s);
    let mut k: usize = 0;
    while k < steps.len()
        invariant
            steps@ == p.steps_of(s as int),
            0 <= k <= steps@.len(),
            forall|j: int| 0 <= j < k ==> p.expr_at(#[trigger] steps@[j] as int) != Some(f@),
        decreases steps.len() - k,
    {
        match p.lookup_expr(steps[k]) {
            Some(e) => {
                if expr_eq(&e, f) {
                    return true;
                }
            },
            None => {},
        }
        k = k + 1;
    }
    false
}

/// The expression of the only premise of subproof `s`, if it has exactly one.
pub fn sole_premise_of(p: &Proof, s: usize) -> (r: Option<Expr>)
    ensures
        r.is_some() == sole_premise(p, s as int).is_some(),
        r.is_some() ==> sole_premise(p, s as int) == Some(r.unwrap()@),
{
    let prems = p.premises(s);
    if prems.len() == 1 {
        p.lookup_expr(prems[0])
    } else {
        None
    }
}

} // verus!
