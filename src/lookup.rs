//! Resolving the references that a step cites.
use vstd::prelude::*;
use crate::expr::{Expr, Formula};
use crate::error::ProofCheckError;
use crate::proofs::Proof;

verus! {

/// Whether every line that `deps` cites exists.
pub open spec fn deps_exist(p: &Proof, deps: Seq<usize>) -> bool {
    forall|i: int| 0 <= i < deps.len() ==> (#[trigger] p.expr_at(deps[i] as int)).is_some()
}

/// The expression on the `i`th line that `deps` cites.
pub open spec fn dep_expr(p: &Proof, deps: Seq<usize>, i: int) -> Formula {
    p.expr_at(deps[i] as int).unwrap()
}

/// The expression on line `r`, or the error that it does not exist.
pub fn lookup_expr_or_die(p: &Proof, r: usize) -> (res: Result<Expr, ProofCheckError>)
    ensures
        res is Ok <==> p.expr_at(r as int).is_some(),
        res is Ok ==> p.expr_at(r as int) == Some(res->Ok_0@),
        res is Err ==> res->Err_0 == ProofCheckError::LineDoesNotExist(r),
{
    match p.lookup_expr(r) {
        Some(e) => Ok(e),
        None => Err(ProofCheckError::LineDoesNotExist(r)),
    }
}

/// The expressions on every line that `deps` cites, or the error for the
/// first that does not exist.
pub fn lookup_all(p: &Proof, deps: &Vec<usize>) -> (res: Result<Vec<Expr>, ProofCheckError>)
    ensures
        res is Ok <==> deps_exist(p, deps@),
        res is Ok ==> res->Ok_0@.len() == deps@.len() && forall|i: int| 0 <= i < deps@.len() ==> #[trigger] res->Ok_0@[i]@ == dep_expr(p, deps@, i),
        res is Err ==> exists|i: int| 0 <= i < deps@.len() && p.expr_at(deps@[i] as int).is_none() && res->Err_0 == ProofCheckError::LineDoesNotExist(#[trigger] deps@[i]),
{
    let mut v: Vec<Expr> = Vec::new();
    let mut i: usize = 0;
    while i < deps.len()
        invariant
            0 <= i <= deps@.len(),
            v@.len() == i,
            forall|j: int| 0 <= j < i ==> (#[trigger] p.expr_at(deps@[j] as int)).is_some(),
            forall|j: int| 0 <= j < i ==> #[trigger] v@[j]@ == dep_expr(p, deps@, j),
        decreases deps.len() - i,
    {
        match lookup_expr_or_die(p, deps[i]) {
            Ok(e) => {
                v.push(e);
            },
            Err(err) => {
                return Err(err);
            },
        }
        i = i + 1;
    }
    Ok(v)
}

} // verus!
