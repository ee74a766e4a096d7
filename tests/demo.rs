use aris::demo::{demo_proof_1, demo_proof_2};
use aris::error::ProofCheckError;
use aris::parser::parse;
use aris::proofs::Proof;

/// The verdict on each step of the proof, in line order.
fn verdicts(proof: &Proof) -> Vec<(usize, Result<(), ProofCheckError>)> {
    let mut out = Vec::new();
    for r in 0..proof.line_count() {
        if let Some(j) = proof.justification(r) {
            let verdict = j.rule.check(proof, j.conclusion.clone(), j.deps.clone(), j.sdeps.clone());
            out.push((r, verdict));
        }
    }
    out
}

#[test]
fn demo_proof_1_is_valid() {
    let proof = demo_proof_1();
    assert_eq!(proof.lookup_expr(0), parse("A"));
    assert_eq!(proof.lookup_expr(5), parse("C -> (A & B)"));
    for (r, v) in verdicts(&proof) {
        assert_eq!(v, Ok(()), "line {}", r);
    }
}

#[test]
fn demo_proof_2_has_mistakes() {
    let proof = demo_proof_2();
    let v = verdicts(&proof);
    assert_eq!(v[0], (2, Ok(())));
    assert_eq!(v[1], (3, Err(ProofCheckError::DoesNotOccur(parse("E").unwrap(), parse("A & B & C & D").unwrap()))));
    assert_eq!(v[2], (4, Err(ProofCheckError::IncorrectDepCount(vec![0, 0], 1))));
    assert!(v[3].1.is_err());
}
