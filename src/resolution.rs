//! The resolution rule.
use vstd::prelude::*;
use crate::expr::{Expr, Formula, Op, is_op, models, lemma_models_index, contains_expr};
use crate::error::{ProofCheckError, CheckError};
use crate::prop_rules::{err_is, contradiction_message};
use crate::canon::{cmp, cmp_expr, lemma_cmp_antisym, lemma_cmp_zero, sorted, sort, sort_exprs, lemma_sort_same_elements};
use crate::text::{render_seq, join_text};
use crate::prop_rules::{contradict, do_expressions_contradict};

verus! {

/// The disjuncts of `f`: its operands if it is a disjunction, else itself.
pub open spec fn disjuncts(f: Formula) -> Seq<Formula> {
    if is_op(f, Op::Or) { f->exprs } else { seq![f] }
}

/// The disjuncts of the premises that the conclusion does not have.
pub open spec fn remainder(p1: Formula, p2: Formula, c: Formula) -> Set<Formula> {
    disjuncts(p1).to_set().union(disjuncts(p2).to_set()).difference(disjuncts(c).to_set())
}

/// Whether `c` follows from `p1` and `p2` by resolution: exactly two
/// disjuncts of the premises are missing from it, and one is the negation
/// of the other.
pub open spec fn resolves(p1: Formula, p2: Formula, c: Formula) -> bool {
    exists|a: Formula, b: Formula| a != b && remainder(p1, p2, c) == set![a, b] && contradict(a, b)
}

/// The set of `a` and `b`.
pub open spec fn pair_set(a: Formula, b: Formula) -> Set<Formula> {
    set![a, b]
}

/// The first of `a`, `b` in the order of expressions.
pub open spec fn lo(a: Formula, b: Formula) -> Formula {
    if cmp(a, b) <= 0 { a } else { b }
}

/// The second of `a`, `b` in the order of expressions.
pub open spec fn hi(a: Formula, b: Formula) -> Formula {
    if cmp(a, b) <= 0 { b } else { a }
}

/// The message when the premises do not leave exactly two disjuncts: the
/// disjuncts left, `l`, listed in braces.
pub open spec fn remainder_message(l: Seq<Formula>) -> Seq<char> {
    "Difference between premise disjuncts and conclusion disjuncts ({"@ + render_seq(l, ", "@)
        + "}) should be exactly 2 expressions that produce a contradiction."@
}

/// The error of a resolution step: the two leftover disjuncts, in order,
/// that do not contradict each other; or that there are not two.
pub open spec fn resolution_errors(p1: Formula, p2: Formula, c: Formula, r: Result<(), ProofCheckError>) -> bool {
    &&& forall|a: Formula, b: Formula| a != b && remainder(p1, p2, c) == #[trigger] pair_set(a, b) && r is Err
        ==> err_is(r, CheckError::Other(contradiction_message(lo(a, b), hi(a, b))))
    &&& (forall|a: Formula, b: Formula| !(a != b && remainder(p1, p2, c) == #[trigger] pair_set(a, b)))
        ==> exists|l: Seq<Formula>| sorted(l) && l.no_duplicates() && l.to_set() == remainder(p1, p2, c)
            && err_is(r, CheckError::Other(#[trigger] remainder_message(l)))
}

/// Swapping the two premises of a resolution step changes neither whether
/// it is valid nor the error it reports.
pub proof fn lemma_resolution_symmetric(p1: Formula, p2: Formula, c: Formula, r: Result<(), ProofCheckError>)
    ensures
        resolves(p1, p2, c) == resolves(p2, p1, c),
        resolution_errors(p1, p2, c, r) == resolution_errors(p2, p1, c, r),
{
    assert(remainder(p1, p2, c) =~= remainder(p2, p1, c));
}

/// The disjuncts of `e`.
pub fn disjuncts_of(e: &Expr) -> (r: Vec<Expr>)
    ensures
        models(r@) == disjuncts(e@),
{
    match e {
        Expr::Assoc { op: Op::Or, exprs } => crate::expr::clone_exprs(exprs),
        _ => {
            let mut v: Vec<Expr> = Vec::new();
            v.push(e.clone());
            proof {
                lemma_models_index(v@);
            }
            assert(models(v@) =~= seq![e@]);
            v
        },
    }
}

proof fn lemma_two_elements(l: Seq<Formula>, a: Formula, b: Formula)
    requires
        a != b,
        l.to_set() == set![a, b],
        forall|i: int, j: int| 0 <= i < j < l.len() ==> l[i] != l[j],
    ensures
        l.len() == 2,
{
    assert(l.to_set().contains(a));
    assert(l.to_set().contains(b));
    if l.len() < 2 {
        if l.len() == 0 {
            assert(!l.to_set().contains(a));
        } else {
            assert(l.contains(a) && l.contains(b));
            assert(l[0] == a && l[0] == b);
        }
    } else if l.len() > 2 {
        assert(l.to_set().contains(l[0]));
        assert(l.to_set().contains(l[1]));
        assert(l.to_set().contains(l[2]));
        assert(l[0] != l[1] && l[0] != l[2] && l[1] != l[2]);
    }
}

/// Adds to `rest` each element of `src` that is neither in `dc` nor in
/// `rest` already.
fn add_missing(rest: &mut Vec<Expr>, src: &Vec<Expr>, dc: &Vec<Expr>, target: Ghost<Set<Formula>>)
    requires
        forall|x: Formula| models(src@).contains(x) && !models(dc@).contains(x) ==> target@.contains(x),
        forall|x: Formula| models(old(rest)@).contains(x) ==> target@.contains(x),
        forall|x: int, y: int| 0 <= x < y < old(rest)@.len() ==> models(old(rest)@)[x] != models(old(rest)@)[y],
    ensures
        forall|x: Formula| models(final(rest)@).contains(x) ==> target@.contains(x),
        forall|x: int, y: int| 0 <= x < y < final(rest)@.len() ==> models(final(rest)@)[x] != models(final(rest)@)[y],
        forall|x: Formula| models(old(rest)@).contains(x) ==> models(final(rest)@).contains(x),
        forall|x: Formula| models(src@).contains(x) && !models(dc@).contains(x) ==> models(final(rest)@).contains(x),
{
    proof {
        lemma_models_index(src@);
        lemma_models_index(rest@);
    }
    let ghost start = models(rest@);
    let mut i: usize = 0;
    while i < src.len()
        invariant
            0 <= i <= src@.len(),
            models(src@).len() == src@.len(),
            forall|j: int| 0 <= j < src@.len() ==> #[trigger] models(src@)[j] == src@[j]@,
            forall|x: Formula| models(src@).contains(x) && !models(dc@).contains(x) ==> target@.contains(x),
            models(rest@).len() == rest@.len(),
            forall|j: int| 0 <= j < rest@.len() ==> #[trigger] models(rest@)[j] == rest@[j]@,
            forall|x: Formula| models(rest@).contains(x) ==> target@.contains(x),
            forall|x: int, y: int| 0 <= x < y < rest@.len() ==> models(rest@)[x] != models(rest@)[y],
            start.len() <= rest@.len(),
            models(rest@).subrange(0, start.len() as int) == start,
            forall|j: int| 0 <= j < i && !models(dc@).contains(#[trigger] models(src@)[j]) ==> models(rest@).contains(models(src@)[j]),
        decreases src.len() - i,
    {
        assert(models(src@)[i as int] == src@[i as int]@);
        assert(models(src@).contains(src@[i as int]@));
        if !contains_expr(dc, &src[i]) && !contains_expr(rest, &src[i]) {
            let ghost before = models(rest@);
            rest.push(src[i].clone());
            proof {
                lemma_models_index(rest@);
                assert(models(rest@) =~= before.push(src@[i as int]@));
                assert(models(rest@).subrange(0, start.len() as int) =~= before.subrange(0, start.len() as int));
                assert forall|x: Formula| models(rest@).contains(x) implies target@.contains(x) by {
                    if x != src@[i as int]@ {
                        let k = choose|k: int| 0 <= k < models(rest@).len() && models(rest@)[k] == x;
                        assert(before[k] == x);
                    }
                }
                assert forall|j: int| 0 <= j < i + 1 && !models(dc@).contains(#[trigger] models(src@)[j]) implies models(rest@).contains(models(src@)[j]) by {
                    if j < i {
                        let k = choose|k: int| 0 <= k < before.len() && before[k] == models(src@)[j];
                        assert(models(rest@)[k] == models(src@)[j]);
                    } else {
                        assert(models(rest@)[before.len() as int] == models(src@)[j]);
                    }
                }
            }
        }
        i = i + 1;
    }
    proof {
        assert forall|x: Formula| start.contains(x) implies models(rest@).contains(x) by {
            let k = choose|k: int| 0 <= k < start.len() && start[k] == x;
            assert(models(rest@).subrange(0, start.len() as int)[k] == x);
        }
        assert forall|x: Formula| models(src@).contains(x) && !models(dc@).contains(x) implies models(rest@).contains(x) by {
            let k = choose|k: int| 0 <= k < models(src@).len() && models(src@)[k] == x;
        }
    }
}

/// Checks a resolution step with premises `p1`, `p2` and conclusion `c`.
pub fn check_resolution(p1: &Expr, p2: &Expr, c: &Expr) -> (r: Result<(), ProofCheckError>)
    ensures
        r is Err ==> crate::error::err_wf(r->Err_0@),
        r is Ok <==> resolves(p1@, p2@, c@),
        resolution_errors(p1@, p2@, c@, r),
{
    let d1 = disjuncts_of(p1);
    let d2 = disjuncts_of(p2);
    let dc = disjuncts_of(c);
    let ghost target = remainder(p1@, p2@, c@);
    let mut rest: Vec<Expr> = Vec::new();
    proof {
        lemma_models_index(rest@);
    }
    add_missing(&mut rest, &d1, &dc, Ghost(target));
    add_missing(&mut rest, &d2, &dc, Ghost(target));
    proof {
        lemma_models_index(rest@);
    }
    let ghost l = models(rest@);
    proof {
        assert(l.to_set() =~= target);
    }
    if rest.len() == 2 {
        let first_low = cmp_expr(&rest[0], &rest[1]) <= 0;
        let r = if first_low {
            do_expressions_contradict(&rest[0], &rest[1])
        } else {
            do_expressions_contradict(&rest[1], &rest[0])
        };
        proof {
            assert(target =~= set![l[0], l[1]]);
            assert(l[0] == rest@[0]@ && l[1] == rest@[1]@);
            lemma_cmp_antisym(l[0], l[1]);
            if l[0] == l[1] {
                assert(false);
            }
            assert forall|a: Formula, b: Formula| a != b && remainder(p1@, p2@, c@) == #[trigger] pair_set(a, b) && r is Err
                implies err_is(r, CheckError::Other(contradiction_message(lo(a, b), hi(a, b)))) by {
                assert(pair_set(a, b).contains(l[0]) && pair_set(a, b).contains(l[1]));
                assert(set![l[0], l[1]].contains(a) && set![l[0], l[1]].contains(b));
                lemma_cmp_antisym(a, b);
                if cmp(a, b) == 0 {
                    lemma_cmp_zero(a, b);
                }
                if cmp(l[0], l[1]) == 0 {
                    lemma_cmp_zero(l[0], l[1]);
                }
            }
            assert(pair_set(l[0], l[1]) == remainder(p1@, p2@, c@));
            assert(contradict(l[0], l[1]) == contradict(l[1], l[0]));
            if r is Ok {
                assert(contradict(l[0], l[1]));
                assert(remainder(p1@, p2@, c@) == set![l[0], l[1]]);
                assert(resolves(p1@, p2@, c@));
            }
            if resolves(p1@, p2@, c@) {
                let (a, b) = choose|a: Formula, b: Formula| a != b && remainder(p1@, p2@, c@) == set![a, b] && contradict(a, b);
                assert(set![a, b].contains(l[0]) && set![a, b].contains(l[1]));
                assert(set![l[0], l[1]].contains(a) && set![l[0], l[1]].contains(b));
            }
        }
        r
    } else {
        proof {
            if resolves(p1@, p2@, c@) {
                let (a, b) = choose|a: Formula, b: Formula| a != b && remainder(p1@, p2@, c@) == set![a, b] && contradict(a, b);
                lemma_two_elements(l, a, b);
            }
            assert forall|a: Formula, b: Formula| !(a != b && remainder(p1@, p2@, c@) == #[trigger] pair_set(a, b)) by {
                if a != b && remainder(p1@, p2@, c@) == pair_set(a, b) {
                    lemma_two_elements(l, a, b);
                }
            }
        }
        let copy = crate::expr::clone_exprs(&rest);
        let ordered = sort_exprs(copy);
        let mut m = String::from_str("Difference between premise disjuncts and conclusion disjuncts ({");
        m.append(join_text(&ordered, ", ").as_str());
        m.append("}) should be exactly 2 expressions that produce a contradiction.");
        proof {
            assert(l.no_duplicates());
            lemma_sort_same_elements(l);
            assert(m@ == remainder_message(sort(l)));
        }
        Err(ProofCheckError::Other(m))
    }
}

} // verus!
