//! Trying the dependencies of a rule in every order.
use vstd::prelude::*;
use itertools::Itertools;
use crate::error::{ProofCheckError, CheckError, err_wf, lemma_err_models_index, err_model};


verus! {

/// Whether `p` orders `0..n`: each index below `n` once.
pub open spec fn is_perm(p: Seq<usize>, n: nat) -> bool {
    &&& p.len() == n
    &&& forall|i: int| 0 <= i < n ==> #[trigger] p[i] < n
    &&& forall|i: int, j: int| 0 <= i < j < n ==> #[trigger] p[i] != #[trigger] p[j]
}

/// Relies on `itertools::Itertools::permutations`, which yields every
/// k-permutation of the elements of an iterator, here every ordering of `0..n`.
#[verifier::external_body]
fn permutations_of(n: usize) -> (r: Vec<Vec<usize>>)
    requires
        0 < n,
    ensures
        forall|i: int| 0 <= i < r@.len() ==> is_perm(#[trigger] r@[i]@, n as nat),
        forall|p: Seq<usize>| is_perm(p, n as nat) ==> exists|i: int| 0 <= i < r@.len() && #[trigger] r@[i]@ == p,
{
    (0..n).permutations(n).collect()
}

/// The two orderings of two items.
pub fn orderings_of_two() -> (r: Vec<Vec<usize>>)
    ensures
        forall|i: int| 0 <= i < r@.len() ==> #[trigger] r@[i]@ == seq![0usize, 1usize] || r@[i]@ == seq![1usize, 0usize],
        exists|i: int| 0 <= i < r@.len() && #[trigger] r@[i]@ == seq![0usize, 1usize],
        exists|i: int| 0 <= i < r@.len() && #[trigger] r@[i]@ == seq![1usize, 0usize],
{
    let r = permutations_of(2);
    assert(is_perm(seq![0usize, 1usize], 2));
    assert(is_perm(seq![1usize, 0usize], 2));
    assert forall|i: int| 0 <= i < r@.len() implies #[trigger] r@[i]@ == seq![0usize, 1usize] || r@[i]@ == seq![1usize, 0usize] by {
        let p = r@[i]@;
        assert(is_perm(p, 2));
        assert(p[0] < 2 && p[1] < 2 && p[0] != p[1]);
        if p[0] == 0 {
            assert(p =~= seq![0usize, 1usize]);
        } else {
            assert(p =~= seq![1usize, 0usize]);
        }
    }
    r
}

/// The orderings of three items: each of the six, and nothing else.
pub fn orderings_of_three() -> (r: Vec<Vec<usize>>)
    ensures
        forall|i: int| 0 <= i < r@.len() ==> is_perm(#[trigger] r@[i]@, 3),
        forall|p: Seq<usize>| is_perm(p, 3) ==> exists|i: int| 0 <= i < r@.len() && #[trigger] r@[i]@ == p,
{
    permutations_of(3)
}

/// What a check of one ordering of the dependencies found.
pub enum AnyOrderResult {
    /// The rule applies in this order.
    Holds,
    /// The dependencies have the right shapes in this order, but the rule
    /// does not apply.
    Fails(ProofCheckError),
    /// The dependencies do not have the right shapes in this order.
    WrongOrder,
}

/// Whether `e` is, up to its model, the error of one of the outcomes.
pub open spec fn error_among(outcomes: Seq<AnyOrderResult>, e: CheckError) -> bool {
    exists|i: int| 0 <= i < outcomes.len() && #[trigger] outcomes[i] is Fails && outcomes[i]->Fails_0@ == e
}

/// Whether `e` is the error of an outcome from index `i` on.
pub open spec fn error_from(outcomes: Seq<AnyOrderResult>, i: int, e: CheckError) -> bool {
    exists|j: int| i <= j < outcomes.len() && #[trigger] outcomes[j] is Fails && outcomes[j]->Fails_0@ == e
}

/// Whether `e` combines exactly the distinct errors of the outcomes: the one
/// error if there is one, else `OneOf` of each of them once.
pub open spec fn combines_errors(outcomes: Seq<AnyOrderResult>, e: ProofCheckError) -> bool {
    ||| (error_among(outcomes, e@) && forall|e1: CheckError| error_among(outcomes, e1) ==> e1 == e@)
    ||| (e is OneOf && e->OneOf_0@.len() >= 2
        && (forall|k: int| 0 <= k < e->OneOf_0@.len() ==> error_among(outcomes, #[trigger] e->OneOf_0@[k]@))
        && (forall|k: int, l: int| 0 <= k < l < e->OneOf_0@.len() ==> (#[trigger] e->OneOf_0@[k])@ != (#[trigger] e->OneOf_0@[l])@)
        && (forall|e1: CheckError| error_among(outcomes, e1) ==> exists|k: int| 0 <= k < e->OneOf_0@.len() && (#[trigger] e->OneOf_0@[k])@ == e1))
}

/// When the outcomes hold one distinct error, the combination is that error.
pub proof fn lemma_single_error(outcomes: Seq<AnyOrderResult>, e: ProofCheckError, x: CheckError)
    requires
        combines_errors(outcomes, e),
        error_among(outcomes, x),
        forall|e1: CheckError| #[trigger] error_among(outcomes, e1) ==> e1 == x,
    ensures
        e@ == x,
{
    if !(error_among(outcomes, e@) && forall|e1: CheckError| error_among(outcomes, e1) ==> e1 == e@) {
        let l = e->OneOf_0@;
        assert(error_among(outcomes, l[0]@));
        assert(error_among(outcomes, l[1]@));
        assert(l[0]@ != l[1]@);
    }
}

/// When the outcomes hold exactly two distinct errors, the combination is
/// `OneOf` of the two.
pub proof fn lemma_two_errors(outcomes: Seq<AnyOrderResult>, e: ProofCheckError, x: CheckError, y: CheckError)
    requires
        combines_errors(outcomes, e),
        x != y,
        error_among(outcomes, x),
        error_among(outcomes, y),
        forall|e1: CheckError| #[trigger] error_among(outcomes, e1) ==> e1 == x || e1 == y,
    ensures
        e is OneOf && e->OneOf_0@.len() == 2
            && ((e->OneOf_0@[0]@ == x && e->OneOf_0@[1]@ == y) || (e->OneOf_0@[0]@ == y && e->OneOf_0@[1]@ == x)),
{
    if error_among(outcomes, e@) && forall|e1: CheckError| error_among(outcomes, e1) ==> e1 == e@ {
        assert(x == e@ && y == e@);
    } else {
        let l = e->OneOf_0@;
        assert(error_among(outcomes, l[0]@) && error_among(outcomes, l[1]@));
        assert(l[0]@ != l[1]@);
        if l.len() > 2 {
            assert(error_among(outcomes, l[2]@));
            assert(l[0]@ != l[2]@ && l[1]@ != l[2]@);
        }
    }
}

/// Combines the outcomes of every ordering: success if one succeeded;
/// otherwise the distinct errors they found (one alone, several under
/// `OneOf`); `fallthrough` if no ordering had the right shapes.
pub fn any_order(outcomes: &Vec<AnyOrderResult>, fallthrough: ProofCheckError) -> (r: Result<(), ProofCheckError>)
    requires
        err_wf(fallthrough@),
        forall|i: int| 0 <= i < outcomes@.len() && #[trigger] outcomes@[i] is Fails ==> !(outcomes@[i]->Fails_0@ is OneOf),
    ensures
        r is Err ==> err_wf(r->Err_0@),
        r is Ok <==> exists|i: int| 0 <= i < outcomes@.len() && #[trigger] outcomes@[i] is Holds,
        (forall|i: int| 0 <= i < outcomes@.len() ==> #[trigger] outcomes@[i] is WrongOrder) ==> r == Err::<(), ProofCheckError>(fallthrough),
        r is Err && (exists|i: int| 0 <= i < outcomes@.len() && #[trigger] outcomes@[i] is Fails) ==> combines_errors(outcomes@, r->Err_0),
{
    let mut errors: Vec<ProofCheckError> = Vec::new();
    let ghost all = outcomes@;
    let mut i: usize = outcomes.len();
    while i > 0
        invariant
            0 <= i <= all.len(),
            outcomes@ == all,
            forall|j: int| i <= j < all.len() ==> !(#[trigger] all[j] is Holds),
            forall|k: int| 0 <= k < errors@.len() ==> error_from(all, i as int, #[trigger] errors@[k]@),
            forall|e1: CheckError| error_from(all, i as int, e1) ==> exists|k: int| 0 <= k < errors@.len() && (#[trigger] errors@[k])@ == e1,
            forall|k: int, l: int| 0 <= k < l < errors@.len() ==> (#[trigger] errors@[k])@ != (#[trigger] errors@[l])@,
            errors@.len() == 0 ==> forall|j: int| i <= j < all.len() ==> #[trigger] all[j] is WrongOrder,
        decreases i,
    {
        let o = &outcomes[i - 1];
        match o {
            AnyOrderResult::Holds => {
                assert(all[i - 1] is Holds);
                assert(exists|j: int| 0 <= j < all.len() && #[trigger] all[j] is Holds);
                assert(!(all[i - 1] is WrongOrder));
                return Ok(());
            },
            AnyOrderResult::Fails(e0) => {
                let e = crate::error::clone_error(e0);
                let mut dup = false;
                let mut k: usize = 0;
                while k < errors.len()
                    invariant
                        0 <= k <= errors@.len(),
                        dup ==> exists|m: int| 0 <= m < errors@.len() && (#[trigger] errors@[m])@ == e@,
                        !dup ==> forall|m: int| 0 <= m < k ==> errors@[m]@ != e@,
                    decreases errors.len() - k,
                {
                    if crate::error::same_error(&errors[k], &e) {
                        dup = true;
                    }
                    k = k + 1;
                }
                let ghost before = errors@;
                if !dup {
                    errors.push(e);
                }
                proof {
                    assert(error_from(all, i - 1, e0@));
                    assert forall|k2: int| 0 <= k2 < errors@.len() implies error_from(all, i - 1, #[trigger] errors@[k2]@) by {
                        if k2 < before.len() {
                            assert(errors@[k2] == before[k2]);
                            let j = choose|j: int| i <= j < all.len() && #[trigger] all[j] is Fails && all[j]->Fails_0@ == before[k2]@;
                        }
                    }
                    assert forall|e1: CheckError| #[trigger] error_from(all, i - 1, e1) implies exists|k2: int| 0 <= k2 < errors@.len() && (#[trigger] errors@[k2])@ == e1 by {
                        let j = choose|j: int| i - 1 <= j < all.len() && #[trigger] all[j] is Fails && all[j]->Fails_0@ == e1;
                        if j == i - 1 {
                            if dup {
                                let m = choose|m: int| 0 <= m < before.len() && (#[trigger] before[m])@ == e0@;
                                assert(errors@[m] == before[m]);
                            } else {
                                assert(errors@[before.len() as int]@ == e1);
                            }
                        } else {
                            assert(error_from(all, i as int, e1));
                            let m = choose|m: int| 0 <= m < before.len() && (#[trigger] before[m])@ == e1;
                            assert(errors@[m] == before[m]);
                        }
                    }
                }
            },
            AnyOrderResult::WrongOrder => {
                proof {
                    assert forall|e1: CheckError| #[trigger] error_from(all, i - 1, e1) implies error_from(all, i as int, e1) by {
                        let j = choose|j: int| i - 1 <= j < all.len() && #[trigger] all[j] is Fails && all[j]->Fails_0@ == e1;
                    }
                    assert forall|k2: int| 0 <= k2 < errors@.len() implies error_from(all, i - 1, #[trigger] errors@[k2]@) by {
                        let j = choose|j: int| i <= j < all.len() && #[trigger] all[j] is Fails && all[j]->Fails_0@ == errors@[k2]@;
                    }
                }
            },
        }
        i = i - 1;
    }
    proof {
        assert forall|e1: CheckError| #[trigger] error_among(all, e1) <==> error_from(all, 0, e1) by {}
    }
    if errors.len() == 0 {
        proof {
            if exists|j: int| 0 <= j < all.len() && #[trigger] all[j] is Fails {
                let j = choose|j: int| 0 <= j < all.len() && #[trigger] all[j] is Fails;
                assert(error_from(all, 0, all[j]->Fails_0@));
            }
        }
        Err(fallthrough)
    } else if errors.len() == 1 {
        proof {
            assert(error_from(all, 0, errors@[0]@));
            let j = choose|j: int| 0 <= j < all.len() && #[trigger] all[j] is Fails && all[j]->Fails_0@ == errors@[0]@;
            assert(!(all[j] is WrongOrder));
            assert(!(errors@[0]@ is OneOf));
        }
        let e = errors.pop().unwrap();
        proof {
            assert(error_from(all, 0, e@));
            assert forall|e1: CheckError| #[trigger] error_among(all, e1) implies e1 == e@ by {
                assert(error_from(all, 0, e1));
            }
        }
        Err(e)
    } else {
        let ghost list = errors@;
        proof {
            lemma_err_models_index(list);
            assert forall|i: int| 0 <= i < list.len() implies !(#[trigger] crate::error::err_models(list)[i] is OneOf) by {
                assert(error_from(all, 0, list[i]@));
            }
            crate::error::lemma_flat_wf(crate::error::err_models(list));
            assert forall|a: int, b: int| 0 <= a < b < list.len() implies #[trigger] crate::error::err_models(list)[a] != #[trigger] crate::error::err_models(list)[b] by {
                assert(list[a]@ != list[b]@);
            }
            assert(error_from(all, 0, errors@[0]@));
            let j = choose|j: int| 0 <= j < all.len() && #[trigger] all[j] is Fails && all[j]->Fails_0@ == errors@[0]@;
            assert(!(all[j] is WrongOrder));
            assert forall|k: int| 0 <= k < list.len() implies error_among(all, #[trigger] list[k]@) by {
                assert(error_from(all, 0, list[k]@));
            }
            assert forall|e1: CheckError| #[trigger] error_among(all, e1) implies exists|k: int| 0 <= k < list.len() && (#[trigger] list[k])@ == e1 by {
                assert(error_from(all, 0, e1));
            }
        }
        Err(ProofCheckError::OneOf(errors))
    }
}

} // verus!
