//! The errors that a rule check reports.
use vstd::prelude::*;
use crate::expr::{Expr, Formula, expr_eq};

verus! {

/// Why a step is not a valid application of its rule. Line references are
/// indices of lines of a `Proof`; subproof references are indices of its
/// subproofs.
#[derive(Debug, PartialEq, Eq)]
pub enum ProofCheckError {
    LineDoesNotExist(usize),
    SubproofDoesNotExist(usize),
    /// A step (first) cites a line that comes after it (second).
    ReferencesLaterLine(usize, usize),
    /// The dependencies given, and how many the rule expects.
    IncorrectDepCount(Vec<usize>, usize),
    /// The subproof dependencies given, and how many the rule expects.
    IncorrectSubDepCount(Vec<usize>, usize),
    /// A dependency, and the shape that was expected of it.
    DepOfWrongForm(Expr, Expr),
    /// The shape that was expected of the conclusion.
    ConclusionOfWrongForm(Expr),
    /// The first expression was expected to occur in the second.
    DoesNotOccur(Expr, Expr),
    /// An expression (or, when the flag is set, something of its shape) that
    /// was needed as a dependency and not found.
    DepDoesNotExist(Expr, bool),
    /// Any one of these, all distinct, would have sufficed.
    OneOf(Vec<ProofCheckError>),
    Other(String),
}

/// The mathematical model of a `ProofCheckError`.
pub enum CheckError {
    LineDoesNotExist(usize),
    SubproofDoesNotExist(usize),
    ReferencesLaterLine(usize, usize),
    IncorrectDepCount(Seq<usize>, usize),
    IncorrectSubDepCount(Seq<usize>, usize),
    DepOfWrongForm(Formula, Formula),
    ConclusionOfWrongForm(Formula),
    DoesNotOccur(Formula, Formula),
    DepDoesNotExist(Formula, bool),
    OneOf(Seq<CheckError>),
    Other(Seq<char>),
}

pub open spec fn err_model(e: ProofCheckError) -> CheckError
    decreases e,
{
    match e {
        ProofCheckError::LineDoesNotExist(r) => CheckError::LineDoesNotExist(r),
        ProofCheckError::SubproofDoesNotExist(r) => CheckError::SubproofDoesNotExist(r),
        ProofCheckError::ReferencesLaterLine(a, b) => CheckError::ReferencesLaterLine(a, b),
        ProofCheckError::IncorrectDepCount(v, n) => CheckError::IncorrectDepCount(v@, n),
        ProofCheckError::IncorrectSubDepCount(v, n) => CheckError::IncorrectSubDepCount(v@, n),
        ProofCheckError::DepOfWrongForm(a, b) => CheckError::DepOfWrongForm(a@, b@),
        ProofCheckError::ConclusionOfWrongForm(a) => CheckError::ConclusionOfWrongForm(a@),
        ProofCheckError::DoesNotOccur(a, b) => CheckError::DoesNotOccur(a@, b@),
        ProofCheckError::DepDoesNotExist(a, b) => CheckError::DepDoesNotExist(a@, b),
        ProofCheckError::OneOf(v) => CheckError::OneOf(err_models(v@)),
        ProofCheckError::Other(s) => CheckError::Other(s@),
    }
}

pub open spec fn err_models(s: Seq<ProofCheckError>) -> Seq<CheckError>
    decreases s,
{
    if s.len() == 0 {
        Seq::empty()
    } else {
        err_models(s.drop_last()).push(err_model(s.last()))
    }
}

/// Whether every `OneOf` in `e` combines at least two errors, pairwise
/// distinct.
pub open spec fn err_wf(e: CheckError) -> bool {
    err_wf_deep(e)
}

/// Errors none of which combines others are well formed together.
pub proof fn lemma_flat_wf(l: Seq<CheckError>)
    requires
        forall|i: int| 0 <= i < l.len() ==> !(#[trigger] l[i] is OneOf),
    ensures
        err_wf_all(l),
    decreases l.len(),
{
    if l.len() > 0 {
        assert forall|i: int| 0 <= i < l.drop_last().len() implies !(#[trigger] l.drop_last()[i] is OneOf) by {
            assert(l.drop_last()[i] == l[i]);
        }
        lemma_flat_wf(l.drop_last());
        assert(!(l[l.len() - 1] is OneOf));
        assert(l.last() == l[l.len() - 1]);
        assert(err_wf_deep(l.last()));
    }
}

/// Whether every `OneOf` in `e`, at any depth, combines at least two
/// errors, pairwise distinct.
pub open spec fn err_wf_deep(e: CheckError) -> bool
    decreases e,
{
    match e {
        CheckError::OneOf(l) => l.len() >= 2 && (forall|i: int, j: int| 0 <= i < j < l.len() ==> #[trigger] l[i] != #[trigger] l[j])
            && err_wf_all(l),
        _ => true,
    }
}

pub open spec fn err_wf_all(l: Seq<CheckError>) -> bool
    decreases l,
{
    l.len() == 0 || (err_wf_all(l.drop_last()) && err_wf_deep(l.last()))
}

pub proof fn lemma_err_wf_all_index(l: Seq<CheckError>, i: int)
    requires
        err_wf_all(l),
        0 <= i < l.len(),
    ensures
        err_wf_deep(l[i]),
    decreases l.len(),
{
    if i < l.len() - 1 {
        lemma_err_wf_all_index(l.drop_last(), i);
        assert(l.drop_last()[i] == l[i]);
    }
}

impl View for ProofCheckError {
    type V = CheckError;

    open spec fn view(&self) -> CheckError {
        err_model(*self)
    }
}

/// Whether two errors are the same.
pub fn same_error(a: &ProofCheckError, b: &ProofCheckError) -> (r: bool)
    ensures
        r == (a@ == b@),
    decreases a,
{
    match (a, b) {
        (ProofCheckError::LineDoesNotExist(x), ProofCheckError::LineDoesNotExist(y)) => *x == *y,
        (ProofCheckError::SubproofDoesNotExist(x), ProofCheckError::SubproofDoesNotExist(y)) => {
            *x == *y
        },
        (
            ProofCheckError::ReferencesLaterLine(x1, x2),
            ProofCheckError::ReferencesLaterLine(y1, y2),
        ) => *x1 == *y1 && *x2 == *y2,
        (ProofCheckError::IncorrectDepCount(v1, n1), ProofCheckError::IncorrectDepCount(v2, n2)) => {
            *n1 == *n2 && same_refs(v1, v2)
        },
        (ProofCheckError::IncorrectSubDepCount(v1, n1), ProofCheckError::IncorrectSubDepCount(v2, n2)) => {
            *n1 == *n2 && same_refs(v1, v2)
        },
        (ProofCheckError::DepOfWrongForm(x1, x2), ProofCheckError::DepOfWrongForm(y1, y2)) => {
            expr_eq(x1, y1) && expr_eq(x2, y2)
        },
        (ProofCheckError::ConclusionOfWrongForm(x), ProofCheckError::ConclusionOfWrongForm(y)) => {
            expr_eq(x, y)
        },
        (ProofCheckError::DoesNotOccur(x1, x2), ProofCheckError::DoesNotOccur(y1, y2)) => {
            expr_eq(x1, y1) && expr_eq(x2, y2)
        },
        (ProofCheckError::DepDoesNotExist(x1, x2), ProofCheckError::DepDoesNotExist(y1, y2)) => {
            expr_eq(x1, y1) && *x2 == *y2
        },
        (ProofCheckError::OneOf(v1), ProofCheckError::OneOf(v2)) => same_errors(v1, v2),
        (ProofCheckError::Other(x), ProofCheckError::Other(y)) => *x == *y,
        _ => false,
    }
}

/// Whether two lists of references are the same.
fn same_refs(a: &Vec<usize>, b: &Vec<usize>) -> (r: bool)
    ensures
        r == (a@ == b@),
{
    if a.len() != b.len() {
        return false;
    }
    let mut i: usize = 0;
    while i < a.len()
        invariant
            a@.len() == b@.len(),
            0 <= i <= a@.len(),
            forall|j: int| 0 <= j < i ==> a@[j] == b@[j],
        decreases a.len() - i,
    {
        if a[i] != b[i] {
            return false;
        }
        i = i + 1;
    }
    assert(a@ =~= b@);
    true
}

/// Whether two lists of errors are the same, element by element.
fn same_errors(a: &Vec<ProofCheckError>, b: &Vec<ProofCheckError>) -> (r: bool)
    ensures
        r == (err_models(a@) == err_models(b@)),
    decreases a,
{
    proof {
        lemma_err_models_index(a@);
        lemma_err_models_index(b@);
    }
    if a.len() != b.len() {
        return false;
    }
    let mut i: usize = 0;
    while i < a.len()
        invariant
            a@.len() == b@.len(),
            0 <= i <= a@.len(),
            err_models(a@).len() == a@.len(),
            err_models(b@).len() == b@.len(),
            forall|j: int| 0 <= j < a@.len() ==> #[trigger] err_models(a@)[j] == err_model(a@[j]),
            forall|j: int| 0 <= j < b@.len() ==> #[trigger] err_models(b@)[j] == err_model(b@[j]),
            forall|j: int| 0 <= j < i ==> err_models(a@)[j] == err_models(b@)[j],
        decreases a.len() - i,
    {
        if !same_error(&a[i], &b[i]) {
            assert(err_models(a@)[i as int] != err_models(b@)[i as int]);
            return false;
        }
        i = i + 1;
    }
    assert(err_models(a@) =~= err_models(b@));
    true
}

/// A copy of an error.
pub fn clone_error(e: &ProofCheckError) -> (r: ProofCheckError)
    ensures
        r@ == e@,
    decreases e,
{
    match e {
        ProofCheckError::LineDoesNotExist(x) => ProofCheckError::LineDoesNotExist(*x),
        ProofCheckError::SubproofDoesNotExist(x) => ProofCheckError::SubproofDoesNotExist(*x),
        ProofCheckError::ReferencesLaterLine(x, y) => ProofCheckError::ReferencesLaterLine(*x, *y),
        ProofCheckError::IncorrectDepCount(v, n) => ProofCheckError::IncorrectDepCount(copy_refs(v), *n),
        ProofCheckError::IncorrectSubDepCount(v, n) => ProofCheckError::IncorrectSubDepCount(copy_refs(v), *n),
        ProofCheckError::DepOfWrongForm(a, b) => ProofCheckError::DepOfWrongForm(a.clone(), b.clone()),
        ProofCheckError::ConclusionOfWrongForm(a) => ProofCheckError::ConclusionOfWrongForm(a.clone()),
        ProofCheckError::DoesNotOccur(a, b) => ProofCheckError::DoesNotOccur(a.clone(), b.clone()),
        ProofCheckError::DepDoesNotExist(a, b) => ProofCheckError::DepDoesNotExist(a.clone(), *b),
        ProofCheckError::OneOf(v) => ProofCheckError::OneOf(clone_errors(v)),
        ProofCheckError::Other(m) => ProofCheckError::Other(m.clone()),
    }
}

/// A copy of a list of errors.
pub fn clone_errors(v: &Vec<ProofCheckError>) -> (r: Vec<ProofCheckError>)
    ensures
        err_models(r@) == err_models(v@),
    decreases v,
{
    let mut r: Vec<ProofCheckError> = Vec::new();
    let mut i: usize = 0;
    proof {
        lemma_err_models_index(v@);
    }
    while i < v.len()
        invariant
            0 <= i <= v@.len(),
            r@.len() == i,
            forall|j: int| 0 <= j < i ==> #[trigger] err_model(r@[j]) == err_model(v@[j]),
        decreases v.len() - i,
    {
        r.push(clone_error(&v[i]));
        i = i + 1;
    }
    proof {
        lemma_err_models_index(r@);
    }
    assert(err_models(r@) =~= err_models(v@));
    r
}

/// A copy of a list of references.
pub fn copy_refs(v: &Vec<usize>) -> (r: Vec<usize>)
    ensures
        r@ == v@,
{
    let mut r: Vec<usize> = Vec::new();
    let mut i: usize = 0;
    while i < v.len()
        invariant
            0 <= i <= v@.len(),
            r@ == v@.subrange(0, i as int),
        decreases v.len() - i,
    {
        r.push(v[i]);
        i = i + 1;
    }
    assert(r@ =~= v@);
    r
}

pub proof fn lemma_err_models_index(s: Seq<ProofCheckError>)
    ensures
        err_models(s).len() == s.len(),
        forall|i: int| 0 <= i < s.len() ==> #[trigger] err_models(s)[i] == err_model(s[i]),
    decreases s.len(),
{
    if s.len() > 0 {
        lemma_err_models_index(s.drop_last());
    }
}

} // verus!
