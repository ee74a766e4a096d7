//! The text shown to a user for each error.
use vstd::prelude::*;
use crate::error::{ProofCheckError, CheckError, err_model, err_models, lemma_err_models_index, err_wf_deep, err_wf_all, lemma_err_wf_all_index};
use crate::text::{render, to_text};

verus! {

/// The decimal digits of `n`.
pub open spec fn decimal(n: nat) -> Seq<char>
    decreases n,
{
    if n < 10 {
        seq![digit(n)]
    } else {
        decimal(n / 10).push(digit(n % 10))
    }
}

pub open spec fn digit(d: nat) -> char {
    if d == 0 { '0' } else if d == 1 { '1' } else if d == 2 { '2' } else if d == 3 { '3' } else if d == 4 { '4' }
    else if d == 5 { '5' } else if d == 6 { '6' } else if d == 7 { '7' } else if d == 8 { '8' } else { '9' }
}

fn digit_text(d: usize) -> (r: &'static str)
    requires
        d < 10,
    ensures
        r@ == seq![digit(d as nat)],
{
    proof {
        reveal_strlit("0");
        reveal_strlit("1");
        reveal_strlit("2");
        reveal_strlit("3");
        reveal_strlit("4");
        reveal_strlit("5");
        reveal_strlit("6");
        reveal_strlit("7");
        reveal_strlit("8");
        reveal_strlit("9");
    }
    let r = if d == 0 { "0" } else if d == 1 { "1" } else if d == 2 { "2" } else if d == 3 { "3" } else if d == 4 { "4" }
        else if d == 5 { "5" } else if d == 6 { "6" } else if d == 7 { "7" } else if d == 8 { "8" } else { "9" };
    assert(r@ =~= seq![digit(d as nat)]);
    r
}

/// `n` in decimal.
pub fn decimal_text(n: usize) -> (r: String)
    ensures
        r@ == decimal(n as nat),
    decreases n,
{
    if n < 10 {
        String::from_str(digit_text(n))
    } else {
        let mut r = decimal_text(n / 10);
        r.append(digit_text(n % 10));
        r
    }
}

/// "many" when `provided` exceeds `expected`, else "few".
pub open spec fn too(provided: nat, expected: nat) -> Seq<char> {
    if provided > expected { "many"@ } else { "few"@ }
}

/// The message of an error.
pub open spec fn message(e: CheckError) -> Seq<char>
    decreases e,
{
    match e {
        CheckError::LineDoesNotExist(r) => "The referenced line "@ + decimal(r as nat) + " does not exist."@,
        CheckError::SubproofDoesNotExist(s) => "The referenced subproof "@ + decimal(s as nat) + " does not exist."@,
        CheckError::ReferencesLaterLine(line, dep) => "The dependency "@ + decimal(dep as nat) + " is after the step that uses it ("@
            + decimal(line as nat) + ")."@,
        CheckError::IncorrectDepCount(deps, n) => "Too "@ + too(deps.len(), n as nat) + " dependencies (expected: "@ + decimal(n as nat)
            + ", provided: "@ + decimal(deps.len()) + ")."@,
        CheckError::IncorrectSubDepCount(sdeps, n) => "Too "@ + too(sdeps.len(), n as nat) + " subproof dependencies (expected: "@
            + decimal(n as nat) + ", provided: "@ + decimal(sdeps.len()) + ")."@,
        CheckError::DepOfWrongForm(x, y) => "A dependency ("@ + render(x) + ") is of the wrong form, expected "@ + render(y) + "."@,
        CheckError::ConclusionOfWrongForm(k) => "The conclusion is of the wrong form, expected "@ + render(k) + "."@,
        CheckError::DoesNotOccur(x, y) => render(x) + " does not occur in "@ + render(y) + "."@,
        CheckError::DepDoesNotExist(x, approx) => (if approx { "Something of the shape "@ } else { Seq::empty() }) + render(x)
            + " is required as a dependency, but it does not exist."@,
        CheckError::OneOf(errs) => "One of the following requirements was not met:\n"@ + messages(errs),
        CheckError::Other(m) => m,
    }
}

/// The messages of `errs`, each followed by a line break.
pub open spec fn messages(errs: Seq<CheckError>) -> Seq<char>
    decreases errs,
{
    if errs.len() == 0 {
        Seq::empty()
    } else {
        messages(errs.drop_last()) + message(errs.last()) + "\n"@
    }
}

impl ProofCheckError {
    /// The message shown to a user for this error.
    pub fn describe(&self) -> (r: String)
        requires
            err_wf_deep(self@),
        ensures
            r@ == message(self@),
        decreases self,
    {
        match self {
            ProofCheckError::LineDoesNotExist(r) => {
                let mut m = String::from_str("The referenced line ");
                m.append(decimal_text(*r).as_str());
                m.append(" does not exist.");
                m
            },
            ProofCheckError::SubproofDoesNotExist(s) => {
                let mut m = String::from_str("The referenced subproof ");
                m.append(decimal_text(*s).as_str());
                m.append(" does not exist.");
                m
            },
            ProofCheckError::ReferencesLaterLine(line, dep) => {
                let mut m = String::from_str("The dependency ");
                m.append(decimal_text(*dep).as_str());
                m.append(" is after the step that uses it (");
                m.append(decimal_text(*line).as_str());
                m.append(").");
                m
            },
            ProofCheckError::IncorrectDepCount(deps, n) => {
                let mut m = String::from_str("Too ");
                m.append(if deps.len() > *n { "many" } else { "few" });
                m.append(" dependencies (expected: ");
                m.append(decimal_text(*n).as_str());
                m.append(", provided: ");
                m.append(decimal_text(deps.len()).as_str());
                m.append(").");
                m
            },
            ProofCheckError::IncorrectSubDepCount(sdeps, n) => {
                let mut m = String::from_str("Too ");
                m.append(if sdeps.len() > *n { "many" } else { "few" });
                m.append(" subproof dependencies (expected: ");
                m.append(decimal_text(*n).as_str());
                m.append(", provided: ");
                m.append(decimal_text(sdeps.len()).as_str());
                m.append(").");
                m
            },
            ProofCheckError::DepOfWrongForm(x, y) => {
                let mut m = String::from_str("A dependency (");
                m.append(to_text(x).as_str());
                m.append(") is of the wrong form, expected ");
                m.append(to_text(y).as_str());
                m.append(".");
                m
            },
            ProofCheckError::ConclusionOfWrongForm(k) => {
                let mut m = String::from_str("The conclusion is of the wrong form, expected ");
                m.append(to_text(k).as_str());
                m.append(".");
                m
            },
            ProofCheckError::DoesNotOccur(x, y) => {
                let mut m = to_text(x);
                m.append(" does not occur in ");
                m.append(to_text(y).as_str());
                m.append(".");
                m
            },
            ProofCheckError::DepDoesNotExist(x, approx) => {
                let mut m = if *approx { String::from_str("Something of the shape ") } else { String::new() };
                m.append(to_text(x).as_str());
                m.append(" is required as a dependency, but it does not exist.");
                m
            },
            ProofCheckError::OneOf(errs) => {
                let mut m = String::from_str("One of the following requirements was not met:\n");
                m.append(describe_all(errs).as_str());
                m
            },
            ProofCheckError::Other(msg) => msg.clone(),
        }
    }
}

fn describe_all(v: &Vec<ProofCheckError>) -> (r: String)
    requires
        err_wf_all(err_models(v@)),
    ensures
        r@ == messages(err_models(v@)),
    decreases v,
{
    proof {
        lemma_err_models_index(v@);
        reveal_strlit("\n");
    }
    let mut r = String::new();
    let mut i: usize = 0;
    assert(err_models(v@).subrange(0, 0) =~= Seq::<CheckError>::empty());
    while i < v.len()
        invariant
            0 <= i <= v@.len(),
            err_models(v@).len() == v@.len(),
            err_wf_all(err_models(v@)),
            forall|j: int| 0 <= j < v@.len() ==> #[trigger] err_models(v@)[j] == err_model(v@[j]),
            r@ == messages(err_models(v@).subrange(0, i as int)),
        decreases v.len() - i,
    {
        proof {
            let next = err_models(v@).subrange(0, i + 1);
            assert(next.drop_last() =~= err_models(v@).subrange(0, i as int));
        }
        proof {
            lemma_err_wf_all_index(err_models(v@), i as int);
        }
        let d = v[i].describe();
        r.append(d.as_str());
        r.append("\n");
        i = i + 1;
    }
    assert(err_models(v@).subrange(0, v@.len() as int) =~= err_models(v@));
    r
}

} // verus!
