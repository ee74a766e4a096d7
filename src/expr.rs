//! Expressions, their mathematical model, and structural operations on them.
use vstd::prelude::*;

verus! {

/// The associative and commutative connectives and operators.
#[derive(PartialEq, Eq, Structural, Clone, Copy, Debug, PartialOrd, Ord, Hash)]
pub enum Op {
    And,
    Or,
    Bicon,
    Equiv,
    Add,
    Mult,
}

/// The two quantifiers.
#[derive(PartialEq, Eq, Structural, Clone, Copy, Debug, PartialOrd, Ord, Hash)]
pub enum QuantKind {
    Forall,
    Exists,
}

/// A formula or a term.
#[derive(Debug, PartialEq, Eq, PartialOrd, Ord, Hash)]
pub enum Expr {
    /// The absurdity, written `_|_`.
    Contra,
    /// A propositional atom or an object variable.
    Var { name: String },
    /// An uninterpreted predicate or function applied to arguments.
    Apply { name: String, args: Vec<Expr> },
    Not { operand: Box<Expr> },
    Impl { left: Box<Expr>, right: Box<Expr> },
    /// An n-ary application of an associative connective.
    Assoc { op: Op, exprs: Vec<Expr> },
    Quant { kind: QuantKind, name: String, body: Box<Expr> },
}

/// The mathematical model of an `Expr`: names are character sequences and
/// operand lists are sequences.
pub enum Formula {
    Contra,
    Var { name: Seq<char> },
    Apply { name: Seq<char>, args: Seq<Formula> },
    Not { operand: Box<Formula> },
    Impl { left: Box<Formula>, right: Box<Formula> },
    Assoc { op: Op, exprs: Seq<Formula> },
    Quant { kind: QuantKind, name: Seq<char>, body: Box<Formula> },
}

pub open spec fn model(e: Expr) -> Formula
    decreases e,
{
    match e {
        Expr::Contra => Formula::Contra,
        Expr::Var { name } => Formula::Var { name: name@ },
        Expr::Apply { name, args } => Formula::Apply { name: name@, args: models(args@) },
        Expr::Not { operand } => Formula::Not { operand: Box::new(model(*operand)) },
        Expr::Impl { left, right } => Formula::Impl {
            left: Box::new(model(*left)),
            right: Box::new(model(*right)),
        },
        Expr::Assoc { op, exprs } => Formula::Assoc { op, exprs: models(exprs@) },
        Expr::Quant { kind, name, body } => Formula::Quant {
            kind,
            name: name@,
            body: Box::new(model(*body)),
        },
    }
}

pub open spec fn models(s: Seq<Expr>) -> Seq<Formula>
    decreases s,
{
    if s.len() == 0 {
        Seq::empty()
    } else {
        models(s.drop_last()).push(model(s.last()))
    }
}

impl View for Expr {
    type V = Formula;

    open spec fn view(&self) -> Formula {
        model(*self)
    }
}

pub proof fn lemma_models_index(s: Seq<Expr>)
    ensures
        models(s).len() == s.len(),
        forall|i: int| 0 <= i < s.len() ==> #[trigger] models(s)[i] == model(s[i]),
    decreases s.len(),
{
    if s.len() > 0 {
        lemma_models_index(s.drop_last());
    }
}

/// Structural equality of two expressions.
pub fn expr_eq(a: &Expr, b: &Expr) -> (r: bool)
    ensures
        r == (a@ == b@),
    decreases a,
{
    match (a, b) {
        (Expr::Contra, Expr::Contra) => true,
        (Expr::Var { name: n1 }, Expr::Var { name: n2 }) => *n1 == *n2,
        (Expr::Apply { name: n1, args: a1 }, Expr::Apply { name: n2, args: a2 }) => {
            if *n1 == *n2 {
                exprs_eq(a1, a2)
            } else {
                false
            }
        },
        (Expr::Not { operand: o1 }, Expr::Not { operand: o2 }) => expr_eq(o1, o2),
        (Expr::Impl { left: l1, right: r1 }, Expr::Impl { left: l2, right: r2 }) => {
            if expr_eq(l1, l2) {
                expr_eq(r1, r2)
            } else {
                false
            }
        },
        (Expr::Assoc { op: o1, exprs: e1 }, Expr::Assoc { op: o2, exprs: e2 }) => {
            if *o1 == *o2 {
                exprs_eq(e1, e2)
            } else {
                false
            }
        },
        (
            Expr::Quant { kind: k1, name: n1, body: b1 },
            Expr::Quant { kind: k2, name: n2, body: b2 },
        ) => {
            if *k1 == *k2 && *n1 == *n2 {
                expr_eq(b1, b2)
            } else {
                false
            }
        },
        _ => false,
    }
}

impl Clone for Expr {
    fn clone(&self) -> (r: Self)
        ensures
            r@ == self@,
        decreases self,
    {
        match self {
            Expr::Contra => Expr::Contra,
            Expr::Var { name } => Expr::Var { name: name.clone() },
            Expr::Apply { name, args } => Expr::Apply { name: name.clone(), args: clone_exprs(args) },
            Expr::Not { operand } => Expr::Not { operand: Box::new((**operand).clone()) },
            Expr::Impl { left, right } => Expr::Impl {
                left: Box::new((**left).clone()),
                right: Box::new((**right).clone()),
            },
            Expr::Assoc { op, exprs } => Expr::Assoc { op: *op, exprs: clone_exprs(exprs) },
            Expr::Quant { kind, name, body } => Expr::Quant {
                kind: *kind,
                name: name.clone(),
                body: Box::new((**body).clone()),
            },
        }
    }
}

/// A copy of an operand list.
pub fn clone_exprs(v: &Vec<Expr>) -> (r: Vec<Expr>)
    ensures
        models(r@) == models(v@),
    decreases v,
{
    proof {
        lemma_models_index(v@);
    }
    let mut r: Vec<Expr> = Vec::new();
    let mut i: usize = 0;
    while i < v.len()
        invariant
            0 <= i <= v.len(),
            r@.len() == i,
            forall|j: int| 0 <= j < i ==> #[trigger] model(r@[j]) == model(v@[j]),
        decreases v.len() - i,
    {
        let c = v[i].clone();
        r.push(c);
        i = i + 1;
    }
    proof {
        lemma_models_index(r@);
    }
    assert(models(r@) =~= models(v@));
    r
}

/// Element-wise structural equality of two operand lists.
pub fn exprs_eq(a: &Vec<Expr>, b: &Vec<Expr>) -> (r: bool)
    ensures
        r == (models(a@) == models(b@)),
    decreases a,
{
    proof {
        lemma_models_index(a@);
        lemma_models_index(b@);
    }
    if a.len() != b.len() {
        return false;
    }
    let mut i: usize = 0;
    while i < a.len()
        invariant
            a.len() == b.len(),
            0 <= i <= a.len(),
            models(a@).len() == a@.len(),
            models(b@).len() == b@.len(),
            forall|j: int| 0 <= j < a.len() ==> #[trigger] models(a@)[j] == model(a@[j]),
            forall|j: int| 0 <= j < b.len() ==> #[trigger] models(b@)[j] == model(b@[j]),
            forall|j: int| 0 <= j < i ==> models(a@)[j] == models(b@)[j],
        decreases a.len() - i,
    {
        if !expr_eq(&a[i], &b[i]) {
            assert(models(a@)[i as int] != models(b@)[i as int]);
            return false;
        }
        i = i + 1;
    }
    assert(models(a@) =~= models(b@));
    true
}

} // verus!

verus! {

/// Whether `e` occurs among `v`.
pub fn contains_expr(v: &Vec<Expr>, e: &Expr) -> (r: bool)
    ensures
        r == models(v@).contains(e@),
{
    proof {
        lemma_models_index(v@);
    }
    let mut i: usize = 0;
    while i < v.len()
        invariant
            0 <= i <= v.len(),
            models(v@).len() == v@.len(),
            forall|j: int| 0 <= j < v.len() ==> #[trigger] models(v@)[j] == model(v@[j]),
            forall|j: int| 0 <= j < i ==> models(v@)[j] != e@,
        decreases v.len() - i,
    {
        if expr_eq(&v[i], e) {
            assert(models(v@)[i as int] == e@);
            return true;
        }
        i = i + 1;
    }
    false
}

/// A variable, or a propositional atom.
pub fn var(name: &str) -> (r: Expr)
    ensures
        r@ == (Formula::Var { name: name@ }),
{
    Expr::Var { name: String::from_str(name) }
}

/// The negation of `e`.
pub fn not(e: Expr) -> (r: Expr)
    ensures
        r@ == (Formula::Not { operand: Box::new(e@) }),
{
    Expr::Not { operand: Box::new(e) }
}

/// The implication from `left` to `right`.
pub fn implication(left: Expr, right: Expr) -> (r: Expr)
    ensures
        r@ == (Formula::Impl { left: Box::new(left@), right: Box::new(right@) }),
{
    Expr::Impl { left: Box::new(left), right: Box::new(right) }
}

/// The n-ary application of `op` to `exprs`.
pub fn assoc(op: Op, exprs: Vec<Expr>) -> (r: Expr)
    ensures
        r@ == (Formula::Assoc { op, exprs: models(exprs@) }),
{
    Expr::Assoc { op, exprs }
}

/// The binary disjunction of `a` and `b`.
pub fn or2(a: Expr, b: Expr) -> (r: Expr)
    ensures
        r@ == (Formula::Assoc { op: Op::Or, exprs: seq![a@, b@] }),
{
    or_like(Op::Or, a, b)
}

/// A quantified formula.
pub fn quant(kind: QuantKind, name: &str, body: Expr) -> (r: Expr)
    ensures
        r@ == (Formula::Quant { kind, name: name@, body: Box::new(body@) }),
{
    Expr::Quant { kind, name: String::from_str(name), body: Box::new(body) }
}

/// The shape `_ op _` shown in diagnostics.
pub fn assoc_placeholder(op: Op) -> (r: Expr)
    ensures
        r@ == (Formula::Assoc { op, exprs: seq![placeholder_var(), placeholder_var()] }),
{
    or_like(op, var("_"), var("_"))
}

/// Whether `f` is an n-ary application of `op`.
pub open spec fn is_op(f: Formula, op: Op) -> bool {
    f is Assoc && f->op == op
}

/// The shape `_ op _` of diagnostics.
pub open spec fn ph_assoc(op: Op) -> Formula {
    Formula::Assoc { op, exprs: seq![placeholder_var(), placeholder_var()] }
}

/// The shape `_ -> _` of diagnostics.
pub open spec fn ph_impl() -> Formula {
    Formula::Impl { left: Box::new(placeholder_var()), right: Box::new(placeholder_var()) }
}

/// The shape `~_` of diagnostics.
pub open spec fn ph_not() -> Formula {
    Formula::Not { operand: Box::new(placeholder_var()) }
}

/// The shape `~~_` of diagnostics.
pub open spec fn ph_not_not() -> Formula {
    Formula::Not { operand: Box::new(ph_not()) }
}

/// The shape `forall _, _` or `exists _, _` of diagnostics.
pub open spec fn ph_quant(kind: QuantKind) -> Formula {
    Formula::Quant { kind, name: "_"@, body: Box::new(placeholder_var()) }
}

/// The placeholder variable `_` of diagnostics.
pub open spec fn placeholder_var() -> Formula {
    Formula::Var { name: "_"@ }
}

/// The binary application of `op` to `a` and `b`.
pub fn or_like(op: Op, a: Expr, b: Expr) -> (r: Expr)
    ensures
        r@ == (Formula::Assoc { op, exprs: seq![a@, b@] }),
{
    let ghost (ma, mb) = (a@, b@);
    let mut v: Vec<Expr> = Vec::new();
    v.push(a);
    v.push(b);
    proof {
        lemma_models_index(v@);
    }
    assert(models(v@) =~= seq![ma, mb]);
    Expr::Assoc { op, exprs: v }
}

/// The shape `_ -> _` shown in diagnostics.
pub fn impl_placeholder() -> (r: Expr)
    ensures
        r@ == (Formula::Impl {
            left: Box::new(placeholder_var()),
            right: Box::new(placeholder_var()),
        }),
{
    implication(var("_"), var("_"))
}

/// The shape `forall _, _` (or `exists _, _`) shown in diagnostics.
pub fn quant_placeholder(kind: QuantKind) -> (r: Expr)
    ensures
        r@ == (Formula::Quant { kind, name: "_"@, body: Box::new(placeholder_var()) }),
{
    quant(kind, "_", var("_"))
}

} // verus!
