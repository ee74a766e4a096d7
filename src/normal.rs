//! Normal forms used by the equivalences that are not checked by rewriting.
use vstd::prelude::*;
use crate::expr::{Expr, Formula, Op, is_op, models, lemma_models_index, contains_expr};
use crate::algebra::{rename, size, size_seq, rename_var, lemma_rename_size_pub};

verus! {

/// The operands of `s`, with those that are themselves applications of
/// `op` replaced by their operands.
pub open spec fn splice(op: Op, s: Seq<Formula>) -> Seq<Formula>
    decreases s.len(),
{
    if s.len() == 0 {
        Seq::empty()
    } else {
        splice(op, s.drop_last()) + if is_op(s.last(), op) { s.last()->exprs } else { seq![s.last()] }
    }
}

/// `f` with nested applications of the same connective merged.
pub open spec fn combine(f: Formula) -> Formula
    decreases f,
{
    match f {
        Formula::Apply { name, args } => Formula::Apply { name, args: combine_seq(args) },
        Formula::Not { operand } => Formula::Not { operand: Box::new(combine(*operand)) },
        Formula::Impl { left, right } => Formula::Impl { left: Box::new(combine(*left)), right: Box::new(combine(*right)) },
        Formula::Assoc { op, exprs } => Formula::Assoc { op, exprs: splice(op, combine_seq(exprs)) },
        Formula::Quant { kind, name, body } => Formula::Quant { kind, name, body: Box::new(combine(*body)) },
        _ => f,
    }
}

pub open spec fn combine_seq(s: Seq<Formula>) -> Seq<Formula>
    decreases s,
{
    if s.len() == 0 {
        Seq::empty()
    } else {
        combine_seq(s.drop_last()).push(combine(s.last()))
    }
}

/// `f` with nested applications of the same connective merged.
pub fn combine_associative_ops(e: &Expr) -> (r: Expr)
    ensures
        r@ == combine(e@),
    decreases e,
{
    match e {
        Expr::Apply { name, args } => Expr::Apply { name: name.clone(), args: combine_all(args) },
        Expr::Not { operand } => Expr::Not { operand: Box::new(combine_associative_ops(operand)) },
        Expr::Impl { left, right } => Expr::Impl {
            left: Box::new(combine_associative_ops(left)),
            right: Box::new(combine_associative_ops(right)),
        },
        Expr::Assoc { op, exprs } => {
            let inner = combine_all(exprs);
            Expr::Assoc { op: *op, exprs: splice_exec(*op, inner) }
        },
        Expr::Quant { kind, name, body } => Expr::Quant {
            kind: *kind,
            name: name.clone(),
            body: Box::new(combine_associative_ops(body)),
        },
        _ => e.clone(),
    }
}

fn splice_exec(op: Op, v: Vec<Expr>) -> (r: Vec<Expr>)
    ensures
        models(r@) == splice(op, models(v@)),
{
    proof {
        lemma_models_index(v@);
    }
    let mut r: Vec<Expr> = Vec::new();
    let mut i: usize = 0;
    assert(models(v@).subrange(0, 0) =~= Seq::<Formula>::empty());
    proof {
        lemma_models_index(r@);
    }
    while i < v.len()
        invariant
            0 <= i <= v@.len(),
            models(v@).len() == v@.len(),
            forall|j: int| 0 <= j < v@.len() ==> #[trigger] models(v@)[j] == v@[j]@,
            models(r@) == splice(op, models(v@).subrange(0, i as int)),
        decreases v.len() - i,
    {
        proof {
            let next = models(v@).subrange(0, i + 1);
            assert(next.drop_last() =~= models(v@).subrange(0, i as int));
        }
        let ghost before = models(r@);
        match &v[i] {
            Expr::Assoc { op: o2, exprs } => {
                if *o2 == op {
                    let mut k: usize = 0;
                    proof {
                        lemma_models_index(exprs@);
                        lemma_models_index(r@);
                    }
                    while k < exprs.len()
                        invariant
                            0 <= k <= exprs@.len(),
                            models(exprs@).len() == exprs@.len(),
                            forall|j: int| 0 <= j < exprs@.len() ==> #[trigger] models(exprs@)[j] == exprs@[j]@,
                            models(r@) == before + models(exprs@).subrange(0, k as int),
                        decreases exprs.len() - k,
                    {
                        let ghost rb = r@;
                        r.push(exprs[k].clone());
                        proof {
                            lemma_models_index(r@);
                            lemma_models_index(rb);
                            assert(models(r@) =~= models(rb).push(exprs@[k as int]@));
                            assert(models(exprs@).subrange(0, k + 1) =~= models(exprs@).subrange(0, k as int).push(exprs@[k as int]@));
                        }
                        k = k + 1;
                    }
                    assert(models(exprs@).subrange(0, exprs@.len() as int) =~= models(exprs@));
                } else {
                    let ghost rb = r@;
                    r.push(v[i].clone());
                    proof {
                        lemma_models_index(r@);
                        lemma_models_index(rb);
                        assert(models(r@) =~= models(rb) + seq![v@[i as int]@]);
                    }
                }
            },
            _ => {
                let ghost rb = r@;
                r.push(v[i].clone());
                proof {
                    lemma_models_index(r@);
                    lemma_models_index(rb);
                    assert(models(r@) =~= models(rb) + seq![v@[i as int]@]);
                }
            },
        }
        i = i + 1;
    }
    assert(models(v@).subrange(0, v@.len() as int) =~= models(v@));
    r
}

fn combine_all(v: &Vec<Expr>) -> (r: Vec<Expr>)
    ensures
        models(r@) == combine_seq(models(v@)),
    decreases v,
{
    proof {
        lemma_models_index(v@);
    }
    let mut r: Vec<Expr> = Vec::new();
    let mut i: usize = 0;
    while i < v.len()
        invariant
            0 <= i <= v@.len(),
            models(v@).len() == v@.len(),
            forall|j: int| 0 <= j < v@.len() ==> #[trigger] models(v@)[j] == v@[j]@,
            r@.len() == i,
            models(r@) == combine_seq(models(v@).subrange(0, i as int)),
        decreases v.len() - i,
    {
        let ghost before = r@;
        r.push(combine_associative_ops(&v[i]));
        proof {
            let next = models(v@).subrange(0, i + 1);
            assert(next.drop_last() =~= models(v@).subrange(0, i as int));
            lemma_models_index(r@);
            lemma_models_index(before);
            assert(models(r@) =~= models(before).push(r@[i as int]@));
        }
        i = i + 1;
    }
    assert(models(v@).subrange(0, v@.len() as int) =~= models(v@));
    r
}

/// `f` under `k` negations.
pub open spec fn negs(f: Formula, k: nat) -> Formula
    decreases k,
{
    if k == 0 {
        f
    } else {
        Formula::Not { operand: Box::new(negs(f, (k - 1) as nat)) }
    }
}

/// The connective that `op` becomes under `k` negations, by De Morgan.
pub open spec fn dual(op: Op, k: nat) -> Op {
    if k % 2 == 0 {
        op
    } else if op == Op::And {
        Op::Or
    } else {
        Op::And
    }
}

/// The De Morgan normal form of `f` under `k` negations: every negation
/// of a conjunction or disjunction is pushed into its operands.
pub open spec fn demorgan(f: Formula, k: nat) -> Formula
    decreases f,
{
    match f {
        Formula::Not { operand } => demorgan(*operand, k + 1),
        Formula::Assoc { op, exprs } => if op == Op::And || op == Op::Or {
            Formula::Assoc { op: dual(op, k), exprs: demorgan_seq(exprs, k) }
        } else {
            negs(Formula::Assoc { op, exprs: demorgan_seq(exprs, 0) }, k)
        },
        Formula::Apply { name, args } => negs(Formula::Apply { name, args: demorgan_seq(args, 0) }, k),
        Formula::Impl { left, right } => negs(Formula::Impl { left: Box::new(demorgan(*left, 0)), right: Box::new(demorgan(*right, 0)) }, k),
        Formula::Quant { kind, name, body } => negs(Formula::Quant { kind, name, body: Box::new(demorgan(*body, 0)) }, k),
        _ => negs(f, k),
    }
}

pub open spec fn demorgan_seq(s: Seq<Formula>, k: nat) -> Seq<Formula>
    decreases s,
{
    if s.len() == 0 {
        Seq::empty()
    } else {
        demorgan_seq(s.drop_last(), k).push(demorgan(s.last(), k))
    }
}

pub open spec fn is_and_or(f: Formula) -> bool {
    is_op(f, Op::And) || is_op(f, Op::Or)
}

/// Whether no negation in `f` stands directly over a conjunction or disjunction.
pub open spec fn dm_normal(f: Formula) -> bool
    decreases f,
{
    match f {
        Formula::Not { operand } => !is_and_or(*operand) && dm_normal(*operand),
        Formula::Assoc { op, exprs } => dm_normal_seq(exprs),
        Formula::Apply { name, args } => dm_normal_seq(args),
        Formula::Impl { left, right } => dm_normal(*left) && dm_normal(*right),
        Formula::Quant { kind, name, body } => dm_normal(*body),
        _ => true,
    }
}

pub open spec fn dm_normal_seq(s: Seq<Formula>) -> bool
    decreases s,
{
    s.len() == 0 || (dm_normal_seq(s.drop_last()) && dm_normal(s.last()))
}

proof fn lemma_negs_normal(f: Formula, k: nat)
    requires
        dm_normal(f),
        !is_and_or(f),
    ensures
        dm_normal(negs(f, k)),
        k > 0 ==> !is_and_or(negs(f, k)),
    decreases k,
{
    if k > 0 {
        lemma_negs_normal(f, (k - 1) as nat);
    }
}

proof fn lemma_negs_shift(f: Formula, k: nat)
    ensures
        negs(Formula::Not { operand: Box::new(f) }, k) == negs(f, k + 1),
    decreases k,
{
    if k > 0 {
        lemma_negs_shift(f, (k - 1) as nat);
        assert(negs(f, k + 1) == Formula::Not { operand: Box::new(negs(f, k)) });
    } else {
        assert(negs(f, 0) == f);
        assert(negs(f, 1) == Formula::Not { operand: Box::new(negs(f, 0)) });
    }
}

proof fn lemma_demorgan_normal(f: Formula, k: nat)
    ensures
        dm_normal(demorgan(f, k)),
    decreases f,
{
    match f {
        Formula::Not { operand } => lemma_demorgan_normal(*operand, k + 1),
        Formula::Assoc { op, exprs } => {
            if op == Op::And || op == Op::Or {
                lemma_demorgan_normal_seq(exprs, k);
            } else {
                lemma_demorgan_normal_seq(exprs, 0);
                lemma_negs_normal(Formula::Assoc { op, exprs: demorgan_seq(exprs, 0) }, k);
            }
        },
        Formula::Apply { name, args } => {
            lemma_demorgan_normal_seq(args, 0);
            lemma_negs_normal(Formula::Apply { name, args: demorgan_seq(args, 0) }, k);
        },
        Formula::Impl { left, right } => {
            lemma_demorgan_normal(*left, 0);
            lemma_demorgan_normal(*right, 0);
            lemma_negs_normal(Formula::Impl { left: Box::new(demorgan(*left, 0)), right: Box::new(demorgan(*right, 0)) }, k);
        },
        Formula::Quant { kind, name, body } => {
            lemma_demorgan_normal(*body, 0);
            lemma_negs_normal(Formula::Quant { kind, name, body: Box::new(demorgan(*body, 0)) }, k);
        },
        _ => lemma_negs_normal(f, k),
    }
}

proof fn lemma_demorgan_normal_seq(s: Seq<Formula>, k: nat)
    ensures
        dm_normal_seq(demorgan_seq(s, k)),
    decreases s,
{
    if s.len() > 0 {
        lemma_demorgan_normal_seq(s.drop_last(), k);
        lemma_demorgan_normal(s.last(), k);
        assert(demorgan_seq(s, k).drop_last() =~= demorgan_seq(s.drop_last(), k));
    }
}

proof fn lemma_demorgan_fixed(g: Formula, k: nat)
    requires
        dm_normal(g),
    ensures
        !is_and_or(g) ==> demorgan(g, k) == negs(g, k),
        demorgan(g, 0) == g,
    decreases g,
{
    match g {
        Formula::Not { operand } => {
            lemma_demorgan_fixed(*operand, k + 1);
            lemma_demorgan_fixed(*operand, 1);
            lemma_negs_shift(*operand, k);
            lemma_negs_shift(*operand, 0);
        },
        Formula::Assoc { op, exprs } => {
            lemma_demorgan_fixed_seq(exprs);
        },
        Formula::Apply { name, args } => {
            lemma_demorgan_fixed_seq(args);
        },
        Formula::Impl { left, right } => {
            lemma_demorgan_fixed(*left, 0);
            lemma_demorgan_fixed(*right, 0);
        },
        Formula::Quant { kind, name, body } => {
            lemma_demorgan_fixed(*body, 0);
        },
        _ => {},
    }
}

proof fn lemma_demorgan_fixed_seq(s: Seq<Formula>)
    requires
        dm_normal_seq(s),
    ensures
        demorgan_seq(s, 0) == s,
    decreases s,
{
    if s.len() > 0 {
        lemma_demorgan_fixed_seq(s.drop_last());
        lemma_demorgan_fixed(s.last(), 0);
        assert(demorgan_seq(s, 0) =~= s);
    }
}

/// Pushing negations through conjunctions and disjunctions a second time
/// changes nothing.
pub proof fn lemma_demorgan_involution(f: Formula)
    ensures
        demorgan(demorgan(f, 0), 0) == demorgan(f, 0),
{
    lemma_demorgan_normal(f, 0);
    lemma_demorgan_fixed(demorgan(f, 0), 0);
}

/// How many negations `f` starts with.
pub open spec fn not_depth(f: Formula) -> nat
    decreases f,
{
    match f {
        Formula::Not { operand } => 1 + not_depth(*operand),
        _ => 0,
    }
}

/// What `f` is, under the negations it starts with.
pub open spec fn under_negs(f: Formula) -> Formula
    decreases f,
{
    match f {
        Formula::Not { operand } => under_negs(*operand),
        _ => f,
    }
}

proof fn lemma_core(f: Formula)
    ensures
        f == negs(under_negs(f), not_depth(f)),
        !(under_negs(f) is Not),
        size(f) == not_depth(f) + size(under_negs(f)),
    decreases f,
{
    if let Formula::Not { operand } = f {
        lemma_core(*operand);
        lemma_negs_shift(under_negs(*operand), not_depth(*operand));
    }
}

proof fn lemma_negs_size(x: Formula, k: nat)
    ensures
        size(negs(x, k)) == k + size(x),
    decreases k,
{
    if k > 0 {
        lemma_negs_size(x, (k - 1) as nat);
    }
}

proof fn lemma_demorgan_negs(x: Formula, k: nat, j: nat)
    ensures
        demorgan(negs(x, k), j) == demorgan(x, k + j),
    decreases k,
{
    if k > 0 {
        lemma_demorgan_negs(x, (k - 1) as nat, j + 1);
    }
}

proof fn lemma_size_seq_elem(s: Seq<Formula>, i: int)
    requires
        0 <= i < s.len(),
    ensures
        size(s[i]) <= size_seq(s),
    decreases s.len(),
{
    if i < s.len() - 1 {
        lemma_size_seq_elem(s.drop_last(), i);
        assert(s.drop_last()[i] == s[i]);
    }
}

/// `x` under as many negations as `chain` starts with.
fn rewrap(chain: &Expr, x: Expr) -> (r: Expr)
    ensures
        r@ == negs(x@, not_depth(chain@)),
    decreases chain,
{
    match chain {
        Expr::Not { operand } => Expr::Not { operand: Box::new(rewrap(operand, x)) },
        _ => x,
    }
}

/// What `e` is under its leading negations, and whether there is an odd
/// number of them.
fn peel(e: &Expr) -> (r: (&Expr, bool))
    ensures
        r.0@ == under_negs(e@),
        r.1 == (not_depth(e@) % 2 == 1),
    decreases e,
{
    match e {
        Expr::Not { operand } => {
            let (c, odd) = peel(operand);
            (c, !odd)
        },
        _ => (e, false),
    }
}

/// `e` with every negation of a conjunction or disjunction pushed into its
/// operands (De Morgan's laws), at any depth.
pub fn normalize_demorgans(e: &Expr) -> (r: Expr)
    ensures
        r@ == demorgan(e@, 0),
    decreases size(e@), 1nat,
{
    let (c, odd) = peel(e);
    let ghost k = not_depth(e@);
    proof {
        lemma_core(e@);
        lemma_demorgan_negs(under_negs(e@), k, 0);
    }
    match c {
        Expr::Assoc { op, exprs } => {
            if *op == Op::And || *op == Op::Or {
                proof {
                    lemma_models_index(exprs@);
                }
                let mut r: Vec<Expr> = Vec::new();
                let mut i: usize = 0;
                while i < exprs.len()
                    invariant
                        0 <= i <= exprs@.len(),
                        c@ == under_negs(e@),
                        c@ == (Formula::Assoc { op: *op, exprs: models(exprs@) }),
                        size(e@) == k + size(c@),
                        k == not_depth(e@),
                        models(exprs@).len() == exprs@.len(),
                        forall|j: int| 0 <= j < exprs@.len() ==> #[trigger] models(exprs@)[j] == exprs@[j]@,
                        r@.len() == i,
                        models(r@) == demorgan_seq(models(exprs@).subrange(0, i as int), k),
                    decreases exprs.len() - i,
                {
                    let wrapped = rewrap(e, exprs[i].clone());
                    proof {
                        lemma_negs_size(exprs@[i as int]@, k);
                        lemma_size_seq_elem(models(exprs@), i as int);
                        lemma_demorgan_negs(exprs@[i as int]@, k, 0);
                    }
                    let ghost before = r@;
                    r.push(normalize_demorgans(&wrapped));
                    proof {
                        let next = models(exprs@).subrange(0, i + 1);
                        assert(next.drop_last() =~= models(exprs@).subrange(0, i as int));
                        lemma_models_index(r@);
                        lemma_models_index(before);
                        assert(models(r@) =~= models(before).push(r@[i as int]@));
                    }
                    i = i + 1;
                }
                assert(models(exprs@).subrange(0, exprs@.len() as int) =~= models(exprs@));
                let new_op = if !odd {
                    *op
                } else if *op == Op::And {
                    Op::Or
                } else {
                    Op::And
                };
                Expr::Assoc { op: new_op, exprs: r }
            } else {
                proof {
                    lemma_size_seq_elem_all(models(exprs@));
                }
                let inner = Expr::Assoc { op: *op, exprs: demorgan_all(exprs, Ghost(size(e@))) };
                rewrap(e, inner)
            }
        },
        Expr::Apply { name, args } => {
            let inner = Expr::Apply { name: name.clone(), args: demorgan_all(args, Ghost(size(e@))) };
            rewrap(e, inner)
        },
        Expr::Impl { left, right } => {
            let inner = Expr::Impl {
                left: Box::new(normalize_demorgans(left)),
                right: Box::new(normalize_demorgans(right)),
            };
            rewrap(e, inner)
        },
        Expr::Quant { kind, name, body } => {
            let inner = Expr::Quant { kind: *kind, name: name.clone(), body: Box::new(normalize_demorgans(body)) };
            rewrap(e, inner)
        },
        _ => rewrap(e, c.clone()),
    }
}

proof fn lemma_size_seq_elem_all(s: Seq<Formula>)
    ensures
        forall|i: int| 0 <= i < s.len() ==> size(#[trigger] s[i]) <= size_seq(s),
{
    assert forall|i: int| 0 <= i < s.len() implies size(#[trigger] s[i]) <= size_seq(s) by {
        lemma_size_seq_elem(s, i);
    }
}

/// The De Morgan normal form of each element of `v`, which lies inside an
/// expression of size `bound`.
fn demorgan_all(v: &Vec<Expr>, bound: Ghost<nat>) -> (r: Vec<Expr>)
    requires
        size_seq(models(v@)) < bound@,
    ensures
        models(r@) == demorgan_seq(models(v@), 0),
    decreases bound@, 0nat,
{
    proof {
        lemma_models_index(v@);
        lemma_size_seq_elem_all(models(v@));
    }
    let mut r: Vec<Expr> = Vec::new();
    let mut i: usize = 0;
    while i < v.len()
        invariant
            0 <= i <= v@.len(),
            models(v@).len() == v@.len(),
            forall|j: int| 0 <= j < v@.len() ==> #[trigger] models(v@)[j] == v@[j]@,
            forall|j: int| 0 <= j < v@.len() ==> size(#[trigger] models(v@)[j]) <= size_seq(models(v@)),
            size_seq(models(v@)) < bound@,
            r@.len() == i,
            models(r@) == demorgan_seq(models(v@).subrange(0, i as int), 0),
        decreases v.len() - i,
    {
        let ghost before = r@;
        assert(size(models(v@)[i as int]) <= size_seq(models(v@)));
        r.push(normalize_demorgans(&v[i]));
        proof {
            let next = models(v@).subrange(0, i + 1);
            assert(next.drop_last() =~= models(v@).subrange(0, i as int));
            lemma_models_index(r@);
            lemma_models_index(before);
            assert(models(r@) =~= models(before).push(r@[i as int]@));
        }
        i = i + 1;
    }
    assert(models(v@).subrange(0, v@.len() as int) =~= models(v@));
    r
}

/// `s` without repeated elements, keeping first occurrences in order.
pub open spec fn dedup(s: Seq<Formula>) -> Seq<Formula>
    decreases s.len(),
{
    if s.len() == 0 {
        s
    } else {
        let t = dedup(s.drop_last());
        if t.contains(s.last()) { t } else { t.push(s.last()) }
    }
}

/// `f` with repeated operands of every conjunction and disjunction removed;
/// one left alone stands for the whole.
pub open spec fn idem(f: Formula) -> Formula
    decreases f,
{
    match f {
        Formula::Apply { name, args } => Formula::Apply { name, args: idem_seq(args) },
        Formula::Not { operand } => Formula::Not { operand: Box::new(idem(*operand)) },
        Formula::Impl { left, right } => Formula::Impl { left: Box::new(idem(*left)), right: Box::new(idem(*right)) },
        Formula::Assoc { op, exprs } => if op == Op::And || op == Op::Or {
            let d = dedup(idem_seq(exprs));
            if d.len() == 1 { d[0] } else { Formula::Assoc { op, exprs: d } }
        } else {
            Formula::Assoc { op, exprs: idem_seq(exprs) }
        },
        Formula::Quant { kind, name, body } => Formula::Quant { kind, name, body: Box::new(idem(*body)) },
        _ => f,
    }
}

pub open spec fn idem_seq(s: Seq<Formula>) -> Seq<Formula>
    decreases s,
{
    if s.len() == 0 {
        Seq::empty()
    } else {
        idem_seq(s.drop_last()).push(idem(s.last()))
    }
}

fn dedup_exec(v: Vec<Expr>) -> (r: Vec<Expr>)
    ensures
        models(r@) == dedup(models(v@)),
{
    proof {
        lemma_models_index(v@);
    }
    let mut r: Vec<Expr> = Vec::new();
    let mut i: usize = 0;
    assert(models(v@).subrange(0, 0) =~= Seq::<Formula>::empty());
    proof {
        lemma_models_index(r@);
    }
    while i < v.len()
        invariant
            0 <= i <= v@.len(),
            models(v@).len() == v@.len(),
            forall|j: int| 0 <= j < v@.len() ==> #[trigger] models(v@)[j] == v@[j]@,
            models(r@) == dedup(models(v@).subrange(0, i as int)),
        decreases v.len() - i,
    {
        proof {
            let next = models(v@).subrange(0, i + 1);
            assert(next.drop_last() =~= models(v@).subrange(0, i as int));
        }
        if !contains_expr(&r, &v[i]) {
            let ghost before = r@;
            r.push(v[i].clone());
            proof {
                lemma_models_index(r@);
                lemma_models_index(before);
                assert(models(r@) =~= models(before).push(v@[i as int]@));
            }
        }
        i = i + 1;
    }
    assert(models(v@).subrange(0, v@.len() as int) =~= models(v@));
    r
}

/// `e` with repeated operands of every conjunction and disjunction removed.
pub fn normalize_idempotence(e: &Expr) -> (r: Expr)
    ensures
        r@ == idem(e@),
    decreases e,
{
    match e {
        Expr::Apply { name, args } => Expr::Apply { name: name.clone(), args: idem_all(args) },
        Expr::Not { operand } => Expr::Not { operand: Box::new(normalize_idempotence(operand)) },
        Expr::Impl { left, right } => Expr::Impl {
            left: Box::new(normalize_idempotence(left)),
            right: Box::new(normalize_idempotence(right)),
        },
        Expr::Assoc { op, exprs } => {
            if *op == Op::And || *op == Op::Or {
                let mut d = dedup_exec(idem_all(exprs));
                proof {
                    lemma_models_index(d@);
                }
                if d.len() == 1 {
                    d.pop().unwrap()
                } else {
                    Expr::Assoc { op: *op, exprs: d }
                }
            } else {
                Expr::Assoc { op: *op, exprs: idem_all(exprs) }
            }
        },
        Expr::Quant { kind, name, body } => Expr::Quant {
            kind: *kind,
            name: name.clone(),
            body: Box::new(normalize_idempotence(body)),
        },
        _ => e.clone(),
    }
}

fn idem_all(v: &Vec<Expr>) -> (r: Vec<Expr>)
    ensures
        models(r@) == idem_seq(models(v@)),
    decreases v,
{
    proof {
        lemma_models_index(v@);
    }
    let mut r: Vec<Expr> = Vec::new();
    let mut i: usize = 0;
    while i < v.len()
        invariant
            0 <= i <= v@.len(),
            models(v@).len() == v@.len(),
            forall|j: int| 0 <= j < v@.len() ==> #[trigger] models(v@)[j] == v@[j]@,
            r@.len() == i,
            models(r@) == idem_seq(models(v@).subrange(0, i as int)),
        decreases v.len() - i,
    {
        let ghost before = r@;
        r.push(normalize_idempotence(&v[i]));
        proof {
            let next = models(v@).subrange(0, i + 1);
            assert(next.drop_last() =~= models(v@).subrange(0, i as int));
            lemma_models_index(r@);
            lemma_models_index(before);
            assert(models(r@) =~= models(before).push(r@[i as int]@));
        }
        i = i + 1;
    }
    assert(models(v@).subrange(0, v@.len() as int) =~= models(v@));
    r
}

/// `f` with every bound variable renamed by its depth: the outermost binder
/// takes the name `n`, and each one inside takes one more prime.
pub open spec fn canon_bound(f: Formula, n: Seq<char>) -> Formula
    decreases size(f), 0nat
    via canon_bound_decreases
{
    match f {
        Formula::Apply { name, args } => Formula::Apply { name, args: canon_bound_seq(args, n) },
        Formula::Not { operand } => Formula::Not { operand: Box::new(canon_bound(*operand, n)) },
        Formula::Impl { left, right } => Formula::Impl {
            left: Box::new(canon_bound(*left, n)),
            right: Box::new(canon_bound(*right, n)),
        },
        Formula::Assoc { op, exprs } => Formula::Assoc { op, exprs: canon_bound_seq(exprs, n) },
        Formula::Quant { kind, name, body } => Formula::Quant {
            kind,
            name: n,
            body: Box::new(canon_bound(rename(*body, name, n), n + seq!['\''])),
        },
        _ => f,
    }
}

#[via_fn]
proof fn canon_bound_decreases(f: Formula, n: Seq<char>) {
    match f {
        Formula::Quant { kind, name, body } => {
            lemma_rename_size_pub(*body, name, n);
        },
        _ => {},
    }
}

pub open spec fn canon_bound_seq(s: Seq<Formula>, n: Seq<char>) -> Seq<Formula>
    decreases size_seq(s), 1nat,
{
    if s.len() == 0 {
        Seq::empty()
    } else {
        canon_bound_seq(s.drop_last(), n).push(canon_bound(s.last(), n))
    }
}

/// `e` with every bound variable renamed by its depth, so that formulas
/// that differ only in the names of bound variables become equal.
pub fn replacing_bound_vars(e: &Expr) -> (r: Expr)
    ensures
        r@ == canon_bound(e@, seq!['_']),
{
    proof {
        reveal_strlit("_");
        assert("_"@ =~= seq!['_']);
    }
    let n = String::from_str("_");
    canon_bound_exec(e, &n)
}

fn canon_bound_exec(e: &Expr, n: &String) -> (r: Expr)
    ensures
        r@ == canon_bound(e@, n@),
    decreases size(e@), 0nat,
{
    match e {
        Expr::Apply { name, args } => Expr::Apply { name: name.clone(), args: canon_bound_all(args, n) },
        Expr::Not { operand } => Expr::Not { operand: Box::new(canon_bound_exec(operand, n)) },
        Expr::Impl { left, right } => Expr::Impl {
            left: Box::new(canon_bound_exec(left, n)),
            right: Box::new(canon_bound_exec(right, n)),
        },
        Expr::Assoc { op, exprs } => Expr::Assoc { op: *op, exprs: canon_bound_all(exprs, n) },
        Expr::Quant { kind, name, body } => {
            let renamed = rename_var(body, name, n);
            proof {
                lemma_rename_size_pub(body@, name@, n@);
                reveal_strlit("'");
                assert("'"@ =~= seq!['\'']);
            }
            let mut next = n.clone();
            next.append("'");
            Expr::Quant { kind: *kind, name: n.clone(), body: Box::new(canon_bound_exec(&renamed, &next)) }
        },
        _ => e.clone(),
    }
}

fn canon_bound_all(v: &Vec<Expr>, n: &String) -> (r: Vec<Expr>)
    ensures
        models(r@) == canon_bound_seq(models(v@), n@),
    decreases size_seq(models(v@)), 1nat,
{
    proof {
        lemma_models_index(v@);
        lemma_size_seq_elem_all(models(v@));
    }
    let mut r: Vec<Expr> = Vec::new();
    let mut i: usize = 0;
    while i < v.len()
        invariant
            0 <= i <= v@.len(),
            models(v@).len() == v@.len(),
            forall|j: int| 0 <= j < v@.len() ==> #[trigger] models(v@)[j] == v@[j]@,
            forall|j: int| 0 <= j < v@.len() ==> size(#[trigger] models(v@)[j]) <= size_seq(models(v@)),
            r@.len() == i,
            models(r@) == canon_bound_seq(models(v@).subrange(0, i as int), n@),
        decreases v.len() - i,
    {
        let ghost before = r@;
        assert(size(models(v@)[i as int]) <= size_seq(models(v@)));
        r.push(canon_bound_exec(&v[i], n));
        proof {
            let next = models(v@).subrange(0, i + 1);
            assert(next.drop_last() =~= models(v@).subrange(0, i as int));
            lemma_models_index(r@);
            lemma_models_index(before);
            assert(models(r@) =~= models(before).push(r@[i as int]@));
        }
        i = i + 1;
    }
    assert(models(v@).subrange(0, v@.len() as int) =~= models(v@));
    r
}

} // verus!
