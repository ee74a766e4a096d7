//! Free variables, capture-avoiding substitution and unification with
//! respect to one variable.
use vstd::prelude::*;
use crate::expr::{Expr, Formula, models, lemma_models_index, expr_eq};

verus! {

/// The variables that occur free in `f`.
pub open spec fn free_vars(f: Formula) -> Set<Seq<char>>
    decreases f,
{
    match f {
        Formula::Contra => Set::empty(),
        Formula::Var { name } => set![name],
        Formula::Apply { name, args } => free_vars_seq(args),
        Formula::Not { operand } => free_vars(*operand),
        Formula::Impl { left, right } => free_vars(*left).union(free_vars(*right)),
        Formula::Assoc { op, exprs } => free_vars_seq(exprs),
        Formula::Quant { kind, name, body } => free_vars(*body).remove(name),
    }
}

/// The variables that occur free in some element of `s`.
pub open spec fn free_vars_seq(s: Seq<Formula>) -> Set<Seq<char>>
    decreases s,
{
    if s.len() == 0 {
        Set::empty()
    } else {
        free_vars_seq(s.drop_last()).union(free_vars(s.last()))
    }
}

/// Whether `x` occurs free in `e`.
pub fn occurs_free(e: &Expr, x: &String) -> (r: bool)
    ensures
        r == free_vars(e@).contains(x@),
    decreases e,
{
    match e {
        Expr::Contra => false,
        Expr::Var { name } => {
            let b = *name == *x;
            assert(free_vars(e@) == set![name@]);
            b
        },
        Expr::Apply { name, args } => occurs_free_in(args, x),
        Expr::Not { operand } => occurs_free(operand, x),
        Expr::Impl { left, right } => occurs_free(left, x) || occurs_free(right, x),
        Expr::Assoc { op, exprs } => occurs_free_in(exprs, x),
        Expr::Quant { kind, name, body } => {
            if *name == *x {
                false
            } else {
                occurs_free(body, x)
            }
        },
    }
}

proof fn lemma_free_vars_seq_index(s: Seq<Formula>, x: Seq<char>)
    ensures
        free_vars_seq(s).contains(x) <==> exists|i: int| 0 <= i < s.len() && free_vars(#[trigger] s[i]).contains(x),
    decreases s.len(),
{
    if s.len() > 0 {
        lemma_free_vars_seq_index(s.drop_last(), x);
        if free_vars_seq(s.drop_last()).contains(x) {
            let i = choose|i: int| 0 <= i < s.drop_last().len() && free_vars(#[trigger] s.drop_last()[i]).contains(x);
            assert(s[i] == s.drop_last()[i]);
        }
        if exists|i: int| 0 <= i < s.len() && free_vars(#[trigger] s[i]).contains(x) {
            let i = choose|i: int| 0 <= i < s.len() && free_vars(#[trigger] s[i]).contains(x);
            if i < s.len() - 1 {
                assert(s.drop_last()[i] == s[i]);
            }
        }
    }
}

/// Whether `x` occurs free in some element of `v`.
#[verifier::loop_isolation(false)]
pub fn occurs_free_in(v: &Vec<Expr>, x: &String) -> (r: bool)
    ensures
        r == free_vars_seq(models(v@)).contains(x@),
    decreases v,
{
    proof {
        lemma_models_index(v@);
        lemma_free_vars_seq_index(models(v@), x@);
    }
    let mut i: usize = 0;
    while i < v.len()
        invariant
            0 <= i <= v@.len(),
            models(v@).len() == v@.len(),
            forall|j: int| 0 <= j < v@.len() ==> #[trigger] models(v@)[j] == v@[j]@,
            forall|j: int| 0 <= j < i ==> !free_vars(#[trigger] models(v@)[j]).contains(x@),
        decreases v.len() - i,
    {
        if occurs_free(&v[i], x) {
            assert(free_vars(models(v@)[i as int]).contains(x@));
            return true;
        }
        i = i + 1;
    }
    false
}

/// How many nodes `f` has.
pub open spec fn size(f: Formula) -> nat
    decreases f,
{
    match f {
        Formula::Contra => 1,
        Formula::Var { .. } => 1,
        Formula::Apply { name, args } => 1 + size_seq(args),
        Formula::Not { operand } => 1 + size(*operand),
        Formula::Impl { left, right } => 1 + size(*left) + size(*right),
        Formula::Assoc { op, exprs } => 1 + size_seq(exprs),
        Formula::Quant { kind, name, body } => 1 + size(*body),
    }
}

pub open spec fn size_seq(s: Seq<Formula>) -> nat
    decreases s,
{
    if s.len() == 0 {
        0
    } else {
        size_seq(s.drop_last()) + size(s.last())
    }
}

proof fn lemma_size_pos(f: Formula)
    ensures
        size(f) >= 1,
{
}

/// `f` with the free occurrences of the variable `a` renamed to `b`.
pub open spec fn rename(f: Formula, a: Seq<char>, b: Seq<char>) -> Formula
    decreases f,
{
    match f {
        Formula::Contra => f,
        Formula::Var { name } => if name == a { Formula::Var { name: b } } else { f },
        Formula::Apply { name, args } => Formula::Apply { name, args: rename_seq(args, a, b) },
        Formula::Not { operand } => Formula::Not { operand: Box::new(rename(*operand, a, b)) },
        Formula::Impl { left, right } => Formula::Impl {
            left: Box::new(rename(*left, a, b)),
            right: Box::new(rename(*right, a, b)),
        },
        Formula::Assoc { op, exprs } => Formula::Assoc { op, exprs: rename_seq(exprs, a, b) },
        Formula::Quant { kind, name, body } => if name == a {
            f
        } else {
            Formula::Quant { kind, name, body: Box::new(rename(*body, a, b)) }
        },
    }
}

pub open spec fn rename_seq(s: Seq<Formula>, a: Seq<char>, b: Seq<char>) -> Seq<Formula>
    decreases s,
{
    if s.len() == 0 {
        Seq::empty()
    } else {
        rename_seq(s.drop_last(), a, b).push(rename(s.last(), a, b))
    }
}

/// Renaming a variable keeps the size of a formula.
pub proof fn lemma_rename_size_pub(f: Formula, a: Seq<char>, b: Seq<char>)
    ensures
        size(rename(f, a, b)) == size(f),
{
    lemma_rename_size(f, a, b);
}

proof fn lemma_rename_size(f: Formula, a: Seq<char>, b: Seq<char>)
    ensures
        size(rename(f, a, b)) == size(f),
    decreases f,
{
    match f {
        Formula::Apply { name, args } => lemma_rename_size_seq(args, a, b),
        Formula::Not { operand } => lemma_rename_size(*operand, a, b),
        Formula::Impl { left, right } => {
            lemma_rename_size(*left, a, b);
            lemma_rename_size(*right, a, b);
        },
        Formula::Assoc { op, exprs } => lemma_rename_size_seq(exprs, a, b),
        Formula::Quant { kind, name, body } => lemma_rename_size(*body, a, b),
        _ => {},
    }
}

proof fn lemma_rename_size_seq(s: Seq<Formula>, a: Seq<char>, b: Seq<char>)
    ensures
        size_seq(rename_seq(s, a, b)) == size_seq(s),
    decreases s,
{
    if s.len() > 0 {
        lemma_rename_size_seq(s.drop_last(), a, b);
        lemma_rename_size(s.last(), a, b);
        assert(rename_seq(s, a, b).drop_last() =~= rename_seq(s.drop_last(), a, b));
    }
}

/// The length of the longest name in `f`.
pub open spec fn max_name_len(f: Formula) -> nat
    decreases f,
{
    match f {
        Formula::Contra => 0,
        Formula::Var { name } => name.len(),
        Formula::Apply { name, args } => vstd::math::max(name.len() as int, max_name_len_seq(args) as int) as nat,
        Formula::Not { operand } => max_name_len(*operand),
        Formula::Impl { left, right } => vstd::math::max(max_name_len(*left) as int, max_name_len(*right) as int) as nat,
        Formula::Assoc { op, exprs } => max_name_len_seq(exprs),
        Formula::Quant { kind, name, body } => vstd::math::max(name.len() as int, max_name_len(*body) as int) as nat,
    }
}

pub open spec fn max_name_len_seq(s: Seq<Formula>) -> nat
    decreases s,
{
    if s.len() == 0 {
        0
    } else {
        vstd::math::max(max_name_len_seq(s.drop_last()) as int, max_name_len(s.last()) as int) as nat
    }
}

/// `base` followed by primes, longer than `m` characters (or `base` itself,
/// when no string can be longer).
pub open spec fn primed(base: Seq<char>, m: nat) -> Seq<char>
    decreases m + 1 - base.len(),
{
    if base.len() > m || m >= usize::MAX {
        base
    } else {
        primed(base + seq!['\''], m)
    }
}

/// The name that a binder `name` takes when substituting `t` under it would
/// capture it: longer than every name in `t` and in the body.
pub open spec fn fresh_for(name: Seq<char>, t: Formula, body: Formula) -> Seq<char> {
    primed(name, vstd::math::max(max_name_len(t) as int, max_name_len(body) as int) as nat)
}

/// `f` with the free occurrences of the variable `x` replaced by `t`; a binder
/// that would capture a free variable of `t` is renamed first.
pub open spec fn subst(f: Formula, x: Seq<char>, t: Formula) -> Formula
    decreases size(f), 0nat
    via subst_decreases
{
    match f {
        Formula::Contra => f,
        Formula::Var { name } => if name == x { t } else { f },
        Formula::Apply { name, args } => Formula::Apply { name, args: subst_seq(args, x, t) },
        Formula::Not { operand } => Formula::Not { operand: Box::new(subst(*operand, x, t)) },
        Formula::Impl { left, right } => Formula::Impl {
            left: Box::new(subst(*left, x, t)),
            right: Box::new(subst(*right, x, t)),
        },
        Formula::Assoc { op, exprs } => Formula::Assoc { op, exprs: subst_seq(exprs, x, t) },
        Formula::Quant { kind, name, body } => if name == x {
            f
        } else if free_vars(t).contains(name) && free_vars(*body).contains(x) {
            let y = fresh_for(name, t, *body);
            Formula::Quant { kind, name: y, body: Box::new(subst(rename(*body, name, y), x, t)) }
        } else {
            Formula::Quant { kind, name, body: Box::new(subst(*body, x, t)) }
        },
    }
}

#[via_fn]
proof fn subst_decreases(f: Formula, x: Seq<char>, t: Formula) {
    match f {
        Formula::Quant { kind, name, body } => {
            lemma_rename_size(*body, name, fresh_for(name, t, *body));
        },
        _ => {},
    }
}

pub open spec fn subst_seq(s: Seq<Formula>, x: Seq<char>, t: Formula) -> Seq<Formula>
    decreases size_seq(s), 1nat,
{
    if s.len() == 0 {
        Seq::empty()
    } else {
        subst_seq(s.drop_last(), x, t).push(subst(s.last(), x, t))
    }
}

/// `e` with the free occurrences of the variable `a` renamed to `b`.
pub fn rename_var(e: &Expr, a: &String, b: &String) -> (r: Expr)
    ensures
        r@ == rename(e@, a@, b@),
    decreases e,
{
    match e {
        Expr::Contra => Expr::Contra,
        Expr::Var { name } => {
            if *name == *a {
                Expr::Var { name: b.clone() }
            } else {
                e.clone()
            }
        },
        Expr::Apply { name, args } => Expr::Apply { name: name.clone(), args: rename_all(args, a, b) },
        Expr::Not { operand } => Expr::Not { operand: Box::new(rename_var(operand, a, b)) },
        Expr::Impl { left, right } => Expr::Impl {
            left: Box::new(rename_var(left, a, b)),
            right: Box::new(rename_var(right, a, b)),
        },
        Expr::Assoc { op, exprs } => Expr::Assoc { op: *op, exprs: rename_all(exprs, a, b) },
        Expr::Quant { kind, name, body } => {
            if *name == *a {
                e.clone()
            } else {
                Expr::Quant { kind: *kind, name: name.clone(), body: Box::new(rename_var(body, a, b)) }
            }
        },
    }
}

pub fn rename_all(v: &Vec<Expr>, a: &String, b: &String) -> (r: Vec<Expr>)
    ensures
        models(r@) == rename_seq(models(v@), a@, b@),
    decreases v,
{
    proof {
        lemma_models_index(v@);
    }
    let mut r: Vec<Expr> = Vec::new();
    let mut i: usize = 0;
    while i < v.len()
        invariant
            0 <= i <= v@.len(),
            models(v@).len() == v@.len(),
            forall|j: int| 0 <= j < v@.len() ==> #[trigger] models(v@)[j] == v@[j]@,
            r@.len() == i,
            models(r@) == rename_seq(models(v@).subrange(0, i as int), a@, b@),
        decreases v.len() - i,
    {
        let ghost before = r@;
        r.push(rename_var(&v[i], a, b));
        proof {
            let next = models(v@).subrange(0, i + 1);
            assert(next.drop_last() =~= models(v@).subrange(0, i as int));
            lemma_models_index(r@);
            lemma_models_index(before);
            assert(models(r@) =~= models(before).push(r@[i as int]@));
        }
        i = i + 1;
    }
    assert(models(v@).subrange(0, v@.len() as int) =~= models(v@));
    r
}

/// The length of the longest name in `e`.
pub fn longest_name(e: &Expr) -> (r: usize)
    ensures
        r == max_name_len(e@),
    decreases e,
{
    match e {
        Expr::Contra => 0,
        Expr::Var { name } => name.unicode_len(),
        Expr::Apply { name, args } => {
            let a = name.unicode_len();
            let b = longest_name_in(args);
            if a >= b { a } else { b }
        },
        Expr::Not { operand } => longest_name(operand),
        Expr::Impl { left, right } => {
            let a = longest_name(left);
            let b = longest_name(right);
            if a >= b { a } else { b }
        },
        Expr::Assoc { op, exprs } => longest_name_in(exprs),
        Expr::Quant { kind, name, body } => {
            let a = name.unicode_len();
            let b = longest_name(body);
            if a >= b { a } else { b }
        },
    }
}

pub fn longest_name_in(v: &Vec<Expr>) -> (r: usize)
    ensures
        r == max_name_len_seq(models(v@)),
    decreases v,
{
    proof {
        lemma_models_index(v@);
    }
    let mut m: usize = 0;
    let mut i: usize = 0;
    assert(models(v@).subrange(0, 0) =~= Seq::<Formula>::empty());
    while i < v.len()
        invariant
            0 <= i <= v@.len(),
            models(v@).len() == v@.len(),
            forall|j: int| 0 <= j < v@.len() ==> #[trigger] models(v@)[j] == v@[j]@,
            m == max_name_len_seq(models(v@).subrange(0, i as int)),
        decreases v.len() - i,
    {
        let k = longest_name(&v[i]);
        proof {
            let next = models(v@).subrange(0, i + 1);
            assert(next.drop_last() =~= models(v@).subrange(0, i as int));
        }
        if k > m {
            m = k;
        }
        i = i + 1;
    }
    assert(models(v@).subrange(0, v@.len() as int) =~= models(v@));
    m
}

/// `base` followed by primes, longer than `m` characters.
pub fn primed_name(base: &String, m: usize) -> (r: String)
    ensures
        r@ == primed(base@, m as nat),
{
    let mut y = base.clone();
    if m == usize::MAX {
        return y;
    }
    proof {
        reveal_strlit("'");
    }
    while y.unicode_len() <= m
        invariant
            m < usize::MAX,
            primed(y@, m as nat) == primed(base@, m as nat),
        decreases m + 1 - y@.len(),
    {
        let ghost old_y = y@;
        proof {
            reveal_strlit("'");
            assert("'"@ =~= seq!['\'']);
        }
        y.append("'");
        assert(y@ =~= old_y + seq!['\'']);
        assert(primed(old_y, m as nat) == primed(y@, m as nat));
    }
    y
}

/// `e` with the free occurrences of the variable `x` replaced by `t`,
/// renaming the binders that would capture a free variable of `t`.
pub fn subst_var(e: &Expr, x: &String, t: &Expr) -> (r: Expr)
    ensures
        r@ == subst(e@, x@, t@),
    decreases size(e@), 0nat,
{
    match e {
        Expr::Contra => Expr::Contra,
        Expr::Var { name } => {
            if *name == *x {
                t.clone()
            } else {
                e.clone()
            }
        },
        Expr::Apply { name, args } => Expr::Apply { name: name.clone(), args: subst_all(args, x, t) },
        Expr::Not { operand } => Expr::Not { operand: Box::new(subst_var(operand, x, t)) },
        Expr::Impl { left, right } => Expr::Impl {
            left: Box::new(subst_var(left, x, t)),
            right: Box::new(subst_var(right, x, t)),
        },
        Expr::Assoc { op, exprs } => Expr::Assoc { op: *op, exprs: subst_all(exprs, x, t) },
        Expr::Quant { kind, name, body } => {
            if *name == *x {
                e.clone()
            } else if occurs_free(t, name) && occurs_free(body, x) {
                let a = longest_name(t);
                let b = longest_name(body);
                let y = primed_name(name, if a >= b { a } else { b });
                let renamed = rename_var(body, name, &y);
                proof {
                    lemma_rename_size(body@, name@, y@);
                }
                Expr::Quant { kind: *kind, name: y, body: Box::new(subst_var(&renamed, x, t)) }
            } else {
                Expr::Quant { kind: *kind, name: name.clone(), body: Box::new(subst_var(body, x, t)) }
            }
        },
    }
}

pub fn subst_all(v: &Vec<Expr>, x: &String, t: &Expr) -> (r: Vec<Expr>)
    ensures
        models(r@) == subst_seq(models(v@), x@, t@),
    decreases size_seq(models(v@)), 1nat,
{
    proof {
        lemma_models_index(v@);
    }
    let mut r: Vec<Expr> = Vec::new();
    let mut i: usize = 0;
    while i < v.len()
        invariant
            0 <= i <= v@.len(),
            models(v@).len() == v@.len(),
            forall|j: int| 0 <= j < v@.len() ==> #[trigger] models(v@)[j] == v@[j]@,
            r@.len() == i,
            models(r@) == subst_seq(models(v@).subrange(0, i as int), x@, t@),
        decreases v.len() - i,
    {
        let ghost before = r@;
        proof {
            lemma_size_seq_elem(models(v@), i as int);
        }
        r.push(subst_var(&v[i], x, t));
        proof {
            let next = models(v@).subrange(0, i + 1);
            assert(next.drop_last() =~= models(v@).subrange(0, i as int));
            lemma_models_index(r@);
            lemma_models_index(before);
            assert(models(r@) =~= models(before).push(r@[i as int]@));
        }
        i = i + 1;
    }
    assert(models(v@).subrange(0, v@.len() as int) =~= models(v@));
    r
}

proof fn lemma_size_seq_elem(s: Seq<Formula>, i: int)
    requires
        0 <= i < s.len(),
    ensures
        size(s[i]) <= size_seq(s),
    decreases s.len(),
{
    if i < s.len() - 1 {
        lemma_size_seq_elem(s.drop_last(), i);
        assert(s.drop_last()[i] == s[i]);
    }
}

proof fn lemma_fv_len(f: Formula, x: Seq<char>)
    requires
        free_vars(f).contains(x),
    ensures
        x.len() <= max_name_len(f),
    decreases f,
{
    match f {
        Formula::Apply { name, args } => lemma_fv_len_seq(args, x),
        Formula::Not { operand } => lemma_fv_len(*operand, x),
        Formula::Impl { left, right } => {
            if free_vars(*left).contains(x) {
                lemma_fv_len(*left, x);
            } else {
                lemma_fv_len(*right, x);
            }
        },
        Formula::Assoc { op, exprs } => lemma_fv_len_seq(exprs, x),
        Formula::Quant { kind, name, body } => lemma_fv_len(*body, x),
        _ => {},
    }
}

proof fn lemma_fv_len_seq(s: Seq<Formula>, x: Seq<char>)
    requires
        free_vars_seq(s).contains(x),
    ensures
        x.len() <= max_name_len_seq(s),
    decreases s,
{
    if s.len() > 0 {
        if free_vars_seq(s.drop_last()).contains(x) {
            lemma_fv_len_seq(s.drop_last(), x);
        } else {
            lemma_fv_len(s.last(), x);
        }
    }
}

proof fn lemma_primed_len(base: Seq<char>, m: nat)
    requires
        m < usize::MAX,
    ensures
        primed(base, m).len() > m,
    decreases m + 1 - base.len(),
{
    if base.len() <= m {
        lemma_primed_len(base + seq!['\''], m);
    }
}

/// Renaming `a` to a name longer than every name in `f` moves exactly the
/// free occurrences of `a`.
proof fn lemma_rename_fv(f: Formula, a: Seq<char>, b: Seq<char>)
    requires
        b.len() > max_name_len(f),
    ensures
        free_vars(rename(f, a, b)) == if free_vars(f).contains(a) { free_vars(f).remove(a).insert(b) } else { free_vars(f) },
    decreases f,
{
    match f {
        Formula::Var { name } => {
            if name == a {
                assert(free_vars(f).remove(a).insert(b) =~= set![b]);
            }
        },
        Formula::Apply { name, args } => lemma_rename_fv_seq(args, a, b),
        Formula::Not { operand } => lemma_rename_fv(*operand, a, b),
        Formula::Impl { left, right } => {
            lemma_rename_fv(*left, a, b);
            lemma_rename_fv(*right, a, b);
            assert(free_vars(rename(f, a, b)) =~= if free_vars(f).contains(a) { free_vars(f).remove(a).insert(b) } else { free_vars(f) });
        },
        Formula::Assoc { op, exprs } => lemma_rename_fv_seq(exprs, a, b),
        Formula::Quant { kind, name, body } => {
            if name != a {
                lemma_rename_fv(*body, a, b);
                assert(b != name);
                assert(free_vars(rename(f, a, b)) =~= if free_vars(f).contains(a) { free_vars(f).remove(a).insert(b) } else { free_vars(f) });
            }
        },
        _ => {},
    }
}

proof fn lemma_rename_fv_seq(s: Seq<Formula>, a: Seq<char>, b: Seq<char>)
    requires
        b.len() > max_name_len_seq(s),
    ensures
        free_vars_seq(rename_seq(s, a, b)) == if free_vars_seq(s).contains(a) { free_vars_seq(s).remove(a).insert(b) } else { free_vars_seq(s) },
    decreases s,
{
    if s.len() > 0 {
        lemma_rename_fv_seq(s.drop_last(), a, b);
        lemma_rename_fv(s.last(), a, b);
        assert(rename_seq(s, a, b).drop_last() =~= rename_seq(s.drop_last(), a, b));
        assert(free_vars_seq(rename_seq(s, a, b)) =~= if free_vars_seq(s).contains(a) { free_vars_seq(s).remove(a).insert(b) } else { free_vars_seq(s) });
    }
}

/// The free variables that substituting `t` for `x` in `f` leaves.
pub open spec fn subst_fv(f: Formula, x: Seq<char>, t: Formula) -> Set<Seq<char>> {
    if free_vars(f).contains(x) { free_vars(f).remove(x).union(free_vars(t)) } else { free_vars(f) }
}

/// Substitution captures nothing: the free variables of `subst(f, x, t)`
/// are those of `f` other than `x`, and, where `x` occurred free, all those
/// of `t`. (Formulas whose names and size together reach the largest
/// machine integer are left out: no fresh name is made for them.)
pub proof fn lemma_subst_no_capture(f: Formula, x: Seq<char>, t: Formula)
    requires
        vstd::math::max(max_name_len(f) as int, max_name_len(t) as int) + size(f) < usize::MAX,
    ensures
        free_vars(subst(f, x, t)) == subst_fv(f, x, t),
    decreases size(f), 0nat,
{
    match f {
        Formula::Var { name } => {
            if name == x {
                assert(subst_fv(f, x, t) =~= free_vars(t));
            }
        },
        Formula::Apply { name, args } => {
            lemma_subst_no_capture_seq(args, x, t);
        },
        Formula::Not { operand } => lemma_subst_no_capture(*operand, x, t),
        Formula::Impl { left, right } => {
            lemma_subst_no_capture(*left, x, t);
            lemma_subst_no_capture(*right, x, t);
            assert(free_vars(subst(f, x, t)) =~= subst_fv(f, x, t));
        },
        Formula::Assoc { op, exprs } => {
            lemma_subst_no_capture_seq(exprs, x, t);
        },
        Formula::Quant { kind, name, body } => {
            if name == x {
                assert(subst_fv(f, x, t) =~= free_vars(f));
            } else if free_vars(t).contains(name) && free_vars(*body).contains(x) {
                let m = vstd::math::max(max_name_len(t) as int, max_name_len(*body) as int) as nat;
                let y = fresh_for(name, t, *body);
                lemma_primed_len(name, m);
                let renamed = rename(*body, name, y);
                lemma_rename_size(*body, name, y);
                lemma_rename_fv(*body, name, y);
                lemma_fv_len(*body, x);
                assert(x != y);
                assert(free_vars(renamed).contains(x));
                lemma_rename_max_len(*body, name, y);
                lemma_fv_len(t, name);
                lemma_primed_exact(name, m);
                assert(y.len() == m + 1);
                assert(!free_vars(*body).contains(y)) by {
                    if free_vars(*body).contains(y) {
                        lemma_fv_len(*body, y);
                    }
                }
                lemma_subst_no_capture(renamed, x, t);
                assert(!free_vars(t).contains(y)) by {
                    if free_vars(t).contains(y) {
                        lemma_fv_len(t, y);
                    }
                }
                assert(free_vars(subst(f, x, t)) =~= subst_fv(f, x, t));
            } else {
                lemma_subst_no_capture(*body, x, t);
                assert(free_vars(subst(f, x, t)) =~= subst_fv(f, x, t));
            }
        },
        _ => {},
    }
}

proof fn lemma_rename_max_len(f: Formula, a: Seq<char>, b: Seq<char>)
    ensures
        max_name_len(rename(f, a, b)) <= vstd::math::max(max_name_len(f) as int, b.len() as int),
    decreases f,
{
    match f {
        Formula::Apply { name, args } => lemma_rename_max_len_seq(args, a, b),
        Formula::Not { operand } => lemma_rename_max_len(*operand, a, b),
        Formula::Impl { left, right } => {
            lemma_rename_max_len(*left, a, b);
            lemma_rename_max_len(*right, a, b);
        },
        Formula::Assoc { op, exprs } => lemma_rename_max_len_seq(exprs, a, b),
        Formula::Quant { kind, name, body } => lemma_rename_max_len(*body, a, b),
        _ => {},
    }
}

proof fn lemma_rename_max_len_seq(s: Seq<Formula>, a: Seq<char>, b: Seq<char>)
    ensures
        max_name_len_seq(rename_seq(s, a, b)) <= vstd::math::max(max_name_len_seq(s) as int, b.len() as int),
    decreases s,
{
    if s.len() > 0 {
        lemma_rename_max_len_seq(s.drop_last(), a, b);
        lemma_rename_max_len(s.last(), a, b);
        assert(rename_seq(s, a, b).drop_last() =~= rename_seq(s.drop_last(), a, b));
    }
}

proof fn lemma_subst_no_capture_seq(s: Seq<Formula>, x: Seq<char>, t: Formula)
    requires
        vstd::math::max(max_name_len_seq(s) as int, max_name_len(t) as int) + size_seq(s) < usize::MAX,
    ensures
        free_vars_seq(subst_seq(s, x, t)) == if free_vars_seq(s).contains(x) { free_vars_seq(s).remove(x).union(free_vars(t)) } else { free_vars_seq(s) },
    decreases size_seq(s), 1nat,
{
    if s.len() > 0 {
        lemma_size_seq_elem(s, s.len() - 1);
        lemma_size_seq_drop_last(s);
        lemma_subst_no_capture_seq(s.drop_last(), x, t);
        lemma_subst_no_capture(s.last(), x, t);
        assert(subst_seq(s, x, t).drop_last() =~= subst_seq(s.drop_last(), x, t));
        assert(free_vars_seq(subst_seq(s, x, t)) =~= if free_vars_seq(s).contains(x) { free_vars_seq(s).remove(x).union(free_vars(t)) } else { free_vars_seq(s) });
    }
}

proof fn lemma_primed_exact(base: Seq<char>, m: nat)
    ensures
        base.len() <= m && m < usize::MAX ==> primed(base, m).len() == m + 1,
    decreases m + 1 - base.len(),
{
    if base.len() <= m && m < usize::MAX {
        let b2 = base + seq!['\''];
        assert(b2.len() == base.len() + 1);
        lemma_primed_exact(b2, m);
        if b2.len() > m {
            assert(primed(b2, m) == b2);
        }
    }
}

proof fn lemma_size_seq_drop_last(s: Seq<Formula>)
    requires
        s.len() > 0,
    ensures
        size_seq(s.drop_last()) < size_seq(s),
        max_name_len_seq(s.drop_last()) <= max_name_len_seq(s),
        max_name_len(s.last()) <= max_name_len_seq(s),
{
    lemma_size_pos(s.last());
}

} // verus!
