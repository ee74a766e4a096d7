//! A total order on expressions, and sorting the operands of every
//! n-ary connective by it.
use vstd::prelude::*;
use crate::expr::{Expr, Formula, Op, QuantKind, models, lemma_models_index};

verus! {

pub open spec fn op_rank(op: Op) -> int {
    match op {
        Op::And => 0,
        Op::Or => 1,
        Op::Bicon => 2,
        Op::Equiv => 3,
        Op::Add => 4,
        Op::Mult => 5,
    }
}

pub open spec fn tag(f: Formula) -> int {
    match f {
        Formula::Contra => 0,
        Formula::Var { .. } => 1,
        Formula::Apply { .. } => 2,
        Formula::Not { .. } => 3,
        Formula::Impl { .. } => 4,
        Formula::Assoc { .. } => 5,
        Formula::Quant { .. } => 6,
    }
}

pub open spec fn sign(x: int) -> int {
    if x < 0 { -1 } else if x > 0 { 1 } else { 0 }
}

/// The lexicographic comparison of two names: -1, 0 or 1.
pub open spec fn cmp_name(a: Seq<char>, b: Seq<char>) -> int
    decreases a.len(),
{
    if a.len() == 0 && b.len() == 0 {
        0
    } else if a.len() == 0 {
        -1
    } else if b.len() == 0 {
        1
    } else if a[0] != b[0] {
        sign(a[0] as int - b[0] as int)
    } else {
        cmp_name(a.drop_first(), b.drop_first())
    }
}

/// The comparison of two formulas: by kind, then by their parts in order.
pub open spec fn cmp(a: Formula, b: Formula) -> int
    decreases a,
{
    if tag(a) != tag(b) {
        sign(tag(a) - tag(b))
    } else {
        match (a, b) {
            (Formula::Var { name: x }, Formula::Var { name: y }) => cmp_name(x, y),
            (Formula::Apply { name: x, args: xs }, Formula::Apply { name: y, args: ys }) => {
                let c = cmp_name(x, y);
                if c != 0 { c } else { cmp_seq(xs, ys) }
            },
            (Formula::Not { operand: x }, Formula::Not { operand: y }) => cmp(*x, *y),
            (Formula::Impl { left: l1, right: r1 }, Formula::Impl { left: l2, right: r2 }) => {
                let c = cmp(*l1, *l2);
                if c != 0 { c } else { cmp(*r1, *r2) }
            },
            (Formula::Assoc { op: o1, exprs: xs }, Formula::Assoc { op: o2, exprs: ys }) => {
                if o1 != o2 { sign(op_rank(o1) - op_rank(o2)) } else { cmp_seq(xs, ys) }
            },
            (Formula::Quant { kind: k1, name: n1, body: b1 }, Formula::Quant { kind: k2, name: n2, body: b2 }) => {
                if k1 != k2 {
                    if k1 == QuantKind::Forall { -1 } else { 1 }
                } else {
                    let c = cmp_name(n1, n2);
                    if c != 0 { c } else { cmp(*b1, *b2) }
                }
            },
            _ => 0,
        }
    }
}

/// The lexicographic comparison of two sequences of formulas.
pub open spec fn cmp_seq(a: Seq<Formula>, b: Seq<Formula>) -> int
    decreases a,
{
    if a.len() == 0 && b.len() == 0 {
        0
    } else if a.len() == 0 {
        -1
    } else if b.len() == 0 {
        1
    } else {
        let c = cmp(a[0], b[0]);
        if c != 0 { c } else { cmp_seq(a.drop_first(), b.drop_first()) }
    }
}

proof fn lemma_cmp_name_antisym(a: Seq<char>, b: Seq<char>)
    ensures
        cmp_name(a, b) == -cmp_name(b, a),
        -1 <= cmp_name(a, b) <= 1,
    decreases a.len(),
{
    if a.len() > 0 && b.len() > 0 && a[0] == b[0] {
        lemma_cmp_name_antisym(a.drop_first(), b.drop_first());
    }
}

pub proof fn lemma_cmp_antisym(a: Formula, b: Formula)
    ensures
        cmp(a, b) == -cmp(b, a),
        -1 <= cmp(a, b) <= 1,
    decreases a,
{
    if tag(a) == tag(b) {
        match (a, b) {
            (Formula::Var { name: x }, Formula::Var { name: y }) => lemma_cmp_name_antisym(x, y),
            (Formula::Apply { name: x, args: xs }, Formula::Apply { name: y, args: ys }) => {
                lemma_cmp_name_antisym(x, y);
                lemma_cmp_seq_antisym(xs, ys);
            },
            (Formula::Not { operand: x }, Formula::Not { operand: y }) => lemma_cmp_antisym(*x, *y),
            (Formula::Impl { left: l1, right: r1 }, Formula::Impl { left: l2, right: r2 }) => {
                lemma_cmp_antisym(*l1, *l2);
                lemma_cmp_antisym(*r1, *r2);
            },
            (Formula::Assoc { op: o1, exprs: xs }, Formula::Assoc { op: o2, exprs: ys }) => {
                lemma_cmp_seq_antisym(xs, ys);
            },
            (Formula::Quant { kind: k1, name: n1, body: b1 }, Formula::Quant { kind: k2, name: n2, body: b2 }) => {
                lemma_cmp_name_antisym(n1, n2);
                lemma_cmp_antisym(*b1, *b2);
            },
            _ => {},
        }
    }
}

proof fn lemma_cmp_seq_antisym(a: Seq<Formula>, b: Seq<Formula>)
    ensures
        cmp_seq(a, b) == -cmp_seq(b, a),
        -1 <= cmp_seq(a, b) <= 1,
    decreases a,
{
    if a.len() > 0 && b.len() > 0 {
        lemma_cmp_antisym(a[0], b[0]);
        lemma_cmp_seq_antisym(a.drop_first(), b.drop_first());
    }
}

proof fn lemma_cmp_name_zero(a: Seq<char>, b: Seq<char>)
    requires
        cmp_name(a, b) == 0,
    ensures
        a == b,
    decreases a.len(),
{
    if a.len() > 0 && b.len() > 0 {
        lemma_cmp_name_zero(a.drop_first(), b.drop_first());
        assert(a =~= seq![a[0]] + a.drop_first());
        assert(b =~= seq![b[0]] + b.drop_first());
    } else {
        assert(a =~= b);
    }
}

/// Formulas that compare equal are equal.
pub proof fn lemma_cmp_zero(a: Formula, b: Formula)
    requires
        cmp(a, b) == 0,
    ensures
        a == b,
    decreases a,
{
    match (a, b) {
        (Formula::Var { name: x }, Formula::Var { name: y }) => lemma_cmp_name_zero(x, y),
        (Formula::Apply { name: x, args: xs }, Formula::Apply { name: y, args: ys }) => {
            lemma_cmp_name_zero(x, y);
            lemma_cmp_seq_zero(xs, ys);
        },
        (Formula::Not { operand: x }, Formula::Not { operand: y }) => lemma_cmp_zero(*x, *y),
        (Formula::Impl { left: l1, right: r1 }, Formula::Impl { left: l2, right: r2 }) => {
            lemma_cmp_zero(*l1, *l2);
            lemma_cmp_zero(*r1, *r2);
        },
        (Formula::Assoc { op: o1, exprs: xs }, Formula::Assoc { op: o2, exprs: ys }) => {
            lemma_cmp_seq_zero(xs, ys);
        },
        (Formula::Quant { kind: k1, name: n1, body: b1 }, Formula::Quant { kind: k2, name: n2, body: b2 }) => {
            lemma_cmp_name_zero(n1, n2);
            lemma_cmp_zero(*b1, *b2);
        },
        _ => {},
    }
}

proof fn lemma_cmp_seq_zero(a: Seq<Formula>, b: Seq<Formula>)
    requires
        cmp_seq(a, b) == 0,
    ensures
        a == b,
    decreases a,
{
    if a.len() > 0 && b.len() > 0 {
        lemma_cmp_zero(a[0], b[0]);
        lemma_cmp_seq_zero(a.drop_first(), b.drop_first());
        assert(a =~= seq![a[0]] + a.drop_first());
        assert(b =~= seq![b[0]] + b.drop_first());
    } else {
        assert(a =~= b);
    }
}

/// Whether `a` comes no later than `b`.
pub open spec fn le(a: Formula, b: Formula) -> bool {
    cmp(a, b) <= 0
}

/// `x` inserted into `t` after every element that comes no later than it.
pub open spec fn insert(t: Seq<Formula>, x: Formula) -> Seq<Formula>
    decreases t.len(),
{
    if t.len() == 0 || le(t.last(), x) {
        t.push(x)
    } else {
        insert(t.drop_last(), x).push(t.last())
    }
}

/// `s` sorted by insertion.
pub open spec fn sort(s: Seq<Formula>) -> Seq<Formula>
    decreases s.len(),
{
    if s.len() == 0 {
        s
    } else {
        insert(sort(s.drop_last()), s.last())
    }
}

pub open spec fn sorted(s: Seq<Formula>) -> bool {
    forall|i: int| 0 <= i < s.len() - 1 ==> le(#[trigger] s[i], s[i + 1])
}

proof fn lemma_insert_sorted(t: Seq<Formula>, x: Formula)
    requires
        sorted(t),
    ensures
        sorted(insert(t, x)),
        insert(t, x).len() == t.len() + 1,
        insert(t, x).last() == x || (t.len() > 0 && insert(t, x).last() == t.last()),
    decreases t.len(),
{
    if t.len() == 0 {
        assert(insert(t, x) =~= seq![x]);
    } else if le(t.last(), x) {
        let r = t.push(x);
        assert forall|i: int| 0 <= i < r.len() - 1 implies le(#[trigger] r[i], r[i + 1]) by {
            if i < t.len() - 1 {
                assert(r[i] == t[i] && r[i + 1] == t[i + 1]);
            }
        }
    } else {
        let t2 = t.drop_last();
        assert forall|i: int| 0 <= i < t2.len() - 1 implies le(#[trigger] t2[i], t2[i + 1]) by {
            assert(t2[i] == t[i] && t2[i + 1] == t[i + 1]);
        }
        lemma_insert_sorted(t2, x);
        let m = insert(t2, x);
        let r = m.push(t.last());
        lemma_cmp_antisym(t.last(), x);
        if t2.len() > 0 {
            assert(t[t.len() - 2] == t2.last());
            assert(le(t2.last(), t.last()));
        }
        assert forall|i: int| 0 <= i < r.len() - 1 implies le(#[trigger] r[i], r[i + 1]) by {
            if i < m.len() - 1 {
                assert(r[i] == m[i] && r[i + 1] == m[i + 1]);
            } else {
                assert(r[i] == m.last());
            }
        }
    }
}

proof fn lemma_insert_members(t: Seq<Formula>, x: Formula)
    ensures
        forall|i: int| 0 <= i < insert(t, x).len() ==> #[trigger] insert(t, x)[i] == x || t.contains(insert(t, x)[i]),
    decreases t.len(),
{
    if t.len() == 0 || le(t.last(), x) {
        let r = t.push(x);
        assert forall|i: int| 0 <= i < r.len() implies #[trigger] r[i] == x || t.contains(r[i]) by {
            if i < t.len() {
                assert(r[i] == t[i]);
            }
        }
    } else {
        let t2 = t.drop_last();
        lemma_insert_members(t2, x);
        let m = insert(t2, x);
        let r = m.push(t.last());
        assert forall|i: int| 0 <= i < r.len() implies #[trigger] r[i] == x || t.contains(r[i]) by {
            if i < m.len() {
                assert(r[i] == m[i]);
                if m[i] != x {
                    let j = choose|j: int| 0 <= j < t2.len() && t2[j] == m[i];
                    assert(t[j] == m[i]);
                }
            } else {
                assert(r[i] == t[t.len() - 1]);
            }
        }
    }
}

proof fn lemma_sort_props(s: Seq<Formula>)
    ensures
        sorted(sort(s)),
        sort(s).len() == s.len(),
        forall|i: int| 0 <= i < sort(s).len() ==> s.contains(#[trigger] sort(s)[i]),
    decreases s.len(),
{
    if s.len() > 0 {
        let t = s.drop_last();
        lemma_sort_props(t);
        lemma_insert_sorted(sort(t), s.last());
        lemma_insert_members(sort(t), s.last());
        assert forall|i: int| 0 <= i < sort(s).len() implies s.contains(#[trigger] sort(s)[i]) by {
            let y = sort(s)[i];
            if y == s.last() {
                assert(s[s.len() - 1] == y);
            } else {
                let j = choose|j: int| 0 <= j < sort(t).len() && sort(t)[j] == y;
                assert(t.contains(y));
                let k = choose|k: int| 0 <= k < t.len() && t[k] == y;
                assert(s[k] == y);
            }
        }
    } else {
        assert(sorted(s));
    }
}

proof fn lemma_insert_multiset(t: Seq<Formula>, x: Formula)
    ensures
        insert(t, x).to_multiset() == t.to_multiset().insert(x),
    decreases t.len(),
{
    broadcast use vstd::seq_lib::group_to_multiset_ensures;
    broadcast use vstd::multiset::group_multiset_axioms;
    if t.len() > 0 && !le(t.last(), x) {
        let t2 = t.drop_last();
        lemma_insert_multiset(t2, x);
        assert(t =~= t2.push(t.last()));
        assert(insert(t, x).to_multiset() =~= t.to_multiset().insert(x));
    }
}

proof fn lemma_sort_multiset(s: Seq<Formula>)
    ensures
        sort(s).to_multiset() == s.to_multiset(),
    decreases s.len(),
{
    broadcast use vstd::seq_lib::group_to_multiset_ensures;
    if s.len() > 0 {
        lemma_sort_multiset(s.drop_last());
        lemma_insert_multiset(sort(s.drop_last()), s.last());
        assert(s =~= s.drop_last().push(s.last()));
    }
}

/// Sorting gives a sorted sequence of the same elements; without repeated
/// elements before, there are none after.
pub proof fn lemma_sort_same_elements(s: Seq<Formula>)
    ensures
        sorted(sort(s)),
        sort(s).len() == s.len(),
        sort(s).to_set() == s.to_set(),
        s.no_duplicates() ==> sort(s).no_duplicates(),
{
    broadcast use vstd::seq_lib::group_to_multiset_ensures;
    broadcast use vstd::multiset::group_multiset_axioms;
    lemma_sort_props(s);
    lemma_sort_multiset(s);
    assert forall|x: Formula| sort(s).to_set().contains(x) <==> s.to_set().contains(x) by {
        assert(sort(s).contains(x) <==> sort(s).to_multiset().count(x) > 0);
        assert(s.contains(x) <==> s.to_multiset().count(x) > 0);
    }
    assert(sort(s).to_set() =~= s.to_set());
    if s.no_duplicates() {
        s.lemma_multiset_has_no_duplicates();
        sort(s).lemma_multiset_has_no_duplicates_conv();
    }
}

proof fn lemma_sort_sorted_id(s: Seq<Formula>)
    requires
        sorted(s),
    ensures
        sort(s) == s,
    decreases s.len(),
{
    if s.len() > 0 {
        let t = s.drop_last();
        assert forall|i: int| 0 <= i < t.len() - 1 implies le(#[trigger] t[i], t[i + 1]) by {
            assert(t[i] == s[i] && t[i + 1] == s[i + 1]);
        }
        lemma_sort_sorted_id(t);
        if t.len() > 0 {
            assert(t.last() == s[s.len() - 2]);
        }
        assert(t.push(s.last()) =~= s);
    }
}

/// `f` with the operands of every n-ary connective sorted.
pub open spec fn sort_ops(f: Formula) -> Formula
    decreases f,
{
    match f {
        Formula::Contra => f,
        Formula::Var { .. } => f,
        Formula::Apply { name, args } => Formula::Apply { name, args: sort_ops_seq(args) },
        Formula::Not { operand } => Formula::Not { operand: Box::new(sort_ops(*operand)) },
        Formula::Impl { left, right } => Formula::Impl {
            left: Box::new(sort_ops(*left)),
            right: Box::new(sort_ops(*right)),
        },
        Formula::Assoc { op, exprs } => Formula::Assoc { op, exprs: sort(sort_ops_seq(exprs)) },
        Formula::Quant { kind, name, body } => Formula::Quant { kind, name, body: Box::new(sort_ops(*body)) },
    }
}

pub open spec fn sort_ops_seq(s: Seq<Formula>) -> Seq<Formula>
    decreases s,
{
    if s.len() == 0 {
        Seq::empty()
    } else {
        sort_ops_seq(s.drop_last()).push(sort_ops(s.last()))
    }
}

proof fn lemma_sort_ops_seq_index(s: Seq<Formula>)
    ensures
        sort_ops_seq(s).len() == s.len(),
        forall|i: int| 0 <= i < s.len() ==> #[trigger] sort_ops_seq(s)[i] == sort_ops(s[i]),
    decreases s.len(),
{
    if s.len() > 0 {
        lemma_sort_ops_seq_index(s.drop_last());
    }
}

proof fn lemma_sort_ops_seq_fixed(s: Seq<Formula>)
    requires
        forall|i: int| 0 <= i < s.len() ==> sort_ops(#[trigger] s[i]) == s[i],
    ensures
        sort_ops_seq(s) == s,
{
    lemma_sort_ops_seq_index(s);
    assert(sort_ops_seq(s) =~= s);
}

/// Sorting the operands of every n-ary connective twice sorts them once.
pub proof fn lemma_sort_ops_idempotent(f: Formula)
    ensures
        sort_ops(sort_ops(f)) == sort_ops(f),
    decreases f,
{
    match f {
        Formula::Apply { name, args } => {
            lemma_sort_ops_seq_index(args);
            assert forall|i: int| 0 <= i < args.len() implies sort_ops(#[trigger] sort_ops_seq(args)[i]) == sort_ops_seq(args)[i] by {
                lemma_sort_ops_idempotent(args[i]);
            }
            lemma_sort_ops_seq_fixed(sort_ops_seq(args));
        },
        Formula::Not { operand } => lemma_sort_ops_idempotent(*operand),
        Formula::Impl { left, right } => {
            lemma_sort_ops_idempotent(*left);
            lemma_sort_ops_idempotent(*right);
        },
        Formula::Assoc { op, exprs } => {
            let m = sort_ops_seq(exprs);
            let r = sort(m);
            lemma_sort_ops_seq_index(exprs);
            lemma_sort_props(m);
            assert forall|i: int| 0 <= i < r.len() implies sort_ops(#[trigger] r[i]) == r[i] by {
                assert(m.contains(r[i]));
                let j = choose|j: int| 0 <= j < m.len() && m[j] == r[i];
                lemma_sort_ops_idempotent(exprs[j]);
            }
            lemma_sort_ops_seq_fixed(r);
            lemma_sort_sorted_id(r);
        },
        Formula::Quant { kind, name, body } => lemma_sort_ops_idempotent(*body),
        _ => {},
    }
}

/// The lexicographic comparison of two names: -1, 0 or 1.
pub fn cmp_name_exec(a: &String, b: &String) -> (r: i8)
    ensures
        r as int == cmp_name(a@, b@),
{
    let n = a.unicode_len();
    let m = b.unicode_len();
    let mut i: usize = 0;
    assert(a@.subrange(0, n as int) =~= a@);
    assert(b@.subrange(0, m as int) =~= b@);
    while i < n && i < m
        invariant
            n == a@.len(),
            m == b@.len(),
            0 <= i <= n,
            i <= m,
            cmp_name(a@, b@) == cmp_name(a@.subrange(i as int, n as int), b@.subrange(i as int, m as int)),
        decreases n - i,
    {
        let x = a.as_str().get_char(i);
        let y = b.as_str().get_char(i);
        proof {
            let sa = a@.subrange(i as int, n as int);
            let sb = b@.subrange(i as int, m as int);
            assert(sa.drop_first() =~= a@.subrange(i + 1, n as int));
            assert(sb.drop_first() =~= b@.subrange(i + 1, m as int));
            assert(sa[0] == x && sb[0] == y);
        }
        if x != y {
            return if (x as u32) < (y as u32) { -1 } else { 1 };
        }
        i = i + 1;
    }
    if i == n && i == m {
        0
    } else if i == n {
        -1
    } else {
        1
    }
}

pub fn op_rank_exec(op: Op) -> (r: i8)
    ensures
        r as int == op_rank(op),
{
    match op {
        Op::And => 0,
        Op::Or => 1,
        Op::Bicon => 2,
        Op::Equiv => 3,
        Op::Add => 4,
        Op::Mult => 5,
    }
}

pub fn tag_exec(e: &Expr) -> (r: i8)
    ensures
        r as int == tag(e@),
{
    match e {
        Expr::Contra => 0,
        Expr::Var { .. } => 1,
        Expr::Apply { .. } => 2,
        Expr::Not { .. } => 3,
        Expr::Impl { .. } => 4,
        Expr::Assoc { .. } => 5,
        Expr::Quant { .. } => 6,
    }
}

/// The comparison of two expressions: -1, 0 or 1.
pub fn cmp_expr(a: &Expr, b: &Expr) -> (r: i8)
    ensures
        r as int == cmp(a@, b@),
    decreases a,
{
    let ta = tag_exec(a);
    let tb = tag_exec(b);
    if ta != tb {
        return if ta < tb { -1 } else { 1 };
    }
    match (a, b) {
        (Expr::Var { name: x }, Expr::Var { name: y }) => cmp_name_exec(x, y),
        (Expr::Apply { name: x, args: xs }, Expr::Apply { name: y, args: ys }) => {
            let c = cmp_name_exec(x, y);
            if c != 0 { c } else { cmp_exprs(xs, ys) }
        },
        (Expr::Not { operand: x }, Expr::Not { operand: y }) => cmp_expr(x, y),
        (Expr::Impl { left: l1, right: r1 }, Expr::Impl { left: l2, right: r2 }) => {
            let c = cmp_expr(l1, l2);
            if c != 0 { c } else { cmp_expr(r1, r2) }
        },
        (Expr::Assoc { op: o1, exprs: xs }, Expr::Assoc { op: o2, exprs: ys }) => {
            if *o1 != *o2 {
                if op_rank_exec(*o1) < op_rank_exec(*o2) { -1 } else { 1 }
            } else {
                cmp_exprs(xs, ys)
            }
        },
        (Expr::Quant { kind: k1, name: n1, body: b1 }, Expr::Quant { kind: k2, name: n2, body: b2 }) => {
            if *k1 != *k2 {
                if *k1 == QuantKind::Forall { -1 } else { 1 }
            } else {
                let c = cmp_name_exec(n1, n2);
                if c != 0 { c } else { cmp_expr(b1, b2) }
            }
        },
        _ => 0,
    }
}

/// The lexicographic comparison of two lists of expressions.
pub fn cmp_exprs(a: &Vec<Expr>, b: &Vec<Expr>) -> (r: i8)
    ensures
        r as int == cmp_seq(models(a@), models(b@)),
    decreases a,
{
    proof {
        lemma_models_index(a@);
        lemma_models_index(b@);
    }
    let n = a.len();
    let m = b.len();
    let mut i: usize = 0;
    assert(models(a@).subrange(0, n as int) =~= models(a@));
    assert(models(b@).subrange(0, m as int) =~= models(b@));
    while i < n && i < m
        invariant
            n == a@.len(),
            m == b@.len(),
            models(a@).len() == n,
            models(b@).len() == m,
            forall|j: int| 0 <= j < n ==> #[trigger] models(a@)[j] == a@[j]@,
            forall|j: int| 0 <= j < m ==> #[trigger] models(b@)[j] == b@[j]@,
            0 <= i <= n,
            i <= m,
            cmp_seq(models(a@), models(b@)) == cmp_seq(models(a@).subrange(i as int, n as int), models(b@).subrange(i as int, m as int)),
        decreases n - i,
    {
        proof {
            let sa = models(a@).subrange(i as int, n as int);
            let sb = models(b@).subrange(i as int, m as int);
            assert(sa.drop_first() =~= models(a@).subrange(i + 1, n as int));
            assert(sb.drop_first() =~= models(b@).subrange(i + 1, m as int));
            assert(sa[0] == a@[i as int]@ && sb[0] == b@[i as int]@);
        }
        let c = cmp_expr(&a[i], &b[i]);
        if c != 0 {
            return c;
        }
        i = i + 1;
    }
    proof {
        assert(models(a@).subrange(i as int, n as int).len() == n - i);
        assert(models(b@).subrange(i as int, m as int).len() == m - i);
    }
    if i == n && i == m {
        0
    } else if i == n {
        -1
    } else {
        1
    }
}

proof fn lemma_insert_split(t: Seq<Formula>, x: Formula, k: int)
    requires
        0 <= k < t.len(),
        !le(t[k], x),
    ensures
        insert(t.subrange(0, k + 1), x) == insert(t.subrange(0, k), x).push(t[k]),
{
    let a = t.subrange(0, k + 1);
    assert(a.drop_last() =~= t.subrange(0, k));
}

/// `t` with `x` inserted after every element that comes no later than it.
fn insert_exec(t: Vec<Expr>, x: Expr) -> (r: Vec<Expr>)
    ensures
        models(r@) == insert(models(t@), x@),
{
    proof {
        lemma_models_index(t@);
    }
    let n = t.len();
    let mut k: usize = n;
    assert(models(t@).subrange(0, n as int) =~= models(t@));
    assert(models(t@).subrange(n as int, n as int) =~= Seq::<Formula>::empty());
    while k > 0 && cmp_expr(&t[k - 1], &x) > 0
        invariant
            n == t@.len(),
            models(t@).len() == n,
            forall|j: int| 0 <= j < n ==> #[trigger] models(t@)[j] == t@[j]@,
            0 <= k <= n,
            insert(models(t@), x@) == insert(models(t@).subrange(0, k as int), x@) + models(t@).subrange(k as int, n as int),
        decreases k,
    {
        proof {
            lemma_insert_split(models(t@), x@, k - 1);
            assert(models(t@).subrange(k - 1, n as int) =~= seq![models(t@)[k - 1]] + models(t@).subrange(k as int, n as int));
            assert(insert(models(t@).subrange(0, k - 1), x@).push(models(t@)[k - 1]) + models(t@).subrange(k as int, n as int)
                =~= insert(models(t@).subrange(0, k - 1), x@) + models(t@).subrange(k - 1, n as int));
        }
        k = k - 1;
    }
    proof {
        let pre = models(t@).subrange(0, k as int);
        if k > 0 {
            assert(pre.last() == models(t@)[k - 1]);
        }
    }
    let mut r: Vec<Expr> = Vec::new();
    let mut i: usize = 0;
    while i < k
        invariant
            n == t@.len(),
            models(t@).len() == n,
            forall|j: int| 0 <= j < n ==> #[trigger] models(t@)[j] == t@[j]@,
            0 <= i <= k <= n,
            r@.len() == i,
            forall|j: int| 0 <= j < i ==> #[trigger] r@[j]@ == t@[j]@,
        decreases k - i,
    {
        r.push(t[i].clone());
        i = i + 1;
    }
    r.push(x.clone());
    while i < n
        invariant
            n == t@.len(),
            models(t@).len() == n,
            forall|j: int| 0 <= j < n ==> #[trigger] models(t@)[j] == t@[j]@,
            0 <= k <= i <= n,
            r@.len() == i + 1,
            forall|j: int| 0 <= j < k ==> #[trigger] r@[j]@ == t@[j]@,
            r@[k as int]@ == x@,
            forall|j: int| k < j <= i ==> #[trigger] r@[j]@ == t@[j - 1]@,
        decreases n - i,
    {
        r.push(t[i].clone());
        i = i + 1;
    }
    proof {
        lemma_models_index(r@);
        let expected = models(t@).subrange(0, k as int).push(x@) + models(t@).subrange(k as int, n as int);
        assert forall|j: int| 0 <= j < r@.len() implies #[trigger] models(r@)[j] == expected[j] by {
            assert(models(r@)[j] == r@[j]@);
            if j < k {
                assert(r@[j]@ == t@[j]@);
                assert(expected[j] == models(t@)[j]);
            } else if j == k {
                assert(expected[j] == x@);
            } else {
                assert(r@[j]@ == t@[j - 1]@);
                assert(expected[j] == models(t@).subrange(k as int, n as int)[j - k - 1]);
                assert(expected[j] == models(t@)[j - 1]);
            }
        }
        assert(models(r@) =~= expected);
    }
    r
}

/// `v` sorted by insertion.
pub fn sort_exprs(v: Vec<Expr>) -> (r: Vec<Expr>)
    ensures
        models(r@) == sort(models(v@)),
{
    proof {
        lemma_models_index(v@);
    }
    let mut acc: Vec<Expr> = Vec::new();
    let mut i: usize = 0;
    assert(models(v@).subrange(0, 0) =~= Seq::<Formula>::empty());
    proof {
        lemma_models_index(acc@);
    }
    while i < v.len()
        invariant
            0 <= i <= v@.len(),
            models(v@).len() == v@.len(),
            forall|j: int| 0 <= j < v@.len() ==> #[trigger] models(v@)[j] == v@[j]@,
            models(acc@) == sort(models(v@).subrange(0, i as int)),
        decreases v.len() - i,
    {
        proof {
            let next = models(v@).subrange(0, i + 1);
            assert(next.drop_last() =~= models(v@).subrange(0, i as int));
        }
        acc = insert_exec(acc, v[i].clone());
        i = i + 1;
    }
    assert(models(v@).subrange(0, v@.len() as int) =~= models(v@));
    acc
}

/// `e` with the operands of every n-ary connective sorted, so that
/// commutative rearrangements of a formula become equal.
pub fn sort_commutative_ops(e: &Expr) -> (r: Expr)
    ensures
        r@ == sort_ops(e@),
    decreases e,
{
    match e {
        Expr::Contra => Expr::Contra,
        Expr::Var { name } => Expr::Var { name: name.clone() },
        Expr::Apply { name, args } => Expr::Apply { name: name.clone(), args: sort_ops_all(args) },
        Expr::Not { operand } => Expr::Not { operand: Box::new(sort_commutative_ops(operand)) },
        Expr::Impl { left, right } => Expr::Impl {
            left: Box::new(sort_commutative_ops(left)),
            right: Box::new(sort_commutative_ops(right)),
        },
        Expr::Assoc { op, exprs } => Expr::Assoc { op: *op, exprs: sort_exprs(sort_ops_all(exprs)) },
        Expr::Quant { kind, name, body } => Expr::Quant {
            kind: *kind,
            name: name.clone(),
            body: Box::new(sort_commutative_ops(body)),
        },
    }
}

pub fn sort_ops_all(v: &Vec<Expr>) -> (r: Vec<Expr>)
    ensures
        models(r@) == sort_ops_seq(models(v@)),
    decreases v,
{
    proof {
        lemma_models_index(v@);
    }
    let mut r: Vec<Expr> = Vec::new();
    let mut i: usize = 0;
    while i < v.len()
        invariant
            0 <= i <= v@.len(),
            models(v@).len() == v@.len(),
            forall|j: int| 0 <= j < v@.len() ==> #[trigger] models(v@)[j] == v@[j]@,
            r@.len() == i,
            models(r@) == sort_ops_seq(models(v@).subrange(0, i as int)),
        decreases v.len() - i,
    {
        let ghost before = r@;
        r.push(sort_commutative_ops(&v[i]));
        proof {
            let next = models(v@).subrange(0, i + 1);
            assert(next.drop_last() =~= models(v@).subrange(0, i as int));
            lemma_models_index(r@);
            lemma_models_index(before);
            assert(models(r@) =~= models(before).push(r@[i as int]@));
        }
        i = i + 1;
    }
    assert(models(v@).subrange(0, v@.len() as int) =~= models(v@));
    r
}

} // verus!
