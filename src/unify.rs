//! Finding the term that a quantified variable was instantiated with.
use vstd::prelude::*;
use crate::expr::{Expr, Formula, models, lemma_models_index, expr_eq};
use crate::algebra::{free_vars, free_vars_seq, occurs_free, subst, subst_seq};

verus! {

/// `f` with every free occurrence of the variable `x` replaced by `t`, with
/// no renaming of binders.
pub open spec fn replace(f: Formula, x: Seq<char>, t: Formula) -> Formula
    decreases f,
{
    match f {
        Formula::Contra => f,
        Formula::Var { name } => if name == x { t } else { f },
        Formula::Apply { name, args } => Formula::Apply { name, args: replace_seq(args, x, t) },
        Formula::Not { operand } => Formula::Not { operand: Box::new(replace(*operand, x, t)) },
        Formula::Impl { left, right } => Formula::Impl {
            left: Box::new(replace(*left, x, t)),
            right: Box::new(replace(*right, x, t)),
        },
        Formula::Assoc { op, exprs } => Formula::Assoc { op, exprs: replace_seq(exprs, x, t) },
        Formula::Quant { kind, name, body } => if name == x {
            f
        } else {
            Formula::Quant { kind, name, body: Box::new(replace(*body, x, t)) }
        },
    }
}

pub open spec fn replace_seq(s: Seq<Formula>, x: Seq<char>, t: Formula) -> Seq<Formula>
    decreases s,
{
    if s.len() == 0 {
        Seq::empty()
    } else {
        replace_seq(s.drop_last(), x, t).push(replace(s.last(), x, t))
    }
}

/// The part of `e` that stands where `p` has a free occurrence of `x`, if
/// the two have the same shape down to one.
pub open spec fn locate(p: Formula, x: Seq<char>, e: Formula) -> Option<Formula>
    decreases p,
{
    match p {
        Formula::Var { name } => if name == x { Some(e) } else { None },
        Formula::Apply { name, args } => match e {
            Formula::Apply { name: n2, args: a2 } => locate_seq(args, x, a2),
            _ => None,
        },
        Formula::Not { operand } => match e {
            Formula::Not { operand: o2 } => locate(*operand, x, *o2),
            _ => None,
        },
        Formula::Impl { left, right } => match e {
            Formula::Impl { left: l2, right: r2 } => match locate(*left, x, *l2) {
                Some(t) => Some(t),
                None => locate(*right, x, *r2),
            },
            _ => None,
        },
        Formula::Assoc { op, exprs } => match e {
            Formula::Assoc { op: o2, exprs: e2 } => locate_seq(exprs, x, e2),
            _ => None,
        },
        Formula::Quant { kind, name, body } => match e {
            Formula::Quant { kind: k2, name: n2, body: b2 } => if name == x { None } else { locate(*body, x, *b2) },
            _ => None,
        },
        Formula::Contra => None,
    }
}

pub open spec fn locate_seq(ps: Seq<Formula>, x: Seq<char>, es: Seq<Formula>) -> Option<Formula>
    decreases ps,
{
    if ps.len() == 0 || ps.len() != es.len() {
        None
    } else {
        match locate(ps.last(), x, es.last()) {
            Some(t) => Some(t),
            None => locate_seq(ps.drop_last(), x, es.drop_last()),
        }
    }
}

proof fn lemma_locate_absent(p: Formula, x: Seq<char>, e: Formula)
    requires
        !free_vars(p).contains(x),
    ensures
        locate(p, x, e) is None,
    decreases p,
{
    match p {
        Formula::Apply { name, args } => {
            if let Formula::Apply { name: n2, args: a2 } = e {
                lemma_locate_absent_seq(args, x, a2);
            }
        },
        Formula::Not { operand } => {
            if let Formula::Not { operand: o2 } = e {
                lemma_locate_absent(*operand, x, *o2);
            }
        },
        Formula::Impl { left, right } => {
            if let Formula::Impl { left: l2, right: r2 } = e {
                lemma_locate_absent(*left, x, *l2);
                lemma_locate_absent(*right, x, *r2);
            }
        },
        Formula::Assoc { op, exprs } => {
            if let Formula::Assoc { op: o2, exprs: e2 } = e {
                lemma_locate_absent_seq(exprs, x, e2);
            }
        },
        Formula::Quant { kind, name, body } => {
            if let Formula::Quant { kind: k2, name: n2, body: b2 } = e {
                if name != x {
                    lemma_locate_absent(*body, x, *b2);
                }
            }
        },
        _ => {},
    }
}

proof fn lemma_locate_absent_seq(ps: Seq<Formula>, x: Seq<char>, es: Seq<Formula>)
    requires
        !free_vars_seq(ps).contains(x),
    ensures
        locate_seq(ps, x, es) is None,
    decreases ps,
{
    if ps.len() > 0 && ps.len() == es.len() {
        lemma_locate_absent(ps.last(), x, es.last());
        lemma_locate_absent_seq(ps.drop_last(), x, es.drop_last());
    }
}

proof fn lemma_locate_replace(p: Formula, x: Seq<char>, t: Formula)
    requires
        free_vars(p).contains(x),
    ensures
        locate(p, x, replace(p, x, t)) == Some(t),
    decreases p,
{
    match p {
        Formula::Apply { name, args } => lemma_locate_replace_seq(args, x, t),
        Formula::Not { operand } => lemma_locate_replace(*operand, x, t),
        Formula::Impl { left, right } => {
            if free_vars(*left).contains(x) {
                lemma_locate_replace(*left, x, t);
            } else {
                lemma_locate_absent(*left, x, replace(*left, x, t));
                lemma_locate_replace(*right, x, t);
            }
        },
        Formula::Assoc { op, exprs } => lemma_locate_replace_seq(exprs, x, t),
        Formula::Quant { kind, name, body } => lemma_locate_replace(*body, x, t),
        _ => {},
    }
}

proof fn lemma_replace_seq_len(s: Seq<Formula>, x: Seq<char>, t: Formula)
    ensures
        replace_seq(s, x, t).len() == s.len(),
    decreases s.len(),
{
    if s.len() > 0 {
        lemma_replace_seq_len(s.drop_last(), x, t);
    }
}

proof fn lemma_locate_replace_seq(ps: Seq<Formula>, x: Seq<char>, t: Formula)
    requires
        free_vars_seq(ps).contains(x),
    ensures
        locate_seq(ps, x, replace_seq(ps, x, t)) == Some(t),
    decreases ps,
{
    lemma_replace_seq_len(ps, x, t);
    let es = replace_seq(ps, x, t);
    assert(es.drop_last() == replace_seq(ps.drop_last(), x, t));
    if free_vars(ps.last()).contains(x) {
        lemma_locate_replace(ps.last(), x, t);
    } else {
        lemma_locate_absent(ps.last(), x, es.last());
        lemma_locate_replace_seq(ps.drop_last(), x, t);
    }
}

proof fn lemma_replace_absent(p: Formula, x: Seq<char>, t: Formula)
    requires
        !free_vars(p).contains(x),
    ensures
        replace(p, x, t) == p,
    decreases p,
{
    match p {
        Formula::Apply { name, args } => lemma_replace_absent_seq(args, x, t),
        Formula::Not { operand } => lemma_replace_absent(*operand, x, t),
        Formula::Impl { left, right } => {
            lemma_replace_absent(*left, x, t);
            lemma_replace_absent(*right, x, t);
        },
        Formula::Assoc { op, exprs } => lemma_replace_absent_seq(exprs, x, t),
        Formula::Quant { kind, name, body } => {
            if name != x {
                lemma_replace_absent(*body, x, t);
            }
        },
        _ => {},
    }
}

proof fn lemma_replace_absent_seq(s: Seq<Formula>, x: Seq<char>, t: Formula)
    requires
        !free_vars_seq(s).contains(x),
    ensures
        replace_seq(s, x, t) == s,
    decreases s,
{
    if s.len() > 0 {
        lemma_replace_absent_seq(s.drop_last(), x, t);
        lemma_replace_absent(s.last(), x, t);
        assert(replace_seq(s, x, t) =~= s);
    }
}

/// `e` with every free occurrence of the variable `x` replaced by `t`.
pub fn replace_exec(e: &Expr, x: &String, t: &Expr) -> (r: Expr)
    ensures
        r@ == replace(e@, x@, t@),
    decreases e,
{
    match e {
        Expr::Contra => Expr::Contra,
        Expr::Var { name } => {
            if *name == *x {
                t.clone()
            } else {
                e.clone()
            }
        },
        Expr::Apply { name, args } => Expr::Apply { name: name.clone(), args: replace_all(args, x, t) },
        Expr::Not { operand } => Expr::Not { operand: Box::new(replace_exec(operand, x, t)) },
        Expr::Impl { left, right } => Expr::Impl {
            left: Box::new(replace_exec(left, x, t)),
            right: Box::new(replace_exec(right, x, t)),
        },
        Expr::Assoc { op, exprs } => Expr::Assoc { op: *op, exprs: replace_all(exprs, x, t) },
        Expr::Quant { kind, name, body } => {
            if *name == *x {
                e.clone()
            } else {
                Expr::Quant { kind: *kind, name: name.clone(), body: Box::new(replace_exec(body, x, t)) }
            }
        },
    }
}

pub fn replace_all(v: &Vec<Expr>, x: &String, t: &Expr) -> (r: Vec<Expr>)
    ensures
        models(r@) == replace_seq(models(v@), x@, t@),
    decreases v,
{
    proof {
        lemma_models_index(v@);
    }
    let mut r: Vec<Expr> = Vec::new();
    let mut i: usize = 0;
    while i < v.len()
        invariant
            0 <= i <= v@.len(),
            models(v@).len() == v@.len(),
            forall|j: int| 0 <= j < v@.len() ==> #[trigger] models(v@)[j] == v@[j]@,
            r@.len() == i,
            models(r@) == replace_seq(models(v@).subrange(0, i as int), x@, t@),
        decreases v.len() - i,
    {
        let ghost before = r@;
        r.push(replace_exec(&v[i], x, t));
        proof {
            let next = models(v@).subrange(0, i + 1);
            assert(next.drop_last() =~= models(v@).subrange(0, i as int));
            lemma_models_index(r@);
            lemma_models_index(before);
            assert(models(r@) =~= models(before).push(r@[i as int]@));
        }
        i = i + 1;
    }
    assert(models(v@).subrange(0, v@.len() as int) =~= models(v@));
    r
}

/// The part of `e` that stands where `p` has a free occurrence of `x`.
pub fn locate_exec(p: &Expr, x: &String, e: &Expr) -> (r: Option<Expr>)
    ensures
        r.is_some() == locate(p@, x@, e@).is_some(),
        r.is_some() ==> locate(p@, x@, e@) == Some(r.unwrap()@),
    decreases p,
{
    match (p, e) {
        (Expr::Var { name }, _) => {
            if *name == *x {
                Some(e.clone())
            } else {
                None
            }
        },
        (Expr::Apply { name, args }, Expr::Apply { name: n2, args: a2 }) => locate_in(args, x, a2),
        (Expr::Not { operand }, Expr::Not { operand: o2 }) => locate_exec(operand, x, o2),
        (Expr::Impl { left, right }, Expr::Impl { left: l2, right: r2 }) => {
            match locate_exec(left, x, l2) {
                Some(t) => Some(t),
                None => locate_exec(right, x, r2),
            }
        },
        (Expr::Assoc { op, exprs }, Expr::Assoc { op: o2, exprs: e2 }) => locate_in(exprs, x, e2),
        (Expr::Quant { kind, name, body }, Expr::Quant { kind: k2, name: n2, body: b2 }) => {
            if *name == *x {
                None
            } else {
                locate_exec(body, x, b2)
            }
        },
        _ => None,
    }
}

pub fn locate_in(ps: &Vec<Expr>, x: &String, es: &Vec<Expr>) -> (r: Option<Expr>)
    ensures
        r.is_some() == locate_seq(models(ps@), x@, models(es@)).is_some(),
        r.is_some() ==> locate_seq(models(ps@), x@, models(es@)) == Some(r.unwrap()@),
    decreases ps,
{
    proof {
        lemma_models_index(ps@);
        lemma_models_index(es@);
    }
    if ps.len() != es.len() {
        return None;
    }
    let mut i: usize = ps.len();
    assert(models(ps@).subrange(0, i as int) =~= models(ps@));
    assert(models(es@).subrange(0, i as int) =~= models(es@));
    while i > 0
        invariant
            0 <= i <= ps@.len(),
            ps@.len() == es@.len(),
            models(ps@).len() == ps@.len(),
            models(es@).len() == es@.len(),
            forall|j: int| 0 <= j < ps@.len() ==> #[trigger] models(ps@)[j] == ps@[j]@,
            forall|j: int| 0 <= j < es@.len() ==> #[trigger] models(es@)[j] == es@[j]@,
            locate_seq(models(ps@), x@, models(es@)) == locate_seq(models(ps@).subrange(0, i as int), x@, models(es@).subrange(0, i as int)),
        decreases i,
    {
        proof {
            let a = models(ps@).subrange(0, i as int);
            let b = models(es@).subrange(0, i as int);
            assert(a.drop_last() =~= models(ps@).subrange(0, i - 1));
            assert(b.drop_last() =~= models(es@).subrange(0, i - 1));
        }
        match locate_exec(&ps[i - 1], x, &es[i - 1]) {
            Some(t) => {
                return Some(t);
            },
            None => {},
        }
        i = i - 1;
    }
    None
}

/// Whether no free occurrence of `x` in `f` stands under a binder of a free
/// variable of `t`: replacing `x` by `t` there captures nothing.
pub open spec fn capture_free(f: Formula, x: Seq<char>, t: Formula) -> bool
    decreases f,
{
    match f {
        Formula::Apply { name, args } => capture_free_seq(args, x, t),
        Formula::Not { operand } => capture_free(*operand, x, t),
        Formula::Impl { left, right } => capture_free(*left, x, t) && capture_free(*right, x, t),
        Formula::Assoc { op, exprs } => capture_free_seq(exprs, x, t),
        Formula::Quant { kind, name, body } => name == x || ((free_vars(*body).contains(x) ==> !free_vars(t).contains(name))
            && capture_free(*body, x, t)),
        _ => true,
    }
}

pub open spec fn capture_free_seq(s: Seq<Formula>, x: Seq<char>, t: Formula) -> bool
    decreases s,
{
    s.len() == 0 || (capture_free_seq(s.drop_last(), x, t) && capture_free(s.last(), x, t))
}

proof fn lemma_capture_free_absent(f: Formula, x: Seq<char>, t: Formula)
    requires
        !free_vars(f).contains(x),
    ensures
        capture_free(f, x, t),
    decreases f,
{
    match f {
        Formula::Apply { name, args } => lemma_capture_free_absent_seq(args, x, t),
        Formula::Not { operand } => lemma_capture_free_absent(*operand, x, t),
        Formula::Impl { left, right } => {
            lemma_capture_free_absent(*left, x, t);
            lemma_capture_free_absent(*right, x, t);
        },
        Formula::Assoc { op, exprs } => lemma_capture_free_absent_seq(exprs, x, t),
        Formula::Quant { kind, name, body } => {
            if name != x {
                lemma_capture_free_absent(*body, x, t);
            }
        },
        _ => {},
    }
}

proof fn lemma_capture_free_absent_seq(s: Seq<Formula>, x: Seq<char>, t: Formula)
    requires
        !free_vars_seq(s).contains(x),
    ensures
        capture_free_seq(s, x, t),
    decreases s,
{
    if s.len() > 0 {
        lemma_capture_free_absent_seq(s.drop_last(), x, t);
        lemma_capture_free_absent(s.last(), x, t);
    }
}

/// Where nothing is captured, capture-avoiding substitution renames no
/// binder and is plain replacement.
pub proof fn lemma_subst_is_replace(f: Formula, x: Seq<char>, t: Formula)
    requires
        capture_free(f, x, t),
    ensures
        subst(f, x, t) == replace(f, x, t),
    decreases f,
{
    match f {
        Formula::Apply { name, args } => lemma_subst_is_replace_seq(args, x, t),
        Formula::Not { operand } => lemma_subst_is_replace(*operand, x, t),
        Formula::Impl { left, right } => {
            lemma_subst_is_replace(*left, x, t);
            lemma_subst_is_replace(*right, x, t);
        },
        Formula::Assoc { op, exprs } => lemma_subst_is_replace_seq(exprs, x, t),
        Formula::Quant { kind, name, body } => {
            if name != x {
                lemma_subst_is_replace(*body, x, t);
            }
        },
        _ => {},
    }
}

proof fn lemma_subst_is_replace_seq(s: Seq<Formula>, x: Seq<char>, t: Formula)
    requires
        capture_free_seq(s, x, t),
    ensures
        subst_seq(s, x, t) == replace_seq(s, x, t),
    decreases s,
{
    if s.len() > 0 {
        lemma_subst_is_replace_seq(s.drop_last(), x, t);
        lemma_subst_is_replace(s.last(), x, t);
    }
}

/// Whether replacing `x` by `t` in `e` captures nothing.
pub fn capture_free_exec(e: &Expr, x: &String, t: &Expr) -> (r: bool)
    ensures
        r == capture_free(e@, x@, t@),
    decreases e,
{
    match e {
        Expr::Apply { name, args } => capture_free_all(args, x, t),
        Expr::Not { operand } => capture_free_exec(operand, x, t),
        Expr::Impl { left, right } => capture_free_exec(left, x, t) && capture_free_exec(right, x, t),
        Expr::Assoc { op, exprs } => capture_free_all(exprs, x, t),
        Expr::Quant { kind, name, body } => {
            if *name == *x {
                true
            } else if occurs_free(body, x) && occurs_free(t, name) {
                false
            } else {
                capture_free_exec(body, x, t)
            }
        },
        _ => true,
    }
}

fn capture_free_all(v: &Vec<Expr>, x: &String, t: &Expr) -> (r: bool)
    ensures
        r == capture_free_seq(models(v@), x@, t@),
    decreases v,
{
    proof {
        lemma_models_index(v@);
    }
    let mut i: usize = 0;
    assert(models(v@).subrange(0, 0) =~= Seq::<Formula>::empty());
    while i < v.len()
        invariant
            0 <= i <= v@.len(),
            models(v@).len() == v@.len(),
            forall|j: int| 0 <= j < v@.len() ==> #[trigger] models(v@)[j] == v@[j]@,
            capture_free_seq(models(v@).subrange(0, i as int), x@, t@),
        decreases v.len() - i,
    {
        proof {
            let next = models(v@).subrange(0, i + 1);
            assert(next.drop_last() =~= models(v@).subrange(0, i as int));
        }
        if !capture_free_exec(&v[i], x, t) {
            proof {
                lemma_capture_free_seq_prefix(models(v@), i + 1, x@, t@);
            }
            return false;
        }
        i = i + 1;
    }
    assert(models(v@).subrange(0, v@.len() as int) =~= models(v@));
    true
}

proof fn lemma_capture_free_seq_prefix(s: Seq<Formula>, k: int, x: Seq<char>, t: Formula)
    requires
        0 < k <= s.len(),
        !capture_free_seq(s.subrange(0, k), x, t),
    ensures
        !capture_free_seq(s, x, t),
    decreases s.len() - k,
{
    if k < s.len() {
        let a = s.subrange(0, k + 1);
        assert(a.drop_last() =~= s.subrange(0, k));
        lemma_capture_free_seq_prefix(s, k + 1, x, t);
    } else {
        assert(s.subrange(0, k) =~= s);
    }
}

/// The term that `unify_wrt` finds: the variable itself when it does not
/// occur free in `body` and `body` is `e`; otherwise the part of `e` standing
/// at a free occurrence, if substituting it for `var` turns `body` into `e`
/// without any binder capturing it.
pub open spec fn unifier(body: Formula, var: Seq<char>, e: Formula) -> Option<Formula> {
    if !free_vars(body).contains(var) {
        if body == e { Some(Formula::Var { name: var }) } else { None }
    } else {
        match locate(body, var, e) {
            Some(t) => if replace(body, var, t) == e && capture_free(body, var, t) { Some(t) } else { None },
            None => None,
        }
    }
}

/// The term `t` whose capture-free substitution for `var` turns `body` into
/// `e`: the variable itself when `var` does not occur free in `body` and
/// `body` is `e`; `None` when there is no such term.
pub fn unify_wrt(body: &Expr, e: &Expr, var: &String) -> (r: Option<Expr>)
    ensures
        r is Some ==> subst(body@, var@, r->0@) == e@ && capture_free(body@, var@, r->0@),
        r is Some && !free_vars(body@).contains(var@) ==> r->0@ == (Formula::Var { name: var@ }),
        r is None ==> forall|t: Formula| !(replace(body@, var@, t) == e@ && capture_free(body@, var@, t)),
        r is Some == unifier(body@, var@, e@) is Some,
        r is Some ==> unifier(body@, var@, e@) == Some(r->0@),
{
    if !occurs_free(body, var) {
        proof {
            assert forall|t: Formula| replace(body@, var@, t) == body@ by {
                lemma_replace_absent(body@, var@, t);
            }
        }
        if expr_eq(body, e) {
            proof {
                let t = Formula::Var { name: var@ };
                lemma_capture_free_absent(body@, var@, t);
                lemma_subst_is_replace(body@, var@, t);
            }
            Some(Expr::Var { name: var.clone() })
        } else {
            None
        }
    } else {
        proof {
            assert forall|t: Formula| locate(body@, var@, replace(body@, var@, t)) == Some(t) by {
                lemma_locate_replace(body@, var@, t);
            }
        }
        match locate_exec(body, var, e) {
            Some(t) => {
                let candidate = replace_exec(body, var, &t);
                if expr_eq(&candidate, e) && capture_free_exec(body, var, &t) {
                    proof {
                        lemma_subst_is_replace(body@, var@, t@);
                    }
                    Some(t)
                } else {
                    None
                }
            },
            None => None,
        }
    }
}

} // verus!
