//! Rewrite rules over expressions: matching a pattern, instantiating the
//! right-hand side, one leftmost-innermost step, and reduction to a normal
//! form within a bound on the number of steps.
//!
//! In a pattern, a variable stands for any expression, and the name of a
//! binder stands for any bound variable's name.
use vstd::prelude::*;
use crate::expr::{Expr, Formula, models, lemma_models_index, expr_eq};
use crate::algebra::{free_vars, occurs_free};
use crate::canon::{cmp_name, cmp_name_exec};

verus! {

/// A condition on the expressions that a match binds.
#[derive(PartialEq, Eq)]
pub enum Side {
    Always,
    /// The bound variable bound to the first name is not free in what the
    /// second name is bound to.
    NotFree(String, String),
    /// The name bound to the first comes before the name bound to the second.
    Before(String, String),
}

/// A rewrite rule `lhs => rhs`, applying when `side` holds.
pub struct RewriteRule {
    pub lhs: Expr,
    pub rhs: Expr,
    pub side: Side,
}

pub enum SideModel {
    Always,
    NotFree(Seq<char>, Seq<char>),
    Before(Seq<char>, Seq<char>),
}

pub struct RuleModel {
    pub lhs: Formula,
    pub rhs: Formula,
    pub side: SideModel,
}

pub open spec fn side_model(s: Side) -> SideModel {
    match s {
        Side::Always => SideModel::Always,
        Side::NotFree(a, b) => SideModel::NotFree(a@, b@),
        Side::Before(a, b) => SideModel::Before(a@, b@),
    }
}

pub open spec fn rule_model(r: RewriteRule) -> RuleModel {
    RuleModel { lhs: r.lhs@, rhs: r.rhs@, side: side_model(r.side) }
}

pub open spec fn rules_model(v: Seq<RewriteRule>) -> Seq<RuleModel> {
    Seq::new(v.len(), |i: int| rule_model(v[i]))
}

pub type Bindings = Seq<(Seq<char>, Formula)>;

pub open spec fn bindings_model(v: Seq<(String, Expr)>) -> Bindings {
    Seq::new(v.len(), |i: int| (v[i].0@, v[i].1@))
}

/// What `name` is bound to (its latest binding).
pub open spec fn lookup(b: Bindings, name: Seq<char>) -> Option<Formula>
    decreases b.len(),
{
    if b.len() == 0 {
        None
    } else if b.last().0 == name {
        Some(b.last().1)
    } else {
        lookup(b.drop_last(), name)
    }
}

/// `b` extended so that `name` is bound to `v`, if it is not bound to
/// something else already.
pub open spec fn bind(b: Bindings, name: Seq<char>, v: Formula) -> Option<Bindings> {
    match lookup(b, name) {
        Some(w) => if w == v { Some(b) } else { None },
        None => Some(b.push((name, v))),
    }
}

/// The bindings under which pattern `p` matches `e`, extending `b`.
pub open spec fn pmatch(p: Formula, e: Formula, b: Bindings) -> Option<Bindings>
    decreases p,
{
    match p {
        Formula::Var { name } => bind(b, name, e),
        Formula::Contra => if e is Contra { Some(b) } else { None },
        Formula::Apply { name, args } => match e {
            Formula::Apply { name: n2, args: a2 } => if name == n2 && args.len() == a2.len() { pmatch_seq(args, a2, b) } else { None },
            _ => None,
        },
        Formula::Not { operand } => match e {
            Formula::Not { operand: o2 } => pmatch(*operand, *o2, b),
            _ => None,
        },
        Formula::Impl { left, right } => match e {
            Formula::Impl { left: l2, right: r2 } => match pmatch(*left, *l2, b) {
                Some(b2) => pmatch(*right, *r2, b2),
                None => None,
            },
            _ => None,
        },
        Formula::Assoc { op, exprs } => match e {
            Formula::Assoc { op: o2, exprs: e2 } => if op == o2 && exprs.len() == e2.len() { pmatch_seq(exprs, e2, b) } else { None },
            _ => None,
        },
        Formula::Quant { kind, name, body } => match e {
            Formula::Quant { kind: k2, name: n2, body: b2 } => if kind == k2 {
                match bind(b, name, Formula::Var { name: n2 }) {
                    Some(b1) => pmatch(*body, *b2, b1),
                    None => None,
                }
            } else {
                None
            },
            _ => None,
        },
    }
}

pub open spec fn pmatch_seq(ps: Seq<Formula>, es: Seq<Formula>, b: Bindings) -> Option<Bindings>
    decreases ps,
{
    if ps.len() == 0 || es.len() == 0 {
        Some(b)
    } else {
        match pmatch_seq(ps.drop_last(), es.drop_last(), b) {
            Some(b2) => pmatch(ps.last(), es.last(), b2),
            None => None,
        }
    }
}

/// `f` with every bound name replaced by what it is bound to.
pub open spec fn inst(f: Formula, b: Bindings) -> Formula
    decreases f,
{
    match f {
        Formula::Var { name } => match lookup(b, name) {
            Some(v) => v,
            None => f,
        },
        Formula::Contra => f,
        Formula::Apply { name, args } => Formula::Apply { name, args: inst_seq(args, b) },
        Formula::Not { operand } => Formula::Not { operand: Box::new(inst(*operand, b)) },
        Formula::Impl { left, right } => Formula::Impl { left: Box::new(inst(*left, b)), right: Box::new(inst(*right, b)) },
        Formula::Assoc { op, exprs } => Formula::Assoc { op, exprs: inst_seq(exprs, b) },
        Formula::Quant { kind, name, body } => Formula::Quant {
            kind,
            name: match lookup(b, name) {
                Some(Formula::Var { name: n }) => n,
                _ => name,
            },
            body: Box::new(inst(*body, b)),
        },
    }
}

pub open spec fn inst_seq(s: Seq<Formula>, b: Bindings) -> Seq<Formula>
    decreases s,
{
    if s.len() == 0 {
        Seq::empty()
    } else {
        inst_seq(s.drop_last(), b).push(inst(s.last(), b))
    }
}

/// Whether the side condition holds under the bindings.
pub open spec fn side_holds(side: SideModel, b: Bindings) -> bool {
    match side {
        SideModel::Always => true,
        SideModel::NotFree(x, p) => match (lookup(b, x), lookup(b, p)) {
            (Some(Formula::Var { name: xn }), Some(pf)) => !free_vars(pf).contains(xn),
            _ => false,
        },
        SideModel::Before(y, x) => match (lookup(b, y), lookup(b, x)) {
            (Some(Formula::Var { name: yn }), Some(Formula::Var { name: xn })) => cmp_name(yn, xn) < 0,
            _ => false,
        },
    }
}

/// What rule `r` rewrites `e` to at its root, if it applies there.
pub open spec fn apply_rule(r: RuleModel, e: Formula) -> Option<Formula> {
    match pmatch(r.lhs, e, Seq::empty()) {
        Some(b) => if side_holds(r.side, b) { Some(inst(r.rhs, b)) } else { None },
        None => None,
    }
}

/// What the first rule from index `i` on that applies at the root rewrites
/// `e` to.
pub open spec fn rewrite_root(rules: Seq<RuleModel>, e: Formula, i: int) -> Option<Formula>
    decreases rules.len() - i,
{
    if i < 0 || i >= rules.len() {
        None
    } else {
        match apply_rule(rules[i], e) {
            Some(r) => Some(r),
            None => rewrite_root(rules, e, i + 1),
        }
    }
}

/// One rewriting step: in the leftmost part that can be rewritten, the
/// innermost position.
pub open spec fn step(rules: Seq<RuleModel>, e: Formula) -> Option<Formula>
    decreases e,
{
    let inner: Option<Formula> = match e {
        Formula::Apply { name, args } => match step_seq(rules, args) {
            Some(a2) => Some(Formula::Apply { name, args: a2 }),
            None => None,
        },
        Formula::Not { operand } => match step(rules, *operand) {
            Some(o2) => Some(Formula::Not { operand: Box::new(o2) }),
            None => None,
        },
        Formula::Impl { left, right } => match step(rules, *left) {
            Some(l2) => Some(Formula::Impl { left: Box::new(l2), right }),
            None => match step(rules, *right) {
                Some(r2) => Some(Formula::Impl { left, right: Box::new(r2) }),
                None => None,
            },
        },
        Formula::Assoc { op, exprs } => match step_seq(rules, exprs) {
            Some(e2) => Some(Formula::Assoc { op, exprs: e2 }),
            None => None,
        },
        Formula::Quant { kind, name, body } => match step(rules, *body) {
            Some(b2) => Some(Formula::Quant { kind, name, body: Box::new(b2) }),
            None => None,
        },
        _ => None,
    };
    match inner {
        Some(x) => Some(x),
        None => rewrite_root(rules, e, 0),
    }
}

pub open spec fn step_seq(rules: Seq<RuleModel>, s: Seq<Formula>) -> Option<Seq<Formula>>
    decreases s,
{
    if s.len() == 0 {
        None
    } else {
        match step_seq(rules, s.drop_last()) {
            Some(t) => Some(t.push(s.last())),
            None => match step(rules, s.last()) {
                Some(x) => Some(s.drop_last().push(x)),
                None => None,
            },
        }
    }
}

/// `e` rewritten step by step until no rule applies, or `fuel` steps were taken.
pub open spec fn reduce(rules: Seq<RuleModel>, e: Formula, fuel: nat) -> Formula
    decreases fuel,
{
    if fuel == 0 {
        e
    } else {
        match step(rules, e) {
            Some(e2) => reduce(rules, e2, (fuel - 1) as nat),
            None => e,
        }
    }
}

/// The bound on the number of steps of a reduction.
pub const REDUCE_FUEL: usize = 1000;

/// What `name` is bound to.
fn lookup_exec(b: &Vec<(String, Expr)>, name: &String) -> (r: Option<Expr>)
    ensures
        r.is_some() == lookup(bindings_model(b@), name@).is_some(),
        r.is_some() ==> lookup(bindings_model(b@), name@) == Some(r.unwrap()@),
{
    let mut i: usize = b.len();
    assert(bindings_model(b@).subrange(0, i as int) =~= bindings_model(b@));
    while i > 0
        invariant
            0 <= i <= b@.len(),
            lookup(bindings_model(b@), name@) == lookup(bindings_model(b@).subrange(0, i as int), name@),
        decreases i,
    {
        proof {
            let s = bindings_model(b@).subrange(0, i as int);
            assert(s.drop_last() =~= bindings_model(b@).subrange(0, i - 1));
        }
        if b[i - 1].0 == *name {
            return Some(b[i - 1].1.clone());
        }
        i = i - 1;
    }
    None
}

fn bind_exec(b: Vec<(String, Expr)>, name: &String, v: &Expr) -> (r: Option<Vec<(String, Expr)>>)
    ensures
        r.is_some() == bind(bindings_model(b@), name@, v@).is_some(),
        r.is_some() ==> bind(bindings_model(b@), name@, v@) == Some(bindings_model(r.unwrap()@)),
{
    match lookup_exec(&b, name) {
        Some(w) => {
            if expr_eq(&w, v) {
                Some(b)
            } else {
                None
            }
        },
        None => {
            let mut b = b;
            let ghost old_b = b@;
            b.push((name.clone(), v.clone()));
            assert(bindings_model(b@) =~= bindings_model(old_b).push((name@, v@)));
            Some(b)
        },
    }
}

/// The bindings under which pattern `p` matches `e`, extending `b`.
pub fn pmatch_exec(p: &Expr, e: &Expr, b: Vec<(String, Expr)>) -> (r: Option<Vec<(String, Expr)>>)
    ensures
        r.is_some() == pmatch(p@, e@, bindings_model(b@)).is_some(),
        r.is_some() ==> pmatch(p@, e@, bindings_model(b@)) == Some(bindings_model(r.unwrap()@)),
    decreases p,
{
    match p {
        Expr::Var { name } => bind_exec(b, name, e),
        Expr::Contra => match e {
            Expr::Contra => Some(b),
            _ => None,
        },
        Expr::Apply { name, args } => match e {
            Expr::Apply { name: n2, args: a2 } => {
                proof {
                    lemma_models_index(args@);
                    lemma_models_index(a2@);
                }
                if *name == *n2 && args.len() == a2.len() {
                    pmatch_all(args, a2, &b)
                } else {
                    None
                }
            },
            _ => None,
        },
        Expr::Not { operand } => match e {
            Expr::Not { operand: o2 } => pmatch_exec(operand, o2, b),
            _ => None,
        },
        Expr::Impl { left, right } => match e {
            Expr::Impl { left: l2, right: r2 } => match pmatch_exec(left, l2, b) {
                Some(b2) => pmatch_exec(right, r2, b2),
                None => None,
            },
            _ => None,
        },
        Expr::Assoc { op, exprs } => match e {
            Expr::Assoc { op: o2, exprs: e2 } => {
                proof {
                    lemma_models_index(exprs@);
                    lemma_models_index(e2@);
                }
                if *op == *o2 && exprs.len() == e2.len() {
                    pmatch_all(exprs, e2, &b)
                } else {
                    None
                }
            },
            _ => None,
        },
        Expr::Quant { kind, name, body } => match e {
            Expr::Quant { kind: k2, name: n2, body: b2 } => {
                if *kind == *k2 {
                    match bind_exec(b, name, &Expr::Var { name: n2.clone() }) {
                        Some(b1) => pmatch_exec(body, b2, b1),
                        None => None,
                    }
                } else {
                    None
                }
            },
            _ => None,
        },
    }
}

/// A copy of a list of bindings.
fn copy_bindings(b: &Vec<(String, Expr)>) -> (r: Vec<(String, Expr)>)
    ensures
        bindings_model(r@) == bindings_model(b@),
{
    let mut r: Vec<(String, Expr)> = Vec::new();
    let mut i: usize = 0;
    while i < b.len()
        invariant
            0 <= i <= b@.len(),
            r@.len() == i,
            forall|j: int| 0 <= j < i ==> #[trigger] r@[j].0@ == b@[j].0@ && r@[j].1@ == b@[j].1@,
        decreases b.len() - i,
    {
        r.push((b[i].0.clone(), b[i].1.clone()));
        i = i + 1;
    }
    assert(bindings_model(r@) =~= bindings_model(b@));
    r
}

pub fn pmatch_all(ps: &Vec<Expr>, es: &Vec<Expr>, b: &Vec<(String, Expr)>) -> (r: Option<Vec<(String, Expr)>>)
    requires
        ps@.len() == es@.len(),
    ensures
        r.is_some() == pmatch_seq(models(ps@), models(es@), bindings_model(b@)).is_some(),
        r.is_some() ==> pmatch_seq(models(ps@), models(es@), bindings_model(b@)) == Some(bindings_model(r.unwrap()@)),
    decreases ps,
{
    proof {
        lemma_models_index(ps@);
        lemma_models_index(es@);
    }
    let ghost b0 = bindings_model(b@);
    let mut cur = copy_bindings(b);
    let mut i: usize = 0;
    assert(models(ps@).subrange(0, 0) =~= Seq::<Formula>::empty());
    while i < ps.len()
        invariant
            ps@.len() == es@.len(),
            0 <= i <= ps@.len(),
            models(ps@).len() == ps@.len(),
            models(es@).len() == es@.len(),
            forall|j: int| 0 <= j < ps@.len() ==> #[trigger] models(ps@)[j] == ps@[j]@,
            forall|j: int| 0 <= j < es@.len() ==> #[trigger] models(es@)[j] == es@[j]@,
            b0 == bindings_model(b@),
            pmatch_seq(models(ps@).subrange(0, i as int), models(es@).subrange(0, i as int), b0) == Some(bindings_model(cur@)),
        decreases ps.len() - i,
    {
        proof {
            let a = models(ps@).subrange(0, i + 1);
            let c = models(es@).subrange(0, i + 1);
            assert(a.drop_last() =~= models(ps@).subrange(0, i as int));
            assert(c.drop_last() =~= models(es@).subrange(0, i as int));
        }
        let ghost cur_m = bindings_model(cur@);
        match pmatch_exec(&ps[i], &es[i], cur) {
            Some(b2) => {
                cur = b2;
            },
            None => {
                proof {
                    assert(pmatch(models(ps@)[i as int], models(es@)[i as int], cur_m) is None);
                    assert(pmatch_seq(models(ps@).subrange(0, i + 1), models(es@).subrange(0, i + 1), b0) is None);
                    lemma_pmatch_seq_none_extends(models(ps@), models(es@), b0, i + 1);
                    assert(pmatch_seq(models(ps@), models(es@), b0) is None);
                }
                return None;
            },
        }
        i = i + 1;
    }
    assert(models(ps@).subrange(0, ps@.len() as int) =~= models(ps@));
    assert(models(es@).subrange(0, es@.len() as int) =~= models(es@));
    Some(cur)
}

proof fn lemma_pmatch_seq_none_extends(ps: Seq<Formula>, es: Seq<Formula>, b: Bindings, k: int)
    requires
        ps.len() == es.len(),
        0 < k <= ps.len(),
        pmatch_seq(ps.subrange(0, k), es.subrange(0, k), b) is None,
    ensures
        pmatch_seq(ps, es, b) is None,
    decreases ps.len() - k,
{
    if k < ps.len() {
        let a = ps.subrange(0, k + 1);
        let c = es.subrange(0, k + 1);
        assert(a.drop_last() =~= ps.subrange(0, k));
        assert(c.drop_last() =~= es.subrange(0, k));
        lemma_pmatch_seq_none_extends(ps, es, b, k + 1);
    } else {
        assert(ps.subrange(0, k) =~= ps);
        assert(es.subrange(0, k) =~= es);
    }
}

/// `f` with every bound name replaced by what it is bound to.
pub fn inst_exec(f: &Expr, b: &Vec<(String, Expr)>) -> (r: Expr)
    ensures
        r@ == inst(f@, bindings_model(b@)),
    decreases f,
{
    match f {
        Expr::Var { name } => match lookup_exec(b, name) {
            Some(v) => v,
            None => f.clone(),
        },
        Expr::Contra => Expr::Contra,
        Expr::Apply { name, args } => Expr::Apply { name: name.clone(), args: inst_all(args, b) },
        Expr::Not { operand } => Expr::Not { operand: Box::new(inst_exec(operand, b)) },
        Expr::Impl { left, right } => Expr::Impl { left: Box::new(inst_exec(left, b)), right: Box::new(inst_exec(right, b)) },
        Expr::Assoc { op, exprs } => Expr::Assoc { op: *op, exprs: inst_all(exprs, b) },
        Expr::Quant { kind, name, body } => {
            let n = match lookup_exec(b, name) {
                Some(Expr::Var { name: n }) => n,
                _ => name.clone(),
            };
            Expr::Quant { kind: *kind, name: n, body: Box::new(inst_exec(body, b)) }
        },
    }
}

pub fn inst_all(v: &Vec<Expr>, b: &Vec<(String, Expr)>) -> (r: Vec<Expr>)
    ensures
        models(r@) == inst_seq(models(v@), bindings_model(b@)),
    decreases v,
{
    proof {
        lemma_models_index(v@);
    }
    let mut r: Vec<Expr> = Vec::new();
    let mut i: usize = 0;
    while i < v.len()
        invariant
            0 <= i <= v@.len(),
            models(v@).len() == v@.len(),
            forall|j: int| 0 <= j < v@.len() ==> #[trigger] models(v@)[j] == v@[j]@,
            r@.len() == i,
            models(r@) == inst_seq(models(v@).subrange(0, i as int), bindings_model(b@)),
        decreases v.len() - i,
    {
        let ghost before = r@;
        r.push(inst_exec(&v[i], b));
        proof {
            let next = models(v@).subrange(0, i + 1);
            assert(next.drop_last() =~= models(v@).subrange(0, i as int));
            lemma_models_index(r@);
            lemma_models_index(before);
            assert(models(r@) =~= models(before).push(r@[i as int]@));
        }
        i = i + 1;
    }
    assert(models(v@).subrange(0, v@.len() as int) =~= models(v@));
    r
}

fn side_holds_exec(side: &Side, b: &Vec<(String, Expr)>) -> (r: bool)
    ensures
        r == side_holds(side_model(*side), bindings_model(b@)),
{
    match side {
        Side::Always => true,
        Side::NotFree(x, p) => match (lookup_exec(b, x), lookup_exec(b, p)) {
            (Some(Expr::Var { name: xn }), Some(pf)) => !occurs_free(&pf, &xn),
            _ => false,
        },
        Side::Before(y, x) => match (lookup_exec(b, y), lookup_exec(b, x)) {
            (Some(Expr::Var { name: yn }), Some(Expr::Var { name: xn })) => cmp_name_exec(&yn, &xn) < 0,
            _ => false,
        },
    }
}

pub(crate) fn apply_rule_exec(r: &RewriteRule, e: &Expr) -> (res: Option<Expr>)
    ensures
        res.is_some() == apply_rule(rule_model(*r), e@).is_some(),
        res.is_some() ==> apply_rule(rule_model(*r), e@) == Some(res.unwrap()@),
{
    let empty: Vec<(String, Expr)> = Vec::new();
    assert(bindings_model(empty@) =~= Seq::<(Seq<char>, Formula)>::empty());
    match pmatch_exec(&r.lhs, e, empty) {
        Some(b) => {
            if side_holds_exec(&r.side, &b) {
                Some(inst_exec(&r.rhs, &b))
            } else {
                None
            }
        },
        None => None,
    }
}

fn rewrite_root_exec(rules: &Vec<RewriteRule>, e: &Expr) -> (res: Option<Expr>)
    ensures
        res.is_some() == rewrite_root(rules_model(rules@), e@, 0).is_some(),
        res.is_some() ==> rewrite_root(rules_model(rules@), e@, 0) == Some(res.unwrap()@),
{
    let mut i: usize = 0;
    while i < rules.len()
        invariant
            0 <= i <= rules@.len(),
            rewrite_root(rules_model(rules@), e@, 0) == rewrite_root(rules_model(rules@), e@, i as int),
        decreases rules.len() - i,
    {
        assert(rules_model(rules@)[i as int] == rule_model(rules@[i as int]));
        match apply_rule_exec(&rules[i], e) {
            Some(r) => {
                return Some(r);
            },
            None => {},
        }
        i = i + 1;
    }
    None
}

/// One leftmost-innermost rewriting step, if some rule applies anywhere.
pub fn step_exec(rules: &Vec<RewriteRule>, e: &Expr) -> (res: Option<Expr>)
    ensures
        res.is_some() == step(rules_model(rules@), e@).is_some(),
        res.is_some() ==> step(rules_model(rules@), e@) == Some(res.unwrap()@),
    decreases e,
{
    let inner: Option<Expr> = match e {
        Expr::Apply { name, args } => match step_all(rules, args) {
            Some(a2) => Some(Expr::Apply { name: name.clone(), args: a2 }),
            None => None,
        },
        Expr::Not { operand } => match step_exec(rules, operand) {
            Some(o2) => Some(Expr::Not { operand: Box::new(o2) }),
            None => None,
        },
        Expr::Impl { left, right } => match step_exec(rules, left) {
            Some(l2) => Some(Expr::Impl { left: Box::new(l2), right: Box::new((**right).clone()) }),
            None => match step_exec(rules, right) {
                Some(r2) => Some(Expr::Impl { left: Box::new((**left).clone()), right: Box::new(r2) }),
                None => None,
            },
        },
        Expr::Assoc { op, exprs } => match step_all(rules, exprs) {
            Some(e2) => Some(Expr::Assoc { op: *op, exprs: e2 }),
            None => None,
        },
        Expr::Quant { kind, name, body } => match step_exec(rules, body) {
            Some(b2) => Some(Expr::Quant { kind: *kind, name: name.clone(), body: Box::new(b2) }),
            None => None,
        },
        _ => None,
    };
    match inner {
        Some(x) => Some(x),
        None => rewrite_root_exec(rules, e),
    }
}

pub fn step_all(rules: &Vec<RewriteRule>, v: &Vec<Expr>) -> (res: Option<Vec<Expr>>)
    ensures
        res.is_some() == step_seq(rules_model(rules@), models(v@)).is_some(),
        res.is_some() ==> step_seq(rules_model(rules@), models(v@)) == Some(models(res.unwrap()@)),
    decreases v,
{
    proof {
        lemma_models_index(v@);
    }
    let ghost rm = rules_model(rules@);
    let mut i: usize = 0;
    assert(models(v@).subrange(0, 0) =~= Seq::<Formula>::empty());
    while i < v.len()
        invariant
            0 <= i <= v@.len(),
            rm == rules_model(rules@),
            models(v@).len() == v@.len(),
            forall|j: int| 0 <= j < v@.len() ==> #[trigger] models(v@)[j] == v@[j]@,
            step_seq(rm, models(v@).subrange(0, i as int)) is None,
        decreases v.len() - i,
    {
        proof {
            let next = models(v@).subrange(0, i + 1);
            assert(next.drop_last() =~= models(v@).subrange(0, i as int));
        }
        match step_exec(rules, &v[i]) {
            Some(x) => {
                let mut r: Vec<Expr> = crate::expr::clone_exprs(v);
                proof {
                    lemma_models_index(r@);
                }
                let ghost r0 = r@;
                let ghost xm = x@;
                r.set(i, x);
                proof {
                    lemma_models_index(r@);
                    lemma_step_seq_prefix(rm, models(v@), i as int + 1);
                    let next = models(v@).subrange(0, i + 1);
                    let expected = next.drop_last().push(xm) + models(v@).subrange(i + 1, v@.len() as int);
                    assert forall|j: int| 0 <= j < r@.len() implies #[trigger] models(r@)[j] == expected[j] by {
                        if j != i {
                            assert(r@[j] == r0[j]);
                            assert(models(r0)[j] == models(v@)[j]);
                        }
                    }
                    assert(models(r@) =~= expected);
                }
                return Some(r);
            },
            None => {},
        }
        i = i + 1;
    }
    assert(models(v@).subrange(0, v@.len() as int) =~= models(v@));
    None
}

/// When a prefix can take a step, the whole sequence takes that step.
proof fn lemma_step_seq_prefix(rules: Seq<RuleModel>, s: Seq<Formula>, k: int)
    requires
        0 < k <= s.len(),
        step_seq(rules, s.subrange(0, k)) is Some,
    ensures
        step_seq(rules, s) == Some(step_seq(rules, s.subrange(0, k))->0 + s.subrange(k, s.len() as int)),
    decreases s.len() - k,
{
    if k < s.len() {
        let a = s.subrange(0, k + 1);
        assert(a.drop_last() =~= s.subrange(0, k));
        lemma_step_seq_prefix(rules, s, k + 1);
        assert(step_seq(rules, s.subrange(0, k))->0 + s.subrange(k, s.len() as int)
            =~= step_seq(rules, s.subrange(0, k))->0.push(s[k]) + s.subrange(k + 1, s.len() as int));
    } else {
        assert(s.subrange(0, k) =~= s);
        assert(step_seq(rules, s)->0 + s.subrange(k, s.len() as int) =~= step_seq(rules, s)->0);
    }
}

/// `e` rewritten step by step until no rule applies, or the bound on the
/// number of steps is reached.
pub fn reduce_exec(rules: &Vec<RewriteRule>, e: &Expr) -> (r: Expr)
    ensures
        r@ == reduce(rules_model(rules@), e@, REDUCE_FUEL as nat),
{
    let mut cur = e.clone();
    let mut fuel: usize = REDUCE_FUEL;
    while fuel > 0
        invariant
            reduce(rules_model(rules@), e@, REDUCE_FUEL as nat) == reduce(rules_model(rules@), cur@, fuel as nat),
        decreases fuel,
    {
        match step_exec(rules, &cur) {
            Some(next) => {
                cur = next;
            },
            None => {
                return cur;
            },
        }
        fuel = fuel - 1;
    }
    cur
}

} // verus!
