//! Every expression that a set of rewrite rules reaches from a given one
//! within a bounded number of steps, for rule sets that are not confluent.
use vstd::prelude::*;
use crate::expr::{Expr, Formula, models, lemma_models_index, expr_eq, clone_exprs};
use crate::rewrite::{RuleModel, RewriteRule, apply_rule, rules_model, apply_rule_exec};

verus! {

/// What the rules rewrite `f` to at its root, one result per rule that applies.
pub open spec fn root_steps(rules: Seq<RuleModel>, f: Formula) -> Seq<Formula>
    decreases rules.len(),
{
    if rules.len() == 0 {
        Seq::empty()
    } else {
        root_steps(rules.drop_last(), f) + match apply_rule(rules.last(), f) {
            Some(g) => seq![g],
            None => Seq::empty(),
        }
    }
}

/// Every result of one rewriting step anywhere in `f`.
pub open spec fn all_steps(rules: Seq<RuleModel>, f: Formula) -> Seq<Formula>
    decreases f,
{
    root_steps(rules, f) + match f {
        Formula::Not { operand } => all_steps(rules, *operand).map_values(|g: Formula| Formula::Not { operand: Box::new(g) }),
        Formula::Impl { left, right } =>
            all_steps(rules, *left).map_values(|g: Formula| Formula::Impl { left: Box::new(g), right: right })
            + all_steps(rules, *right).map_values(|g: Formula| Formula::Impl { left: left, right: Box::new(g) }),
        Formula::Assoc { op, exprs } => seq_steps(rules, exprs).map_values(|ys: Seq<Formula>| Formula::Assoc { op, exprs: ys }),
        Formula::Apply { name, args } => seq_steps(rules, args).map_values(|ys: Seq<Formula>| Formula::Apply { name, args: ys }),
        Formula::Quant { kind, name, body } => all_steps(rules, *body).map_values(|g: Formula| Formula::Quant { kind, name, body: Box::new(g) }),
        _ => Seq::empty(),
    }
}

/// Every result of one rewriting step in one element of `xs`.
pub open spec fn seq_steps(rules: Seq<RuleModel>, xs: Seq<Formula>) -> Seq<Seq<Formula>>
    decreases xs,
{
    if xs.len() == 0 {
        Seq::empty()
    } else {
        seq_steps(rules, xs.drop_last()).map_values(|ys: Seq<Formula>| ys.push(xs.last()))
            + all_steps(rules, xs.last()).map_values(|g: Formula| xs.drop_last().push(g))
    }
}

/// The expressions reached from `f` in at most `d` steps.
pub open spec fn reach(rules: Seq<RuleModel>, f: Formula, d: nat) -> Set<Formula>
    decreases d, 0nat, 0nat,
{
    if d == 0 {
        set![f]
    } else {
        set![f].union(reach_seq(rules, all_steps(rules, f), (d - 1) as nat))
    }
}

/// The expressions reached from some element of `gs` in at most `d` steps.
pub open spec fn reach_seq(rules: Seq<RuleModel>, gs: Seq<Formula>, d: nat) -> Set<Formula>
    decreases d, 1nat, gs.len(),
{
    if gs.len() == 0 {
        Set::empty()
    } else {
        reach_seq(rules, gs.drop_last(), d).union(reach(rules, gs.last(), d))
    }
}

fn root_steps_exec(rules: &Vec<RewriteRule>, e: &Expr) -> (r: Vec<Expr>)
    ensures
        models(r@) == root_steps(rules_model(rules@), e@),
{
    let mut r: Vec<Expr> = Vec::new();
    let mut i: usize = 0;
    let ghost rm = rules_model(rules@);
    assert(rm.subrange(0, 0) =~= Seq::<RuleModel>::empty());
    proof {
        lemma_models_index(r@);
    }
    while i < rules.len()
        invariant
            rm == rules_model(rules@),
            0 <= i <= rules@.len(),
            models(r@) == root_steps(rm.subrange(0, i as int), e@),
        decreases rules.len() - i,
    {
        proof {
            let next = rm.subrange(0, i + 1);
            assert(next.drop_last() =~= rm.subrange(0, i as int));
            assert(next.last() == rm[i as int]);
        }
        assert(rm[i as int] == crate::rewrite::rule_model(rules@[i as int]));
        match apply_rule_exec(&rules[i], e) {
            Some(g) => {
                let ghost before = r@;
                let ghost gm = g@;
                r.push(g);
                proof {
                    lemma_models_index(r@);
                    lemma_models_index(before);
                    assert(models(r@) =~= models(before) + seq![gm]);
                }
            },
            None => {
                assert(models(r@) =~= models(r@) + Seq::<Formula>::empty());
            },
        }
        i = i + 1;
    }
    assert(rm.subrange(0, rules@.len() as int) =~= rm);
    r
}

/// The model of a list of operand lists.
pub open spec fn lists_model(v: Seq<Vec<Expr>>) -> Seq<Seq<Formula>> {
    Seq::new(v.len(), |i: int| models(v[i]@))
}

/// How a result for a part is put back into its whole.
pub enum Wrap {
    Not,
    ImplLeft(Expr),
    ImplRight(Expr),
    Quant(crate::expr::QuantKind, String),
}

pub open spec fn wrap_spec(w: Wrap, g: Formula) -> Formula {
    match w {
        Wrap::Not => Formula::Not { operand: Box::new(g) },
        Wrap::ImplLeft(r) => Formula::Impl { left: Box::new(g), right: Box::new(r@) },
        Wrap::ImplRight(l) => Formula::Impl { left: Box::new(l@), right: Box::new(g) },
        Wrap::Quant(kind, name) => Formula::Quant { kind, name: name@, body: Box::new(g) },
    }
}

fn wrap_exec(w: &Wrap, g: Expr) -> (r: Expr)
    ensures
        r@ == wrap_spec(*w, g@),
{
    match w {
        Wrap::Not => Expr::Not { operand: Box::new(g) },
        Wrap::ImplLeft(r) => Expr::Impl { left: Box::new(g), right: Box::new(r.clone()) },
        Wrap::ImplRight(l) => Expr::Impl { left: Box::new(l.clone()), right: Box::new(g) },
        Wrap::Quant(kind, name) => Expr::Quant { kind: *kind, name: name.clone(), body: Box::new(g) },
    }
}

/// Appends to `out` each element of `sub` put back by `w`.
fn push_wrapped(out: &mut Vec<Expr>, w: &Wrap, sub: &Vec<Expr>)
    ensures
        models(final(out)@) == models(old(out)@) + models(sub@).map_values(|g: Formula| wrap_spec(*w, g)),
{
    proof {
        lemma_models_index(sub@);
        lemma_models_index(out@);
    }
    let ghost start = models(out@);
    let mut k: usize = 0;
    while k < sub.len()
        invariant
            0 <= k <= sub@.len(),
            models(sub@).len() == sub@.len(),
            forall|j: int| 0 <= j < sub@.len() ==> #[trigger] models(sub@)[j] == sub@[j]@,
            models(out@) == start + models(sub@).subrange(0, k as int).map_values(|g: Formula| wrap_spec(*w, g)),
        decreases sub.len() - k,
    {
        let ghost before = out@;
        let x = wrap_exec(w, sub[k].clone());
        let ghost xm = x@;
        out.push(x);
        proof {
            lemma_models_index(out@);
            lemma_models_index(before);
            assert(models(out@) =~= models(before).push(xm));
            assert(models(sub@).subrange(0, k + 1).map_values(|g: Formula| wrap_spec(*w, g))
                =~= models(sub@).subrange(0, k as int).map_values(|g: Formula| wrap_spec(*w, g)).push(xm));
        }
        k = k + 1;
    }
    assert(models(sub@).subrange(0, sub@.len() as int) =~= models(sub@));
}

/// Every result of one rewriting step anywhere in `e`.
pub fn all_steps_exec(rules: &Vec<RewriteRule>, e: &Expr) -> (r: Vec<Expr>)
    ensures
        models(r@) == all_steps(rules_model(rules@), e@),
    decreases e,
{
    let mut r = root_steps_exec(rules, e);
    let ghost root = models(r@);
    match e {
        Expr::Not { operand } => {
            let sub = all_steps_exec(rules, operand);
            push_wrapped(&mut r, &Wrap::Not, &sub);
        },
        Expr::Impl { left, right } => {
            let sl = all_steps_exec(rules, left);
            push_wrapped(&mut r, &Wrap::ImplLeft((**right).clone()), &sl);
            let sr = all_steps_exec(rules, right);
            push_wrapped(&mut r, &Wrap::ImplRight((**left).clone()), &sr);
            proof {
                let a = models(sl@).map_values(|g: Formula| Formula::Impl { left: Box::new(g), right: Box::new(right@) });
                let b = models(sr@).map_values(|g: Formula| Formula::Impl { left: Box::new(left@), right: Box::new(g) });
                assert(models(r@) =~= root + (a + b));
            }
        },
        Expr::Assoc { op, exprs } => {
            let lists = seq_steps_exec(rules, exprs);
            let mut k: usize = 0;
            while k < lists.len()
                invariant
                    0 <= k <= lists@.len(),
                    models(r@) == root + lists_model(lists@).subrange(0, k as int).map_values(|ys: Seq<Formula>| Formula::Assoc { op: *op, exprs: ys }),
                decreases lists.len() - k,
            {
                let ghost before = r@;
                let x = Expr::Assoc { op: *op, exprs: clone_exprs(&lists[k]) };
                let ghost xm = x@;
                r.push(x);
                proof {
                    lemma_models_index(r@);
                    lemma_models_index(before);
                    assert(models(r@) =~= models(before).push(xm));
                    assert(lists_model(lists@).subrange(0, k + 1).map_values(|ys: Seq<Formula>| Formula::Assoc { op: *op, exprs: ys })
                        =~= lists_model(lists@).subrange(0, k as int).map_values(|ys: Seq<Formula>| Formula::Assoc { op: *op, exprs: ys }).push(xm));
                }
                k = k + 1;
            }
            assert(lists_model(lists@).subrange(0, lists@.len() as int) =~= lists_model(lists@));
        },
        Expr::Apply { name, args } => {
            let lists = seq_steps_exec(rules, args);
            let mut k: usize = 0;
            while k < lists.len()
                invariant
                    0 <= k <= lists@.len(),
                    models(r@) == root + lists_model(lists@).subrange(0, k as int).map_values(|ys: Seq<Formula>| Formula::Apply { name: name@, args: ys }),
                decreases lists.len() - k,
            {
                let ghost before = r@;
                let x = Expr::Apply { name: name.clone(), args: clone_exprs(&lists[k]) };
                let ghost xm = x@;
                r.push(x);
                proof {
                    lemma_models_index(r@);
                    lemma_models_index(before);
                    assert(models(r@) =~= models(before).push(xm));
                    assert(lists_model(lists@).subrange(0, k + 1).map_values(|ys: Seq<Formula>| Formula::Apply { name: name@, args: ys })
                        =~= lists_model(lists@).subrange(0, k as int).map_values(|ys: Seq<Formula>| Formula::Apply { name: name@, args: ys }).push(xm));
                }
                k = k + 1;
            }
            assert(lists_model(lists@).subrange(0, lists@.len() as int) =~= lists_model(lists@));
        },
        Expr::Quant { kind, name, body } => {
            let sub = all_steps_exec(rules, body);
            push_wrapped(&mut r, &Wrap::Quant(*kind, name.clone()), &sub);
        },
        _ => {
            assert(models(r@) =~= root + Seq::<Formula>::empty());
        },
    }
    r
}

/// Every result of one rewriting step in one element of `xs`.
pub fn seq_steps_exec(rules: &Vec<RewriteRule>, xs: &Vec<Expr>) -> (r: Vec<Vec<Expr>>)
    ensures
        lists_model(r@) == seq_steps(rules_model(rules@), models(xs@)),
    decreases xs,
{
    proof {
        lemma_models_index(xs@);
    }
    let ghost rm = rules_model(rules@);
    let mut acc: Vec<Vec<Expr>> = Vec::new();
    let mut prefix: Vec<Expr> = Vec::new();
    let mut i: usize = 0;
    assert(models(xs@).subrange(0, 0) =~= Seq::<Formula>::empty());
    assert(lists_model(acc@) =~= Seq::<Seq<Formula>>::empty());
    proof {
        lemma_models_index(prefix@);
    }
    while i < xs.len()
        invariant
            rm == rules_model(rules@),
            0 <= i <= xs@.len(),
            models(xs@).len() == xs@.len(),
            forall|j: int| 0 <= j < xs@.len() ==> #[trigger] models(xs@)[j] == xs@[j]@,
            models(prefix@) == models(xs@).subrange(0, i as int),
            lists_model(acc@) == seq_steps(rm, models(xs@).subrange(0, i as int)),
        decreases xs.len() - i,
    {
        let ghost pre = models(xs@).subrange(0, i as int);
        let ghost xi = xs@[i as int]@;
        proof {
            let next = models(xs@).subrange(0, i + 1);
            assert(next.drop_last() =~= pre);
            assert(next.last() == xi);
        }
        let mut next_acc: Vec<Vec<Expr>> = Vec::new();
        let mut k: usize = 0;
        while k < acc.len()
            invariant
                0 <= k <= acc@.len(),
                lists_model(next_acc@) == lists_model(acc@).subrange(0, k as int).map_values(|ys: Seq<Formula>| ys.push(xi)),
                xs@[i as int]@ == xi,
                0 <= i < xs@.len(),
            decreases acc.len() - k,
        {
            let mut ys = clone_exprs(&acc[k]);
            proof {
                lemma_models_index(ys@);
            }
            let ghost ym = models(ys@);
            ys.push(xs[i].clone());
            proof {
                lemma_models_index(ys@);
                assert(models(ys@) =~= ym.push(xi));
            }
            let ghost before = lists_model(next_acc@);
            next_acc.push(ys);
            proof {
                assert(lists_model(next_acc@) =~= before.push(ym.push(xi)));
                assert(lists_model(acc@).subrange(0, k + 1).map_values(|ys: Seq<Formula>| ys.push(xi))
                    =~= lists_model(acc@).subrange(0, k as int).map_values(|ys: Seq<Formula>| ys.push(xi)).push(ym.push(xi)));
            }
            k = k + 1;
        }
        assert(lists_model(acc@).subrange(0, acc@.len() as int) =~= lists_model(acc@));
        let subs = all_steps_exec(rules, &xs[i]);
        proof {
            lemma_models_index(subs@);
        }
        let ghost mid = lists_model(next_acc@);
        let mut k2: usize = 0;
        while k2 < subs.len()
            invariant
                0 <= k2 <= subs@.len(),
                models(subs@).len() == subs@.len(),
                forall|j: int| 0 <= j < subs@.len() ==> #[trigger] models(subs@)[j] == subs@[j]@,
                models(prefix@) == pre,
                lists_model(next_acc@) == mid + models(subs@).subrange(0, k2 as int).map_values(|g: Formula| pre.push(g)),
            decreases subs.len() - k2,
        {
            let mut ys = clone_exprs(&prefix);
            proof {
                lemma_models_index(ys@);
            }
            let ghost ym = models(ys@);
            let ghost gm = subs@[k2 as int]@;
            ys.push(subs[k2].clone());
            proof {
                lemma_models_index(ys@);
                assert(models(ys@) =~= pre.push(gm));
            }
            let ghost before = lists_model(next_acc@);
            next_acc.push(ys);
            proof {
                assert(lists_model(next_acc@) =~= before.push(pre.push(gm)));
                assert(models(subs@).subrange(0, k2 + 1).map_values(|g: Formula| pre.push(g))
                    =~= models(subs@).subrange(0, k2 as int).map_values(|g: Formula| pre.push(g)).push(pre.push(gm)));
            }
            k2 = k2 + 1;
        }
        assert(models(subs@).subrange(0, subs@.len() as int) =~= models(subs@));
        acc = next_acc;
        let ghost pm = models(prefix@);
        let ghost old_prefix = prefix@;
        prefix.push(xs[i].clone());
        proof {
            lemma_models_index(prefix@);
            lemma_models_index(old_prefix);
            assert(models(prefix@) =~= pm.push(xi));
            assert(models(xs@).subrange(0, i + 1) =~= pre.push(xi));
        }
        i = i + 1;
    }
    assert(models(xs@).subrange(0, xs@.len() as int) =~= models(xs@));
    acc
}

proof fn lemma_concat_set(a: Seq<Formula>, b: Seq<Formula>)
    ensures
        (a + b).to_set() == a.to_set().union(b.to_set()),
{
    assert forall|x: Formula| (a + b).to_set().contains(x) <==> a.to_set().union(b.to_set()).contains(x) by {
        if (a + b).contains(x) {
            let k = choose|k: int| 0 <= k < (a + b).len() && (a + b)[k] == x;
            if k < a.len() {
                assert(a[k] == x);
            } else {
                assert(b[k - a.len()] == x);
            }
        }
        if a.contains(x) {
            let k = choose|k: int| 0 <= k < a.len() && a[k] == x;
            assert((a + b)[k] == x);
        }
        if b.contains(x) {
            let k = choose|k: int| 0 <= k < b.len() && b[k] == x;
            assert((a + b)[k + a.len()] == x);
        }
    }
    assert((a + b).to_set() =~= a.to_set().union(b.to_set()));
}

fn append_all(out: &mut Vec<Expr>, v: Vec<Expr>)
    ensures
        models(final(out)@) == models(old(out)@) + models(v@),
{
    let mut v = v;
    proof {
        lemma_models_index(out@);
        lemma_models_index(v@);
    }
    let ghost a = models(out@);
    let ghost b = models(v@);
    out.append(&mut v);
    proof {
        lemma_models_index(out@);
    }
    assert(models(out@) =~= a + b);
}

/// The expressions reached from `e` in at most `d` steps, possibly repeated.
pub fn reach_exec(rules: &Vec<RewriteRule>, e: &Expr, d: usize) -> (r: Vec<Expr>)
    ensures
        models(r@).to_set() == reach(rules_model(rules@), e@, d as nat),
    decreases d, 0nat, 0nat,
{
    let mut r: Vec<Expr> = Vec::new();
    r.push(e.clone());
    proof {
        lemma_models_index(r@);
        assert(models(r@) =~= seq![e@]);
        assert forall|x: Formula| seq![e@].to_set().contains(x) <==> set![e@].contains(x) by {
            if x == e@ {
                assert(seq![e@][0] == x);
            }
        }
        assert(seq![e@].to_set() =~= set![e@]);
    }
    if d == 0 {
        return r;
    }
    let steps = all_steps_exec(rules, e);
    let more = reach_seq_exec(rules, &steps, d - 1);
    let ghost first = models(r@);
    let ghost rest = models(more@);
    append_all(&mut r, more);
    proof {
        lemma_concat_set(first, rest);
    }
    r
}

/// The expressions reached from some element of `gs` in at most `d` steps.
pub fn reach_seq_exec(rules: &Vec<RewriteRule>, gs: &Vec<Expr>, d: usize) -> (r: Vec<Expr>)
    ensures
        models(r@).to_set() == reach_seq(rules_model(rules@), models(gs@), d as nat),
    decreases d, 1nat, gs@.len(),
{
    proof {
        lemma_models_index(gs@);
    }
    let ghost rm = rules_model(rules@);
    let mut acc: Vec<Expr> = Vec::new();
    let mut i: usize = 0;
    assert(models(gs@).subrange(0, 0) =~= Seq::<Formula>::empty());
    proof {
        lemma_models_index(acc@);
        assert(models(acc@).to_set() =~= Set::<Formula>::empty());
    }
    while i < gs.len()
        invariant
            rm == rules_model(rules@),
            0 <= i <= gs@.len(),
            models(gs@).len() == gs@.len(),
            forall|j: int| 0 <= j < gs@.len() ==> #[trigger] models(gs@)[j] == gs@[j]@,
            models(acc@).to_set() == reach_seq(rm, models(gs@).subrange(0, i as int), d as nat),
        decreases gs.len() - i,
    {
        proof {
            let next = models(gs@).subrange(0, i + 1);
            assert(next.drop_last() =~= models(gs@).subrange(0, i as int));
        }
        let part = reach_exec(rules, &gs[i], d);
        let ghost a = models(acc@);
        let ghost b = models(part@);
        append_all(&mut acc, part);
        proof {
            lemma_concat_set(a, b);
        }
        i = i + 1;
    }
    assert(models(gs@).subrange(0, gs@.len() as int) =~= models(gs@));
    acc
}

} // verus!
