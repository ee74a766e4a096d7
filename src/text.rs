//! Writing expressions in the surface syntax, for diagnostics.
use vstd::prelude::*;
use crate::expr::{Expr, Formula, Op, QuantKind, models, lemma_models_index};

verus! {

/// The symbol written between the operands of `op`.
pub open spec fn op_symbol(op: Op) -> Seq<char> {
    match op {
        Op::And => " & "@,
        Op::Or => " | "@,
        Op::Bicon => " <-> "@,
        Op::Equiv => " === "@,
        Op::Add => " + "@,
        Op::Mult => " * "@,
    }
}

fn op_symbol_exec(op: Op) -> (r: &'static str)
    ensures
        r@ == op_symbol(op),
{
    match op {
        Op::And => " & ",
        Op::Or => " | ",
        Op::Bicon => " <-> ",
        Op::Equiv => " === ",
        Op::Add => " + ",
        Op::Mult => " * ",
    }
}

/// `f` in the surface syntax, fully parenthesised.
pub open spec fn render(f: Formula) -> Seq<char>
    decreases f,
{
    match f {
        Formula::Contra => "_|_"@,
        Formula::Var { name } => name,
        Formula::Apply { name, args } => name + "("@ + render_seq(args, ", "@) + ")"@,
        Formula::Not { operand } => "~"@ + render(*operand),
        Formula::Impl { left, right } => "("@ + render(*left) + " -> "@ + render(*right) + ")"@,
        Formula::Assoc { op, exprs } => "("@ + render_seq(exprs, op_symbol(op)) + ")"@,
        Formula::Quant { kind, name, body } => "("@ + (if kind == QuantKind::Forall { "forall "@ } else { "exists "@ }) + name + ", "@ + render(*body) + ")"@,
    }
}

/// The elements of `s` rendered and joined by `sep`.
pub open spec fn render_seq(s: Seq<Formula>, sep: Seq<char>) -> Seq<char>
    decreases s,
{
    if s.len() == 0 {
        Seq::empty()
    } else if s.len() == 1 {
        render(s[0])
    } else {
        render_seq(s.drop_last(), sep) + sep + render(s.last())
    }
}

/// `e` in the surface syntax, fully parenthesised.
pub fn to_text(e: &Expr) -> (r: String)
    ensures
        r@ == render(e@),
    decreases e,
{
    match e {
        Expr::Contra => String::from_str("_|_"),
        Expr::Var { name } => name.clone(),
        Expr::Apply { name, args } => {
            let mut r = name.clone();
            r.append("(");
            let inner = join_text(args, ", ");
            r.append(inner.as_str());
            r.append(")");
            r
        },
        Expr::Not { operand } => {
            let mut r = String::from_str("~");
            let inner = to_text(operand);
            r.append(inner.as_str());
            r
        },
        Expr::Impl { left, right } => {
            let mut r = String::from_str("(");
            let l = to_text(left);
            r.append(l.as_str());
            r.append(" -> ");
            let rt = to_text(right);
            r.append(rt.as_str());
            r.append(")");
            r
        },
        Expr::Assoc { op, exprs } => {
            let mut r = String::from_str("(");
            let inner = join_text(exprs, op_symbol_exec(*op));
            r.append(inner.as_str());
            r.append(")");
            r
        },
        Expr::Quant { kind, name, body } => {
            let mut r = String::from_str("(");
            match kind {
                QuantKind::Forall => r.append("forall "),
                QuantKind::Exists => r.append("exists "),
            }
            r.append(name.as_str());
            r.append(", ");
            let b = to_text(body);
            r.append(b.as_str());
            r.append(")");
            r
        },
    }
}

/// The elements of `v` in the surface syntax, joined by `sep`.
pub fn join_text(v: &Vec<Expr>, sep: &str) -> (r: String)
    ensures
        r@ == render_seq(models(v@), sep@),
    decreases v,
{
    proof {
        lemma_models_index(v@);
    }
    let mut r = String::new();
    let mut i: usize = 0;
    while i < v.len()
        invariant
            0 <= i <= v@.len(),
            models(v@).len() == v@.len(),
            forall|j: int| 0 <= j < v@.len() ==> #[trigger] models(v@)[j] == v@[j]@,
            r@ == render_seq(models(v@).subrange(0, i as int), sep@),
        decreases v.len() - i,
    {
        proof {
            let next = models(v@).subrange(0, i + 1);
            assert(next.drop_last() =~= models(v@).subrange(0, i as int));
        }
        if i > 0 {
            r.append(sep);
        }
        let t = to_text(&v[i]);
        r.append(t.as_str());
        proof {
            let next = models(v@).subrange(0, i + 1);
            if i == 0 {
                assert(r@ =~= render(next[0]));
            } else {
                assert(r@ =~= render_seq(next.drop_last(), sep@) + sep@ + render(next.last()));
            }
        }
        i = i + 1;
    }
    assert(models(v@).subrange(0, v@.len() as int) =~= models(v@));
    r
}

} // verus!
