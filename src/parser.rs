//! Reading expressions from their surface syntax.
//!
//! The grammar: `_|_`; identifiers of letters, digits and `_` (but not
//! `forall` or `exists`), applied to arguments as `p(x, f(y))`; `~X`;
//! `forall x, X` or `∀x, X`, and `exists x, X` or `∃x, X`; parentheses; and
//! at one level either `X -> Y` or a chain `X op Y op ...` of one operator,
//! where `op` is `&` (also `∧`, `/\`), `|` (also `∨`, `\/`), `<->` (also
//! `↔`), `===` (also `≡`), `+` or `*`.
use vstd::prelude::*;
use crate::expr::{Expr, Formula, Op, QuantKind, models, lemma_models_index};

verus! {

/// Whether every n-ary connective in `f` has at least two operands.
pub open spec fn assoc_wf(f: Formula) -> bool
    decreases f,
{
    match f {
        Formula::Apply { name, args } => assoc_wf_seq(args),
        Formula::Not { operand } => assoc_wf(*operand),
        Formula::Impl { left, right } => assoc_wf(*left) && assoc_wf(*right),
        Formula::Assoc { op, exprs } => exprs.len() >= 2 && assoc_wf_seq(exprs),
        Formula::Quant { kind, name, body } => assoc_wf(*body),
        _ => true,
    }
}

pub open spec fn assoc_wf_seq(s: Seq<Formula>) -> bool
    decreases s,
{
    s.len() == 0 || (assoc_wf_seq(s.drop_last()) && assoc_wf(s.last()))
}

proof fn lemma_wf_push(s: Seq<Formula>, f: Formula)
    requires
        assoc_wf_seq(s),
        assoc_wf(f),
    ensures
        assoc_wf_seq(s.push(f)),
{
    assert(s.push(f).drop_last() =~= s);
}

/// The characters of a string.
fn chars_of(s: &str) -> (r: Vec<char>)
    ensures
        r@ == s@,
{
    let n = s.unicode_len();
    let mut v: Vec<char> = Vec::new();
    let mut i: usize = 0;
    while i < n
        invariant
            n == s@.len(),
            0 <= i <= n,
            v@ == s@.subrange(0, i as int),
        decreases n - i,
    {
        v.push(s.get_char(i));
        i = i + 1;
    }
    assert(v@ =~= s@);
    v
}

/// Whether the characters from `pos` on form a name.
pub open spec fn name_rest(cs: Seq<char>, pos: int) -> bool {
    0 <= pos < cs.len() && is_name(cs.subrange(pos, cs.len() as int))
}

/// Whether the characters from `pos` on are a name, `_|_`, or `~` followed
/// by such a text.
pub open spec fn simple_rest(cs: Seq<char>, pos: int) -> bool
    decreases cs.len() - pos,
{
    if pos < 0 || pos >= cs.len() {
        false
    } else if cs[pos] == '~' {
        simple_rest(cs, pos + 1)
    } else {
        name_rest(cs, pos) || cs.subrange(pos, cs.len() as int) == "_|_"@
    }
}

/// The expression that such a text stands for.
pub open spec fn simple_model(cs: Seq<char>, pos: int) -> Formula
    decreases cs.len() - pos,
{
    if pos < 0 || pos >= cs.len() {
        Formula::Contra
    } else if cs[pos] == '~' {
        Formula::Not { operand: Box::new(simple_model(cs, pos + 1)) }
    } else if name_rest(cs, pos) {
        Formula::Var { name: cs.subrange(pos, cs.len() as int) }
    } else {
        Formula::Contra
    }
}

/// Whether `c` is skipped between tokens.
pub open spec fn is_space(c: char) -> bool {
    c == ' ' || c == '\t' || c == '\n' || c == '\r'
}

/// Whether `c` may stand in a name.
pub open spec fn ident_char(c: char) -> bool {
    ('a' <= c && c <= 'z') || ('A' <= c && c <= 'Z') || ('0' <= c && c <= '9') || c == '_'
}

/// Whether `s` is a name: letters, digits and `_`, and not a keyword.
pub open spec fn is_name(s: Seq<char>) -> bool {
    &&& s.len() > 0
    &&& forall|i: int| 0 <= i < s.len() ==> ident_char(#[trigger] s[i])
    &&& s != "forall"@
    &&& s != "exists"@
}

fn is_ident_char(c: char) -> (r: bool)
    ensures
        r == ident_char(c),
{
    ('a' <= c && c <= 'z') || ('A' <= c && c <= 'Z') || ('0' <= c && c <= '9') || c == '_'
}

fn skip_space(cs: &Vec<char>, pos: usize) -> (r: usize)
    requires
        pos <= cs@.len(),
    ensures
        pos <= r <= cs@.len(),
        pos < cs@.len() && ident_char(cs@[pos as int]) ==> r == pos,
        pos < cs@.len() && !is_space(cs@[pos as int]) ==> r == pos,
        pos == cs@.len() ==> r == pos,
{
    let mut i = pos;
    while i < cs.len() && (cs[i] == ' ' || cs[i] == '\t' || cs[i] == '\n' || cs[i] == '\r')
        invariant
            pos <= i <= cs@.len(),
            forall|j: int| pos <= j < i ==> !ident_char(#[trigger] cs@[j]) && is_space(cs@[j]),
        decreases cs.len() - i,
    {
        i = i + 1;
    }
    i
}

/// Whether the characters of `lit` stand at `pos`.
fn looking_at(cs: &Vec<char>, pos: usize, lit: &str) -> (r: bool)
    ensures
        r == (pos + lit@.len() <= cs@.len() && cs@.subrange(pos as int, pos + lit@.len()) == lit@),
{
    let l = chars_of(lit);
    if pos > cs.len() || l.len() > cs.len() - pos {
        return false;
    }
    assert(l@ == lit@);
    let mut k: usize = 0;
    while k < l.len()
        invariant
            pos <= cs@.len(),
            l@.len() <= cs@.len() - pos,
            pos + l@.len() <= cs@.len(),
            0 <= k <= l@.len(),
            l@ == lit@,
            forall|j: int| 0 <= j < k ==> cs@[pos + j] == l@[j],
        decreases l.len() - k,
    {
        let n = cs.len();
        assert(pos + k < n);
        if cs[pos + k] != l[k] {
            assert(cs@.subrange(pos as int, pos + lit@.len())[k as int] == cs@[pos + k]);
            return false;
        }
        k = k + 1;
    }
    assert(cs@.subrange(pos as int, pos + lit@.len()) =~= lit@);
    true
}

/// An identifier starting at `pos`, and where it ends.
fn identifier(src: &str, cs: &Vec<char>, pos: usize) -> (r: Option<(String, usize)>)
    requires
        cs@ == src@,
        pos <= cs@.len(),
    ensures
        r matches Some((_, end)) ==> pos < end <= cs@.len(),
        r matches Some((name, end)) ==> name@ == cs@.subrange(pos as int, end as int),
        (forall|j: int| pos <= j < cs@.len() ==> ident_char(#[trigger] cs@[j])) && pos < cs@.len()
            ==> r is Some && r.unwrap().1 == cs@.len(),
{
    let mut i = pos;
    while i < cs.len() && is_ident_char(cs[i])
        invariant
            pos <= i <= cs@.len(),
            forall|j: int| pos <= j < i ==> ident_char(#[trigger] cs@[j]),
        decreases cs.len() - i,
    {
        i = i + 1;
    }
    if i == pos {
        None
    } else {
        Some((String::from_str(src.substring_char(pos, i)), i))
    }
}

/// The operator written at `pos` and where it ends: `None` for an
/// implication, `Some(op)` for an n-ary connective.
fn operator(cs: &Vec<char>, pos: usize) -> (r: Option<(Option<Op>, usize)>)
    requires
        pos <= cs@.len(),
    ensures
        r matches Some((_, end)) ==> pos < end <= cs@.len(),
{
    let table: [(&str, Option<Op>); 13] = [
        ("->", None),
        ("<->", Some(Op::Bicon)),
        ("↔", Some(Op::Bicon)),
        ("===", Some(Op::Equiv)),
        ("≡", Some(Op::Equiv)),
        ("&", Some(Op::And)),
        ("∧", Some(Op::And)),
        ("/\\", Some(Op::And)),
        ("|", Some(Op::Or)),
        ("∨", Some(Op::Or)),
        ("\\/", Some(Op::Or)),
        ("+", Some(Op::Add)),
        ("*", Some(Op::Mult)),
    ];
    let mut k: usize = 0;
    while k < 13
        invariant
            0 <= k <= 13,
        decreases 13 - k,
    {
        let (lit, op) = table[k];
        let l = chars_of(lit);
        if l.len() > 0 && looking_at(cs, pos, lit) {
            let n = cs.len();
            assert(pos + l.len() <= n);
            return Some((op, pos + l.len()));
        }
        k = k + 1;
    }
    None
}

/// A term: a variable, or a function applied to terms.
fn parse_term(src: &str, cs: &Vec<char>, pos: usize) -> (r: Option<(Expr, usize)>)
    requires
        cs@ == src@,
        pos <= cs@.len(),
    ensures
        r matches Some((e, end)) ==> pos <= end <= cs@.len() && assoc_wf(e@),
        name_rest(cs@, pos as int) ==> r is Some && r.unwrap().0@ == (Formula::Var { name: cs@.subrange(pos as int, cs@.len() as int) })
            && r.unwrap().1 == cs@.len(),
    decreases cs@.len() - pos, 0nat,
{
    let p0 = skip_space(cs, pos);
    proof {
        if name_rest(cs@, pos as int) {
            assert(cs@.subrange(pos as int, cs@.len() as int)[0] == cs@[pos as int]);
            assert forall|j: int| p0 <= j < cs@.len() implies ident_char(#[trigger] cs@[j]) by {
                assert(cs@.subrange(pos as int, cs@.len() as int)[j - pos] == cs@[j]);
            }
        }
    }
    let (name, p1) = match identifier(src, cs, p0) {
        Some(x) => x,
        None => {
            return None;
        },
    };
    if name == String::from_str("forall") || name == String::from_str("exists") {
        return None;
    }
    let p2 = skip_space(cs, p1);
    if p2 < cs.len() && cs[p2] == '(' {
        match parse_args(src, cs, p2 + 1) {
            Some((args, end)) => Some((Expr::Apply { name, args }, end)),
            None => None,
        }
    } else {
        Some((Expr::Var { name }, p1))
    }
}

/// Arguments separated by commas, up to and including the closing `)`.
fn parse_args(src: &str, cs: &Vec<char>, pos: usize) -> (r: Option<(Vec<Expr>, usize)>)
    requires
        cs@ == src@,
        0 < pos <= cs@.len(),
    ensures
        r matches Some((args, end)) ==> pos <= end <= cs@.len() && assoc_wf_seq(models(args@)),
    decreases cs@.len() - pos, 1nat,
{
    let mut args: Vec<Expr> = Vec::new();
    let mut p = pos;
    proof {
        lemma_models_index(args@);
    }
    loop
        invariant
            cs@ == src@,
            pos <= p <= cs@.len(),
            assoc_wf_seq(models(args@)),
        decreases cs@.len() - p,
    {
        match parse_term(src, cs, p) {
            Some((t, after)) => {
                let ghost old_args = args@;
                let ghost tm = t@;
                args.push(t);
                proof {
                    lemma_models_index(args@);
                    lemma_models_index(old_args);
                    lemma_wf_push(models(old_args), tm);
                    assert(models(args@) =~= models(old_args).push(tm));
                }
                let q = skip_space(cs, after);
                if q < cs.len() && cs[q] == ',' {
                    if q + 1 <= p {
                        return None;
                    }
                    p = q + 1;
                } else if q < cs.len() && cs[q] == ')' {
                    return Some((args, q + 1));
                } else {
                    return None;
                }
            },
            None => {
                return None;
            },
        }
    }
}

/// An expression without a binary operator at its top.
fn parse_unary(src: &str, cs: &Vec<char>, pos: usize) -> (r: Option<(Expr, usize)>)
    requires
        cs@ == src@,
        pos <= cs@.len(),
    ensures
        r matches Some((e, end)) ==> pos < end <= cs@.len() && assoc_wf(e@),
        name_rest(cs@, pos as int) ==> r is Some && r.unwrap().0@ == (Formula::Var { name: cs@.subrange(pos as int, cs@.len() as int) })
            && r.unwrap().1 == cs@.len(),
        simple_rest(cs@, pos as int) ==> r is Some && r.unwrap().0@ == simple_model(cs@, pos as int) && r.unwrap().1 == cs@.len(),
    decreases cs@.len() - pos, 0nat,
{
    proof {
        if name_rest(cs@, pos as int) {
            assert(cs@.subrange(pos as int, cs@.len() as int)[0] == cs@[pos as int]);
        }
        if simple_rest(cs@, pos as int) && !name_rest(cs@, pos as int) && cs@[pos as int] != '~' {
            reveal_strlit("_|_");
            assert(cs@.subrange(pos as int, cs@.len() as int)[0] == cs@[pos as int]);
        }
    }
    let p = skip_space(cs, pos);
    if p >= cs.len() {
        return None;
    }
    proof {
        if name_rest(cs@, pos as int) {
            assert(cs@.subrange(pos as int, cs@.len() as int)[0] == cs@[pos as int]);
            assert forall|j: int| p <= j < cs@.len() implies ident_char(#[trigger] cs@[j]) by {
                assert(cs@.subrange(pos as int, cs@.len() as int)[j - pos] == cs@[j]);
            }
            reveal_strlit("_|_");
            assert(cs@.subrange(pos as int, cs@.len() as int).len() >= 1);
            if pos + 1 < cs@.len() {
                assert(cs@.subrange(pos as int, cs@.len() as int)[1] == cs@[pos + 1]);
            }
        }
    }
    proof {
        if simple_rest(cs@, pos as int) && !name_rest(cs@, pos as int) && cs@[pos as int] != '~' {
            reveal_strlit("_|_");
            assert(cs@.subrange(pos as int, cs@.len() as int) == "_|_"@);
            assert(cs@.subrange(pos as int, cs@.len() as int)[0] == cs@[pos as int]);
            assert(cs@[pos as int] == '_');
        }
    }
    if cs[p] == '~' {
        return match parse_unary(src, cs, p + 1) {
            Some((e, end)) => Some((Expr::Not { operand: Box::new(e) }, end)),
            None => None,
        };
    }
    if looking_at(cs, p, "_|_") {
        proof {
            reveal_strlit("_|_");
            if simple_rest(cs@, pos as int) {
                assert(cs@.subrange(p as int, p + 3)[1] == cs@[p + 1]);
                if name_rest(cs@, pos as int) {
                    assert(cs@.subrange(pos as int, cs@.len() as int)[1] == cs@[pos + 1]);
                }
                assert(cs@.subrange(pos as int, cs@.len() as int) == "_|_"@);
                assert(cs@.len() == pos + 3);
            }
        }
        return Some((Expr::Contra, p + 3));
    }
    proof {
        if simple_rest(cs@, pos as int) && !name_rest(cs@, pos as int) && cs@[pos as int] != '~' {
            reveal_strlit("_|_");
            assert(cs@.subrange(pos as int, pos + 3) =~= cs@.subrange(pos as int, cs@.len() as int));
        }
    }
    if cs[p] == '(' {
        return match parse_expr(src, cs, p + 1) {
            Some((e, end)) => {
                let q = skip_space(cs, end);
                if q < cs.len() && cs[q] == ')' {
                    Some((e, q + 1))
                } else {
                    None
                }
            },
            None => None,
        };
    }
    let (kind, after_kw): (Option<QuantKind>, usize) = if cs[p] == '∀' {
        (Some(QuantKind::Forall), p + 1)
    } else if cs[p] == '∃' {
        (Some(QuantKind::Exists), p + 1)
    } else {
        match identifier(src, cs, p) {
            Some((word, end)) => {
                if word == String::from_str("forall") {
                    (Some(QuantKind::Forall), end)
                } else if word == String::from_str("exists") {
                    (Some(QuantKind::Exists), end)
                } else {
                    (None, p)
                }
            },
            None => (None, p),
        }
    };
    match kind {
        Some(k) => {
            let q = skip_space(cs, after_kw);
            let (name, q1) = match identifier(src, cs, q) {
                Some(x) => x,
                None => {
                    return None;
                },
            };
            let q2 = skip_space(cs, q1);
            if q2 < cs.len() && cs[q2] == ',' {
                match parse_unary(src, cs, q2 + 1) {
                    Some((body, end)) => Some((Expr::Quant { kind: k, name, body: Box::new(body) }, end)),
                    None => None,
                }
            } else {
                None
            }
        },
        None => match parse_term(src, cs, p) {
            Some((t, end)) => {
                if end > p {
                    Some((t, end))
                } else {
                    None
                }
            },
            None => None,
        },
    }
}

/// An expression: one operand, `X -> Y`, or a chain of one connective.
fn parse_expr(src: &str, cs: &Vec<char>, pos: usize) -> (r: Option<(Expr, usize)>)
    requires
        cs@ == src@,
        pos <= cs@.len(),
    ensures
        r matches Some((e, end)) ==> pos < end <= cs@.len() && assoc_wf(e@),
        name_rest(cs@, pos as int) ==> r is Some && r.unwrap().0@ == (Formula::Var { name: cs@.subrange(pos as int, cs@.len() as int) })
            && r.unwrap().1 == cs@.len(),
        simple_rest(cs@, pos as int) ==> r is Some && r.unwrap().0@ == simple_model(cs@, pos as int) && r.unwrap().1 == cs@.len(),
    decreases cs@.len() - pos, 1nat,
{
    let (first, p1) = match parse_unary(src, cs, pos) {
        Some(x) => x,
        None => {
            return None;
        },
    };
    let q = skip_space(cs, p1);
    let (op, q1) = match operator(cs, q) {
        Some(x) => x,
        None => {
            return Some((first, p1));
        },
    };
    match op {
        None => {
            let (second, p2) = parse_unary(src, cs, q1)?;
            Some((Expr::Impl { left: Box::new(first), right: Box::new(second) }, p2))
        },
        Some(o) => {
            let mut operands: Vec<Expr> = Vec::new();
            let ghost fm = first@;
            operands.push(first);
            let mut p = q1;
            proof {
                lemma_models_index(operands@);
                assert(models(operands@) =~= seq![fm]);
                lemma_wf_push(Seq::<Formula>::empty(), fm);
                assert(Seq::<Formula>::empty().push(fm) =~= seq![fm]);
            }
            assert(!name_rest(cs@, pos as int));
            assert(!simple_rest(cs@, pos as int));
            loop
                invariant
                    cs@ == src@,
                    !name_rest(cs@, pos as int),
                    !simple_rest(cs@, pos as int),
                    pos < p <= cs@.len(),
                    operands@.len() >= 1,
                    assoc_wf_seq(models(operands@)),
                decreases cs@.len() - p,
            {
                let (next, p2) = parse_unary(src, cs, p)?;
                let ghost old_ops = operands@;
                let ghost nm = next@;
                operands.push(next);
                proof {
                    lemma_models_index(operands@);
                    lemma_models_index(old_ops);
                    lemma_wf_push(models(old_ops), nm);
                    assert(models(operands@) =~= models(old_ops).push(nm));
                }
                let q2 = skip_space(cs, p2);
                match operator(cs, q2) {
                    Some((Some(o2), q3)) => {
                        if o2 != o {
                            return None;
                        }
                        p = q3;
                    },
                    Some((None, _)) => {
                        return None;
                    },
                    None => {
                        proof {
                            lemma_models_index(operands@);
                        }
                        return Some((Expr::Assoc { op: o, exprs: operands }, p2));
                    },
                }
            }
        },
    }
}

/// The expression written in `s`, if `s` is exactly one expression of the
/// surface syntax. Every n-ary connective of the result has at least two
/// operands; a name alone is read as that variable, and `_|_` and `~X`, for
/// such an `X`, as the absurdity and the negation.
pub fn parse(s: &str) -> (r: Option<Expr>)
    ensures
        r matches Some(e) ==> assoc_wf(e@),
        is_name(s@) ==> r is Some && r->0@ == (Formula::Var { name: s@ }),
        simple_rest(s@, 0) ==> r is Some && r->0@ == simple_model(s@, 0),
{
    let cs = chars_of(s);
    assert(cs@.subrange(0, cs@.len() as int) =~= cs@);
    match parse_expr(s, &cs, 0) {
        Some((e, end)) => {
            let q = skip_space(&cs, end);
            if q == cs.len() {
                Some(e)
            } else {
                None
            }
        },
        None => None,
    }
}

} // verus!
