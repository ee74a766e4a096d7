//! Conjunctive normal form of propositional formulas, and its agreement
//! with the formula under every truth assignment.
use vstd::prelude::*;
use crate::expr::{Expr, Formula, Op, models, lemma_models_index};
use crate::algebra::{size, size_seq};

verus! {

/// A literal: a variable index and whether it occurs positively.
pub type Clause = Seq<(int, bool)>;

/// Whether `f` uses only atoms, the absurdity, negation, implication and
/// the connectives conjunction, disjunction, biconditional and equivalence.
pub open spec fn propositional(f: Formula) -> bool
    decreases f,
{
    match f {
        Formula::Contra => true,
        Formula::Var { .. } => true,
        Formula::Not { operand } => propositional(*operand),
        Formula::Impl { left, right } => propositional(*left) && propositional(*right),
        Formula::Assoc { op, exprs } => (op == Op::And || op == Op::Or || op == Op::Bicon || op == Op::Equiv)
            && propositional_seq(exprs),
        _ => false,
    }
}

pub open spec fn propositional_seq(s: Seq<Formula>) -> bool
    decreases s,
{
    s.len() == 0 || (propositional_seq(s.drop_last()) && propositional(s.last()))
}

/// The truth value of `f` when each atom `x` has the value `a(x)`.
pub open spec fn eval(f: Formula, a: spec_fn(Seq<char>) -> bool) -> bool
    decreases f,
{
    match f {
        Formula::Contra => false,
        Formula::Var { name } => a(name),
        Formula::Not { operand } => !eval(*operand, a),
        Formula::Impl { left, right } => !eval(*left, a) || eval(*right, a),
        Formula::Assoc { op, exprs } => match op {
            Op::And => eval_all(exprs, a, true),
            Op::Or => !eval_all(exprs, a, false),
            _ => eval_all(exprs, a, true) || eval_all(exprs, a, false),
        },
        _ => false,
    }
}

/// Whether every element of `s` has the truth value `pos`.
pub open spec fn eval_all(s: Seq<Formula>, a: spec_fn(Seq<char>) -> bool, pos: bool) -> bool
    decreases s,
{
    s.len() == 0 || (eval_all(s.drop_last(), a, pos) && eval(s.last(), a) == pos)
}

/// Whether some literal of `c` holds when variable `i` has the value `v(i)`.
pub open spec fn clause_holds(c: Clause, v: spec_fn(int) -> bool) -> bool {
    exists|j: int| 0 <= j < c.len() && v((#[trigger] c[j]).0) == c[j].1
}

/// Whether the clauses all hold when variable `i` has the value `v(i)`.
pub open spec fn eval_cnf(cs: Seq<Clause>, v: spec_fn(int) -> bool) -> bool {
    forall|k: int| 0 <= k < cs.len() ==> clause_holds(#[trigger] cs[k], v)
}

/// The disjunction of two formulas in conjunctive normal form.
pub open spec fn product(a: Seq<Clause>, b: Seq<Clause>) -> Seq<Clause>
    decreases a.len(),
{
    if a.len() == 0 {
        Seq::empty()
    } else {
        product(a.drop_last(), b) + b.map_values(|c: Clause| a.last() + c)
    }
}

/// The index of `x` in `names`.
pub open spec fn index_of(names: Seq<Seq<char>>, x: Seq<char>) -> int
    decreases names.len(),
{
    if names.len() == 0 {
        0
    } else if names.last() == x {
        names.len() - 1
    } else {
        index_of(names.drop_last(), x)
    }
}

/// The clauses of `f` (if `pos`) or of its negation, with atom `x` as
/// variable `index_of(names, x)`.
pub open spec fn cnf_of(f: Formula, pos: bool, names: Seq<Seq<char>>) -> Seq<Clause>
    decreases f,
{
    match f {
        Formula::Contra => if pos { seq![Seq::empty()] } else { Seq::empty() },
        Formula::Var { name } => seq![seq![(index_of(names, name), pos)]],
        Formula::Not { operand } => cnf_of(*operand, !pos, names),
        Formula::Impl { left, right } => if pos {
            product(cnf_of(*left, false, names), cnf_of(*right, true, names))
        } else {
            cnf_of(*left, true, names) + cnf_of(*right, false, names)
        },
        Formula::Assoc { op, exprs } => match op {
            Op::And => if pos { all_of(exprs, true, names) } else { any_of(exprs, false, names) },
            Op::Or => if pos { any_of(exprs, true, names) } else { all_of(exprs, false, names) },
            _ => if pos {
                product(all_of(exprs, true, names), all_of(exprs, false, names))
            } else {
                any_of(exprs, true, names) + any_of(exprs, false, names)
            },
        },
        _ => Seq::empty(),
    }
}

/// The clauses saying that every element of `s` has the value `pos`.
pub open spec fn all_of(s: Seq<Formula>, pos: bool, names: Seq<Seq<char>>) -> Seq<Clause>
    decreases s,
{
    if s.len() == 0 {
        Seq::empty()
    } else {
        all_of(s.drop_last(), pos, names) + cnf_of(s.last(), pos, names)
    }
}

/// The clauses saying that some element of `s` has the value `pos`.
pub open spec fn any_of(s: Seq<Formula>, pos: bool, names: Seq<Seq<char>>) -> Seq<Clause>
    decreases s,
{
    if s.len() == 0 {
        seq![Seq::empty()]
    } else {
        product(any_of(s.drop_last(), pos, names), cnf_of(s.last(), pos, names))
    }
}

/// The atoms of `f`.
pub open spec fn atoms(f: Formula) -> Set<Seq<char>>
    decreases f,
{
    match f {
        Formula::Var { name } => set![name],
        Formula::Not { operand } => atoms(*operand),
        Formula::Impl { left, right } => atoms(*left).union(atoms(*right)),
        Formula::Assoc { op, exprs } => atoms_seq(exprs),
        _ => Set::empty(),
    }
}

pub open spec fn atoms_seq(s: Seq<Formula>) -> Set<Seq<char>>
    decreases s,
{
    if s.len() == 0 {
        Set::empty()
    } else {
        atoms_seq(s.drop_last()).union(atoms(s.last()))
    }
}

proof fn lemma_eval_concat(a: Seq<Clause>, b: Seq<Clause>, v: spec_fn(int) -> bool)
    ensures
        eval_cnf(a + b, v) == (eval_cnf(a, v) && eval_cnf(b, v)),
{
    let ab = a + b;
    if eval_cnf(a, v) && eval_cnf(b, v) {
        assert forall|k: int| 0 <= k < ab.len() implies clause_holds(ab[k], v) by {
            if k < a.len() {
                assert(ab[k] == a[k]);
            } else {
                assert(ab[k] == b[k - a.len()]);
            }
        }
    }
    if eval_cnf(ab, v) {
        assert forall|k: int| 0 <= k < a.len() implies clause_holds(a[k], v) by {
            assert(ab[k] == a[k]);
        }
        assert forall|k: int| 0 <= k < b.len() implies clause_holds(b[k], v) by {
            assert(ab[k + a.len()] == b[k]);
        }
    }
}

proof fn lemma_eval_join(c: Clause, b: Seq<Clause>, v: spec_fn(int) -> bool)
    ensures
        eval_cnf(b.map_values(|d: Clause| c + d), v) == (clause_holds(c, v) || eval_cnf(b, v)),
{
    let m = b.map_values(|d: Clause| c + d);
    let csat = clause_holds(c, v);
    if csat {
        let j0 = choose|j: int| 0 <= j < c.len() && v((#[trigger] c[j]).0) == c[j].1;
        assert forall|k: int| 0 <= k < m.len() implies clause_holds(m[k], v) by {
            assert(m[k] == c + b[k]);
            assert(m[k][j0] == c[j0]);
        }
    } else if eval_cnf(b, v) {
        assert forall|k: int| 0 <= k < m.len() implies clause_holds(m[k], v) by {
            assert(m[k] == c + b[k]);
            let j1 = choose|j: int| 0 <= j < b[k].len() && v((#[trigger] b[k][j]).0) == b[k][j].1;
            assert(m[k][c.len() + j1] == b[k][j1]);
        }
    }
    if eval_cnf(m, v) && !csat {
        assert forall|k: int| 0 <= k < b.len() implies clause_holds(b[k], v) by {
            assert(m[k] == c + b[k]);
            let j1 = choose|j: int| 0 <= j < m[k].len() && v((#[trigger] m[k][j]).0) == m[k][j].1;
            if j1 < c.len() {
                assert(m[k][j1] == c[j1]);
            } else {
                assert(m[k][j1] == b[k][j1 - c.len()]);
            }
        }
    }
}

proof fn lemma_eval_product(a: Seq<Clause>, b: Seq<Clause>, v: spec_fn(int) -> bool)
    ensures
        eval_cnf(product(a, b), v) == (eval_cnf(a, v) || eval_cnf(b, v)),
    decreases a.len(),
{
    if a.len() > 0 {
        let c = a.last();
        lemma_eval_product(a.drop_last(), b, v);
        lemma_eval_concat(product(a.drop_last(), b), b.map_values(|d: Clause| c + d), v);
        lemma_eval_join(c, b, v);
        let csat = clause_holds(c, v);
        assert(eval_cnf(a, v) == (eval_cnf(a.drop_last(), v) && csat)) by {
            if eval_cnf(a.drop_last(), v) && csat {
                assert forall|k: int| 0 <= k < a.len() implies clause_holds(a[k], v) by {
                    if k < a.len() - 1 {
                        assert(a[k] == a.drop_last()[k]);
                    }
                }
            }
            if eval_cnf(a, v) {
                assert forall|k: int| 0 <= k < a.drop_last().len() implies clause_holds(a.drop_last()[k], v) by {
                    assert(a[k] == a.drop_last()[k]);
                }
                assert(a[a.len() - 1] == c);
            }
        }
    } else {
        assert(eval_cnf(a, v));
    }
}

proof fn lemma_index_of(names: Seq<Seq<char>>, x: Seq<char>)
    requires
        names.contains(x),
    ensures
        0 <= index_of(names, x) < names.len(),
        names[index_of(names, x)] == x,
    decreases names.len(),
{
    if names.last() != x {
        let k = choose|k: int| 0 <= k < names.len() && names[k] == x;
        assert(names.drop_last()[k] == x);
        lemma_index_of(names.drop_last(), x);
        let i = index_of(names.drop_last(), x);
        assert(names.drop_last()[i] == names[i]);
    }
}

/// The assignment to variable indices that `a` gives through `names`.
pub open spec fn through(names: Seq<Seq<char>>, a: spec_fn(Seq<char>) -> bool) -> spec_fn(int) -> bool {
    |i: int| a(names[i])
}

proof fn lemma_cnf_agrees(f: Formula, pos: bool, names: Seq<Seq<char>>, a: spec_fn(Seq<char>) -> bool)
    requires
        propositional(f),
        forall|x: Seq<char>| atoms(f).contains(x) ==> names.contains(x),
    ensures
        eval_cnf(cnf_of(f, pos, names), through(names, a)) == (eval(f, a) == pos),
    decreases f,
{
    let v = through(names, a);
    match f {
        Formula::Contra => {
            let cs = cnf_of(f, pos, names);
            assert(eval(f, a) == false);
            if pos {
                assert(cs.len() == 1);
                assert(cs[0].len() == 0);
                assert(!clause_holds(cs[0], v));
                assert(!eval_cnf(cs, v));
            } else {
                assert(cs.len() == 0);
                assert(eval_cnf(cs, v));
            }
        },
        Formula::Var { name } => {
            lemma_index_of(names, name);
            let cs = cnf_of(f, pos, names);
            let i = index_of(names, name);
            assert(v(i) == a(name));
            assert(cs.len() == 1);
            assert(cs[0] == seq![(i, pos)]);
            assert(cs[0][0] == (i, pos));
            assert(clause_holds(cs[0], v) == (v(i) == pos));
            assert(eval_cnf(cs, v) == clause_holds(cs[0], v));
        },
        Formula::Not { operand } => lemma_cnf_agrees(*operand, !pos, names, a),
        Formula::Impl { left, right } => {
            lemma_cnf_agrees(*left, false, names, a);
            lemma_cnf_agrees(*right, true, names, a);
            lemma_cnf_agrees(*left, true, names, a);
            lemma_cnf_agrees(*right, false, names, a);
            lemma_eval_product(cnf_of(*left, false, names), cnf_of(*right, true, names), v);
            lemma_eval_concat(cnf_of(*left, true, names), cnf_of(*right, false, names), v);
        },
        Formula::Assoc { op, exprs } => {
            lemma_all_of_agrees(exprs, true, names, a);
            lemma_all_of_agrees(exprs, false, names, a);
            lemma_any_of_agrees(exprs, true, names, a);
            lemma_any_of_agrees(exprs, false, names, a);
            lemma_eval_product(all_of(exprs, true, names), all_of(exprs, false, names), v);
            lemma_eval_concat(any_of(exprs, true, names), any_of(exprs, false, names), v);
        },
        _ => {},
    }
}

/// `eval_all` read as "some element does not have the value `pos`".
proof fn lemma_all_of_agrees(s: Seq<Formula>, pos: bool, names: Seq<Seq<char>>, a: spec_fn(Seq<char>) -> bool)
    requires
        propositional_seq(s),
        forall|x: Seq<char>| atoms_seq(s).contains(x) ==> names.contains(x),
    ensures
        eval_cnf(all_of(s, pos, names), through(names, a)) == eval_all(s, a, pos),
    decreases s,
{
    if s.len() > 0 {
        lemma_all_of_agrees(s.drop_last(), pos, names, a);
        lemma_cnf_agrees(s.last(), pos, names, a);
        lemma_eval_concat(all_of(s.drop_last(), pos, names), cnf_of(s.last(), pos, names), through(names, a));
    }
}

proof fn lemma_any_of_agrees(s: Seq<Formula>, pos: bool, names: Seq<Seq<char>>, a: spec_fn(Seq<char>) -> bool)
    requires
        propositional_seq(s),
        forall|x: Seq<char>| atoms_seq(s).contains(x) ==> names.contains(x),
    ensures
        eval_cnf(any_of(s, pos, names), through(names, a)) == !eval_all(s, a, !pos),
    decreases s,
{
    let v = through(names, a);
    if s.len() > 0 {
        lemma_any_of_agrees(s.drop_last(), pos, names, a);
        lemma_cnf_agrees(s.last(), pos, names, a);
        lemma_eval_product(any_of(s.drop_last(), pos, names), cnf_of(s.last(), pos, names), v);
    } else {
        let cs = any_of(s, pos, names);
        assert(cs[0].len() == 0);
        assert(!clause_holds(cs[0], v));
    }
}

/// A propositional formula and its clauses agree under every truth
/// assignment, when every atom of the formula has a variable.
pub proof fn lemma_cnf_sound(f: Formula, names: Seq<Seq<char>>, a: spec_fn(Seq<char>) -> bool)
    requires
        propositional(f),
        forall|x: Seq<char>| atoms(f).contains(x) ==> names.contains(x),
    ensures
        eval_cnf(cnf_of(f, true, names), through(names, a)) == eval(f, a),
{
    lemma_cnf_agrees(f, true, names, a);
}

/// The model of an executable clause list.
pub open spec fn clauses_view(v: Seq<Vec<(usize, bool)>>) -> Seq<Clause> {
    Seq::new(v.len(), |i: int| clause_view(v[i]@))
}

pub open spec fn clause_view(c: Seq<(usize, bool)>) -> Clause {
    c.map_values(|l: (usize, bool)| (l.0 as int, l.1))
}

pub open spec fn names_view(v: Seq<String>) -> Seq<Seq<char>> {
    Seq::new(v.len(), |i: int| v[i]@)
}

fn join_clause(c: &Vec<(usize, bool)>, d: &Vec<(usize, bool)>) -> (r: Vec<(usize, bool)>)
    ensures
        clause_view(r@) == clause_view(c@) + clause_view(d@),
{
    let mut r: Vec<(usize, bool)> = Vec::new();
    let mut i: usize = 0;
    while i < c.len()
        invariant
            0 <= i <= c@.len(),
            r@ == c@.subrange(0, i as int),
        decreases c.len() - i,
    {
        r.push(c[i]);
        i = i + 1;
    }
    let mut j: usize = 0;
    while j < d.len()
        invariant
            0 <= j <= d@.len(),
            r@ == c@ + d@.subrange(0, j as int),
        decreases d.len() - j,
    {
        r.push(d[j]);
        j = j + 1;
    }
    assert(r@ =~= c@ + d@);
    assert(clause_view(r@) =~= clause_view(c@) + clause_view(d@));
    r
}

fn concat_clauses(a: Vec<Vec<(usize, bool)>>, b: Vec<Vec<(usize, bool)>>) -> (r: Vec<Vec<(usize, bool)>>)
    ensures
        clauses_view(r@) == clauses_view(a@) + clauses_view(b@),
{
    let mut r = a;
    let mut b = b;
    let ghost av = clauses_view(r@);
    let ghost bv = clauses_view(b@);
    r.append(&mut b);
    assert(clauses_view(r@) =~= av + bv);
    r
}

fn product_exec(a: &Vec<Vec<(usize, bool)>>, b: &Vec<Vec<(usize, bool)>>) -> (r: Vec<Vec<(usize, bool)>>)
    ensures
        clauses_view(r@) == product(clauses_view(a@), clauses_view(b@)),
{
    let ghost bv = clauses_view(b@);
    let mut r: Vec<Vec<(usize, bool)>> = Vec::new();
    let mut i: usize = 0;
    assert(clauses_view(a@).subrange(0, 0) =~= Seq::<Clause>::empty());
    assert(clauses_view(r@) =~= Seq::<Clause>::empty());
    while i < a.len()
        invariant
            0 <= i <= a@.len(),
            bv == clauses_view(b@),
            clauses_view(r@) == product(clauses_view(a@).subrange(0, i as int), bv),
        decreases a.len() - i,
    {
        let ghost before = clauses_view(r@);
        let ghost ci = clauses_view(a@)[i as int];
        let mut j: usize = 0;
        while j < b.len()
            invariant
                0 <= i < a@.len(),
                0 <= j <= b@.len(),
                bv == clauses_view(b@),
                ci == clause_view(a@[i as int]@),
                clauses_view(r@) == before + bv.subrange(0, j as int).map_values(|c: Clause| ci + c),
            decreases b.len() - j,
        {
            let ghost rb = clauses_view(r@);
            r.push(join_clause(&a[i], &b[j]));
            proof {
                assert(clauses_view(r@) =~= rb.push(ci + bv[j as int]));
                assert(bv.subrange(0, j + 1).map_values(|c: Clause| ci + c) =~= bv.subrange(0, j as int).map_values(|c: Clause| ci + c).push(ci + bv[j as int]));
            }
            j = j + 1;
        }
        proof {
            assert(bv.subrange(0, b@.len() as int) =~= bv);
            let next = clauses_view(a@).subrange(0, i + 1);
            assert(next.drop_last() =~= clauses_view(a@).subrange(0, i as int));
            assert(next.last() == ci);
        }
        i = i + 1;
    }
    assert(clauses_view(a@).subrange(0, a@.len() as int) =~= clauses_view(a@));
    r
}

/// The index of `x` in `names`.
fn index_of_exec(names: &Vec<String>, x: &String) -> (r: usize)
    ensures
        r as int == index_of(names_view(names@), x@),
{
    let mut i: usize = names.len();
    assert(names_view(names@).subrange(0, i as int) =~= names_view(names@));
    while i > 0
        invariant
            0 <= i <= names@.len(),
            index_of(names_view(names@), x@) == index_of(names_view(names@).subrange(0, i as int), x@),
        decreases i,
    {
        proof {
            let s = names_view(names@).subrange(0, i as int);
            assert(s.drop_last() =~= names_view(names@).subrange(0, i - 1));
        }
        if names[i - 1] == *x {
            return i - 1;
        }
        i = i - 1;
    }
    0
}

proof fn lemma_prefix_contains(a: Seq<Seq<char>>, b: Seq<Seq<char>>, x: Seq<char>)
    requires
        a.len() <= b.len(),
        b.subrange(0, a.len() as int) == a,
        a.contains(x),
    ensures
        b.contains(x),
{
    let k = choose|k: int| 0 <= k < a.len() && a[k] == x;
    assert(b.subrange(0, a.len() as int)[k] == x);
}

/// Whether `x` is among `names`.
fn has_name(names: &Vec<String>, x: &String) -> (r: bool)
    ensures
        r == names_view(names@).contains(x@),
{
    let mut i: usize = 0;
    while i < names.len()
        invariant
            0 <= i <= names@.len(),
            forall|j: int| 0 <= j < i ==> names_view(names@)[j] != x@,
        decreases names.len() - i,
    {
        if names[i] == *x {
            assert(names_view(names@)[i as int] == x@);
            return true;
        }
        i = i + 1;
    }
    false
}

/// Adds the atoms of `e` that `names` lacks to its end.
fn collect_atoms(e: &Expr, names: &mut Vec<String>)
    ensures
        names_view(old(names)@).len() <= names_view(final(names)@).len(),
        names_view(final(names)@).subrange(0, names_view(old(names)@).len() as int) == names_view(old(names)@),
        forall|x: Seq<char>| atoms(e@).contains(x) ==> names_view(final(names)@).contains(x),
        names_view(final(names)@).len() <= names_view(old(names)@).len() + size(e@),
        names_view(old(names)@).no_duplicates() ==> names_view(final(names)@).no_duplicates(),
    decreases e,
{
    let ghost start = names_view(names@);
    match e {
        Expr::Var { name } => {
            if !has_name(names, name) {
                names.push(name.clone());
                proof {
                    assert(names_view(names@) =~= start.push(name@));
                    assert(names_view(names@).subrange(0, start.len() as int) =~= start);
                    if start.no_duplicates() {
                        assert(names_view(names@).no_duplicates());
                    }
                    assert(names_view(names@)[start.len() as int] == name@);
                    assert(names_view(names@).contains(name@));
                }
            } else {
                assert(names_view(names@).subrange(0, start.len() as int) =~= start);
            }
            assert(atoms(e@) =~= set![name@]);
        },
        Expr::Not { operand } => {
            collect_atoms(operand, names);
            assert(atoms(e@) == atoms(operand@));
        },
        Expr::Impl { left, right } => {
            collect_atoms(left, names);
            let ghost mid = names_view(names@);
            collect_atoms(right, names);
            proof {
                let fin = names_view(names@);
                assert(fin.subrange(0, start.len() as int) =~= mid.subrange(0, start.len() as int));
                assert(e@ == (Formula::Impl { left: Box::new(left@), right: Box::new(right@) }));
                assert(atoms(e@) == atoms(left@).union(atoms(right@)));
                assert forall|x: Seq<char>| atoms(e@).contains(x) implies fin.contains(x) by {
                    if atoms(left@).contains(x) {
                        lemma_prefix_contains(mid, fin, x);
                    } else {
                        assert(atoms(right@).contains(x));
                    }
                }
            }
        },
        Expr::Assoc { op, exprs } => {
            collect_atoms_all(exprs, names);
            assert(atoms(e@) == atoms_seq(models(exprs@)));
        },
        _ => {
            assert(names_view(names@).subrange(0, start.len() as int) =~= start);
            assert(atoms(e@) =~= Set::<Seq<char>>::empty());
        },
    }
}

fn collect_atoms_all(exprs: &Vec<Expr>, names: &mut Vec<String>)
    ensures
        names_view(old(names)@).len() <= names_view(final(names)@).len(),
        names_view(final(names)@).subrange(0, names_view(old(names)@).len() as int) == names_view(old(names)@),
        forall|x: Seq<char>| atoms_seq(models(exprs@)).contains(x) ==> names_view(final(names)@).contains(x),
        names_view(final(names)@).len() <= names_view(old(names)@).len() + size_seq(models(exprs@)),
        names_view(old(names)@).no_duplicates() ==> names_view(final(names)@).no_duplicates(),
    decreases exprs,
{
    proof {
        lemma_models_index(exprs@);
    }
    let ghost start = names_view(names@);
    let mut i: usize = 0;
    assert(models(exprs@).subrange(0, 0) =~= Seq::<Formula>::empty());
    assert(names_view(names@).subrange(0, start.len() as int) =~= start);
    while i < exprs.len()
        invariant
            0 <= i <= exprs@.len(),
            models(exprs@).len() == exprs@.len(),
            forall|j: int| 0 <= j < exprs@.len() ==> #[trigger] models(exprs@)[j] == exprs@[j]@,
            start.len() <= names_view(names@).len(),
            names_view(names@).subrange(0, start.len() as int) == start,
            forall|x: Seq<char>| atoms_seq(models(exprs@).subrange(0, i as int)).contains(x) ==> names_view(names@).contains(x),
            names_view(names@).len() <= start.len() + size_seq(models(exprs@).subrange(0, i as int)),
            start.no_duplicates() ==> names_view(names@).no_duplicates(),
        decreases exprs.len() - i,
    {
        let ghost before = names_view(names@);
        collect_atoms(&exprs[i], names);
        proof {
            let fin = names_view(names@);
            let next = models(exprs@).subrange(0, i + 1);
            assert(next.drop_last() =~= models(exprs@).subrange(0, i as int));
            assert(next.last() == exprs@[i as int]@);
            assert(fin.subrange(0, start.len() as int) =~= before.subrange(0, start.len() as int));
            assert forall|x: Seq<char>| atoms_seq(next).contains(x) implies fin.contains(x) by {
                if atoms_seq(models(exprs@).subrange(0, i as int)).contains(x) {
                    lemma_prefix_contains(before, fin, x);
                } else {
                    assert(atoms(exprs@[i as int]@).contains(x));
                }
            }
        }
        i = i + 1;
    }
    assert(models(exprs@).subrange(0, exprs@.len() as int) =~= models(exprs@));
}

/// The clauses of `e` (if `pos`) or of its negation; `None` when `e` is not
/// propositional.
fn cnf_exec(e: &Expr, pos: bool, names: &Vec<String>) -> (r: Option<Vec<Vec<(usize, bool)>>>)
    ensures
        r is Some <==> propositional(e@),
        r is Some ==> clauses_view(r->0@) == cnf_of(e@, pos, names_view(names@)),
    decreases e,
{
    match e {
        Expr::Contra => {
            let mut v: Vec<Vec<(usize, bool)>> = Vec::new();
            if pos {
                v.push(Vec::new());
                assert(clause_view(v@[0]@) =~= Seq::<(int, bool)>::empty());
                assert(clauses_view(v@) =~= seq![Seq::<(int, bool)>::empty()]);
            } else {
                assert(clauses_view(v@) =~= Seq::<Clause>::empty());
            }
            Some(v)
        },
        Expr::Var { name } => {
            let i = index_of_exec(names, name);
            let mut c: Vec<(usize, bool)> = Vec::new();
            c.push((i, pos));
            let mut v: Vec<Vec<(usize, bool)>> = Vec::new();
            v.push(c);
            assert(clause_view(v@[0]@) =~= seq![(i as int, pos)]);
            assert(clauses_view(v@) =~= seq![seq![(index_of(names_view(names@), name@), pos)]]);
            Some(v)
        },
        Expr::Not { operand } => cnf_exec(operand, !pos, names),
        Expr::Impl { left, right } => {
            let l = cnf_exec(left, !pos, names)?;
            let r = cnf_exec(right, pos, names)?;
            if pos {
                Some(product_exec(&l, &r))
            } else {
                Some(concat_clauses(l, r))
            }
        },
        Expr::Assoc { op, exprs } => {
            match op {
                Op::And => if pos { all_of_exec(exprs, true, names) } else { any_of_exec(exprs, false, names) },
                Op::Or => if pos { any_of_exec(exprs, true, names) } else { all_of_exec(exprs, false, names) },
                Op::Bicon | Op::Equiv => {
                    if pos {
                        let a = all_of_exec(exprs, true, names)?;
                        let b = all_of_exec(exprs, false, names)?;
                        Some(product_exec(&a, &b))
                    } else {
                        let a = any_of_exec(exprs, true, names)?;
                        let b = any_of_exec(exprs, false, names)?;
                        Some(concat_clauses(a, b))
                    }
                },
                _ => None,
            }
        },
        _ => None,
    }
}

fn all_of_exec(v: &Vec<Expr>, pos: bool, names: &Vec<String>) -> (r: Option<Vec<Vec<(usize, bool)>>>)
    ensures
        r is Some <==> propositional_seq(models(v@)),
        r is Some ==> clauses_view(r->0@) == all_of(models(v@), pos, names_view(names@)),
    decreases v,
{
    proof {
        lemma_models_index(v@);
    }
    let mut acc: Vec<Vec<(usize, bool)>> = Vec::new();
    let mut i: usize = 0;
    assert(models(v@).subrange(0, 0) =~= Seq::<Formula>::empty());
    assert(clauses_view(acc@) =~= Seq::<Clause>::empty());
    while i < v.len()
        invariant
            0 <= i <= v@.len(),
            models(v@).len() == v@.len(),
            forall|j: int| 0 <= j < v@.len() ==> #[trigger] models(v@)[j] == v@[j]@,
            propositional_seq(models(v@).subrange(0, i as int)),
            clauses_view(acc@) == all_of(models(v@).subrange(0, i as int), pos, names_view(names@)),
        decreases v.len() - i,
    {
        proof {
            let next = models(v@).subrange(0, i + 1);
            assert(next.drop_last() =~= models(v@).subrange(0, i as int));
        }
        match cnf_exec(&v[i], pos, names) {
            Some(c) => {
                acc = concat_clauses(acc, c);
            },
            None => {
                proof {
                    lemma_propositional_seq_elem(models(v@), i as int);
                }
                return None;
            },
        }
        i = i + 1;
    }
    assert(models(v@).subrange(0, v@.len() as int) =~= models(v@));
    Some(acc)
}

fn any_of_exec(v: &Vec<Expr>, pos: bool, names: &Vec<String>) -> (r: Option<Vec<Vec<(usize, bool)>>>)
    ensures
        r is Some <==> propositional_seq(models(v@)),
        r is Some ==> clauses_view(r->0@) == any_of(models(v@), pos, names_view(names@)),
    decreases v,
{
    proof {
        lemma_models_index(v@);
    }
    let mut acc: Vec<Vec<(usize, bool)>> = Vec::new();
    acc.push(Vec::new());
    let mut i: usize = 0;
    assert(models(v@).subrange(0, 0) =~= Seq::<Formula>::empty());
    assert(clause_view(acc@[0]@) =~= Seq::<(int, bool)>::empty());
    assert(clauses_view(acc@) =~= seq![Seq::<(int, bool)>::empty()]);
    while i < v.len()
        invariant
            0 <= i <= v@.len(),
            models(v@).len() == v@.len(),
            forall|j: int| 0 <= j < v@.len() ==> #[trigger] models(v@)[j] == v@[j]@,
            propositional_seq(models(v@).subrange(0, i as int)),
            clauses_view(acc@) == any_of(models(v@).subrange(0, i as int), pos, names_view(names@)),
        decreases v.len() - i,
    {
        proof {
            let next = models(v@).subrange(0, i + 1);
            assert(next.drop_last() =~= models(v@).subrange(0, i as int));
        }
        match cnf_exec(&v[i], pos, names) {
            Some(c) => {
                acc = product_exec(&acc, &c);
            },
            None => {
                proof {
                    lemma_propositional_seq_elem(models(v@), i as int);
                }
                return None;
            },
        }
        i = i + 1;
    }
    assert(models(v@).subrange(0, v@.len() as int) =~= models(v@));
    Some(acc)
}

proof fn lemma_propositional_seq_elem(s: Seq<Formula>, i: int)
    requires
        0 <= i < s.len(),
        !propositional(s[i]),
    ensures
        !propositional_seq(s),
    decreases s.len(),
{
    if i < s.len() - 1 {
        lemma_propositional_seq_elem(s.drop_last(), i);
        assert(s.drop_last()[i] == s[i]);
    }
}

/// The conjunctive normal form of `e`: its clauses and the atom that each
/// variable index stands for; `None` when `e` uses quantifiers, arithmetic
/// or predicate application.
pub fn into_cnf(e: &Expr) -> (r: Option<(Vec<Vec<(usize, bool)>>, Vec<String>)>)
    ensures
        r is Some <==> propositional(e@),
        r is Some ==> clauses_view(r.unwrap().0@) == cnf_of(e@, true, names_view(r.unwrap().1@)),
        r is Some ==> forall|x: Seq<char>| atoms(e@).contains(x) ==> names_view(r.unwrap().1@).contains(x),
        r is Some ==> r.unwrap().1@.len() <= size(e@),
        r is Some ==> names_view(r.unwrap().1@).no_duplicates(),
        r is Some ==> lits_below(clauses_view(r.unwrap().0@), r.unwrap().1@.len() as int),
{
    let mut names: Vec<String> = Vec::new();
    assert(names_view(names@).no_duplicates());
    collect_atoms(e, &mut names);
    match cnf_exec(e, true, &names) {
        Some(c) => {
            proof {
                lemma_cnf_lits_below(e@, true, names_view(names@));
            }
            Some((c, names))
        },
        None => None,
    }
}

proof fn lemma_index_of_nodup(names: Seq<Seq<char>>, i: int)
    requires
        names.no_duplicates(),
        0 <= i < names.len(),
    ensures
        index_of(names, names[i]) == i,
    decreases names.len(),
{
    if i < names.len() - 1 {
        assert(names.last() != names[i]);
        assert(names.drop_last()[i] == names[i]);
        lemma_index_of_nodup(names.drop_last(), i);
    }
}

/// Clauses whose variables lie in `0..n` hold alike under assignments that
/// agree there.
pub proof fn lemma_eval_agree(cs: Seq<Clause>, n: int, v: spec_fn(int) -> bool, w: spec_fn(int) -> bool)
    requires
        lits_below(cs, n),
        forall|i: int| 0 <= i < n ==> #[trigger] v(i) == w(i),
    ensures
        eval_cnf(cs, v) == eval_cnf(cs, w),
{
    assert forall|k: int| 0 <= k < cs.len() implies clause_holds(#[trigger] cs[k], v) == clause_holds(cs[k], w) by {
        if clause_holds(cs[k], v) {
            let j = choose|j: int| 0 <= j < cs[k].len() && v((#[trigger] cs[k][j]).0) == cs[k][j].1;
            assert(w(cs[k][j].0) == cs[k][j].1);
        }
        if clause_holds(cs[k], w) {
            let j = choose|j: int| 0 <= j < cs[k].len() && w((#[trigger] cs[k][j]).0) == cs[k][j].1;
            assert(v(cs[k][j].0) == cs[k][j].1);
        }
    }
}

/// Every assignment to the variables of the clauses of `f` is one that some
/// truth assignment to its atoms gives.
pub proof fn lemma_assignment_from_atoms(f: Formula, names: Seq<Seq<char>>, v: spec_fn(int) -> bool, a: spec_fn(Seq<char>) -> bool)
    requires
        names.no_duplicates(),
        forall|x: Seq<char>| atoms(f).contains(x) ==> names.contains(x),
        forall|x: Seq<char>| #[trigger] a(x) == v(index_of(names, x)),
    ensures
        eval_cnf(cnf_of(f, true, names), v) == eval_cnf(cnf_of(f, true, names), through(names, a)),
{
    lemma_cnf_lits_below(f, true, names);
    assert forall|i: int| 0 <= i < names.len() implies #[trigger] v(i) == through(names, a)(i) by {
        lemma_index_of_nodup(names, i);
    }
    lemma_eval_agree(cnf_of(f, true, names), names.len() as int, v, through(names, a));
}

/// Whether every literal of `cs` has a variable index in `0..n`.
pub open spec fn lits_below(cs: Seq<Clause>, n: int) -> bool {
    forall|k: int, j: int| 0 <= k < cs.len() && 0 <= j < cs[k].len() ==> 0 <= (#[trigger] cs[k][j]).0 < n
}

proof fn lemma_lits_concat(a: Seq<Clause>, b: Seq<Clause>, n: int)
    requires
        lits_below(a, n),
        lits_below(b, n),
    ensures
        lits_below(a + b, n),
{
    assert forall|k: int, j: int| 0 <= k < (a + b).len() && 0 <= j < (a + b)[k].len() implies 0 <= (#[trigger] (a + b)[k][j]).0 < n by {
        if k < a.len() {
            assert((a + b)[k] == a[k]);
        } else {
            assert((a + b)[k] == b[k - a.len()]);
        }
    }
}

proof fn lemma_lits_product(a: Seq<Clause>, b: Seq<Clause>, n: int)
    requires
        lits_below(a, n),
        lits_below(b, n),
    ensures
        lits_below(product(a, b), n),
    decreases a.len(),
{
    if a.len() > 0 {
        let c = a.last();
        assert(lits_below(a.drop_last(), n)) by {
            assert forall|k: int, j: int| 0 <= k < a.drop_last().len() && 0 <= j < a.drop_last()[k].len() implies 0 <= (#[trigger] a.drop_last()[k][j]).0 < n by {
                assert(a.drop_last()[k] == a[k]);
            }
        }
        lemma_lits_product(a.drop_last(), b, n);
        let m = b.map_values(|d: Clause| c + d);
        assert forall|k: int, j: int| 0 <= k < m.len() && 0 <= j < m[k].len() implies 0 <= (#[trigger] m[k][j]).0 < n by {
            assert(m[k] == c + b[k]);
            assert(c == a[a.len() - 1]);
            if j < c.len() {
                assert(m[k][j] == c[j]);
            } else {
                assert(m[k][j] == b[k][j - c.len()]);
            }
        }
        lemma_lits_concat(product(a.drop_last(), b), m, n);
    }
}

proof fn lemma_cnf_lits_below(f: Formula, pos: bool, names: Seq<Seq<char>>)
    requires
        forall|x: Seq<char>| atoms(f).contains(x) ==> names.contains(x),
    ensures
        lits_below(cnf_of(f, pos, names), names.len() as int),
    decreases f,
{
    let n = names.len() as int;
    match f {
        Formula::Var { name } => {
            lemma_index_of(names, name);
            let cs = cnf_of(f, pos, names);
            assert(cs[0] == seq![(index_of(names, name), pos)]);
        },
        Formula::Not { operand } => lemma_cnf_lits_below(*operand, !pos, names),
        Formula::Impl { left, right } => {
            lemma_cnf_lits_below(*left, false, names);
            lemma_cnf_lits_below(*right, true, names);
            lemma_cnf_lits_below(*left, true, names);
            lemma_cnf_lits_below(*right, false, names);
            lemma_lits_product(cnf_of(*left, false, names), cnf_of(*right, true, names), n);
            lemma_lits_concat(cnf_of(*left, true, names), cnf_of(*right, false, names), n);
        },
        Formula::Assoc { op, exprs } => {
            lemma_all_of_lits(exprs, true, names);
            lemma_all_of_lits(exprs, false, names);
            lemma_any_of_lits(exprs, true, names);
            lemma_any_of_lits(exprs, false, names);
            lemma_lits_product(all_of(exprs, true, names), all_of(exprs, false, names), n);
            lemma_lits_concat(any_of(exprs, true, names), any_of(exprs, false, names), n);
        },
        Formula::Contra => {
            let cs = cnf_of(f, pos, names);
            if pos {
                assert(cs[0].len() == 0);
            }
        },
        _ => {},
    }
}

proof fn lemma_all_of_lits(s: Seq<Formula>, pos: bool, names: Seq<Seq<char>>)
    requires
        forall|x: Seq<char>| atoms_seq(s).contains(x) ==> names.contains(x),
    ensures
        lits_below(all_of(s, pos, names), names.len() as int),
    decreases s,
{
    if s.len() > 0 {
        lemma_all_of_lits(s.drop_last(), pos, names);
        lemma_cnf_lits_below(s.last(), pos, names);
        lemma_lits_concat(all_of(s.drop_last(), pos, names), cnf_of(s.last(), pos, names), names.len() as int);
    }
}

proof fn lemma_any_of_lits(s: Seq<Formula>, pos: bool, names: Seq<Seq<char>>)
    requires
        forall|x: Seq<char>| atoms_seq(s).contains(x) ==> names.contains(x),
    ensures
        lits_below(any_of(s, pos, names), names.len() as int),
    decreases s,
{
    if s.len() > 0 {
        lemma_any_of_lits(s.drop_last(), pos, names);
        lemma_cnf_lits_below(s.last(), pos, names);
        lemma_lits_product(any_of(s.drop_last(), pos, names), cnf_of(s.last(), pos, names), names.len() as int);
    } else {
        let cs = any_of(s, pos, names);
        assert(cs[0].len() == 0);
    }
}

} // verus!
