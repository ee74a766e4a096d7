//! Biconditional and equivalence introduction: the operands of the
//! conclusion must all imply each other through the cited premises and
//! subproofs.
use vstd::prelude::*;
use crate::expr::{Expr, Formula, Op, is_op, models, lemma_models_index, expr_eq, assoc_placeholder, impl_placeholder, var, or_like};
use crate::error::{ProofCheckError, CheckError, lemma_err_models_index, err_models};
use crate::prop_rules::err_is;
use crate::expr::{ph_assoc, ph_impl};
use crate::proofs::Proof;
use crate::lookup::dep_expr;
use crate::subproofs::{sole_premise, sole_premise_of};

verus! {

/// Whether `path` follows the edges `es` from its first node to its last.
pub open spec fn is_path(es: Seq<(usize, usize)>, path: Seq<usize>) -> bool {
    path.len() >= 1 && forall|i: int| 0 <= i < path.len() - 1 ==> es.contains((#[trigger] path[i], path[i + 1]))
}

/// Whether node `b` can be reached from node `a` along the edges `es`.
pub open spec fn reaches(es: Seq<(usize, usize)>, a: usize, b: usize) -> bool {
    exists|path: Seq<usize>| #[trigger] is_path(es, path) && path[0] == a && path.last() == b
}

proof fn lemma_reaches_self(es: Seq<(usize, usize)>, a: usize)
    ensures
        reaches(es, a, a),
{
    let q = seq![a];
    assert(is_path(es, q));
}

proof fn lemma_reaches_extend(es: Seq<(usize, usize)>, a: usize, m: usize, b: usize)
    requires
        reaches(es, a, m),
        es.contains((m, b)),
    ensures
        reaches(es, a, b),
{
    let q = choose|q: Seq<usize>| #[trigger] is_path(es, q) && q[0] == a && q.last() == m;
    let q2 = q.push(b);
    assert forall|i: int| 0 <= i < q2.len() - 1 implies es.contains((#[trigger] q2[i], q2[i + 1])) by {
        if i < q.len() - 1 {
            assert(q2[i] == q[i] && q2[i + 1] == q[i + 1]);
        }
    }
    assert(is_path(es, q2));
}

/// Whether `a` is an end of some edge of `es`.
pub open spec fn is_node(es: Seq<(usize, usize)>, a: usize) -> bool {
    exists|k: int| 0 <= k < es.len() && (es[k].0 == a || es[k].1 == a)
}

/// Relies on `petgraph::algo::tarjan_scc`, run on a `DiGraphMap` made from
/// the edges: it returns the strongly connected components of the graph,
/// whose nodes are the ends of the edges; each node is in one component.
#[verifier::external_body]
fn strongly_connected(es: &Vec<(usize, usize)>) -> (r: Vec<Vec<usize>>)
    ensures
        forall|k: int, i: int, j: int| 0 <= k < r@.len() && 0 <= i < r@[k]@.len() && 0 <= j < r@[k]@.len()
            ==> #[trigger] reaches(es@, r@[k]@[i], r@[k]@[j]),
        forall|a: usize, b: usize| is_node(es@, a) && is_node(es@, b) && reaches(es@, a, b) && reaches(es@, b, a)
            ==> exists|k: int| 0 <= k < r@.len() && #[trigger] r@[k]@.contains(a) && r@[k]@.contains(b),
        forall|k1: int, k2: int, a: usize| 0 <= k1 < r@.len() && 0 <= k2 < r@.len() && #[trigger] r@[k1]@.contains(a)
            && #[trigger] r@[k2]@.contains(a) ==> k1 == k2,
{
    let g = petgraph::graphmap::DiGraphMap::<usize, ()>::from_edges(es.iter().cloned());
    petgraph::algo::tarjan_scc(&g)
}

/// Whether the premises and subproofs imply `x` from `y` in one step: a
/// premise `op` lists both, a premise is `y -> x`, or a subproof with premise
/// `y` has a step `x`.
pub open spec fn implies_directly(p: &Proof, op: Op, deps: Seq<usize>, sdeps: Seq<usize>, y: Formula, x: Formula) -> bool {
    ||| exists|i: int| 0 <= i < deps.len() && is_op(#[trigger] dep_expr(p, deps, i), op)
            && dep_expr(p, deps, i)->exprs.contains(y) && dep_expr(p, deps, i)->exprs.contains(x)
    ||| exists|i: int| 0 <= i < deps.len() && #[trigger] dep_expr(p, deps, i) == (Formula::Impl { left: Box::new(y), right: Box::new(x) })
    ||| exists|j: int, k: int| 0 <= j < sdeps.len() && sole_premise(p, sdeps[j] as int) == Some(y)
            && 0 <= k < p.steps_of(sdeps[j] as int).len() && p.expr_at(#[trigger] p.steps_of(#[trigger] sdeps[j] as int)[k] as int) == Some(x)
}

/// Whether every premise is an application of `op` or an implication, and
/// every subproof has exactly one premise.
pub open spec fn well_shaped(p: &Proof, op: Op, deps: Seq<usize>, sdeps: Seq<usize>) -> bool {
    &&& forall|i: int| 0 <= i < deps.len() ==> is_op(#[trigger] dep_expr(p, deps, i), op) || dep_expr(p, deps, i) is Impl
    &&& forall|j: int| 0 <= j < sdeps.len() ==> (#[trigger] sole_premise(p, sdeps[j] as int)) is Some
}

/// Whether, through a table of nodes, the edges `es` are exactly the direct
/// implications.
pub open spec fn edges_match(p: &Proof, op: Op, deps: Seq<usize>, sdeps: Seq<usize>, nodes: Seq<Formula>, es: Seq<(usize, usize)>) -> bool {
    &&& forall|k: int| 0 <= k < es.len() ==> (#[trigger] es[k]).0 < nodes.len() && es[k].1 < nodes.len()
        && implies_directly(p, op, deps, sdeps, nodes[es[k].0 as int], nodes[es[k].1 as int])
}

/// Whether nodes `ia` and `ib` stand for operands `a` and `b` of `ce`, and
/// `ib` can be reached from `ia`.
pub open spec fn pair_at(ce: Seq<Formula>, nodes: Seq<Formula>, es: Seq<(usize, usize)>, a: int, b: int, ia: usize, ib: usize) -> bool {
    ia < nodes.len() && ib < nodes.len() && nodes[ia as int] == ce[a] && nodes[ib as int] == ce[b]
        && is_node(es, ia) && reaches(es, ia, ib)
}

/// Whether operand `b` of `ce` can be reached from operand `a`.
pub open spec fn pair_reached(ce: Seq<Formula>, nodes: Seq<Formula>, es: Seq<(usize, usize)>, a: int, b: int) -> bool {
    exists|ia: usize, ib: usize| #[trigger] pair_at(ce, nodes, es, a, b, ia, ib)
}

/// Whether every operand of `ce` can be reached from every other.
pub open spec fn all_pairs_reached(ce: Seq<Formula>, nodes: Seq<Formula>, es: Seq<(usize, usize)>) -> bool {
    forall|a: int, b: int| 0 <= a < ce.len() && 0 <= b < ce.len() ==> #[trigger] pair_reached(ce, nodes, es, a, b)
}

/// Whether the operands of `c` all imply each other through the premises
/// and subproofs, and these have the shapes the rule reads.
pub open spec fn mutually_implied(p: &Proof, op: Op, c: Formula, deps: Seq<usize>, sdeps: Seq<usize>) -> bool {
    &&& is_op(c, op)
    &&& well_shaped(p, op, deps, sdeps)
    &&& exists|nodes: Seq<Formula>, es: Seq<(usize, usize)>| #[trigger] edges_match(p, op, deps, sdeps, nodes, es)
        && all_pairs_reached(c->exprs, nodes, es)
}

/// The index of `e` in `nodes`, added at the end if it is not there.
fn node_index(nodes: &mut Vec<Expr>, e: &Expr) -> (r: usize)
    requires
        distinct_models(old(nodes)@),
    ensures
        distinct_models(final(nodes)@),
        r < final(nodes)@.len(),
        final(nodes)@[r as int]@ == e@,
        final(nodes)@.len() == old(nodes)@.len() || (final(nodes)@.len() == old(nodes)@.len() + 1 && r == old(nodes)@.len()),
        forall|i: int| 0 <= i < old(nodes)@.len() ==> #[trigger] final(nodes)@[i] == old(nodes)@[i],
{
    let mut i: usize = 0;
    while i < nodes.len()
        invariant
            0 <= i <= nodes@.len(),
            distinct_models(nodes@),
            forall|j: int| 0 <= j < i ==> nodes@[j]@ != e@,
        decreases nodes.len() - i,
    {
        if expr_eq(&nodes[i], e) {
            return i;
        }
        i = i + 1;
    }
    let ghost n0 = nodes@;
    nodes.push(e.clone());
    assert forall|a: int, b: int| 0 <= a < nodes@.len() && 0 <= b < nodes@.len() && a != b implies #[trigger] nodes@[a]@ != #[trigger] nodes@[b]@ by {
        if a < n0.len() && b < n0.len() {
            assert(nodes@[a] == n0[a] && nodes@[b] == n0[b]);
        }
    }
    nodes.len() - 1
}

/// Whether no two nodes have the same model.
pub open spec fn distinct_models(nodes: Seq<Expr>) -> bool {
    forall|a: int, b: int| 0 <= a < nodes.len() && 0 <= b < nodes.len() && a != b ==> #[trigger] nodes[a]@ != #[trigger] nodes[b]@
}

/// Whether some edge leads from a node for `y` to a node for `x`.
pub open spec fn has_edge(nodes: Seq<Expr>, es: Seq<(usize, usize)>, y: Formula, x: Formula) -> bool {
    exists|k: int| 0 <= k < es.len() && (#[trigger] es[k]).0 < nodes.len() && es[k].1 < nodes.len()
        && nodes[es[k].0 as int]@ == y && nodes[es[k].1 as int]@ == x
}

/// The models of a table of nodes.
pub open spec fn node_models(v: Seq<Expr>) -> Seq<Formula> {
    Seq::new(v.len(), |i: int| v[i]@)
}

/// Whether every node is an end of some edge.
pub open spec fn all_nodes_used(nodes: Seq<Expr>, es: Seq<(usize, usize)>) -> bool {
    forall|i: usize| i < nodes.len() ==> is_node(es, i)
}

/// Adds the edge from `y` to `x`.
fn add_edge(nodes: &mut Vec<Expr>, es: &mut Vec<(usize, usize)>, y: &Expr, x: &Expr,
    p: &Proof, op: Op, deps: Ghost<Seq<usize>>, sdeps: Ghost<Seq<usize>>)
    requires
        edges_match(p, op, deps@, sdeps@, node_models(old(nodes)@), old(es)@),
        all_nodes_used(old(nodes)@, old(es)@),
        implies_directly(p, op, deps@, sdeps@, y@, x@),
        distinct_models(old(nodes)@),
    ensures
        edges_match(p, op, deps@, sdeps@, node_models(final(nodes)@), final(es)@),
        all_nodes_used(final(nodes)@, final(es)@),
        distinct_models(final(nodes)@),
        has_edge(final(nodes)@, final(es)@, y@, x@),
        forall|a: Formula, b: Formula| has_edge(old(nodes)@, old(es)@, a, b) ==> #[trigger] has_edge(final(nodes)@, final(es)@, a, b),
        final(nodes)@.len() >= old(nodes)@.len(),
        forall|i: int| 0 <= i < old(nodes)@.len() ==> #[trigger] final(nodes)@[i] == old(nodes)@[i],
{
    let ghost n0 = nodes@;
    let ghost e0 = es@;
    let iy = node_index(nodes, y);
    let ix = node_index(nodes, x);
    es.push((iy, ix));
    proof {
        let nm = node_models(nodes@);
        assert forall|k: int| 0 <= k < es@.len() implies (#[trigger] es@[k]).0 < nm.len() && es@[k].1 < nm.len()
            && implies_directly(p, op, deps@, sdeps@, nm[es@[k].0 as int], nm[es@[k].1 as int]) by {
            if k < e0.len() {
                assert(es@[k] == e0[k]);
                assert(node_models(n0)[e0[k].0 as int] == nm[e0[k].0 as int]);
                assert(node_models(n0)[e0[k].1 as int] == nm[e0[k].1 as int]);
            }
        }
        assert forall|i: usize| i < nodes@.len() implies is_node(es@, i) by {
            if i < n0.len() {
                assert(is_node(e0, i));
                let k = choose|k: int| 0 <= k < e0.len() && (e0[k].0 == i || e0[k].1 == i);
                assert(es@[k] == e0[k]);
            } else {
                assert(i == iy || i == ix);
                assert(es@[e0.len() as int] == (iy, ix));
            }
        }
        assert(es@[e0.len() as int] == (iy, ix));
        assert(has_edge(nodes@, es@, y@, x@));
        assert forall|a: Formula, b: Formula| has_edge(n0, e0, a, b) implies #[trigger] has_edge(nodes@, es@, a, b) by {
            let k = choose|k: int| 0 <= k < e0.len() && (#[trigger] e0[k]).0 < n0.len() && e0[k].1 < n0.len()
                && n0[e0[k].0 as int]@ == a && n0[e0[k].1 as int]@ == b;
            assert(es@[k] == e0[k]);
            assert(nodes@[e0[k].0 as int] == n0[e0[k].0 as int]);
            assert(nodes@[e0[k].1 as int] == n0[e0[k].1 as int]);
        }
    }
}

/// The invariant of the graph under construction: its edges are direct
/// implications, its nodes are distinct ends of edges, and every pair in
/// `covered` has an edge.
pub open spec fn graph_inv(p: &Proof, op: Op, deps: Seq<usize>, sdeps: Seq<usize>, nodes: Seq<Expr>, es: Seq<(usize, usize)>, covered: Set<(Formula, Formula)>) -> bool {
    &&& edges_match(p, op, deps, sdeps, node_models(nodes), es)
    &&& all_nodes_used(nodes, es)
    &&& distinct_models(nodes)
    &&& forall|y: Formula, x: Formula| covered.contains((y, x)) ==> #[trigger] has_edge(nodes, es, y, x)
}

/// Whether the direct implications that premise `j` gives are in `covered`.
pub open spec fn dep_pairs_in(p: &Proof, op: Op, deps: Seq<usize>, j: int, covered: Set<(Formula, Formula)>) -> bool {
    let d = dep_expr(p, deps, j);
    &&& is_op(d, op) ==> forall|a: int, b: int| 0 <= a < d->exprs.len() && 0 <= b < d->exprs.len()
        ==> covered.contains((#[trigger] d->exprs[a], #[trigger] d->exprs[b]))
    &&& d is Impl ==> covered.contains((*d->left, *d->right))
}

/// Whether the direct implications that subproof `j` gives are in `covered`.
pub open spec fn sub_pairs_in(p: &Proof, sdeps: Seq<usize>, j: int, covered: Set<(Formula, Formula)>) -> bool {
    forall|k: int| 0 <= k < p.steps_of(sdeps[j] as int).len() && sole_premise(p, sdeps[j] as int) is Some
        && (#[trigger] p.expr_at(p.steps_of(sdeps[j] as int)[k] as int)) is Some
        ==> covered.contains((sole_premise(p, sdeps[j] as int)->0, p.expr_at(p.steps_of(sdeps[j] as int)[k] as int)->0))
}

proof fn lemma_cover_step(n0: Seq<Expr>, e0: Seq<(usize, usize)>, n1: Seq<Expr>, e1: Seq<(usize, usize)>,
    covered: Set<(Formula, Formula)>, y: Formula, x: Formula)
    requires
        forall|a: Formula, b: Formula| covered.contains((a, b)) ==> #[trigger] has_edge(n0, e0, a, b),
        forall|a: Formula, b: Formula| has_edge(n0, e0, a, b) ==> #[trigger] has_edge(n1, e1, a, b),
        has_edge(n1, e1, y, x),
    ensures
        forall|a: Formula, b: Formula| covered.insert((y, x)).contains((a, b)) ==> #[trigger] has_edge(n1, e1, a, b),
{
    assert forall|a: Formula, b: Formula| covered.insert((y, x)).contains((a, b)) implies #[trigger] has_edge(n1, e1, a, b) by {
        if (a, b) != (y, x) {
            assert(covered.contains((a, b)));
            assert(has_edge(n0, e0, a, b));
        }
    }
}

proof fn lemma_dep_pairs_grow(p: &Proof, op: Op, deps: Seq<usize>, j: int, c0: Set<(Formula, Formula)>, c1: Set<(Formula, Formula)>)
    requires
        dep_pairs_in(p, op, deps, j, c0),
        forall|pr: (Formula, Formula)| c0.contains(pr) ==> #[trigger] c1.contains(pr),
    ensures
        dep_pairs_in(p, op, deps, j, c1),
{
    let d = dep_expr(p, deps, j);
    if is_op(d, op) {
        assert forall|a: int, b: int| 0 <= a < d->exprs.len() && 0 <= b < d->exprs.len()
            implies c1.contains((#[trigger] d->exprs[a], #[trigger] d->exprs[b])) by {
            assert(c0.contains((d->exprs[a], d->exprs[b])));
        }
    }
}

proof fn lemma_sub_pairs_grow(p: &Proof, sdeps: Seq<usize>, j: int, c0: Set<(Formula, Formula)>, c1: Set<(Formula, Formula)>)
    requires
        sub_pairs_in(p, sdeps, j, c0),
        forall|pr: (Formula, Formula)| c0.contains(pr) ==> #[trigger] c1.contains(pr),
    ensures
        sub_pairs_in(p, sdeps, j, c1),
{
}

/// Every direct implication is covered once every premise and subproof is.
proof fn lemma_direct_covered(p: &Proof, op: Op, deps: Seq<usize>, sdeps: Seq<usize>, covered: Set<(Formula, Formula)>)
    requires
        forall|j: int| 0 <= j < deps.len() ==> #[trigger] dep_pairs_in(p, op, deps, j, covered),
        forall|j: int| 0 <= j < sdeps.len() ==> #[trigger] sub_pairs_in(p, sdeps, j, covered),
    ensures
        forall|y: Formula, x: Formula| #[trigger] implies_directly(p, op, deps, sdeps, y, x) ==> covered.contains((y, x)),
{
    assert forall|y: Formula, x: Formula| #[trigger] implies_directly(p, op, deps, sdeps, y, x) implies covered.contains((y, x)) by {
        if exists|i: int| 0 <= i < deps.len() && is_op(#[trigger] dep_expr(p, deps, i), op)
            && dep_expr(p, deps, i)->exprs.contains(y) && dep_expr(p, deps, i)->exprs.contains(x) {
            let i = choose|i: int| 0 <= i < deps.len() && is_op(#[trigger] dep_expr(p, deps, i), op)
                && dep_expr(p, deps, i)->exprs.contains(y) && dep_expr(p, deps, i)->exprs.contains(x);
            let d = dep_expr(p, deps, i);
            assert(dep_pairs_in(p, op, deps, i, covered));
            let a = choose|a: int| 0 <= a < d->exprs.len() && d->exprs[a] == y;
            let b = choose|b: int| 0 <= b < d->exprs.len() && d->exprs[b] == x;
            assert(covered.contains((d->exprs[a], d->exprs[b])));
        } else if exists|i: int| 0 <= i < deps.len() && #[trigger] dep_expr(p, deps, i) == (Formula::Impl { left: Box::new(y), right: Box::new(x) }) {
            let i = choose|i: int| 0 <= i < deps.len() && #[trigger] dep_expr(p, deps, i) == (Formula::Impl { left: Box::new(y), right: Box::new(x) });
            assert(dep_pairs_in(p, op, deps, i, covered));
        } else {
            let (j, k) = choose|j: int, k: int| 0 <= j < sdeps.len() && sole_premise(p, sdeps[j] as int) == Some(y)
                && 0 <= k < p.steps_of(sdeps[j] as int).len() && p.expr_at(#[trigger] p.steps_of(#[trigger] sdeps[j] as int)[k] as int) == Some(x);
            assert(sub_pairs_in(p, sdeps, j, covered));
        }
    }
}

/// A path in any graph of direct implications leads, in a graph that has an
/// edge for every direct implication and distinct nodes, from the node of
/// its first formula to the node of its last.
proof fn lemma_path_maps(n1: Seq<Formula>, e1: Seq<(usize, usize)>, path: Seq<usize>, nodes: Seq<Expr>, es: Seq<(usize, usize)>, i0: usize)
    requires
        forall|k: int| 0 <= k < e1.len() ==> (#[trigger] e1[k]).0 < n1.len() && e1[k].1 < n1.len()
            && has_edge(nodes, es, n1[e1[k].0 as int], n1[e1[k].1 as int]),
        is_path(e1, path),
        path[0] < n1.len(),
        distinct_models(nodes),
        i0 < nodes.len(),
        nodes[i0 as int]@ == n1[path[0] as int],
    ensures
        exists|iz: usize| iz < nodes.len() && nodes[iz as int]@ == n1[path.last() as int] && reaches(es, i0, iz),
    decreases path.len(),
{
    if path.len() == 1 {
        lemma_reaches_self(es, i0);
    } else {
        let prev = path.drop_last();
        assert(is_path(e1, prev)) by {
            assert forall|i: int| 0 <= i < prev.len() - 1 implies e1.contains((#[trigger] prev[i], prev[i + 1])) by {
                assert(e1.contains((path[i], path[i + 1])));
            }
        }
        lemma_path_maps(n1, e1, prev, nodes, es, i0);
        let im = choose|iz: usize| iz < nodes.len() && nodes[iz as int]@ == n1[prev.last() as int] && reaches(es, i0, iz);
        let u = path[path.len() - 2];
        let v = path.last();
        assert(e1.contains((u, v)));
        let ke = choose|ke: int| 0 <= ke < e1.len() && e1[ke] == (u, v);
        assert(has_edge(nodes, es, n1[u as int], n1[v as int]));
        let k = choose|k: int| 0 <= k < es.len() && (#[trigger] es[k]).0 < nodes.len() && es[k].1 < nodes.len()
            && nodes[es[k].0 as int]@ == n1[u as int] && nodes[es[k].1 as int]@ == n1[v as int];
        assert(es[k].0 == im);
        assert(es.contains((im, es[k].1)));
        lemma_reaches_extend(es, i0, im, es[k].1);
    }
}

/// Every operand of a mutually implied conclusion is a node of a graph that
/// has an edge for each direct implication.
proof fn lemma_operand_is_node(p: &Proof, op: Op, c: Formula, deps: Seq<usize>, sdeps: Seq<usize>, nodes: Seq<Expr>, es: Seq<(usize, usize)>, a: int)
    requires
        mutually_implied(p, op, c, deps, sdeps),
        0 <= a < c->exprs.len(),
        forall|y: Formula, x: Formula| #[trigger] implies_directly(p, op, deps, sdeps, y, x) ==> has_edge(nodes, es, y, x),
    ensures
        exists|n: int| 0 <= n < nodes.len() && nodes[n]@ == c->exprs[a],
{
    let (n1, e1) = choose|n1: Seq<Formula>, e1: Seq<(usize, usize)>| #[trigger] edges_match(p, op, deps, sdeps, n1, e1)
        && all_pairs_reached(c->exprs, n1, e1);
    assert(pair_reached(c->exprs, n1, e1, a, a));
    let (ia, ib) = choose|ia: usize, ib: usize| #[trigger] pair_at(c->exprs, n1, e1, a, a, ia, ib);
    let k = choose|k: int| 0 <= k < e1.len() && (e1[k].0 == ia || e1[k].1 == ia);
    assert(implies_directly(p, op, deps, sdeps, n1[e1[k].0 as int], n1[e1[k].1 as int]));
    assert(has_edge(nodes, es, n1[e1[k].0 as int], n1[e1[k].1 as int]));
    let k2 = choose|k2: int| 0 <= k2 < es.len() && (#[trigger] es[k2]).0 < nodes.len() && es[k2].1 < nodes.len()
        && nodes[es[k2].0 as int]@ == n1[e1[k].0 as int] && nodes[es[k2].1 as int]@ == n1[e1[k].1 as int];
    if e1[k].0 == ia {
        assert(nodes[es[k2].0 as int]@ == c->exprs[a]);
    } else {
        assert(nodes[es[k2].1 as int]@ == c->exprs[a]);
    }
}

/// The edges of a graph of direct implications map to edges of a graph that
/// has an edge for each direct implication.
proof fn lemma_edges_map(p: &Proof, op: Op, deps: Seq<usize>, sdeps: Seq<usize>,
    n1: Seq<Formula>, e1: Seq<(usize, usize)>, nodes: Seq<Expr>, es: Seq<(usize, usize)>)
    requires
        edges_match(p, op, deps, sdeps, n1, e1),
        forall|y: Formula, x: Formula| #[trigger] implies_directly(p, op, deps, sdeps, y, x) ==> has_edge(nodes, es, y, x),
    ensures
        forall|k: int| 0 <= k < e1.len() ==> (#[trigger] e1[k]).0 < n1.len() && e1[k].1 < n1.len()
            && has_edge(nodes, es, n1[e1[k].0 as int], n1[e1[k].1 as int]),
{
    assert forall|k: int| 0 <= k < e1.len() implies (#[trigger] e1[k]).0 < n1.len() && e1[k].1 < n1.len()
        && has_edge(nodes, es, n1[e1[k].0 as int], n1[e1[k].1 as int]) by {
        assert(implies_directly(p, op, deps, sdeps, n1[e1[k].0 as int], n1[e1[k].1 as int]));
    }
}

/// The nodes of operands reached from each other in one graph are reached
/// from each other in the other.
#[verifier::rlimit(60)]
proof fn lemma_pairs_map(ce: Seq<Formula>, n1: Seq<Formula>, e1: Seq<(usize, usize)>,
    nodes: Seq<Expr>, es: Seq<(usize, usize)>, idx: Seq<usize>)
    requires
        forall|k: int| 0 <= k < e1.len() ==> (#[trigger] e1[k]).0 < n1.len() && e1[k].1 < n1.len()
            && has_edge(nodes, es, n1[e1[k].0 as int], n1[e1[k].1 as int]),
        all_pairs_reached(ce, n1, e1),
        distinct_models(nodes),
        idx.len() == ce.len(),
        forall|t: int| 0 <= t < idx.len() ==> (#[trigger] idx[t]) < nodes.len() && nodes[idx[t] as int]@ == ce[t],
    ensures
        forall|x: int, y: int| 0 <= x < idx.len() && 0 <= y < idx.len() ==> reaches(es, #[trigger] idx[x], #[trigger] idx[y]),
{
    assert forall|x: int, y: int| 0 <= x < idx.len() && 0 <= y < idx.len() implies reaches(es, #[trigger] idx[x], #[trigger] idx[y]) by {
        assert(pair_reached(ce, n1, e1, x, y));
        let (ia, ib) = choose|ia: usize, ib: usize| #[trigger] pair_at(ce, n1, e1, x, y, ia, ib);
        let path = choose|path: Seq<usize>| #[trigger] is_path(e1, path) && path[0] == ia && path.last() == ib;
        lemma_path_maps(n1, e1, path, nodes, es, idx[x]);
        let iz = choose|iz: usize| iz < nodes.len() && nodes[iz as int]@ == n1[path.last() as int] && reaches(es, idx[x], iz);
        if iz != idx[y] {
            assert(nodes[iz as int]@ != nodes[idx[y] as int]@);
        }
    }
}

/// When the nodes of all operands reach each other, one component holds
/// them all.
proof fn lemma_one_component(es: Seq<(usize, usize)>, idx: Seq<usize>, sccs: Seq<Vec<usize>>)
    requires
        idx.len() > 0,
        forall|t: int| 0 <= t < idx.len() ==> is_node(es, #[trigger] idx[t]),
        forall|x: int, y: int| 0 <= x < idx.len() && 0 <= y < idx.len() ==> reaches(es, #[trigger] idx[x], #[trigger] idx[y]),
        forall|a: usize, b: usize| is_node(es, a) && is_node(es, b) && reaches(es, a, b) && reaches(es, b, a)
            ==> exists|k: int| 0 <= k < sccs.len() && #[trigger] sccs[k]@.contains(a) && sccs[k]@.contains(b),
        forall|k1: int, k2: int, a: usize| 0 <= k1 < sccs.len() && 0 <= k2 < sccs.len() && #[trigger] sccs[k1]@.contains(a)
            && #[trigger] sccs[k2]@.contains(a) ==> k1 == k2,
    ensures
        exists|k: int| 0 <= k < sccs.len() && holds_all(#[trigger] sccs[k]@, idx),
{
    let i0 = idx[0];
    assert(is_node(es, i0));
    assert(reaches(es, idx[0], idx[0]));
    let k0 = choose|k: int| 0 <= k < sccs.len() && #[trigger] sccs[k]@.contains(i0) && sccs[k]@.contains(i0);
    assert forall|u: int| 0 <= u < idx.len() implies #[trigger] sccs[k0]@.contains(idx[u]) by {
        let iu = idx[u];
        assert(is_node(es, iu));
        assert(reaches(es, idx[0], idx[u]));
        assert(reaches(es, idx[u], idx[0]));
        let k = choose|k: int| 0 <= k < sccs.len() && #[trigger] sccs[k]@.contains(i0) && sccs[k]@.contains(iu);
        assert(k == k0);
    }
    assert(holds_all(sccs[k0]@, idx));
}

/// Whether `comp` holds every element of `idx`.
pub open spec fn holds_all(comp: Seq<usize>, idx: Seq<usize>) -> bool {
    forall|u: int| 0 <= u < idx.len() ==> #[trigger] comp.contains(idx[u])
}

/// The errors of biconditional and equivalence introduction.
pub open spec fn intro_errors(p: &Proof, op: Op, c: Formula, deps: Seq<usize>, r: Result<(), ProofCheckError>) -> bool {
    &&& !is_op(c, op) ==> err_is(r, CheckError::ConclusionOfWrongForm(ph_assoc(op)))
    &&& is_op(c, op) && op == Op::Bicon && c->exprs.len() != 2 ==> err_is(r, CheckError::ConclusionOfWrongForm(ph_assoc(Op::Bicon)))
    &&& is_op(c, op) && (op == Op::Bicon ==> c->exprs.len() == 2) ==> forall|i: int| 0 <= i < deps.len()
        && !(is_op(#[trigger] dep_expr(p, deps, i), op) || dep_expr(p, deps, i) is Impl)
        && (forall|j: int| 0 <= j < i ==> is_op(dep_expr(p, deps, j), op) || dep_expr(p, deps, j) is Impl)
        ==> err_is(r, CheckError::OneOf(seq![
            CheckError::DepOfWrongForm(dep_expr(p, deps, i), ph_assoc(op)),
            CheckError::DepOfWrongForm(dep_expr(p, deps, i), ph_impl()),
        ]))
}

/// Checks that the operands of `conclusion`, an application of `op`, all
/// imply each other through the premises `ds` (the expressions of `deps`)
/// and the subproofs `sdeps`.
#[verifier::loop_isolation(false)]
pub fn check_mutual_implication(p: &Proof, op: Op, conclusion: &Expr, ds: &Vec<Expr>, deps: &Vec<usize>, sdeps: &Vec<usize>) -> (r: Result<(), ProofCheckError>)
    requires
        ds@.len() == deps@.len(),
        forall|i: int| 0 <= i < deps@.len() ==> #[trigger] ds@[i]@ == dep_expr(p, deps@, i),
        forall|j: int| 0 <= j < sdeps@.len() ==> #[trigger] sdeps@[j] < p.num_subproofs(),
    ensures
        r is Err ==> crate::error::err_wf(r->Err_0@),
        r is Ok ==> mutually_implied(p, op, conclusion@, deps@, sdeps@),
        r is Ok && op == Op::Bicon ==> conclusion@->exprs.len() == 2,
        mutually_implied(p, op, conclusion@, deps@, sdeps@) && (op == Op::Bicon ==> conclusion@->exprs.len() == 2) ==> r is Ok,
        intro_errors(p, op, conclusion@, deps@, r),
{
    let exprs = match conclusion {
        Expr::Assoc { op: o, exprs } => {
            if *o != op {
                return Err(ProofCheckError::ConclusionOfWrongForm(assoc_placeholder(op)));
            }
            exprs
        },
        _ => {
            return Err(ProofCheckError::ConclusionOfWrongForm(assoc_placeholder(op)));
        },
    };
    proof {
        lemma_models_index(exprs@);
    }
    if op == Op::Bicon && exprs.len() != 2 {
        return Err(ProofCheckError::ConclusionOfWrongForm(or_like(Op::Bicon, var("_"), var("_"))));
    }
    let ghost gd = deps@;
    let ghost gs = sdeps@;
    let mut nodes: Vec<Expr> = Vec::new();
    let mut es: Vec<(usize, usize)> = Vec::new();
    let ghost mut covered: Set<(Formula, Formula)> = Set::empty();
    let mut i: usize = 0;
    while i < ds.len()
        invariant
            0 <= i <= ds@.len(),
            graph_inv(p, op, gd, gs, nodes@, es@, covered),
            forall|j: int| 0 <= j < i ==> is_op(#[trigger] dep_expr(p, gd, j), op) || dep_expr(p, gd, j) is Impl,
            forall|j: int| 0 <= j < i ==> #[trigger] dep_pairs_in(p, op, gd, j, covered),
        decreases ds.len() - i,
    {
        assert(ds@[i as int]@ == dep_expr(p, gd, i as int));
        let ghost before = covered;
        match &ds[i] {
            Expr::Assoc { op: o, exprs: xs } if *o == op => {
                proof {
                    lemma_models_index(xs@);
                }
                let mut a: usize = 0;
                while a < xs.len()
                    invariant
                        0 <= a <= xs@.len(),
                        graph_inv(p, op, gd, gs, nodes@, es@, covered),
                        forall|pr: (Formula, Formula)| before.contains(pr) ==> #[trigger] covered.contains(pr),
                        forall|a1: int, b1: int| 0 <= a1 < a && 0 <= b1 < xs@.len() ==> covered.contains((#[trigger] models(xs@)[a1], #[trigger] models(xs@)[b1])),
                    decreases xs.len() - a,
                {
                    let mut b: usize = 0;
                    while b < xs.len()
                        invariant
                            0 <= a < xs@.len(),
                            0 <= b <= xs@.len(),
                            graph_inv(p, op, gd, gs, nodes@, es@, covered),
                            forall|pr: (Formula, Formula)| before.contains(pr) ==> #[trigger] covered.contains(pr),
                            forall|a1: int, b1: int| 0 <= a1 < a && 0 <= b1 < xs@.len() ==> covered.contains((#[trigger] models(xs@)[a1], #[trigger] models(xs@)[b1])),
                            forall|b1: int| 0 <= b1 < b ==> covered.contains((models(xs@)[a as int], #[trigger] models(xs@)[b1])),
                        decreases xs.len() - b,
                    {
                        proof {
                            assert(models(xs@)[a as int] == xs@[a as int]@);
                            assert(models(xs@)[b as int] == xs@[b as int]@);
                            assert(dep_expr(p, gd, i as int)->exprs.contains(xs@[a as int]@));
                            assert(dep_expr(p, gd, i as int)->exprs.contains(xs@[b as int]@));
                        }
                        let ghost n0 = nodes@;
                        let ghost e0 = es@;
                        add_edge(&mut nodes, &mut es, &xs[a], &xs[b], p, op, Ghost(gd), Ghost(gs));
                        proof {
                            lemma_cover_step(n0, e0, nodes@, es@, covered, xs@[a as int]@, xs@[b as int]@);
                            covered = covered.insert((xs@[a as int]@, xs@[b as int]@));
                        }
                        b = b + 1;
                    }
                    a = a + 1;
                }
                proof {
                    assert(dep_pairs_in(p, op, gd, i as int, covered));
                }
            },
            Expr::Impl { left, right } => {
                let ghost n0 = nodes@;
                let ghost e0 = es@;
                add_edge(&mut nodes, &mut es, left, right, p, op, Ghost(gd), Ghost(gs));
                proof {
                    lemma_cover_step(n0, e0, nodes@, es@, covered, left@, right@);
                    covered = covered.insert((left@, right@));
                    assert(dep_pairs_in(p, op, gd, i as int, covered));
                }
            },
            _ => {
                let mut errs: Vec<ProofCheckError> = Vec::new();
                errs.push(ProofCheckError::DepOfWrongForm(ds[i].clone(), assoc_placeholder(op)));
                errs.push(ProofCheckError::DepOfWrongForm(ds[i].clone(), impl_placeholder()));
                proof {
                    lemma_err_models_index(errs@);
                    assert(err_models(errs@) =~= seq![
                        CheckError::DepOfWrongForm(dep_expr(p, gd, i as int), ph_assoc(op)),
                        CheckError::DepOfWrongForm(dep_expr(p, gd, i as int), ph_impl()),
                    ]);
                    crate::error::lemma_flat_wf(err_models(errs@));
                }
                return Err(ProofCheckError::OneOf(errs));
            },
        }
        proof {
            assert forall|j: int| 0 <= j < i + 1 implies #[trigger] dep_pairs_in(p, op, gd, j, covered) by {
                if j < i {
                    lemma_dep_pairs_grow(p, op, gd, j, before, covered);
                }
            }
        }
        i = i + 1;
    }
    let mut j: usize = 0;
    while j < sdeps.len()
        invariant
            0 <= j <= sdeps@.len(),
            graph_inv(p, op, gd, gs, nodes@, es@, covered),
            forall|jj: int| 0 <= jj < ds@.len() ==> is_op(#[trigger] dep_expr(p, gd, jj), op) || dep_expr(p, gd, jj) is Impl,
            forall|jj: int| 0 <= jj < ds@.len() ==> #[trigger] dep_pairs_in(p, op, gd, jj, covered),
            forall|jj: int| 0 <= jj < j ==> (#[trigger] sole_premise(p, gs[jj] as int)) is Some,
            forall|jj: int| 0 <= jj < j ==> #[trigger] sub_pairs_in(p, gs, jj, covered),
        decreases sdeps.len() - j,
    {
        let s = sdeps[j];
        let prem = match sole_premise_of(p, s) {
            Some(e) => e,
            None => {
                return Err(ProofCheckError::Other(String::from_str("Each subproof must have exactly one premise.")));
            },
        };
        let steps = p.exprs(s);
        let ghost before = covered;
        let mut k: usize = 0;
        while k < steps.len()
            invariant
                0 <= j < sdeps@.len(),
                s == gs[j as int],
                sole_premise(p, s as int) == Some(prem@),
                steps@ == p.steps_of(s as int),
                0 <= k <= steps@.len(),
                graph_inv(p, op, gd, gs, nodes@, es@, covered),
                forall|pr: (Formula, Formula)| before.contains(pr) ==> #[trigger] covered.contains(pr),
                forall|k1: int| 0 <= k1 < k && (#[trigger] p.expr_at(steps@[k1] as int)) is Some ==> covered.contains((prem@, p.expr_at(steps@[k1] as int)->0)),
            decreases steps.len() - k,
        {
            match p.lookup_expr(steps[k]) {
                Some(e) => {
                    let ghost n0 = nodes@;
                    let ghost e0 = es@;
                    proof {
                        assert(implies_directly(p, op, gd, gs, prem@, e@)) by {
                            assert(p.steps_of(gs[j as int] as int)[k as int] == steps@[k as int]);
                        }
                    }
                    add_edge(&mut nodes, &mut es, &prem, &e, p, op, Ghost(gd), Ghost(gs));
                    proof {
                        lemma_cover_step(n0, e0, nodes@, es@, covered, prem@, e@);
                        covered = covered.insert((prem@, e@));
                    }
                },
                None => {},
            }
            k = k + 1;
        }
        proof {
            assert(sub_pairs_in(p, gs, j as int, covered));
            assert forall|jj: int| 0 <= jj < ds@.len() implies #[trigger] dep_pairs_in(p, op, gd, jj, covered) by {
                lemma_dep_pairs_grow(p, op, gd, jj, before, covered);
            }
            assert forall|jj: int| 0 <= jj < j implies #[trigger] sub_pairs_in(p, gs, jj, covered) by {
                lemma_sub_pairs_grow(p, gs, jj, before, covered);
            }
        }
        j = j + 1;
    }
    proof {
        lemma_direct_covered(p, op, gd, gs, covered);
    }
    let sccs = strongly_connected(&es);
    let mut idx: Vec<usize> = Vec::new();
    let mut a: usize = 0;
    while a < exprs.len()
        invariant
            0 <= a <= exprs@.len(),
            idx@.len() == a,
            forall|t: int| 0 <= t < a ==> (#[trigger] idx@[t]) < nodes@.len() && nodes@[idx@[t] as int]@ == exprs@[t]@,
        decreases exprs.len() - a,
    {
        let mut found: Option<usize> = None;
        let mut n: usize = 0;
        while n < nodes.len()
            invariant
                0 <= a < exprs@.len(),
                0 <= n <= nodes@.len(),
                found is Some ==> found->0 < nodes@.len() && nodes@[found->0 as int]@ == exprs@[a as int]@,
                found is None ==> forall|n2: int| 0 <= n2 < n ==> nodes@[n2]@ != exprs@[a as int]@,
            decreases nodes.len() - n,
        {
            if found.is_none() && expr_eq(&nodes[n], &exprs[a]) {
                found = Some(n);
            }
            n = n + 1;
        }
        match found {
            Some(n) => {
                idx.push(n);
            },
            None => {
                proof {
                    if mutually_implied(p, op, conclusion@, deps@, sdeps@) {
                        lemma_operand_is_node(p, op, conclusion@, deps@, sdeps@, nodes@, es@, a as int);
                        assert(models(exprs@)[a as int] == exprs@[a as int]@);
                    }
                }
                let mut m = String::from_str("Not all elements of the conclusion are mutually implied by the premises.\nThe expression ");
                let t = crate::text::to_text(&exprs[a]);
                m.append(t.as_str());
                m.append(" occurs in the conclusion, but not in any of the premises.");
                return Err(ProofCheckError::Other(m));
            },
        }
        a = a + 1;
    }
    if idx.len() == 0 {
        proof {
            let nm = node_models(nodes@);
            let ce = conclusion@->exprs;
            assert(all_pairs_reached(ce, nm, es@));
            assert(edges_match(p, op, deps@, sdeps@, nm, es@));
        }
        return Ok(());
    }
    let mut c: usize = 0;
    while c < sccs.len()
        invariant
            0 <= c <= sccs@.len(),
            idx@.len() > 0,
            forall|c1: int| 0 <= c1 < c ==> !holds_all(#[trigger] sccs@[c1]@, idx@),
        decreases sccs.len() - c,
    {
        let comp = &sccs[c];
        let mut all_in = true;
        let mut t: usize = 0;
        while t < idx.len()
            invariant
                0 <= c < sccs@.len(),
                comp@ == sccs@[c as int]@,
                0 <= t <= idx@.len(),
                all_in <==> forall|u: int| 0 <= u < t ==> comp@.contains(#[trigger] idx@[u]),
            decreases idx.len() - t,
        {
            let mut member = false;
            let mut q: usize = 0;
            while q < comp.len()
                invariant
                    0 <= q <= comp@.len(),
                    0 <= t < idx@.len(),
                    member ==> comp@.contains(idx@[t as int]),
                    !member ==> forall|q2: int| 0 <= q2 < q ==> comp@[q2] != idx@[t as int],
                decreases comp.len() - q,
            {
                if comp[q] == idx[t] {
                    member = true;
                }
                q = q + 1;
            }
            if !member {
                all_in = false;
            }
            t = t + 1;
        }
        if all_in {
            proof {
                let nm = node_models(nodes@);
                let ce = conclusion@->exprs;
                assert forall|x: int, y: int| 0 <= x < ce.len() && 0 <= y < ce.len() implies #[trigger] pair_reached(ce, nm, es@, x, y) by {
                    let ia = idx@[x];
                    let ib = idx@[y];
                    assert(comp@.contains(ia));
                    assert(comp@.contains(ib));
                    let pa = choose|pa: int| 0 <= pa < comp@.len() && comp@[pa] == ia;
                    let pb = choose|pb: int| 0 <= pb < comp@.len() && comp@[pb] == ib;
                    assert(reaches(es@, sccs@[c as int]@[pa], sccs@[c as int]@[pb]));
                    assert(models(exprs@)[x] == exprs@[x]@);
                    assert(models(exprs@)[y] == exprs@[y]@);
                    assert(nm[ia as int] == nodes@[ia as int]@);
                    assert(nm[ib as int] == nodes@[ib as int]@);
                    assert(all_nodes_used(nodes@, es@));
                    assert(is_node(es@, ia));
                    assert(pair_at(ce, nm, es@, x, y, ia, ib));
                }
                assert(edges_match(p, op, deps@, sdeps@, nm, es@));
                assert(all_pairs_reached(ce, nm, es@));
                assert(is_op(conclusion@, op));
                assert(well_shaped(p, op, deps@, sdeps@));
                assert(mutually_implied(p, op, conclusion@, deps@, sdeps@));
            }
            return Ok(());
        }
        proof {
            assert(!holds_all(sccs@[c as int]@, idx@));
        }
        c = c + 1;
    }
    proof {
        if mutually_implied(p, op, conclusion@, deps@, sdeps@) {
            let ce = conclusion@->exprs;
            let (n1, e1) = choose|n1: Seq<Formula>, e1: Seq<(usize, usize)>| #[trigger] edges_match(p, op, deps@, sdeps@, n1, e1)
                && all_pairs_reached(ce, n1, e1);
            lemma_edges_map(p, op, deps@, sdeps@, n1, e1, nodes@, es@);
            assert forall|t: int| 0 <= t < idx@.len() implies (#[trigger] idx@[t]) < nodes@.len() && nodes@[idx@[t] as int]@ == ce[t] by {
                assert(models(exprs@)[t] == exprs@[t]@);
            }
            lemma_pairs_map(ce, n1, e1, nodes@, es@, idx@);
            assert forall|t: int| 0 <= t < idx@.len() implies is_node(es@, #[trigger] idx@[t]) by {
                assert(all_nodes_used(nodes@, es@));
            }
            lemma_one_component(es@, idx@, sccs@);
        }
    }
    Err(ProofCheckError::Other(String::from_str("Not all elements of the conclusion are mutually implied by the premises.")))
}

} // verus!
