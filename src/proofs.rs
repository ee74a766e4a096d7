//! Proofs as arenas of lines and nested subproofs, addressed by index.
use vstd::prelude::*;
use crate::expr::{Expr, Formula};
use crate::rules::Rule;

verus! {

/// A step: a conclusion justified by a rule from earlier lines (`deps`) and
/// subproofs (`sdeps`).
pub struct Justification {
    pub conclusion: Expr,
    pub rule: Rule,
    pub deps: Vec<usize>,
    pub sdeps: Vec<usize>,
}

/// What a line holds.
pub enum LineKind {
    Premise(Expr),
    Step(Justification),
}

/// A line, and the subproof that it stands in directly.
pub struct ProofLine {
    pub owner: usize,
    pub kind: LineKind,
}

/// A proof. Lines and subproofs live in two arenas: a line reference is an
/// index of the first, a subproof reference an index of the second.
/// Subproof 0 is the top level; every other subproof is nested in one with a
/// smaller index.
pub struct Proof {
    lines: Vec<ProofLine>,
    parents: Vec<usize>,
}

impl Proof {
    pub closed spec fn line_seq(&self) -> Seq<ProofLine> {
        self.lines@
    }

    pub closed spec fn parent_seq(&self) -> Seq<usize> {
        self.parents@
    }

    pub open spec fn num_lines(&self) -> nat {
        self.line_seq().len()
    }

    pub open spec fn num_subproofs(&self) -> nat {
        self.parent_seq().len()
    }

    /// Every subproof but the top level is nested in an earlier one, and every
    /// line stands in an existing subproof.
    pub open spec fn wf(&self) -> bool {
        &&& self.num_subproofs() >= 1
        &&& forall|s: int| 0 < s < self.num_subproofs() ==> #[trigger] self.parent_seq()[s] < s
        &&& forall|l: int| 0 <= l < self.num_lines() ==> #[trigger] self.line_seq()[l].owner < self.num_subproofs()
    }

    /// Whether subproof `inner` is `outer` or is nested in it, at any depth.
    pub open spec fn within(&self, inner: int, outer: int) -> bool
        decreases inner,
    {
        if inner == outer {
            true
        } else if 0 < inner < self.num_subproofs() && self.parent_seq()[inner] < inner {
            self.within(self.parent_seq()[inner] as int, outer)
        } else {
            false
        }
    }

    /// The lines inside subproof `s`, at any depth.
    pub open spec fn contained(&self, s: int) -> Set<usize> {
        Set::new(|l: usize| l < self.num_lines() && self.within(self.line_seq()[l as int].owner as int, s))
    }

    /// The expression on line `r`, if there is such a line.
    pub open spec fn expr_at(&self, r: int) -> Option<Formula> {
        if 0 <= r < self.num_lines() {
            match self.line_seq()[r].kind {
                LineKind::Premise(e) => Some(e@),
                LineKind::Step(j) => Some(j.conclusion@),
            }
        } else {
            None
        }
    }

    pub open spec fn is_premise(&self, r: int) -> bool {
        0 <= r < self.num_lines() && self.line_seq()[r].kind is Premise
    }

    /// Premise lines that stand directly in subproof `s`, among the first `n` lines.
    pub open spec fn premises_upto(&self, s: int, n: int) -> Seq<usize>
        decreases n,
    {
        if n <= 0 || n > self.num_lines() {
            Seq::empty()
        } else if self.line_seq()[n - 1].owner == s && self.is_premise(n - 1) {
            self.premises_upto(s, n - 1).push((n - 1) as usize)
        } else {
            self.premises_upto(s, n - 1)
        }
    }

    /// The premises of subproof `s`, in order.
    pub open spec fn premises_of(&self, s: int) -> Seq<usize> {
        self.premises_upto(s, self.num_lines() as int)
    }

    /// Step lines that stand directly in subproof `s`, among the first `n` lines.
    pub open spec fn steps_upto(&self, s: int, n: int) -> Seq<usize>
        decreases n,
    {
        if n <= 0 || n > self.num_lines() {
            Seq::empty()
        } else if self.line_seq()[n - 1].owner == s && !self.is_premise(n - 1) {
            self.steps_upto(s, n - 1).push((n - 1) as usize)
        } else {
            self.steps_upto(s, n - 1)
        }
    }

    /// The steps that stand directly in subproof `s`, in order.
    pub open spec fn steps_of(&self, s: int) -> Seq<usize> {
        self.steps_upto(s, self.num_lines() as int)
    }

    /// The lines that line `r` depends on in one step: its direct
    /// dependencies, and every line inside the subproofs that it cites.
    pub open spec fn succ(&self, r: int) -> Set<usize> {
        if 0 <= r < self.num_lines() {
            match self.line_seq()[r].kind {
                LineKind::Premise(_) => Set::empty(),
                LineKind::Step(j) => Set::new(
                    |l: usize|
                        l < self.num_lines() && (j.deps@.contains(l) || exists|i: int|
                            0 <= i < j.sdeps@.len() && #[trigger] self.contained(j.sdeps@[i] as int).contains(l)),
                ),
            }
        } else {
            Set::empty()
        }
    }

    /// Whether line `t` is reached from line `r` in `k + 1` dependency steps.
    pub open spec fn reaches_in(&self, r: int, t: int, k: nat) -> bool
        decreases k,
    {
        if k == 0 {
            0 <= t < self.num_lines() && self.succ(r).contains(t as usize)
        } else {
            0 <= t < self.num_lines() && exists|u: int| 0 <= u < self.num_lines() && self.reaches_in(r, u, (k - 1) as nat) && #[trigger] self.succ(u).contains(t as usize)
        }
    }

    /// Whether line `r` depends on line `t`, directly or through other lines.
    pub open spec fn depends_on(&self, r: int, t: int) -> bool {
        exists|k: nat| self.reaches_in(r, t, k)
    }

    /// An empty proof: only the top-level subproof, with no lines.
    pub fn new() -> (p: Proof)
        ensures
            p.wf(),
            p.num_lines() == 0,
            p.num_subproofs() == 1,
    {
        let mut parents: Vec<usize> = Vec::new();
        parents.push(0);
        Proof { lines: Vec::new(), parents }
    }

    /// Adds a premise at the end of subproof `s`; returns its line.
    pub fn add_premise(&mut self, s: usize, e: Expr) -> (r: usize)
        requires
            old(self).wf(),
            s < old(self).num_subproofs(),
        ensures
            final(self).wf(),
            r == old(self).num_lines(),
            final(self).num_lines() == old(self).num_lines() + 1,
            final(self).parent_seq() == old(self).parent_seq(),
            final(self).line_seq() == old(self).line_seq().push(ProofLine { owner: s, kind: LineKind::Premise(e) }),
    {
        let r = self.lines.len();
        self.lines.push(ProofLine { owner: s, kind: LineKind::Premise(e) });
        r
    }

    /// Adds a step at the end of subproof `s`; returns its line.
    pub fn add_step(&mut self, s: usize, conclusion: Expr, rule: Rule, deps: Vec<usize>, sdeps: Vec<usize>) -> (r: usize)
        requires
            old(self).wf(),
            s < old(self).num_subproofs(),
        ensures
            final(self).wf(),
            r == old(self).num_lines(),
            final(self).parent_seq() == old(self).parent_seq(),
            final(self).line_seq() == old(self).line_seq().push(ProofLine {
                owner: s,
                kind: LineKind::Step(Justification { conclusion, rule, deps, sdeps }),
            }),
    {
        let r = self.lines.len();
        self.lines.push(ProofLine {
            owner: s,
            kind: LineKind::Step(Justification { conclusion, rule, deps, sdeps }),
        });
        r
    }

    /// Opens a new subproof at the end of subproof `s`; returns its reference.
    pub fn add_subproof(&mut self, s: usize) -> (r: usize)
        requires
            old(self).wf(),
            s < old(self).num_subproofs(),
            old(self).num_subproofs() < usize::MAX,
        ensures
            final(self).wf(),
            r == old(self).num_subproofs(),
            final(self).line_seq() == old(self).line_seq(),
            final(self).parent_seq() == old(self).parent_seq().push(s),
    {
        let r = self.parents.len();
        self.parents.push(s);
        r
    }

    /// How many lines the proof has.
    pub fn line_count(&self) -> (n: usize)
        ensures
            n == self.num_lines(),
    {
        self.lines.len()
    }

    /// How many subproofs the proof has, the top level included.
    pub fn subproof_count(&self) -> (n: usize)
        ensures
            n == self.num_subproofs(),
    {
        self.parents.len()
    }

    /// The expression on line `r`, if there is such a line.
    pub fn lookup_expr(&self, r: usize) -> (e: Option<Expr>)
        ensures
            e.is_some() == self.expr_at(r as int).is_some(),
            e.is_some() ==> self.expr_at(r as int) == Some(e.unwrap()@),
    {
        if r < self.lines.len() {
            match &self.lines[r].kind {
                LineKind::Premise(e) => Some(e.clone()),
                LineKind::Step(j) => Some(j.conclusion.clone()),
            }
        } else {
            None
        }
    }

    /// The justification of line `r`, if it is a step.
    pub fn justification(&self, r: usize) -> (j: Option<&Justification>)
        ensures
            j is Some <==> (0 <= r < self.num_lines() && self.line_seq()[r as int].kind is Step),
            j is Some ==> self.line_seq()[r as int].kind == LineKind::Step(*j->0),
    {
        if r < self.lines.len() {
            match &self.lines[r].kind {
                LineKind::Step(j) => Some(j),
                LineKind::Premise(_) => None,
            }
        } else {
            None
        }
    }

    /// The subproof that subproof `s` is nested in directly.
    pub fn parent(&self, s: usize) -> (p: usize)
        requires
            self.wf(),
            0 < s < self.num_subproofs(),
        ensures
            p == self.parent_seq()[s as int],
            p < s,
    {
        self.parents[s]
    }

    /// Whether subproof `inner` is `outer` or is nested in it.
    pub fn is_within(&self, inner: usize, outer: usize) -> (b: bool)
        ensures
            b == self.within(inner as int, outer as int),
    {
        let mut cur: usize = inner;
        while cur != outer
            invariant
                self.within(inner as int, outer as int) == self.within(cur as int, outer as int),
            decreases cur,
        {
            if 0 < cur && cur < self.parents.len() && self.parents[cur] < cur {
                cur = self.parents[cur];
            } else {
                return false;
            }
        }
        true
    }

    /// The premises of subproof `s`, in order.
    pub fn premises(&self, s: usize) -> (v: Vec<usize>)
        ensures
            v@ == self.premises_of(s as int),
    {
        let mut v: Vec<usize> = Vec::new();
        let mut i: usize = 0;
        while i < self.lines.len()
            invariant
                0 <= i <= self.num_lines(),
                v@ == self.premises_upto(s as int, i as int),
            decreases self.lines.len() - i,
        {
            let is_prem = match &self.lines[i].kind {
                LineKind::Premise(_) => true,
                LineKind::Step(_) => false,
            };
            if self.lines[i].owner == s && is_prem {
                v.push(i);
            }
            i = i + 1;
        }
        v
    }

    /// The steps that stand directly in subproof `s`, in order.
    pub fn exprs(&self, s: usize) -> (v: Vec<usize>)
        ensures
            v@ == self.steps_of(s as int),
    {
        let mut v: Vec<usize> = Vec::new();
        let mut i: usize = 0;
        while i < self.lines.len()
            invariant
                0 <= i <= self.num_lines(),
                v@ == self.steps_upto(s as int, i as int),
            decreases self.lines.len() - i,
        {
            let is_prem = match &self.lines[i].kind {
                LineKind::Premise(_) => true,
                LineKind::Step(_) => false,
            };
            if self.lines[i].owner == s && !is_prem {
                v.push(i);
            }
            i = i + 1;
        }
        v
    }

    /// Every line inside subproof `s`, at any depth, as a membership table
    /// indexed by line.
    pub fn contained_justifications(&self, s: usize) -> (v: Vec<bool>)
        ensures
            v@.len() == self.num_lines(),
            forall|l: int| 0 <= l < v@.len() ==> #[trigger] v@[l] == self.contained(s as int).contains(l as usize),
    {
        let mut v: Vec<bool> = Vec::new();
        let mut i: usize = 0;
        while i < self.lines.len()
            invariant
                0 <= i <= self.num_lines(),
                v@.len() == i,
                forall|l: int| 0 <= l < i ==> #[trigger] v@[l] == self.contained(s as int).contains(l as usize),
            decreases self.lines.len() - i,
        {
            let b = self.is_within(self.lines[i].owner, s);
            v.push(b);
            i = i + 1;
        }
        v
    }
}

/// How many entries of `s` are `false`.
pub open spec fn count_false(s: Seq<bool>) -> nat
    decreases s.len(),
{
    if s.len() == 0 {
        0
    } else {
        count_false(s.drop_last()) + if s.last() { 0nat } else { 1nat }
    }
}

proof fn lemma_count_false_mark(s: Seq<bool>, i: int)
    requires
        0 <= i < s.len(),
        !s[i],
    ensures
        count_false(s.update(i, true)) + 1 == count_false(s),
    decreases s.len(),
{
    if i < s.len() - 1 {
        lemma_count_false_mark(s.drop_last(), i);
        assert(s.update(i, true).drop_last() =~= s.drop_last().update(i, true));
    } else {
        assert(s.update(i, true).drop_last() =~= s.drop_last());
    }
}

impl Proof {
    proof fn lemma_depends_step(&self, r: int, t: int, x: int)
        requires
            0 <= t < self.num_lines(),
            0 <= x < self.num_lines(),
            self.depends_on(r, t),
            self.succ(t).contains(x as usize),
        ensures
            self.depends_on(r, x),
    {
        let k = choose|k: nat| self.reaches_in(r, t, k);
        assert(self.reaches_in(r, x, k + 1));
    }

    /// The lines that step `t` depends on in one step, spelled out.
    proof fn lemma_succ_of_step(&self, t: int, j: Justification)
        requires
            0 <= t < self.num_lines(),
            self.line_seq()[t].kind == LineKind::Step(j),
        ensures
            forall|x: usize| #[trigger] self.succ(t).contains(x) <==> (x < self.num_lines() && (j.deps@.contains(x) || exists|i: int|
                0 <= i < j.sdeps@.len() && #[trigger] self.contained(j.sdeps@[i] as int).contains(x))),
    {
    }

    /// Marks every line of `succ(t)`.
    fn mark_succ(&self, t: usize, visited: &mut Vec<bool>)
        requires
            t < self.num_lines(),
            old(visited)@.len() == self.num_lines(),
        ensures
            final(visited)@.len() == self.num_lines(),
            forall|x: int| 0 <= x < final(visited)@.len() && #[trigger] old(visited)@[x] ==> final(visited)@[x],
            forall|x: int| 0 <= x < final(visited)@.len() && #[trigger] self.succ(t as int).contains(x as usize) ==> final(visited)@[x],
            forall|x: int| 0 <= x < final(visited)@.len() && #[trigger] final(visited)@[x] ==> old(visited)@[x] || self.succ(t as int).contains(x as usize),
            count_false(final(visited)@) <= count_false(old(visited)@),
    {
        let n = self.lines.len();
        let ghost succ = self.succ(t as int);
        match &self.lines[t].kind {
            LineKind::Premise(_) => {},
            LineKind::Step(j) => {
                proof {
                    self.lemma_succ_of_step(t as int, *j);
                }
                let mut i: usize = 0;
                while i < j.deps.len()
                    invariant
                        n == self.num_lines(),
                        succ == self.succ(t as int),
                        forall|x: usize| #[trigger] succ.contains(x) <==> (x < n && (j.deps@.contains(x) || exists|i: int|
                            0 <= i < j.sdeps@.len() && #[trigger] self.contained(j.sdeps@[i] as int).contains(x))),
                        visited@.len() == n,
                        0 <= i <= j.deps.len(),
                        forall|a: int| 0 <= a < i && j.deps@[a] < n ==> visited@[j.deps@[a] as int],
                        forall|x: int| 0 <= x < n && #[trigger] old(visited)@[x] ==> visited@[x],
                        forall|x: int| 0 <= x < n && #[trigger] visited@[x] ==> old(visited)@[x] || succ.contains(x as usize),
                        count_false(visited@) <= count_false(old(visited)@),
                    decreases j.deps.len() - i,
                {
                    let d = j.deps[i];
                    if d < n && !visited[d] {
                        proof {
                            lemma_count_false_mark(visited@, d as int);
                            assert(j.deps@.contains(d));
                            assert(succ.contains(d));
                        }
                        visited.set(d, true);
                    }
                    i = i + 1;
                }
                let mut k: usize = 0;
                while k < j.sdeps.len()
                    invariant
                        n == self.num_lines(),
                        succ == self.succ(t as int),
                        forall|x: usize| #[trigger] succ.contains(x) <==> (x < n && (j.deps@.contains(x) || exists|i: int|
                            0 <= i < j.sdeps@.len() && #[trigger] self.contained(j.sdeps@[i] as int).contains(x))),
                        visited@.len() == n,
                        0 <= k <= j.sdeps.len(),
                        forall|a: int| 0 <= a < j.deps@.len() && j.deps@[a] < n ==> visited@[j.deps@[a] as int],
                        forall|a: int, l: int| 0 <= a < k && 0 <= l < n && #[trigger] self.contained(j.sdeps@[a] as int).contains(l as usize) ==> visited@[l],
                        forall|x: int| 0 <= x < n && #[trigger] old(visited)@[x] ==> visited@[x],
                        forall|x: int| 0 <= x < n && #[trigger] visited@[x] ==> old(visited)@[x] || succ.contains(x as usize),
                        count_false(visited@) <= count_false(old(visited)@),
                    decreases j.sdeps.len() - k,
                {
                    let c = self.contained_justifications(j.sdeps[k]);
                    let mut l: usize = 0;
                    while l < n
                        invariant
                            n == self.num_lines(),
                            succ == self.succ(t as int),
                            forall|x: usize| #[trigger] succ.contains(x) <==> (x < n && (j.deps@.contains(x) || exists|i: int|
                                0 <= i < j.sdeps@.len() && #[trigger] self.contained(j.sdeps@[i] as int).contains(x))),
                            visited@.len() == n,
                            c@.len() == n,
                            0 <= k < j.sdeps.len(),
                            forall|m: int| 0 <= m < n ==> #[trigger] c@[m] == self.contained(j.sdeps@[k as int] as int).contains(m as usize),
                            0 <= l <= n,
                            forall|a: int| 0 <= a < j.deps@.len() && j.deps@[a] < n ==> visited@[j.deps@[a] as int],
                            forall|a: int, m: int| 0 <= a < k && 0 <= m < n && #[trigger] self.contained(j.sdeps@[a] as int).contains(m as usize) ==> visited@[m],
                            forall|m: int| 0 <= m < l && c@[m] ==> visited@[m],
                            forall|x: int| 0 <= x < n && #[trigger] old(visited)@[x] ==> visited@[x],
                            forall|x: int| 0 <= x < n && #[trigger] visited@[x] ==> old(visited)@[x] || succ.contains(x as usize),
                            count_false(visited@) <= count_false(old(visited)@),
                        decreases n - l,
                    {
                        if c[l] && !visited[l] {
                            proof {
                                lemma_count_false_mark(visited@, l as int);
                                assert(self.contained(j.sdeps@[k as int] as int).contains(l as usize));
                                assert(succ.contains(l as usize));
                            }
                            visited.set(l, true);
                        }
                        l = l + 1;
                    }
                    assert forall|a: int, m: int| 0 <= a < k + 1 && 0 <= m < n && #[trigger] self.contained(j.sdeps@[a] as int).contains(m as usize) implies visited@[m] by {
                        if a == k as int {
                            assert(c@[m] == self.contained(j.sdeps@[k as int] as int).contains(m as usize));
                        }
                    }
                    k = k + 1;
                }
                assert forall|x: int| 0 <= x < visited@.len() && #[trigger] succ.contains(x as usize) implies visited@[x] by {
                    if !j.deps@.contains(x as usize) {
                        let a = choose|a: int| 0 <= a < j.sdeps@.len() && #[trigger] self.contained(j.sdeps@[a] as int).contains(x as usize);
                    } else {
                        let a = choose|a: int| 0 <= a < j.deps@.len() && j.deps@[a] == x as usize;
                    }
                }
            },
        }
    }

    /// The first line that is marked and not yet expanded, if any.
    fn next_pending(visited: &Vec<bool>, expanded: &Vec<bool>) -> (r: Option<usize>)
        requires
            visited@.len() == expanded@.len(),
        ensures
            r.is_some() ==> r.unwrap() < visited@.len() && visited@[r.unwrap() as int] && !expanded@[r.unwrap() as int],
            r.is_none() ==> forall|x: int| 0 <= x < visited@.len() && #[trigger] visited@[x] ==> expanded@[x],
    {
        let mut i: usize = 0;
        while i < visited.len()
            invariant
                visited@.len() == expanded@.len(),
                0 <= i <= visited@.len(),
                forall|x: int| 0 <= x < i && #[trigger] visited@[x] ==> expanded@[x],
            decreases visited.len() - i,
        {
            if visited[i] && !expanded[i] {
                return Some(i);
            }
            i = i + 1;
        }
        None
    }

    /// A line with an expression is a line of the proof.
    pub proof fn lemma_expr_in_range(&self, r: int)
        requires
            self.expr_at(r) is Some,
        ensures
            0 <= r < self.num_lines(),
    {
    }

    /// A line that some line depends on is a line of the proof.
    pub proof fn lemma_reaches_in_range(&self, r: int, t: int, k: nat)
        requires
            self.reaches_in(r, t, k),
        ensures
            0 <= t < self.num_lines(),
        decreases k,
    {
    }

    /// A table that holds every line one step from `r` and is closed under
    /// steps holds every line that `r` depends on.
    proof fn lemma_closed_complete(&self, r: int, v: Seq<bool>, t: int, k: nat)
        requires
            v.len() == self.num_lines(),
            forall|t: int| 0 <= t < v.len() && #[trigger] self.succ(r).contains(t as usize) ==> v[t],
            forall|t: int, u: int| 0 <= t < v.len() && 0 <= u < v.len() && v[t] && #[trigger] self.succ(t).contains(u as usize) ==> #[trigger] v[u],
            self.reaches_in(r, t, k),
            t < v.len(),
        ensures
            v[t],
        decreases k,
    {
        if k > 0 {
            let u = choose|u: int| 0 <= u < self.num_lines() && self.reaches_in(r, u, (k - 1) as nat) && #[trigger] self.succ(u).contains(t as usize);
            self.lemma_closed_complete(r, v, u, (k - 1) as nat);
        }
    }

    /// The lines that line `r` depends on, directly or through other lines,
    /// as a membership table indexed by line.
    pub fn transitive_dependencies(&self, r: usize) -> (v: Vec<bool>)
        requires
            r < self.num_lines(),
        ensures
            v@.len() == self.num_lines(),
            forall|t: int| 0 <= t < v@.len() ==> (#[trigger] v@[t] <==> self.depends_on(r as int, t)),
            forall|t: int, u: int| 0 <= t < v@.len() && 0 <= u < v@.len() && v@[t] && #[trigger] self.succ(t).contains(u as usize) ==> #[trigger] v@[u],
    {
        let n = self.lines.len();
        let mut visited: Vec<bool> = Vec::new();
        let mut expanded: Vec<bool> = Vec::new();
        let mut i: usize = 0;
        while i < n
            invariant
                0 <= i <= n,
                visited@.len() == i,
                expanded@.len() == i,
                forall|x: int| 0 <= x < i ==> !visited@[x],
                forall|x: int| 0 <= x < i ==> !expanded@[x],
            decreases n - i,
        {
            visited.push(false);
            expanded.push(false);
            i = i + 1;
        }
        self.mark_succ(r, &mut visited);
        assert forall|x: int| 0 <= x < n && #[trigger] visited@[x] implies self.depends_on(r as int, x) by {
            assert(self.reaches_in(r as int, x, 0));
        }
        loop
            invariant
                n == self.num_lines(),
                r < n,
                visited@.len() == n,
                expanded@.len() == n,
                forall|x: int| 0 <= x < n && #[trigger] visited@[x] ==> self.depends_on(r as int, x),
                forall|x: int| 0 <= x < n && #[trigger] expanded@[x] ==> visited@[x],
                forall|x: int| 0 <= x < n && #[trigger] self.succ(r as int).contains(x as usize) ==> visited@[x],
                forall|t: int, u: int| 0 <= t < n && 0 <= u < n && expanded@[t] && #[trigger] self.succ(t).contains(u as usize) ==> #[trigger] visited@[u],
            decreases count_false(visited@) + count_false(expanded@),
        {
            match Self::next_pending(&visited, &expanded) {
                None => {
                    proof {
                        assert forall|t: int| 0 <= t < visited@.len() && self.depends_on(r as int, t) implies #[trigger] visited@[t] by {
                            let k = choose|k: nat| self.reaches_in(r as int, t, k);
                            self.lemma_closed_complete(r as int, visited@, t, k);
                        }
                    }
                    return visited;
                },
                Some(t) => {
                    let ghost old_visited = visited@;
                    proof {
                        lemma_count_false_mark(expanded@, t as int);
                    }
                    expanded.set(t, true);
                    self.mark_succ(t, &mut visited);
                    proof {
                        assert forall|x: int| 0 <= x < n && #[trigger] visited@[x] implies self.depends_on(r as int, x) by {
                            if !old_visited[x] {
                                self.lemma_depends_step(r as int, t as int, x);
                            }
                        }
                        assert forall|tt: int, u: int| 0 <= tt < n && 0 <= u < n && expanded@[tt] && #[trigger] self.succ(tt).contains(u as usize) implies #[trigger] visited@[u] by {
                            if tt != t as int {
                                assert(old_visited[u]);
                            }
                        }
                    }
                },
            }
        }
    }
}

} // verus!
