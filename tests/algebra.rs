use aris::algebra::{occurs_free, subst_var};
use aris::canon::sort_commutative_ops;
use aris::cnf::into_cnf;
use aris::normal::normalize_demorgans;
use aris::parser::parse;
use aris::text::to_text;
use aris::unify::unify_wrt;

fn p(s: &str) -> aris::expr::Expr {
    parse(s).unwrap()
}

#[test]
fn substitution_renames_capturing_binder() {
    let e = p("forall y, P(x, y)");
    let r = subst_var(&e, &"x".to_string(), &p("y"));
    assert_eq!(to_text(&r), "(forall y', P(y, y'))");
    assert!(occurs_free(&r, &"y".to_string()));
    let plain = subst_var(&p("P(x) & Q(z)"), &"x".to_string(), &p("f(a)"));
    assert_eq!(plain, p("P(f(a)) & Q(z)"));
}

#[test]
fn commutative_sort_is_idempotent() {
    let e = p("(C | B) & A & (Z -> (Y & X))");
    let once = sort_commutative_ops(&e);
    assert_eq!(sort_commutative_ops(&once), once);
    assert_eq!(sort_commutative_ops(&p("B & A")), sort_commutative_ops(&p("A & B")));
}

#[test]
fn demorgan_normal_form_is_idempotent() {
    let e = p("~(A & ~(B | C)) -> ~~(D & E)");
    let once = normalize_demorgans(&e);
    assert_eq!(normalize_demorgans(&once), once);
    assert_eq!(normalize_demorgans(&p("~(A & B)")), p("~A | ~B"));
}

#[test]
fn cnf_agrees_with_formula() {
    let e = p("(A -> B) <-> ~(C & A)");
    let (clauses, names) = into_cnf(&e).unwrap();
    for bits in 0..8u32 {
        let value = |n: &str| -> bool {
            let i = ["A", "B", "C"].iter().position(|x| *x == n).unwrap();
            bits & (1 << i) != 0
        };
        let a = value("A");
        let b = value("B");
        let c = value("C");
        let direct = (!a || b) == !(c && a);
        let by_clauses = clauses.iter().all(|cl| cl.iter().any(|&(v, pos)| value(&names[v]) == pos));
        assert_eq!(direct, by_clauses, "assignment {}", bits);
    }
    assert!(into_cnf(&p("forall x, P(x)")).is_none());
    assert!(into_cnf(&p("a + b")).is_none());
}

#[test]
fn unification_finds_the_instance() {
    assert_eq!(unify_wrt(&p("P(x, b)"), &p("P(a, b)"), &"x".to_string()), Some(p("a")));
    assert_eq!(unify_wrt(&p("P(x, x)"), &p("P(a, c)"), &"x".to_string()), None);
    assert_eq!(unify_wrt(&p("Q"), &p("Q"), &"x".to_string()), Some(p("x")));
}
