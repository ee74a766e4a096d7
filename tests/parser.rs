use aris::expr::{Expr, Op, QuantKind};
use aris::parser::parse;

fn var(n: &str) -> Expr {
    Expr::Var { name: n.to_string() }
}

#[test]
fn test() {
    println!("{:?}", parse("a(   b, c)"));
    println!("{:?}", parse("a & b & c(x,y)\n"));
    println!("{:?}", parse("forall a, (b & c)\n"));
    println!("{:?}", parse("exists x, (Tet(x) & SameCol(x, b)) -> ~forall x, (Tet(x) -> LeftOf(x, b))\n"));
    println!("{:?}", parse("aa\n"));
    assert!(parse("a(   b, c)").is_some());
    assert!(parse("a & b & c(x,y)\n").is_some());
    assert!(parse("forall a, (b & c)\n").is_some());
    assert!(parse("exists x, (Tet(x) & SameCol(x, b)) -> ~forall x, (Tet(x) -> LeftOf(x, b))\n").is_some());
    assert_eq!(parse("aa\n"), Some(var("aa")));
}

#[test]
fn parses_associative_chain() {
    let e = parse("a & b & c(x,y)").unwrap();
    assert_eq!(
        e,
        Expr::Assoc {
            op: Op::And,
            exprs: vec![
                var("a"),
                var("b"),
                Expr::Apply { name: "c".to_string(), args: vec![var("x"), var("y")] },
            ],
        }
    );
}

#[test]
fn parses_glyphs_and_quantifiers() {
    assert_eq!(parse("A ∧ B"), parse("A /\\ B"));
    assert_eq!(parse("A ∨ B"), parse("A \\/ B"));
    assert_eq!(parse("A ↔ B"), parse("A <-> B"));
    assert_eq!(parse("∀x, P(x)"), parse("forall x, P(x)"));
    assert_eq!(
        parse("exists x, P(x)").unwrap(),
        Expr::Quant {
            kind: QuantKind::Exists,
            name: "x".to_string(),
            body: Box::new(Expr::Apply { name: "P".to_string(), args: vec![var("x")] }),
        }
    );
    assert_eq!(parse("_|_"), Some(Expr::Contra));
    assert_eq!(parse("~A"), Some(Expr::Not { operand: Box::new(var("A")) }));
}

#[test]
fn rejects_mixed_operators_and_keywords() {
    assert_eq!(parse("A & B | C"), None);
    assert_eq!(parse("forall"), None);
    assert_eq!(parse("(A & B"), None);
    assert_eq!(parse(""), None);
}

#[test]
fn keywords_are_not_names() {
    assert_eq!(parse("P(forall)"), None);
    assert_eq!(parse("exists"), None);
    assert!(parse("forallx").is_some());
}

#[test]
fn negations_and_absurdity_parse() {
    assert_eq!(parse("~~_|_"), Some(Expr::Not { operand: Box::new(Expr::Not { operand: Box::new(Expr::Contra) }) }));
    assert_eq!(parse("~x1"), Some(Expr::Not { operand: Box::new(var("x1")) }));
}
