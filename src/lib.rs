//! A natural-deduction proof checker for classical propositional and
//! first-order logic.
//!
//! Expressions (`expr`) have a mathematical model, `Formula`, that every
//! contract speaks of; `parser` reads them and `text` writes them. The
//! expression algebra is in `algebra` (free variables, capture-avoiding
//! substitution), `unify`, `canon` (sorting commutative operands), `normal`
//! (normal forms), `cnf`, and the rewrite engine in `rewrite`, `equivs` and
//! `reach`. Proofs are arenas of lines and subproofs (`proofs`), read through
//! `lookup` and `subproofs`. The rules are catalogued in `rules` and checked
//! in `check`, which applies the arity checks shared by all rules before the
//! checks of each family: `prop_rules` (with `ordered`, `order` and
//! `intro_graph`), `pred_rules`, `equiv_rules` and `auto_rules` (with
//! `resolution`). Errors and their messages are in `error` and `messages`.

pub mod expr;
pub mod error;
pub mod rules;
pub mod proofs;
pub mod order;
pub mod lookup;
pub mod ordered;
pub mod subproofs;
pub mod prop_rules;
pub mod intro_graph;
pub mod algebra;
pub mod unify;
pub mod text;
pub mod pred_rules;
pub mod canon;
pub mod rewrite;
pub mod equivs;
pub mod normal;
pub mod equiv_rules;
pub mod resolution;
pub mod cnf;
pub mod auto_rules;
pub mod check;
pub mod parser;
pub mod messages;
pub mod reach;
pub mod demo;
