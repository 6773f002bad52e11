//! Decides whether a binary-like expression (logical, arithmetic, relational,
//! bitwise, `in`, `instanceof`) must be wrapped in parentheses when a syntax
//! tree is printed back to source text, given the node and its direct parent.
//!
//! - `operator`: the operators, their precedence tiers and associativity.
//! - `expression`: the uniform view of a binary-like node.
//! - `context`: the direct parent of a node and the slot the node fills in it.
//! - `parens`: the decision rules.
//! - `tree`: the rules applied over a whole expression tree.
//! - `lemmas`: laws that the decision obeys.

pub mod context;
pub mod expression;
pub mod lemmas;
pub mod operator;
pub mod parens;
pub mod tree;
