//! An expression tree, and the placement of parentheses over all of it by the
//! decision rule, as a printer applies it on its way down the tree.
use vstd::prelude::*;

use crate::context::Parent;
use crate::expression::BinaryLikeExpression;
use crate::parens::decision;

verus! {

/// The prefix unary operators.
#[derive(Clone, Copy, Debug, PartialEq, Eq, Structural)]
pub enum UnaryOperator {
    /// `!`
    LogicalNot,
    /// `-`
    Minus,
    /// `+`
    Plus,
    /// `~`
    BitwiseNot,
    /// `typeof`
    Typeof,
    /// `void`
    Void,
    /// `delete`
    Delete,
}

/// An expression tree. Only the shapes the rules tell apart are kept; any
/// other expression (a name, a literal, ...) is a leaf.
#[derive(Debug, PartialEq, Eq)]
pub enum Expr {
    Leaf,
    /// `( e )` written in the source.
    Parenthesized(Box<Expr>),
    /// A prefix unary operator and its operand.
    Unary(UnaryOperator, Box<Expr>),
    /// A binary-like expression with its left and right operands.
    BinaryLike(BinaryLikeExpression, Box<Expr>, Box<Expr>),
}

/// The tree with every written pair of parentheses removed.
pub open spec fn strip(e: Expr) -> Expr
    decreases e,
{
    match e {
        Expr::Leaf => Expr::Leaf,
        Expr::Parenthesized(inner) => strip(*inner),
        Expr::Unary(op, operand) => Expr::Unary(op, Box::new(strip(*operand))),
        Expr::BinaryLike(n, left, right) => Expr::BinaryLike(
            n,
            Box::new(strip(*left)),
            Box::new(strip(*right)),
        ),
    }
}

/// The tree with parentheses added around each binary-like node for which the
/// decision says so, `parent` being the slot that `e` fills.
pub open spec fn place(e: Expr, parent: Parent) -> Expr
    decreases e,
{
    match e {
        Expr::Leaf => Expr::Leaf,
        Expr::Parenthesized(inner) => Expr::Parenthesized(Box::new(place(*inner, parent))),
        Expr::Unary(op, operand) => Expr::Unary(op, Box::new(place(*operand, Parent::Unary))),
        Expr::BinaryLike(n, left, right) => {
            let bare = Expr::BinaryLike(
                n,
                Box::new(place(*left, Parent::BinaryLike { parent: n, right: false })),
                Box::new(place(*right, Parent::BinaryLike { parent: n, right: true })),
            );
            if decision(n, parent) {
                Expr::Parenthesized(Box::new(bare))
            } else {
                bare
            }
        },
    }
}

/// The tree as it is printed at the root: the parentheses of the source are
/// dropped and those the rules ask for are put in.
pub open spec fn format(e: Expr) -> Expr {
    place(strip(e), Parent::Root)
}

/// Drops every written pair of parentheses.
pub fn strip_parentheses(e: &Expr) -> (r: Expr)
    ensures
        r == strip(*e),
    decreases e,
{
    match e {
        Expr::Leaf => Expr::Leaf,
        Expr::Parenthesized(inner) => strip_parentheses(inner),
        Expr::Unary(op, operand) => Expr::Unary(*op, Box::new(strip_parentheses(operand))),
        Expr::BinaryLike(n, left, right) => Expr::BinaryLike(
            *n,
            Box::new(strip_parentheses(left)),
            Box::new(strip_parentheses(right)),
        ),
    }
}

/// Adds the parentheses that the rules ask for, `parent` being the slot that
/// `e` fills.
pub fn place_parentheses(e: &Expr, parent: &Parent) -> (r: Expr)
    ensures
        r == place(*e, *parent),
    decreases e,
{
    match e {
        Expr::Leaf => Expr::Leaf,
        Expr::Parenthesized(inner) => Expr::Parenthesized(Box::new(place_parentheses(inner, parent))),
        Expr::Unary(op, operand) => Expr::Unary(
            *op,
            Box::new(place_parentheses(operand, &Parent::Unary)),
        ),
        Expr::BinaryLike(n, left, right) => {
            let bare = Expr::BinaryLike(
                *n,
                Box::new(place_parentheses(left, &Parent::BinaryLike { parent: *n, right: false })),
                Box::new(place_parentheses(right, &Parent::BinaryLike { parent: *n, right: true })),
            );
            if n.needs_parentheses_with_parent(parent) {
                Expr::Parenthesized(Box::new(bare))
            } else {
                bare
            }
        },
    }
}

/// The printable form of a whole tree: written parentheses dropped, required
/// ones placed.
pub fn parenthesize(e: &Expr) -> (r: Expr)
    ensures
        r == format(*e),
{
    let bare = strip_parentheses(e);
    place_parentheses(&bare, &Parent::Root)
}

/// Placing parentheses adds nothing but parentheses.
pub proof fn lemma_strip_place(e: Expr, parent: Parent)
    ensures
        strip(place(e, parent)) == strip(e),
    decreases e,
{
    match e {
        Expr::Leaf => {},
        Expr::Parenthesized(inner) => {
            lemma_strip_place(*inner, parent);
        },
        Expr::Unary(_, operand) => {
            lemma_strip_place(*operand, Parent::Unary);
        },
        Expr::BinaryLike(n, left, right) => {
            let left_parent = Parent::BinaryLike { parent: n, right: false };
            let right_parent = Parent::BinaryLike { parent: n, right: true };
            lemma_strip_place(*left, left_parent);
            lemma_strip_place(*right, right_parent);
            let bare = Expr::BinaryLike(
                n,
                Box::new(place(*left, left_parent)),
                Box::new(place(*right, right_parent)),
            );
            assert(strip(bare) == strip(e));
            assert(strip(Expr::Parenthesized(Box::new(bare))) == strip(bare));
        },
    }
}

/// Stripping a stripped tree changes nothing.
pub proof fn lemma_strip_idempotent(e: Expr)
    ensures
        strip(strip(e)) == strip(e),
    decreases e,
{
    match e {
        Expr::Leaf => {},
        Expr::Parenthesized(inner) => {
            lemma_strip_idempotent(*inner);
        },
        Expr::Unary(_, operand) => {
            lemma_strip_idempotent(*operand);
        },
        Expr::BinaryLike(_, left, right) => {
            lemma_strip_idempotent(*left);
            lemma_strip_idempotent(*right);
        },
    }
}

/// Formatting is a fixed point: formatting already formatted output, which
/// the decision is asked about anew, puts every pair of parentheses where it
/// already stands.
pub proof fn lemma_format_idempotent(e: Expr)
    ensures
        format(format(e)) == format(e),
{
    lemma_strip_place(strip(e), Parent::Root);
    lemma_strip_idempotent(e);
}

} // verus!
