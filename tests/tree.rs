use logical_parens::expression::BinaryLikeExpression;
use logical_parens::operator::Operator;
use logical_parens::tree::{parenthesize, place_parentheses, strip_parentheses, Expr, UnaryOperator};
use logical_parens::context::Parent;

fn leaf() -> Box<Expr> {
    Box::new(Expr::Leaf)
}

fn bin(op: Operator, left: Box<Expr>, right: Box<Expr>) -> Box<Expr> {
    Box::new(Expr::BinaryLike(BinaryLikeExpression::from_operator(op), left, right))
}

fn paren(e: Box<Expr>) -> Box<Expr> {
    Box::new(Expr::Parenthesized(e))
}

#[test]
fn strip_removes_written_parentheses() {
    let written = paren(bin(Operator::Plus, paren(leaf()), paren(paren(leaf()))));
    assert_eq!(strip_parentheses(&written), *bin(Operator::Plus, leaf(), leaf()));
}

#[test]
fn mixed_logical_gets_parentheses() {
    // a && b || c
    let tree = bin(Operator::LogicalOr, bin(Operator::LogicalAnd, leaf(), leaf()), leaf());
    let expected = bin(Operator::LogicalOr, paren(bin(Operator::LogicalAnd, leaf(), leaf())), leaf());
    assert_eq!(parenthesize(&tree), *expected);
}

#[test]
fn same_logical_chain_stays_flat() {
    // ((a && b) && c) with written parentheses
    let tree = bin(Operator::LogicalAnd, paren(bin(Operator::LogicalAnd, leaf(), leaf())), leaf());
    let expected = bin(Operator::LogicalAnd, bin(Operator::LogicalAnd, leaf(), leaf()), leaf());
    assert_eq!(parenthesize(&tree), *expected);
}

#[test]
fn unary_operand_gets_parentheses() {
    // !(a ?? b)
    let tree = Expr::Unary(UnaryOperator::LogicalNot, bin(Operator::NullishCoalescing, leaf(), leaf()));
    let expected =
        Expr::Unary(UnaryOperator::LogicalNot, paren(bin(Operator::NullishCoalescing, leaf(), leaf())));
    assert_eq!(parenthesize(&tree), expected);
}

#[test]
fn placement_is_a_fixed_point() {
    // (a && b) + c ** d - e, written without any parentheses
    let tree = bin(
        Operator::Minus,
        bin(Operator::Plus, bin(Operator::LogicalAnd, leaf(), leaf()), bin(Operator::Exponent, leaf(), leaf())),
        leaf(),
    );
    let once = parenthesize(&tree);
    let twice = parenthesize(&once);
    assert_eq!(once, twice);
    let expected = bin(
        Operator::Minus,
        paren(bin(Operator::Plus, paren(bin(Operator::LogicalAnd, leaf(), leaf())), bin(Operator::Exponent, leaf(), leaf()))),
        leaf(),
    );
    assert_eq!(once, *expected);
}

#[test]
fn place_respects_the_given_parent() {
    let tree = bin(Operator::LogicalOr, leaf(), leaf());
    assert_eq!(place_parentheses(&tree, &Parent::Await), *paren(bin(Operator::LogicalOr, leaf(), leaf())));
    assert_eq!(place_parentheses(&tree, &Parent::Other), *bin(Operator::LogicalOr, leaf(), leaf()));
}
