//! Binary-like operators, their precedence tiers and associativity.
use vstd::prelude::*;

verus! {

/// Every operator that can stand between the two operands of a binary-like
/// expression.
#[derive(Clone, Copy, Debug, PartialEq, Eq, Structural)]
pub enum Operator {
    /// `??`
    NullishCoalescing,
    /// `||`
    LogicalOr,
    /// `&&`
    LogicalAnd,
    /// `|`
    BitwiseOr,
    /// `^`
    BitwiseXor,
    /// `&`
    BitwiseAnd,
    /// `==`
    Equality,
    /// `!=`
    Inequality,
    /// `===`
    StrictEquality,
    /// `!==`
    StrictInequality,
    /// `<`
    LessThan,
    /// `>`
    GreaterThan,
    /// `<=`
    LessThanOrEqual,
    /// `>=`
    GreaterThanOrEqual,
    /// `in`
    In,
    /// `instanceof`
    Instanceof,
    /// `<<`
    LeftShift,
    /// `>>`
    RightShift,
    /// `>>>`
    UnsignedRightShift,
    /// `+`
    Plus,
    /// `-`
    Minus,
    /// `*`
    Times,
    /// `/`
    Divide,
    /// `%`
    Remainder,
    /// `**`
    Exponent,
}

/// The side on which a chain of operators of one precedence tier groups.
#[derive(Clone, Copy, Debug, PartialEq, Eq, Structural)]
pub enum Associativity {
    /// `a op b op c` is `(a op b) op c`.
    Left,
    /// `a op b op c` is `a op (b op c)`.
    Right,
}

/// The precedence tier of an operator: a higher tier binds tighter.
pub open spec fn precedence_of(op: Operator) -> int {
    match op {
        Operator::NullishCoalescing => 1,
        Operator::LogicalOr => 2,
        Operator::LogicalAnd => 3,
        Operator::BitwiseOr => 4,
        Operator::BitwiseXor => 5,
        Operator::BitwiseAnd => 6,
        Operator::Equality | Operator::Inequality | Operator::StrictEquality
        | Operator::StrictInequality => 7,
        Operator::LessThan | Operator::GreaterThan | Operator::LessThanOrEqual
        | Operator::GreaterThanOrEqual | Operator::In | Operator::Instanceof => 8,
        Operator::LeftShift | Operator::RightShift | Operator::UnsignedRightShift => 9,
        Operator::Plus | Operator::Minus => 10,
        Operator::Times | Operator::Divide | Operator::Remainder => 11,
        Operator::Exponent => 12,
    }
}

/// Only exponentiation groups to the right.
pub open spec fn associativity_of(op: Operator) -> Associativity {
    if op == Operator::Exponent {
        Associativity::Right
    } else {
        Associativity::Left
    }
}

/// `&&`, `||` and `??`.
pub open spec fn is_logical_op(op: Operator) -> bool {
    op == Operator::LogicalAnd || op == Operator::LogicalOr || op == Operator::NullishCoalescing
}

impl Operator {
    pub fn precedence(&self) -> (r: u8)
        ensures
            r as int == precedence_of(*self),
    {
        match self {
            Operator::NullishCoalescing => 1,
            Operator::LogicalOr => 2,
            Operator::LogicalAnd => 3,
            Operator::BitwiseOr => 4,
            Operator::BitwiseXor => 5,
            Operator::BitwiseAnd => 6,
            Operator::Equality | Operator::Inequality | Operator::StrictEquality
            | Operator::StrictInequality => 7,
            Operator::LessThan | Operator::GreaterThan | Operator::LessThanOrEqual
            | Operator::GreaterThanOrEqual | Operator::In | Operator::Instanceof => 8,
            Operator::LeftShift | Operator::RightShift | Operator::UnsignedRightShift => 9,
            Operator::Plus | Operator::Minus => 10,
            Operator::Times | Operator::Divide | Operator::Remainder => 11,
            Operator::Exponent => 12,
        }
    }

    pub fn associativity(&self) -> (r: Associativity)
        ensures
            r == associativity_of(*self),
    {
        match self {
            Operator::Exponent => Associativity::Right,
            _ => Associativity::Left,
        }
    }

    pub fn is_logical(&self) -> (r: bool)
        ensures
            r == is_logical_op(*self),
    {
        match self {
            Operator::LogicalAnd | Operator::LogicalOr | Operator::NullishCoalescing => true,
            _ => false,
        }
    }
}

/// The three logical operators hold three adjacent tiers of their own, below
/// every other binary operator: `??` below `||` below `&&`.
pub proof fn lemma_logical_tiers(op: Operator)
    ensures
        precedence_of(Operator::NullishCoalescing) + 1 == precedence_of(Operator::LogicalOr),
        precedence_of(Operator::LogicalOr) + 1 == precedence_of(Operator::LogicalAnd),
        is_logical_op(op) <==> precedence_of(op) <= precedence_of(Operator::LogicalAnd),
        1 <= precedence_of(op) <= 12,
{
}

} // verus!
