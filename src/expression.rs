//! A uniform view of binary-like expressions, and the syntactic context in
//! which such an expression stands.
use vstd::prelude::*;

use crate::operator::{is_logical_op, Operator};

verus! {

/// The concrete kind of a binary-like expression node.
#[derive(Clone, Copy, Debug, PartialEq, Eq, Structural)]
pub enum BinaryLikeKind {
    /// `a && b`, `a || b`, `a ?? b`
    Logical,
    /// arithmetic, bitwise, equality and comparison operators
    Binary,
    /// `a in b`
    In,
    /// `a instanceof b`
    Instanceof,
}

/// A binary-like expression as the parenthesization rules see it: its kind tag
/// and its operator. The operator is `None` where the parser recovered from an
/// error and no operator token could be resolved.
#[derive(Clone, Copy, Debug, PartialEq, Eq, Structural)]
pub struct BinaryLikeExpression {
    pub kind: BinaryLikeKind,
    pub operator: Option<Operator>,
}

/// Whether `op` is an operator that a node of kind `kind` can carry.
pub open spec fn operator_fits_kind(kind: BinaryLikeKind, op: Operator) -> bool {
    match kind {
        BinaryLikeKind::Logical => is_logical_op(op),
        BinaryLikeKind::Binary => !is_logical_op(op) && op != Operator::In
            && op != Operator::Instanceof,
        BinaryLikeKind::In => op == Operator::In,
        BinaryLikeKind::Instanceof => op == Operator::Instanceof,
    }
}

/// The kind tag and the operator do not contradict each other.
pub open spec fn wf(e: BinaryLikeExpression) -> bool {
    e.operator matches Some(op) ==> operator_fits_kind(e.kind, op)
}

/// The logical operator of a node tagged logical whose operator is resolved
/// and is one of `&&`, `||`, `??`; `None` for every other node.
pub open spec fn logical_operator_of(e: BinaryLikeExpression) -> Option<Operator> {
    match e.operator {
        Some(op) => if e.kind == BinaryLikeKind::Logical && is_logical_op(op) {
            Some(op)
        } else {
            None
        },
        None => None,
    }
}

impl BinaryLikeExpression {
    /// A well-formed logical expression.
    pub fn logical(op: Operator) -> (r: Self)
        requires
            is_logical_op(op),
        ensures
            r.kind == BinaryLikeKind::Logical,
            r.operator == Some(op),
            wf(r),
    {
        BinaryLikeExpression { kind: BinaryLikeKind::Logical, operator: Some(op) }
    }

    /// The uniform view of an expression of any binary-like kind: the kind
    /// tag follows from the operator.
    pub fn from_operator(op: Operator) -> (r: Self)
        ensures
            r.operator == Some(op),
            operator_fits_kind(r.kind, op),
            wf(r),
    {
        let kind = if op.is_logical() {
            BinaryLikeKind::Logical
        } else {
            match op {
                Operator::In => BinaryLikeKind::In,
                Operator::Instanceof => BinaryLikeKind::Instanceof,
                _ => BinaryLikeKind::Binary,
            }
        };
        BinaryLikeExpression { kind, operator: Some(op) }
    }

    /// The strongly typed logical view of this node, if it has one.
    pub fn logical_operator(&self) -> (r: Option<Operator>)
        ensures
            r == logical_operator_of(*self),
    {
        match self.operator {
            Some(op) => if matches!(self.kind, BinaryLikeKind::Logical) && op.is_logical() {
                Some(op)
            } else {
                None
            },
            None => None,
        }
    }
}

} // verus!
