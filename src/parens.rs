//! The rules that decide whether a binary-like expression is printed inside
//! parentheses, from the expression and its direct parent alone.
use vstd::prelude::*;

use crate::context::Parent;
use crate::expression::{logical_operator_of, BinaryLikeExpression, BinaryLikeKind};
use crate::operator::{associativity_of, precedence_of, Associativity, Operator};

verus! {

/// Slots in which a binary-like expression is always parenthesized, whatever
/// its operator: under `extends`, a cast, a prefix unary operator, `await` or a
/// non-null assertion; as the callee of a call or of `new`; as the tag of a
/// tagged template; as the target of a spread; as the object of a member access.
pub open spec fn structural_context(parent: Parent) -> bool {
    match parent {
        Parent::ExtendsClause => true,
        Parent::TypeCast(_) => true,
        Parent::Unary => true,
        Parent::Await => true,
        Parent::NonNullAssertion => true,
        Parent::Call { callee, .. } => callee,
        Parent::New { callee } => callee,
        Parent::TaggedTemplate { tag } => tag,
        Parent::Spread(_) => true,
        Parent::StaticMember => true,
        Parent::ComputedMember { object } => object,
        _ => false,
    }
}

/// Whether an operand with operator `op` of a parent with operator `parent_op`
/// needs parentheses, `right` telling on which side of the parent it stands.
/// A lower tier than the parent's does. At the parent's tier, the same operator
/// needs none on the side toward which the operator groups and needs them on
/// the other side; a different operator of that tier always needs them.
pub open spec fn precedence_decision(op: Operator, parent_op: Operator, right: bool) -> bool {
    if precedence_of(op) < precedence_of(parent_op) {
        true
    } else if precedence_of(op) == precedence_of(parent_op) {
        if op == parent_op {
            match associativity_of(op) {
                Associativity::Left => right,
                Associativity::Right => !right,
            }
        } else {
            true
        }
    } else {
        false
    }
}

/// The rule shared by every binary-like kind: structural slots first, then the
/// precedence comparison against a binary-like parent. Where either operator
/// is unresolved the comparison yields no parentheses.
pub open spec fn binary_like_decision(node: BinaryLikeExpression, parent: Parent) -> bool {
    if structural_context(parent) {
        true
    } else {
        match parent {
            Parent::BinaryLike { parent: p, right } => match (node.operator, p.operator) {
                (Some(op), Some(parent_op)) => precedence_decision(op, parent_op, right),
                _ => false,
            },
            _ => false,
        }
    }
}

/// The rule for a logical expression. Under a parent tagged logical, both
/// operators must be resolved for parentheses to be needed: then, where the
/// parent's operator is a logical one, they are needed exactly when the two
/// operators differ; where it is not (a tag and an operator that disagree),
/// they are needed exactly when this node is a `??`. Where either operator is
/// unresolved the comparison yields no parentheses. Under any other parent
/// the shared rule decides.
pub open spec fn logical_decision(node: BinaryLikeExpression, parent: Parent) -> bool {
    match parent {
        Parent::BinaryLike { parent: p, .. } => if p.kind == BinaryLikeKind::Logical {
            match (node.operator, p.operator) {
                (Some(op), Some(parent_op)) => match logical_operator_of(p) {
                    Some(logical_op) => op != logical_op,
                    None => op == Operator::NullishCoalescing,
                },
                _ => false,
            }
        } else {
            binary_like_decision(node, parent)
        },
        _ => binary_like_decision(node, parent),
    }
}

/// The decision for any binary-like node: the logical rule for a node tagged
/// logical, the shared rule for every other kind.
pub open spec fn decision(node: BinaryLikeExpression, parent: Parent) -> bool {
    if node.kind == BinaryLikeKind::Logical {
        logical_decision(node, parent)
    } else {
        binary_like_decision(node, parent)
    }
}

/// Whether `parent` is one of the structural slots.
pub fn is_structural_context(parent: &Parent) -> (r: bool)
    ensures
        r == structural_context(*parent),
{
    match parent {
        Parent::ExtendsClause | Parent::TypeCast(_) | Parent::Unary | Parent::Await
        | Parent::NonNullAssertion | Parent::Spread(_) | Parent::StaticMember => true,
        Parent::Call { callee, .. } => *callee,
        Parent::New { callee } => *callee,
        Parent::TaggedTemplate { tag } => *tag,
        Parent::ComputedMember { object } => *object,
        _ => false,
    }
}

/// The precedence comparison of an operand against its binary-like parent.
pub fn needs_parens_by_precedence(op: Operator, parent_op: Operator, right: bool) -> (r: bool)
    ensures
        r == precedence_decision(op, parent_op, right),
{
    let precedence = op.precedence();
    let parent_precedence = parent_op.precedence();
    if precedence < parent_precedence {
        true
    } else if precedence == parent_precedence {
        if op == parent_op {
            match op.associativity() {
                Associativity::Left => right,
                Associativity::Right => !right,
            }
        } else {
            true
        }
    } else {
        false
    }
}

/// The rule shared by every binary-like kind.
pub fn needs_binary_like_parentheses(node: &BinaryLikeExpression, parent: &Parent) -> (r: bool)
    ensures
        r == binary_like_decision(*node, *parent),
{
    if is_structural_context(parent) {
        return true;
    }
    match parent {
        Parent::BinaryLike { parent: p, right } => match (node.operator, p.operator) {
            (Some(op), Some(parent_op)) => needs_parens_by_precedence(op, parent_op, *right),
            _ => false,
        },
        _ => false,
    }
}

/// The rule for a logical expression.
pub fn needs_logical_parentheses(node: &BinaryLikeExpression, parent: &Parent) -> (r: bool)
    ensures
        r == logical_decision(*node, *parent),
{
    if let Parent::BinaryLike { parent: p, .. } = parent {
        if matches!(p.kind, BinaryLikeKind::Logical) {
            return match (node.operator, p.operator) {
                (Some(op), Some(_)) => match p.logical_operator() {
                    Some(logical_op) => op != logical_op,
                    None => matches!(op, Operator::NullishCoalescing),
                },
                _ => false,
            };
        }
    }
    needs_binary_like_parentheses(node, parent)
}

impl BinaryLikeExpression {
    /// Whether this expression must be printed inside parentheses where it
    /// stands in `parent`.
    pub fn needs_parentheses_with_parent(&self, parent: &Parent) -> (r: bool)
        ensures
            r == decision(*self, *parent),
    {
        if matches!(self.kind, BinaryLikeKind::Logical) {
            needs_logical_parentheses(self, parent)
        } else {
            needs_binary_like_parentheses(self, parent)
        }
    }
}

} // verus!
