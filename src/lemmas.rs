//! Laws that the parenthesization decision obeys.
use vstd::prelude::*;

use crate::context::Parent;
use crate::expression::{BinaryLikeExpression, BinaryLikeKind};
use crate::operator::{is_logical_op, Operator};
use crate::parens::{decision, structural_context};

verus! {

/// Equal queries get equal answers: the decision depends on nothing but the
/// node's kind and operator and the parent's kind, operator and the slot the
/// node fills in it.
pub proof fn lemma_decision_deterministic(
    node1: BinaryLikeExpression,
    parent1: Parent,
    node2: BinaryLikeExpression,
    parent2: Parent,
)
    requires
        node1.kind == node2.kind,
        node1.operator == node2.operator,
        parent1 == parent2,
    ensures
        decision(node1, parent1) == decision(node2, parent2),
{
    assert(node1 == node2);
}

/// In a chain `a op b op c` of one logical operator, neither the chain nor
/// either of its nested links needs parentheses, whichever side a link
/// stands on.
pub proof fn lemma_same_logical_operator_chain(op: Operator, right: bool)
    requires
        is_logical_op(op),
    ensures
        ({
            let link = BinaryLikeExpression { kind: BinaryLikeKind::Logical, operator: Some(op) };
            &&& !decision(link, Parent::BinaryLike { parent: link, right })
            &&& !decision(link, Parent::Root)
        }),
{
}

/// A logical expression directly under a logical expression with another
/// logical operator is always parenthesized, on either side.
pub proof fn lemma_mixed_logical_operators(op: Operator, parent_op: Operator, right: bool)
    requires
        is_logical_op(op),
        is_logical_op(parent_op),
        op != parent_op,
    ensures
        decision(
            BinaryLikeExpression { kind: BinaryLikeKind::Logical, operator: Some(op) },
            Parent::BinaryLike {
                parent: BinaryLikeExpression { kind: BinaryLikeKind::Logical, operator: Some(parent_op) },
                right,
            },
        ),
{
}

/// A binary-like expression of any kind and any operator, resolved or not, is
/// parenthesized as a callee, as a `new` callee, as the tag of a tagged
/// template, as a spread target and as the object of a member access.
pub proof fn lemma_structural_slots_dominate(node: BinaryLikeExpression, parent: Parent)
    requires
        parent matches Parent::Call { callee, .. } ==> callee,
        parent matches Parent::New { callee } ==> callee,
        parent matches Parent::TaggedTemplate { tag } ==> tag,
        parent matches Parent::ComputedMember { object } ==> object,
        parent is Call || parent is New || parent is TaggedTemplate || parent is Spread
            || parent is StaticMember || parent is ComputedMember,
    ensures
        structural_context(parent),
        decision(node, parent),
{
}

/// Every slot of the shared rule's structural list forces parentheses, for
/// every node.
pub proof fn lemma_structural_context_forces(node: BinaryLikeExpression, parent: Parent)
    requires
        structural_context(parent),
    ensures
        decision(node, parent),
{
}

/// Under a parent tagged logical, a logical expression whose operator, or whose
/// parent's operator, could not be resolved is not parenthesized.
pub proof fn lemma_unresolved_logical_operator(
    node: BinaryLikeExpression,
    parent: BinaryLikeExpression,
    right: bool,
)
    requires
        node.kind == BinaryLikeKind::Logical,
        parent.kind == BinaryLikeKind::Logical,
        node.operator is None || parent.operator is None,
    ensures
        !decision(node, Parent::BinaryLike { parent, right }),
{
}

} // verus!
