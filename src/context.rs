//! The direct parent of an expression, and the place the expression holds in it.
use vstd::prelude::*;

use crate::expression::BinaryLikeExpression;

verus! {

/// The forms of type cast.
#[derive(Clone, Copy, Debug, PartialEq, Eq, Structural)]
pub enum CastKind {
    /// `x as T`
    As,
    /// `x satisfies T`
    Satisfies,
    /// `<T>x`
    AngleBracket,
}

/// The places where a spread `...x` can stand.
#[derive(Clone, Copy, Debug, PartialEq, Eq, Structural)]
pub enum SpreadSite {
    /// `[...x]`
    ArrayElement,
    /// `f(...x)`
    Argument,
    /// `({...x})`
    ObjectMember,
    /// `<a {...x} />`
    JsxAttribute,
    /// `<a>{...x}</a>`
    JsxChild,
}

/// The direct parent of an expression, with the slot the expression fills in it.
#[derive(Clone, Copy, Debug, PartialEq, Eq, Structural)]
pub enum Parent {
    /// The expression is the root: it has no parent.
    Root,
    /// `class X extends <expr> {}`
    ExtendsClause,
    /// A type cast or type assertion of the expression.
    TypeCast(CastKind),
    /// A prefix unary operator (`!`, `-`, `+`, `~`, `typeof`, `void`,
    /// `delete`) applied to the expression.
    Unary,
    /// `await <expr>`
    Await,
    /// `<expr>!`
    NonNullAssertion,
    /// A call `f(x)`, optional `f?.(x)` or not; `callee` tells whether the
    /// expression is `f` rather than an argument.
    Call { optional: bool, callee: bool },
    /// `new f(x)`; `callee` tells whether the expression is `f`.
    New { callee: bool },
    /// ``tag`text` ``; `tag` tells whether the expression is the tag rather
    /// than a substitution of the template.
    TaggedTemplate { tag: bool },
    /// `...<expr>`
    Spread(SpreadSite),
    /// `<expr>.member`
    StaticMember,
    /// `object[key]`; `object` tells whether the expression is the object
    /// rather than the key.
    ComputedMember { object: bool },
    /// Another binary-like expression; `right` tells whether the expression is
    /// its right operand rather than its left one.
    BinaryLike { parent: BinaryLikeExpression, right: bool },
    /// Any other parent: a statement, a declaration, a conditional, ...
    Other,
}

} // verus!
