use crate::syntax::expression::{
    BinaryOperator, Expression, ExpressionView, LiteralExpression, UnaryOperator,
};
use std::collections::HashMap;
use vstd::prelude::*;

verus! {

/// Why an `if` attribute could not be folded.
#[derive(Debug, PartialEq)]
pub enum CondCompError {
    /// An identifier used as a feature flag carries template arguments.
    InvalidFeatureFlag(String),
    /// A feature flag that had to be known is not in the feature map.
    MissingFeatureFlag(String),
    /// The expression is none of: boolean literal, parentheses, `!`, `&&`, `||`, identifier.
    InvalidExpression(Expression),
}

pub enum CondCompErrorView {
    InvalidFeatureFlag(Seq<char>),
    MissingFeatureFlag(Seq<char>),
    InvalidExpression(ExpressionView),
}

impl View for CondCompError {
    type V = CondCompErrorView;

    open spec fn view(&self) -> CondCompErrorView {
        match self {
            CondCompError::InvalidFeatureFlag(name) => CondCompErrorView::InvalidFeatureFlag(name@),
            CondCompError::MissingFeatureFlag(name) => CondCompErrorView::MissingFeatureFlag(name@),
            CondCompError::InvalidExpression(expr) => CondCompErrorView::InvalidExpression(expr@),
        }
    }
}

impl Clone for CondCompError {
    fn clone(&self) -> (copy: CondCompError)
        ensures
            copy@ == self@,
    {
        match self {
            CondCompError::InvalidFeatureFlag(name) => CondCompError::InvalidFeatureFlag(
                name.clone(),
            ),
            CondCompError::MissingFeatureFlag(name) => CondCompError::MissingFeatureFlag(
                name.clone(),
            ),
            CondCompError::InvalidExpression(expr) => CondCompError::InvalidExpression(
                expr.clone(),
            ),
        }
    }
}

/// The feature flags by name, as the folding rules read them.
pub type Flags = Map<Seq<char>, bool>;

/// The value of a flag, if the map knows it.
pub open spec fn flag_of(flags: Flags, name: Seq<char>) -> Option<bool> {
    if flags.contains_key(name) {
        Some(flags[name])
    } else {
        None
    }
}

/// The boolean literal `value`.
pub open spec fn literal(value: bool) -> ExpressionView {
    ExpressionView::Literal(LiteralExpression::Bool(value))
}

/// The fold of a negation whose operand folded to `operand`; `whole` is the
/// negation as it was written.
pub open spec fn fold_not(whole: ExpressionView, operand: ExpressionView) -> ExpressionView {
    if operand == literal(true) {
        literal(false)
    } else if operand == literal(false) {
        literal(true)
    } else {
        whole
    }
}

/// The fold of a disjunction whose sides folded to `left` and `right`.
pub open spec fn fold_or(
    whole: ExpressionView,
    left: ExpressionView,
    right: ExpressionView,
) -> ExpressionView {
    if left == literal(true) || right == literal(true) {
        literal(true)
    } else if left == literal(false) && right == literal(false) {
        literal(false)
    } else if left == literal(false) {
        right
    } else if right == literal(false) {
        left
    } else {
        whole
    }
}

/// The fold of a conjunction whose sides folded to `left` and `right`.
pub open spec fn fold_and(
    whole: ExpressionView,
    left: ExpressionView,
    right: ExpressionView,
) -> ExpressionView {
    if left == literal(true) && right == literal(true) {
        literal(true)
    } else if left == literal(false) || right == literal(false) {
        literal(false)
    } else if left == literal(true) {
        right
    } else if right == literal(true) {
        left
    } else {
        whole
    }
}

/// The partial evaluation of a boolean attribute expression against a set of
/// feature flags.
///
/// Known flags become literals, `!`, `&&` and `||` are simplified where a side
/// is a literal, and whatever still depends on an unknown flag stays as it was
/// written. Parentheses are dropped from what is folded through. The operands
/// are folded before the operator is looked at, so an error inside an operand
/// comes first.
pub open spec fn fold(expr: ExpressionView, flags: Flags) -> Result<
    ExpressionView,
    CondCompErrorView,
>
    decreases expr,
{
    match expr {
        ExpressionView::Literal(LiteralExpression::Bool(_)) => Ok(expr),
        ExpressionView::Parenthesized(inner) => fold(*inner.node, flags),
        ExpressionView::Unary { operator, operand } => match fold(*operand.node, flags) {
            Err(e) => Err(e),
            Ok(folded) => if operator == UnaryOperator::LogicalNegation {
                Ok(fold_not(expr, folded))
            } else {
                Err(CondCompErrorView::InvalidExpression(expr))
            },
        },
        ExpressionView::Binary { operator, left, right } => match fold(*left.node, flags) {
            Err(e) => Err(e),
            Ok(l) => match fold(*right.node, flags) {
                Err(e) => Err(e),
                Ok(r) => if operator == BinaryOperator::ShortCircuitOr {
                    Ok(fold_or(expr, l, r))
                } else if operator == BinaryOperator::ShortCircuitAnd {
                    Ok(fold_and(expr, l, r))
                } else {
                    Err(CondCompErrorView::InvalidExpression(expr))
                },
            },
        },
        ExpressionView::TypeOrIdentifier(ty) => if ty.template_args is Some {
            Err(CondCompErrorView::InvalidFeatureFlag(ty.name))
        } else {
            match flag_of(flags, ty.name) {
                Some(value) => Ok(literal(value)),
                None => Ok(expr),
            }
        },
        _ => Err(CondCompErrorView::InvalidExpression(expr)),
    }
}

/// The view of a fold's outcome.
pub open spec fn outcome(result: Result<Expression, CondCompError>) -> Result<
    ExpressionView,
    CondCompErrorView,
> {
    match result {
        Ok(expr) => Ok(expr@),
        Err(e) => Err(e@),
    }
}

/// `HashMap::get` with a string slice as the key: the value stored under the
/// key whose characters are those of `name`, if the map holds such a key.
/// The map is read as its deep view, which takes the characters of each key
/// to the value stored under that key.
#[verifier::external_body]
fn lookup(features: &HashMap<String, bool>, name: &str) -> (flag: Option<bool>)
    ensures
        flag == flag_of(features.deep_view(), name@),
{
    match features.get(name) {
        Some(value) => Some(*value),
        None => None,
    }
}

/// Whether `expr` is the boolean literal `value`.
pub fn is_literal(expr: &Expression, value: bool) -> (same: bool)
    ensures
        same == (expr@ == literal(value)),
{
    match expr {
        Expression::Literal(LiteralExpression::Bool(b)) => *b == value,
        _ => false,
    }
}

/// The boolean literal `value`.
pub fn make_literal(value: bool) -> (expr: Expression)
    ensures
        expr@ == literal(value),
{
    Expression::Literal(LiteralExpression::Bool(value))
}

/// Folds a boolean attribute expression against the feature flags.
pub fn eval_attr(expr: &Expression, features: &HashMap<String, bool>) -> (result: Result<
    Expression,
    CondCompError,
>)
    ensures
        outcome(result) == fold(expr@, features.deep_view()),
    decreases expr,
{
    match expr {
        Expression::Literal(LiteralExpression::Bool(_)) => Ok(expr.clone()),
        Expression::Parenthesized(inner) => eval_attr(&inner.node, features),
        Expression::Unary { operator, operand } => {
            let folded = eval_attr(&operand.node, features)?;
            match operator {
                UnaryOperator::LogicalNegation => {
                    if is_literal(&folded, true) {
                        Ok(make_literal(false))
                    } else if is_literal(&folded, false) {
                        Ok(make_literal(true))
                    } else {
                        Ok(expr.clone())
                    }
                },
                _ => Err(CondCompError::InvalidExpression(expr.clone())),
            }
        },
        Expression::Binary { operator, left, right } => {
            let left = eval_attr(&left.node, features)?;
            let right = eval_attr(&right.node, features)?;
            match operator {
                BinaryOperator::ShortCircuitOr => {
                    if is_literal(&left, true) || is_literal(&right, true) {
                        Ok(make_literal(true))
                    } else if is_literal(&left, false) && is_literal(&right, false) {
                        Ok(left)
                    } else if is_literal(&left, false) {
                        Ok(right)
                    } else if is_literal(&right, false) {
                        Ok(left)
                    } else {
                        Ok(expr.clone())
                    }
                },
                BinaryOperator::ShortCircuitAnd => {
                    if is_literal(&left, true) && is_literal(&right, true) {
                        Ok(left)
                    } else if is_literal(&left, false) || is_literal(&right, false) {
                        Ok(make_literal(false))
                    } else if is_literal(&left, true) {
                        Ok(right)
                    } else if is_literal(&right, true) {
                        Ok(left)
                    } else {
                        Ok(expr.clone())
                    }
                },
                _ => Err(CondCompError::InvalidExpression(expr.clone())),
            }
        },
        Expression::TypeOrIdentifier(ty) => {
            if ty.template_args.is_some() {
                return Err(CondCompError::InvalidFeatureFlag(ty.name.clone()));
            }
            match lookup(features, ty.name.as_str()) {
                Some(value) => Ok(make_literal(value)),
                None => Ok(expr.clone()),
            }
        },
        _ => Err(CondCompError::InvalidExpression(expr.clone())),
    }
}

} // verus!
