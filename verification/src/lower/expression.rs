use crate::syntax::attribute::optional_node;
use crate::syntax::declaration::optional_type;
use crate::syntax::expression::{
    argument_views, node_models, Expression, ExpressionNode, ExpressionNodeView, ExpressionView,
    TypeExpression, TypeExpressionView,
};
use crate::text::str_eq;
use vstd::prelude::*;

verus! {

/// What takes the place of a name: a type, for the name of an alias; an
/// expression, for the name of a constant.
#[derive(Debug, PartialEq)]
pub enum Replacement {
    Type(TypeExpression),
    Value(ExpressionNode),
}

pub enum ReplacementView {
    Type(TypeExpressionView),
    Value(ExpressionNodeView),
}

impl View for Replacement {
    type V = ReplacementView;

    open spec fn view(&self) -> ReplacementView {
        match self {
            Replacement::Type(ty) => ReplacementView::Type(ty@),
            Replacement::Value(value) => ReplacementView::Value(value@),
        }
    }
}

/// A list of expressions with every use of `name` replaced.
pub open spec fn bound_nodes(
    nodes: Seq<ExpressionNodeView>,
    name: Seq<char>,
    by: ReplacementView,
) -> Seq<ExpressionNodeView>
    decreases nodes,
{
    Seq::new(
        nodes.len(),
        |i: int|
            if 0 <= i < nodes.len() {
                bound_node(nodes[i], name, by)
            } else {
                arbitrary()
            },
    )
}

/// A list of arguments that may be absent with every use of `name` replaced.
pub open spec fn bound_arguments(
    arguments: Option<Seq<ExpressionNodeView>>,
    name: Seq<char>,
    by: ReplacementView,
) -> Option<Seq<ExpressionNodeView>>
    decreases arguments,
{
    match arguments {
        Some(args) => Some(bound_nodes(args, name, by)),
        None => None,
    }
}

/// A type with every use of `name` replaced. Where the type is named `name`
/// itself and a type takes the place of the name, that type stands for all
/// of it; everywhere else the name is replaced in the template arguments.
pub open spec fn bound_type(
    ty: TypeExpressionView,
    name: Seq<char>,
    by: ReplacementView,
) -> TypeExpressionView
    decreases ty,
{
    match by {
        ReplacementView::Type(aliased) if ty.name == name => aliased,
        _ => TypeExpressionView {
            name: ty.name,
            template_args: bound_arguments(ty.template_args, name, by),
        },
    }
}

/// An expression with every use of `name` replaced.
pub open spec fn bound_node(
    node: ExpressionNodeView,
    name: Seq<char>,
    by: ReplacementView,
) -> ExpressionNodeView
    decreases node,
{
    ExpressionNodeView { span: node.span, node: Box::new(bound_expr(*node.node, name, by)) }
}

/// An expression with every use of `name` replaced. A use as a value becomes
/// the type that takes the name's place, or the expression that does, in
/// parentheses.
pub open spec fn bound_expr(
    expr: ExpressionView,
    name: Seq<char>,
    by: ReplacementView,
) -> ExpressionView
    decreases expr,
{
    match expr {
        ExpressionView::Literal(_) => expr,
        ExpressionView::Parenthesized(inner) => ExpressionView::Parenthesized(
            bound_node(inner, name, by),
        ),
        ExpressionView::NamedComponent { base, component } => ExpressionView::NamedComponent {
            base: bound_node(base, name, by),
            component,
        },
        ExpressionView::Indexing { base, index } => ExpressionView::Indexing {
            base: bound_node(base, name, by),
            index: bound_node(index, name, by),
        },
        ExpressionView::Unary { operator, operand } => ExpressionView::Unary {
            operator,
            operand: bound_node(operand, name, by),
        },
        ExpressionView::Binary { operator, left, right } => ExpressionView::Binary {
            operator,
            left: bound_node(left, name, by),
            right: bound_node(right, name, by),
        },
        ExpressionView::FunctionCall { ty, arguments } => ExpressionView::FunctionCall {
            ty: bound_type(ty, name, by),
            arguments: bound_nodes(arguments, name, by),
        },
        ExpressionView::TypeOrIdentifier(ty) => if ty.name == name {
            match by {
                ReplacementView::Type(aliased) => ExpressionView::TypeOrIdentifier(aliased),
                ReplacementView::Value(value) => ExpressionView::Parenthesized(value),
            }
        } else {
            ExpressionView::TypeOrIdentifier(bound_type(ty, name, by))
        },
    }
}

/// An expression that may be absent with every use of `name` replaced.
pub open spec fn bound_optional(
    node: Option<ExpressionNodeView>,
    name: Seq<char>,
    by: ReplacementView,
) -> Option<ExpressionNodeView> {
    match node {
        Some(n) => Some(bound_node(n, name, by)),
        None => None,
    }
}

/// A type that may be absent with every use of `name` replaced.
pub open spec fn bound_optional_type(
    ty: Option<TypeExpressionView>,
    name: Seq<char>,
    by: ReplacementView,
) -> Option<TypeExpressionView> {
    match ty {
        Some(t) => Some(bound_type(t, name, by)),
        None => None,
    }
}

/// Replaces every use of `name` in a list of expressions.
#[verifier::loop_isolation(false)]
pub fn bind_nodes(nodes: &mut Vec<ExpressionNode>, name: &str, by: &Replacement)
    ensures
        node_models(final(nodes)@) == bound_nodes(node_models(old(nodes)@), name@, by@),
    decreases *old(nodes),
{
    let ghost before = nodes@;
    let mut i: usize = 0;
    while i < nodes.len()
        invariant
            i <= nodes.len(),
            nodes@.len() == before.len(),
            forall|k: int| i <= k < before.len() ==> nodes@[k] == before[k],
            forall|k: int|
                0 <= k < i ==> (#[trigger] nodes@[k])@ == bound_node(before[k]@, name@, by@),
        decreases nodes.len() - i,
    {
        bind_node(&mut nodes[i], name, by);
        i += 1;
    }
    assert(node_models(nodes@) =~= bound_nodes(node_models(before), name@, by@));
}

/// Replaces every use of `name` in a list of arguments that may be absent.
pub fn bind_arguments(arguments: &mut Option<Vec<ExpressionNode>>, name: &str, by: &Replacement)
    ensures
        argument_views(*final(arguments)) == bound_arguments(
            argument_views(*old(arguments)),
            name@,
            by@,
        ),
    decreases *old(arguments),
{
    match arguments {
        Some(args) => bind_nodes(args, name, by),
        None => {},
    }
}

/// Replaces every use of `name` in a type.
pub fn bind_type(ty: &mut TypeExpression, name: &str, by: &Replacement)
    ensures
        final(ty)@ == bound_type(old(ty)@, name@, by@),
    decreases *old(ty),
{
    match by {
        Replacement::Type(aliased) => {
            if str_eq(ty.name.as_str(), name) {
                *ty = aliased.clone();
                return ;
            }
        },
        _ => {},
    }
    bind_arguments(&mut ty.template_args, name, by);
}

/// Replaces every use of `name` in an expression.
pub fn bind_node(node: &mut ExpressionNode, name: &str, by: &Replacement)
    ensures
        final(node)@ == bound_node(old(node)@, name@, by@),
    decreases *old(node),
{
    bind_expr(&mut *node.node, name, by);
}

/// Replaces every use of `name` in an expression.
pub fn bind_expr(expr: &mut Expression, name: &str, by: &Replacement)
    ensures
        final(expr)@ == bound_expr(old(expr)@, name@, by@),
    decreases *old(expr),
{
    let used = match &*expr {
        Expression::TypeOrIdentifier(ty) => str_eq(ty.name.as_str(), name),
        _ => false,
    };
    if used {
        *expr = match by {
            Replacement::Type(aliased) => Expression::TypeOrIdentifier(aliased.clone()),
            Replacement::Value(value) => Expression::Parenthesized(value.clone()),
        };
        return ;
    }
    match expr {
        Expression::Literal(_) => {},
        Expression::Parenthesized(inner) => bind_node(inner, name, by),
        Expression::NamedComponent { base, .. } => bind_node(base, name, by),
        Expression::Indexing { base, index } => {
            bind_node(base, name, by);
            bind_node(index, name, by);
        },
        Expression::Unary { operand, .. } => bind_node(operand, name, by),
        Expression::Binary { left, right, .. } => {
            bind_node(left, name, by);
            bind_node(right, name, by);
        },
        Expression::FunctionCall { ty, arguments } => {
            bind_type(ty, name, by);
            bind_nodes(arguments, name, by);
        },
        Expression::TypeOrIdentifier(ty) => bind_type(ty, name, by),
    }
}

/// Replaces every use of `name` in an expression that may be absent.
pub fn bind_optional(node: &mut Option<ExpressionNode>, name: &str, by: &Replacement)
    ensures
        optional_node(*final(node)) == bound_optional(
            optional_node(*old(node)),
            name@,
            by@,
        ),
{
    match node {
        Some(n) => bind_node(n, name, by),
        None => {},
    }
}

/// Replaces every use of `name` in a type that may be absent.
pub fn bind_optional_type(ty: &mut Option<TypeExpression>, name: &str, by: &Replacement)
    ensures
        optional_type(*final(ty)) == bound_optional_type(
            optional_type(*old(ty)),
            name@,
            by@,
        ),
{
    match ty {
        Some(t) => bind_type(t, name, by),
        None => {},
    }
}

} // verus!
