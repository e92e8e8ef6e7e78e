use crate::model::views;
use crate::span::Span;
use crate::syntax::expression::{
    Expression, ExpressionNode, ExpressionNodeView, ExpressionView,
};
use vstd::prelude::*;

verus! {

/// What follows a primary expression: `.name` or `[index]`.
#[derive(Debug, PartialEq)]
pub enum Component {
    Named(String),
    Index(ExpressionNode),
}

/// A component together with the place in the source it was read from.
#[derive(Debug, PartialEq)]
pub struct ComponentNode {
    pub span: Span,
    pub node: Component,
}

pub enum ComponentView {
    Named(Seq<char>),
    Index(ExpressionNodeView),
}

pub struct ComponentNodeView {
    pub span: Span,
    pub node: ComponentView,
}

impl View for ComponentNode {
    type V = ComponentNodeView;

    open spec fn view(&self) -> ComponentNodeView {
        ComponentNodeView {
            span: self.span,
            node: match self.node {
                Component::Named(name) => ComponentView::Named(name@),
                Component::Index(index) => ComponentView::Index(index@),
            },
        }
    }
}

/// An expression with one component applied to it. The expression it is
/// applied to reaches from where `span` begins to where the component ends.
pub open spec fn with_component(
    base: ExpressionView,
    span: Span,
    component: ComponentNodeView,
) -> ExpressionView {
    let base = ExpressionNodeView {
        span: Span { start: span.start, end: component.span.end },
        node: Box::new(base),
    };
    match component.node {
        ComponentView::Named(component) => ExpressionView::NamedComponent { base, component },
        ComponentView::Index(index) => ExpressionView::Indexing { base, index },
    }
}

/// An expression with the first `n` components of a list applied to it, one
/// after the other.
pub open spec fn applied(
    expr: ExpressionView,
    span: Span,
    components: Seq<ComponentNodeView>,
    n: nat,
) -> ExpressionView
    decreases n,
{
    if n == 0 || n > components.len() {
        expr
    } else {
        with_component(applied(expr, span, components, (n - 1) as nat), span, components[n - 1])
    }
}

/// Applies a list of components to an expression, the first innermost.
pub fn apply_components(
    expr: Expression,
    span: Span,
    components: Vec<ComponentNode>,
) -> (result: Expression)
    ensures
        result@ == applied(
            expr@,
            span,
            views(components@),
            components@.len() as nat,
        ),
{
    let ghost all = views(components@);
    let ghost list = components@;
    let mut base = expr;
    for comp in it: components
        invariant
            it.seq() == list,
            all == views(list),
            base@ == applied(expr@, span, all, it.index() as nat),
    {
        assert(all[it.index() as int] == comp@);
        let node = ExpressionNode::new(base, span.extend(comp.span));
        base = match comp.node {
            Component::Named(component) => Expression::NamedComponent { base: node, component },
            Component::Index(index) => Expression::Indexing { base: node, index },
        };
    }
    base
}

} // verus!
