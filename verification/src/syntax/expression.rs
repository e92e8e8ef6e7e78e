use crate::span::Span;
use vstd::prelude::*;

verus! {

/// A literal as it stands in the source. Floating-point literals are held as
/// their IEEE-754 bit patterns (`F16` widened to 32 bits).
#[derive(Clone, Copy, Debug, PartialEq, Eq, Structural)]
pub enum LiteralExpression {
    Bool(bool),
    AbstractInt(i64),
    AbstractFloat(u64),
    I32(i32),
    U32(u32),
    F32(u32),
    F16(u32),
}

#[derive(Clone, Copy, Debug, PartialEq, Eq, Structural)]
pub enum UnaryOperator {
    LogicalNegation,
    Negation,
    BitwiseComplement,
    AddressOf,
    Indirection,
}

#[derive(Clone, Copy, Debug, PartialEq, Eq, Structural)]
pub enum BinaryOperator {
    ShortCircuitOr,
    ShortCircuitAnd,
    Addition,
    Subtraction,
    Multiplication,
    Division,
    Remainder,
    Equality,
    Inequality,
    LessThan,
    LessThanEqual,
    GreaterThan,
    GreaterThanEqual,
    BitwiseOr,
    BitwiseAnd,
    BitwiseXor,
    ShiftLeft,
    ShiftRight,
}

/// A name with optional template arguments: a type, or an identifier used as a value.
#[derive(Debug, PartialEq)]
pub struct TypeExpression {
    pub name: String,
    pub template_args: Option<Vec<ExpressionNode>>,
}

/// An expression.
#[derive(Debug, PartialEq)]
pub enum Expression {
    Literal(LiteralExpression),
    Parenthesized(ExpressionNode),
    NamedComponent { base: ExpressionNode, component: String },
    Indexing { base: ExpressionNode, index: ExpressionNode },
    Unary { operator: UnaryOperator, operand: ExpressionNode },
    Binary { operator: BinaryOperator, left: ExpressionNode, right: ExpressionNode },
    FunctionCall { ty: TypeExpression, arguments: Vec<ExpressionNode> },
    TypeOrIdentifier(TypeExpression),
}

/// An expression together with the place in the source it was read from.
#[derive(Debug, PartialEq)]
pub struct ExpressionNode {
    pub span: Span,
    pub node: Box<Expression>,
}

pub struct TypeExpressionView {
    pub name: Seq<char>,
    pub template_args: Option<Seq<ExpressionNodeView>>,
}

pub enum ExpressionView {
    Literal(LiteralExpression),
    Parenthesized(ExpressionNodeView),
    NamedComponent { base: ExpressionNodeView, component: Seq<char> },
    Indexing { base: ExpressionNodeView, index: ExpressionNodeView },
    Unary { operator: UnaryOperator, operand: ExpressionNodeView },
    Binary { operator: BinaryOperator, left: ExpressionNodeView, right: ExpressionNodeView },
    FunctionCall { ty: TypeExpressionView, arguments: Seq<ExpressionNodeView> },
    TypeOrIdentifier(TypeExpressionView),
}

pub struct ExpressionNodeView {
    pub span: Span,
    pub node: Box<ExpressionView>,
}

/// The models of a list of expressions. Recursive definitions call this at
/// indices inside the list only.
pub open spec fn node_models(nodes: Seq<ExpressionNode>) -> Seq<ExpressionNodeView>
    decreases nodes,
{
    Seq::new(
        nodes.len(),
        |i: int|
            if 0 <= i < nodes.len() {
                nodes[i].model()
            } else {
                arbitrary()
            },
    )
}

/// The view of a list of arguments that may be absent.
pub open spec fn argument_views(arguments: Option<Vec<ExpressionNode>>) -> Option<
    Seq<ExpressionNodeView>,
> {
    match arguments {
        Some(args) => Some(node_models(args@)),
        None => None,
    }
}

impl TypeExpression {
    pub open spec fn model(self) -> TypeExpressionView
        decreases self,
    {
        TypeExpressionView {
            name: self.name@,
            template_args: match self.template_args {
                Some(args) => Some(node_models(args@)),
                None => None,
            },
        }
    }
}

impl Expression {
    pub open spec fn model(self) -> ExpressionView
        decreases self,
    {
        match self {
            Expression::Literal(lit) => ExpressionView::Literal(lit),
            Expression::Parenthesized(inner) => ExpressionView::Parenthesized(inner.model()),
            Expression::NamedComponent { base, component } => ExpressionView::NamedComponent {
                base: base.model(),
                component: component@,
            },
            Expression::Indexing { base, index } => ExpressionView::Indexing {
                base: base.model(),
                index: index.model(),
            },
            Expression::Unary { operator, operand } => ExpressionView::Unary {
                operator,
                operand: operand.model(),
            },
            Expression::Binary { operator, left, right } => ExpressionView::Binary {
                operator,
                left: left.model(),
                right: right.model(),
            },
            Expression::FunctionCall { ty, arguments } => ExpressionView::FunctionCall {
                ty: ty.model(),
                arguments: node_models(arguments@),
            },
            Expression::TypeOrIdentifier(ty) => ExpressionView::TypeOrIdentifier(ty.model()),
        }
    }
}

impl ExpressionNode {
    pub open spec fn model(self) -> ExpressionNodeView
        decreases self,
    {
        ExpressionNodeView { span: self.span, node: Box::new(self.node.model()) }
    }
}

impl View for TypeExpression {
    type V = TypeExpressionView;

    open spec fn view(&self) -> TypeExpressionView {
        self.model()
    }
}

impl View for Expression {
    type V = ExpressionView;

    open spec fn view(&self) -> ExpressionView {
        self.model()
    }
}

impl View for ExpressionNode {
    type V = ExpressionNodeView;

    open spec fn view(&self) -> ExpressionNodeView {
        self.model()
    }
}

/// A deep copy of a list of expressions.
pub fn copy_nodes(nodes: &Vec<ExpressionNode>) -> (copy: Vec<ExpressionNode>)
    ensures
        node_models(copy@) == node_models(nodes@),
    decreases nodes,
{
    let mut copy: Vec<ExpressionNode> = Vec::new();
    let mut i: usize = 0;
    while i < nodes.len()
        invariant
            i <= nodes.len(),
            copy@.len() == i,
            forall|j: int| 0 <= j < i ==> copy@[j].model() == nodes@[j].model(),
        decreases nodes.len() - i,
    {
        copy.push(nodes[i].copy());
        i += 1;
    }
    assert(node_models(copy@) =~= node_models(nodes@));
    copy
}

impl TypeExpression {
    /// A name without template arguments.
    pub fn new(name: String) -> (ty: TypeExpression)
        ensures
            ty@ == (TypeExpressionView { name: name@, template_args: None }),
    {
        TypeExpression { name, template_args: None }
    }

    pub fn copy(&self) -> (copy: TypeExpression)
        ensures
            copy@ == self@,
        decreases self,
    {
        let template_args = match &self.template_args {
            Some(args) => Some(copy_nodes(args)),
            None => None,
        };
        TypeExpression { name: self.name.clone(), template_args }
    }
}

impl Expression {
    pub fn copy(&self) -> (copy: Expression)
        ensures
            copy@ == self@,
        decreases self,
    {
        match self {
            Expression::Literal(lit) => Expression::Literal(*lit),
            Expression::Parenthesized(inner) => Expression::Parenthesized(inner.copy()),
            Expression::NamedComponent { base, component } => Expression::NamedComponent {
                base: base.copy(),
                component: component.clone(),
            },
            Expression::Indexing { base, index } => Expression::Indexing {
                base: base.copy(),
                index: index.copy(),
            },
            Expression::Unary { operator, operand } => Expression::Unary {
                operator: *operator,
                operand: operand.copy(),
            },
            Expression::Binary { operator, left, right } => Expression::Binary {
                operator: *operator,
                left: left.copy(),
                right: right.copy(),
            },
            Expression::FunctionCall { ty, arguments } => Expression::FunctionCall {
                ty: ty.copy(),
                arguments: copy_nodes(arguments),
            },
            Expression::TypeOrIdentifier(ty) => Expression::TypeOrIdentifier(ty.copy()),
        }
    }
}

impl ExpressionNode {
    pub fn new(node: Expression, span: Span) -> (spanned: ExpressionNode)
        ensures
            spanned@ == (ExpressionNodeView { span, node: Box::new(node@) }),
    {
        ExpressionNode { span, node: Box::new(node) }
    }

    pub fn copy(&self) -> (copy: ExpressionNode)
        ensures
            copy@ == self@,
        decreases self,
    {
        ExpressionNode { span: self.span, node: Box::new(self.node.copy()) }
    }

    /// Where the expression was read from.
    pub fn span(&self) -> (span: Span)
        ensures
            span == self.span,
    {
        self.span
    }
}

impl Clone for TypeExpression {
    fn clone(&self) -> (copy: TypeExpression)
        ensures
            copy@ == self@,
    {
        self.copy()
    }
}

impl Clone for Expression {
    fn clone(&self) -> (copy: Expression)
        ensures
            copy@ == self@,
    {
        self.copy()
    }
}

impl Clone for ExpressionNode {
    fn clone(&self) -> (copy: ExpressionNode)
        ensures
            copy@ == self@,
    {
        self.copy()
    }
}

} // verus!
