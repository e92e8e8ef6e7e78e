use crate::model::views;
use crate::syntax::attribute::{Attribute, AttributeView};
use crate::syntax::declaration::{
    ConstAssertView, DeclarationView, FormalParameter, FormalParameterView, GlobalDirective,
    GlobalDirectiveView, Import, ImportView, StructMember, StructMemberView, StructView,
    TypeAliasView,
};
use crate::syntax::statement::{
    BreakIfStatement, BreakIfStatementView, CompoundStatement, CompoundStatementView,
    ContinuingStatement, ContinuingStatementView, Statement, StatementNode, StatementNodeView,
    StatementView, SwitchClause, SwitchClauseView,
};
use crate::syntax::unit::{FunctionView, GlobalDeclaration, GlobalDeclarationView};
use vstd::prelude::*;

verus! {

/// A syntax node that carries a list of attributes.
pub trait Decorated: View + Sized {
    /// The attribute list of a node, read off its view.
    spec fn attributes_of(v: Self::V) -> Seq<AttributeView>;

    /// The view of a node once its attribute list is `attributes`; the rest
    /// of the node is as in `v`.
    spec fn with_attributes(v: Self::V, attributes: Seq<AttributeView>) -> Self::V;

    /// The attribute list that replaces another is the one that is read
    /// afterwards; the list in place replaces itself without a change; and of
    /// two replacements the second stands.
    proof fn lemma_attributes(
        v: Self::V,
        attributes: Seq<AttributeView>,
        others: Seq<AttributeView>,
    )
        ensures
            Self::attributes_of(Self::with_attributes(v, attributes)) == attributes,
            Self::with_attributes(v, Self::attributes_of(v)) == v,
            Self::with_attributes(Self::with_attributes(v, attributes), others)
                == Self::with_attributes(v, others),
    ;

    fn attributes(&self) -> (attributes: &Vec<Attribute>)
        ensures
            views(attributes@) == Self::attributes_of(self@),
    ;

    fn attributes_mut(&mut self) -> (attributes: &mut Vec<Attribute>)
        ensures
            views(attributes@) == Self::attributes_of(old(self)@),
            final(self)@ == Self::with_attributes(old(self)@, views(final(attributes)@)),
    ;
}

impl Decorated for StructMember {
    open spec fn attributes_of(v: StructMemberView) -> Seq<AttributeView> {
        v.attributes
    }

    open spec fn with_attributes(
        v: StructMemberView,
        attributes: Seq<AttributeView>,
    ) -> StructMemberView {
        StructMemberView { attributes, ..v }
    }

    proof fn lemma_attributes(
        v: Self::V,
        attributes: Seq<AttributeView>,
        others: Seq<AttributeView>,
    ) {
    }

    fn attributes(&self) -> (attributes: &Vec<Attribute>) {
        &self.attributes
    }

    fn attributes_mut(&mut self) -> (attributes: &mut Vec<Attribute>) {
        &mut self.attributes
    }
}

impl Decorated for GlobalDirective {
    open spec fn attributes_of(v: GlobalDirectiveView) -> Seq<AttributeView> {
        match v {
            GlobalDirectiveView::Diagnostic { attributes, .. } => attributes,
            GlobalDirectiveView::Enable { attributes, .. } => attributes,
            GlobalDirectiveView::Requires { attributes, .. } => attributes,
        }
    }

    open spec fn with_attributes(
        v: GlobalDirectiveView,
        attributes: Seq<AttributeView>,
    ) -> GlobalDirectiveView {
        match v {
            GlobalDirectiveView::Diagnostic { severity, rule_name, .. } => {
                GlobalDirectiveView::Diagnostic { attributes, severity, rule_name }
            },
            GlobalDirectiveView::Enable { extensions, .. } => GlobalDirectiveView::Enable {
                attributes,
                extensions,
            },
            GlobalDirectiveView::Requires { extensions, .. } => GlobalDirectiveView::Requires {
                attributes,
                extensions,
            },
        }
    }

    proof fn lemma_attributes(
        v: Self::V,
        attributes: Seq<AttributeView>,
        others: Seq<AttributeView>,
    ) {
    }

    fn attributes(&self) -> (attributes: &Vec<Attribute>) {
        match self {
            GlobalDirective::Diagnostic { attributes, .. } => attributes,
            GlobalDirective::Enable { attributes, .. } => attributes,
            GlobalDirective::Requires { attributes, .. } => attributes,
        }
    }

    fn attributes_mut(&mut self) -> (attributes: &mut Vec<Attribute>) {
        match self {
            GlobalDirective::Diagnostic { attributes, .. } => attributes,
            GlobalDirective::Enable { attributes, .. } => attributes,
            GlobalDirective::Requires { attributes, .. } => attributes,
        }
    }
}

impl Decorated for Import {
    open spec fn attributes_of(v: ImportView) -> Seq<AttributeView> {
        v.attributes
    }

    open spec fn with_attributes(v: ImportView, attributes: Seq<AttributeView>) -> ImportView {
        ImportView { attributes, ..v }
    }

    proof fn lemma_attributes(
        v: Self::V,
        attributes: Seq<AttributeView>,
        others: Seq<AttributeView>,
    ) {
    }

    fn attributes(&self) -> (attributes: &Vec<Attribute>) {
        &self.attributes
    }

    fn attributes_mut(&mut self) -> (attributes: &mut Vec<Attribute>) {
        &mut self.attributes
    }
}

impl Decorated for FormalParameter {
    open spec fn attributes_of(v: FormalParameterView) -> Seq<AttributeView> {
        v.attributes
    }

    open spec fn with_attributes(
        v: FormalParameterView,
        attributes: Seq<AttributeView>,
    ) -> FormalParameterView {
        FormalParameterView { attributes, ..v }
    }

    proof fn lemma_attributes(
        v: Self::V,
        attributes: Seq<AttributeView>,
        others: Seq<AttributeView>,
    ) {
    }

    fn attributes(&self) -> (attributes: &Vec<Attribute>) {
        &self.attributes
    }

    fn attributes_mut(&mut self) -> (attributes: &mut Vec<Attribute>) {
        &mut self.attributes
    }
}

impl Decorated for BreakIfStatement {
    open spec fn attributes_of(v: BreakIfStatementView) -> Seq<AttributeView> {
        v.attributes
    }

    open spec fn with_attributes(
        v: BreakIfStatementView,
        attributes: Seq<AttributeView>,
    ) -> BreakIfStatementView {
        BreakIfStatementView { attributes, ..v }
    }

    proof fn lemma_attributes(
        v: Self::V,
        attributes: Seq<AttributeView>,
        others: Seq<AttributeView>,
    ) {
    }

    fn attributes(&self) -> (attributes: &Vec<Attribute>) {
        &self.attributes
    }

    fn attributes_mut(&mut self) -> (attributes: &mut Vec<Attribute>) {
        &mut self.attributes
    }
}

impl Decorated for SwitchClause {
    open spec fn attributes_of(v: SwitchClauseView) -> Seq<AttributeView> {
        v.attributes
    }

    open spec fn with_attributes(
        v: SwitchClauseView,
        attributes: Seq<AttributeView>,
    ) -> SwitchClauseView {
        SwitchClauseView { attributes, ..v }
    }

    proof fn lemma_attributes(
        v: Self::V,
        attributes: Seq<AttributeView>,
        others: Seq<AttributeView>,
    ) {
    }

    fn attributes(&self) -> (attributes: &Vec<Attribute>) {
        &self.attributes
    }

    fn attributes_mut(&mut self) -> (attributes: &mut Vec<Attribute>) {
        &mut self.attributes
    }
}

impl Decorated for ContinuingStatement {
    open spec fn attributes_of(v: ContinuingStatementView) -> Seq<AttributeView> {
        v.attributes
    }

    open spec fn with_attributes(
        v: ContinuingStatementView,
        attributes: Seq<AttributeView>,
    ) -> ContinuingStatementView {
        ContinuingStatementView { attributes, ..v }
    }

    proof fn lemma_attributes(
        v: Self::V,
        attributes: Seq<AttributeView>,
        others: Seq<AttributeView>,
    ) {
    }

    fn attributes(&self) -> (attributes: &Vec<Attribute>) {
        &self.attributes
    }

    fn attributes_mut(&mut self) -> (attributes: &mut Vec<Attribute>) {
        &mut self.attributes
    }
}

impl Decorated for GlobalDeclaration {
    open spec fn attributes_of(v: GlobalDeclarationView) -> Seq<AttributeView> {
        match v {
            GlobalDeclarationView::Declaration(d) => d.attributes,
            GlobalDeclarationView::TypeAlias(d) => d.attributes,
            GlobalDeclarationView::Struct(d) => d.attributes,
            GlobalDeclarationView::Function(d) => d.attributes,
            GlobalDeclarationView::ConstAssert(d) => d.attributes,
        }
    }

    open spec fn with_attributes(
        v: GlobalDeclarationView,
        attributes: Seq<AttributeView>,
    ) -> GlobalDeclarationView {
        match v {
            GlobalDeclarationView::Declaration(d) => GlobalDeclarationView::Declaration(
                DeclarationView { attributes, ..d },
            ),
            GlobalDeclarationView::TypeAlias(d) => GlobalDeclarationView::TypeAlias(
                TypeAliasView { attributes, ..d },
            ),
            GlobalDeclarationView::Struct(d) => GlobalDeclarationView::Struct(
                StructView { attributes, ..d },
            ),
            GlobalDeclarationView::Function(d) => GlobalDeclarationView::Function(
                FunctionView { attributes, ..d },
            ),
            GlobalDeclarationView::ConstAssert(d) => GlobalDeclarationView::ConstAssert(
                ConstAssertView { attributes, ..d },
            ),
        }
    }

    proof fn lemma_attributes(
        v: Self::V,
        attributes: Seq<AttributeView>,
        others: Seq<AttributeView>,
    ) {
    }

    fn attributes(&self) -> (attributes: &Vec<Attribute>) {
        match self {
            GlobalDeclaration::Declaration(d) => &d.attributes,
            GlobalDeclaration::TypeAlias(d) => &d.attributes,
            GlobalDeclaration::Struct(d) => &d.attributes,
            GlobalDeclaration::Function(d) => &d.attributes,
            GlobalDeclaration::ConstAssert(d) => &d.attributes,
        }
    }

    fn attributes_mut(&mut self) -> (attributes: &mut Vec<Attribute>) {
        match self {
            GlobalDeclaration::Declaration(d) => &mut d.attributes,
            GlobalDeclaration::TypeAlias(d) => &mut d.attributes,
            GlobalDeclaration::Struct(d) => &mut d.attributes,
            GlobalDeclaration::Function(d) => &mut d.attributes,
            GlobalDeclaration::ConstAssert(d) => &mut d.attributes,
        }
    }
}

/// The attribute list of a statement.
pub open spec fn statement_attributes(v: StatementView) -> Seq<AttributeView> {
    match v {
        StatementView::Compound(c) => c.attributes,
        StatementView::Assignment { attributes, .. } => attributes,
        StatementView::Increment { attributes, .. } => attributes,
        StatementView::Decrement { attributes, .. } => attributes,
        StatementView::If { attributes, .. } => attributes,
        StatementView::Switch { attributes, .. } => attributes,
        StatementView::Loop { attributes, .. } => attributes,
        StatementView::For { attributes, .. } => attributes,
        StatementView::While { attributes, .. } => attributes,
        StatementView::Break { attributes } => attributes,
        StatementView::Continue { attributes } => attributes,
        StatementView::Return { attributes, .. } => attributes,
        StatementView::Discard { attributes } => attributes,
        StatementView::FunctionCall { attributes, .. } => attributes,
        StatementView::ConstAssert(c) => c.attributes,
        StatementView::Declaration(d) => d.attributes,
    }
}

/// A statement with its attribute list replaced.
pub open spec fn statement_with_attributes(
    v: StatementView,
    attributes: Seq<AttributeView>,
) -> StatementView {
    match v {
        StatementView::Compound(c) => StatementView::Compound(
            CompoundStatementView { attributes, ..c },
        ),
        StatementView::Assignment { operator, lhs, rhs, .. } => StatementView::Assignment {
            attributes,
            operator,
            lhs,
            rhs,
        },
        StatementView::Increment { expression, .. } => StatementView::Increment {
            attributes,
            expression,
        },
        StatementView::Decrement { expression, .. } => StatementView::Decrement {
            attributes,
            expression,
        },
        StatementView::If { if_clause, else_if_clauses, else_clause, .. } => StatementView::If {
            attributes,
            if_clause,
            else_if_clauses,
            else_clause,
        },
        StatementView::Switch { expression, body_attributes, clauses, .. } => {
            StatementView::Switch { attributes, expression, body_attributes, clauses }
        },
        StatementView::Loop { body, continuing, .. } => StatementView::Loop {
            attributes,
            body,
            continuing,
        },
        StatementView::For { initializer, condition, update, body, .. } => StatementView::For {
            attributes,
            initializer,
            condition,
            update,
            body,
        },
        StatementView::While { condition, body, .. } => StatementView::While {
            attributes,
            condition,
            body,
        },
        StatementView::Break { .. } => StatementView::Break { attributes },
        StatementView::Continue { .. } => StatementView::Continue { attributes },
        StatementView::Return { expression, .. } => StatementView::Return {
            attributes,
            expression,
        },
        StatementView::Discard { .. } => StatementView::Discard { attributes },
        StatementView::FunctionCall { ty, arguments, .. } => StatementView::FunctionCall {
            attributes,
            ty,
            arguments,
        },
        StatementView::ConstAssert(c) => StatementView::ConstAssert(
            ConstAssertView { attributes, ..c },
        ),
        StatementView::Declaration(d) => StatementView::Declaration(
            DeclarationView { attributes, ..d },
        ),
    }
}

impl Decorated for StatementNode {
    open spec fn attributes_of(v: StatementNodeView) -> Seq<AttributeView> {
        statement_attributes(*v.node)
    }

    open spec fn with_attributes(
        v: StatementNodeView,
        attributes: Seq<AttributeView>,
    ) -> StatementNodeView {
        StatementNodeView {
            span: v.span,
            node: Box::new(statement_with_attributes(*v.node, attributes)),
        }
    }

    proof fn lemma_attributes(
        v: Self::V,
        attributes: Seq<AttributeView>,
        others: Seq<AttributeView>,
    ) {
    }

    fn attributes(&self) -> (attributes: &Vec<Attribute>) {
        proof {
            reveal_with_fuel(StatementNode::model, 2);
            reveal_with_fuel(Statement::model, 2);
            reveal_with_fuel(CompoundStatement::model, 2);
        }
        match &*self.node {
            Statement::Compound(c) => &c.attributes,
            Statement::Assignment { attributes, .. } => attributes,
            Statement::Increment { attributes, .. } => attributes,
            Statement::Decrement { attributes, .. } => attributes,
            Statement::If { attributes, .. } => attributes,
            Statement::Switch { attributes, .. } => attributes,
            Statement::Loop { attributes, .. } => attributes,
            Statement::For { attributes, .. } => attributes,
            Statement::While { attributes, .. } => attributes,
            Statement::Break { attributes } => attributes,
            Statement::Continue { attributes } => attributes,
            Statement::Return { attributes, .. } => attributes,
            Statement::Discard { attributes } => attributes,
            Statement::FunctionCall { attributes, .. } => attributes,
            Statement::ConstAssert(c) => &c.attributes,
            Statement::Declaration(d) => &d.attributes,
        }
    }

    fn attributes_mut(&mut self) -> (attributes: &mut Vec<Attribute>) {
        proof {
            reveal_with_fuel(StatementNode::model, 2);
            reveal_with_fuel(Statement::model, 2);
            reveal_with_fuel(CompoundStatement::model, 2);
        }
        match &mut *self.node {
            Statement::Compound(c) => &mut c.attributes,
            Statement::Assignment { attributes, .. } => attributes,
            Statement::Increment { attributes, .. } => attributes,
            Statement::Decrement { attributes, .. } => attributes,
            Statement::If { attributes, .. } => attributes,
            Statement::Switch { attributes, .. } => attributes,
            Statement::Loop { attributes, .. } => attributes,
            Statement::For { attributes, .. } => attributes,
            Statement::While { attributes, .. } => attributes,
            Statement::Break { attributes } => attributes,
            Statement::Continue { attributes } => attributes,
            Statement::Return { attributes, .. } => attributes,
            Statement::Discard { attributes } => attributes,
            Statement::FunctionCall { attributes, .. } => attributes,
            Statement::ConstAssert(c) => &mut c.attributes,
            Statement::Declaration(d) => &mut d.attributes,
        }
    }
}

} // verus!
