use crate::model::views;
use crate::span::Span;
use crate::syntax::attribute::{
    copy_attributes, copy_optional_node, optional_node, Attribute, AttributeView,
};
use crate::syntax::declaration::{ConstAssert, ConstAssertView, Declaration, DeclarationView};
use crate::syntax::expression::{
    copy_nodes, node_models, ExpressionNode, ExpressionNodeView, TypeExpression, TypeExpressionView,
};
use vstd::prelude::*;

verus! {

#[derive(Clone, Copy, Debug, PartialEq, Eq, Structural)]
pub enum AssignmentOperator {
    Equal,
    PlusEqual,
    MinusEqual,
    TimesEqual,
    DivisionEqual,
    ModuloEqual,
    AndEqual,
    OrEqual,
    XorEqual,
    ShiftRightAssign,
    ShiftLeftAssign,
}

/// What a `switch` clause is chosen by.
#[derive(Debug, PartialEq)]
pub enum CaseSelector {
    Default,
    Expression(ExpressionNode),
}

pub enum CaseSelectorView {
    Default,
    Expression(ExpressionNodeView),
}

impl View for CaseSelector {
    type V = CaseSelectorView;

    open spec fn view(&self) -> CaseSelectorView {
        match self {
            CaseSelector::Default => CaseSelectorView::Default,
            CaseSelector::Expression(e) => CaseSelectorView::Expression(e@),
        }
    }
}

/// The `break if` at the end of a `continuing` block.
#[derive(Debug, PartialEq)]
pub struct BreakIfStatement {
    pub attributes: Vec<Attribute>,
    pub expression: ExpressionNode,
}

pub struct BreakIfStatementView {
    pub attributes: Seq<AttributeView>,
    pub expression: ExpressionNodeView,
}

impl View for BreakIfStatement {
    type V = BreakIfStatementView;

    open spec fn view(&self) -> BreakIfStatementView {
        BreakIfStatementView { attributes: views(self.attributes@), expression: self.expression@ }
    }
}

/// A brace-enclosed list of statements.
#[derive(Debug, PartialEq)]
pub struct CompoundStatement {
    pub attributes: Vec<Attribute>,
    pub statements: Vec<StatementNode>,
}

/// A statement together with the place in the source it was read from.
#[derive(Debug, PartialEq)]
pub struct StatementNode {
    pub span: Span,
    pub node: Box<Statement>,
}

/// The condition and body of an `if` or `else if`.
#[derive(Debug, PartialEq)]
pub struct IfClause {
    pub expression: ExpressionNode,
    pub body: CompoundStatement,
}

/// A clause of a `switch` statement.
#[derive(Debug, PartialEq)]
pub struct SwitchClause {
    pub attributes: Vec<Attribute>,
    pub case_selectors: Vec<CaseSelector>,
    pub body: CompoundStatement,
}

/// The `continuing` block of a loop.
#[derive(Debug, PartialEq)]
pub struct ContinuingStatement {
    pub attributes: Vec<Attribute>,
    pub body: CompoundStatement,
    pub break_if: Option<BreakIfStatement>,
}

/// A statement.
#[derive(Debug, PartialEq)]
pub enum Statement {
    Compound(CompoundStatement),
    Assignment {
        attributes: Vec<Attribute>,
        operator: AssignmentOperator,
        lhs: ExpressionNode,
        rhs: ExpressionNode,
    },
    Increment { attributes: Vec<Attribute>, expression: ExpressionNode },
    Decrement { attributes: Vec<Attribute>, expression: ExpressionNode },
    If {
        attributes: Vec<Attribute>,
        if_clause: IfClause,
        else_if_clauses: Vec<IfClause>,
        else_clause: Option<CompoundStatement>,
    },
    Switch {
        attributes: Vec<Attribute>,
        expression: ExpressionNode,
        body_attributes: Vec<Attribute>,
        clauses: Vec<SwitchClause>,
    },
    Loop {
        attributes: Vec<Attribute>,
        body: CompoundStatement,
        continuing: Option<ContinuingStatement>,
    },
    For {
        attributes: Vec<Attribute>,
        initializer: Option<StatementNode>,
        condition: Option<ExpressionNode>,
        update: Option<StatementNode>,
        body: CompoundStatement,
    },
    While { attributes: Vec<Attribute>, condition: ExpressionNode, body: CompoundStatement },
    Break { attributes: Vec<Attribute> },
    Continue { attributes: Vec<Attribute> },
    Return { attributes: Vec<Attribute>, expression: Option<ExpressionNode> },
    Discard { attributes: Vec<Attribute> },
    FunctionCall {
        attributes: Vec<Attribute>,
        ty: TypeExpression,
        arguments: Vec<ExpressionNode>,
    },
    ConstAssert(ConstAssert),
    Declaration(Declaration),
}

pub struct CompoundStatementView {
    pub attributes: Seq<AttributeView>,
    pub statements: Seq<StatementNodeView>,
}

pub struct StatementNodeView {
    pub span: Span,
    pub node: Box<StatementView>,
}

pub struct IfClauseView {
    pub expression: ExpressionNodeView,
    pub body: CompoundStatementView,
}

pub struct SwitchClauseView {
    pub attributes: Seq<AttributeView>,
    pub case_selectors: Seq<CaseSelectorView>,
    pub body: CompoundStatementView,
}

pub struct ContinuingStatementView {
    pub attributes: Seq<AttributeView>,
    pub body: CompoundStatementView,
    pub break_if: Option<BreakIfStatementView>,
}

#[allow(inconsistent_fields)]
pub enum StatementView {
    Compound(CompoundStatementView),
    Assignment {
        attributes: Seq<AttributeView>,
        operator: AssignmentOperator,
        lhs: ExpressionNodeView,
        rhs: ExpressionNodeView,
    },
    Increment { attributes: Seq<AttributeView>, expression: ExpressionNodeView },
    Decrement { attributes: Seq<AttributeView>, expression: ExpressionNodeView },
    If {
        attributes: Seq<AttributeView>,
        if_clause: IfClauseView,
        else_if_clauses: Seq<IfClauseView>,
        else_clause: Option<CompoundStatementView>,
    },
    Switch {
        attributes: Seq<AttributeView>,
        expression: ExpressionNodeView,
        body_attributes: Seq<AttributeView>,
        clauses: Seq<SwitchClauseView>,
    },
    Loop {
        attributes: Seq<AttributeView>,
        body: CompoundStatementView,
        continuing: Option<ContinuingStatementView>,
    },
    For {
        attributes: Seq<AttributeView>,
        initializer: Option<StatementNodeView>,
        condition: Option<ExpressionNodeView>,
        update: Option<StatementNodeView>,
        body: CompoundStatementView,
    },
    While {
        attributes: Seq<AttributeView>,
        condition: ExpressionNodeView,
        body: CompoundStatementView,
    },
    Break { attributes: Seq<AttributeView> },
    Continue { attributes: Seq<AttributeView> },
    Return { attributes: Seq<AttributeView>, expression: Option<ExpressionNodeView> },
    Discard { attributes: Seq<AttributeView> },
    FunctionCall {
        attributes: Seq<AttributeView>,
        ty: TypeExpressionView,
        arguments: Seq<ExpressionNodeView>,
    },
    ConstAssert(ConstAssertView),
    Declaration(DeclarationView),
}

/// The models of a list of statements.
pub open spec fn statement_models(nodes: Seq<StatementNode>) -> Seq<StatementNodeView>
    decreases nodes,
{
    Seq::new(
        nodes.len(),
        |i: int|
            if 0 <= i < nodes.len() {
                nodes[i].model()
            } else {
                arbitrary()
            },
    )
}

/// The models of a list of `else if` clauses.
pub open spec fn if_clause_models(clauses: Seq<IfClause>) -> Seq<IfClauseView>
    decreases clauses,
{
    Seq::new(
        clauses.len(),
        |i: int|
            if 0 <= i < clauses.len() {
                clauses[i].model()
            } else {
                arbitrary()
            },
    )
}

/// The models of a list of `switch` clauses.
pub open spec fn switch_clause_models(clauses: Seq<SwitchClause>) -> Seq<SwitchClauseView>
    decreases clauses,
{
    Seq::new(
        clauses.len(),
        |i: int|
            if 0 <= i < clauses.len() {
                clauses[i].model()
            } else {
                arbitrary()
            },
    )
}

impl CompoundStatement {
    pub open spec fn model(self) -> CompoundStatementView
        decreases self,
    {
        CompoundStatementView {
            attributes: views(self.attributes@),
            statements: statement_models(self.statements@),
        }
    }
}

impl StatementNode {
    pub open spec fn model(self) -> StatementNodeView
        decreases self,
    {
        StatementNodeView { span: self.span, node: Box::new(self.node.model()) }
    }
}

impl IfClause {
    pub open spec fn model(self) -> IfClauseView
        decreases self,
    {
        IfClauseView { expression: self.expression@, body: self.body.model() }
    }
}

impl SwitchClause {
    pub open spec fn model(self) -> SwitchClauseView
        decreases self,
    {
        SwitchClauseView {
            attributes: views(self.attributes@),
            case_selectors: views(self.case_selectors@),
            body: self.body.model(),
        }
    }
}

impl ContinuingStatement {
    pub open spec fn model(self) -> ContinuingStatementView
        decreases self,
    {
        ContinuingStatementView {
            attributes: views(self.attributes@),
            body: self.body.model(),
            break_if: match self.break_if {
                Some(b) => Some(b@),
                None => None,
            },
        }
    }
}

impl Statement {
    pub open spec fn model(self) -> StatementView
        decreases self,
    {
        match self {
            Statement::Compound(c) => StatementView::Compound(c.model()),
            Statement::Assignment { attributes, operator, lhs, rhs } => StatementView::Assignment {
                attributes: views(attributes@),
                operator,
                lhs: lhs@,
                rhs: rhs@,
            },
            Statement::Increment { attributes, expression } => StatementView::Increment {
                attributes: views(attributes@),
                expression: expression@,
            },
            Statement::Decrement { attributes, expression } => StatementView::Decrement {
                attributes: views(attributes@),
                expression: expression@,
            },
            Statement::If { attributes, if_clause, else_if_clauses, else_clause } => {
                StatementView::If {
                    attributes: views(attributes@),
                    if_clause: if_clause.model(),
                    else_if_clauses: if_clause_models(else_if_clauses@),
                    else_clause: match else_clause {
                        Some(c) => Some(c.model()),
                        None => None,
                    },
                }
            },
            Statement::Switch { attributes, expression, body_attributes, clauses } => {
                StatementView::Switch {
                    attributes: views(attributes@),
                    expression: expression@,
                    body_attributes: views(body_attributes@),
                    clauses: switch_clause_models(clauses@),
                }
            },
            Statement::Loop { attributes, body, continuing } => StatementView::Loop {
                attributes: views(attributes@),
                body: body.model(),
                continuing: match continuing {
                    Some(c) => Some(c.model()),
                    None => None,
                },
            },
            Statement::For { attributes, initializer, condition, update, body } => {
                StatementView::For {
                    attributes: views(attributes@),
                    initializer: match initializer {
                        Some(s) => Some(s.model()),
                        None => None,
                    },
                    condition: optional_node(condition),
                    update: match update {
                        Some(s) => Some(s.model()),
                        None => None,
                    },
                    body: body.model(),
                }
            },
            Statement::While { attributes, condition, body } => StatementView::While {
                attributes: views(attributes@),
                condition: condition@,
                body: body.model(),
            },
            Statement::Break { attributes } => StatementView::Break {
                attributes: views(attributes@),
            },
            Statement::Continue { attributes } => StatementView::Continue {
                attributes: views(attributes@),
            },
            Statement::Return { attributes, expression } => StatementView::Return {
                attributes: views(attributes@),
                expression: optional_node(expression),
            },
            Statement::Discard { attributes } => StatementView::Discard {
                attributes: views(attributes@),
            },
            Statement::FunctionCall { attributes, ty, arguments } => StatementView::FunctionCall {
                attributes: views(attributes@),
                ty: ty@,
                arguments: node_models(arguments@),
            },
            Statement::ConstAssert(c) => StatementView::ConstAssert(c@),
            Statement::Declaration(d) => StatementView::Declaration(d@),
        }
    }
}

impl View for CompoundStatement {
    type V = CompoundStatementView;

    open spec fn view(&self) -> CompoundStatementView {
        self.model()
    }
}

impl View for StatementNode {
    type V = StatementNodeView;

    open spec fn view(&self) -> StatementNodeView {
        self.model()
    }
}

impl View for IfClause {
    type V = IfClauseView;

    open spec fn view(&self) -> IfClauseView {
        self.model()
    }
}

impl View for SwitchClause {
    type V = SwitchClauseView;

    open spec fn view(&self) -> SwitchClauseView {
        self.model()
    }
}

impl View for ContinuingStatement {
    type V = ContinuingStatementView;

    open spec fn view(&self) -> ContinuingStatementView {
        self.model()
    }
}

impl View for Statement {
    type V = StatementView;

    open spec fn view(&self) -> StatementView {
        self.model()
    }
}

impl Clone for CaseSelector {
    fn clone(&self) -> (copy: CaseSelector)
        ensures
            copy@ == self@,
    {
        match self {
            CaseSelector::Default => CaseSelector::Default,
            CaseSelector::Expression(e) => CaseSelector::Expression(e.clone()),
        }
    }
}

impl Clone for BreakIfStatement {
    fn clone(&self) -> (copy: BreakIfStatement)
        ensures
            copy@ == self@,
    {
        BreakIfStatement {
            attributes: copy_attributes(&self.attributes),
            expression: self.expression.clone(),
        }
    }
}

/// A copy of a list of case selectors.
fn copy_selectors(list: &Vec<CaseSelector>) -> (copy: Vec<CaseSelector>)
    ensures
        views(copy@) == views(list@),
{
    let mut copy: Vec<CaseSelector> = Vec::new();
    let mut i: usize = 0;
    while i < list.len()
        invariant
            i <= list.len(),
            copy@.len() == i,
            forall|k: int| 0 <= k < i ==> (#[trigger] copy@[k])@ == list@[k]@,
        decreases list.len() - i,
    {
        copy.push(list[i].clone());
        i += 1;
    }
    assert(views(copy@) =~= views(list@));
    copy
}

/// A deep copy of a list.
pub fn copy_statements(list: &Vec<StatementNode>) -> (copy: Vec<StatementNode>)
    ensures
        statement_models(copy@) == statement_models(list@),
    decreases list,
{
    let mut copy: Vec<StatementNode> = Vec::new();
    let mut i: usize = 0;
    while i < list.len()
        invariant
            i <= list.len(),
            copy@.len() == i,
            forall|k: int| 0 <= k < i ==> (#[trigger] copy@[k]).model() == list@[k].model(),
        decreases list.len() - i,
    {
        copy.push(list[i].copy());
        i += 1;
    }
    assert(statement_models(copy@) =~= statement_models(list@));
    copy
}

/// A deep copy of a list.
pub fn copy_if_clauses(list: &Vec<IfClause>) -> (copy: Vec<IfClause>)
    ensures
        if_clause_models(copy@) == if_clause_models(list@),
    decreases list,
{
    let mut copy: Vec<IfClause> = Vec::new();
    let mut i: usize = 0;
    while i < list.len()
        invariant
            i <= list.len(),
            copy@.len() == i,
            forall|k: int| 0 <= k < i ==> (#[trigger] copy@[k]).model() == list@[k].model(),
        decreases list.len() - i,
    {
        copy.push(list[i].copy());
        i += 1;
    }
    assert(if_clause_models(copy@) =~= if_clause_models(list@));
    copy
}

/// A deep copy of a list.
pub fn copy_switch_clauses(list: &Vec<SwitchClause>) -> (copy: Vec<SwitchClause>)
    ensures
        switch_clause_models(copy@) == switch_clause_models(list@),
    decreases list,
{
    let mut copy: Vec<SwitchClause> = Vec::new();
    let mut i: usize = 0;
    while i < list.len()
        invariant
            i <= list.len(),
            copy@.len() == i,
            forall|k: int| 0 <= k < i ==> (#[trigger] copy@[k]).model() == list@[k].model(),
        decreases list.len() - i,
    {
        copy.push(list[i].copy());
        i += 1;
    }
    assert(switch_clause_models(copy@) =~= switch_clause_models(list@));
    copy
}

impl CompoundStatement {
    pub fn copy(&self) -> (copy: CompoundStatement)
        ensures
            copy@ == self@,
        decreases self,
    {
        CompoundStatement {
            attributes: copy_attributes(&self.attributes),
            statements: copy_statements(&self.statements),
        }
    }
}

impl StatementNode {
    pub fn copy(&self) -> (copy: StatementNode)
        ensures
            copy@ == self@,
        decreases self,
    {
        StatementNode { span: self.span, node: Box::new(self.node.copy()) }
    }
}

impl IfClause {
    pub fn copy(&self) -> (copy: IfClause)
        ensures
            copy@ == self@,
        decreases self,
    {
        IfClause { expression: self.expression.clone(), body: self.body.copy() }
    }
}

impl SwitchClause {
    pub fn copy(&self) -> (copy: SwitchClause)
        ensures
            copy@ == self@,
        decreases self,
    {
        SwitchClause {
            attributes: copy_attributes(&self.attributes),
            case_selectors: copy_selectors(&self.case_selectors),
            body: self.body.copy(),
        }
    }
}

impl ContinuingStatement {
    pub fn copy(&self) -> (copy: ContinuingStatement)
        ensures
            copy@ == self@,
        decreases self,
    {
        ContinuingStatement {
            attributes: copy_attributes(&self.attributes),
            body: self.body.copy(),
            break_if: match &self.break_if {
                Some(b) => Some(b.clone()),
                None => None,
            },
        }
    }
}

impl Statement {
    pub fn copy(&self) -> (copy: Statement)
        ensures
            copy@ == self@,
        decreases self,
    {
        match self {
            Statement::Compound(c) => Statement::Compound(c.copy()),
            Statement::Assignment { attributes, operator, lhs: target, rhs: source } => {
                Statement::Assignment {
                    attributes: copy_attributes(attributes),
                    operator: *operator,
                    lhs: target.clone(),
                    rhs: source.clone(),
                }
            },
            Statement::Increment { attributes, expression } => Statement::Increment {
                attributes: copy_attributes(attributes),
                expression: expression.clone(),
            },
            Statement::Decrement { attributes, expression } => Statement::Decrement {
                attributes: copy_attributes(attributes),
                expression: expression.clone(),
            },
            Statement::If { attributes, if_clause, else_if_clauses, else_clause } => {
                Statement::If {
                    attributes: copy_attributes(attributes),
                    if_clause: if_clause.copy(),
                    else_if_clauses: copy_if_clauses(else_if_clauses),
                    else_clause: match else_clause {
                        Some(c) => Some(c.copy()),
                        None => None,
                    },
                }
            },
            Statement::Switch { attributes, expression, body_attributes, clauses } => {
                Statement::Switch {
                    attributes: copy_attributes(attributes),
                    expression: expression.clone(),
                    body_attributes: copy_attributes(body_attributes),
                    clauses: copy_switch_clauses(clauses),
                }
            },
            Statement::Loop { attributes, body, continuing } => Statement::Loop {
                attributes: copy_attributes(attributes),
                body: body.copy(),
                continuing: match continuing {
                    Some(c) => Some(c.copy()),
                    None => None,
                },
            },
            Statement::For { attributes, initializer, condition, update, body } => {
                Statement::For {
                    attributes: copy_attributes(attributes),
                    initializer: match initializer {
                        Some(s) => Some(s.copy()),
                        None => None,
                    },
                    condition: copy_optional_node(condition),
                    update: match update {
                        Some(s) => Some(s.copy()),
                        None => None,
                    },
                    body: body.copy(),
                }
            },
            Statement::While { attributes, condition, body } => Statement::While {
                attributes: copy_attributes(attributes),
                condition: condition.clone(),
                body: body.copy(),
            },
            Statement::Break { attributes } => Statement::Break {
                attributes: copy_attributes(attributes),
            },
            Statement::Continue { attributes } => Statement::Continue {
                attributes: copy_attributes(attributes),
            },
            Statement::Return { attributes, expression } => Statement::Return {
                attributes: copy_attributes(attributes),
                expression: copy_optional_node(expression),
            },
            Statement::Discard { attributes } => Statement::Discard {
                attributes: copy_attributes(attributes),
            },
            Statement::FunctionCall { attributes, ty, arguments } => Statement::FunctionCall {
                attributes: copy_attributes(attributes),
                ty: ty.clone(),
                arguments: copy_nodes(arguments),
            },
            Statement::ConstAssert(c) => Statement::ConstAssert(c.clone()),
            Statement::Declaration(d) => Statement::Declaration(d.clone()),
        }
    }
}

impl Clone for CompoundStatement {
    fn clone(&self) -> (copy: CompoundStatement)
        ensures
            copy@ == self@,
    {
        self.copy()
    }
}

impl Clone for StatementNode {
    fn clone(&self) -> (copy: StatementNode)
        ensures
            copy@ == self@,
    {
        self.copy()
    }
}

impl Clone for IfClause {
    fn clone(&self) -> (copy: IfClause)
        ensures
            copy@ == self@,
    {
        self.copy()
    }
}

impl Clone for SwitchClause {
    fn clone(&self) -> (copy: SwitchClause)
        ensures
            copy@ == self@,
    {
        self.copy()
    }
}

impl Clone for ContinuingStatement {
    fn clone(&self) -> (copy: ContinuingStatement)
        ensures
            copy@ == self@,
    {
        self.copy()
    }
}

impl Clone for Statement {
    fn clone(&self) -> (copy: Statement)
        ensures
            copy@ == self@,
    {
        self.copy()
    }
}

} // verus!
