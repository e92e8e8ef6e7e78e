use crate::condcomp::prune::slot_view;
use crate::lower::declaration::{
    bind_attributes, bind_const_assert, bind_declaration, bound_attributes, bound_const_assert,
    bound_declaration,
};
use crate::lower::expression::{
    bind_node, bind_nodes, bind_optional, bind_type, bound_node, bound_nodes, bound_optional,
    bound_type, Replacement, ReplacementView,
};
use crate::model::views;
use crate::syntax::statement::{
    if_clause_models, statement_models, switch_clause_models, BreakIfStatement,
    BreakIfStatementView, CaseSelector, CaseSelectorView, CompoundStatement, CompoundStatementView,
    ContinuingStatement, ContinuingStatementView, IfClause, IfClauseView, Statement, StatementNode,
    StatementNodeView, StatementView, SwitchClause, SwitchClauseView,
};
use vstd::prelude::*;

verus! {

/// A list of statements with every use of `name` replaced.
pub open spec fn bound_statements(
    items: Seq<StatementNodeView>,
    name: Seq<char>,
    by: ReplacementView,
) -> Seq<StatementNodeView>
    decreases items,
{
    Seq::new(
        items.len(),
        |i: int|
            if 0 <= i < items.len() {
                bound_statement_node(items[i], name, by)
            } else {
                arbitrary()
            },
    )
}

/// A block with every use of `name` replaced.
pub open spec fn bound_body(
    body: CompoundStatementView,
    name: Seq<char>,
    by: ReplacementView,
) -> CompoundStatementView
    decreases body,
{
    CompoundStatementView {
        attributes: bound_attributes(body.attributes, name, by),
        statements: bound_statements(body.statements, name, by),
    }
}

/// An `else` block with every use of `name` replaced.
pub open spec fn bound_else(
    body: Option<CompoundStatementView>,
    name: Seq<char>,
    by: ReplacementView,
) -> Option<CompoundStatementView>
    decreases body,
{
    match body {
        Some(b) => Some(bound_body(b, name, by)),
        None => None,
    }
}

/// An `if` or `else if` clause with every use of `name` replaced.
pub open spec fn bound_clause(
    clause: IfClauseView,
    name: Seq<char>,
    by: ReplacementView,
) -> IfClauseView
    decreases clause,
{
    IfClauseView {
        expression: bound_node(clause.expression, name, by),
        body: bound_body(clause.body, name, by),
    }
}

/// A list of `else if` clauses with every use of `name` replaced.
pub open spec fn bound_clauses(
    items: Seq<IfClauseView>,
    name: Seq<char>,
    by: ReplacementView,
) -> Seq<IfClauseView>
    decreases items,
{
    Seq::new(
        items.len(),
        |i: int|
            if 0 <= i < items.len() {
                bound_clause(items[i], name, by)
            } else {
                arbitrary()
            },
    )
}

/// A case selector with every use of `name` replaced.
pub open spec fn bound_selector(
    selector: CaseSelectorView,
    name: Seq<char>,
    by: ReplacementView,
) -> CaseSelectorView {
    match selector {
        CaseSelectorView::Default => CaseSelectorView::Default,
        CaseSelectorView::Expression(e) => CaseSelectorView::Expression(bound_node(e, name, by)),
    }
}

/// A list of case selectors with every use of `name` replaced.
pub open spec fn bound_selectors(
    items: Seq<CaseSelectorView>,
    name: Seq<char>,
    by: ReplacementView,
) -> Seq<CaseSelectorView>
{
    Seq::new(items.len(), |i: int| bound_selector(items[i], name, by))
}

/// A `switch` clause with every use of `name` replaced.
pub open spec fn bound_case(
    clause: SwitchClauseView,
    name: Seq<char>,
    by: ReplacementView,
) -> SwitchClauseView
    decreases clause,
{
    SwitchClauseView {
        attributes: bound_attributes(clause.attributes, name, by),
        case_selectors: bound_selectors(clause.case_selectors, name, by),
        body: bound_body(clause.body, name, by),
    }
}

/// A list of `switch` clauses with every use of `name` replaced.
pub open spec fn bound_cases(
    items: Seq<SwitchClauseView>,
    name: Seq<char>,
    by: ReplacementView,
) -> Seq<SwitchClauseView>
    decreases items,
{
    Seq::new(
        items.len(),
        |i: int|
            if 0 <= i < items.len() {
                bound_case(items[i], name, by)
            } else {
                arbitrary()
            },
    )
}

/// A `break if` with every use of `name` replaced.
pub open spec fn bound_break_if(
    slot: Option<BreakIfStatementView>,
    name: Seq<char>,
    by: ReplacementView,
) -> Option<BreakIfStatementView> {
    match slot {
        Some(b) => Some(
            BreakIfStatementView {
                attributes: bound_attributes(b.attributes, name, by),
                expression: bound_node(b.expression, name, by),
            },
        ),
        None => None,
    }
}

/// A `continuing` block with every use of `name` replaced.
pub open spec fn bound_continuing(
    slot: Option<ContinuingStatementView>,
    name: Seq<char>,
    by: ReplacementView,
) -> Option<ContinuingStatementView>
    decreases slot,
{
    match slot {
        Some(c) => Some(
            ContinuingStatementView {
                attributes: bound_attributes(c.attributes, name, by),
                body: bound_body(c.body, name, by),
                break_if: bound_break_if(c.break_if, name, by),
            },
        ),
        None => None,
    }
}

/// A statement that may be absent with every use of `name` replaced.
pub open spec fn bound_optional_statement(
    slot: Option<StatementNodeView>,
    name: Seq<char>,
    by: ReplacementView,
) -> Option<StatementNodeView>
    decreases slot,
{
    match slot {
        Some(s) => Some(bound_statement_node(s, name, by)),
        None => None,
    }
}

/// A statement with every use of `name` replaced.
pub open spec fn bound_statement_node(
    statement: StatementNodeView,
    name: Seq<char>,
    by: ReplacementView,
) -> StatementNodeView
    decreases statement,
{
    StatementNodeView {
        span: statement.span,
        node: Box::new(bound_statement(*statement.node, name, by)),
    }
}

/// A statement with every use of `name` replaced, in its attributes, in its
/// expressions and in the statements nested in it.
pub open spec fn bound_statement(
    statement: StatementView,
    name: Seq<char>,
    by: ReplacementView,
) -> StatementView
    decreases statement,
{
    match statement {
        StatementView::Compound(c) => StatementView::Compound(bound_body(c, name, by)),
        StatementView::Assignment { attributes, operator, lhs, rhs } => StatementView::Assignment {
            attributes: bound_attributes(attributes, name, by),
            operator,
            lhs: bound_node(lhs, name, by),
            rhs: bound_node(rhs, name, by),
        },
        StatementView::Increment { attributes, expression } => StatementView::Increment {
            attributes: bound_attributes(attributes, name, by),
            expression: bound_node(expression, name, by),
        },
        StatementView::Decrement { attributes, expression } => StatementView::Decrement {
            attributes: bound_attributes(attributes, name, by),
            expression: bound_node(expression, name, by),
        },
        StatementView::If { attributes, if_clause, else_if_clauses, else_clause } => {
            StatementView::If {
                attributes: bound_attributes(attributes, name, by),
                if_clause: bound_clause(if_clause, name, by),
                else_if_clauses: bound_clauses(else_if_clauses, name, by),
                else_clause: bound_else(else_clause, name, by),
            }
        },
        StatementView::Switch { attributes, expression, body_attributes, clauses } => {
            StatementView::Switch {
                attributes: bound_attributes(attributes, name, by),
                expression: bound_node(expression, name, by),
                body_attributes: bound_attributes(body_attributes, name, by),
                clauses: bound_cases(clauses, name, by),
            }
        },
        StatementView::Loop { attributes, body, continuing } => StatementView::Loop {
            attributes: bound_attributes(attributes, name, by),
            body: bound_body(body, name, by),
            continuing: bound_continuing(continuing, name, by),
        },
        StatementView::For { attributes, initializer, condition, update, body } => {
            StatementView::For {
                attributes: bound_attributes(attributes, name, by),
                initializer: bound_optional_statement(initializer, name, by),
                condition: bound_optional(condition, name, by),
                update: bound_optional_statement(update, name, by),
                body: bound_body(body, name, by),
            }
        },
        StatementView::While { attributes, condition, body } => StatementView::While {
            attributes: bound_attributes(attributes, name, by),
            condition: bound_node(condition, name, by),
            body: bound_body(body, name, by),
        },
        StatementView::Break { attributes } => StatementView::Break {
            attributes: bound_attributes(attributes, name, by),
        },
        StatementView::Continue { attributes } => StatementView::Continue {
            attributes: bound_attributes(attributes, name, by),
        },
        StatementView::Return { attributes, expression } => StatementView::Return {
            attributes: bound_attributes(attributes, name, by),
            expression: bound_optional(expression, name, by),
        },
        StatementView::Discard { attributes } => StatementView::Discard {
            attributes: bound_attributes(attributes, name, by),
        },
        StatementView::FunctionCall { attributes, ty, arguments } => StatementView::FunctionCall {
            attributes: bound_attributes(attributes, name, by),
            ty: bound_type(ty, name, by),
            arguments: bound_nodes(arguments, name, by),
        },
        StatementView::ConstAssert(c) => StatementView::ConstAssert(
            bound_const_assert(c, name, by),
        ),
        StatementView::Declaration(d) => StatementView::Declaration(
            bound_declaration(d, name, by),
        ),
    }
}

/// Replaces every use of `name` in a list of statements.
#[verifier::loop_isolation(false)]
pub fn bind_statements(items: &mut Vec<StatementNode>, name: &str, by: &Replacement)
    ensures
        statement_models(final(items)@) == bound_statements(
            statement_models(old(items)@),
            name@,
            by@,
        ),
    decreases *old(items),
{
    let ghost before = items@;
    let mut i: usize = 0;
    while i < items.len()
        invariant
            i <= items.len(),
            items@.len() == before.len(),
            forall|k: int| i <= k < before.len() ==> items@[k] == before[k],
            forall|k: int|
                0 <= k < i ==> (#[trigger] items@[k])@ == bound_statement_node(
                    before[k]@,
                    name@,
                    by@,
                ),
        decreases items.len() - i,
    {
        bind_statement_node(&mut items[i], name, by);
        i += 1;
    }
    assert(statement_models(items@) =~= bound_statements(statement_models(before), name@, by@));
}

/// Replaces every use of `name` in a block.
pub fn bind_body(body: &mut CompoundStatement, name: &str, by: &Replacement)
    ensures
        final(body)@ == bound_body(old(body)@, name@, by@),
    decreases *old(body),
{
    bind_attributes(&mut body.attributes, name, by);
    bind_statements(&mut body.statements, name, by);
}

fn bind_else(body: &mut Option<CompoundStatement>, name: &str, by: &Replacement)
    ensures
        slot_view(*final(body)) == bound_else(slot_view(*old(body)), name@, by@),
    decreases *old(body),
{
    match body {
        Some(b) => bind_body(b, name, by),
        None => {},
    }
}

fn bind_clause(clause: &mut IfClause, name: &str, by: &Replacement)
    ensures
        final(clause)@ == bound_clause(old(clause)@, name@, by@),
    decreases *old(clause),
{
    bind_node(&mut clause.expression, name, by);
    bind_body(&mut clause.body, name, by);
}

#[verifier::loop_isolation(false)]
fn bind_clauses(items: &mut Vec<IfClause>, name: &str, by: &Replacement)
    ensures
        if_clause_models(final(items)@) == bound_clauses(if_clause_models(old(items)@), name@, by@),
    decreases *old(items),
{
    let ghost before = items@;
    let mut i: usize = 0;
    while i < items.len()
        invariant
            i <= items.len(),
            items@.len() == before.len(),
            forall|k: int| i <= k < before.len() ==> items@[k] == before[k],
            forall|k: int|
                0 <= k < i ==> (#[trigger] items@[k])@ == bound_clause(before[k]@, name@, by@),
        decreases items.len() - i,
    {
        bind_clause(&mut items[i], name, by);
        i += 1;
    }
    assert(if_clause_models(items@) =~= bound_clauses(if_clause_models(before), name@, by@));
}

fn bind_selector(selector: &mut CaseSelector, name: &str, by: &Replacement)
    ensures
        final(selector)@ == bound_selector(old(selector)@, name@, by@),
{
    match selector {
        CaseSelector::Default => {},
        CaseSelector::Expression(e) => bind_node(e, name, by),
    }
}

#[verifier::loop_isolation(false)]
fn bind_selectors(items: &mut Vec<CaseSelector>, name: &str, by: &Replacement)
    ensures
        views(final(items)@) == bound_selectors(views(old(items)@), name@, by@),
{
    let ghost before = items@;
    let mut i: usize = 0;
    while i < items.len()
        invariant
            i <= items.len(),
            items@.len() == before.len(),
            forall|k: int| i <= k < before.len() ==> items@[k] == before[k],
            forall|k: int|
                0 <= k < i ==> (#[trigger] items@[k])@ == bound_selector(before[k]@, name@, by@),
        decreases items.len() - i,
    {
        bind_selector(&mut items[i], name, by);
        i += 1;
    }
    assert(views(items@) =~= bound_selectors(views(before), name@, by@));
}

fn bind_case(clause: &mut SwitchClause, name: &str, by: &Replacement)
    ensures
        final(clause)@ == bound_case(old(clause)@, name@, by@),
    decreases *old(clause),
{
    bind_attributes(&mut clause.attributes, name, by);
    bind_selectors(&mut clause.case_selectors, name, by);
    bind_body(&mut clause.body, name, by);
}

#[verifier::loop_isolation(false)]
fn bind_cases(items: &mut Vec<SwitchClause>, name: &str, by: &Replacement)
    ensures
        switch_clause_models(final(items)@) == bound_cases(
            switch_clause_models(old(items)@),
            name@,
            by@,
        ),
    decreases *old(items),
{
    let ghost before = items@;
    let mut i: usize = 0;
    while i < items.len()
        invariant
            i <= items.len(),
            items@.len() == before.len(),
            forall|k: int| i <= k < before.len() ==> items@[k] == before[k],
            forall|k: int|
                0 <= k < i ==> (#[trigger] items@[k])@ == bound_case(before[k]@, name@, by@),
        decreases items.len() - i,
    {
        assert(items@[i as int] == before[i as int]);
        assert(decreases_to!(before => before[i as int]));
        bind_case(&mut items[i], name, by);
        i += 1;
    }
    assert(switch_clause_models(items@) =~= bound_cases(switch_clause_models(before), name@, by@));
}

fn bind_break_if(slot: &mut Option<BreakIfStatement>, name: &str, by: &Replacement)
    ensures
        slot_view(*final(slot)) == bound_break_if(slot_view(*old(slot)), name@, by@),
{
    match slot {
        Some(b) => {
            bind_attributes(&mut b.attributes, name, by);
            bind_node(&mut b.expression, name, by);
        },
        None => {},
    }
}

fn bind_continuing(slot: &mut Option<ContinuingStatement>, name: &str, by: &Replacement)
    ensures
        slot_view(*final(slot)) == bound_continuing(slot_view(*old(slot)), name@, by@),
    decreases *old(slot),
{
    match slot {
        Some(c) => {
            bind_attributes(&mut c.attributes, name, by);
            bind_body(&mut c.body, name, by);
            bind_break_if(&mut c.break_if, name, by);
        },
        None => {},
    }
}

fn bind_optional_statement(slot: &mut Option<StatementNode>, name: &str, by: &Replacement)
    ensures
        slot_view(*final(slot)) == bound_optional_statement(slot_view(*old(slot)), name@, by@),
    decreases *old(slot),
{
    match slot {
        Some(s) => bind_statement_node(s, name, by),
        None => {},
    }
}

/// Replaces every use of `name` in a statement.
pub fn bind_statement_node(statement: &mut StatementNode, name: &str, by: &Replacement)
    ensures
        final(statement)@ == bound_statement_node(old(statement)@, name@, by@),
    decreases *old(statement),
{
    bind_statement(&mut *statement.node, name, by);
}

fn bind_statement(statement: &mut Statement, name: &str, by: &Replacement)
    ensures
        final(statement)@ == bound_statement(old(statement)@, name@, by@),
    decreases *old(statement),
{
    match statement {
        Statement::Compound(c) => bind_body(c, name, by),
        Statement::Assignment { attributes, operator: _, lhs: target, rhs: source } => {
            bind_attributes(attributes, name, by);
            bind_node(target, name, by);
            bind_node(source, name, by);
        },
        Statement::Increment { attributes, expression } => {
            bind_attributes(attributes, name, by);
            bind_node(expression, name, by);
        },
        Statement::Decrement { attributes, expression } => {
            bind_attributes(attributes, name, by);
            bind_node(expression, name, by);
        },
        Statement::If { attributes, if_clause, else_if_clauses, else_clause } => {
            bind_attributes(attributes, name, by);
            bind_clause(if_clause, name, by);
            bind_clauses(else_if_clauses, name, by);
            bind_else(else_clause, name, by);
        },
        Statement::Switch { attributes, expression, body_attributes, clauses } => {
            bind_attributes(attributes, name, by);
            bind_node(expression, name, by);
            bind_attributes(body_attributes, name, by);
            bind_cases(clauses, name, by);
        },
        Statement::Loop { attributes, body, continuing } => {
            bind_attributes(attributes, name, by);
            bind_body(body, name, by);
            bind_continuing(continuing, name, by);
        },
        Statement::For { attributes, initializer, condition, update, body } => {
            bind_attributes(attributes, name, by);
            bind_optional_statement(initializer, name, by);
            bind_optional(condition, name, by);
            bind_optional_statement(update, name, by);
            bind_body(body, name, by);
        },
        Statement::While { attributes, condition, body } => {
            bind_attributes(attributes, name, by);
            bind_node(condition, name, by);
            bind_body(body, name, by);
        },
        Statement::Break { attributes } => bind_attributes(attributes, name, by),
        Statement::Continue { attributes } => bind_attributes(attributes, name, by),
        Statement::Return { attributes, expression } => {
            bind_attributes(attributes, name, by);
            bind_optional(expression, name, by);
        },
        Statement::Discard { attributes } => bind_attributes(attributes, name, by),
        Statement::FunctionCall { attributes, ty, arguments } => {
            bind_attributes(attributes, name, by);
            bind_type(ty, name, by);
            bind_nodes(arguments, name, by);
        },
        Statement::ConstAssert(c) => bind_const_assert(c, name, by),
        Statement::Declaration(d) => bind_declaration(d, name, by),
    }
}

} // verus!
