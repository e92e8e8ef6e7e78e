use crate::condcomp::fold::{is_literal, literal};
use crate::condcomp::height::{
    cases_height, clauses_height, lemma_cases_height_bounds, lemma_clauses_height_bounds,
    lemma_list_height_bounds, list_height, node_height, statement_height,
};
use crate::condcomp::prune::slot_view;
use crate::condcomp::traverse::{
    lemma_if_clause_models, lemma_statement_models, lemma_switch_clause_models,
};
use crate::model::views;
use crate::syntax::attribute::{Attribute, AttributeView};
use crate::syntax::declaration::{
    FormalParameter, GlobalDirective, Import, StructMember, StructView,
};
use crate::syntax::decorated::{statement_attributes, statement_with_attributes, Decorated};
use crate::syntax::statement::{
    BreakIfStatement, BreakIfStatementView, CompoundStatement, CompoundStatementView,
    ContinuingStatement, ContinuingStatementView, IfClause, IfClauseView, Statement, StatementNode,
    StatementNodeView, StatementView, SwitchClause, SwitchClauseView,
};
use crate::syntax::unit::{
    FunctionView, GlobalDeclaration, GlobalDeclarationView, TranslationUnit, TranslationUnitView,
};
use crate::text::str_eq;
use vstd::prelude::*;

verus! {

/// Which attributes a sweep over the tree takes away.
#[derive(Clone, Copy, Debug, PartialEq, Eq, Structural)]
pub enum Sweep {
    /// The `if` attributes whose condition is the literal `true`.
    ResolvedConditions,
    /// The custom attributes named `generic`.
    GenericMarkers,
}

impl Sweep {
    /// Whether the sweep leaves an attribute in place.
    pub open spec fn keeps(self, attribute: AttributeView) -> bool {
        match self {
            Sweep::ResolvedConditions => !(attribute matches AttributeView::If(e) && *e.node
                == literal(true)),
            Sweep::GenericMarkers => !(attribute matches AttributeView::Custom { name, .. } && name
                == "generic"@),
        }
    }

    /// Whether the sweep leaves an attribute in place.
    pub fn keep(&self, attribute: &Attribute) -> (kept: bool)
        ensures
            kept == self.keeps(attribute@),
    {
        match self {
            Sweep::ResolvedConditions => match attribute {
                Attribute::If(e) => !is_literal(&e.node, true),
                _ => true,
            },
            Sweep::GenericMarkers => match attribute {
                Attribute::Custom { name, .. } => !str_eq(name.as_str(), "generic"),
                _ => true,
            },
        }
    }
}

/// The attributes of a list that a sweep leaves, in their order.
pub open spec fn retained(attributes: Seq<AttributeView>, rule: Sweep) -> Seq<AttributeView>
    decreases attributes.len(),
{
    if attributes.len() == 0 {
        Seq::empty()
    } else if rule.keeps(attributes.last()) {
        retained(attributes.drop_last(), rule).push(attributes.last())
    } else {
        retained(attributes.drop_last(), rule)
    }
}

/// Takes out of a list the attributes that the sweep does not keep.
pub fn retain_attributes(attributes: &mut Vec<Attribute>, rule: Sweep)
    ensures
        views(final(attributes)@) == retained(views(old(attributes)@), rule),
{
    let ghost before = views(attributes@);
    let mut source: Vec<Attribute> = Vec::new();
    std::mem::swap(attributes, &mut source);
    let ghost all = source@;
    assert(views(attributes@) =~= Seq::<AttributeView>::empty());
    assert(before.subrange(0, 0) =~= Seq::<AttributeView>::empty());
    for attribute in it: source
        invariant
            it.seq() == all,
            before == views(all),
            views(attributes@) == retained(before.subrange(0, it.index() as int), rule),
    {
        let ghost j = it.index() as int;
        let ghost kept = views(attributes@);
        assert(before.subrange(0, j + 1).drop_last() =~= before.subrange(0, j));
        assert(before.subrange(0, j + 1).last() == attribute@);
        if rule.keep(&attribute) {
            attributes.push(attribute);
            assert(views(attributes@) =~= kept.push(attribute@));
        }
    }
    assert(before.subrange(0, all.len() as int) =~= before);
}

/// A node with its own attribute list swept.
pub open spec fn swept_attributes<N: Decorated>(v: N::V, rule: Sweep) -> N::V {
    N::with_attributes(v, retained(N::attributes_of(v), rule))
}

/// Each node of a list with its own attribute list swept.
pub open spec fn swept_list<N: Decorated>(vs: Seq<N::V>, rule: Sweep) -> Seq<N::V> {
    Seq::new(vs.len(), |i: int| swept_attributes::<N>(vs[i], rule))
}

/// Sweeps the attribute list of every node of a list.
pub fn sweep_list<N: Decorated>(nodes: &mut Vec<N>, rule: Sweep)
    ensures
        views(final(nodes)@) == swept_list::<N>(views(old(nodes)@), rule),
{
    let ghost before = views(nodes@);
    let mut i: usize = 0;
    while i < nodes.len()
        invariant
            i <= nodes.len(),
            nodes@.len() == before.len(),
            forall|k: int| i <= k < before.len() ==> (#[trigger] nodes@[k])@ == before[k],
            forall|k: int|
                0 <= k < i ==> (#[trigger] nodes@[k])@ == swept_attributes::<N>(before[k], rule),
        decreases nodes.len() - i,
    {
        retain_attributes(nodes[i].attributes_mut(), rule);
        i += 1;
    }
    assert(views(nodes@) =~= swept_list::<N>(before, rule));
}

/// The statements of a list, each swept.
pub open spec fn swept_statements(statements: Seq<StatementNodeView>, rule: Sweep) -> Seq<
    StatementNodeView,
>
    decreases statements,
{
    Seq::new(
        statements.len(),
        |i: int|
            if 0 <= i < statements.len() {
                swept_node(statements[i], rule)
            } else {
                arbitrary()
            },
    )
}

/// A block with its attributes and its statements swept.
pub open spec fn swept_body(body: CompoundStatementView, rule: Sweep) -> CompoundStatementView
    decreases body,
{
    CompoundStatementView {
        attributes: retained(body.attributes, rule),
        statements: swept_statements(body.statements, rule),
    }
}

/// An `if` or `else if` clause with every attribute list in it swept.
pub open spec fn swept_clause(clause: IfClauseView, rule: Sweep) -> IfClauseView
    decreases clause,
{
    IfClauseView { body: swept_body(clause.body, rule), ..clause }
}

/// A list of `else if` clauses with every attribute list in it swept.
pub open spec fn swept_clauses(clauses: Seq<IfClauseView>, rule: Sweep) -> Seq<IfClauseView>
    decreases clauses,
{
    Seq::new(
        clauses.len(),
        |i: int|
            if 0 <= i < clauses.len() {
                swept_clause(clauses[i], rule)
            } else {
                arbitrary()
            },
    )
}

/// A `switch` clause with every attribute list in it swept.
pub open spec fn swept_case(clause: SwitchClauseView, rule: Sweep) -> SwitchClauseView
    decreases clause,
{
    SwitchClauseView {
        attributes: retained(clause.attributes, rule),
        body: swept_body(clause.body, rule),
        ..clause
    }
}

/// A list of `switch` clauses with every attribute list in it swept.
pub open spec fn swept_cases(clauses: Seq<SwitchClauseView>, rule: Sweep) -> Seq<SwitchClauseView>
    decreases clauses,
{
    Seq::new(
        clauses.len(),
        |i: int|
            if 0 <= i < clauses.len() {
                swept_case(clauses[i], rule)
            } else {
                arbitrary()
            },
    )
}

/// An `else` block with every attribute list in it swept.
pub open spec fn swept_else(slot: Option<CompoundStatementView>, rule: Sweep) -> Option<
    CompoundStatementView,
>
    decreases slot,
{
    match slot {
        Some(c) => Some(swept_body(c, rule)),
        None => None,
    }
}

/// A `break if` with every attribute list in it swept.
pub open spec fn swept_break_if(slot: Option<BreakIfStatementView>, rule: Sweep) -> Option<
    BreakIfStatementView,
> {
    match slot {
        Some(b) => Some(swept_attributes::<BreakIfStatement>(b, rule)),
        None => None,
    }
}

/// A `continuing` block with every attribute list in it swept.
pub open spec fn swept_continuing(slot: Option<ContinuingStatementView>, rule: Sweep) -> Option<
    ContinuingStatementView,
>
    decreases slot,
{
    match slot {
        Some(c) => Some(
            ContinuingStatementView {
                attributes: retained(c.attributes, rule),
                body: swept_body(c.body, rule),
                break_if: swept_break_if(c.break_if, rule),
            },
        ),
        None => None,
    }
}

/// An expression that may be absent with every attribute list in it swept.
pub open spec fn swept_optional(slot: Option<StatementNodeView>, rule: Sweep) -> Option<
    StatementNodeView,
>
    decreases slot,
{
    match slot {
        Some(s) => Some(swept_node(s, rule)),
        None => None,
    }
}

/// A statement with its own attribute list swept, and every attribute list
/// nested in it.
pub open spec fn swept_node(statement: StatementNodeView, rule: Sweep) -> StatementNodeView
    decreases statement,
{
    StatementNodeView {
        span: statement.span,
        node: Box::new(
            statement_with_attributes(
                swept_inside(*statement.node, rule),
                retained(statement_attributes(*statement.node), rule),
            ),
        ),
    }
}

/// A statement with every attribute list nested in it swept; its own is left.
pub open spec fn swept_inside(statement: StatementView, rule: Sweep) -> StatementView
    decreases statement,
{
    match statement {
        StatementView::Compound(c) => StatementView::Compound(
            CompoundStatementView { statements: swept_statements(c.statements, rule), ..c },
        ),
        StatementView::If { attributes, if_clause, else_if_clauses, else_clause } => {
            StatementView::If {
                attributes,
                if_clause: swept_clause(if_clause, rule),
                else_if_clauses: swept_clauses(else_if_clauses, rule),
                else_clause: swept_else(else_clause, rule),
            }
        },
        StatementView::Switch { attributes, expression, body_attributes, clauses } => {
            StatementView::Switch {
                attributes,
                expression,
                body_attributes: retained(body_attributes, rule),
                clauses: swept_cases(clauses, rule),
            }
        },
        StatementView::Loop { attributes, body, continuing } => StatementView::Loop {
            attributes,
            body: swept_body(body, rule),
            continuing: swept_continuing(continuing, rule),
        },
        StatementView::For { attributes, initializer, condition, update, body } => {
            StatementView::For {
                attributes,
                initializer: swept_optional(initializer, rule),
                condition,
                update: swept_optional(update, rule),
                body: swept_body(body, rule),
            }
        },
        StatementView::While { attributes, condition, body } => StatementView::While {
            attributes,
            condition,
            body: swept_body(body, rule),
        },
        _ => statement,
    }
}

/// Sweeping inside a statement leaves its own attributes and its nesting as
/// they were.
pub proof fn lemma_swept_inside_keeps(statement: StatementView, rule: Sweep)
    ensures
        statement_attributes(swept_inside(statement, rule)) == statement_attributes(statement),
{
}

/// Sweeps the statements of a list.
#[verifier::loop_isolation(false)]
pub fn sweep_statements(statements: &mut Vec<StatementNode>, rule: Sweep)
    ensures
        views(final(statements)@) == swept_statements(views(old(statements)@), rule),
    decreases list_height(views(old(statements)@)), 3nat,
{
    let ghost before = views(statements@);
    let mut i: usize = 0;
    while i < statements.len()
        invariant
            i <= statements.len(),
            statements@.len() == before.len(),
            forall|k: int| i <= k < before.len() ==> (#[trigger] statements@[k])@ == before[k],
            forall|k: int|
                0 <= k < i ==> (#[trigger] statements@[k])@ == swept_node(before[k], rule),
        decreases statements.len() - i,
    {
        proof {
            lemma_list_height_bounds(before, i as int);
        }
        sweep_node(&mut statements[i], rule);
        i += 1;
    }
    assert(views(statements@) =~= swept_statements(before, rule));
}

/// Sweeps the attributes of a block and its statements.
pub fn sweep_body(body: &mut CompoundStatement, rule: Sweep)
    ensures
        final(body)@ == swept_body(old(body)@, rule),
    decreases list_height(old(body)@.statements), 4nat,
{
    proof {
        lemma_statement_models(body.statements@);
    }
    sweep_statements(&mut body.statements, rule);
    retain_attributes(&mut body.attributes, rule);
    proof {
        lemma_statement_models(body.statements@);
    }
}

fn sweep_clause(clause: &mut IfClause, rule: Sweep)
    ensures
        final(clause)@ == swept_clause(old(clause)@, rule),
    decreases list_height(old(clause)@.body.statements), 5nat,
{
    sweep_body(&mut clause.body, rule);
}

fn sweep_case(clause: &mut SwitchClause, rule: Sweep)
    ensures
        final(clause)@ == swept_case(old(clause)@, rule),
    decreases list_height(old(clause)@.body.statements), 5nat,
{
    sweep_body(&mut clause.body, rule);
    retain_attributes(&mut clause.attributes, rule);
}

fn sweep_else(slot: &mut Option<CompoundStatement>, rule: Sweep)
    ensures
        slot_view(*final(slot)) == swept_else(slot_view(*old(slot)), rule),
    decreases
        (match slot_view(*old(slot)) {
            Some(c) => list_height(c.statements),
            None => 0,
        }),
        5nat,
{
    match slot {
        Some(c) => sweep_body(c, rule),
        None => {},
    }
}

fn sweep_break_if(slot: &mut Option<BreakIfStatement>, rule: Sweep)
    ensures
        slot_view(*final(slot)) == swept_break_if(slot_view(*old(slot)), rule),
{
    match slot {
        Some(b) => retain_attributes(&mut b.attributes, rule),
        None => {},
    }
}

fn sweep_continuing(slot: &mut Option<ContinuingStatement>, rule: Sweep)
    ensures
        slot_view(*final(slot)) == swept_continuing(slot_view(*old(slot)), rule),
    decreases
        (match slot_view(*old(slot)) {
            Some(c) => list_height(c.body.statements),
            None => 0,
        }),
        5nat,
{
    match slot {
        Some(c) => {
            sweep_body(&mut c.body, rule);
            retain_attributes(&mut c.attributes, rule);
            sweep_break_if(&mut c.break_if, rule);
        },
        None => {},
    }
}

fn sweep_optional(slot: &mut Option<StatementNode>, rule: Sweep)
    ensures
        slot_view(*final(slot)) == swept_optional(slot_view(*old(slot)), rule),
    decreases
        (match slot_view(*old(slot)) {
            Some(s) => node_height(s),
            None => 0,
        }),
        2nat,
{
    match slot {
        Some(s) => sweep_node(s, rule),
        None => {},
    }
}

#[verifier::loop_isolation(false)]
fn sweep_clauses(clauses: &mut Vec<IfClause>, rule: Sweep)
    ensures
        views(final(clauses)@) == swept_clauses(views(old(clauses)@), rule),
    decreases clauses_height(views(old(clauses)@)), 6nat,
{
    let ghost before = views(clauses@);
    let mut i: usize = 0;
    while i < clauses.len()
        invariant
            i <= clauses.len(),
            clauses@.len() == before.len(),
            forall|k: int| i <= k < before.len() ==> (#[trigger] clauses@[k])@ == before[k],
            forall|k: int|
                0 <= k < i ==> (#[trigger] clauses@[k])@ == swept_clause(before[k], rule),
        decreases clauses.len() - i,
    {
        proof {
            lemma_clauses_height_bounds(before, i as int);
        }
        sweep_clause(&mut clauses[i], rule);
        i += 1;
    }
    assert(views(clauses@) =~= swept_clauses(before, rule));
}

#[verifier::loop_isolation(false)]
fn sweep_cases(clauses: &mut Vec<SwitchClause>, rule: Sweep)
    ensures
        views(final(clauses)@) == swept_cases(views(old(clauses)@), rule),
    decreases cases_height(views(old(clauses)@)), 6nat,
{
    let ghost before = views(clauses@);
    let mut i: usize = 0;
    while i < clauses.len()
        invariant
            i <= clauses.len(),
            clauses@.len() == before.len(),
            forall|k: int| i <= k < before.len() ==> (#[trigger] clauses@[k])@ == before[k],
            forall|k: int| 0 <= k < i ==> (#[trigger] clauses@[k])@ == swept_case(before[k], rule),
        decreases clauses.len() - i,
    {
        proof {
            lemma_cases_height_bounds(before, i as int);
        }
        sweep_case(&mut clauses[i], rule);
        i += 1;
    }
    assert(views(clauses@) =~= swept_cases(before, rule));
}

/// Sweeps the attribute list of a statement and every attribute list nested
/// in it.
pub fn sweep_node(statement: &mut StatementNode, rule: Sweep)
    ensures
        final(statement)@ == swept_node(old(statement)@, rule),
    decreases node_height(old(statement)@), 1nat,
{
    proof {
        lemma_swept_inside_keeps(*statement@.node, rule);
    }
    sweep_inside(&mut *statement.node, rule);
    retain_attributes(statement.attributes_mut(), rule);
}

fn sweep_inside(statement: &mut Statement, rule: Sweep)
    ensures
        final(statement)@ == swept_inside(old(statement)@, rule),
    decreases statement_height(old(statement)@), 0nat,
{
    match statement {
        Statement::Compound(c) => {
            proof {
                lemma_statement_models(c.statements@);
            }
            sweep_statements(&mut c.statements, rule);
            proof {
                lemma_statement_models(c.statements@);
            }
        },
        Statement::If { if_clause, else_if_clauses, else_clause, .. } => {
            sweep_clause(if_clause, rule);
            proof {
                lemma_if_clause_models(else_if_clauses@);
            }
            sweep_clauses(else_if_clauses, rule);
            proof {
                lemma_if_clause_models(else_if_clauses@);
            }
            sweep_else(else_clause, rule);
        },
        Statement::Switch { body_attributes, clauses, .. } => {
            retain_attributes(body_attributes, rule);
            proof {
                lemma_switch_clause_models(clauses@);
            }
            sweep_cases(clauses, rule);
            proof {
                lemma_switch_clause_models(clauses@);
            }
        },
        Statement::Loop { body, continuing, .. } => {
            sweep_body(body, rule);
            sweep_continuing(continuing, rule);
        },
        Statement::For { initializer, update, body, .. } => {
            sweep_optional(initializer, rule);
            sweep_optional(update, rule);
            sweep_body(body, rule);
        },
        Statement::While { body, .. } => {
            sweep_body(body, rule);
        },
        _ => {},
    }
}

/// A global declaration with every attribute list in it swept.
pub open spec fn swept_declaration(
    declaration: GlobalDeclarationView,
    rule: Sweep,
) -> GlobalDeclarationView {
    match declaration {
        GlobalDeclarationView::Struct(s) => GlobalDeclarationView::Struct(
            StructView {
                attributes: retained(s.attributes, rule),
                members: swept_list::<StructMember>(s.members, rule),
                ..s
            },
        ),
        GlobalDeclarationView::Function(f) => GlobalDeclarationView::Function(
            FunctionView {
                attributes: retained(f.attributes, rule),
                parameters: swept_list::<FormalParameter>(f.parameters, rule),
                return_attributes: retained(f.return_attributes, rule),
                body: swept_body(f.body, rule),
                ..f
            },
        ),
        _ => swept_attributes::<GlobalDeclaration>(declaration, rule),
    }
}

/// A list of global declarations with every attribute list in it swept.
pub open spec fn swept_declarations(
    declarations: Seq<GlobalDeclarationView>,
    rule: Sweep,
) -> Seq<GlobalDeclarationView> {
    Seq::new(declarations.len(), |i: int| swept_declaration(declarations[i], rule))
}

/// A module with every attribute list in it swept: those of imports,
/// directives and declarations, of struct members, of function parameters,
/// return types and bodies, and of every statement, clause and block nested
/// in them.
pub open spec fn swept_unit(unit: TranslationUnitView, rule: Sweep) -> TranslationUnitView {
    TranslationUnitView {
        imports: swept_list::<Import>(unit.imports, rule),
        global_directives: swept_list::<GlobalDirective>(unit.global_directives, rule),
        global_declarations: swept_declarations(unit.global_declarations, rule),
    }
}

/// Sweeps every attribute list of a global declaration.
pub fn sweep_declaration(declaration: &mut GlobalDeclaration, rule: Sweep)
    ensures
        final(declaration)@ == swept_declaration(old(declaration)@, rule),
{
    match declaration {
        GlobalDeclaration::Declaration(d) => retain_attributes(&mut d.attributes, rule),
        GlobalDeclaration::TypeAlias(d) => retain_attributes(&mut d.attributes, rule),
        GlobalDeclaration::Struct(d) => {
            retain_attributes(&mut d.attributes, rule);
            sweep_list(&mut d.members, rule);
        },
        GlobalDeclaration::Function(d) => {
            retain_attributes(&mut d.attributes, rule);
            sweep_list(&mut d.parameters, rule);
            retain_attributes(&mut d.return_attributes, rule);
            sweep_body(&mut d.body, rule);
        },
        GlobalDeclaration::ConstAssert(d) => retain_attributes(&mut d.attributes, rule),
    }
}

/// Sweeps every attribute list of a module.
pub fn sweep_unit(unit: &mut TranslationUnit, rule: Sweep)
    ensures
        final(unit)@ == swept_unit(old(unit)@, rule),
{
    sweep_list(&mut unit.imports, rule);
    sweep_list(&mut unit.global_directives, rule);
    let ghost before = views(unit.global_declarations@);
    let mut i: usize = 0;
    while i < unit.global_declarations.len()
        invariant
            i <= unit.global_declarations.len(),
            unit.global_declarations@.len() == before.len(),
            views(unit.imports@) == swept_list::<Import>(old(unit)@.imports, rule),
            views(unit.global_directives@) == swept_list::<GlobalDirective>(
                old(unit)@.global_directives,
                rule,
            ),
            before == old(unit)@.global_declarations,
            forall|k: int|
                i <= k < before.len() ==> (#[trigger] unit.global_declarations@[k])@ == before[k],
            forall|k: int|
                0 <= k < i ==> (#[trigger] unit.global_declarations@[k])@ == swept_declaration(
                    before[k],
                    rule,
                ),
        decreases unit.global_declarations.len() - i,
    {
        sweep_declaration(&mut unit.global_declarations[i], rule);
        i += 1;
    }
    assert(views(unit.global_declarations@) =~= swept_declarations(before, rule));
}

} // verus!
