use crate::condcomp::fold::Flags;
use crate::condcomp::prune::{condition, pruned_list, DiagnosticView};
use crate::condcomp::traverse::{
    each_case, each_clause, each_inside, pruned_body, pruned_case, pruned_cases, pruned_clause,
    pruned_clauses, pruned_continuing, pruned_else, pruned_inside, pruned_nested, pruned_optional,
    pruned_statements,
};

use crate::syntax::decorated::{statement_attributes, Decorated};
use crate::syntax::statement::{
    CompoundStatementView, IfClauseView, StatementNode, StatementNodeView, StatementView,
    SwitchClause, SwitchClauseView,
};
use vstd::prelude::*;

verus! {

/// No statement of the list carries an `if` attribute, nor anything nested
/// in one.
pub open spec fn unconditional(statements: Seq<StatementNodeView>) -> bool
    decreases statements,
{
    forall|i: int|
        0 <= i < statements.len() ==> condition(
            statement_attributes(*(#[trigger] statements[i]).node),
        ) is None && unconditional_inside(*statements[i].node)
}

/// No body of the clauses holds anything that carries an `if` attribute.
pub open spec fn unconditional_clauses(clauses: Seq<IfClauseView>) -> bool
    decreases clauses,
{
    forall|i: int| 0 <= i < clauses.len() ==> unconditional((#[trigger] clauses[i]).body.statements)
}

/// No clause carries an `if` attribute, nor anything in its body.
pub open spec fn unconditional_cases(clauses: Seq<SwitchClauseView>) -> bool
    decreases clauses,
{
    forall|i: int|
        0 <= i < clauses.len() ==> condition((#[trigger] clauses[i]).attributes) is None
            && unconditional(clauses[i].body.statements)
}

/// Nothing nested in the statement carries an `if` attribute.
pub open spec fn unconditional_inside(statement: StatementView) -> bool
    decreases statement,
{
    match statement {
        StatementView::Compound(c) => unconditional(c.statements),
        StatementView::If { if_clause, else_if_clauses, else_clause, .. } => {
            &&& unconditional(if_clause.body.statements)
            &&& unconditional_clauses(else_if_clauses)
            &&& match else_clause {
                Some(c) => unconditional(c.statements),
                None => true,
            }
        },
        StatementView::Switch { clauses, .. } => unconditional_cases(clauses),
        StatementView::Loop { body, continuing, .. } => {
            &&& unconditional(body.statements)
            &&& match continuing {
                Some(c) => {
                    &&& condition(c.attributes) is None
                    &&& unconditional(c.body.statements)
                    &&& match c.break_if {
                        Some(b) => condition(b.attributes) is None,
                        None => true,
                    }
                },
                None => true,
            }
        },
        StatementView::For { initializer, update, body, .. } => {
            &&& unconditional(body.statements)
            &&& match initializer {
                Some(s) => unconditional_inside(*s.node),
                None => true,
            }
            &&& match update {
                Some(s) => unconditional_inside(*s.node),
                None => true,
            }
        },
        StatementView::While { body, .. } => unconditional(body.statements),
        _ => true,
    }
}

/// A list none of whose nodes has a condition is kept as it is.
pub proof fn lemma_without_conditions<N: Decorated>(vs: Seq<N::V>, flags: Flags)
    requires
        forall|i: int| 0 <= i < vs.len() ==> condition(N::attributes_of(#[trigger] vs[i])) is None,
    ensures
        pruned_list::<N>(vs, flags) == Ok::<Seq<N::V>, DiagnosticView>(vs),
    decreases vs.len(),
{
    if vs.len() > 0 {
        assert forall|i: int| 0 <= i < vs.drop_last().len() implies condition(
            N::attributes_of(#[trigger] vs.drop_last()[i]),
        ) is None by {
            assert(vs.drop_last()[i] == vs[i]);
        }
        lemma_without_conditions::<N>(vs.drop_last(), flags);
        assert(condition(N::attributes_of(vs[vs.len() - 1])) is None);
        assert(vs.drop_last().push(vs.last()) =~= vs);
    } else {
        assert(vs =~= Seq::<N::V>::empty());
    }
}

/// Conditional compilation leaves alone what carries no `if` attribute:
/// statements that carry none, and that hold nothing that carries one, are
/// pruned to themselves, control constructs and all, whatever the flags are.
pub proof fn lemma_unconditional_untouched(statements: Seq<StatementNodeView>, flags: Flags)
    requires
        unconditional(statements),
    ensures
        pruned_statements(statements, flags) == Ok::<Seq<StatementNodeView>, DiagnosticView>(
            statements,
        ),
    decreases statements, 1nat, 0nat,
{
    reveal_with_fuel(unconditional, 2);
    reveal_with_fuel(pruned_statements, 2);
    assert forall|i: int| 0 <= i < statements.len() implies condition(
        StatementNode::attributes_of(#[trigger] statements[i]),
    ) is None by {}
    lemma_without_conditions::<StatementNode>(statements, flags);
    lemma_each_untouched(statements, statements.len(), flags);
    assert(statements.subrange(0, statements.len() as int) =~= statements);
}

proof fn lemma_each_untouched(statements: Seq<StatementNodeView>, n: nat, flags: Flags)
    requires
        unconditional(statements),
        n <= statements.len(),
    ensures
        each_inside(statements, n, flags) == Ok::<Seq<StatementNodeView>, DiagnosticView>(
            statements.subrange(0, n as int),
        ),
    decreases statements, 0nat, n,
{
    reveal_with_fuel(each_inside, 2);
    reveal_with_fuel(pruned_inside, 2);
    if n == 0 {
        assert(statements.subrange(0, 0) =~= Seq::<StatementNodeView>::empty());
    } else {
        lemma_each_untouched(statements, (n - 1) as nat, flags);
        lemma_inside_untouched(*statements[n - 1].node, flags);
        assert(statements.subrange(0, n - 1).push(statements[n - 1]) =~= statements.subrange(
            0,
            n as int,
        ));
    }
}

proof fn lemma_body_untouched(body: CompoundStatementView, flags: Flags)
    requires
        unconditional(body.statements),
    ensures
        pruned_body(body, flags) == Ok::<CompoundStatementView, DiagnosticView>(body),
    decreases body, 0nat, 0nat,
{
    reveal_with_fuel(pruned_body, 2);
    lemma_unconditional_untouched(body.statements, flags);
}

proof fn lemma_clauses_untouched(clauses: Seq<IfClauseView>, n: nat, flags: Flags)
    requires
        unconditional_clauses(clauses),
        n <= clauses.len(),
    ensures
        each_clause(clauses, n, flags) == Ok::<Seq<IfClauseView>, DiagnosticView>(
            clauses.subrange(0, n as int),
        ),
    decreases clauses, 0nat, n,
{
    reveal_with_fuel(each_clause, 2);
    reveal_with_fuel(pruned_clause, 2);
    reveal_with_fuel(unconditional_clauses, 2);
    if n == 0 {
        assert(clauses.subrange(0, 0) =~= Seq::<IfClauseView>::empty());
    } else {
        lemma_clauses_untouched(clauses, (n - 1) as nat, flags);
        lemma_body_untouched(clauses[n - 1].body, flags);
        assert(clauses.subrange(0, n - 1).push(clauses[n - 1]) =~= clauses.subrange(0, n as int));
    }
}

proof fn lemma_cases_untouched(clauses: Seq<SwitchClauseView>, n: nat, flags: Flags)
    requires
        unconditional_cases(clauses),
        n <= clauses.len(),
    ensures
        each_case(clauses, n, flags) == Ok::<Seq<SwitchClauseView>, DiagnosticView>(
            clauses.subrange(0, n as int),
        ),
    decreases clauses, 0nat, n,
{
    reveal_with_fuel(each_case, 2);
    reveal_with_fuel(pruned_case, 2);
    reveal_with_fuel(unconditional_cases, 2);
    if n == 0 {
        assert(clauses.subrange(0, 0) =~= Seq::<SwitchClauseView>::empty());
    } else {
        lemma_cases_untouched(clauses, (n - 1) as nat, flags);
        lemma_body_untouched(clauses[n - 1].body, flags);
        assert(clauses.subrange(0, n - 1).push(clauses[n - 1]) =~= clauses.subrange(0, n as int));
    }
}

proof fn lemma_inside_untouched(statement: StatementView, flags: Flags)
    requires
        unconditional_inside(statement),
    ensures
        pruned_nested(statement, flags) == Ok::<StatementView, DiagnosticView>(statement),
    decreases statement, 0nat, 0nat,
{
    reveal_with_fuel(unconditional_inside, 2);
    reveal_with_fuel(unconditional_cases, 2);
    reveal_with_fuel(unconditional_clauses, 2);
    reveal_with_fuel(pruned_nested, 2);
    reveal_with_fuel(pruned_clause, 2);
    reveal_with_fuel(pruned_clauses, 2);
    reveal_with_fuel(pruned_cases, 2);
    reveal_with_fuel(pruned_else, 2);
    reveal_with_fuel(pruned_continuing, 2);
    reveal_with_fuel(pruned_optional, 2);
    reveal_with_fuel(pruned_inside, 2);
    match statement {
        StatementView::Compound(c) => {
            lemma_body_untouched(c, flags);
        },
        StatementView::If { attributes, if_clause, else_if_clauses, else_clause } => {
            lemma_body_untouched(if_clause.body, flags);
            lemma_clauses_untouched(else_if_clauses, else_if_clauses.len(), flags);
            assert(else_if_clauses.subrange(0, else_if_clauses.len() as int) =~= else_if_clauses);
            match else_clause {
                Some(c) => {
                    lemma_body_untouched(c, flags);
                },
                None => {},
            }
        },
        StatementView::Switch { attributes, expression, body_attributes, clauses } => {
            assert forall|i: int| 0 <= i < clauses.len() implies condition(
                SwitchClause::attributes_of(#[trigger] clauses[i]),
            ) is None by {}
            lemma_without_conditions::<SwitchClause>(clauses, flags);
            lemma_cases_untouched(clauses, clauses.len(), flags);
            assert(clauses.subrange(0, clauses.len() as int) =~= clauses);
        },
        StatementView::Loop { attributes, body, continuing } => {
            lemma_body_untouched(body, flags);
            match continuing {
                Some(c) => {
                    lemma_body_untouched(c.body, flags);
                },
                None => {},
            }
        },
        StatementView::For { attributes, initializer, condition, update, body } => {
            lemma_body_untouched(body, flags);
            match initializer {
                Some(s) => {
                    lemma_inside_untouched(*s.node, flags);
                },
                None => {},
            }
            match update {
                Some(s) => {
                    lemma_inside_untouched(*s.node, flags);
                },
                None => {},
            }
        },
        StatementView::While { attributes, condition, body } => {
            lemma_body_untouched(body, flags);
        },
        _ => {},
    }
}

} // verus!
