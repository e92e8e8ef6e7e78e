use crate::syntax::statement::{IfClauseView, StatementNodeView, StatementView, SwitchClauseView};
use vstd::prelude::*;

verus! {

/// The larger of two numbers.
pub open spec fn max(a: nat, b: nat) -> nat {
    if a >= b {
        a
    } else {
        b
    }
}

/// The largest number of a sequence; 0 for the empty sequence.
pub open spec fn sup(s: Seq<nat>) -> nat
    decreases s.len(),
{
    if s.len() == 0 {
        0
    } else {
        max(sup(s.drop_last()), s.last())
    }
}

/// No number of a sequence is larger than the largest.
pub proof fn lemma_sup_bounds(s: Seq<nat>, i: int)
    requires
        0 <= i < s.len(),
    ensures
        s[i] <= sup(s),
    decreases s.len(),
{
    if i < s.len() - 1 {
        lemma_sup_bounds(s.drop_last(), i);
    }
}

/// The largest number of a sequence is within every bound on its numbers.
pub proof fn lemma_sup_least(s: Seq<nat>, bound: nat)
    requires
        forall|i: int| 0 <= i < s.len() ==> s[i] <= bound,
    ensures
        sup(s) <= bound,
    decreases s.len(),
{
    if s.len() > 0 {
        lemma_sup_least(s.drop_last(), bound);
    }
}

/// How deeply statements are nested inside the statements of a list.
pub open spec fn list_height(statements: Seq<StatementNodeView>) -> nat
    decreases statements, 1nat,
{
    sup(list_heights(statements))
}

/// How deeply statements are nested inside each statement of a list.
pub open spec fn list_heights(statements: Seq<StatementNodeView>) -> Seq<nat>
    decreases statements, 0nat,
{
    Seq::new(
        statements.len(),
        |i: int|
            if 0 <= i < statements.len() {
                node_height(statements[i])
            } else {
                0
            },
    )
}

/// How deeply statements are nested inside the bodies of `else if` clauses.
pub open spec fn clauses_height(clauses: Seq<IfClauseView>) -> nat
    decreases clauses, 1nat,
{
    sup(clauses_heights(clauses))
}

/// How deeply statements are nested inside the body of each clause.
pub open spec fn clauses_heights(clauses: Seq<IfClauseView>) -> Seq<nat>
    decreases clauses, 0nat,
{
    Seq::new(
        clauses.len(),
        |i: int|
            if 0 <= i < clauses.len() {
                list_height(clauses[i].body.statements)
            } else {
                0
            },
    )
}

/// How deeply statements are nested inside the bodies of `switch` clauses.
pub open spec fn cases_height(clauses: Seq<SwitchClauseView>) -> nat
    decreases clauses, 1nat,
{
    sup(cases_heights(clauses))
}

/// How deeply statements are nested inside the body of each clause.
pub open spec fn cases_heights(clauses: Seq<SwitchClauseView>) -> Seq<nat>
    decreases clauses, 0nat,
{
    Seq::new(
        clauses.len(),
        |i: int|
            if 0 <= i < clauses.len() {
                list_height(clauses[i].body.statements)
            } else {
                0
            },
    )
}

/// How deeply statements are nested inside a statement.
pub open spec fn node_height(statement: StatementNodeView) -> nat
    decreases statement, 0nat,
{
    statement_height(*statement.node)
}

/// How deeply statements are nested inside a statement: 0 for a statement
/// that holds no other.
pub open spec fn statement_height(statement: StatementView) -> nat
    decreases statement, 0nat,
{
    match statement {
        StatementView::Compound(c) => 1 + list_height(c.statements),
        StatementView::If { if_clause, else_if_clauses, else_clause, .. } => 1 + max(
            list_height(if_clause.body.statements),
            max(
                clauses_height(else_if_clauses),
                match else_clause {
                    Some(c) => list_height(c.statements),
                    None => 0,
                },
            ),
        ),
        StatementView::Switch { clauses, .. } => 1 + cases_height(clauses),
        StatementView::Loop { body, continuing, .. } => 1 + max(
            list_height(body.statements),
            match continuing {
                Some(c) => list_height(c.body.statements),
                None => 0,
            },
        ),
        StatementView::For { initializer, update, body, .. } => 1 + max(
            list_height(body.statements),
            max(
                match initializer {
                    Some(s) => node_height(s),
                    None => 0,
                },
                match update {
                    Some(s) => node_height(s),
                    None => 0,
                },
            ),
        ),
        StatementView::While { body, .. } => 1 + list_height(body.statements),
        _ => 0,
    }
}

/// A statement of a list is nested no deeper than the list says.
pub proof fn lemma_list_height_bounds(statements: Seq<StatementNodeView>, i: int)
    requires
        0 <= i < statements.len(),
    ensures
        node_height(statements[i]) <= list_height(statements),
{
    let heights = list_heights(statements);
    lemma_sup_bounds(heights, i);
}

/// A list whose statements are all nested within `bound` is nested within
/// `bound`.
pub proof fn lemma_list_height_least(statements: Seq<StatementNodeView>, bound: nat)
    requires
        forall|i: int| 0 <= i < statements.len() ==> node_height(#[trigger] statements[i]) <= bound,
    ensures
        list_height(statements) <= bound,
{
    let heights = list_heights(statements);
    lemma_sup_least(heights, bound);
}

/// The body of a clause is nested no deeper than the list of clauses says.
pub proof fn lemma_clauses_height_bounds(clauses: Seq<IfClauseView>, i: int)
    requires
        0 <= i < clauses.len(),
    ensures
        list_height(clauses[i].body.statements) <= clauses_height(clauses),
{
    let heights = clauses_heights(clauses);
    lemma_sup_bounds(heights, i);
}

/// The body of a clause is nested no deeper than the list of clauses says.
pub proof fn lemma_cases_height_bounds(clauses: Seq<SwitchClauseView>, i: int)
    requires
        0 <= i < clauses.len(),
    ensures
        list_height(clauses[i].body.statements) <= cases_height(clauses),
{
    let heights = cases_heights(clauses);
    lemma_sup_bounds(heights, i);
}

/// A list of clauses whose bodies are all nested within `bound` is nested within `bound`.
pub proof fn lemma_cases_height_least(clauses: Seq<SwitchClauseView>, bound: nat)
    requires
        forall|i: int|
            0 <= i < clauses.len() ==> list_height((#[trigger] clauses[i]).body.statements)
                <= bound,
    ensures
        cases_height(clauses) <= bound,
{
    let heights = cases_heights(clauses);
    lemma_sup_least(heights, bound);
}

} // verus!
