use crate::condcomp::fold::{CondCompErrorView, Flags};
use crate::condcomp::height::{
    cases_height, clauses_height, lemma_cases_height_bounds, lemma_cases_height_least,
    lemma_clauses_height_bounds, lemma_list_height_bounds, lemma_list_height_least, list_height,
    node_height, statement_height,
};
use crate::condcomp::prune::{
    eval_if_attributes, eval_if_slot, folded_condition, placed_slot, pruned, pruned_list, slot_view,
    with_condition, Diagnostic, DiagnosticView,
};
use crate::model::views;
use crate::syntax::attribute::AttributeView;
use crate::syntax::decorated::Decorated;
use crate::syntax::statement::{
    if_clause_models, statement_models, switch_clause_models, BreakIfStatement, CompoundStatement,
    CompoundStatementView, ContinuingStatement, ContinuingStatementView, IfClause, IfClauseView,
    Statement, StatementNode, StatementNodeView, StatementView, SwitchClause, SwitchClauseView,
};
use std::collections::HashMap;
use vstd::prelude::*;

verus! {

/// Every node that a list keeps is what a node of the list was made into.
pub proof fn lemma_pruned_list_origin<N: Decorated>(vs: Seq<N::V>, flags: Flags, k: int) -> (j: int)
    requires
        pruned_list::<N>(vs, flags) is Ok,
        0 <= k < pruned_list::<N>(vs, flags)->Ok_0.len(),
    ensures
        0 <= j < vs.len(),
        pruned::<N>(vs[j], flags) == Ok::<Option<N::V>, CondCompErrorView>(
            Some(pruned_list::<N>(vs, flags)->Ok_0[k]),
        ),
    decreases vs.len(),
{
    let front = pruned_list::<N>(vs.drop_last(), flags)->Ok_0;
    if k < front.len() {
        let j = lemma_pruned_list_origin::<N>(vs.drop_last(), flags, k);
        assert(vs.drop_last()[j] == vs[j]);
        j
    } else {
        vs.len() - 1
    }
}

/// Replacing the attributes of a statement leaves its nesting as it was.
pub proof fn lemma_attributes_keep_height(v: StatementNodeView, attributes: Seq<AttributeView>)
    ensures
        node_height(StatementNode::with_attributes(v, attributes)) == node_height(v),
{
}

/// Pruning a list of statements by their conditions nests nothing deeper.
pub proof fn lemma_pruned_list_height(statements: Seq<StatementNodeView>, flags: Flags)
    requires
        pruned_list::<StatementNode>(statements, flags) is Ok,
    ensures
        list_height(pruned_list::<StatementNode>(statements, flags)->Ok_0) <= list_height(
            statements,
        ),
{
    let kept = pruned_list::<StatementNode>(statements, flags)->Ok_0;
    assert forall|k: int| 0 <= k < kept.len() implies node_height(#[trigger] kept[k])
        <= list_height(statements) by {
        let j = lemma_pruned_list_origin::<StatementNode>(statements, flags, k);
        match folded_condition(StatementNode::attributes_of(statements[j]), flags)->Ok_0 {
            Some(e) => {
                lemma_attributes_keep_height(
                    statements[j],
                    with_condition(StatementNode::attributes_of(statements[j]), e),
                );
            },
            None => {},
        }
        lemma_list_height_bounds(statements, j);
    }
    lemma_list_height_least(kept, list_height(statements));
}

/// Pruning a list of `switch` clauses by their conditions nests nothing
/// deeper.
pub proof fn lemma_pruned_cases_height(clauses: Seq<SwitchClauseView>, flags: Flags)
    requires
        pruned_list::<SwitchClause>(clauses, flags) is Ok,
    ensures
        cases_height(pruned_list::<SwitchClause>(clauses, flags)->Ok_0) <= cases_height(clauses),
{
    let kept = pruned_list::<SwitchClause>(clauses, flags)->Ok_0;
    assert forall|k: int| 0 <= k < kept.len() implies list_height(
        (#[trigger] kept[k]).body.statements,
    ) <= cases_height(clauses) by {
        let j = lemma_pruned_list_origin::<SwitchClause>(clauses, flags, k);
        lemma_cases_height_bounds(clauses, j);
    }
    lemma_cases_height_least(kept, cases_height(clauses));
}

/// What conditional compilation makes of a list of statements: the list is
/// pruned by the conditions of its statements, then each statement that is
/// kept is pruned inside, in order. The first error ends it.
pub open spec fn pruned_statements(statements: Seq<StatementNodeView>, flags: Flags) -> Result<
    Seq<StatementNodeView>,
    DiagnosticView,
>
    decreases list_height(statements), 3nat, 0nat,
{
    match pruned_list::<StatementNode>(statements, flags) {
        Err(d) => Err(d),
        Ok(kept) => {
            proof {
                lemma_pruned_list_height(statements, flags);
            }
            each_inside(kept, kept.len(), flags)
        },
    }
}

/// The first `n` statements of a list, each pruned inside.
pub open spec fn each_inside(statements: Seq<StatementNodeView>, n: nat, flags: Flags) -> Result<
    Seq<StatementNodeView>,
    DiagnosticView,
>
    decreases list_height(statements), 2nat, n,
{
    if n == 0 || n > statements.len() {
        Ok(Seq::empty())
    } else {
        match each_inside(statements, (n - 1) as nat, flags) {
            Err(d) => Err(d),
            Ok(front) => {
                proof {
                    lemma_list_height_bounds(statements, n - 1);
                }
                match pruned_inside(statements[n - 1], flags) {
                    Err(d) => Err(d),
                    Ok(s) => Ok(front.push(s)),
                }
            },
        }
    }
}

/// The first `n` clauses of a list of `else if` clauses, the body of each
/// pruned.
pub open spec fn each_clause(clauses: Seq<IfClauseView>, n: nat, flags: Flags) -> Result<
    Seq<IfClauseView>,
    DiagnosticView,
>
    decreases clauses_height(clauses), 6nat, n,
{
    if n == 0 || n > clauses.len() {
        Ok(Seq::empty())
    } else {
        match each_clause(clauses, (n - 1) as nat, flags) {
            Err(d) => Err(d),
            Ok(front) => {
                proof {
                    lemma_clauses_height_bounds(clauses, n - 1);
                }
                match pruned_clause(clauses[n - 1], flags) {
                    Err(d) => Err(d),
                    Ok(clause) => Ok(front.push(clause)),
                }
            },
        }
    }
}

/// The first `n` clauses of a list of `switch` clauses, the body of each
/// pruned.
pub open spec fn each_case(clauses: Seq<SwitchClauseView>, n: nat, flags: Flags) -> Result<
    Seq<SwitchClauseView>,
    DiagnosticView,
>
    decreases cases_height(clauses), 6nat, n,
{
    if n == 0 || n > clauses.len() {
        Ok(Seq::empty())
    } else {
        match each_case(clauses, (n - 1) as nat, flags) {
            Err(d) => Err(d),
            Ok(front) => {
                proof {
                    lemma_cases_height_bounds(clauses, n - 1);
                }
                match pruned_case(clauses[n - 1], flags) {
                    Err(d) => Err(d),
                    Ok(clause) => Ok(front.push(clause)),
                }
            },
        }
    }
}

/// The clauses of a `switch`, pruned by their conditions, the body of each
/// that is kept pruned.
pub open spec fn pruned_cases(clauses: Seq<SwitchClauseView>, flags: Flags) -> Result<
    Seq<SwitchClauseView>,
    DiagnosticView,
>
    decreases cases_height(clauses), 7nat, 0nat,
{
    match pruned_list::<SwitchClause>(clauses, flags) {
        Err(d) => Err(d),
        Ok(kept) => {
            proof {
                lemma_pruned_cases_height(clauses, flags);
            }
            each_case(kept, kept.len(), flags)
        },
    }
}

/// The bodies of a list of `else if` clauses, pruned.
pub open spec fn pruned_clauses(clauses: Seq<IfClauseView>, flags: Flags) -> Result<
    Seq<IfClauseView>,
    DiagnosticView,
>
    decreases clauses_height(clauses), 7nat, 0nat,
{
    each_clause(clauses, clauses.len(), flags)
}

/// An `if` or `else if` clause with its body pruned.
pub open spec fn pruned_clause(clause: IfClauseView, flags: Flags) -> Result<
    IfClauseView,
    DiagnosticView,
>
    decreases list_height(clause.body.statements), 5nat, 0nat,
{
    match pruned_body(clause.body, flags) {
        Err(d) => Err(d),
        Ok(body) => Ok(IfClauseView { body, ..clause }),
    }
}

/// A `switch` clause with its body pruned.
pub open spec fn pruned_case(clause: SwitchClauseView, flags: Flags) -> Result<
    SwitchClauseView,
    DiagnosticView,
>
    decreases list_height(clause.body.statements), 5nat, 0nat,
{
    match pruned_body(clause.body, flags) {
        Err(d) => Err(d),
        Ok(body) => Ok(SwitchClauseView { body, ..clause }),
    }
}

/// An `else` block, pruned where it is there.
pub open spec fn pruned_else(slot: Option<CompoundStatementView>, flags: Flags) -> Result<
    Option<CompoundStatementView>,
    DiagnosticView,
>
    decreases
        (match slot {
            Some(c) => list_height(c.statements),
            None => 0,
        }),
        5nat,
        0nat,
{
    match slot {
        None => Ok(None),
        Some(c) => match pruned_body(c, flags) {
            Err(d) => Err(d),
            Ok(c) => Ok(Some(c)),
        },
    }
}

/// A block with its statements pruned.
pub open spec fn pruned_body(body: CompoundStatementView, flags: Flags) -> Result<
    CompoundStatementView,
    DiagnosticView,
>
    decreases list_height(body.statements), 4nat, 0nat,
{
    match pruned_statements(body.statements, flags) {
        Err(d) => Err(d),
        Ok(statements) => Ok(CompoundStatementView { statements, ..body }),
    }
}

/// An optional statement, pruned inside where it is there.
pub open spec fn pruned_optional(slot: Option<StatementNodeView>, flags: Flags) -> Result<
    Option<StatementNodeView>,
    DiagnosticView,
>
    decreases
        (match slot {
            Some(s) => node_height(s),
            None => 0,
        }),
        2nat,
        0nat,
{
    match slot {
        None => Ok(None),
        Some(s) => match pruned_inside(s, flags) {
            Err(d) => Err(d),
            Ok(s) => Ok(Some(s)),
        },
    }
}

/// What conditional compilation makes of the `continuing` block of a loop:
/// the block's own condition first, then its statements, then the condition
/// of its `break if`.
pub open spec fn pruned_continuing(slot: Option<ContinuingStatementView>, flags: Flags) -> Result<
    Option<ContinuingStatementView>,
    DiagnosticView,
>
    decreases
        (match slot {
            Some(c) => list_height(c.body.statements),
            None => 0,
        }),
        5nat,
        0nat,
{
    match placed_slot::<ContinuingStatement>(slot, flags) {
        Err(d) => Err(d),
        Ok(None) => Ok(None),
        Ok(Some(continuing)) => match pruned_body(continuing.body, flags) {
            Err(d) => Err(d),
            Ok(body) => match placed_slot::<BreakIfStatement>(continuing.break_if, flags) {
                Err(d) => Err(d),
                Ok(break_if) => Ok(Some(ContinuingStatementView { body, break_if, ..continuing })),
            },
        },
    }
}

/// What conditional compilation makes of the statements nested in a
/// statement. The statement's own attributes are not looked at: they were
/// settled with the list the statement stands in.
pub open spec fn pruned_inside(statement: StatementNodeView, flags: Flags) -> Result<
    StatementNodeView,
    DiagnosticView,
>
    decreases node_height(statement), 1nat, 0nat,
{
    match pruned_nested(*statement.node, flags) {
        Err(d) => Err(d),
        Ok(node) => Ok(StatementNodeView { span: statement.span, node: Box::new(node) }),
    }
}

/// What conditional compilation makes of the statements nested in a statement.
pub open spec fn pruned_nested(statement: StatementView, flags: Flags) -> Result<
    StatementView,
    DiagnosticView,
>
    decreases statement_height(statement), 0nat, 0nat,
{
    match statement {
        StatementView::Compound(c) => match pruned_body(c, flags) {
            Err(d) => Err(d),
            Ok(c) => Ok(StatementView::Compound(c)),
        },
        StatementView::If { attributes, if_clause, else_if_clauses, else_clause } => {
            match pruned_clause(if_clause, flags) {
                Err(d) => Err(d),
                Ok(if_clause) => match pruned_clauses(else_if_clauses, flags) {
                    Err(d) => Err(d),
                    Ok(else_if_clauses) => match pruned_else(else_clause, flags) {
                        Err(d) => Err(d),
                        Ok(else_clause) => Ok(
                            StatementView::If {
                                attributes,
                                if_clause,
                                else_if_clauses,
                                else_clause,
                            },
                        ),
                    },
                },
            }
        },
        StatementView::Switch { attributes, expression, body_attributes, clauses } => {
            match pruned_cases(clauses, flags) {
                Err(d) => Err(d),
                Ok(clauses) => Ok(
                    StatementView::Switch { attributes, expression, body_attributes, clauses },
                ),
            }
        },
        StatementView::Loop { attributes, body, continuing } => match pruned_body(body, flags) {
            Err(d) => Err(d),
            Ok(body) => match pruned_continuing(continuing, flags) {
                Err(d) => Err(d),
                Ok(continuing) => Ok(StatementView::Loop { attributes, body, continuing }),
            },
        },
        StatementView::For { attributes, initializer, condition, update, body } => {
            match pruned_optional(initializer, flags) {
                Err(d) => Err(d),
                Ok(initializer) => match pruned_optional(update, flags) {
                    Err(d) => Err(d),
                    Ok(update) => match pruned_body(body, flags) {
                        Err(d) => Err(d),
                        Ok(body) => Ok(
                            StatementView::For { attributes, initializer, condition, update, body },
                        ),
                    },
                },
            }
        },
        StatementView::While { attributes, condition, body } => match pruned_body(body, flags) {
            Err(d) => Err(d),
            Ok(body) => Ok(StatementView::While { attributes, condition, body }),
        },
        _ => Ok(statement),
    }
}

/// An error among the first `n` statements is the error of every longer
/// part of the list.
pub proof fn lemma_each_inside_error(
    statements: Seq<StatementNodeView>,
    n: nat,
    m: nat,
    flags: Flags,
)
    requires
        n <= m <= statements.len(),
        each_inside(statements, n, flags) is Err,
    ensures
        each_inside(statements, m, flags) == each_inside(statements, n, flags),
    decreases m,
{
    if n < m {
        lemma_each_inside_error(statements, n, (m - 1) as nat, flags);
    }
}

/// An error among the first `n` clauses is the error of every longer part of the list.
pub proof fn lemma_each_clause_error(clauses: Seq<IfClauseView>, n: nat, m: nat, flags: Flags)
    requires
        n <= m <= clauses.len(),
        each_clause(clauses, n, flags) is Err,
    ensures
        each_clause(clauses, m, flags) == each_clause(clauses, n, flags),
    decreases m,
{
    if n < m {
        lemma_each_clause_error(clauses, n, (m - 1) as nat, flags);
    }
}

/// An error among the first `n` clauses is the error of every longer part of the list.
pub proof fn lemma_each_case_error(clauses: Seq<SwitchClauseView>, n: nat, m: nat, flags: Flags)
    requires
        n <= m <= clauses.len(),
        each_case(clauses, n, flags) is Err,
    ensures
        each_case(clauses, m, flags) == each_case(clauses, n, flags),
    decreases m,
{
    if n < m {
        lemma_each_case_error(clauses, n, (m - 1) as nat, flags);
    }
}

/// The views of a list of statements are the models that a block holds.
pub proof fn lemma_statement_models(statements: Seq<StatementNode>)
    ensures
        statement_models(statements) == views(statements),
{
    assert(statement_models(statements) =~= views(statements));
}

/// The views of a list of clauses are the models that an `if` statement holds.
pub proof fn lemma_if_clause_models(clauses: Seq<IfClause>)
    ensures
        if_clause_models(clauses) == views(clauses),
{
    assert(if_clause_models(clauses) =~= views(clauses));
}

/// The views of a list of clauses are the models that a `switch` statement holds.
pub proof fn lemma_switch_clause_models(clauses: Seq<SwitchClause>)
    ensures
        switch_clause_models(clauses) == views(clauses),
{
    assert(switch_clause_models(clauses) =~= views(clauses));
}

/// The view of a traversal's outcome: the tree as it is left, or the error.
pub open spec fn traversed<V>(
    result: Result<(), Diagnostic>,
    left: V,
) -> Result<V, DiagnosticView> {
    match result {
        Ok(()) => Ok(left),
        Err(d) => Err(d@),
    }
}

/// Folds and prunes a list of statements and everything nested in it,
/// against the feature flags.
#[verifier::loop_isolation(false)]
pub fn statement_eval_if_attributes(
    statements: &mut Vec<StatementNode>,
    features: &HashMap<String, bool>,
) -> (result: Result<(), Diagnostic>)
    ensures
        pruned_statements(views(old(statements)@), features.deep_view()) == traversed(
            result,
            views(final(statements)@),
        ),
    decreases list_height(views(old(statements)@)), 3nat, 0nat,
{
    let ghost flags = features.deep_view();
    let ghost before = views(statements@);
    match eval_if_attributes(statements, features) {
        Err(d) => {
            return Err(d);
        },
        Ok(()) => {},
    }
    let ghost kept = views(statements@);
    proof {
        lemma_pruned_list_height(before, flags);
    }
    let mut i: usize = 0;
    assert(views(statements@).subrange(0, 0) =~= Seq::<StatementNodeView>::empty());
    while i < statements.len()
        invariant
            i <= statements.len(),
            statements@.len() == kept.len(),
            forall|k: int| i <= k < kept.len() ==> (#[trigger] statements@[k])@ == kept[k],
            each_inside(kept, i as nat, flags) == Ok::<Seq<StatementNodeView>, DiagnosticView>(
                views(statements@).subrange(0, i as int),
            ),
        decreases statements.len() - i,
    {
        let ghost done = views(statements@).subrange(0, i as int);
        proof {
            lemma_list_height_bounds(kept, i as int);
        }
        match eval_inside(&mut statements[i], features) {
            Err(d) => {
                proof {
                    lemma_each_inside_error(kept, (i + 1) as nat, kept.len(), flags);
                }
                return Err(d);
            },
            Ok(()) => {},
        }
        assert(views(statements@).subrange(0, i + 1) =~= done.push(statements@[i as int]@));
        i += 1;
    }
    assert(views(statements@).subrange(0, i as int) =~= views(statements@));
    Ok(())
}

/// Prunes the statements of a block.
fn prune_body(body: &mut CompoundStatement, features: &HashMap<String, bool>) -> (result: Result<
    (),
    Diagnostic,
>)
    ensures
        pruned_body(old(body)@, features.deep_view()) == traversed(result, final(body)@),
    decreases list_height(old(body)@.statements), 4nat, 0nat,
{
    proof {
        lemma_statement_models(body.statements@);
    }
    let result = statement_eval_if_attributes(&mut body.statements, features);
    proof {
        lemma_statement_models(body.statements@);
    }
    result
}

/// Prunes inside an optional statement.
fn prune_optional(
    slot: &mut Option<StatementNode>,
    features: &HashMap<String, bool>,
) -> (result: Result<(), Diagnostic>)
    ensures
        pruned_optional(slot_view(*old(slot)), features.deep_view()) == traversed(
            result,
            slot_view(*final(slot)),
        ),
    decreases
        (match slot_view(*old(slot)) {
            Some(s) => node_height(s),
            None => 0,
        }),
        2nat,
        0nat,
{
    match slot {
        Some(statement) => eval_inside(statement, features),
        None => Ok(()),
    }
}

/// Prunes the bodies of a list of `else if` clauses.
#[verifier::loop_isolation(false)]
fn prune_clauses(clauses: &mut Vec<IfClause>, features: &HashMap<String, bool>) -> (result: Result<
    (),
    Diagnostic,
>)
    ensures
        pruned_clauses(views(old(clauses)@), features.deep_view()) == traversed(
            result,
            views(final(clauses)@),
        ),
    decreases clauses_height(views(old(clauses)@)), 7nat, 0nat,
{
    let ghost flags = features.deep_view();
    let ghost before = views(clauses@);
    let mut i: usize = 0;
    assert(views(clauses@).subrange(0, 0) =~= Seq::<IfClauseView>::empty());
    while i < clauses.len()
        invariant
            i <= clauses.len(),
            clauses@.len() == before.len(),
            forall|k: int| i <= k < before.len() ==> (#[trigger] clauses@[k])@ == before[k],
            each_clause(before, i as nat, flags) == Ok::<Seq<IfClauseView>, DiagnosticView>(
                views(clauses@).subrange(0, i as int),
            ),
        decreases clauses.len() - i,
    {
        let ghost done = views(clauses@).subrange(0, i as int);
        proof {
            lemma_clauses_height_bounds(before, i as int);
        }
        match prune_clause(&mut clauses[i], features) {
            Err(d) => {
                proof {
                    lemma_each_clause_error(before, (i + 1) as nat, before.len(), flags);
                }
                return Err(d);
            },
            Ok(()) => {},
        }
        assert(views(clauses@).subrange(0, i + 1) =~= done.push(clauses@[i as int]@));
        i += 1;
    }
    assert(views(clauses@).subrange(0, i as int) =~= views(clauses@));
    Ok(())
}

/// Prunes the clauses of a `switch` by their conditions, then the bodies of
/// those that are kept.
#[verifier::loop_isolation(false)]
fn prune_cases(
    clauses: &mut Vec<SwitchClause>,
    features: &HashMap<String, bool>,
) -> (result: Result<(), Diagnostic>)
    ensures
        pruned_cases(views(old(clauses)@), features.deep_view()) == traversed(
            result,
            views(final(clauses)@),
        ),
    decreases cases_height(views(old(clauses)@)), 7nat, 0nat,
{
    let ghost flags = features.deep_view();
    let ghost before = views(clauses@);
    match eval_if_attributes(clauses, features) {
        Err(d) => {
            return Err(d);
        },
        Ok(()) => {},
    }
    let ghost kept = views(clauses@);
    proof {
        lemma_pruned_cases_height(before, flags);
    }
    let mut i: usize = 0;
    assert(views(clauses@).subrange(0, 0) =~= Seq::<SwitchClauseView>::empty());
    while i < clauses.len()
        invariant
            i <= clauses.len(),
            clauses@.len() == kept.len(),
            forall|k: int| i <= k < kept.len() ==> (#[trigger] clauses@[k])@ == kept[k],
            each_case(kept, i as nat, flags) == Ok::<Seq<SwitchClauseView>, DiagnosticView>(
                views(clauses@).subrange(0, i as int),
            ),
        decreases clauses.len() - i,
    {
        let ghost done = views(clauses@).subrange(0, i as int);
        proof {
            lemma_cases_height_bounds(kept, i as int);
        }
        match prune_case(&mut clauses[i], features) {
            Err(d) => {
                proof {
                    lemma_each_case_error(kept, (i + 1) as nat, kept.len(), flags);
                }
                return Err(d);
            },
            Ok(()) => {},
        }
        assert(views(clauses@).subrange(0, i + 1) =~= done.push(clauses@[i as int]@));
        i += 1;
    }
    assert(views(clauses@).subrange(0, i as int) =~= views(clauses@));
    Ok(())
}

/// Prunes the `continuing` block of a loop.
fn prune_continuing(
    slot: &mut Option<ContinuingStatement>,
    features: &HashMap<String, bool>,
) -> (result: Result<(), Diagnostic>)
    ensures
        pruned_continuing(slot_view(*old(slot)), features.deep_view()) == traversed(
            result,
            slot_view(*final(slot)),
        ),
    decreases
        (match slot_view(*old(slot)) {
            Some(c) => list_height(c.body.statements),
            None => 0,
        }),
        5nat,
        0nat,
{
    match eval_if_slot(slot, features) {
        Err(d) => {
            return Err(d);
        },
        Ok(()) => {},
    }
    match slot {
        None => Ok(()),
        Some(continuing) => {
            match prune_body(&mut continuing.body, features) {
                Err(d) => {
                    return Err(d);
                },
                Ok(()) => {},
            }
            eval_if_slot(&mut continuing.break_if, features)
        },
    }
}

/// Prunes the body of an `if` or `else if` clause.
fn prune_clause(clause: &mut IfClause, features: &HashMap<String, bool>) -> (result: Result<
    (),
    Diagnostic,
>)
    ensures
        pruned_clause(old(clause)@, features.deep_view()) == traversed(result, final(clause)@),
    decreases list_height(old(clause)@.body.statements), 5nat, 0nat,
{
    prune_body(&mut clause.body, features)
}

/// Prunes the body of a `switch` clause.
fn prune_case(clause: &mut SwitchClause, features: &HashMap<String, bool>) -> (result: Result<
    (),
    Diagnostic,
>)
    ensures
        pruned_case(old(clause)@, features.deep_view()) == traversed(result, final(clause)@),
    decreases list_height(old(clause)@.body.statements), 5nat, 0nat,
{
    prune_body(&mut clause.body, features)
}

/// Prunes an `else` block.
fn prune_else(
    slot: &mut Option<CompoundStatement>,
    features: &HashMap<String, bool>,
) -> (result: Result<(), Diagnostic>)
    ensures
        pruned_else(slot_view(*old(slot)), features.deep_view()) == traversed(
            result,
            slot_view(*final(slot)),
        ),
    decreases
        (match slot_view(*old(slot)) {
            Some(c) => list_height(c.statements),
            None => 0,
        }),
        5nat,
        0nat,
{
    match slot {
        Some(c) => prune_body(c, features),
        None => Ok(()),
    }
}

/// Prunes the statements nested in a statement.
fn eval_inside(statement: &mut StatementNode, features: &HashMap<String, bool>) -> (result: Result<
    (),
    Diagnostic,
>)
    ensures
        pruned_inside(old(statement)@, features.deep_view()) == traversed(
            result,
            final(statement)@,
        ),
    decreases node_height(old(statement)@), 1nat, 0nat,
{
    prune_nested(&mut *statement.node, features)
}

fn prune_nested(statement: &mut Statement, features: &HashMap<String, bool>) -> (result: Result<
    (),
    Diagnostic,
>)
    ensures
        pruned_nested(old(statement)@, features.deep_view()) == traversed(
            result,
            final(statement)@,
        ),
    decreases statement_height(old(statement)@), 0nat, 0nat,
{
    match statement {
        Statement::Compound(c) => prune_body(c, features),
        Statement::If { if_clause, else_if_clauses, else_clause, .. } => {
            match prune_clause(if_clause, features) {
                Err(d) => {
                    return Err(d);
                },
                Ok(()) => {},
            }
            proof {
                lemma_if_clause_models(else_if_clauses@);
            }
            match prune_clauses(else_if_clauses, features) {
                Err(d) => {
                    return Err(d);
                },
                Ok(()) => {},
            }
            proof {
                lemma_if_clause_models(else_if_clauses@);
            }
            prune_else(else_clause, features)
        },
        Statement::Switch { clauses, .. } => {
            proof {
                lemma_switch_clause_models(clauses@);
            }
            let result = prune_cases(clauses, features);
            proof {
                lemma_switch_clause_models(clauses@);
            }
            result
        },
        Statement::Loop { body, continuing, .. } => {
            match prune_body(body, features) {
                Err(d) => {
                    return Err(d);
                },
                Ok(()) => {},
            }
            prune_continuing(continuing, features)
        },
        Statement::For { initializer, update, body, .. } => {
            match prune_optional(initializer, features) {
                Err(d) => {
                    return Err(d);
                },
                Ok(()) => {},
            }
            match prune_optional(update, features) {
                Err(d) => {
                    return Err(d);
                },
                Ok(()) => {},
            }
            prune_body(body, features)
        },
        Statement::While { body, .. } => prune_body(body, features),
        _ => Ok(()),
    }
}

} // verus!
