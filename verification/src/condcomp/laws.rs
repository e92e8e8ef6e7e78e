use crate::condcomp::fold::{fold, literal, CondCompErrorView, Flags};
use crate::condcomp::prune::{
    condition, if_position, is_first_if, lemma_first_if_unique, pruned, pruned_list, with_condition,
    DiagnosticView,
};
use crate::span::Span;
use crate::syntax::attribute::AttributeView;
use crate::syntax::decorated::Decorated;
use crate::syntax::expression::{
    BinaryOperator, ExpressionNodeView, ExpressionView, LiteralExpression, TypeExpressionView,
    UnaryOperator,
};
use vstd::prelude::*;

verus! {

/// The expressions that an `if` attribute may hold: boolean literals,
/// parentheses, `!`, `&&`, `||`, and identifiers without template arguments.
pub open spec fn in_grammar(expr: ExpressionView) -> bool
    decreases expr,
{
    match expr {
        ExpressionView::Literal(LiteralExpression::Bool(_)) => true,
        ExpressionView::Parenthesized(inner) => in_grammar(*inner.node),
        ExpressionView::Unary { operator, operand } => operator == UnaryOperator::LogicalNegation
            && in_grammar(*operand.node),
        ExpressionView::Binary { operator, left, right } => (operator
            == BinaryOperator::ShortCircuitOr || operator == BinaryOperator::ShortCircuitAnd)
            && in_grammar(*left.node) && in_grammar(*right.node),
        ExpressionView::TypeOrIdentifier(ty) => ty.template_args is None,
        _ => false,
    }
}

/// The expressions of the grammar that name no flag.
pub open spec fn closed(expr: ExpressionView) -> bool
    decreases expr,
{
    match expr {
        ExpressionView::Literal(LiteralExpression::Bool(_)) => true,
        ExpressionView::Parenthesized(inner) => closed(*inner.node),
        ExpressionView::Unary { operator, operand } => operator == UnaryOperator::LogicalNegation
            && closed(*operand.node),
        ExpressionView::Binary { operator, left, right } => (operator
            == BinaryOperator::ShortCircuitOr || operator == BinaryOperator::ShortCircuitAnd)
            && closed(*left.node) && closed(*right.node),
        _ => false,
    }
}

/// The logical value of a closed expression.
pub open spec fn truth(expr: ExpressionView) -> bool
    decreases expr,
{
    match expr {
        ExpressionView::Literal(LiteralExpression::Bool(value)) => value,
        ExpressionView::Parenthesized(inner) => truth(*inner.node),
        ExpressionView::Unary { operator, operand } => !truth(*operand.node),
        ExpressionView::Binary { operator, left, right } => if operator
            == BinaryOperator::ShortCircuitOr {
            truth(*left.node) || truth(*right.node)
        } else {
            truth(*left.node) && truth(*right.node)
        },
        _ => false,
    }
}

/// An expression read at `span`.
pub open spec fn at(span: Span, expr: ExpressionView) -> ExpressionNodeView {
    ExpressionNodeView { span, node: Box::new(expr) }
}

/// The identifier `name`, without template arguments.
pub open spec fn flag(name: Seq<char>) -> ExpressionView {
    ExpressionView::TypeOrIdentifier(TypeExpressionView { name, template_args: None })
}

/// A fold succeeds exactly on the expressions of the grammar, whatever the
/// flags are.
pub proof fn lemma_fold_succeeds_on_grammar(expr: ExpressionView, flags: Flags)
    ensures
        fold(expr, flags) is Ok <==> in_grammar(expr),
    decreases expr,
{
    match expr {
        ExpressionView::Parenthesized(inner) => {
            lemma_fold_succeeds_on_grammar(*inner.node, flags);
        },
        ExpressionView::Unary { operator, operand } => {
            lemma_fold_succeeds_on_grammar(*operand.node, flags);
        },
        ExpressionView::Binary { operator, left, right } => {
            lemma_fold_succeeds_on_grammar(*left.node, flags);
            lemma_fold_succeeds_on_grammar(*right.node, flags);
        },
        _ => {},
    }
}

/// An expression built from literals alone folds to the literal of its
/// logical value, whatever the flags are.
pub proof fn lemma_fold_closed(expr: ExpressionView, flags: Flags)
    requires
        closed(expr),
    ensures
        fold(expr, flags) == Ok::<ExpressionView, CondCompErrorView>(literal(truth(expr))),
    decreases expr,
{
    match expr {
        ExpressionView::Parenthesized(inner) => {
            lemma_fold_closed(*inner.node, flags);
        },
        ExpressionView::Unary { operator, operand } => {
            lemma_fold_closed(*operand.node, flags);
        },
        ExpressionView::Binary { operator, left, right } => {
            lemma_fold_closed(*left.node, flags);
            lemma_fold_closed(*right.node, flags);
        },
        _ => {},
    }
}

/// Folding is idempotent: what a fold returns folds to itself. In particular a
/// literal folds to itself.
pub proof fn lemma_fold_idempotent(expr: ExpressionView, flags: Flags)
    requires
        fold(expr, flags) is Ok,
    ensures
        fold(fold(expr, flags)->Ok_0, flags) == fold(expr, flags),
        fold(literal(true), flags) == Ok::<ExpressionView, CondCompErrorView>(literal(true)),
        fold(literal(false), flags) == Ok::<ExpressionView, CondCompErrorView>(literal(false)),
    decreases expr,
{
    match expr {
        ExpressionView::Parenthesized(inner) => {
            lemma_fold_idempotent(*inner.node, flags);
        },
        ExpressionView::Unary { operator, operand } => {
            lemma_fold_idempotent(*operand.node, flags);
        },
        ExpressionView::Binary { operator, left, right } => {
            lemma_fold_idempotent(*left.node, flags);
            lemma_fold_idempotent(*right.node, flags);
        },
        _ => {},
    }
}

/// Every flag that `less` knows, `more` knows with the same value.
pub open spec fn extends(more: Flags, less: Flags) -> bool {
    forall|name: Seq<char>| #[trigger]
        less.contains_key(name) ==> more.contains_key(name) && more[name] == less[name]
}

/// Folding can be taken up again when more flags are known: what folded to
/// a literal stays that literal, and folding the outcome of an earlier fold
/// against more flags is folding what was written against them.
pub proof fn lemma_fold_in_stages(expr: ExpressionView, less: Flags, more: Flags)
    requires
        extends(more, less),
        in_grammar(expr),
    ensures
        fold(expr, less) is Ok,
        fold(expr, more) is Ok,
        forall|value: bool|
            fold(expr, less) == Ok::<ExpressionView, CondCompErrorView>(literal(value)) ==> fold(
                expr,
                more,
            ) == Ok::<ExpressionView, CondCompErrorView>(literal(value)),
        fold(fold(expr, less)->Ok_0, more) == fold(expr, more),
    decreases expr,
{
    lemma_fold_succeeds_on_grammar(expr, less);
    lemma_fold_succeeds_on_grammar(expr, more);
    assert(fold(literal(true), more) == Ok::<ExpressionView, CondCompErrorView>(literal(true)));
    assert(fold(literal(false), more) == Ok::<ExpressionView, CondCompErrorView>(
        literal(false),
    ));
    match expr {
        ExpressionView::Parenthesized(inner) => {
            lemma_fold_in_stages(*inner.node, less, more);
        },
        ExpressionView::Unary { operator, operand } => {
            lemma_fold_in_stages(*operand.node, less, more);
        },
        ExpressionView::Binary { operator, left, right } => {
            lemma_fold_in_stages(*left.node, less, more);
            lemma_fold_in_stages(*right.node, less, more);
            lemma_fold_succeeds_on_grammar(*left.node, less);
            lemma_fold_succeeds_on_grammar(*right.node, less);
            lemma_fold_succeeds_on_grammar(*left.node, more);
            lemma_fold_succeeds_on_grammar(*right.node, more);
        },
        _ => {},
    }
}

/// The short-circuit rules: with a literal on the left, a disjunction folds to
/// `true` or to the fold of its right side, and a conjunction to `false` or to
/// the fold of its right side, for every right side of the grammar.
pub proof fn lemma_short_circuit(x: ExpressionView, flags: Flags, s1: Span, s2: Span)
    requires
        in_grammar(x),
    ensures
        fold(
            ExpressionView::Binary {
                operator: BinaryOperator::ShortCircuitOr,
                left: at(s1, literal(true)),
                right: at(s2, x),
            },
            flags,
        ) == Ok::<ExpressionView, CondCompErrorView>(literal(true)),
        fold(
            ExpressionView::Binary {
                operator: BinaryOperator::ShortCircuitAnd,
                left: at(s1, literal(false)),
                right: at(s2, x),
            },
            flags,
        ) == Ok::<ExpressionView, CondCompErrorView>(literal(false)),
        fold(
            ExpressionView::Binary {
                operator: BinaryOperator::ShortCircuitOr,
                left: at(s1, literal(false)),
                right: at(s2, x),
            },
            flags,
        ) == fold(x, flags),
        fold(
            ExpressionView::Binary {
                operator: BinaryOperator::ShortCircuitAnd,
                left: at(s1, literal(true)),
                right: at(s2, x),
            },
            flags,
        ) == fold(x, flags),
{
    lemma_fold_succeeds_on_grammar(x, flags);
    assert(fold(literal(true), flags) == Ok::<ExpressionView, CondCompErrorView>(literal(true)));
    assert(fold(literal(false), flags) == Ok::<ExpressionView, CondCompErrorView>(
        literal(false),
    ));
}

/// A flag that the map does not know folds to itself; one that it knows folds
/// to the literal of its value.
pub proof fn lemma_fold_flag(name: Seq<char>, flags: Flags)
    ensures
        !flags.contains_key(name) ==> fold(flag(name), flags) == Ok::<
            ExpressionView,
            CondCompErrorView,
        >(flag(name)),
        flags.contains_key(name) ==> fold(flag(name), flags) == Ok::<
            ExpressionView,
            CondCompErrorView,
        >(literal(flags[name])),
{
}

/// An identifier with template arguments is never a flag: its fold is an
/// error, whether or not the map knows the name.
pub proof fn lemma_fold_templated_flag(ty: TypeExpressionView, flags: Flags)
    requires
        ty.template_args is Some,
    ensures
        fold(ExpressionView::TypeOrIdentifier(ty), flags) == Err::<
            ExpressionView,
            CondCompErrorView,
        >(CondCompErrorView::InvalidFeatureFlag(ty.name)),
{
}

/// Writing a folded condition back leaves the condition where it stood, with
/// its span.
pub proof fn lemma_condition_written(attributes: Seq<AttributeView>, folded: ExpressionView)
    requires
        if_position(attributes) is Some,
    ensures
        if_position(with_condition(attributes, folded)) == if_position(attributes),
        condition(with_condition(attributes, folded)) == Some(
            at(condition(attributes)->Some_0.span, folded),
        ),
        with_condition(with_condition(attributes, folded), folded) == with_condition(
            attributes,
            folded,
        ),
        *condition(attributes)->Some_0.node == folded ==> with_condition(attributes, folded)
            == attributes,
{
    let i = if_position(attributes)->Some_0;
    let written = with_condition(attributes, folded);
    assert(is_first_if(attributes, i));
    assert forall|j: int| 0 <= j < i implies !(#[trigger] written[j] is If) by {
        assert(!(attributes[j] is If));
    }
    assert(is_first_if(written, i));
    lemma_first_if_unique(written, i);
    assert(with_condition(written, folded) =~= written);
    if *condition(attributes)->Some_0.node == folded {
        assert(written =~= attributes);
    }
}

/// A node whose condition is the literal `false` is dropped from its list, a
/// node without a condition is kept, and a node whose condition is the
/// literal `true` is kept with that condition, whatever the flags are.
pub proof fn lemma_literal_conditions<N: Decorated>(a: N::V, b: N::V, c: N::V, flags: Flags)
    requires
        condition(N::attributes_of(a)) matches Some(e) && *e.node == literal(false),
        condition(N::attributes_of(b)) is None,
        condition(N::attributes_of(c)) matches Some(e) && *e.node == literal(true),
    ensures
        pruned_list::<N>(seq![a, b, c], flags) == Ok::<Seq<N::V>, DiagnosticView>(seq![b, c]),
{
    let abc = seq![a, b, c];
    let ab = seq![a, b];
    let just_a = seq![a];
    assert(abc.drop_last() =~= ab);
    assert(ab.drop_last() =~= just_a);
    assert(just_a.drop_last() =~= Seq::<N::V>::empty());
    assert(just_a.last() == a);
    assert(ab.last() == b);
    assert(abc.last() == c);
    assert(fold(literal(true), flags) == Ok::<ExpressionView, CondCompErrorView>(literal(true)));
    assert(fold(literal(false), flags) == Ok::<ExpressionView, CondCompErrorView>(
        literal(false),
    ));
    assert(pruned_list::<N>(Seq::<N::V>::empty(), flags) == Ok::<Seq<N::V>, DiagnosticView>(
        Seq::empty(),
    ));
    assert(pruned_list::<N>(just_a, flags) == Ok::<Seq<N::V>, DiagnosticView>(Seq::empty()));
    assert(pruned_list::<N>(ab, flags) == Ok::<Seq<N::V>, DiagnosticView>(
        Seq::<N::V>::empty().push(b),
    ));
    lemma_condition_written(N::attributes_of(c), literal(true));
    N::lemma_attributes(c, N::attributes_of(c), N::attributes_of(c));
    assert(Seq::<N::V>::empty().push(b).push(c) =~= seq![b, c]);
}

/// A node that was kept is kept as it is when it is pruned once more
/// against the same flags.
pub proof fn lemma_pruned_again<N: Decorated>(v: N::V, flags: Flags)
    requires
        pruned::<N>(v, flags) matches Ok(Some(_)),
    ensures
        pruned::<N>(pruned::<N>(v, flags)->Ok_0->Some_0, flags) == pruned::<N>(v, flags),
{
    let kept = pruned::<N>(v, flags)->Ok_0->Some_0;
    let attributes = N::attributes_of(v);
    match condition(attributes) {
        None => {},
        Some(written) => {
            let folded = fold(*written.node, flags)->Ok_0;
            lemma_fold_idempotent(*written.node, flags);
            lemma_condition_written(attributes, folded);
            N::lemma_attributes(v, with_condition(attributes, folded), with_condition(
                attributes,
                folded,
            ));
        },
    }
}

/// Pruning a list once more against the same flags changes nothing.
pub proof fn lemma_pruned_list_again<N: Decorated>(vs: Seq<N::V>, flags: Flags)
    requires
        pruned_list::<N>(vs, flags) is Ok,
    ensures
        pruned_list::<N>(pruned_list::<N>(vs, flags)->Ok_0, flags) == pruned_list::<N>(vs, flags),
    decreases vs.len(),
{
    if vs.len() > 0 {
        lemma_pruned_list_again::<N>(vs.drop_last(), flags);
        let front = pruned_list::<N>(vs.drop_last(), flags)->Ok_0;
        match pruned::<N>(vs.last(), flags)->Ok_0 {
            Some(kept) => {
                lemma_pruned_again::<N>(vs.last(), flags);
                assert(front.push(kept).drop_last() =~= front);
            },
            None => {},
        }
    }
}

/// Pruning takes away no node but one whose own condition folds to `false`:
/// every other node of a list is among those that are kept, as what it was
/// made into.
pub proof fn lemma_pruned_list_keeps<N: Decorated>(vs: Seq<N::V>, flags: Flags, j: int) -> (k: int)
    requires
        pruned_list::<N>(vs, flags) is Ok,
        0 <= j < vs.len(),
        pruned::<N>(vs[j], flags) != Ok::<Option<N::V>, CondCompErrorView>(None),
    ensures
        0 <= k < pruned_list::<N>(vs, flags)->Ok_0.len(),
        pruned::<N>(vs[j], flags) == Ok::<Option<N::V>, CondCompErrorView>(
            Some(pruned_list::<N>(vs, flags)->Ok_0[k]),
        ),
    decreases vs.len(),
{
    let front = pruned_list::<N>(vs.drop_last(), flags)->Ok_0;
    if j == vs.len() - 1 {
        front.len() as int
    } else {
        assert(vs.drop_last()[j] == vs[j]);
        lemma_pruned_list_keeps::<N>(vs.drop_last(), flags, j)
    }
}

/// The nodes that a list keeps stand in the order in which they stood: what
/// two lists one after the other keep is what the first keeps, followed by
/// what the second keeps.
pub proof fn lemma_pruned_list_in_order<N: Decorated>(a: Seq<N::V>, b: Seq<N::V>, flags: Flags)
    requires
        pruned_list::<N>(a, flags) is Ok,
        pruned_list::<N>(b, flags) is Ok,
    ensures
        pruned_list::<N>(a + b, flags) == Ok::<Seq<N::V>, DiagnosticView>(
            pruned_list::<N>(a, flags)->Ok_0 + pruned_list::<N>(b, flags)->Ok_0,
        ),
    decreases b.len(),
{
    if b.len() == 0 {
        assert(a + b =~= a);
        assert(pruned_list::<N>(a, flags)->Ok_0 + pruned_list::<N>(b, flags)->Ok_0
            =~= pruned_list::<N>(a, flags)->Ok_0);
    } else {
        assert((a + b).drop_last() =~= a + b.drop_last());
        assert((a + b).last() == b.last());
        lemma_pruned_list_in_order::<N>(a, b.drop_last(), flags);
        let front = pruned_list::<N>(a, flags)->Ok_0 + pruned_list::<N>(b.drop_last(), flags)->Ok_0;
        match pruned::<N>(b.last(), flags)->Ok_0 {
            Some(v) => {
                assert(front.push(v) =~= pruned_list::<N>(a, flags)->Ok_0 + pruned_list::<N>(
                    b.drop_last(),
                    flags,
                )->Ok_0.push(v));
            },
            None => {},
        }
    }
}

} // verus!
