use crate::condcomp::fold::{
    eval_attr, fold, is_literal, literal, CondCompError, CondCompErrorView, Flags,
};
use crate::model::views;
use crate::span::Span;
use crate::syntax::attribute::{Attribute, AttributeView};
use crate::syntax::decorated::Decorated;
use crate::syntax::expression::{Expression, ExpressionNode, ExpressionNodeView, ExpressionView};
use std::collections::HashMap;
use vstd::prelude::*;

verus! {

/// A folding error together with where it arose: the span of the offending
/// `if` expression and, inside a struct or a function, that declaration's name.
#[derive(Debug, PartialEq)]
pub struct Diagnostic {
    pub error: CondCompError,
    pub span: Option<Span>,
    pub declaration: Option<String>,
}

pub struct DiagnosticView {
    pub error: CondCompErrorView,
    pub span: Option<Span>,
    pub declaration: Option<Seq<char>>,
}

impl View for Diagnostic {
    type V = DiagnosticView;

    open spec fn view(&self) -> DiagnosticView {
        DiagnosticView {
            error: self.error@,
            span: self.span,
            declaration: match self.declaration {
                Some(name) => Some(name@),
                None => None,
            },
        }
    }
}

impl Clone for Diagnostic {
    fn clone(&self) -> (copy: Diagnostic)
        ensures
            copy@ == self@,
    {
        Diagnostic {
            error: self.error.clone(),
            span: self.span,
            declaration: match &self.declaration {
                Some(name) => Some(name.clone()),
                None => None,
            },
        }
    }
}

impl Diagnostic {
    /// An error that is not placed yet.
    pub fn new(error: CondCompError) -> (d: Diagnostic)
        ensures
            d@ == (DiagnosticView { error: error@, span: None, declaration: None }),
    {
        Diagnostic { error, span: None, declaration: None }
    }

    /// The diagnostic placed at `span`.
    pub fn with_span(self, span: Span) -> (placed: Diagnostic)
        ensures
            placed@ == (DiagnosticView { span: Some(span), ..self@ }),
    {
        Diagnostic { error: self.error, span: Some(span), declaration: self.declaration }
    }

    /// The diagnostic with `name` as the enclosing declaration.
    pub fn with_declaration(self, name: String) -> (tagged: Diagnostic)
        ensures
            tagged@ == (DiagnosticView { declaration: Some(name@), ..self@ }),
    {
        Diagnostic { error: self.error, span: self.span, declaration: Some(name) }
    }
}

/// `i` is where the first `if` attribute of the list stands.
pub open spec fn is_first_if(attributes: Seq<AttributeView>, i: int) -> bool {
    &&& 0 <= i < attributes.len()
    &&& attributes[i] is If
    &&& forall|j: int| 0 <= j < i ==> !(#[trigger] attributes[j] is If)
}

/// The position of the first `if` attribute, if the list has one. A node is
/// governed by its first `if` attribute alone.
pub open spec fn if_position(attributes: Seq<AttributeView>) -> Option<int> {
    if exists|i: int| is_first_if(attributes, i) {
        Some(choose|i: int| is_first_if(attributes, i))
    } else {
        None
    }
}

/// The condition under which a node with these attributes is compiled.
pub open spec fn condition(attributes: Seq<AttributeView>) -> Option<ExpressionNodeView> {
    match if_position(attributes) {
        Some(i) => Some(attributes[i]->If_0),
        None => None,
    }
}

/// The attribute list with the condition's expression replaced by `folded`.
/// The condition keeps its place in the list and its span.
pub open spec fn with_condition(
    attributes: Seq<AttributeView>,
    folded: ExpressionView,
) -> Seq<AttributeView> {
    match if_position(attributes) {
        Some(i) => attributes.update(
            i,
            AttributeView::If(
                ExpressionNodeView { span: attributes[i]->If_0.span, node: Box::new(folded) },
            ),
        ),
        None => attributes,
    }
}

/// The fold of a node's condition: `Ok(None)` where the node has none.
pub open spec fn folded_condition(attributes: Seq<AttributeView>, flags: Flags) -> Result<
    Option<ExpressionView>,
    CondCompErrorView,
> {
    match condition(attributes) {
        None => Ok(None),
        Some(cond) => match fold(*cond.node, flags) {
            Ok(folded) => Ok(Some(folded)),
            Err(e) => Err(e),
        },
    }
}

/// What becomes of a node whose condition folded to `folded`: it is dropped
/// where that is the literal `false`, and kept otherwise, with the folded
/// expression written back into its `if` attribute. A node without a
/// condition is kept as it is.
pub open spec fn settled<N: Decorated>(v: N::V, folded: Option<ExpressionView>) -> Option<N::V> {
    match folded {
        None => Some(v),
        Some(e) => if e == literal(false) {
            None
        } else {
            Some(N::with_attributes(v, with_condition(N::attributes_of(v), e)))
        },
    }
}

/// What conditional compilation makes of one node: an error where its
/// condition does not fold, `None` where the node is pruned, the node with
/// its condition folded otherwise.
pub open spec fn pruned<N: Decorated>(v: N::V, flags: Flags) -> Result<
    Option<N::V>,
    CondCompErrorView,
> {
    match folded_condition(N::attributes_of(v), flags) {
        Err(e) => Err(e),
        Ok(folded) => Ok(settled::<N>(v, folded)),
    }
}

/// What conditional compilation makes of an optional node.
pub open spec fn pruned_slot<N: Decorated>(slot: Option<N::V>, flags: Flags) -> Result<
    Option<N::V>,
    CondCompErrorView,
> {
    match slot {
        None => Ok(None),
        Some(v) => pruned::<N>(v, flags),
    }
}

/// What conditional compilation makes of an optional node, with an error
/// placed at the span of the node's condition.
pub open spec fn placed_slot<N: Decorated>(slot: Option<N::V>, flags: Flags) -> Result<
    Option<N::V>,
    DiagnosticView,
> {
    match pruned_slot::<N>(slot, flags) {
        Ok(kept) => Ok(kept),
        Err(error) => Err(
            DiagnosticView {
                error,
                span: Some(condition(N::attributes_of(slot->Some_0))->Some_0.span),
                declaration: None,
            },
        ),
    }
}

/// What conditional compilation makes of a list of nodes: the nodes that are
/// kept, in their order, each with its condition folded. Where a condition
/// does not fold, the error of the first such node, with the span of that
/// node's condition.
pub open spec fn pruned_list<N: Decorated>(vs: Seq<N::V>, flags: Flags) -> Result<
    Seq<N::V>,
    DiagnosticView,
>
    decreases vs.len(),
{
    if vs.len() == 0 {
        Ok(Seq::empty())
    } else {
        match pruned_list::<N>(vs.drop_last(), flags) {
            Err(d) => Err(d),
            Ok(front) => match pruned::<N>(vs.last(), flags) {
                Err(error) => Err(
                    DiagnosticView {
                        error,
                        span: Some(condition(N::attributes_of(vs.last()))->Some_0.span),
                        declaration: None,
                    },
                ),
                Ok(None) => Ok(front),
                Ok(Some(v)) => Ok(front.push(v)),
            },
        }
    }
}

/// The view of an optional node.
pub open spec fn slot_view<N: View>(slot: Option<N>) -> Option<N::V> {
    match slot {
        Some(n) => Some(n@),
        None => None,
    }
}

/// The first `if` attribute of a list is at one position only.
pub proof fn lemma_first_if_unique(attributes: Seq<AttributeView>, i: int)
    requires
        is_first_if(attributes, i),
    ensures
        if_position(attributes) == Some(i),
{
    let k = choose|k: int| is_first_if(attributes, k);
    if k < i {
        assert(!(attributes[k] is If));
    } else if i < k {
        assert(!(attributes[i] is If));
    }
}

/// Finds the first `if` attribute of a list.
pub fn find_if(attributes: &Vec<Attribute>) -> (position: Option<usize>)
    ensures
        match position {
            Some(i) => if_position(views(attributes@)) == Some(i as int),
            None => if_position(views(attributes@)) is None,
        },
{
    let mut i: usize = 0;
    while i < attributes.len()
        invariant
            i <= attributes.len(),
            forall|j: int| 0 <= j < i ==> !(#[trigger] views(attributes@)[j] is If),
        decreases attributes.len() - i,
    {
        match &attributes[i] {
            Attribute::If(_) => {
                proof {
                    lemma_first_if_unique(views(attributes@), i as int);
                }
                return Some(i);
            },
            _ => {},
        }
        i += 1;
    }
    None
}

/// Folds the condition of a node, if it has one.
fn eval_condition(
    attributes: &Vec<Attribute>,
    features: &HashMap<String, bool>,
) -> (result: Result<Option<Expression>, (CondCompError, Span)>)
    ensures
        match result {
            Ok(folded) => folded_condition(views(attributes@), features.deep_view()) == Ok::<
                Option<ExpressionView>,
                CondCompErrorView,
            >(slot_view(folded)),
            Err((e, span)) => {
                &&& folded_condition(views(attributes@), features.deep_view()) == Err::<
                    Option<ExpressionView>,
                    CondCompErrorView,
                >(e@)
                &&& condition(views(attributes@)) is Some
                &&& span == condition(views(attributes@))->Some_0.span
            },
        },
{
    match find_if(attributes) {
        None => Ok(None),
        Some(i) => match &attributes[i] {
            Attribute::If(cond) => match eval_attr(&cond.node, features) {
                Ok(folded) => Ok(Some(folded)),
                Err(e) => Err((e, cond.span)),
            },
            _ => Ok(None),
        },
    }
}

/// Writes a folded condition back into the first `if` attribute of a list.
fn write_condition(attributes: &mut Vec<Attribute>, folded: Expression)
    requires
        if_position(views(old(attributes)@)) is Some,
    ensures
        views(final(attributes)@) == with_condition(views(old(attributes)@), folded@),
{
    let ghost before = views(attributes@);
    match find_if(attributes) {
        Some(i) => {
            let span = match &attributes[i] {
                Attribute::If(cond) => cond.span,
                _ => Span { start: 0, end: 0 },
            };
            attributes[i] = Attribute::If(ExpressionNode::new(folded, span));
            assert(views(attributes@) =~= with_condition(before, folded@));
        },
        None => {},
    }
}

/// Folds the `if` attribute of an optional node against the feature flags.
/// The slot is cleared where the condition folds to `false`; otherwise the
/// folded condition replaces the one that was written. On an error the slot
/// is as it was, and the error carries the span of the condition.
pub fn eval_if_slot<N: Decorated>(
    opt_node: &mut Option<N>,
    features: &HashMap<String, bool>,
) -> (result: Result<(), Diagnostic>)
    ensures
        match result {
            Ok(()) => placed_slot::<N>(slot_view(*old(opt_node)), features.deep_view()) == Ok::<
                Option<N::V>,
                DiagnosticView,
            >(slot_view(*final(opt_node))),
            Err(d) => {
                &&& placed_slot::<N>(slot_view(*old(opt_node)), features.deep_view()) == Err::<
                    Option<N::V>,
                    DiagnosticView,
                >(d@)
                &&& *final(opt_node) == *old(opt_node)
            },
        },
{
    let folded = match opt_node {
        None => {
            return Ok(());
        },
        Some(node) => match eval_condition(node.attributes(), features) {
            Err((error, span)) => {
                return Err(Diagnostic { error, span: Some(span), declaration: None });
            },
            Ok(folded) => folded,
        },
    };
    match folded {
        None => {},
        Some(e) => {
            if is_literal(&e, false) {
                *opt_node = None;
            } else {
                match opt_node {
                    Some(node) => {
                        write_condition(node.attributes_mut(), e);
                    },
                    None => {},
                }
            }
        },
    }
    Ok(())
}

/// Folds the `if` attribute of an optional node against the feature flags.
/// The slot is cleared where the condition folds to `false`; otherwise the
/// folded condition replaces the one that was written. On an error the slot
/// is as it was.
pub fn eval_if_attr<N: Decorated>(
    opt_node: &mut Option<N>,
    features: &HashMap<String, bool>,
) -> (result: Result<(), CondCompError>)
    ensures
        match result {
            Ok(()) => pruned_slot::<N>(slot_view(*old(opt_node)), features.deep_view()) == Ok::<
                Option<N::V>,
                CondCompErrorView,
            >(slot_view(*final(opt_node))),
            Err(e) => {
                &&& pruned_slot::<N>(slot_view(*old(opt_node)), features.deep_view()) == Err::<
                    Option<N::V>,
                    CondCompErrorView,
                >(e@)
                &&& *final(opt_node) == *old(opt_node)
            },
        },
{
    match eval_if_slot(opt_node, features) {
        Ok(()) => Ok(()),
        Err(d) => Err(d.error),
    }
}

/// Where the condition of every node of a list folds, the list has an
/// outcome.
pub proof fn lemma_pruned_list_ok<N: Decorated>(vs: Seq<N::V>, flags: Flags)
    requires
        forall|k: int| 0 <= k < vs.len() ==> #[trigger] pruned::<N>(vs[k], flags) is Ok,
    ensures
        pruned_list::<N>(vs, flags) is Ok,
    decreases vs.len(),
{
    if vs.len() > 0 {
        assert forall|k: int| 0 <= k < vs.drop_last().len() implies #[trigger] pruned::<N>(
            vs.drop_last()[k],
            flags,
        ) is Ok by {
            assert(vs.drop_last()[k] == vs[k]);
        }
        lemma_pruned_list_ok::<N>(vs.drop_last(), flags);
        assert(pruned::<N>(vs[vs.len() - 1], flags) is Ok);
    }
}

/// The error of a list is that of its first node whose condition does not
/// fold, with the span of that condition.
pub proof fn lemma_pruned_list_first_error<N: Decorated>(vs: Seq<N::V>, i: int, flags: Flags)
    requires
        0 <= i < vs.len(),
        forall|k: int| 0 <= k < i ==> #[trigger] pruned::<N>(vs[k], flags) is Ok,
        pruned::<N>(vs[i], flags) is Err,
    ensures
        pruned_list::<N>(vs, flags) == Err::<Seq<N::V>, DiagnosticView>(
            DiagnosticView {
                error: pruned::<N>(vs[i], flags)->Err_0,
                span: Some(condition(N::attributes_of(vs[i]))->Some_0.span),
                declaration: None,
            },
        ),
    decreases vs.len(),
{
    let front = vs.drop_last();
    if i == vs.len() - 1 {
        assert forall|k: int| 0 <= k < front.len() implies #[trigger] pruned::<N>(
            front[k],
            flags,
        ) is Ok by {
            assert(front[k] == vs[k]);
        }
        lemma_pruned_list_ok::<N>(front, flags);
    } else {
        assert forall|k: int| 0 <= k < i implies #[trigger] pruned::<N>(front[k], flags) is Ok by {
            assert(front[k] == vs[k]);
        }
        assert(front[i] == vs[i]);
        lemma_pruned_list_first_error::<N>(front, i, flags);
    }
}

/// Takes a value out of a list of optional values.
fn take_out(slots: &mut Vec<Option<Expression>>, i: usize) -> (value: Option<Expression>)
    requires
        i < old(slots)@.len(),
    ensures
        value == old(slots)@[i as int],
        final(slots)@ == old(slots)@.update(i as int, None),
{
    let mut value: Option<Expression> = None;
    std::mem::swap(&mut slots[i], &mut value);
    value
}

/// Folds the `if` attributes of a list of nodes against the feature flags and
/// keeps the nodes whose condition did not fold to `false`, in their order.
///
/// Every condition is folded before any node is touched: on an error the list
/// is as it was, and the error is that of the first node whose condition does
/// not fold.
pub fn eval_if_attributes<N: Decorated>(
    nodes: &mut Vec<N>,
    features: &HashMap<String, bool>,
) -> (result: Result<(), Diagnostic>)
    ensures
        match result {
            Ok(()) => pruned_list::<N>(views(old(nodes)@), features.deep_view()) == Ok::<
                Seq<N::V>,
                DiagnosticView,
            >(views(final(nodes)@)),
            Err(d) => {
                &&& pruned_list::<N>(views(old(nodes)@), features.deep_view()) == Err::<
                    Seq<N::V>,
                    DiagnosticView,
                >(d@)
                &&& *final(nodes) == *old(nodes)
            },
        },
{
    let ghost flags = features.deep_view();
    let ghost before = views(nodes@);
    let mut folded: Vec<Option<Expression>> = Vec::new();
    let mut i: usize = 0;
    while i < nodes.len()
        invariant
            i <= nodes.len(),
            flags == features.deep_view(),
            before == views(nodes@),
            *nodes == *old(nodes),
            folded@.len() == i,
            forall|k: int|
                0 <= k < i ==> #[trigger] folded_condition(N::attributes_of(before[k]), flags)
                    == Ok::<Option<ExpressionView>, CondCompErrorView>(slot_view(folded@[k])),
        decreases nodes.len() - i,
    {
        match eval_condition(nodes[i].attributes(), features) {
            Err((error, span)) => {
                proof {
                    assert forall|k: int| 0 <= k < i implies #[trigger] pruned::<N>(
                        before[k],
                        flags,
                    ) is Ok by {
                        assert(folded_condition(N::attributes_of(before[k]), flags) is Ok);
                    }
                    lemma_pruned_list_first_error::<N>(before, i as int, flags);
                }
                return Err(Diagnostic { error, span: Some(span), declaration: None });
            },
            Ok(cond) => {
                folded.push(cond);
            },
        }
        i += 1;
    }
    let mut source: Vec<N> = Vec::new();
    std::mem::swap(nodes, &mut source);
    let ghost all = source@;
    let count = source.len();
    let mut j: usize = 0;
    assert(views(nodes@) =~= Seq::<N::V>::empty());
    for node in it: source
        invariant
            j == it.index(),
            all.len() == count,
            it.seq() == all,
            before == views(all),
            folded@.len() == all.len(),
            flags == features.deep_view(),
            forall|k: int|
                j <= k < all.len() ==> #[trigger] folded_condition(
                    N::attributes_of(before[k]),
                    flags,
                ) == Ok::<Option<ExpressionView>, CondCompErrorView>(slot_view(folded@[k])),
            pruned_list::<N>(before.subrange(0, j as int), flags) == Ok::<
                Seq<N::V>,
                DiagnosticView,
            >(views(nodes@)),
    {
        let ghost kept = views(nodes@);
        let ghost prefix = before.subrange(0, j as int);
        let ghost longer = before.subrange(0, j + 1);
        assert(longer.drop_last() =~= prefix);
        assert(longer.last() == node@);
        assert(folded_condition(N::attributes_of(before[j as int]), flags) is Ok);
        let mut node = node;
        match take_out(&mut folded, j) {
            None => {
                nodes.push(node);
                assert(views(nodes@) =~= kept.push(node@));
            },
            Some(cond) => {
                if !is_literal(&cond, false) {
                    write_condition(node.attributes_mut(), cond);
                    nodes.push(node);
                    assert(views(nodes@) =~= kept.push(node@));
                }
            },
        }
        j += 1;
    }
    assert(before.subrange(0, j as int) =~= before);
    Ok(())
}

} // verus!
