use std::collections::HashMap;
use wesl::condcomp::fold::{eval_attr, CondCompError};
use wesl::condcomp::prune::{eval_if_attr, eval_if_attributes, Diagnostic};
use wesl::span::Span;
use wesl::syntax::attribute::Attribute;
use wesl::syntax::declaration::StructMember;
use wesl::syntax::expression::{
    BinaryOperator, Expression, ExpressionNode, LiteralExpression, TypeExpression, UnaryOperator,
};
use wesl::syntax::statement::BreakIfStatement;

fn lit(value: bool) -> Expression {
    Expression::Literal(LiteralExpression::Bool(value))
}

fn node(expr: Expression) -> ExpressionNode {
    ExpressionNode::new(expr, Span::new(0, 0))
}

fn at(expr: Expression, start: usize, end: usize) -> ExpressionNode {
    ExpressionNode::new(expr, Span::new(start, end))
}

fn flag(name: &str) -> Expression {
    Expression::TypeOrIdentifier(TypeExpression::new(name.to_string()))
}

fn paren(expr: Expression) -> Expression {
    Expression::Parenthesized(node(expr))
}

fn not(expr: Expression) -> Expression {
    Expression::Unary { operator: UnaryOperator::LogicalNegation, operand: node(expr) }
}

fn binary(operator: BinaryOperator, left: Expression, right: Expression) -> Expression {
    Expression::Binary { operator, left: node(left), right: node(right) }
}

fn or(left: Expression, right: Expression) -> Expression {
    binary(BinaryOperator::ShortCircuitOr, left, right)
}

fn and(left: Expression, right: Expression) -> Expression {
    binary(BinaryOperator::ShortCircuitAnd, left, right)
}

fn features() -> HashMap<String, bool> {
    let mut map = HashMap::new();
    map.insert("foo".to_string(), true);
    map.insert("bar".to_string(), false);
    map
}

fn member(name: &str, attributes: Vec<Attribute>) -> StructMember {
    StructMember {
        attributes,
        name: name.to_string(),
        ty: TypeExpression::new("f32".to_string()),
    }
}

/// Every closed expression nested at most `depth` deep, with its logical value.
fn closed(depth: usize) -> Vec<(Expression, bool)> {
    let mut all = vec![(lit(true), true), (lit(false), false)];
    if depth == 0 {
        return all;
    }
    let smaller = closed(depth - 1);
    for (e, v) in &smaller {
        all.push((not(e.clone()), !*v));
        all.push((paren(e.clone()), *v));
    }
    let operands = if depth >= 3 { closed(1) } else { smaller.clone() };
    for (l, lv) in &smaller {
        for (r, rv) in &operands {
            all.push((or(l.clone(), r.clone()), *lv || *rv));
            all.push((and(l.clone(), r.clone()), *lv && *rv));
        }
    }
    all
}

#[test]
fn closed_expressions_fold_to_their_value() {
    let f = features();
    let empty = HashMap::new();
    let all = closed(3);
    assert!(all.len() > 500);
    for (expr, value) in all {
        assert_eq!(eval_attr(&expr, &f), Ok(lit(value)));
        assert_eq!(eval_attr(&expr, &empty), Ok(lit(value)));
    }
}

#[test]
fn literals_fold_to_themselves() {
    let f = features();
    assert_eq!(eval_attr(&lit(true), &f), Ok(lit(true)));
    assert_eq!(eval_attr(&lit(false), &f), Ok(lit(false)));
}

#[test]
fn folding_twice_is_folding_once() {
    let f = features();
    let exprs = vec![
        or(flag("bar"), flag("baz")),
        not(and(flag("foo"), flag("baz"))),
        and(paren(flag("baz")), or(flag("qux"), flag("bar"))),
        or(paren(flag("a")), not(lit(true))),
    ];
    for expr in exprs {
        let once = eval_attr(&expr, &f).unwrap();
        assert_eq!(eval_attr(&once, &f), Ok(once.clone()));
    }
}

#[test]
fn known_flags_fold_to_literals() {
    let f = features();
    assert_eq!(eval_attr(&flag("foo"), &f), Ok(lit(true)));
    assert_eq!(eval_attr(&flag("bar"), &f), Ok(lit(false)));
    assert_eq!(eval_attr(&not(flag("foo")), &f), Ok(lit(false)));
    assert_eq!(eval_attr(&not(flag("bar")), &f), Ok(lit(true)));
}

#[test]
fn flag_names_are_case_sensitive() {
    let f = features();
    assert_eq!(eval_attr(&flag("Foo"), &f), Ok(flag("Foo")));
}

#[test]
fn unknown_flag_folds_to_itself() {
    let f = features();
    assert_eq!(eval_attr(&flag("baz"), &f), Ok(flag("baz")));
    assert_eq!(eval_attr(&not(flag("baz")), &f), Ok(not(flag("baz"))));
    assert_eq!(eval_attr(&flag("foo"), &HashMap::new()), Ok(flag("foo")));
}

#[test]
fn unresolved_negation_stays_as_written() {
    let f = features();
    let expr = not(paren(and(flag("foo"), flag("baz"))));
    assert_eq!(eval_attr(&expr, &f), Ok(expr.clone()));
}

#[test]
fn parentheses_are_dropped_from_what_folds() {
    let f = features();
    assert_eq!(eval_attr(&paren(flag("baz")), &f), Ok(flag("baz")));
    assert_eq!(eval_attr(&paren(paren(flag("foo"))), &f), Ok(lit(true)));
}

#[test]
fn short_circuit_rules() {
    let f = features();
    let unknown = [flag("baz"), not(flag("baz")), or(flag("x"), flag("y"))];
    for x in unknown {
        assert_eq!(eval_attr(&or(lit(true), x.clone()), &f), Ok(lit(true)));
        assert_eq!(eval_attr(&or(x.clone(), lit(true)), &f), Ok(lit(true)));
        assert_eq!(eval_attr(&and(lit(false), x.clone()), &f), Ok(lit(false)));
        assert_eq!(eval_attr(&and(x.clone(), lit(false)), &f), Ok(lit(false)));
        assert_eq!(eval_attr(&or(lit(false), x.clone()), &f), Ok(x.clone()));
        assert_eq!(eval_attr(&or(x.clone(), lit(false)), &f), Ok(x.clone()));
        assert_eq!(eval_attr(&and(lit(true), x.clone()), &f), Ok(x.clone()));
        assert_eq!(eval_attr(&and(x.clone(), lit(true)), &f), Ok(x.clone()));
    }
}

#[test]
fn one_known_side_leaves_the_other() {
    let f = features();
    assert_eq!(eval_attr(&or(flag("bar"), flag("baz")), &f), Ok(flag("baz")));
    assert_eq!(eval_attr(&and(flag("baz"), flag("foo")), &f), Ok(flag("baz")));
    assert_eq!(eval_attr(&or(flag("foo"), flag("baz")), &f), Ok(lit(true)));
    assert_eq!(eval_attr(&and(flag("bar"), flag("baz")), &f), Ok(lit(false)));
}

#[test]
fn two_unknown_sides_stay_as_written() {
    let f = features();
    let expr = or(paren(flag("a")), and(flag("b"), flag("foo")));
    assert_eq!(eval_attr(&expr, &f), Ok(expr.clone()));
    let expr = and(flag("a"), flag("b"));
    assert_eq!(eval_attr(&expr, &f), Ok(expr.clone()));
}

#[test]
fn templated_flag_is_an_error() {
    let f = features();
    let ty = TypeExpression { name: "foo".to_string(), template_args: Some(vec![node(lit(true))]) };
    assert_eq!(
        eval_attr(&Expression::TypeOrIdentifier(ty), &f),
        Err(CondCompError::InvalidFeatureFlag("foo".to_string()))
    );
    let ty = TypeExpression { name: "nope".to_string(), template_args: Some(vec![]) };
    assert_eq!(
        eval_attr(&or(lit(true), Expression::TypeOrIdentifier(ty)), &f),
        Err(CondCompError::InvalidFeatureFlag("nope".to_string()))
    );
}

#[test]
fn other_expressions_are_errors() {
    let f = features();
    let number = Expression::Literal(LiteralExpression::AbstractInt(1));
    assert_eq!(eval_attr(&number, &f), Err(CondCompError::InvalidExpression(number.clone())));
    let sum = binary(BinaryOperator::Addition, lit(true), lit(false));
    assert_eq!(eval_attr(&sum, &f), Err(CondCompError::InvalidExpression(sum.clone())));
    let minus =
        Expression::Unary { operator: UnaryOperator::Negation, operand: node(lit(true)) };
    assert_eq!(eval_attr(&minus, &f), Err(CondCompError::InvalidExpression(minus.clone())));
    let call = Expression::FunctionCall {
        ty: TypeExpression::new("f".to_string()),
        arguments: vec![node(lit(true))],
    };
    assert_eq!(eval_attr(&call, &f), Err(CondCompError::InvalidExpression(call.clone())));
    let component =
        Expression::NamedComponent { base: node(flag("foo")), component: "x".to_string() };
    assert_eq!(
        eval_attr(&component, &f),
        Err(CondCompError::InvalidExpression(component.clone()))
    );
}

#[test]
fn an_error_in_an_operand_comes_first() {
    let f = features();
    let number = Expression::Literal(LiteralExpression::AbstractInt(1));
    let expr = binary(BinaryOperator::Addition, number.clone(), lit(true));
    assert_eq!(eval_attr(&expr, &f), Err(CondCompError::InvalidExpression(number.clone())));
    let expr = or(lit(true), number.clone());
    assert_eq!(eval_attr(&expr, &f), Err(CondCompError::InvalidExpression(number)));
}

#[test]
fn slot_with_false_condition_is_cleared() {
    let f = features();
    let mut slot = Some(BreakIfStatement {
        attributes: vec![Attribute::If(node(flag("bar")))],
        expression: node(lit(true)),
    });
    assert_eq!(eval_if_attr(&mut slot, &f), Ok(()));
    assert_eq!(slot, None);
}

#[test]
fn slot_with_other_condition_is_folded_in_place() {
    let f = features();
    let mut slot = Some(BreakIfStatement {
        attributes: vec![Attribute::Const, Attribute::If(at(or(flag("bar"), flag("baz")), 3, 9))],
        expression: node(lit(true)),
    });
    assert_eq!(eval_if_attr(&mut slot, &f), Ok(()));
    assert_eq!(
        slot,
        Some(BreakIfStatement {
            attributes: vec![Attribute::Const, Attribute::If(at(flag("baz"), 3, 9))],
            expression: node(lit(true)),
        })
    );
    let mut slot = Some(BreakIfStatement {
        attributes: vec![Attribute::If(node(flag("foo")))],
        expression: node(lit(true)),
    });
    assert_eq!(eval_if_attr(&mut slot, &f), Ok(()));
    assert_eq!(
        slot,
        Some(BreakIfStatement {
            attributes: vec![Attribute::If(node(lit(true)))],
            expression: node(lit(true)),
        })
    );
}

#[test]
fn slot_without_condition_or_node_is_left() {
    let f = features();
    let mut slot: Option<BreakIfStatement> = None;
    assert_eq!(eval_if_attr(&mut slot, &f), Ok(()));
    assert_eq!(slot, None);
    let mut slot =
        Some(BreakIfStatement { attributes: vec![Attribute::Const], expression: node(lit(true)) });
    assert_eq!(eval_if_attr(&mut slot, &f), Ok(()));
    assert_eq!(
        slot,
        Some(BreakIfStatement { attributes: vec![Attribute::Const], expression: node(lit(true)) })
    );
}

#[test]
fn slot_error_leaves_the_slot() {
    let f = features();
    let number = Expression::Literal(LiteralExpression::U32(7));
    let before = BreakIfStatement {
        attributes: vec![Attribute::If(node(number.clone()))],
        expression: node(lit(true)),
    };
    let mut slot = Some(before.clone());
    assert_eq!(eval_if_attr(&mut slot, &f), Err(CondCompError::InvalidExpression(number)));
    assert_eq!(slot, Some(before));
}

#[test]
fn only_the_first_condition_governs() {
    let f = features();
    let mut slot = Some(BreakIfStatement {
        attributes: vec![Attribute::If(node(flag("foo"))), Attribute::If(node(flag("bar")))],
        expression: node(lit(true)),
    });
    assert_eq!(eval_if_attr(&mut slot, &f), Ok(()));
    assert_eq!(
        slot,
        Some(BreakIfStatement {
            attributes: vec![Attribute::If(node(lit(true))), Attribute::If(node(flag("bar")))],
            expression: node(lit(true)),
        })
    );
}

#[test]
fn list_drops_false_keeps_rest_in_order() {
    for f in [features(), HashMap::new()] {
        let mut nodes = vec![
            member("a", vec![Attribute::If(node(lit(false)))]),
            member("b", vec![]),
            member("c", vec![Attribute::If(node(lit(true)))]),
        ];
        assert_eq!(eval_if_attributes(&mut nodes, &f), Ok(()));
        assert_eq!(
            nodes,
            vec![member("b", vec![]), member("c", vec![Attribute::If(node(lit(true)))])]
        );
    }
}

#[test]
fn list_folds_conditions_in_place() {
    let f = features();
    let mut nodes = vec![
        member("a", vec![Attribute::If(at(flag("foo"), 1, 4))]),
        member("b", vec![Attribute::Invariant, Attribute::If(at(flag("bar"), 5, 8))]),
        member("c", vec![Attribute::If(at(and(flag("baz"), flag("foo")), 9, 20))]),
        member("d", vec![Attribute::MustUse]),
    ];
    assert_eq!(eval_if_attributes(&mut nodes, &f), Ok(()));
    assert_eq!(
        nodes,
        vec![
            member("a", vec![Attribute::If(at(lit(true), 1, 4))]),
            member("c", vec![Attribute::If(at(flag("baz"), 9, 20))]),
            member("d", vec![Attribute::MustUse]),
        ]
    );
}

#[test]
fn list_error_is_the_first_and_leaves_the_list() {
    let f = features();
    let one = Expression::Literal(LiteralExpression::I32(1));
    let two = Expression::Literal(LiteralExpression::I32(2));
    let before = vec![
        member("a", vec![Attribute::If(at(flag("bar"), 0, 3))]),
        member("b", vec![Attribute::If(at(one.clone(), 10, 11))]),
        member("c", vec![Attribute::If(at(two, 20, 21))]),
    ];
    let mut nodes = before.clone();
    assert_eq!(
        eval_if_attributes(&mut nodes, &f),
        Err(Diagnostic {
            error: CondCompError::InvalidExpression(one),
            span: Some(Span::new(10, 11)),
            declaration: None,
        })
    );
    assert_eq!(nodes, before);
}

#[test]
fn empty_list_stays_empty() {
    let mut nodes: Vec<StructMember> = vec![];
    assert_eq!(eval_if_attributes(&mut nodes, &features()), Ok(()));
    assert!(nodes.is_empty());
}

#[test]
fn folding_in_stages_is_folding_at_once() {
    let mut first = HashMap::new();
    first.insert("b".to_string(), false);
    let mut both = first.clone();
    both.insert("a".to_string(), true);
    let exprs = vec![
        and(flag("a"), paren(or(flag("b"), flag("c")))),
        or(not(flag("a")), flag("b")),
        not(or(flag("b"), and(flag("a"), flag("c")))),
        or(flag("b"), flag("b")),
    ];
    for expr in exprs {
        let staged = eval_attr(&eval_attr(&expr, &first).unwrap(), &both);
        assert_eq!(staged, eval_attr(&expr, &both));
    }
    let expr = and(flag("a"), paren(or(flag("b"), flag("c"))));
    assert_eq!(eval_attr(&expr, &first), Ok(expr.clone()));
    assert_eq!(eval_attr(&expr, &both), Ok(flag("c")));
}
