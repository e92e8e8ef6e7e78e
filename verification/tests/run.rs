use std::collections::HashMap;
use wesl::condcomp::fold::CondCompError;
use wesl::condcomp::prune::Diagnostic;
use wesl::condcomp::traverse::statement_eval_if_attributes;
use wesl::condcomp::unit::run;
use wesl::span::Span;
use wesl::syntax::attribute::Attribute;
use wesl::syntax::declaration::{
    Declaration, DeclarationKind, FormalParameter, GlobalDirective, Import, Struct, StructMember,
};
use wesl::syntax::expression::{
    BinaryOperator, Expression, ExpressionNode, LiteralExpression, TypeExpression,
};
use wesl::syntax::statement::{
    BreakIfStatement, CaseSelector, CompoundStatement, ContinuingStatement, IfClause, Statement,
    StatementNode, SwitchClause,
};
use wesl::syntax::unit::{Function, GlobalDeclaration, TranslationUnit};

fn lit(value: bool) -> Expression {
    Expression::Literal(LiteralExpression::Bool(value))
}

fn node(expr: Expression) -> ExpressionNode {
    ExpressionNode::new(expr, Span::new(0, 0))
}

fn flag(name: &str) -> Expression {
    Expression::TypeOrIdentifier(TypeExpression::new(name.to_string()))
}

fn when(name: &str) -> Attribute {
    Attribute::If(node(flag(name)))
}

fn resolved(value: bool) -> Attribute {
    Attribute::If(node(lit(value)))
}

fn features() -> HashMap<String, bool> {
    let mut map = HashMap::new();
    map.insert("foo".to_string(), true);
    map.insert("bar".to_string(), false);
    map
}

fn ty(name: &str) -> TypeExpression {
    TypeExpression::new(name.to_string())
}

fn member(name: &str, attributes: Vec<Attribute>) -> StructMember {
    StructMember { attributes, name: name.to_string(), ty: ty("f32") }
}

fn stmt(statement: Statement) -> StatementNode {
    StatementNode { span: Span::new(0, 0), node: Box::new(statement) }
}

fn block(statements: Vec<StatementNode>) -> CompoundStatement {
    CompoundStatement { attributes: vec![], statements }
}

fn brk(attributes: Vec<Attribute>) -> StatementNode {
    stmt(Statement::Break { attributes })
}

fn discard(attributes: Vec<Attribute>) -> StatementNode {
    stmt(Statement::Discard { attributes })
}

fn function(name: &str, parameters: Vec<FormalParameter>, body: Vec<StatementNode>) -> Function {
    Function {
        attributes: vec![],
        name: name.to_string(),
        parameters,
        return_attributes: vec![],
        return_type: None,
        body: block(body),
    }
}

fn unit(global_declarations: Vec<GlobalDeclaration>) -> TranslationUnit {
    TranslationUnit { imports: vec![], global_directives: vec![], global_declarations }
}

fn if_else(
    attributes: Vec<Attribute>,
    then: Vec<StatementNode>,
    other: Vec<StatementNode>,
) -> StatementNode {
    stmt(Statement::If {
        attributes,
        if_clause: IfClause { expression: node(flag("cond")), body: block(then) },
        else_if_clauses: vec![],
        else_clause: Some(block(other)),
    })
}

#[test]
fn struct_members_are_pruned_and_swept() {
    let mut wesl = unit(vec![GlobalDeclaration::Struct(Struct {
        attributes: vec![],
        name: "S".to_string(),
        members: vec![
            member("first", vec![when("foo")]),
            member("second", vec![when("bar")]),
            member("third", vec![]),
        ],
    })]);
    assert_eq!(run(&mut wesl, &features()), Ok(()));
    assert_eq!(
        wesl,
        unit(vec![GlobalDeclaration::Struct(Struct {
            attributes: vec![],
            name: "S".to_string(),
            members: vec![member("first", vec![]), member("third", vec![])],
        })])
    );
}

#[test]
fn if_else_without_conditions_is_untouched() {
    let body = || {
        vec![
            if_else(
                vec![],
                vec![brk(vec![])],
                vec![discard(vec![]), brk(vec![Attribute::MustUse])],
            ),
            stmt(Statement::Return { attributes: vec![], expression: Some(node(lit(true))) }),
        ]
    };
    let mut wesl = unit(vec![GlobalDeclaration::Function(function("f", vec![], body()))]);
    assert_eq!(run(&mut wesl, &features()), Ok(()));
    assert_eq!(wesl, unit(vec![GlobalDeclaration::Function(function("f", vec![], body()))]));
    let mut statements = body();
    assert_eq!(statement_eval_if_attributes(&mut statements, &features()), Ok(()));
    assert_eq!(statements, body());
}

#[test]
fn unresolved_conditions_stay_after_the_sweep() {
    let mut wesl = unit(vec![GlobalDeclaration::Struct(Struct {
        attributes: vec![when("baz")],
        name: "S".to_string(),
        members: vec![member(
            "m",
            vec![Attribute::If(node(Expression::Binary {
                operator: BinaryOperator::ShortCircuitAnd,
                left: node(flag("foo")),
                right: node(flag("qux")),
            }))],
        )],
    })]);
    assert_eq!(run(&mut wesl, &features()), Ok(()));
    assert_eq!(
        wesl,
        unit(vec![GlobalDeclaration::Struct(Struct {
            attributes: vec![when("baz")],
            name: "S".to_string(),
            members: vec![member("m", vec![when("qux")])],
        })])
    );
}

#[test]
fn imports_directives_and_declarations_are_pruned() {
    let import = |name: &str, attributes: Vec<Attribute>| Import {
        attributes,
        path: vec!["lib".to_string()],
        name: name.to_string(),
        rename: None,
    };
    let enable = |attributes: Vec<Attribute>| GlobalDirective::Enable {
        attributes,
        extensions: vec!["f16".to_string()],
    };
    let decl = |name: &str, attributes: Vec<Attribute>| {
        GlobalDeclaration::Declaration(Declaration {
            attributes,
            kind: DeclarationKind::Const,
            name: name.to_string(),
            ty: None,
            initializer: Some(node(lit(true))),
        })
    };
    let mut wesl = TranslationUnit {
        imports: vec![import("a", vec![when("bar")]), import("b", vec![when("foo")])],
        global_directives: vec![enable(vec![when("foo")]), enable(vec![when("bar")])],
        global_declarations: vec![
            decl("x", vec![when("bar")]),
            decl("y", vec![]),
            decl("z", vec![when("foo"), Attribute::Const]),
        ],
    };
    assert_eq!(run(&mut wesl, &features()), Ok(()));
    assert_eq!(
        wesl,
        TranslationUnit {
            imports: vec![import("b", vec![])],
            global_directives: vec![enable(vec![])],
            global_declarations: vec![decl("y", vec![]), decl("z", vec![Attribute::Const])],
        }
    );
}

#[test]
fn a_pruned_struct_is_not_looked_into() {
    let bad = Expression::Literal(LiteralExpression::I32(1));
    let mut wesl = unit(vec![GlobalDeclaration::Struct(Struct {
        attributes: vec![when("bar")],
        name: "S".to_string(),
        members: vec![member("m", vec![Attribute::If(node(bad))])],
    })]);
    assert_eq!(run(&mut wesl, &features()), Ok(()));
    assert_eq!(wesl, unit(vec![]));
}

#[test]
fn function_parameters_and_body_are_pruned() {
    let param = |name: &str, attributes: Vec<Attribute>| FormalParameter {
        attributes,
        name: name.to_string(),
        ty: ty("u32"),
    };
    let mut wesl = unit(vec![GlobalDeclaration::Function(function(
        "f",
        vec![param("a", vec![when("bar")]), param("b", vec![when("foo")])],
        vec![
            brk(vec![when("bar")]),
            stmt(Statement::Compound(CompoundStatement {
                attributes: vec![when("foo")],
                statements: vec![discard(vec![when("bar")]), discard(vec![when("foo")])],
            })),
            stmt(Statement::While {
                attributes: vec![],
                condition: node(lit(true)),
                body: block(vec![brk(vec![when("bar")]), brk(vec![])]),
            }),
        ],
    ))]);
    assert_eq!(run(&mut wesl, &features()), Ok(()));
    assert_eq!(
        wesl,
        unit(vec![GlobalDeclaration::Function(function(
            "f",
            vec![param("b", vec![])],
            vec![
                stmt(Statement::Compound(CompoundStatement {
                    attributes: vec![],
                    statements: vec![discard(vec![])],
                })),
                stmt(Statement::While {
                    attributes: vec![],
                    condition: node(lit(true)),
                    body: block(vec![brk(vec![])]),
                }),
            ],
        ))])
    );
}

#[test]
fn statements_are_pruned_at_every_level() {
    let f = features();
    let clause = |attributes: Vec<Attribute>, body: Vec<StatementNode>| SwitchClause {
        attributes,
        case_selectors: vec![CaseSelector::Default],
        body: block(body),
    };
    let mut statements = vec![
        stmt(Statement::If {
            attributes: vec![when("foo")],
            if_clause: IfClause {
                expression: node(flag("c")),
                body: block(vec![brk(vec![when("bar")])]),
            },
            else_if_clauses: vec![IfClause {
                expression: node(flag("d")),
                body: block(vec![brk(vec![when("bar")]), discard(vec![when("baz")])]),
            }],
            else_clause: Some(block(vec![discard(vec![when("bar")])])),
        }),
        stmt(Statement::Switch {
            attributes: vec![],
            expression: node(flag("x")),
            body_attributes: vec![],
            clauses: vec![
                clause(vec![when("bar")], vec![brk(vec![])]),
                clause(vec![when("foo")], vec![brk(vec![when("bar")]), brk(vec![])]),
            ],
        }),
        stmt(Statement::Loop {
            attributes: vec![],
            body: block(vec![discard(vec![when("bar")])]),
            continuing: Some(ContinuingStatement {
                attributes: vec![when("foo")],
                body: block(vec![discard(vec![when("bar")])]),
                break_if: Some(BreakIfStatement {
                    attributes: vec![when("bar")],
                    expression: node(lit(true)),
                }),
            }),
        }),
        stmt(Statement::Loop {
            attributes: vec![],
            body: block(vec![]),
            continuing: Some(ContinuingStatement {
                attributes: vec![when("bar")],
                body: block(vec![]),
                break_if: None,
            }),
        }),
        stmt(Statement::For {
            attributes: vec![],
            initializer: Some(stmt(Statement::Compound(block(vec![brk(vec![when("bar")])])))),
            condition: None,
            update: Some(brk(vec![when("bar")])),
            body: block(vec![brk(vec![when("bar")])]),
        }),
    ];
    assert_eq!(statement_eval_if_attributes(&mut statements, &f), Ok(()));
    assert_eq!(
        statements,
        vec![
            stmt(Statement::If {
                attributes: vec![resolved(true)],
                if_clause: IfClause { expression: node(flag("c")), body: block(vec![]) },
                else_if_clauses: vec![IfClause {
                    expression: node(flag("d")),
                    body: block(vec![discard(vec![when("baz")])]),
                }],
                else_clause: Some(block(vec![])),
            }),
            stmt(Statement::Switch {
                attributes: vec![],
                expression: node(flag("x")),
                body_attributes: vec![],
                clauses: vec![clause(vec![resolved(true)], vec![brk(vec![])])],
            }),
            stmt(Statement::Loop {
                attributes: vec![],
                body: block(vec![]),
                continuing: Some(ContinuingStatement {
                    attributes: vec![resolved(true)],
                    body: block(vec![]),
                    break_if: None,
                }),
            }),
            stmt(Statement::Loop { attributes: vec![], body: block(vec![]), continuing: None }),
            stmt(Statement::For {
                attributes: vec![],
                initializer: Some(stmt(Statement::Compound(block(vec![])))),
                condition: None,
                update: Some(brk(vec![when("bar")])),
                body: block(vec![]),
            }),
        ]
    );
}

#[test]
fn errors_carry_span_and_declaration() {
    let bad = Expression::Literal(LiteralExpression::I32(1));
    let spanned = ExpressionNode::new(bad.clone(), Span::new(4, 5));
    let mut wesl = unit(vec![GlobalDeclaration::Struct(Struct {
        attributes: vec![],
        name: "S".to_string(),
        members: vec![member("m", vec![Attribute::If(spanned.clone())])],
    })]);
    assert_eq!(
        run(&mut wesl, &features()),
        Err(Diagnostic {
            error: CondCompError::InvalidExpression(bad.clone()),
            span: Some(Span::new(4, 5)),
            declaration: Some("S".to_string()),
        })
    );
    let mut wesl = unit(vec![GlobalDeclaration::Function(function(
        "main",
        vec![],
        vec![brk(vec![Attribute::If(spanned.clone())])],
    ))]);
    assert_eq!(
        run(&mut wesl, &features()),
        Err(Diagnostic {
            error: CondCompError::InvalidExpression(bad.clone()),
            span: Some(Span::new(4, 5)),
            declaration: Some("main".to_string()),
        })
    );
    let mut wesl = unit(vec![GlobalDeclaration::Function(Function {
        attributes: vec![Attribute::If(spanned)],
        ..function("main", vec![], vec![])
    })]);
    assert_eq!(
        run(&mut wesl, &features()),
        Err(Diagnostic {
            error: CondCompError::InvalidExpression(bad),
            span: Some(Span::new(4, 5)),
            declaration: None,
        })
    );
}

#[test]
fn an_error_in_a_continuing_block_has_its_span() {
    let bad = Expression::Literal(LiteralExpression::I32(1));
    let mut statements = vec![stmt(Statement::Loop {
        attributes: vec![],
        body: block(vec![]),
        continuing: Some(ContinuingStatement {
            attributes: vec![Attribute::If(ExpressionNode::new(bad.clone(), Span::new(4, 5)))],
            body: block(vec![]),
            break_if: None,
        }),
    })];
    assert_eq!(
        statement_eval_if_attributes(&mut statements, &features()),
        Err(Diagnostic {
            error: CondCompError::InvalidExpression(bad),
            span: Some(Span::new(4, 5)),
            declaration: None,
        })
    );
}

#[test]
fn struct_errors_come_before_function_errors() {
    let one = Expression::Literal(LiteralExpression::I32(1));
    let two = Expression::Literal(LiteralExpression::I32(2));
    let mut wesl = unit(vec![
        GlobalDeclaration::Function(function(
            "f",
            vec![],
            vec![brk(vec![Attribute::If(node(one))])],
        )),
        GlobalDeclaration::Struct(Struct {
            attributes: vec![],
            name: "S".to_string(),
            members: vec![member("m", vec![Attribute::If(node(two.clone()))])],
        }),
    ]);
    assert_eq!(
        run(&mut wesl, &features()),
        Err(Diagnostic {
            error: CondCompError::InvalidExpression(two),
            span: Some(Span::new(0, 0)),
            declaration: Some("S".to_string()),
        })
    );
}

#[test]
fn sweep_reaches_every_attribute_list() {
    let mut wesl = unit(vec![GlobalDeclaration::Function(Function {
        attributes: vec![resolved(true), Attribute::Vertex],
        name: "f".to_string(),
        parameters: vec![],
        return_attributes: vec![resolved(true), Attribute::Invariant],
        return_type: Some(ty("f32")),
        body: CompoundStatement {
            attributes: vec![resolved(true)],
            statements: vec![stmt(Statement::Switch {
                attributes: vec![],
                expression: node(flag("x")),
                body_attributes: vec![resolved(true), Attribute::MustUse],
                clauses: vec![],
            })],
        },
    })]);
    assert_eq!(run(&mut wesl, &HashMap::new()), Ok(()));
    assert_eq!(
        wesl,
        unit(vec![GlobalDeclaration::Function(Function {
            attributes: vec![Attribute::Vertex],
            name: "f".to_string(),
            parameters: vec![],
            return_attributes: vec![Attribute::Invariant],
            return_type: Some(ty("f32")),
            body: CompoundStatement {
                attributes: vec![],
                statements: vec![stmt(Statement::Switch {
                    attributes: vec![],
                    expression: node(flag("x")),
                    body_attributes: vec![Attribute::MustUse],
                    clauses: vec![],
                })],
            },
        })])
    );
}

#[test]
fn a_copy_of_a_module_is_the_module() {
    let wesl = unit(vec![
        GlobalDeclaration::Struct(Struct {
            attributes: vec![when("foo")],
            name: "S".to_string(),
            members: vec![member("m", vec![Attribute::Invariant])],
        }),
        GlobalDeclaration::Function(function(
            "f",
            vec![],
            vec![if_else(vec![when("bar")], vec![brk(vec![])], vec![discard(vec![])])],
        )),
    ]);
    let mut copy = wesl.clone();
    assert_eq!(copy, wesl);
    assert_eq!(run(&mut copy, &features()), Ok(()));
    assert_ne!(copy, wesl);
}
