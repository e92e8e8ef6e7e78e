use wesl::lower::passes::{consts_initialized, lower, remove_global_consts, remove_type_aliases};
use wesl::span::Span;
use wesl::syntax::attribute::Attribute;
use wesl::syntax::declaration::{
    Declaration, DeclarationKind, FormalParameter, Import, Struct, StructMember, TypeAlias,
};
use wesl::syntax::expression::{
    BinaryOperator, Expression, ExpressionNode, LiteralExpression, TypeExpression,
};
use wesl::syntax::statement::{CompoundStatement, Statement, StatementNode};
use wesl::syntax::unit::{Function, GlobalDeclaration, TranslationUnit};

fn node(expr: Expression) -> ExpressionNode {
    ExpressionNode::new(expr, Span::new(0, 0))
}

fn name(name: &str) -> TypeExpression {
    TypeExpression::new(name.to_string())
}

fn generic(name: &str, args: Vec<Expression>) -> TypeExpression {
    TypeExpression {
        name: name.to_string(),
        template_args: Some(args.into_iter().map(node).collect()),
    }
}

fn used(name: &str) -> Expression {
    Expression::TypeOrIdentifier(TypeExpression::new(name.to_string()))
}

fn number(n: i64) -> Expression {
    Expression::Literal(LiteralExpression::AbstractInt(n))
}

fn plus(left: Expression, right: Expression) -> Expression {
    Expression::Binary { operator: BinaryOperator::Addition, left: node(left), right: node(right) }
}

fn paren(expr: Expression) -> Expression {
    Expression::Parenthesized(node(expr))
}

fn alias(alias: &str, ty: TypeExpression) -> GlobalDeclaration {
    GlobalDeclaration::TypeAlias(TypeAlias { attributes: vec![], name: alias.to_string(), ty })
}

fn declare(
    kind: DeclarationKind,
    name: &str,
    ty: Option<TypeExpression>,
    initializer: Option<Expression>,
) -> GlobalDeclaration {
    GlobalDeclaration::Declaration(Declaration {
        attributes: vec![],
        kind,
        name: name.to_string(),
        ty,
        initializer: initializer.map(node),
    })
}

fn structure(name: &str, members: Vec<(&str, TypeExpression)>) -> GlobalDeclaration {
    GlobalDeclaration::Struct(Struct {
        attributes: vec![],
        name: name.to_string(),
        members: members
            .into_iter()
            .map(|(n, ty)| StructMember { attributes: vec![], name: n.to_string(), ty })
            .collect(),
    })
}

fn function(
    name: &str,
    attributes: Vec<Attribute>,
    parameter: TypeExpression,
    result: Expression,
) -> GlobalDeclaration {
    GlobalDeclaration::Function(Function {
        attributes,
        name: name.to_string(),
        parameters: vec![FormalParameter {
            attributes: vec![],
            name: "p".to_string(),
            ty: parameter,
        }],
        return_attributes: vec![],
        return_type: None,
        body: CompoundStatement {
            attributes: vec![],
            statements: vec![StatementNode {
                span: Span::new(0, 0),
                node: Box::new(Statement::Return {
                    attributes: vec![],
                    expression: Some(node(result)),
                }),
            }],
        },
    })
}

fn module(global_declarations: Vec<GlobalDeclaration>) -> TranslationUnit {
    TranslationUnit { imports: vec![], global_directives: vec![], global_declarations }
}

#[test]
fn aliases_are_replaced_by_their_types() {
    let mut wesl = module(vec![
        alias("T", name("u32")),
        structure("S", vec![("a", generic("vec3", vec![used("T")])), ("b", name("T"))]),
        function(
            "f",
            vec![],
            generic("array", vec![used("T"), number(2)]),
            Expression::FunctionCall { ty: name("T"), arguments: vec![node(number(1))] },
        ),
    ]);
    remove_type_aliases(&mut wesl);
    assert_eq!(
        wesl,
        module(vec![
            function(
                "f",
                vec![],
                generic("array", vec![used("u32"), number(2)]),
                Expression::FunctionCall { ty: name("u32"), arguments: vec![node(number(1))] },
            ),
            structure("S", vec![("a", generic("vec3", vec![used("u32")])), ("b", name("u32"))]),
        ])
    );
}

#[test]
fn aliases_of_aliases_are_replaced_through() {
    let mut wesl = module(vec![
        structure("S", vec![("a", name("A"))]),
        alias("A", generic("array", vec![used("B")])),
        alias("B", name("f32")),
    ]);
    remove_type_aliases(&mut wesl);
    assert_eq!(
        wesl,
        module(vec![structure("S", vec![("a", generic("array", vec![used("f32")]))])])
    );
    let mut wesl = module(vec![
        alias("B", name("f32")),
        alias("A", generic("array", vec![used("B")])),
        structure("S", vec![("a", name("A"))]),
    ]);
    remove_type_aliases(&mut wesl);
    assert_eq!(
        wesl,
        module(vec![structure("S", vec![("a", generic("array", vec![used("f32")]))])])
    );
}

#[test]
fn constants_are_replaced_by_their_initializers() {
    let mut wesl = module(vec![
        declare(DeclarationKind::Const, "N", None, Some(plus(number(1), number(2)))),
        declare(
            DeclarationKind::Var(None),
            "v",
            Some(generic("array", vec![used("u32"), used("N")])),
            None,
        ),
        declare(DeclarationKind::Override, "o", None, Some(plus(used("N"), used("M")))),
        declare(DeclarationKind::Const, "M", None, Some(used("N"))),
    ]);
    assert!(consts_initialized(&wesl));
    remove_global_consts(&mut wesl);
    let n = || paren(plus(number(1), number(2)));
    assert_eq!(
        wesl,
        module(vec![
            declare(DeclarationKind::Override, "o", None, Some(plus(n(), paren(n())))),
            declare(
                DeclarationKind::Var(None),
                "v",
                Some(generic("array", vec![used("u32"), n()])),
                None,
            ),
        ])
    );
}

#[test]
fn constants_without_initializer_are_noticed() {
    let wesl = module(vec![
        declare(DeclarationKind::Const, "N", None, Some(number(1))),
        declare(DeclarationKind::Const, "M", None, None),
    ]);
    assert!(!consts_initialized(&wesl));
    let wesl = module(vec![declare(DeclarationKind::Let, "M", None, None)]);
    assert!(consts_initialized(&wesl));
}

#[test]
fn lower_clears_imports_generic_markers_aliases_and_constants() {
    let marker = Attribute::Custom {
        name: "generic".to_string(),
        arguments: Some(vec![node(used("T"))]),
    };
    let other = Attribute::Custom { name: "special".to_string(), arguments: None };
    let mut wesl = TranslationUnit {
        imports: vec![Import {
            attributes: vec![],
            path: vec!["a".to_string()],
            name: "b".to_string(),
            rename: None,
        }],
        global_directives: vec![],
        global_declarations: vec![
            alias("T", name("u32")),
            declare(DeclarationKind::Const, "N", Some(name("T")), Some(number(4))),
            function(
                "f",
                vec![marker, other.clone(), Attribute::Compute],
                name("T"),
                plus(used("N"), used("p")),
            ),
        ],
    };
    assert_eq!(lower(&mut wesl, &["f".to_string()]), Ok(()));
    assert_eq!(
        wesl,
        module(vec![function(
            "f",
            vec![other, Attribute::Compute],
            name("u32"),
            plus(paren(number(4)), used("p"))
        )])
    );
}

#[test]
fn lower_leaves_a_plain_module() {
    let plain = || {
        module(vec![
            structure("S", vec![("a", name("u32"))]),
            declare(DeclarationKind::Override, "o", None, None),
            function("f", vec![Attribute::Vertex], name("S"), used("o")),
        ])
    };
    let mut wesl = plain();
    assert_eq!(lower(&mut wesl, &[]), Ok(()));
    assert_eq!(wesl, plain());
}
