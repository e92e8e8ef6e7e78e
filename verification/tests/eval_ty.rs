use wesl::consteval::context::Context;
use wesl::consteval::error::ConstEvalError;
use wesl::consteval::eval_ty::{eval_named, EvalTy};
use wesl::consteval::instance::Instance;
use wesl::consteval::literal::LiteralInstance;
use wesl::consteval::ty::Type;
use wesl::span::Span;
use wesl::syntax::declaration::{Struct, TypeAlias};
use wesl::syntax::expression::{
    BinaryOperator, Expression, ExpressionNode, LiteralExpression, TypeExpression,
};
use wesl::syntax::unit::{GlobalDeclaration, TranslationUnit};

fn node(expr: Expression) -> ExpressionNode {
    ExpressionNode::new(expr, Span::new(0, 0))
}

fn name(name: &str) -> TypeExpression {
    TypeExpression::new(name.to_string())
}

fn generic(name: &str, args: Vec<Expression>) -> TypeExpression {
    TypeExpression {
        name: name.to_string(),
        template_args: Some(args.into_iter().map(node).collect()),
    }
}

fn of(ty: TypeExpression) -> Expression {
    Expression::TypeOrIdentifier(ty)
}

fn count(n: i64) -> Expression {
    Expression::Literal(LiteralExpression::AbstractInt(n))
}

fn alias(alias: &str, ty: TypeExpression) -> GlobalDeclaration {
    GlobalDeclaration::TypeAlias(TypeAlias { attributes: vec![], name: alias.to_string(), ty })
}

fn structure(name: &str) -> GlobalDeclaration {
    GlobalDeclaration::Struct(Struct {
        attributes: vec![],
        name: name.to_string(),
        members: vec![],
    })
}

fn module(global_declarations: Vec<GlobalDeclaration>) -> TranslationUnit {
    TranslationUnit { imports: vec![], global_directives: vec![], global_declarations }
}

fn eval(ty: &TypeExpression, unit: &TranslationUnit) -> Result<Type, ConstEvalError> {
    let mut ctx = Context { source: unit };
    ty.eval_ty(&mut ctx)
}

#[test]
fn scalar_names() {
    let unit = module(vec![]);
    assert_eq!(eval(&name("bool"), &unit), Ok(Type::Bool));
    assert_eq!(eval(&name("i32"), &unit), Ok(Type::I32));
    assert_eq!(eval(&name("u32"), &unit), Ok(Type::U32));
    assert_eq!(eval(&name("f32"), &unit), Ok(Type::F32));
    assert_eq!(eval(&name("f16"), &unit), Ok(Type::F16));
}

#[test]
fn scalars_take_no_template() {
    let unit = module(vec![]);
    assert_eq!(
        eval(&generic("bool", vec![]), &unit),
        Err(ConstEvalError::UnexpectedTemplate(Type::Bool))
    );
    assert_eq!(
        eval(&generic("f16", vec![of(name("u32"))]), &unit),
        Err(ConstEvalError::UnexpectedTemplate(Type::F16))
    );
    assert_eq!(
        eval(&generic("i32", vec![count(1)]), &unit),
        Err(ConstEvalError::UnexpectedTemplate(Type::I32))
    );
}

#[test]
fn arrays() {
    let unit = module(vec![]);
    let vec3 = generic("vec3", vec![of(name("f16"))]);
    assert_eq!(
        eval(&generic("array", vec![of(vec3.clone())]), &unit),
        Ok(Type::Array(None, Box::new(Type::Vec(3, Box::new(Type::F16)))))
    );
    assert_eq!(
        eval(&generic("array", vec![of(name("u32")), count(4)]), &unit),
        Ok(Type::Array(None, Box::new(Type::U32)))
    );
    assert_eq!(
        eval(
            &generic(
                "array",
                vec![of(name("u32")), Expression::Literal(LiteralExpression::U32(4))]
            ),
            &unit
        ),
        Ok(Type::Array(None, Box::new(Type::U32)))
    );
    assert_eq!(
        eval(&generic("array", vec![Expression::Parenthesized(node(of(name("bool"))))]), &unit),
        Ok(Type::Array(None, Box::new(Type::Bool)))
    );
    assert_eq!(eval(&name("array"), &unit), Err(ConstEvalError::MissingTemplate("array")));
    assert_eq!(eval(&generic("array", vec![]), &unit), Err(ConstEvalError::TemplateArgs("array")));
    assert_eq!(
        eval(&generic("array", vec![of(name("u32")), count(1), count(2)]), &unit),
        Err(ConstEvalError::TemplateArgs("array"))
    );
}

#[test]
fn array_length_must_be_an_integer() {
    let unit = module(vec![]);
    let float = Expression::Literal(LiteralExpression::F32(1.0f32.to_bits()));
    assert_eq!(
        eval(&generic("array", vec![of(name("u32")), float]), &unit),
        Err(ConstEvalError::TemplateArgs("array"))
    );
    assert_eq!(
        eval(&generic("array", vec![of(name("u32")), of(name("bool"))]), &unit),
        Err(ConstEvalError::TemplateArgs("array"))
    );
    let sum = Expression::Binary {
        operator: BinaryOperator::Addition,
        left: node(count(1)),
        right: node(count(2)),
    };
    assert_eq!(
        eval(&generic("array", vec![of(name("u32")), sum]), &unit),
        Err(ConstEvalError::TemplateArgs("array"))
    );
}

#[test]
fn vectors_and_matrices() {
    let unit = module(vec![]);
    for (n, vec) in [(2u8, "vec2"), (3, "vec3"), (4, "vec4")] {
        assert_eq!(
            eval(&generic(vec, vec![of(name("f32"))]), &unit),
            Ok(Type::Vec(n, Box::new(Type::F32)))
        );
        assert_eq!(eval(&name(vec), &unit), Err(ConstEvalError::MissingTemplate("vec")));
        assert_eq!(eval(&generic(vec, vec![]), &unit), Err(ConstEvalError::TemplateArgs("vecN")));
        assert_eq!(
            eval(&generic(vec, vec![of(name("f32")), of(name("f32"))]), &unit),
            Err(ConstEvalError::TemplateArgs("vecN"))
        );
    }
    for c in 2u8..=4 {
        for r in 2u8..=4 {
            let mat = format!("mat{}x{}", c, r);
            assert_eq!(
                eval(&generic(&mat, vec![of(name("f16"))]), &unit),
                Ok(Type::Mat(c, r, Box::new(Type::F16)))
            );
            assert_eq!(eval(&name(&mat), &unit), Err(ConstEvalError::MissingTemplate("matCxR")));
            assert_eq!(
                eval(&generic(&mat, vec![]), &unit),
                Err(ConstEvalError::TemplateArgs("matCxR"))
            );
        }
    }
}

#[test]
fn vector_and_matrix_scalars_must_be_numeric() {
    let unit = module(vec![structure("S")]);
    assert_eq!(
        eval(&generic("vec2", vec![of(name("bool"))]), &unit),
        Err(ConstEvalError::TemplateArgs("vecN"))
    );
    assert_eq!(
        eval(&generic("vec2", vec![of(name("S"))]), &unit),
        Err(ConstEvalError::TemplateArgs("vecN"))
    );
    assert_eq!(
        eval(&generic("mat2x2", vec![of(generic("vec2", vec![of(name("f32"))]))]), &unit),
        Err(ConstEvalError::TemplateArgs("matCxR"))
    );
    assert_eq!(
        eval(&generic("vec3", vec![count(1)]), &unit),
        Ok(Type::Vec(3, Box::new(Type::AbstractInt)))
    );
}

#[test]
fn structs_and_unknown_names() {
    let unit = module(vec![structure("S")]);
    assert_eq!(eval(&name("S"), &unit), Ok(Type::Struct("S".to_string())));
    assert_eq!(
        eval(&generic("S", vec![of(name("f32"))]), &unit),
        Err(ConstEvalError::UnexpectedTemplate(Type::Struct("S".to_string())))
    );
    assert_eq!(eval(&name("T"), &unit), Err(ConstEvalError::UnknownType(name("T"))));
    let templated = generic("T", vec![of(name("f32"))]);
    assert_eq!(eval(&templated, &unit), Err(ConstEvalError::UnknownType(templated.clone())));
    assert_eq!(
        eval(&generic("array", vec![of(name("T"))]), &unit),
        Err(ConstEvalError::UnknownType(name("T")))
    );
    assert_eq!(eval(&name("Bool"), &unit), Err(ConstEvalError::UnknownType(name("Bool"))));
}

#[test]
fn aliases_are_followed() {
    let unit = module(vec![
        alias("A", name("B")),
        structure("S"),
        alias("B", generic("array", vec![of(name("C")), count(2)])),
        alias("C", name("S")),
        alias("A", name("u32")),
    ]);
    assert_eq!(
        eval(&name("A"), &unit),
        Ok(Type::Array(None, Box::new(Type::Struct("S".to_string()))))
    );
    assert_eq!(
        eval(&generic("A", vec![count(1)]), &unit),
        Ok(Type::Array(None, Box::new(Type::Struct("S".to_string()))))
    );
    assert_eq!(
        eval(&generic("array", vec![of(name("C"))]), &unit),
        Ok(Type::Array(None, Box::new(Type::Struct("S".to_string()))))
    );
}

#[test]
fn aliases_in_a_circle_are_unknown() {
    let unit = module(vec![alias("A", name("B")), alias("B", name("A"))]);
    assert!(matches!(eval(&name("A"), &unit), Err(ConstEvalError::UnknownType(_))));
    let unit = module(vec![alias("A", generic("array", vec![of(name("A"))]))]);
    assert!(matches!(eval(&name("A"), &unit), Err(ConstEvalError::UnknownType(_))));
    let unit = module(vec![alias("A", name("u32"))]);
    assert_eq!(eval_named(&name("A"), &unit, 0), Err(ConstEvalError::UnknownType(name("A"))));
    assert_eq!(eval_named(&name("A"), &unit, 1), Ok(Type::U32));
}

#[test]
fn lookups_find_the_first_declaration() {
    let unit = module(vec![structure("S"), alias("A", name("u32")), alias("A", name("f32"))]);
    assert_eq!(unit.resolve_alias("A"), Some(name("u32")));
    assert_eq!(unit.resolve_alias("S"), None);
    assert_eq!(unit.decl_struct("S").map(|s| s.name.as_str()), Some("S"));
    assert!(unit.decl_struct("A").is_none());
}

#[test]
fn values_evaluate_to_their_type() {
    let unit = module(vec![]);
    let mut ctx = Context { source: &unit };
    assert_eq!(Instance::Literal(LiteralInstance::Bool(true)).eval_ty(&mut ctx), Ok(Type::Bool));
    assert_eq!(
        Type::Vec(2, Box::new(Type::F32)).eval_ty(&mut ctx),
        Ok(Type::Vec(2, Box::new(Type::F32)))
    );
    assert_eq!(LiteralInstance::U32(1).eval_ty(&mut ctx), Ok(Type::U32));
}
