use crate::consteval::context::{alias_of, struct_of, Context};
use crate::consteval::error::{ConstEvalError, ConstEvalErrorView};
use crate::consteval::literal::Ty;
use crate::consteval::ty::{Type, TypeView};
use crate::syntax::expression::{
    node_models, Expression, ExpressionNode, ExpressionNodeView, ExpressionView, LiteralExpression,
    TypeExpression, TypeExpressionView,
};
use crate::syntax::unit::{GlobalDeclarationView, TranslationUnit, TranslationUnitView};
use crate::text::str_eq;
use vstd::prelude::*;

verus! {

/// The scalar type that a name stands for.
pub open spec fn scalar_named(name: Seq<char>) -> Option<TypeView> {
    if name == "bool"@ {
        Some(TypeView::Bool)
    } else if name == "i32"@ {
        Some(TypeView::I32)
    } else if name == "u32"@ {
        Some(TypeView::U32)
    } else if name == "f32"@ {
        Some(TypeView::F32)
    } else if name == "f16"@ {
        Some(TypeView::F16)
    } else {
        None
    }
}

/// The number of components of the vector type that a name stands for.
pub open spec fn vector_named(name: Seq<char>) -> Option<u8> {
    if name == "vec2"@ {
        Some(2u8)
    } else if name == "vec3"@ {
        Some(3u8)
    } else if name == "vec4"@ {
        Some(4u8)
    } else {
        None
    }
}

/// The numbers of columns and rows of the matrix type that a name stands
/// for.
pub open spec fn matrix_named(name: Seq<char>) -> Option<(u8, u8)> {
    if name == "mat2x2"@ {
        Some((2u8, 2u8))
    } else if name == "mat2x3"@ {
        Some((2u8, 3u8))
    } else if name == "mat2x4"@ {
        Some((2u8, 4u8))
    } else if name == "mat3x2"@ {
        Some((3u8, 2u8))
    } else if name == "mat3x3"@ {
        Some((3u8, 3u8))
    } else if name == "mat3x4"@ {
        Some((3u8, 4u8))
    } else if name == "mat4x2"@ {
        Some((4u8, 2u8))
    } else if name == "mat4x3"@ {
        Some((4u8, 3u8))
    } else if name == "mat4x4"@ {
        Some((4u8, 4u8))
    } else {
        None
    }
}

/// The type of a literal.
pub open spec fn literal_type(literal: LiteralExpression) -> TypeView {
    match literal {
        LiteralExpression::Bool(_) => TypeView::Bool,
        LiteralExpression::AbstractInt(_) => TypeView::AbstractInt,
        LiteralExpression::AbstractFloat(_) => TypeView::AbstractFloat,
        LiteralExpression::I32(_) => TypeView::I32,
        LiteralExpression::U32(_) => TypeView::U32,
        LiteralExpression::F32(_) => TypeView::F32,
        LiteralExpression::F16(_) => TypeView::F16,
    }
}

/// The type of a template argument: of a literal, its own type; of a name,
/// the type that the name stands for. Parentheses are looked through. Any
/// other expression is an error of the template that `label` names.
pub open spec fn argument_type(
    argument: ExpressionView,
    declarations: Seq<GlobalDeclarationView>,
    fuel: nat,
    label: Seq<char>,
) -> Result<TypeView, ConstEvalErrorView>
    decreases fuel, argument,
{
    match argument {
        ExpressionView::Literal(literal) => Ok(literal_type(literal)),
        ExpressionView::Parenthesized(inner) => argument_type(
            *inner.node,
            declarations,
            fuel,
            label,
        ),
        ExpressionView::TypeOrIdentifier(ty) => named_type(ty, declarations, fuel),
        _ => Err(ConstEvalErrorView::TemplateArgs(label)),
    }
}

/// The type whose components are of the type of the only template argument,
/// which must be a numeric scalar.
pub open spec fn of_numeric(
    template_args: Option<Seq<ExpressionNodeView>>,
    declarations: Seq<GlobalDeclarationView>,
    fuel: nat,
    missing: Seq<char>,
    label: Seq<char>,
) -> Result<TypeView, ConstEvalErrorView>
    decreases fuel, template_args,
{
    match template_args {
        None => Err(ConstEvalErrorView::MissingTemplate(missing)),
        Some(args) => if args.len() == 1 {
            match argument_type(*args[0].node, declarations, fuel, label) {
                Err(e) => Err(e),
                Ok(ty) => if ty.is_numeric() {
                    Ok(ty)
                } else {
                    Err(ConstEvalErrorView::TemplateArgs(label))
                },
            }
        } else {
            Err(ConstEvalErrorView::TemplateArgs(label))
        },
    }
}

/// The type that a type expression stands for in a module.
///
/// - A scalar name stands for its scalar and takes no template arguments.
/// - `array` takes the element type and, if wanted, the length. The length
///   must be of an integer type; an abstract integer counts, as it converts
///   to `i32`. The length itself is not part of the type.
/// - `vec2` to `vec4` and `mat2x2` to `mat4x4` take the type of their
///   scalars, which must be numeric.
/// - Any other name stands for what its alias stands for, if the module
///   declares an alias of that name, whatever template arguments it carries;
///   else for the struct of that name, if the module declares one, which
///   takes no template arguments.
///
/// `fuel` bounds how many aliases are followed one after another. With one
/// unit of fuel for each declaration of the module it runs out only where
/// aliases stand for one another in a circle; the name is then unknown.
pub open spec fn named_type(
    ty: TypeExpressionView,
    declarations: Seq<GlobalDeclarationView>,
    fuel: nat,
) -> Result<TypeView, ConstEvalErrorView>
    decreases fuel, ty,
{
    if let Some(scalar) = scalar_named(ty.name) {
        if ty.template_args is Some {
            Err(ConstEvalErrorView::UnexpectedTemplate(scalar))
        } else {
            Ok(scalar)
        }
    } else if ty.name == "array"@ {
        match ty.template_args {
            None => Err(ConstEvalErrorView::MissingTemplate("array"@)),
            Some(args) => if args.len() == 1 {
                match argument_type(*args[0].node, declarations, fuel, "array"@) {
                    Err(e) => Err(e),
                    Ok(element) => Ok(TypeView::Array(None, Box::new(element))),
                }
            } else if args.len() == 2 {
                match argument_type(*args[0].node, declarations, fuel, "array"@) {
                    Err(e) => Err(e),
                    Ok(element) => match argument_type(
                        *args[1].node,
                        declarations,
                        fuel,
                        "array"@,
                    ) {
                        Err(e) => Err(e),
                        Ok(length) => if length.is_integer() {
                            Ok(TypeView::Array(None, Box::new(element)))
                        } else {
                            Err(ConstEvalErrorView::TemplateArgs("array"@))
                        },
                    },
                }
            } else {
                Err(ConstEvalErrorView::TemplateArgs("array"@))
            },
        }
    } else if let Some(n) = vector_named(ty.name) {
        match of_numeric(ty.template_args, declarations, fuel, "vec"@, "vecN"@) {
            Err(e) => Err(e),
            Ok(scalar) => Ok(TypeView::Vec(n, Box::new(scalar))),
        }
    } else if let Some((c, r)) = matrix_named(ty.name) {
        match of_numeric(ty.template_args, declarations, fuel, "matCxR"@, "matCxR"@) {
            Err(e) => Err(e),
            Ok(scalar) => Ok(TypeView::Mat(c, r, Box::new(scalar))),
        }
    } else {
        match alias_of(declarations, ty.name) {
            Some(aliased) => if fuel == 0 {
                Err(ConstEvalErrorView::UnknownType(ty))
            } else {
                named_type(aliased, declarations, (fuel - 1) as nat)
            },
            None => match struct_of(declarations, ty.name) {
                Some(_) => if ty.template_args is Some {
                    Err(ConstEvalErrorView::UnexpectedTemplate(TypeView::Struct(ty.name)))
                } else {
                    Ok(TypeView::Struct(ty.name))
                },
                None => Err(ConstEvalErrorView::UnknownType(ty)),
            },
        }
    }
}

/// The view of a type derivation's outcome.
pub open spec fn derived(result: Result<Type, ConstEvalError>) -> Result<
    TypeView,
    ConstEvalErrorView,
> {
    match result {
        Ok(ty) => Ok(ty@),
        Err(e) => Err(e@),
    }
}

/// The scalar type that a name stands for.
fn scalar_of(name: &str) -> (scalar: Option<Type>)
    ensures
        match scalar {
            Some(ty) => scalar_named(name@) == Some(ty@),
            None => scalar_named(name@) is None,
        },
{
    if str_eq(name, "bool") {
        Some(Type::Bool)
    } else if str_eq(name, "i32") {
        Some(Type::I32)
    } else if str_eq(name, "u32") {
        Some(Type::U32)
    } else if str_eq(name, "f32") {
        Some(Type::F32)
    } else if str_eq(name, "f16") {
        Some(Type::F16)
    } else {
        None
    }
}

fn vector_of(name: &str) -> (arity: Option<u8>)
    ensures
        arity == vector_named(name@),
{
    if str_eq(name, "vec2") {
        Some(2)
    } else if str_eq(name, "vec3") {
        Some(3)
    } else if str_eq(name, "vec4") {
        Some(4)
    } else {
        None
    }
}

fn matrix_of(name: &str) -> (shape: Option<(u8, u8)>)
    ensures
        shape == matrix_named(name@),
{
    if str_eq(name, "mat2x2") {
        Some((2, 2))
    } else if str_eq(name, "mat2x3") {
        Some((2, 3))
    } else if str_eq(name, "mat2x4") {
        Some((2, 4))
    } else if str_eq(name, "mat3x2") {
        Some((3, 2))
    } else if str_eq(name, "mat3x3") {
        Some((3, 3))
    } else if str_eq(name, "mat3x4") {
        Some((3, 4))
    } else if str_eq(name, "mat4x2") {
        Some((4, 2))
    } else if str_eq(name, "mat4x3") {
        Some((4, 3))
    } else if str_eq(name, "mat4x4") {
        Some((4, 4))
    } else {
        None
    }
}

fn literal_ty(literal: &LiteralExpression) -> (ty: Type)
    ensures
        ty@ == literal_type(*literal),
{
    match literal {
        LiteralExpression::Bool(_) => Type::Bool,
        LiteralExpression::AbstractInt(_) => Type::AbstractInt,
        LiteralExpression::AbstractFloat(_) => Type::AbstractFloat,
        LiteralExpression::I32(_) => Type::I32,
        LiteralExpression::U32(_) => Type::U32,
        LiteralExpression::F32(_) => Type::F32,
        LiteralExpression::F16(_) => Type::F16,
    }
}

/// Derives the type of a template argument.
fn eval_argument(
    argument: &Expression,
    unit: &TranslationUnit,
    fuel: usize,
    label: &'static str,
) -> (result: Result<Type, ConstEvalError>)
    ensures
        derived(result) == argument_type(
            argument@,
            unit@.global_declarations,
            fuel as nat,
            label@,
        ),
    decreases fuel, argument,
{
    match argument {
        Expression::Literal(literal) => Ok(literal_ty(literal)),
        Expression::Parenthesized(inner) => eval_argument(&inner.node, unit, fuel, label),
        Expression::TypeOrIdentifier(ty) => eval_named(ty, unit, fuel),
        _ => Err(ConstEvalError::TemplateArgs(label)),
    }
}

/// Derives the numeric scalar type that the only template argument names.
fn eval_numeric(
    template_args: &Option<Vec<ExpressionNode>>,
    unit: &TranslationUnit,
    fuel: usize,
    missing: &'static str,
    label: &'static str,
) -> (result: Result<Type, ConstEvalError>)
    ensures
        derived(result) == of_numeric(
            match template_args {
                Some(args) => Some(node_models(args@)),
                None => None,
            },
            unit@.global_declarations,
            fuel as nat,
            missing@,
            label@,
        ),
    decreases fuel, template_args,
{
    match template_args {
        None => Err(ConstEvalError::MissingTemplate(missing)),
        Some(args) => {
            if args.len() == 1 {
                assert(node_models(args@)[0] == args@[0]@);
                match eval_argument(&args[0].node, unit, fuel, label) {
                    Err(e) => Err(e),
                    Ok(scalar) => {
                        if scalar.is_numeric() {
                            Ok(scalar)
                        } else {
                            Err(ConstEvalError::TemplateArgs(label))
                        }
                    },
                }
            } else {
                Err(ConstEvalError::TemplateArgs(label))
            }
        },
    }
}

/// Derives the type that a type expression stands for, following at most
/// `fuel` aliases one after another.
pub fn eval_named(ty: &TypeExpression, unit: &TranslationUnit, fuel: usize) -> (result: Result<
    Type,
    ConstEvalError,
>)
    ensures
        derived(result) == named_type(ty@, unit@.global_declarations, fuel as nat),
    decreases fuel, ty,
{
    let name = ty.name.as_str();
    if let Some(scalar) = scalar_of(name) {
        if ty.template_args.is_some() {
            Err(ConstEvalError::UnexpectedTemplate(scalar))
        } else {
            Ok(scalar)
        }
    } else if str_eq(name, "array") {
        match &ty.template_args {
            None => Err(ConstEvalError::MissingTemplate("array")),
            Some(args) => {
                if args.len() == 1 {
                    assert(node_models(args@)[0] == args@[0]@);
                    match eval_argument(&args[0].node, unit, fuel, "array") {
                        Err(e) => Err(e),
                        Ok(element) => Ok(Type::Array(None, Box::new(element))),
                    }
                } else if args.len() == 2 {
                    assert(node_models(args@)[0] == args@[0]@);
                    assert(node_models(args@)[1] == args@[1]@);
                    match eval_argument(&args[0].node, unit, fuel, "array") {
                        Err(e) => Err(e),
                        Ok(element) => match eval_argument(&args[1].node, unit, fuel, "array") {
                            Err(e) => Err(e),
                            Ok(length) => {
                                if length.is_integer() {
                                    Ok(Type::Array(None, Box::new(element)))
                                } else {
                                    Err(ConstEvalError::TemplateArgs("array"))
                                }
                            },
                        },
                    }
                } else {
                    Err(ConstEvalError::TemplateArgs("array"))
                }
            },
        }
    } else if let Some(n) = vector_of(name) {
        match eval_numeric(&ty.template_args, unit, fuel, "vec", "vecN") {
            Err(e) => Err(e),
            Ok(scalar) => Ok(Type::Vec(n, Box::new(scalar))),
        }
    } else if let Some((c, r)) = matrix_of(name) {
        match eval_numeric(&ty.template_args, unit, fuel, "matCxR", "matCxR") {
            Err(e) => Err(e),
            Ok(scalar) => Ok(Type::Mat(c, r, Box::new(scalar))),
        }
    } else {
        match unit.resolve_alias(name) {
            Some(aliased) => {
                if fuel == 0 {
                    Err(ConstEvalError::UnknownType(ty.clone()))
                } else {
                    eval_named(&aliased, unit, fuel - 1)
                }
            },
            None => match unit.decl_struct(name) {
                Some(_) => {
                    if ty.template_args.is_some() {
                        Err(ConstEvalError::UnexpectedTemplate(Type::Struct(ty.name.clone())))
                    } else {
                        Ok(Type::Struct(ty.name.clone()))
                    }
                },
                None => Err(ConstEvalError::UnknownType(ty.clone())),
            },
        }
    }
}

/// What a type can be derived from, in a module.
pub trait EvalTy {
    /// Whether the derivation can be asked for.
    spec fn derivable(&self) -> bool;

    /// The outcome of the derivation in a module.
    spec fn derivation(&self, unit: TranslationUnitView) -> Result<TypeView, ConstEvalErrorView>;

    fn eval_ty(&self, ctx: &mut Context) -> (result: Result<Type, ConstEvalError>)
        requires
            self.derivable(),
        ensures
            derived(result) == self.derivation(old(ctx).source@),
            final(ctx).source == old(ctx).source,
    ;
}

/// What has a type has it in every module.
impl<T: Ty> EvalTy for T {
    open spec fn derivable(&self) -> bool {
        self.typed()
    }

    open spec fn derivation(&self, unit: TranslationUnitView) -> Result<
        TypeView,
        ConstEvalErrorView,
    > {
        Ok(self.type_of())
    }

    fn eval_ty(&self, ctx: &mut Context) -> (result: Result<Type, ConstEvalError>) {
        Ok(self.ty())
    }
}

impl EvalTy for TypeExpression {
    open spec fn derivable(&self) -> bool {
        true
    }

    /// The type that the expression stands for, with as much fuel as the
    /// module has declarations.
    open spec fn derivation(&self, unit: TranslationUnitView) -> Result<
        TypeView,
        ConstEvalErrorView,
    > {
        named_type(self@, unit.global_declarations, unit.global_declarations.len())
    }

    fn eval_ty(&self, ctx: &mut Context) -> (result: Result<Type, ConstEvalError>) {
        eval_named(self, ctx.source, ctx.source.global_declarations.len())
    }
}

} // verus!
