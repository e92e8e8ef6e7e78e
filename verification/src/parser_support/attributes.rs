use crate::parser_support::keywords::{
    access_mode, address_space, builtin_value, diagnostic_severity, interpolation_sampling,
    interpolation_type,
};
use crate::syntax::attribute::{
    Attribute, AttributeView, BuiltinValue, DiagnosticSeverity, InterpolationSampling,
    InterpolationType,
};
use crate::syntax::declaration::{AccessMode, AddressSpace};
use crate::syntax::expression::{
    argument_views, node_models, Expression, ExpressionNode, ExpressionNodeView, ExpressionView,
    TypeExpression,
};
use crate::text::str_eq;
use itertools::Itertools;
use vstd::prelude::*;
use vstd::string::StringExecFns;

verus! {

/// Why the parser turns down an attribute or the template of a `var`: the
/// attribute's name and what is wrong with it, or what is wrong with the
/// template.
#[derive(Clone, Copy, Debug, PartialEq)]
pub enum CustomLalrError {
    Attribute(&'static str, &'static str),
    VarTemplate(&'static str),
}

pub enum CustomLalrErrorView {
    Attribute(Seq<char>, Seq<char>),
    VarTemplate(Seq<char>),
}

impl View for CustomLalrError {
    type V = CustomLalrErrorView;

    open spec fn view(&self) -> CustomLalrErrorView {
        match self {
            CustomLalrError::Attribute(name, reason) => CustomLalrErrorView::Attribute(
                name@,
                reason@,
            ),
            CustomLalrError::VarTemplate(reason) => CustomLalrErrorView::VarTemplate(reason@),
        }
    }
}

/// The only argument of a list, if the list has exactly one.
pub open spec fn one(arguments: Option<Seq<ExpressionNodeView>>) -> Option<ExpressionNodeView> {
    match arguments {
        Some(args) => if args.len() == 1 {
            Some(args[0])
        } else {
            None
        },
        None => None,
    }
}

/// The two arguments of a list, if the list has exactly two.
pub open spec fn two(arguments: Option<Seq<ExpressionNodeView>>) -> Option<
    (ExpressionNodeView, ExpressionNodeView),
> {
    match arguments {
        Some(args) => if args.len() == 2 {
            Some((args[0], args[1]))
        } else {
            None
        },
        None => None,
    }
}

/// The name that an expression is, if it is a name without template
/// arguments.
pub open spec fn identifier(expr: ExpressionNodeView) -> Option<Seq<char>> {
    match *expr.node {
        ExpressionView::TypeOrIdentifier(ty) => if ty.template_args is None {
            Some(ty.name)
        } else {
            None
        },
        _ => None,
    }
}

/// The name of a diagnostic rule: a name, or two names with a dot between.
pub open spec fn rule_name(expr: ExpressionNodeView) -> Option<Seq<char>> {
    match *expr.node {
        ExpressionView::NamedComponent { base, component } => match identifier(base) {
            Some(name) => Some(name + "."@ + component),
            None => None,
        },
        _ => identifier(expr),
    }
}

/// The attribute that is built on one argument.
pub open spec fn on_one(
    name: Seq<char>,
    arguments: Option<Seq<ExpressionNodeView>>,
    build: spec_fn(ExpressionNodeView) -> AttributeView,
) -> Result<AttributeView, CustomLalrErrorView> {
    match one(arguments) {
        Some(expr) => Ok(build(expr)),
        None => Err(CustomLalrErrorView::Attribute(name, "expected 1 argument"@)),
    }
}

/// The attribute that takes no argument list.
pub open spec fn on_none(
    name: Seq<char>,
    arguments: Option<Seq<ExpressionNodeView>>,
    attribute: AttributeView,
) -> Result<AttributeView, CustomLalrErrorView> {
    if arguments is None {
        Ok(attribute)
    } else {
        Err(CustomLalrErrorView::Attribute(name, "expected 0 arguments"@))
    }
}

/// The attribute that a name and its arguments stand for.
///
/// The attributes of the language take a fixed number of arguments each, of
/// which those of `builtin`, `diagnostic` and `interpolate` are names out of
/// a fixed set. A name that the language does not know makes a custom
/// attribute, whatever its arguments.
pub open spec fn attribute_named(
    name: Seq<char>,
    arguments: Option<Seq<ExpressionNodeView>>,
) -> Result<AttributeView, CustomLalrErrorView> {
    if name == "align"@ {
        on_one(name, arguments, |e: ExpressionNodeView| AttributeView::Align(e))
    } else if name == "binding"@ {
        on_one(name, arguments, |e: ExpressionNodeView| AttributeView::Binding(e))
    } else if name == "blend_src"@ {
        on_one(name, arguments, |e: ExpressionNodeView| AttributeView::BlendSrc(e))
    } else if name == "builtin"@ {
        match one(arguments) {
            Some(expr) => match identifier(expr) {
                Some(value) => match builtin_value(value) {
                    Some(b) => Ok(AttributeView::Builtin(b)),
                    None => Err(
                        CustomLalrErrorView::Attribute(
                            name,
                            "the argument is not a valid built-in value name"@,
                        ),
                    ),
                },
                None => Err(
                    CustomLalrErrorView::Attribute(
                        name,
                        "the argument is not a valid built-in value name"@,
                    ),
                ),
            },
            None => Err(CustomLalrErrorView::Attribute(name, "expected 1 argument"@)),
        }
    } else if name == "const"@ {
        on_none(name, arguments, AttributeView::Const)
    } else if name == "diagnostic"@ {
        match two(arguments) {
            Some((e1, e2)) => {
                let severity = match identifier(e1) {
                    Some(s) => diagnostic_severity(s),
                    None => None,
                };
                match (severity, rule_name(e2)) {
                    (Some(severity), Some(rule)) => Ok(
                        AttributeView::Diagnostic { severity, rule },
                    ),
                    _ => Err(CustomLalrErrorView::Attribute(name, "invalid arguments"@)),
                }
            },
            None => Err(CustomLalrErrorView::Attribute(name, "expected 2 arguments"@)),
        }
    } else if name == "group"@ {
        on_one(name, arguments, |e: ExpressionNodeView| AttributeView::Group(e))
    } else if name == "id"@ {
        on_one(name, arguments, |e: ExpressionNodeView| AttributeView::Id(e))
    } else if name == "interpolate"@ {
        match two(arguments) {
            Some((e1, e2)) => {
                let ty = match identifier(e1) {
                    Some(s) => interpolation_type(s),
                    None => None,
                };
                let sampling = match identifier(e2) {
                    Some(s) => interpolation_sampling(s),
                    None => None,
                };
                match (ty, sampling) {
                    (Some(ty), Some(sampling)) => Ok(AttributeView::Interpolate { ty, sampling }),
                    _ => Err(CustomLalrErrorView::Attribute(name, "invalid arguments"@)),
                }
            },
            None => Err(CustomLalrErrorView::Attribute(name, "invalid arguments"@)),
        }
    } else if name == "invariant"@ {
        on_none(name, arguments, AttributeView::Invariant)
    } else if name == "location"@ {
        on_one(name, arguments, |e: ExpressionNodeView| AttributeView::Location(e))
    } else if name == "must_use"@ {
        on_none(name, arguments, AttributeView::MustUse)
    } else if name == "size"@ {
        on_one(name, arguments, |e: ExpressionNodeView| AttributeView::Size(e))
    } else if name == "workgroup_size"@ {
        match arguments {
            Some(args) => if args.len() == 1 {
                Ok(AttributeView::WorkgroupSize { x: args[0], y: None, z: None })
            } else if args.len() == 2 {
                Ok(AttributeView::WorkgroupSize { x: args[0], y: Some(args[1]), z: None })
            } else if args.len() == 3 {
                Ok(AttributeView::WorkgroupSize { x: args[0], y: Some(args[1]), z: Some(args[2]) })
            } else {
                Err(CustomLalrErrorView::Attribute(name, "expected 1-3 arguments"@))
            },
            None => Err(CustomLalrErrorView::Attribute(name, "expected 1-3 arguments"@)),
        }
    } else if name == "vertex"@ {
        on_none(name, arguments, AttributeView::Vertex)
    } else if name == "fragment"@ {
        on_none(name, arguments, AttributeView::Fragment)
    } else if name == "compute"@ {
        on_none(name, arguments, AttributeView::Compute)
    } else if name == "if"@ {
        on_one(name, arguments, |e: ExpressionNodeView| AttributeView::If(e))
    } else {
        Ok(AttributeView::Custom { name, arguments })
    }
}

/// `Itertools::collect_tuple` into a pair: the two items of the list, in
/// their order, if the list has exactly two.
#[verifier::external_body]
fn collect_pair(args: Vec<ExpressionNode>) -> (pair: Option<(ExpressionNode, ExpressionNode)>)
    ensures
        match pair {
            Some((a, b)) => args@.len() == 2 && a == args@[0] && b == args@[1],
            None => args@.len() != 2,
        },
{
    args.into_iter().collect_tuple()
}

fn one_arg(arguments: Option<Vec<ExpressionNode>>) -> (arg: Option<ExpressionNode>)
    ensures
        match arg {
            Some(e) => one(argument_views(arguments)) == Some(e@),
            None => one(argument_views(arguments)) is None,
        },
{
    match arguments {
        Some(mut args) => {
            if args.len() == 1 {
                assert(node_models(args@)[0] == args@[0]@);
                args.pop()
            } else {
                None
            }
        },
        None => None,
    }
}

fn two_args(arguments: Option<Vec<ExpressionNode>>) -> (args: Option<
    (ExpressionNode, ExpressionNode),
>)
    ensures
        match args {
            Some((a, b)) => two(argument_views(arguments)) == Some((a@, b@)),
            None => two(argument_views(arguments)) is None,
        },
{
    match arguments {
        Some(args) => {
            proof {
                if args@.len() == 2 {
                    assert(node_models(args@)[0] == args@[0]@);
                    assert(node_models(args@)[1] == args@[1]@);
                }
            }
            collect_pair(args)
        },
        None => None,
    }
}

fn zero_args(arguments: &Option<Vec<ExpressionNode>>) -> (none: bool)
    ensures
        none == (argument_views(*arguments) is None),
{
    arguments.is_none()
}

fn ident(expr: ExpressionNode) -> (name: Option<String>)
    ensures
        match name {
            Some(n) => identifier(expr@) == Some(n@),
            None => identifier(expr@) is None,
        },
{
    proof {
        reveal_with_fuel(ExpressionNode::model, 2);
        reveal_with_fuel(Expression::model, 2);
        reveal_with_fuel(TypeExpression::model, 2);
    }
    match *expr.node {
        Expression::TypeOrIdentifier(ty) => {
            if ty.template_args.is_none() {
                Some(ty.name)
            } else {
                None
            }
        },
        _ => None,
    }
}

fn rule(expr: ExpressionNode) -> (name: Option<String>)
    ensures
        match name {
            Some(n) => rule_name(expr@) == Some(n@),
            None => rule_name(expr@) is None,
        },
{
    let span = expr.span;
    match *expr.node {
        Expression::NamedComponent { base, component } => match ident(base) {
            Some(name) => {
                let mut rule = name;
                rule.append(".");
                rule.append(component.as_str());
                Some(rule)
            },
            None => None,
        },
        other => ident(ExpressionNode { span, node: Box::new(other) }),
    }
}

/// Makes the attribute that a name and its arguments stand for.
pub fn parse_attribute(name: String, arguments: Option<Vec<ExpressionNode>>) -> (result: Result<
    Attribute,
    CustomLalrError,
>)
    ensures
        match result {
            Ok(attribute) => attribute_named(name@, argument_views(arguments)) == Ok::<
                AttributeView,
                CustomLalrErrorView,
            >(attribute@),
            Err(e) => attribute_named(name@, argument_views(arguments)) == Err::<
                AttributeView,
                CustomLalrErrorView,
            >(e@),
        },
{
    if str_eq(name.as_str(), "align") {
        return match one_arg(arguments) {
            Some(expr) => Ok(Attribute::Align(expr)),
            None => Err(CustomLalrError::Attribute("align", "expected 1 argument")),
        };
    }
    if str_eq(name.as_str(), "binding") {
        return match one_arg(arguments) {
            Some(expr) => Ok(Attribute::Binding(expr)),
            None => Err(CustomLalrError::Attribute("binding", "expected 1 argument")),
        };
    }
    if str_eq(name.as_str(), "blend_src") {
        return match one_arg(arguments) {
            Some(expr) => Ok(Attribute::BlendSrc(expr)),
            None => Err(CustomLalrError::Attribute("blend_src", "expected 1 argument")),
        };
    }
    if str_eq(name.as_str(), "builtin") {
        return match one_arg(arguments) {
            Some(expr) => {
                let value = match ident(expr) {
                    Some(value) => BuiltinValue::parse(value.as_str()),
                    None => None,
                };
                match value {
                    Some(b) => Ok(Attribute::Builtin(b)),
                    None => Err(
                        CustomLalrError::Attribute(
                            "builtin",
                            "the argument is not a valid built-in value name",
                        ),
                    ),
                }
            },
            None => Err(CustomLalrError::Attribute("builtin", "expected 1 argument")),
        };
    }
    if str_eq(name.as_str(), "const") {
        return if zero_args(&arguments) {
            Ok(Attribute::Const)
        } else {
            Err(CustomLalrError::Attribute("const", "expected 0 arguments"))
        };
    }
    if str_eq(name.as_str(), "diagnostic") {
        return match two_args(arguments) {
            Some((e1, e2)) => {
                let severity = match ident(e1) {
                    Some(s) => DiagnosticSeverity::parse(s.as_str()),
                    None => None,
                };
                match (severity, rule(e2)) {
                    (Some(severity), Some(rule)) => Ok(Attribute::Diagnostic { severity, rule }),
                    _ => Err(CustomLalrError::Attribute("diagnostic", "invalid arguments")),
                }
            },
            None => Err(CustomLalrError::Attribute("diagnostic", "expected 2 arguments")),
        };
    }
    if str_eq(name.as_str(), "group") {
        return match one_arg(arguments) {
            Some(expr) => Ok(Attribute::Group(expr)),
            None => Err(CustomLalrError::Attribute("group", "expected 1 argument")),
        };
    }
    if str_eq(name.as_str(), "id") {
        return match one_arg(arguments) {
            Some(expr) => Ok(Attribute::Id(expr)),
            None => Err(CustomLalrError::Attribute("id", "expected 1 argument")),
        };
    }
    if str_eq(name.as_str(), "interpolate") {
        return match two_args(arguments) {
            Some((e1, e2)) => {
                let ty = match ident(e1) {
                    Some(s) => InterpolationType::parse(s.as_str()),
                    None => None,
                };
                let sampling = match ident(e2) {
                    Some(s) => InterpolationSampling::parse(s.as_str()),
                    None => None,
                };
                match (ty, sampling) {
                    (Some(ty), Some(sampling)) => Ok(Attribute::Interpolate { ty, sampling }),
                    _ => Err(CustomLalrError::Attribute("interpolate", "invalid arguments")),
                }
            },
            None => Err(CustomLalrError::Attribute("interpolate", "invalid arguments")),
        };
    }
    if str_eq(name.as_str(), "invariant") {
        return if zero_args(&arguments) {
            Ok(Attribute::Invariant)
        } else {
            Err(CustomLalrError::Attribute("invariant", "expected 0 arguments"))
        };
    }
    if str_eq(name.as_str(), "location") {
        return match one_arg(arguments) {
            Some(expr) => Ok(Attribute::Location(expr)),
            None => Err(CustomLalrError::Attribute("location", "expected 1 argument")),
        };
    }
    if str_eq(name.as_str(), "must_use") {
        return if zero_args(&arguments) {
            Ok(Attribute::MustUse)
        } else {
            Err(CustomLalrError::Attribute("must_use", "expected 0 arguments"))
        };
    }
    if str_eq(name.as_str(), "size") {
        return match one_arg(arguments) {
            Some(expr) => Ok(Attribute::Size(expr)),
            None => Err(CustomLalrError::Attribute("size", "expected 1 argument")),
        };
    }
    if str_eq(name.as_str(), "workgroup_size") {
        return match arguments {
            Some(mut args) => {
                let ghost all = node_models(args@);
                let n = args.len();
                if 1 <= n && n <= 3 {
                    assert(all[0] == args@[0]@);
                    let z = if n == 3 {
                        assert(all[2] == args@[2]@);
                        args.pop()
                    } else {
                        None
                    };
                    let y = if n >= 2 {
                        assert(all[1] == args@[1]@);
                        args.pop()
                    } else {
                        None
                    };
                    match args.pop() {
                        Some(x) => Ok(Attribute::WorkgroupSize { x, y, z }),
                        None => Err(
                            CustomLalrError::Attribute("workgroup_size", "expected 1-3 arguments"),
                        ),
                    }
                } else {
                    Err(CustomLalrError::Attribute("workgroup_size", "expected 1-3 arguments"))
                }
            },
            None => Err(CustomLalrError::Attribute("workgroup_size", "expected 1-3 arguments")),
        };
    }
    if str_eq(name.as_str(), "vertex") {
        return if zero_args(&arguments) {
            Ok(Attribute::Vertex)
        } else {
            Err(CustomLalrError::Attribute("vertex", "expected 0 arguments"))
        };
    }
    if str_eq(name.as_str(), "fragment") {
        return if zero_args(&arguments) {
            Ok(Attribute::Fragment)
        } else {
            Err(CustomLalrError::Attribute("fragment", "expected 0 arguments"))
        };
    }
    if str_eq(name.as_str(), "compute") {
        return if zero_args(&arguments) {
            Ok(Attribute::Compute)
        } else {
            Err(CustomLalrError::Attribute("compute", "expected 0 arguments"))
        };
    }
    if str_eq(name.as_str(), "if") {
        return match one_arg(arguments) {
            Some(expr) => Ok(Attribute::If(expr)),
            None => Err(CustomLalrError::Attribute("if", "expected 1 argument")),
        };
    }
    Ok(Attribute::Custom { name, arguments })
}

/// The address space that the template of a `var` names.
///
/// The template holds the address space and, for `storage` alone, an access
/// mode after it.
pub open spec fn var_template(template_args: Option<Seq<ExpressionNodeView>>) -> Result<
    Option<AddressSpace>,
    CustomLalrErrorView,
> {
    match template_args {
        None => Ok(None),
        Some(args) => if args.len() == 1 || args.len() == 2 {
            let space = match identifier(args[0]) {
                Some(name) => address_space(name),
                None => None,
            };
            match space {
                None => Err(CustomLalrErrorView::VarTemplate("invalid address space"@)),
                Some(space) => if args.len() == 1 {
                    Ok(Some(space))
                } else if space is Storage {
                    let mode = match identifier(args[1]) {
                        Some(name) => access_mode(name),
                        None => None,
                    };
                    match mode {
                        Some(mode) => Ok(Some(AddressSpace::Storage(Some(mode)))),
                        None => Err(CustomLalrErrorView::VarTemplate("invalid access mode"@)),
                    }
                } else {
                    Err(
                        CustomLalrErrorView::VarTemplate(
                            "only variables with `storage` address space can have an access mode"@,
                        ),
                    )
                },
            }
        } else {
            Err(CustomLalrErrorView::VarTemplate("template is empty"@))
        },
    }
}

/// Reads the address space off the template of a `var`.
pub fn parse_var_template(template_args: Option<Vec<ExpressionNode>>) -> (result: Result<
    Option<AddressSpace>,
    CustomLalrError,
>)
    ensures
        match result {
            Ok(space) => var_template(argument_views(template_args)) == Ok::<
                Option<AddressSpace>,
                CustomLalrErrorView,
            >(space),
            Err(e) => var_template(argument_views(template_args)) == Err::<
                Option<AddressSpace>,
                CustomLalrErrorView,
            >(e@),
        },
{
    match template_args {
        None => Ok(None),
        Some(mut args) => {
            let ghost all = node_models(args@);
            let n = args.len();
            if n == 1 || n == 2 {
                assert(all[0] == args@[0]@);
                let second = if n == 2 {
                    assert(all[1] == args@[1]@);
                    args.pop()
                } else {
                    None
                };
                let space = match args.pop() {
                    Some(first) => match ident(first) {
                        Some(name) => AddressSpace::parse(name.as_str()),
                        None => None,
                    },
                    None => None,
                };
                match space {
                    None => Err(CustomLalrError::VarTemplate("invalid address space")),
                    Some(space) => match second {
                        None => Ok(Some(space)),
                        Some(e2) => match space {
                            AddressSpace::Storage(_) => {
                                let mode = match ident(e2) {
                                    Some(name) => AccessMode::parse(name.as_str()),
                                    None => None,
                                };
                                match mode {
                                    Some(mode) => Ok(Some(AddressSpace::Storage(Some(mode)))),
                                    None => Err(
                                        CustomLalrError::VarTemplate("invalid access mode"),
                                    ),
                                }
                            },
                            _ => Err(
                                CustomLalrError::VarTemplate(
                                    "only variables with `storage` address space can have an access mode",
                                ),
                            ),
                        },
                    },
                }
            } else {
                Err(CustomLalrError::VarTemplate("template is empty"))
            }
        },
    }
}

} // verus!
