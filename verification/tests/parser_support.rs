use std::str::FromStr;
use wesl::parser_support::attributes::{parse_attribute, parse_var_template, CustomLalrError};
use wesl::parser_support::components::{apply_components, Component, ComponentNode};
use wesl::span::Span;
use wesl::syntax::attribute::{
    Attribute, BuiltinValue, DiagnosticSeverity, InterpolationSampling, InterpolationType,
};
use wesl::syntax::declaration::{AccessMode, AddressSpace, DeclarationKind};
use wesl::syntax::expression::{Expression, ExpressionNode, LiteralExpression, TypeExpression};

fn node(expr: Expression) -> ExpressionNode {
    ExpressionNode::new(expr, Span::new(0, 0))
}

fn word(name: &str) -> ExpressionNode {
    node(Expression::TypeOrIdentifier(TypeExpression::new(name.to_string())))
}

fn number(n: i64) -> ExpressionNode {
    node(Expression::Literal(LiteralExpression::AbstractInt(n)))
}

fn parse(name: &str, arguments: Option<Vec<ExpressionNode>>) -> Result<Attribute, CustomLalrError> {
    parse_attribute(name.to_string(), arguments)
}

#[test]
fn attributes_on_one_argument() {
    assert_eq!(parse("align", Some(vec![number(16)])), Ok(Attribute::Align(number(16))));
    assert_eq!(parse("binding", Some(vec![number(1)])), Ok(Attribute::Binding(number(1))));
    assert_eq!(parse("blend_src", Some(vec![number(1)])), Ok(Attribute::BlendSrc(number(1))));
    assert_eq!(parse("group", Some(vec![number(2)])), Ok(Attribute::Group(number(2))));
    assert_eq!(parse("id", Some(vec![number(3)])), Ok(Attribute::Id(number(3))));
    assert_eq!(parse("location", Some(vec![number(4)])), Ok(Attribute::Location(number(4))));
    assert_eq!(parse("size", Some(vec![number(5)])), Ok(Attribute::Size(number(5))));
    assert_eq!(parse("if", Some(vec![word("foo")])), Ok(Attribute::If(word("foo"))));
    for name in ["align", "binding", "blend_src", "group", "id", "location", "size", "if"] {
        let expected = match parse(name, None) {
            Err(CustomLalrError::Attribute(n, reason)) => {
                assert_eq!(n, name);
                reason
            },
            other => panic!("{:?}", other),
        };
        assert_eq!(expected, "expected 1 argument");
        assert!(parse(name, Some(vec![])).is_err());
        assert!(parse(name, Some(vec![number(1), number(2)])).is_err());
    }
}

#[test]
fn attributes_without_arguments() {
    assert_eq!(parse("const", None), Ok(Attribute::Const));
    assert_eq!(parse("invariant", None), Ok(Attribute::Invariant));
    assert_eq!(parse("must_use", None), Ok(Attribute::MustUse));
    assert_eq!(parse("vertex", None), Ok(Attribute::Vertex));
    assert_eq!(parse("fragment", None), Ok(Attribute::Fragment));
    assert_eq!(parse("compute", None), Ok(Attribute::Compute));
    assert_eq!(
        parse("const", Some(vec![])),
        Err(CustomLalrError::Attribute("const", "expected 0 arguments"))
    );
    assert_eq!(
        parse("compute", Some(vec![number(1)])),
        Err(CustomLalrError::Attribute("compute", "expected 0 arguments"))
    );
}

#[test]
fn builtin_attribute() {
    assert_eq!(
        parse("builtin", Some(vec![word("position")])),
        Ok(Attribute::Builtin(BuiltinValue::Position))
    );
    assert_eq!(
        parse("builtin", Some(vec![word("nowhere")])),
        Err(CustomLalrError::Attribute(
            "builtin",
            "the argument is not a valid built-in value name"
        ))
    );
    assert_eq!(
        parse("builtin", Some(vec![number(1)])),
        Err(CustomLalrError::Attribute(
            "builtin",
            "the argument is not a valid built-in value name"
        ))
    );
    assert_eq!(
        parse("builtin", None),
        Err(CustomLalrError::Attribute("builtin", "expected 1 argument"))
    );
}

#[test]
fn diagnostic_attribute() {
    assert_eq!(
        parse("diagnostic", Some(vec![word("off"), word("derivative_uniformity")])),
        Ok(Attribute::Diagnostic {
            severity: DiagnosticSeverity::Off,
            rule: "derivative_uniformity".to_string(),
        })
    );
    let dotted = node(Expression::NamedComponent {
        base: word("my"),
        component: "rule".to_string(),
    });
    assert_eq!(
        parse("diagnostic", Some(vec![word("warning"), dotted])),
        Ok(Attribute::Diagnostic {
            severity: DiagnosticSeverity::Warning,
            rule: "my.rule".to_string(),
        })
    );
    assert_eq!(
        parse("diagnostic", Some(vec![word("loud"), word("rule")])),
        Err(CustomLalrError::Attribute("diagnostic", "invalid arguments"))
    );
    assert_eq!(
        parse("diagnostic", Some(vec![word("off"), number(1)])),
        Err(CustomLalrError::Attribute("diagnostic", "invalid arguments"))
    );
    assert_eq!(
        parse("diagnostic", Some(vec![word("off")])),
        Err(CustomLalrError::Attribute("diagnostic", "expected 2 arguments"))
    );
    assert!(parse("diagnostic", None).is_err());
    assert!(parse("diagnostic", Some(vec![word("off"), word("a"), word("b")])).is_err());
}

#[test]
fn interpolate_attribute() {
    assert_eq!(
        parse("interpolate", Some(vec![word("linear"), word("centroid")])),
        Ok(Attribute::Interpolate {
            ty: InterpolationType::Linear,
            sampling: InterpolationSampling::Centroid,
        })
    );
    assert_eq!(
        parse("interpolate", Some(vec![word("centroid"), word("linear")])),
        Err(CustomLalrError::Attribute("interpolate", "invalid arguments"))
    );
    assert_eq!(
        parse("interpolate", Some(vec![word("flat")])),
        Err(CustomLalrError::Attribute("interpolate", "invalid arguments"))
    );
}

#[test]
fn workgroup_size_attribute() {
    assert_eq!(
        parse("workgroup_size", Some(vec![number(8)])),
        Ok(Attribute::WorkgroupSize { x: number(8), y: None, z: None })
    );
    assert_eq!(
        parse("workgroup_size", Some(vec![number(8), number(4)])),
        Ok(Attribute::WorkgroupSize { x: number(8), y: Some(number(4)), z: None })
    );
    assert_eq!(
        parse("workgroup_size", Some(vec![number(8), number(4), number(2)])),
        Ok(Attribute::WorkgroupSize { x: number(8), y: Some(number(4)), z: Some(number(2)) })
    );
    for arguments in [None, Some(vec![]), Some(vec![number(1), number(2), number(3), number(4)])] {
        assert_eq!(
            parse("workgroup_size", arguments),
            Err(CustomLalrError::Attribute("workgroup_size", "expected 1-3 arguments"))
        );
    }
}

#[test]
fn other_names_make_custom_attributes() {
    assert_eq!(
        parse("generic", Some(vec![word("T")])),
        Ok(Attribute::Custom { name: "generic".to_string(), arguments: Some(vec![word("T")]) })
    );
    assert_eq!(
        parse("Align", None),
        Ok(Attribute::Custom { name: "Align".to_string(), arguments: None })
    );
}

#[test]
fn var_templates() {
    assert_eq!(parse_var_template(None), Ok(None));
    assert_eq!(parse_var_template(Some(vec![word("private")])), Ok(Some(AddressSpace::Private)));
    assert_eq!(
        parse_var_template(Some(vec![word("storage")])),
        Ok(Some(AddressSpace::Storage(None)))
    );
    assert_eq!(
        parse_var_template(Some(vec![word("storage"), word("read_write")])),
        Ok(Some(AddressSpace::Storage(Some(AccessMode::ReadWrite))))
    );
    assert_eq!(
        parse_var_template(Some(vec![word("storage"), word("sometimes")])),
        Err(CustomLalrError::VarTemplate("invalid access mode"))
    );
    assert_eq!(
        parse_var_template(Some(vec![word("uniform"), word("read")])),
        Err(CustomLalrError::VarTemplate(
            "only variables with `storage` address space can have an access mode"
        ))
    );
    assert_eq!(
        parse_var_template(Some(vec![word("nowhere")])),
        Err(CustomLalrError::VarTemplate("invalid address space"))
    );
    assert_eq!(
        parse_var_template(Some(vec![number(1), word("read")])),
        Err(CustomLalrError::VarTemplate("invalid address space"))
    );
    assert_eq!(
        parse_var_template(Some(vec![])),
        Err(CustomLalrError::VarTemplate("template is empty"))
    );
    assert_eq!(
        parse_var_template(Some(vec![word("storage"), word("read"), word("read")])),
        Err(CustomLalrError::VarTemplate("template is empty"))
    );
}

#[test]
fn keywords() {
    assert_eq!(DeclarationKind::from_str("const"), Ok(DeclarationKind::Const));
    assert_eq!(DeclarationKind::from_str("override"), Ok(DeclarationKind::Override));
    assert_eq!(DeclarationKind::from_str("let"), Ok(DeclarationKind::Let));
    assert_eq!(DeclarationKind::from_str("var"), Ok(DeclarationKind::Var(None)));
    assert_eq!(DeclarationKind::from_str("fn"), Err(()));
    assert_eq!(AddressSpace::from_str("function"), Ok(AddressSpace::Function));
    assert_eq!(AddressSpace::from_str("workgroup"), Ok(AddressSpace::Workgroup));
    assert_eq!(AddressSpace::from_str("uniform"), Ok(AddressSpace::Uniform));
    assert_eq!(AddressSpace::from_str("handle"), Ok(AddressSpace::Handle));
    assert_eq!(AddressSpace::from_str("Storage"), Err(()));
    assert_eq!("read".parse(), Ok(AccessMode::Read));
    assert_eq!("write".parse(), Ok(AccessMode::Write));
    assert_eq!("readwrite".parse::<AccessMode>(), Err(()));
    assert_eq!("error".parse(), Ok(DiagnosticSeverity::Error));
    assert_eq!("info".parse(), Ok(DiagnosticSeverity::Info));
    assert_eq!("perspective".parse(), Ok(InterpolationType::Perspective));
    assert_eq!("flat".parse(), Ok(InterpolationType::Flat));
    assert_eq!("center".parse(), Ok(InterpolationSampling::Center));
    assert_eq!("sample".parse(), Ok(InterpolationSampling::Sample));
    assert_eq!("first".parse(), Ok(InterpolationSampling::First));
    assert_eq!("either".parse(), Ok(InterpolationSampling::Either));
    let builtins = [
        ("vertex_index", BuiltinValue::VertexIndex),
        ("instance_index", BuiltinValue::InstanceIndex),
        ("position", BuiltinValue::Position),
        ("front_facing", BuiltinValue::FrontFacing),
        ("frag_depth", BuiltinValue::FragDepth),
        ("sample_index", BuiltinValue::SampleIndex),
        ("sample_mask", BuiltinValue::SampleMask),
        ("local_invocation_id", BuiltinValue::LocalInvocationId),
        ("local_invocation_index", BuiltinValue::LocalInvocationIndex),
        ("global_invocation_id", BuiltinValue::GlobalInvocationId),
        ("workgroup_id", BuiltinValue::WorkgroupId),
        ("num_workgroups", BuiltinValue::NumWorkgroups),
    ];
    for (name, value) in builtins {
        assert_eq!(name.parse(), Ok(value));
        assert_eq!(BuiltinValue::parse(name), Some(value));
    }
    assert_eq!(BuiltinValue::parse(""), None);
}

#[test]
fn components_are_applied_innermost_first() {
    let a = Expression::TypeOrIdentifier(TypeExpression::new("a".to_string()));
    let span = Span::new(2, 3);
    let components = vec![
        ComponentNode { span: Span::new(3, 5), node: Component::Named("b".to_string()) },
        ComponentNode { span: Span::new(5, 8), node: Component::Index(number(0)) },
        ComponentNode { span: Span::new(8, 10), node: Component::Named("c".to_string()) },
    ];
    let expected = Expression::NamedComponent {
        base: ExpressionNode::new(
            Expression::Indexing {
                base: ExpressionNode::new(
                    Expression::NamedComponent {
                        base: ExpressionNode::new(a.clone(), Span::new(2, 5)),
                        component: "b".to_string(),
                    },
                    Span::new(2, 8),
                ),
                index: number(0),
            },
            Span::new(2, 10),
        ),
        component: "c".to_string(),
    };
    assert_eq!(apply_components(a.clone(), span, components), expected);
    assert_eq!(apply_components(a.clone(), span, vec![]), a);
    assert_eq!(span.extend(Span::new(7, 9)), Span::new(2, 9));
}
