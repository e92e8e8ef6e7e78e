use crate::model::views;
use crate::syntax::expression::{copy_nodes, node_models, ExpressionNode, ExpressionNodeView};
use vstd::prelude::*;

verus! {

#[derive(Clone, Copy, Debug, PartialEq, Eq, Structural)]
pub enum DiagnosticSeverity {
    Error,
    Warning,
    Info,
    Off,
}

#[derive(Clone, Copy, Debug, PartialEq, Eq, Structural)]
pub enum BuiltinValue {
    VertexIndex,
    InstanceIndex,
    Position,
    FrontFacing,
    FragDepth,
    SampleIndex,
    SampleMask,
    LocalInvocationId,
    LocalInvocationIndex,
    GlobalInvocationId,
    WorkgroupId,
    NumWorkgroups,
}

#[derive(Clone, Copy, Debug, PartialEq, Eq, Structural)]
pub enum InterpolationType {
    Perspective,
    Linear,
    Flat,
}

#[derive(Clone, Copy, Debug, PartialEq, Eq, Structural)]
pub enum InterpolationSampling {
    Center,
    Centroid,
    Sample,
    First,
    Either,
}

/// An attribute of a declaration, a statement or a member: `@name(arguments)`.
#[derive(Debug, PartialEq)]
pub enum Attribute {
    Align(ExpressionNode),
    Binding(ExpressionNode),
    BlendSrc(ExpressionNode),
    Builtin(BuiltinValue),
    Const,
    Diagnostic { severity: DiagnosticSeverity, rule: String },
    Group(ExpressionNode),
    Id(ExpressionNode),
    Interpolate { ty: InterpolationType, sampling: InterpolationSampling },
    Invariant,
    Location(ExpressionNode),
    MustUse,
    Size(ExpressionNode),
    WorkgroupSize { x: ExpressionNode, y: Option<ExpressionNode>, z: Option<ExpressionNode> },
    Vertex,
    Fragment,
    Compute,
    /// The condition under which the decorated node is compiled at all.
    If(ExpressionNode),
    Custom { name: String, arguments: Option<Vec<ExpressionNode>> },
}

pub enum AttributeView {
    Align(ExpressionNodeView),
    Binding(ExpressionNodeView),
    BlendSrc(ExpressionNodeView),
    Builtin(BuiltinValue),
    Const,
    Diagnostic { severity: DiagnosticSeverity, rule: Seq<char> },
    Group(ExpressionNodeView),
    Id(ExpressionNodeView),
    Interpolate { ty: InterpolationType, sampling: InterpolationSampling },
    Invariant,
    Location(ExpressionNodeView),
    MustUse,
    Size(ExpressionNodeView),
    WorkgroupSize {
        x: ExpressionNodeView,
        y: Option<ExpressionNodeView>,
        z: Option<ExpressionNodeView>,
    },
    Vertex,
    Fragment,
    Compute,
    If(ExpressionNodeView),
    Custom { name: Seq<char>, arguments: Option<Seq<ExpressionNodeView>> },
}

/// The view of an expression that may be absent.
pub open spec fn optional_node(node: Option<ExpressionNode>) -> Option<ExpressionNodeView> {
    match node {
        Some(n) => Some(n@),
        None => None,
    }
}

impl View for Attribute {
    type V = AttributeView;

    open spec fn view(&self) -> AttributeView {
        match self {
            Attribute::Align(e) => AttributeView::Align(e@),
            Attribute::Binding(e) => AttributeView::Binding(e@),
            Attribute::BlendSrc(e) => AttributeView::BlendSrc(e@),
            Attribute::Builtin(b) => AttributeView::Builtin(*b),
            Attribute::Const => AttributeView::Const,
            Attribute::Diagnostic { severity, rule } => AttributeView::Diagnostic {
                severity: *severity,
                rule: rule@,
            },
            Attribute::Group(e) => AttributeView::Group(e@),
            Attribute::Id(e) => AttributeView::Id(e@),
            Attribute::Interpolate { ty, sampling } => AttributeView::Interpolate {
                ty: *ty,
                sampling: *sampling,
            },
            Attribute::Invariant => AttributeView::Invariant,
            Attribute::Location(e) => AttributeView::Location(e@),
            Attribute::MustUse => AttributeView::MustUse,
            Attribute::Size(e) => AttributeView::Size(e@),
            Attribute::WorkgroupSize { x, y, z } => AttributeView::WorkgroupSize {
                x: x@,
                y: optional_node(*y),
                z: optional_node(*z),
            },
            Attribute::Vertex => AttributeView::Vertex,
            Attribute::Fragment => AttributeView::Fragment,
            Attribute::Compute => AttributeView::Compute,
            Attribute::If(e) => AttributeView::If(e@),
            Attribute::Custom { name, arguments } => AttributeView::Custom {
                name: name@,
                arguments: match arguments {
                    Some(args) => Some(node_models(args@)),
                    None => None,
                },
            },
        }
    }
}

/// A copy of an expression that may be absent.
pub fn copy_optional_node(node: &Option<ExpressionNode>) -> (copy: Option<ExpressionNode>)
    ensures
        optional_node(copy) == optional_node(*node),
{
    match node {
        Some(n) => Some(n.clone()),
        None => None,
    }
}

/// A copy of a list of attributes.
pub fn copy_attributes(attributes: &Vec<Attribute>) -> (copy: Vec<Attribute>)
    ensures
        views(copy@) == views(attributes@),
{
    let mut copy: Vec<Attribute> = Vec::new();
    let mut i: usize = 0;
    while i < attributes.len()
        invariant
            i <= attributes.len(),
            copy@.len() == i,
            forall|k: int| 0 <= k < i ==> (#[trigger] copy@[k])@ == attributes@[k]@,
        decreases attributes.len() - i,
    {
        copy.push(attributes[i].clone());
        i += 1;
    }
    assert(views(copy@) =~= views(attributes@));
    copy
}

impl Clone for Attribute {
    fn clone(&self) -> (copy: Attribute)
        ensures
            copy@ == self@,
    {
        match self {
            Attribute::Align(e) => Attribute::Align(e.clone()),
            Attribute::Binding(e) => Attribute::Binding(e.clone()),
            Attribute::BlendSrc(e) => Attribute::BlendSrc(e.clone()),
            Attribute::Builtin(b) => Attribute::Builtin(*b),
            Attribute::Const => Attribute::Const,
            Attribute::Diagnostic { severity, rule } => Attribute::Diagnostic {
                severity: *severity,
                rule: rule.clone(),
            },
            Attribute::Group(e) => Attribute::Group(e.clone()),
            Attribute::Id(e) => Attribute::Id(e.clone()),
            Attribute::Interpolate { ty, sampling } => Attribute::Interpolate {
                ty: *ty,
                sampling: *sampling,
            },
            Attribute::Invariant => Attribute::Invariant,
            Attribute::Location(e) => Attribute::Location(e.clone()),
            Attribute::MustUse => Attribute::MustUse,
            Attribute::Size(e) => Attribute::Size(e.clone()),
            Attribute::WorkgroupSize { x, y, z } => Attribute::WorkgroupSize {
                x: x.clone(),
                y: copy_optional_node(y),
                z: copy_optional_node(z),
            },
            Attribute::Vertex => Attribute::Vertex,
            Attribute::Fragment => Attribute::Fragment,
            Attribute::Compute => Attribute::Compute,
            Attribute::If(e) => Attribute::If(e.clone()),
            Attribute::Custom { name, arguments } => Attribute::Custom {
                name: name.clone(),
                arguments: match arguments {
                    Some(args) => Some(copy_nodes(args)),
                    None => None,
                },
            },
        }
    }
}

} // verus!
