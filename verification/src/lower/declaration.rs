use crate::lower::expression::{
    bind_arguments, bind_node, bind_optional, bind_optional_type, bind_type, bound_arguments,
    bound_node, bound_optional, bound_optional_type, bound_type, Replacement, ReplacementView,
};
use crate::model::views;
use crate::syntax::attribute::{Attribute, AttributeView};
use crate::syntax::declaration::{
    ConstAssert, ConstAssertView, Declaration, DeclarationView, FormalParameter,
    FormalParameterView, Struct, StructMember, StructMemberView, StructView, TypeAlias,
    TypeAliasView,
};
use vstd::prelude::*;

verus! {

/// An attribute with every use of `name` in its arguments replaced.
pub open spec fn bound_attribute(
    attribute: AttributeView,
    name: Seq<char>,
    by: ReplacementView,
) -> AttributeView {
    match attribute {
        AttributeView::Align(e) => AttributeView::Align(bound_node(e, name, by)),
        AttributeView::Binding(e) => AttributeView::Binding(bound_node(e, name, by)),
        AttributeView::BlendSrc(e) => AttributeView::BlendSrc(bound_node(e, name, by)),
        AttributeView::Group(e) => AttributeView::Group(bound_node(e, name, by)),
        AttributeView::Id(e) => AttributeView::Id(bound_node(e, name, by)),
        AttributeView::Location(e) => AttributeView::Location(bound_node(e, name, by)),
        AttributeView::Size(e) => AttributeView::Size(bound_node(e, name, by)),
        AttributeView::If(e) => AttributeView::If(bound_node(e, name, by)),
        AttributeView::WorkgroupSize { x, y, z } => AttributeView::WorkgroupSize {
            x: bound_node(x, name, by),
            y: bound_optional(y, name, by),
            z: bound_optional(z, name, by),
        },
        AttributeView::Custom { name: custom, arguments } => AttributeView::Custom {
            name: custom,
            arguments: bound_arguments(arguments, name, by),
        },
        _ => attribute,
    }
}

/// A list of attributes with every use of `name` replaced.
pub open spec fn bound_attributes(
    items: Seq<AttributeView>,
    name: Seq<char>,
    by: ReplacementView,
) -> Seq<AttributeView>
{
    Seq::new(items.len(), |i: int| bound_attribute(items[i], name, by))
}

/// Replaces every use of `name` in an attribute.
pub fn bind_attribute(attribute: &mut Attribute, name: &str, by: &Replacement)
    ensures
        final(attribute)@ == bound_attribute(old(attribute)@, name@, by@),
{
    match attribute {
        Attribute::Align(e) => bind_node(e, name, by),
        Attribute::Binding(e) => bind_node(e, name, by),
        Attribute::BlendSrc(e) => bind_node(e, name, by),
        Attribute::Group(e) => bind_node(e, name, by),
        Attribute::Id(e) => bind_node(e, name, by),
        Attribute::Location(e) => bind_node(e, name, by),
        Attribute::Size(e) => bind_node(e, name, by),
        Attribute::If(e) => bind_node(e, name, by),
        Attribute::WorkgroupSize { x, y, z } => {
            bind_node(x, name, by);
            bind_optional(y, name, by);
            bind_optional(z, name, by);
        },
        Attribute::Custom { arguments, .. } => bind_arguments(arguments, name, by),
        _ => {},
    }
}

/// Replaces every use of `name` in a list of attributes.
#[verifier::loop_isolation(false)]
pub fn bind_attributes(items: &mut Vec<Attribute>, name: &str, by: &Replacement)
    ensures
        views(final(items)@) == bound_attributes(views(old(items)@), name@, by@),
{
    let ghost before = items@;
    let mut i: usize = 0;
    while i < items.len()
        invariant
            i <= items.len(),
            items@.len() == before.len(),
            forall|k: int| i <= k < before.len() ==> items@[k] == before[k],
            forall|k: int|
                0 <= k < i ==> (#[trigger] items@[k])@ == bound_attribute(before[k]@, name@, by@),
        decreases items.len() - i,
    {
        bind_attribute(&mut items[i], name, by);
        i += 1;
    }
    assert(views(items@) =~= bound_attributes(views(before), name@, by@));
}

/// A declaration with every use of `name` replaced.
pub open spec fn bound_declaration(
    declaration: DeclarationView,
    name: Seq<char>,
    by: ReplacementView,
) -> DeclarationView {
    DeclarationView {
        attributes: bound_attributes(declaration.attributes, name, by),
        ty: bound_optional_type(declaration.ty, name, by),
        initializer: bound_optional(declaration.initializer, name, by),
        ..declaration
    }
}

/// Replaces every use of `name` in a declaration.
pub fn bind_declaration(declaration: &mut Declaration, name: &str, by: &Replacement)
    ensures
        final(declaration)@ == bound_declaration(old(declaration)@, name@, by@),
{
    bind_attributes(&mut declaration.attributes, name, by);
    bind_optional_type(&mut declaration.ty, name, by);
    bind_optional(&mut declaration.initializer, name, by);
}

/// A type alias with every use of `name` replaced.
pub open spec fn bound_alias(
    alias: TypeAliasView,
    name: Seq<char>,
    by: ReplacementView,
) -> TypeAliasView {
    TypeAliasView {
        attributes: bound_attributes(alias.attributes, name, by),
        ty: bound_type(alias.ty, name, by),
        ..alias
    }
}

/// Replaces every use of `name` in a type alias.
pub fn bind_alias(alias: &mut TypeAlias, name: &str, by: &Replacement)
    ensures
        final(alias)@ == bound_alias(old(alias)@, name@, by@),
{
    bind_attributes(&mut alias.attributes, name, by);
    bind_type(&mut alias.ty, name, by);
}

/// A struct member with every use of `name` replaced.
pub open spec fn bound_member(
    member: StructMemberView,
    name: Seq<char>,
    by: ReplacementView,
) -> StructMemberView {
    StructMemberView {
        attributes: bound_attributes(member.attributes, name, by),
        ty: bound_type(member.ty, name, by),
        ..member
    }
}

/// Replaces every use of `name` in a struct member.
pub fn bind_member(member: &mut StructMember, name: &str, by: &Replacement)
    ensures
        final(member)@ == bound_member(old(member)@, name@, by@),
{
    bind_attributes(&mut member.attributes, name, by);
    bind_type(&mut member.ty, name, by);
}

/// A list of struct members with every use of `name` replaced.
pub open spec fn bound_members(
    items: Seq<StructMemberView>,
    name: Seq<char>,
    by: ReplacementView,
) -> Seq<StructMemberView>
{
    Seq::new(items.len(), |i: int| bound_member(items[i], name, by))
}

/// Replaces every use of `name` in a list of struct members.
#[verifier::loop_isolation(false)]
pub fn bind_members(items: &mut Vec<StructMember>, name: &str, by: &Replacement)
    ensures
        views(final(items)@) == bound_members(views(old(items)@), name@, by@),
{
    let ghost before = items@;
    let mut i: usize = 0;
    while i < items.len()
        invariant
            i <= items.len(),
            items@.len() == before.len(),
            forall|k: int| i <= k < before.len() ==> items@[k] == before[k],
            forall|k: int|
                0 <= k < i ==> (#[trigger] items@[k])@ == bound_member(before[k]@, name@, by@),
        decreases items.len() - i,
    {
        bind_member(&mut items[i], name, by);
        i += 1;
    }
    assert(views(items@) =~= bound_members(views(before), name@, by@));
}

/// A struct with every use of `name` replaced.
pub open spec fn bound_struct(
    decl: StructView,
    name: Seq<char>,
    by: ReplacementView,
) -> StructView {
    StructView {
        attributes: bound_attributes(decl.attributes, name, by),
        members: bound_members(decl.members, name, by),
        ..decl
    }
}

/// Replaces every use of `name` in a struct.
pub fn bind_struct(decl: &mut Struct, name: &str, by: &Replacement)
    ensures
        final(decl)@ == bound_struct(old(decl)@, name@, by@),
{
    bind_attributes(&mut decl.attributes, name, by);
    bind_members(&mut decl.members, name, by);
}

/// A parameter with every use of `name` replaced.
pub open spec fn bound_parameter(
    parameter: FormalParameterView,
    name: Seq<char>,
    by: ReplacementView,
) -> FormalParameterView {
    FormalParameterView {
        attributes: bound_attributes(parameter.attributes, name, by),
        ty: bound_type(parameter.ty, name, by),
        ..parameter
    }
}

/// Replaces every use of `name` in a parameter.
pub fn bind_parameter(parameter: &mut FormalParameter, name: &str, by: &Replacement)
    ensures
        final(parameter)@ == bound_parameter(old(parameter)@, name@, by@),
{
    bind_attributes(&mut parameter.attributes, name, by);
    bind_type(&mut parameter.ty, name, by);
}

/// A list of parameters with every use of `name` replaced.
pub open spec fn bound_parameters(
    items: Seq<FormalParameterView>,
    name: Seq<char>,
    by: ReplacementView,
) -> Seq<FormalParameterView>
{
    Seq::new(items.len(), |i: int| bound_parameter(items[i], name, by))
}

/// Replaces every use of `name` in a list of parameters.
#[verifier::loop_isolation(false)]
pub fn bind_parameters(items: &mut Vec<FormalParameter>, name: &str, by: &Replacement)
    ensures
        views(final(items)@) == bound_parameters(views(old(items)@), name@, by@),
{
    let ghost before = items@;
    let mut i: usize = 0;
    while i < items.len()
        invariant
            i <= items.len(),
            items@.len() == before.len(),
            forall|k: int| i <= k < before.len() ==> items@[k] == before[k],
            forall|k: int|
                0 <= k < i ==> (#[trigger] items@[k])@ == bound_parameter(before[k]@, name@, by@),
        decreases items.len() - i,
    {
        bind_parameter(&mut items[i], name, by);
        i += 1;
    }
    assert(views(items@) =~= bound_parameters(views(before), name@, by@));
}

/// An assertion with every use of `name` replaced.
pub open spec fn bound_const_assert(
    assertion: ConstAssertView,
    name: Seq<char>,
    by: ReplacementView,
) -> ConstAssertView {
    ConstAssertView {
        attributes: bound_attributes(assertion.attributes, name, by),
        expression: bound_node(assertion.expression, name, by),
    }
}

/// Replaces every use of `name` in an assertion.
pub fn bind_const_assert(assertion: &mut ConstAssert, name: &str, by: &Replacement)
    ensures
        final(assertion)@ == bound_const_assert(old(assertion)@, name@, by@),
{
    bind_attributes(&mut assertion.attributes, name, by);
    bind_node(&mut assertion.expression, name, by);
}

} // verus!
