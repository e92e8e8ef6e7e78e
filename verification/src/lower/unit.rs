use crate::lower::declaration::{
    bind_alias, bind_attributes, bind_const_assert, bind_declaration, bind_parameters, bind_struct,
    bound_alias, bound_attributes, bound_const_assert, bound_declaration, bound_parameters,
    bound_struct,
};
use crate::lower::expression::{
    bind_optional_type, bound_optional_type, Replacement, ReplacementView,
};
use crate::lower::statement::{bind_body, bound_body};
use crate::model::views;
use crate::syntax::declaration::{GlobalDirective, Import};
use crate::syntax::decorated::Decorated;
use crate::syntax::unit::{
    Function, FunctionView, GlobalDeclaration, GlobalDeclarationView, TranslationUnit,
    TranslationUnitView,
};
use vstd::prelude::*;

verus! {

/// A function with every use of `name` replaced.
pub open spec fn bound_function(
    function: FunctionView,
    name: Seq<char>,
    by: ReplacementView,
) -> FunctionView {
    FunctionView {
        attributes: bound_attributes(function.attributes, name, by),
        parameters: bound_parameters(function.parameters, name, by),
        return_attributes: bound_attributes(function.return_attributes, name, by),
        return_type: bound_optional_type(function.return_type, name, by),
        body: bound_body(function.body, name, by),
        ..function
    }
}

/// A global declaration with every use of `name` replaced. The names that
/// declarations give are left as they are.
pub open spec fn bound_global(
    declaration: GlobalDeclarationView,
    name: Seq<char>,
    by: ReplacementView,
) -> GlobalDeclarationView {
    match declaration {
        GlobalDeclarationView::Declaration(d) => GlobalDeclarationView::Declaration(
            bound_declaration(d, name, by),
        ),
        GlobalDeclarationView::TypeAlias(d) => GlobalDeclarationView::TypeAlias(
            bound_alias(d, name, by),
        ),
        GlobalDeclarationView::Struct(d) => GlobalDeclarationView::Struct(
            bound_struct(d, name, by),
        ),
        GlobalDeclarationView::Function(d) => GlobalDeclarationView::Function(
            bound_function(d, name, by),
        ),
        GlobalDeclarationView::ConstAssert(d) => GlobalDeclarationView::ConstAssert(
            bound_const_assert(d, name, by),
        ),
    }
}

/// A list of global declarations with every use of `name` replaced.
pub open spec fn bound_globals(
    items: Seq<GlobalDeclarationView>,
    name: Seq<char>,
    by: ReplacementView,
) -> Seq<GlobalDeclarationView> {
    Seq::new(items.len(), |i: int| bound_global(items[i], name, by))
}

/// A node with every use of `name` in its attributes replaced.
pub open spec fn bound_decorated<N: Decorated>(
    v: N::V,
    name: Seq<char>,
    by: ReplacementView,
) -> N::V {
    N::with_attributes(v, bound_attributes(N::attributes_of(v), name, by))
}

/// Each node of a list, in its attributes with every use of `name` replaced.
pub open spec fn bound_list<N: Decorated>(
    items: Seq<N::V>,
    name: Seq<char>,
    by: ReplacementView,
) -> Seq<N::V> {
    Seq::new(items.len(), |i: int| bound_decorated::<N>(items[i], name, by))
}

/// A module with every use of `name` replaced by what takes its place:
/// wherever the name stands for a type or a value, in every declaration,
/// statement, expression and attribute of the module.
pub open spec fn bound_unit(
    unit: TranslationUnitView,
    name: Seq<char>,
    by: ReplacementView,
) -> TranslationUnitView {
    TranslationUnitView {
        imports: bound_list::<Import>(unit.imports, name, by),
        global_directives: bound_list::<GlobalDirective>(unit.global_directives, name, by),
        global_declarations: bound_globals(unit.global_declarations, name, by),
    }
}

fn bind_function(function: &mut Function, name: &str, by: &Replacement)
    ensures
        final(function)@ == bound_function(old(function)@, name@, by@),
{
    bind_attributes(&mut function.attributes, name, by);
    bind_parameters(&mut function.parameters, name, by);
    bind_attributes(&mut function.return_attributes, name, by);
    bind_optional_type(&mut function.return_type, name, by);
    bind_body(&mut function.body, name, by);
}

fn bind_global(declaration: &mut GlobalDeclaration, name: &str, by: &Replacement)
    ensures
        final(declaration)@ == bound_global(old(declaration)@, name@, by@),
{
    match declaration {
        GlobalDeclaration::Declaration(d) => bind_declaration(d, name, by),
        GlobalDeclaration::TypeAlias(d) => bind_alias(d, name, by),
        GlobalDeclaration::Struct(d) => bind_struct(d, name, by),
        GlobalDeclaration::Function(d) => bind_function(d, name, by),
        GlobalDeclaration::ConstAssert(d) => bind_const_assert(d, name, by),
    }
}

#[verifier::loop_isolation(false)]
fn bind_globals(items: &mut Vec<GlobalDeclaration>, name: &str, by: &Replacement)
    ensures
        views(final(items)@) == bound_globals(views(old(items)@), name@, by@),
{
    let ghost before = items@;
    let mut i: usize = 0;
    while i < items.len()
        invariant
            i <= items.len(),
            items@.len() == before.len(),
            forall|k: int| i <= k < before.len() ==> items@[k] == before[k],
            forall|k: int|
                0 <= k < i ==> (#[trigger] items@[k])@ == bound_global(before[k]@, name@, by@),
        decreases items.len() - i,
    {
        bind_global(&mut items[i], name, by);
        i += 1;
    }
    assert(views(items@) =~= bound_globals(views(before), name@, by@));
}

#[verifier::loop_isolation(false)]
fn bind_list<N: Decorated>(items: &mut Vec<N>, name: &str, by: &Replacement)
    ensures
        views(final(items)@) == bound_list::<N>(views(old(items)@), name@, by@),
{
    let ghost before = items@;
    let mut i: usize = 0;
    while i < items.len()
        invariant
            i <= items.len(),
            items@.len() == before.len(),
            forall|k: int| i <= k < before.len() ==> items@[k] == before[k],
            forall|k: int|
                0 <= k < i ==> (#[trigger] items@[k])@ == bound_decorated::<N>(
                    before[k]@,
                    name@,
                    by@,
                ),
        decreases items.len() - i,
    {
        bind_attributes(items[i].attributes_mut(), name, by);
        i += 1;
    }
    assert(views(items@) =~= bound_list::<N>(views(before), name@, by@));
}

/// Replaces every use of `name` in a module.
pub fn bind_unit(unit: &mut TranslationUnit, name: &str, by: &Replacement)
    ensures
        final(unit)@ == bound_unit(old(unit)@, name@, by@),
{
    bind_list(&mut unit.imports, name, by);
    bind_list(&mut unit.global_directives, name, by);
    bind_globals(&mut unit.global_declarations, name, by);
}

} // verus!
