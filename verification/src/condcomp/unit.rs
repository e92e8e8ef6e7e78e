use crate::condcomp::fold::Flags;
use crate::condcomp::prune::{eval_if_attributes, pruned_list, Diagnostic, DiagnosticView};
use crate::condcomp::traverse::{
    lemma_statement_models, pruned_statements, statement_eval_if_attributes, traversed,
};
use crate::model::views;
use crate::sweep::{sweep_unit, swept_unit, Sweep};
use crate::syntax::declaration::{
    FormalParameter, GlobalDirective, Import, StructMember, StructView,
};
use crate::syntax::statement::CompoundStatementView;
use crate::syntax::unit::{
    FunctionView, GlobalDeclaration, GlobalDeclarationView, TranslationUnit, TranslationUnitView,
};
use std::collections::HashMap;
use vstd::prelude::*;

verus! {

/// A diagnostic with `name` as the declaration it arose in.
pub open spec fn tagged(d: DiagnosticView, name: Seq<char>) -> DiagnosticView {
    DiagnosticView { declaration: Some(name), ..d }
}

/// A declaration with its members pruned, where it is a struct. An error
/// carries the struct's name.
pub open spec fn pruned_struct(declaration: GlobalDeclarationView, flags: Flags) -> Result<
    GlobalDeclarationView,
    DiagnosticView,
> {
    match declaration {
        GlobalDeclarationView::Struct(s) => match pruned_list::<StructMember>(s.members, flags) {
            Err(d) => Err(tagged(d, s.name)),
            Ok(members) => Ok(GlobalDeclarationView::Struct(StructView { members, ..s })),
        },
        _ => Ok(declaration),
    }
}

/// A declaration with its parameters pruned, then its body, where it is a
/// function. An error carries the function's name.
pub open spec fn pruned_function(declaration: GlobalDeclarationView, flags: Flags) -> Result<
    GlobalDeclarationView,
    DiagnosticView,
> {
    match declaration {
        GlobalDeclarationView::Function(f) => match pruned_list::<FormalParameter>(
            f.parameters,
            flags,
        ) {
            Err(d) => Err(tagged(d, f.name)),
            Ok(parameters) => match pruned_statements(f.body.statements, flags) {
                Err(d) => Err(tagged(d, f.name)),
                Ok(statements) => Ok(
                    GlobalDeclarationView::Function(
                        FunctionView {
                            parameters,
                            body: CompoundStatementView { statements, ..f.body },
                            ..f
                        },
                    ),
                ),
            },
        },
        _ => Ok(declaration),
    }
}

/// The first `n` declarations, the members of each struct among them pruned.
pub open spec fn each_struct(
    declarations: Seq<GlobalDeclarationView>,
    n: nat,
    flags: Flags,
) -> Result<Seq<GlobalDeclarationView>, DiagnosticView>
    decreases n,
{
    if n == 0 || n > declarations.len() {
        Ok(Seq::empty())
    } else {
        match each_struct(declarations, (n - 1) as nat, flags) {
            Err(d) => Err(d),
            Ok(front) => match pruned_struct(declarations[n - 1], flags) {
                Err(d) => Err(d),
                Ok(s) => Ok(front.push(s)),
            },
        }
    }
}

/// The first `n` declarations, each function among them pruned.
pub open spec fn each_function(
    declarations: Seq<GlobalDeclarationView>,
    n: nat,
    flags: Flags,
) -> Result<Seq<GlobalDeclarationView>, DiagnosticView>
    decreases n,
{
    if n == 0 || n > declarations.len() {
        Ok(Seq::empty())
    } else {
        match each_function(declarations, (n - 1) as nat, flags) {
            Err(d) => Err(d),
            Ok(front) => match pruned_function(declarations[n - 1], flags) {
                Err(d) => Err(d),
                Ok(s) => Ok(front.push(s)),
            },
        }
    }
}

/// What the pruning pass makes of a module. Imports, directives and
/// declarations are pruned by their conditions, in this order; then the
/// members of every struct that is kept; then the parameters and the body of
/// every function that is kept. The first error ends the pass.
pub open spec fn pruned_unit(unit: TranslationUnitView, flags: Flags) -> Result<
    TranslationUnitView,
    DiagnosticView,
> {
    match pruned_list::<Import>(unit.imports, flags) {
        Err(d) => Err(d),
        Ok(imports) => match pruned_list::<GlobalDirective>(unit.global_directives, flags) {
            Err(d) => Err(d),
            Ok(global_directives) => match pruned_list::<GlobalDeclaration>(
                unit.global_declarations,
                flags,
            ) {
                Err(d) => Err(d),
                Ok(kept) => match each_struct(kept, kept.len(), flags) {
                    Err(d) => Err(d),
                    Ok(with_structs) => match each_function(
                        with_structs,
                        with_structs.len(),
                        flags,
                    ) {
                        Err(d) => Err(d),
                        Ok(global_declarations) => Ok(
                            TranslationUnitView { imports, global_directives, global_declarations },
                        ),
                    },
                },
            },
        }
    }
}

/// What conditional compilation makes of a module: the module pruned, and
/// then every `if` attribute that folded to `true` taken away.
pub open spec fn compiled(unit: TranslationUnitView, flags: Flags) -> Result<
    TranslationUnitView,
    DiagnosticView,
> {
    match pruned_unit(unit, flags) {
        Err(d) => Err(d),
        Ok(pruned) => Ok(swept_unit(pruned, Sweep::ResolvedConditions)),
    }
}

/// An error among the first `n` declarations is the error of every longer part of the list.
pub proof fn lemma_each_struct_error(
    declarations: Seq<GlobalDeclarationView>,
    n: nat,
    m: nat,
    flags: Flags,
)
    requires
        n <= m <= declarations.len(),
        each_struct(declarations, n, flags) is Err,
    ensures
        each_struct(declarations, m, flags) == each_struct(declarations, n, flags),
    decreases m,
{
    if n < m {
        lemma_each_struct_error(declarations, n, (m - 1) as nat, flags);
    }
}

/// An error among the first `n` declarations is the error of every longer part of the list.
pub proof fn lemma_each_function_error(
    declarations: Seq<GlobalDeclarationView>,
    n: nat,
    m: nat,
    flags: Flags,
)
    requires
        n <= m <= declarations.len(),
        each_function(declarations, n, flags) is Err,
    ensures
        each_function(declarations, m, flags) == each_function(declarations, n, flags),
    decreases m,
{
    if n < m {
        lemma_each_function_error(declarations, n, (m - 1) as nat, flags);
    }
}

/// Prunes the members of a struct.
fn prune_struct(
    declaration: &mut GlobalDeclaration,
    features: &HashMap<String, bool>,
) -> (result: Result<(), Diagnostic>)
    ensures
        pruned_struct(old(declaration)@, features.deep_view()) == traversed(
            result,
            final(declaration)@,
        ),
{
    match declaration {
        GlobalDeclaration::Struct(s) => match eval_if_attributes(&mut s.members, features) {
            Err(d) => Err(d.with_declaration(s.name.clone())),
            Ok(()) => Ok(()),
        },
        _ => Ok(()),
    }
}

/// Prunes the parameters and the body of a function.
fn prune_function(
    declaration: &mut GlobalDeclaration,
    features: &HashMap<String, bool>,
) -> (result: Result<(), Diagnostic>)
    ensures
        pruned_function(old(declaration)@, features.deep_view()) == traversed(
            result,
            final(declaration)@,
        ),
{
    match declaration {
        GlobalDeclaration::Function(f) => {
            match eval_if_attributes(&mut f.parameters, features) {
                Err(d) => {
                    return Err(d.with_declaration(f.name.clone()));
                },
                Ok(()) => {},
            }
            proof {
                lemma_statement_models(f.body.statements@);
            }
            match statement_eval_if_attributes(&mut f.body.statements, features) {
                Err(d) => {
                    return Err(d.with_declaration(f.name.clone()));
                },
                Ok(()) => {},
            }
            proof {
                lemma_statement_models(f.body.statements@);
            }
            Ok(())
        },
        _ => Ok(()),
    }
}

/// The pruning pass over a module.
#[verifier::loop_isolation(false)]
pub fn prune(wesl: &mut TranslationUnit, features: &HashMap<String, bool>) -> (result: Result<
    (),
    Diagnostic,
>)
    ensures
        pruned_unit(old(wesl)@, features.deep_view()) == traversed(result, final(wesl)@),
{
    let ghost flags = features.deep_view();
    match eval_if_attributes(&mut wesl.imports, features) {
        Err(d) => {
            return Err(d);
        },
        Ok(()) => {},
    }
    match eval_if_attributes(&mut wesl.global_directives, features) {
        Err(d) => {
            return Err(d);
        },
        Ok(()) => {},
    }
    match eval_if_attributes(&mut wesl.global_declarations, features) {
        Err(d) => {
            return Err(d);
        },
        Ok(()) => {},
    }
    let ghost kept = views(wesl.global_declarations@);
    let ghost imports = views(wesl.imports@);
    let ghost directives = views(wesl.global_directives@);
    let mut i: usize = 0;
    assert(views(wesl.global_declarations@).subrange(0, 0) =~= Seq::<
        GlobalDeclarationView,
    >::empty());
    while i < wesl.global_declarations.len()
        invariant
            i <= wesl.global_declarations.len(),
            views(wesl.imports@) == imports,
            views(wesl.global_directives@) == directives,
            wesl.global_declarations@.len() == kept.len(),
            forall|k: int|
                i <= k < kept.len() ==> (#[trigger] wesl.global_declarations@[k])@ == kept[k],
            each_struct(kept, i as nat, flags) == Ok::<Seq<GlobalDeclarationView>, DiagnosticView>(
                views(wesl.global_declarations@).subrange(0, i as int),
            ),
        decreases wesl.global_declarations.len() - i,
    {
        let ghost done = views(wesl.global_declarations@).subrange(0, i as int);
        match prune_struct(&mut wesl.global_declarations[i], features) {
            Err(d) => {
                proof {
                    lemma_each_struct_error(kept, (i + 1) as nat, kept.len(), flags);
                }
                return Err(d);
            },
            Ok(()) => {},
        }
        assert(views(wesl.global_declarations@).subrange(0, i + 1) =~= done.push(
            wesl.global_declarations@[i as int]@,
        ));
        i += 1;
    }
    assert(views(wesl.global_declarations@).subrange(0, i as int) =~= views(
        wesl.global_declarations@,
    ));
    let ghost with_structs = views(wesl.global_declarations@);
    let mut j: usize = 0;
    assert(views(wesl.global_declarations@).subrange(0, 0) =~= Seq::<
        GlobalDeclarationView,
    >::empty());
    while j < wesl.global_declarations.len()
        invariant
            j <= wesl.global_declarations.len(),
            views(wesl.imports@) == imports,
            views(wesl.global_directives@) == directives,
            wesl.global_declarations@.len() == with_structs.len(),
            forall|k: int|
                j <= k < with_structs.len() ==> (#[trigger] wesl.global_declarations@[k])@
                    == with_structs[k],
            each_function(with_structs, j as nat, flags) == Ok::<
                Seq<GlobalDeclarationView>,
                DiagnosticView,
            >(views(wesl.global_declarations@).subrange(0, j as int)),
        decreases wesl.global_declarations.len() - j,
    {
        let ghost done = views(wesl.global_declarations@).subrange(0, j as int);
        match prune_function(&mut wesl.global_declarations[j], features) {
            Err(d) => {
                proof {
                    lemma_each_function_error(
                        with_structs,
                        (j + 1) as nat,
                        with_structs.len(),
                        flags,
                    );
                }
                return Err(d);
            },
            Ok(()) => {},
        }
        assert(views(wesl.global_declarations@).subrange(0, j + 1) =~= done.push(
            wesl.global_declarations@[j as int]@,
        ));
        j += 1;
    }
    assert(views(wesl.global_declarations@).subrange(0, j as int) =~= views(
        wesl.global_declarations@,
    ));
    Ok(())
}

/// Conditional compilation of a module against the feature flags: every
/// `if` attribute is folded, what folds to `false` is pruned with all it
/// holds, and the `if` attributes that folded to `true` are taken away.
/// Conditions that still depend on an unknown flag stay, folded as far as
/// the known flags allow.
///
/// On an error the module is left partly pruned and is of no further use.
pub fn run(wesl: &mut TranslationUnit, features: &HashMap<String, bool>) -> (result: Result<
    (),
    Diagnostic,
>)
    ensures
        compiled(old(wesl)@, features.deep_view()) == traversed(result, final(wesl)@),
{
    match prune(wesl, features) {
        Err(d) => {
            return Err(d);
        },
        Ok(()) => {},
    }
    sweep_unit(wesl, Sweep::ResolvedConditions);
    Ok(())
}

} // verus!
