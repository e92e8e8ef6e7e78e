use crate::condcomp::prune::Diagnostic;
use crate::lower::expression::{Replacement, ReplacementView};
use crate::lower::unit::{bind_unit, bound_global, bound_unit};
use crate::model::views;
use crate::sweep::{sweep_unit, swept_declaration, swept_unit, Sweep};
use crate::syntax::declaration::{Declaration, DeclarationKind, ImportView, TypeAlias};
use crate::syntax::unit::{
    GlobalDeclaration, GlobalDeclarationView, TranslationUnit, TranslationUnitView,
};
use vstd::prelude::*;

verus! {

/// The kind of declaration that a pass takes out of a module.
#[derive(Clone, Copy, Debug, PartialEq, Eq, Structural)]
pub enum Taken {
    TypeAliases,
    Constants,
}

impl Taken {
    /// Whether the pass takes a declaration away.
    pub open spec fn takes(self, declaration: GlobalDeclarationView) -> bool {
        match self {
            Taken::TypeAliases => declaration is TypeAlias,
            Taken::Constants => declaration matches GlobalDeclarationView::Declaration(d) && d.kind
                == DeclarationKind::Const,
        }
    }

    fn take(&self, declaration: &GlobalDeclaration) -> (taken: bool)
        ensures
            taken == self.takes(declaration@),
    {
        match self {
            Taken::TypeAliases => match declaration {
                GlobalDeclaration::TypeAlias(_) => true,
                _ => false,
            },
            Taken::Constants => match declaration {
                GlobalDeclaration::Declaration(d) => match d.kind {
                    DeclarationKind::Const => true,
                    _ => false,
                },
                _ => false,
            },
        }
    }
}

/// `i` is where the first declaration stands that the pass takes away.
pub open spec fn is_next(declarations: Seq<GlobalDeclarationView>, pass: Taken, i: int) -> bool {
    &&& 0 <= i < declarations.len()
    &&& pass.takes(declarations[i])
    &&& forall|j: int| 0 <= j < i ==> !pass.takes(#[trigger] declarations[j])
}

/// The position of the first declaration that the pass takes away.
pub open spec fn next(declarations: Seq<GlobalDeclarationView>, pass: Taken) -> Option<int> {
    if exists|i: int| is_next(declarations, pass, i) {
        Some(choose|i: int| is_next(declarations, pass, i))
    } else {
        None
    }
}

proof fn lemma_next_unique(declarations: Seq<GlobalDeclarationView>, pass: Taken, i: int)
    requires
        is_next(declarations, pass, i),
    ensures
        next(declarations, pass) == Some(i),
{
    let k = choose|k: int| is_next(declarations, pass, k);
    if k < i {
        assert(!pass.takes(declarations[k]));
    } else if i < k {
        assert(!pass.takes(declarations[i]));
    }
}

/// The declarations without the one at position `i`: the last declaration
/// takes its place.
pub open spec fn taken_out(declarations: Seq<GlobalDeclarationView>, i: int) -> Seq<
    GlobalDeclarationView,
> {
    declarations.update(i, declarations.last()).drop_last()
}

/// What takes the place of the name that a declaration gives: for an alias
/// the type it stands for, for a constant its initializer. There is none for
/// a constant without an initializer, and for other declarations.
pub open spec fn definition(declaration: GlobalDeclarationView) -> Option<
    (Seq<char>, ReplacementView),
> {
    match declaration {
        GlobalDeclarationView::TypeAlias(alias) => Some(
            (alias.name, ReplacementView::Type(alias.ty)),
        ),
        GlobalDeclarationView::Declaration(d) => match d.initializer {
            Some(value) => Some((d.name, ReplacementView::Value(value))),
            None => None,
        },
        _ => None,
    }
}

/// A module without the declarations that a pass takes away. One after the
/// other, the first such declaration is taken out of the module, and every
/// use of its name in what is left is replaced by what the declaration
/// defines.
pub open spec fn without(unit: TranslationUnitView, pass: Taken) -> TranslationUnitView
    decreases unit.global_declarations.len(),
{
    match next(unit.global_declarations, pass) {
        None => unit,
        Some(i) => {
            let rest = TranslationUnitView {
                global_declarations: taken_out(unit.global_declarations, i),
                ..unit
            };
            match definition(unit.global_declarations[i]) {
                Some((name, by)) => without(bound_unit(rest, name, by), pass),
                None => without(rest, pass),
            }
        },
    }
}

/// Every constant of the module has an initializer.
pub open spec fn initialized(unit: TranslationUnitView) -> bool {
    forall|i: int|
        0 <= i < unit.global_declarations.len() && Taken::Constants.takes(
            #[trigger] unit.global_declarations[i],
        ) ==> unit.global_declarations[i]->Declaration_0.initializer is Some
}

/// Takes the first declaration that the pass takes away out of the module.
fn take_next(wesl: &mut TranslationUnit, pass: &Taken) -> (taken: Option<GlobalDeclaration>)
    ensures
        match taken {
            Some(declaration) => {
                &&& next(old(wesl)@.global_declarations, *pass) matches Some(i)
                &&& declaration@ == old(wesl)@.global_declarations[i]
                &&& final(wesl)@ == (TranslationUnitView {
                    global_declarations: taken_out(old(wesl)@.global_declarations, i),
                    ..old(wesl)@
                })
            },
            None => {
                &&& next(old(wesl)@.global_declarations, *pass) is None
                &&& *final(wesl) == *old(wesl)
            },
        },
{
    let ghost declarations = wesl@.global_declarations;
    let mut i: usize = 0;
    while i < wesl.global_declarations.len()
        invariant
            i <= wesl.global_declarations.len(),
            *wesl == *old(wesl),
            declarations == wesl@.global_declarations,
            forall|j: int| 0 <= j < i ==> !pass.takes(#[trigger] declarations[j]),
        decreases wesl.global_declarations.len() - i,
    {
        if pass.take(&wesl.global_declarations[i]) {
            proof {
                lemma_next_unique(declarations, *pass, i as int);
            }
            let declaration = wesl.global_declarations.swap_remove(i);
            assert(views(wesl.global_declarations@) =~= taken_out(declarations, i as int));
            return Some(declaration);
        }
        i += 1;
    }
    None
}

/// Takes the declarations of one kind out of a module, and replaces the uses
/// of their names.
fn remove(wesl: &mut TranslationUnit, pass: Taken)
    requires
        pass is Constants ==> initialized(old(wesl)@),
    ensures
        final(wesl)@ == without(old(wesl)@, pass),
        initialized(old(wesl)@) ==> initialized(final(wesl)@),
{
    loop
        invariant
            without(wesl@, pass) == without(old(wesl)@, pass),
            pass is Constants ==> initialized(wesl@),
            initialized(old(wesl)@) ==> initialized(wesl@),
        ensures
            wesl@ == without(old(wesl)@, pass),
            initialized(old(wesl)@) ==> initialized(wesl@),
        decreases wesl.global_declarations.len(),
    {
        let ghost before = wesl@;
        match take_next(wesl, &pass) {
            None => {
                break ;
            },
            Some(declaration) => {
                let ghost rest = wesl@;
                proof {
                    lemma_taken_out_initialized(
                        before,
                        next(before.global_declarations, pass)->Some_0,
                    );
                }
                match declaration {
                    GlobalDeclaration::TypeAlias(alias) => {
                        let by = Replacement::Type(alias.ty);
                        bind_unit(wesl, alias.name.as_str(), &by);
                        proof {
                            lemma_bound_initialized(rest, alias.name@, by@);
                        }
                    },
                    GlobalDeclaration::Declaration(d) => match d.initializer {
                        Some(value) => {
                            let by = Replacement::Value(value);
                            bind_unit(wesl, d.name.as_str(), &by);
                            proof {
                                lemma_bound_initialized(rest, d.name@, by@);
                            }
                        },
                        None => {},
                    },
                    _ => {},
                }
                assert(rest.global_declarations.len() == before.global_declarations.len() - 1);
                assert(wesl@.global_declarations.len() == rest.global_declarations.len());
            },
        }
    }
}

/// Taking a declaration out of a module leaves the constants that remain
/// with their initializers.
proof fn lemma_taken_out_initialized(unit: TranslationUnitView, i: int)
    requires
        0 <= i < unit.global_declarations.len(),
    ensures
        initialized(unit) ==> initialized(
            TranslationUnitView {
                global_declarations: taken_out(unit.global_declarations, i),
                ..unit
            },
        ),
{
    let rest = taken_out(unit.global_declarations, i);
    if initialized(unit) {
        assert forall|k: int|
            0 <= k < rest.len() && Taken::Constants.takes(
                #[trigger] rest[k],
            ) implies rest[k]->Declaration_0.initializer is Some by {
            if k == i {
                assert(rest[k] == unit.global_declarations[unit.global_declarations.len() - 1]);
            } else {
                assert(rest[k] == unit.global_declarations[k]);
            }
        }
    }
}

/// Replacing a name leaves every constant with an initializer.
proof fn lemma_bound_initialized(unit: TranslationUnitView, name: Seq<char>, by: ReplacementView)
    ensures
        initialized(unit) ==> initialized(bound_unit(unit, name, by)),
{
    let bound = bound_unit(unit, name, by).global_declarations;
    if initialized(unit) {
        assert forall|k: int|
            0 <= k < bound.len() && Taken::Constants.takes(
                #[trigger] bound[k],
            ) implies bound[k]->Declaration_0.initializer is Some by {
            assert(bound[k] == bound_global(unit.global_declarations[k], name, by));
            assert(Taken::Constants.takes(unit.global_declarations[k]));
        }
    }
}

/// Takes every type alias out of a module: each use of an alias becomes the
/// type that the alias stands for.
pub fn remove_type_aliases(wesl: &mut TranslationUnit)
    ensures
        final(wesl)@ == without(old(wesl)@, Taken::TypeAliases),
        initialized(old(wesl)@) ==> initialized(final(wesl)@),
{
    remove(wesl, Taken::TypeAliases);
}

/// Takes every constant out of a module: each use of a constant becomes its
/// initializer, in parentheses. Every constant must have an initializer.
pub fn remove_global_consts(wesl: &mut TranslationUnit)
    requires
        initialized(old(wesl)@),
    ensures
        final(wesl)@ == without(old(wesl)@, Taken::Constants),
{
    remove(wesl, Taken::Constants);
}

/// Whether every constant of the module has an initializer.
pub fn consts_initialized(wesl: &TranslationUnit) -> (all: bool)
    ensures
        all == initialized(wesl@),
{
    let mut i: usize = 0;
    while i < wesl.global_declarations.len()
        invariant
            i <= wesl.global_declarations.len(),
            forall|k: int|
                0 <= k < i && Taken::Constants.takes(
                    #[trigger] wesl@.global_declarations[k],
                ) ==> wesl@.global_declarations[k]->Declaration_0.initializer is Some,
        decreases wesl.global_declarations.len() - i,
    {
        match &wesl.global_declarations[i] {
            GlobalDeclaration::Declaration(d) => match d.kind {
                DeclarationKind::Const => {
                    if d.initializer.is_none() {
                        assert(Taken::Constants.takes(wesl@.global_declarations[i as int]));
                        return false;
                    }
                },
                _ => {},
            },
            _ => {},
        }
        i += 1;
    }
    true
}

/// What lowering makes of a module: the imports are gone, as are the custom
/// attributes named `generic`, the type aliases and the constants.
pub open spec fn lowered(unit: TranslationUnitView) -> TranslationUnitView {
    without(
        without(
            swept_unit(
                TranslationUnitView { imports: Seq::empty(), ..unit },
                Sweep::GenericMarkers,
            ),
            Taken::TypeAliases,
        ),
        Taken::Constants,
    )
}

/// Sweeping attributes leaves every constant with its initializer.
proof fn lemma_swept_initialized(unit: TranslationUnitView, rule: Sweep)
    ensures
        initialized(unit) ==> initialized(swept_unit(unit, rule)),
{
    let swept = swept_unit(unit, rule).global_declarations;
    if initialized(unit) {
        assert forall|k: int|
            0 <= k < swept.len() && Taken::Constants.takes(
                #[trigger] swept[k],
            ) implies swept[k]->Declaration_0.initializer is Some by {
            assert(swept[k] == swept_declaration(unit.global_declarations[k], rule));
            assert(Taken::Constants.takes(unit.global_declarations[k]));
        }
    }
}

/// Makes the final syntax tree ready for what comes after: the imports are
/// cleared, the custom attributes named `generic` are taken away, and the
/// type aliases and the constants are replaced by what they stand for.
/// Every constant of the module must have an initializer.
///
/// The names in `_keep` are not looked at.
pub fn lower(wesl: &mut TranslationUnit, _keep: &[String]) -> (result: Result<(), Diagnostic>)
    requires
        initialized(old(wesl)@),
    ensures
        result is Ok,
        final(wesl)@ == lowered(old(wesl)@),
{
    wesl.imports.clear();
    assert(views(wesl.imports@) =~= Seq::<ImportView>::empty());
    let ghost cleared = wesl@;
    sweep_unit(wesl, Sweep::GenericMarkers);
    proof {
        lemma_swept_initialized(cleared, Sweep::GenericMarkers);
    }
    remove_type_aliases(wesl);
    remove_global_consts(wesl);
    Ok(())
}

} // verus!
