use crate::consteval::instance::{
    is_member_at, lemma_member_unique, member_position, replaced, resolve, InstanceView,
    PtrInstance, RefInstance,
};
use crate::consteval::memory::{narrowed, SlotView};
use crate::consteval::ty::TypeView;
use crate::consteval::view::Step;
use vstd::prelude::*;
use vstd::std_specs::convert::FromSpec;

verus! {

/// A path with one more step leads to where that step leads from where the
/// path led.
pub proof fn lemma_resolve_push(value: InstanceView, path: Seq<Step>, step: Step)
    ensures
        resolve(value, path.push(step)) == match resolve(value, path) {
            Some(part) => resolve(part, seq![step]),
            None => None,
        },
    decreases path.len(),
{
    reveal_with_fuel(resolve, 2);
    if path.len() == 0 {
        assert(path.push(step) =~= seq![step]);
        assert(seq![step].skip(1) =~= Seq::<Step>::empty());
    } else {
        assert(path.push(step)[0] == path[0]);
        assert(path.push(step).skip(1) =~= path.skip(1).push(step));
        match (path[0], value) {
            (Step::Member(name), InstanceView::Struct { components, .. }) => {
                match member_position(components, name) {
                    Some(i) => {
                        lemma_resolve_push(components[i].1, path.skip(1), step);
                    },
                    None => {},
                }
            },
            (Step::Index(i), InstanceView::Array(components)) => {
                if i < components.len() {
                    lemma_resolve_push(components[i as int], path.skip(1), step);
                }
            },
            _ => {},
        }
    }
}

/// A reference cannot be narrowed by a step that does not fit what it
/// refers to: there is no position in what is not an array, and no member in
/// what is not a struct.
pub proof fn lemma_narrowing_fits(
    memory: Seq<SlotView>,
    ptr: usize,
    path: Seq<Step>,
    index: usize,
    member: Seq<char>,
)
    requires
        ptr < memory.len(),
    ensures
        match resolve(memory[ptr as int].value, path) {
            Some(part) => {
                &&& !(part is Array) ==> narrowed(memory, ptr, path.push(Step::Index(index)))
                    is None
                &&& !(part is Struct) ==> narrowed(memory, ptr, path.push(Step::Member(member)))
                    is None
            },
            None => {
                &&& narrowed(memory, ptr, path.push(Step::Index(index))) is None
                &&& narrowed(memory, ptr, path.push(Step::Member(member))) is None
            },
        },
{
    reveal_with_fuel(resolve, 2);
    lemma_resolve_push(memory[ptr as int].value, path, Step::Index(index));
    lemma_resolve_push(memory[ptr as int].value, path, Step::Member(member));
}

/// An array, a vector or a matrix is abstract exactly where the type of its
/// components is.
pub proof fn lemma_abstract_composite(ty: TypeView)
    requires
        ty is Array || ty is Vec || ty is Mat,
    ensures
        ty.is_abstract() == ty.inner().is_abstract(),
{
}

/// Giving a member another value leaves every member where it stood.
proof fn lemma_position_kept(
    components: Seq<(Seq<char>, InstanceView)>,
    i: int,
    value: InstanceView,
    name: Seq<char>,
)
    requires
        0 <= i < components.len(),
    ensures
        member_position(components.update(i, (components[i].0, value)), name) == member_position(
            components,
            name,
        ),
{
    let updated = components.update(i, (components[i].0, value));
    assert forall|k: int| is_member_at(components, name, k) == is_member_at(
        updated,
        name,
        k,
    ) by {
        if is_member_at(components, name, k) {
            assert forall|j: int| 0 <= j < k implies (#[trigger] updated[j]).0 != name by {
                assert(components[j].0 != name);
            }
        }
        if is_member_at(updated, name, k) {
            assert forall|j: int| 0 <= j < k implies (#[trigger] components[j]).0 != name by {
                assert(updated[j].0 != name);
            }
        }
    }
    if exists|k: int| is_member_at(components, name, k) {
        let k = choose|k: int| is_member_at(components, name, k);
        lemma_member_unique(updated, name, k);
    } else {
        assert forall|k: int| !is_member_at(updated, name, k) by {
            assert(!is_member_at(components, name, k));
        }
    }
}

/// What is written to where a path leads is what the path leads to
/// afterwards.
pub proof fn lemma_read_after_write(value: InstanceView, path: Seq<Step>, part: InstanceView)
    requires
        resolve(value, path) is Some,
    ensures
        resolve(replaced(value, path, part), path) == Some(part),
    decreases path.len(),
{
    reveal_with_fuel(resolve, 2);
    reveal_with_fuel(replaced, 2);
    if path.len() > 0 {
        match (path[0], value) {
            (Step::Member(name), InstanceView::Struct { components, .. }) => {
                let i = member_position(components, name)->Some_0;
                let inner = replaced(components[i].1, path.skip(1), part);
                lemma_read_after_write(components[i].1, path.skip(1), part);
                lemma_position_kept(components, i, inner, name);
            },
            (Step::Index(i), InstanceView::Array(components)) => {
                lemma_read_after_write(components[i as int], path.skip(1), part);
            },
            _ => {},
        }
    }
}

/// A pointer made of a reference, made a reference again, is the reference
/// it was made of; and the other way round.
pub proof fn lemma_pointer_round_trip(r: RefInstance, p: PtrInstance)
    ensures
        RefInstance::from_spec(PtrInstance::from_spec(r)) == r,
        PtrInstance::from_spec(RefInstance::from_spec(p)) == p,
{
}

} // verus!
