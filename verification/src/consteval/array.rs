use crate::consteval::error::{ConstEvalError, ConstEvalErrorView};
use crate::consteval::instance::{
    component_models, has_type, type_of_value, ArrayInstance, Instance, InstanceView,
};
use crate::consteval::ty::Type;
use itertools::Itertools;
use vstd::prelude::*;

verus! {

/// Whether the components of an array go together: the type of each can be
/// read off, and all are of one type.
pub open spec fn uniform(components: Seq<InstanceView>) -> bool {
    &&& forall|i: int| 0 <= i < components.len() ==> has_type(#[trigger] components[i])
    &&& forall|i: int, j: int|
        0 <= i < components.len() && 0 <= j < components.len() ==> type_of_value(components[i])
            == type_of_value(components[j])
}

/// `Itertools::all_equal` on the types of a list: whether every type of the
/// list is the same as every other; it is so for a list without types. The
/// types are compared with `==`, which `Type` defines to hold of the same
/// types and of no others.
#[verifier::external_body]
fn all_equal(types: &Vec<Type>) -> (equal: bool)
    ensures
        equal == (forall|i: int, j: int|
            0 <= i < types@.len() && 0 <= j < types@.len() ==> types@[i]@ == types@[j]@),
{
    types.iter().all_equal()
}

impl ArrayInstance {
    /// An array of the given components, which must all be of one type. An
    /// array without components is accepted.
    pub fn new(components: Vec<Instance>) -> (result: Result<ArrayInstance, ConstEvalError>)
        ensures
            match result {
                Ok(array) => array.components == components && uniform(array@),
                Err(e) => e@ == ConstEvalErrorView::ComponentTypes && !uniform(
                    component_models(components@),
                ),
            },
    {
        let ghost models = component_models(components@);
        let mut types: Vec<Type> = Vec::new();
        let mut i: usize = 0;
        while i < components.len()
            invariant
                i <= components.len(),
                models == component_models(components@),
                types@.len() == i,
                forall|k: int| 0 <= k < i ==> has_type(#[trigger] models[k]),
                forall|k: int| 0 <= k < i ==> (#[trigger] types@[k])@ == type_of_value(models[k]),
            decreases components.len() - i,
        {
            assert(models[i as int] == components@[i as int].model());
            if !components[i].is_typed() {
                return Err(ConstEvalError::ComponentTypes);
            }
            types.push(components[i].derive_type());
            i += 1;
        }
        if all_equal(&types) {
            assert forall|i: int, j: int|
                0 <= i < models.len() && 0 <= j < models.len() implies type_of_value(models[i])
                == type_of_value(models[j]) by {
                assert(types@[i]@ == types@[j]@);
            }
            Ok(ArrayInstance { components })
        } else {
            Err(ConstEvalError::ComponentTypes)
        }
    }
}

} // verus!
