use crate::consteval::instance::{
    ArrayInstance, Instance, PtrInstance, RefInstance, StructInstance,
};
use crate::consteval::literal::LiteralInstance;
use crate::consteval::matrix::MatInstance;
use crate::consteval::ty::Type;
use crate::consteval::vector::{Vec2, Vec3, Vec4, VecInstance};
use vstd::prelude::*;
use vstd::std_specs::convert::FromSpecImpl;

verus! {

impl From<LiteralInstance> for Instance {
    fn from(value: LiteralInstance) -> (made: Instance) {
        Instance::Literal(value)
    }
}

impl FromSpecImpl<LiteralInstance> for Instance {
    open spec fn obeys_from_spec() -> bool {
        true
    }

    /// A scalar as a value.
    open spec fn from_spec(value: LiteralInstance) -> Instance {
        Instance::Literal(value)
    }
}

impl From<StructInstance> for Instance {
    fn from(value: StructInstance) -> (made: Instance) {
        Instance::Struct(value)
    }
}

impl FromSpecImpl<StructInstance> for Instance {
    open spec fn obeys_from_spec() -> bool {
        true
    }

    /// A struct as a value.
    open spec fn from_spec(value: StructInstance) -> Instance {
        Instance::Struct(value)
    }
}

impl From<ArrayInstance> for Instance {
    fn from(value: ArrayInstance) -> (made: Instance) {
        Instance::Array(value)
    }
}

impl FromSpecImpl<ArrayInstance> for Instance {
    open spec fn obeys_from_spec() -> bool {
        true
    }

    /// An array as a value.
    open spec fn from_spec(value: ArrayInstance) -> Instance {
        Instance::Array(value)
    }
}

impl From<VecInstance> for Instance {
    fn from(value: VecInstance) -> (made: Instance) {
        Instance::Vec(value)
    }
}

impl FromSpecImpl<VecInstance> for Instance {
    open spec fn obeys_from_spec() -> bool {
        true
    }

    /// A vector as a value.
    open spec fn from_spec(value: VecInstance) -> Instance {
        Instance::Vec(value)
    }
}

impl From<MatInstance> for Instance {
    fn from(value: MatInstance) -> (made: Instance) {
        Instance::Mat(value)
    }
}

impl FromSpecImpl<MatInstance> for Instance {
    open spec fn obeys_from_spec() -> bool {
        true
    }

    /// A matrix as a value.
    open spec fn from_spec(value: MatInstance) -> Instance {
        Instance::Mat(value)
    }
}

impl From<PtrInstance> for Instance {
    fn from(value: PtrInstance) -> (made: Instance) {
        Instance::Ptr(value)
    }
}

impl FromSpecImpl<PtrInstance> for Instance {
    open spec fn obeys_from_spec() -> bool {
        true
    }

    /// A pointer as a value.
    open spec fn from_spec(value: PtrInstance) -> Instance {
        Instance::Ptr(value)
    }
}

impl From<RefInstance> for Instance {
    fn from(value: RefInstance) -> (made: Instance) {
        Instance::Ref(value)
    }
}

impl FromSpecImpl<RefInstance> for Instance {
    open spec fn obeys_from_spec() -> bool {
        true
    }

    /// A reference as a value.
    open spec fn from_spec(value: RefInstance) -> Instance {
        Instance::Ref(value)
    }
}

impl From<Type> for Instance {
    fn from(value: Type) -> (made: Instance) {
        Instance::Type(value)
    }
}

impl FromSpecImpl<Type> for Instance {
    open spec fn obeys_from_spec() -> bool {
        true
    }

    /// A type as a value.
    open spec fn from_spec(value: Type) -> Instance {
        Instance::Type(value)
    }
}

impl From<bool> for LiteralInstance {
    fn from(value: bool) -> (made: LiteralInstance) {
        LiteralInstance::Bool(value)
    }
}

impl FromSpecImpl<bool> for LiteralInstance {
    open spec fn obeys_from_spec() -> bool {
        true
    }

    /// A boolean scalar.
    open spec fn from_spec(value: bool) -> LiteralInstance {
        LiteralInstance::Bool(value)
    }
}

impl From<i64> for LiteralInstance {
    fn from(value: i64) -> (made: LiteralInstance) {
        LiteralInstance::AbstractInt(value)
    }
}

impl FromSpecImpl<i64> for LiteralInstance {
    open spec fn obeys_from_spec() -> bool {
        true
    }

    /// An abstract integer.
    open spec fn from_spec(value: i64) -> LiteralInstance {
        LiteralInstance::AbstractInt(value)
    }
}

impl From<i32> for LiteralInstance {
    fn from(value: i32) -> (made: LiteralInstance) {
        LiteralInstance::I32(value)
    }
}

impl FromSpecImpl<i32> for LiteralInstance {
    open spec fn obeys_from_spec() -> bool {
        true
    }

    /// A signed integer.
    open spec fn from_spec(value: i32) -> LiteralInstance {
        LiteralInstance::I32(value)
    }
}

impl From<u32> for LiteralInstance {
    fn from(value: u32) -> (made: LiteralInstance) {
        LiteralInstance::U32(value)
    }
}

impl FromSpecImpl<u32> for LiteralInstance {
    open spec fn obeys_from_spec() -> bool {
        true
    }

    /// An unsigned integer.
    open spec fn from_spec(value: u32) -> LiteralInstance {
        LiteralInstance::U32(value)
    }
}

impl From<Vec2> for VecInstance {
    fn from(value: Vec2) -> (made: VecInstance) {
        VecInstance::Vec2(value)
    }
}

impl FromSpecImpl<Vec2> for VecInstance {
    open spec fn obeys_from_spec() -> bool {
        true
    }

    /// A vector of two.
    open spec fn from_spec(value: Vec2) -> VecInstance {
        VecInstance::Vec2(value)
    }
}

impl From<Vec3> for VecInstance {
    fn from(value: Vec3) -> (made: VecInstance) {
        VecInstance::Vec3(value)
    }
}

impl FromSpecImpl<Vec3> for VecInstance {
    open spec fn obeys_from_spec() -> bool {
        true
    }

    /// A vector of three.
    open spec fn from_spec(value: Vec3) -> VecInstance {
        VecInstance::Vec3(value)
    }
}

impl From<Vec4> for VecInstance {
    fn from(value: Vec4) -> (made: VecInstance) {
        VecInstance::Vec4(value)
    }
}

impl FromSpecImpl<Vec4> for VecInstance {
    open spec fn obeys_from_spec() -> bool {
        true
    }

    /// A vector of four.
    open spec fn from_spec(value: Vec4) -> VecInstance {
        VecInstance::Vec4(value)
    }
}

} // verus!
