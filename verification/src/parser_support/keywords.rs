use crate::syntax::attribute::{
    BuiltinValue, DiagnosticSeverity, InterpolationSampling, InterpolationType,
};
use crate::syntax::declaration::{AccessMode, AddressSpace, DeclarationKind};
use crate::text::str_eq;
use std::str::FromStr;
use vstd::prelude::*;

verus! {

/// The kind of declaration that a keyword introduces; a `var` has no address space yet.
pub open spec fn declaration_kind(name: Seq<char>) -> Option<DeclarationKind> {
    if name == "const"@ {
        Some(DeclarationKind::Const)
    }     else if name == "override"@ {
        Some(DeclarationKind::Override)
    }     else if name == "let"@ {
        Some(DeclarationKind::Let)
    }     else if name == "var"@ {
        Some(DeclarationKind::Var(None))
    } else {
        None
    }
}

impl DeclarationKind {
    /// Reads a value off its name.
    pub fn parse(name: &str) -> (value: Option<DeclarationKind>)
        ensures
            value == declaration_kind(name@),
    {
        if str_eq(name, "const") {
            Some(DeclarationKind::Const)
        }         else if str_eq(name, "override") {
            Some(DeclarationKind::Override)
        }         else if str_eq(name, "let") {
            Some(DeclarationKind::Let)
        }         else if str_eq(name, "var") {
            Some(DeclarationKind::Var(None))
        } else {
            None
        }
    }
}

impl FromStr for DeclarationKind {
    type Err = ();

    /// Reads a value off its name; there is an error for every name that
    /// stands for none.
    fn from_str(s: &str) -> (value: Result<DeclarationKind, ()>)
        ensures
            value == match declaration_kind(s@) {
                Some(v) => Ok::<DeclarationKind, ()>(v),
                None => Err::<DeclarationKind, ()>(()),
            },
    {
        match DeclarationKind::parse(s) {
            Some(v) => Ok(v),
            None => Err(()),
        }
    }
}

/// The address space that a name stands for; `storage` has no access mode yet.
pub open spec fn address_space(name: Seq<char>) -> Option<AddressSpace> {
    if name == "function"@ {
        Some(AddressSpace::Function)
    }     else if name == "private"@ {
        Some(AddressSpace::Private)
    }     else if name == "workgroup"@ {
        Some(AddressSpace::Workgroup)
    }     else if name == "uniform"@ {
        Some(AddressSpace::Uniform)
    }     else if name == "storage"@ {
        Some(AddressSpace::Storage(None))
    }     else if name == "handle"@ {
        Some(AddressSpace::Handle)
    } else {
        None
    }
}

impl AddressSpace {
    /// Reads a value off its name.
    pub fn parse(name: &str) -> (value: Option<AddressSpace>)
        ensures
            value == address_space(name@),
    {
        if str_eq(name, "function") {
            Some(AddressSpace::Function)
        }         else if str_eq(name, "private") {
            Some(AddressSpace::Private)
        }         else if str_eq(name, "workgroup") {
            Some(AddressSpace::Workgroup)
        }         else if str_eq(name, "uniform") {
            Some(AddressSpace::Uniform)
        }         else if str_eq(name, "storage") {
            Some(AddressSpace::Storage(None))
        }         else if str_eq(name, "handle") {
            Some(AddressSpace::Handle)
        } else {
            None
        }
    }
}

impl FromStr for AddressSpace {
    type Err = ();

    /// Reads a value off its name; there is an error for every name that
    /// stands for none.
    fn from_str(s: &str) -> (value: Result<AddressSpace, ()>)
        ensures
            value == match address_space(s@) {
                Some(v) => Ok::<AddressSpace, ()>(v),
                None => Err::<AddressSpace, ()>(()),
            },
    {
        match AddressSpace::parse(s) {
            Some(v) => Ok(v),
            None => Err(()),
        }
    }
}

/// The access mode that a name stands for.
pub open spec fn access_mode(name: Seq<char>) -> Option<AccessMode> {
    if name == "read"@ {
        Some(AccessMode::Read)
    }     else if name == "write"@ {
        Some(AccessMode::Write)
    }     else if name == "read_write"@ {
        Some(AccessMode::ReadWrite)
    } else {
        None
    }
}

impl AccessMode {
    /// Reads a value off its name.
    pub fn parse(name: &str) -> (value: Option<AccessMode>)
        ensures
            value == access_mode(name@),
    {
        if str_eq(name, "read") {
            Some(AccessMode::Read)
        }         else if str_eq(name, "write") {
            Some(AccessMode::Write)
        }         else if str_eq(name, "read_write") {
            Some(AccessMode::ReadWrite)
        } else {
            None
        }
    }
}

impl FromStr for AccessMode {
    type Err = ();

    /// Reads a value off its name; there is an error for every name that
    /// stands for none.
    fn from_str(s: &str) -> (value: Result<AccessMode, ()>)
        ensures
            value == match access_mode(s@) {
                Some(v) => Ok::<AccessMode, ()>(v),
                None => Err::<AccessMode, ()>(()),
            },
    {
        match AccessMode::parse(s) {
            Some(v) => Ok(v),
            None => Err(()),
        }
    }
}

/// The severity that a name stands for.
pub open spec fn diagnostic_severity(name: Seq<char>) -> Option<DiagnosticSeverity> {
    if name == "error"@ {
        Some(DiagnosticSeverity::Error)
    }     else if name == "warning"@ {
        Some(DiagnosticSeverity::Warning)
    }     else if name == "info"@ {
        Some(DiagnosticSeverity::Info)
    }     else if name == "off"@ {
        Some(DiagnosticSeverity::Off)
    } else {
        None
    }
}

impl DiagnosticSeverity {
    /// Reads a value off its name.
    pub fn parse(name: &str) -> (value: Option<DiagnosticSeverity>)
        ensures
            value == diagnostic_severity(name@),
    {
        if str_eq(name, "error") {
            Some(DiagnosticSeverity::Error)
        }         else if str_eq(name, "warning") {
            Some(DiagnosticSeverity::Warning)
        }         else if str_eq(name, "info") {
            Some(DiagnosticSeverity::Info)
        }         else if str_eq(name, "off") {
            Some(DiagnosticSeverity::Off)
        } else {
            None
        }
    }
}

impl FromStr for DiagnosticSeverity {
    type Err = ();

    /// Reads a value off its name; there is an error for every name that
    /// stands for none.
    fn from_str(s: &str) -> (value: Result<DiagnosticSeverity, ()>)
        ensures
            value == match diagnostic_severity(s@) {
                Some(v) => Ok::<DiagnosticSeverity, ()>(v),
                None => Err::<DiagnosticSeverity, ()>(()),
            },
    {
        match DiagnosticSeverity::parse(s) {
            Some(v) => Ok(v),
            None => Err(()),
        }
    }
}

/// The built-in value that a name stands for.
pub open spec fn builtin_value(name: Seq<char>) -> Option<BuiltinValue> {
    if name == "vertex_index"@ {
        Some(BuiltinValue::VertexIndex)
    }     else if name == "instance_index"@ {
        Some(BuiltinValue::InstanceIndex)
    }     else if name == "position"@ {
        Some(BuiltinValue::Position)
    }     else if name == "front_facing"@ {
        Some(BuiltinValue::FrontFacing)
    }     else if name == "frag_depth"@ {
        Some(BuiltinValue::FragDepth)
    }     else if name == "sample_index"@ {
        Some(BuiltinValue::SampleIndex)
    }     else if name == "sample_mask"@ {
        Some(BuiltinValue::SampleMask)
    }     else if name == "local_invocation_id"@ {
        Some(BuiltinValue::LocalInvocationId)
    }     else if name == "local_invocation_index"@ {
        Some(BuiltinValue::LocalInvocationIndex)
    }     else if name == "global_invocation_id"@ {
        Some(BuiltinValue::GlobalInvocationId)
    }     else if name == "workgroup_id"@ {
        Some(BuiltinValue::WorkgroupId)
    }     else if name == "num_workgroups"@ {
        Some(BuiltinValue::NumWorkgroups)
    } else {
        None
    }
}

impl BuiltinValue {
    /// Reads a value off its name.
    pub fn parse(name: &str) -> (value: Option<BuiltinValue>)
        ensures
            value == builtin_value(name@),
    {
        if str_eq(name, "vertex_index") {
            Some(BuiltinValue::VertexIndex)
        }         else if str_eq(name, "instance_index") {
            Some(BuiltinValue::InstanceIndex)
        }         else if str_eq(name, "position") {
            Some(BuiltinValue::Position)
        }         else if str_eq(name, "front_facing") {
            Some(BuiltinValue::FrontFacing)
        }         else if str_eq(name, "frag_depth") {
            Some(BuiltinValue::FragDepth)
        }         else if str_eq(name, "sample_index") {
            Some(BuiltinValue::SampleIndex)
        }         else if str_eq(name, "sample_mask") {
            Some(BuiltinValue::SampleMask)
        }         else if str_eq(name, "local_invocation_id") {
            Some(BuiltinValue::LocalInvocationId)
        }         else if str_eq(name, "local_invocation_index") {
            Some(BuiltinValue::LocalInvocationIndex)
        }         else if str_eq(name, "global_invocation_id") {
            Some(BuiltinValue::GlobalInvocationId)
        }         else if str_eq(name, "workgroup_id") {
            Some(BuiltinValue::WorkgroupId)
        }         else if str_eq(name, "num_workgroups") {
            Some(BuiltinValue::NumWorkgroups)
        } else {
            None
        }
    }
}

impl FromStr for BuiltinValue {
    type Err = ();

    /// Reads a value off its name; there is an error for every name that
    /// stands for none.
    fn from_str(s: &str) -> (value: Result<BuiltinValue, ()>)
        ensures
            value == match builtin_value(s@) {
                Some(v) => Ok::<BuiltinValue, ()>(v),
                None => Err::<BuiltinValue, ()>(()),
            },
    {
        match BuiltinValue::parse(s) {
            Some(v) => Ok(v),
            None => Err(()),
        }
    }
}

/// The kind of interpolation that a name stands for.
pub open spec fn interpolation_type(name: Seq<char>) -> Option<InterpolationType> {
    if name == "perspective"@ {
        Some(InterpolationType::Perspective)
    }     else if name == "linear"@ {
        Some(InterpolationType::Linear)
    }     else if name == "flat"@ {
        Some(InterpolationType::Flat)
    } else {
        None
    }
}

impl InterpolationType {
    /// Reads a value off its name.
    pub fn parse(name: &str) -> (value: Option<InterpolationType>)
        ensures
            value == interpolation_type(name@),
    {
        if str_eq(name, "perspective") {
            Some(InterpolationType::Perspective)
        }         else if str_eq(name, "linear") {
            Some(InterpolationType::Linear)
        }         else if str_eq(name, "flat") {
            Some(InterpolationType::Flat)
        } else {
            None
        }
    }
}

impl FromStr for InterpolationType {
    type Err = ();

    /// Reads a value off its name; there is an error for every name that
    /// stands for none.
    fn from_str(s: &str) -> (value: Result<InterpolationType, ()>)
        ensures
            value == match interpolation_type(s@) {
                Some(v) => Ok::<InterpolationType, ()>(v),
                None => Err::<InterpolationType, ()>(()),
            },
    {
        match InterpolationType::parse(s) {
            Some(v) => Ok(v),
            None => Err(()),
        }
    }
}

/// The sampling of an interpolation that a name stands for.
pub open spec fn interpolation_sampling(name: Seq<char>) -> Option<InterpolationSampling> {
    if name == "center"@ {
        Some(InterpolationSampling::Center)
    }     else if name == "centroid"@ {
        Some(InterpolationSampling::Centroid)
    }     else if name == "sample"@ {
        Some(InterpolationSampling::Sample)
    }     else if name == "first"@ {
        Some(InterpolationSampling::First)
    }     else if name == "either"@ {
        Some(InterpolationSampling::Either)
    } else {
        None
    }
}

impl InterpolationSampling {
    /// Reads a value off its name.
    pub fn parse(name: &str) -> (value: Option<InterpolationSampling>)
        ensures
            value == interpolation_sampling(name@),
    {
        if str_eq(name, "center") {
            Some(InterpolationSampling::Center)
        }         else if str_eq(name, "centroid") {
            Some(InterpolationSampling::Centroid)
        }         else if str_eq(name, "sample") {
            Some(InterpolationSampling::Sample)
        }         else if str_eq(name, "first") {
            Some(InterpolationSampling::First)
        }         else if str_eq(name, "either") {
            Some(InterpolationSampling::Either)
        } else {
            None
        }
    }
}

impl FromStr for InterpolationSampling {
    type Err = ();

    /// Reads a value off its name; there is an error for every name that
    /// stands for none.
    fn from_str(s: &str) -> (value: Result<InterpolationSampling, ()>)
        ensures
            value == match interpolation_sampling(s@) {
                Some(v) => Ok::<InterpolationSampling, ()>(v),
                None => Err::<InterpolationSampling, ()>(()),
            },
    {
        match InterpolationSampling::parse(s) {
            Some(v) => Ok(v),
            None => Err(()),
        }
    }
}

} // verus!
