use crate::consteval::literal::{LiteralInstance, Ty};
use crate::consteval::matrix::{matrix_type, MatInstance};
use crate::consteval::ty::{Type, TypeView};
use crate::consteval::vector::{vector_type, VecInstance};
use crate::consteval::view::{MemView, Step};
use crate::text::str_eq;
use vstd::prelude::*;

verus! {

/// A value of a struct type: the type's name and the value of each member.
/// No two members have the same name.
#[derive(Debug, PartialEq)]
pub struct StructInstance {
    pub name: String,
    pub components: Vec<(String, Instance)>,
}

/// A value of an array type.
#[derive(Debug, PartialEq)]
pub struct ArrayInstance {
    pub components: Vec<Instance>,
}

/// A pointer to a value of the memory, or to a part of one: the place of the
/// value in the memory, the path to the part, and the type of the part.
#[derive(Debug, PartialEq)]
pub struct PtrInstance {
    pub ty: Type,
    pub view: MemView,
    pub ptr: usize,
}

/// A reference to a value of the memory, or to a part of one.
#[derive(Debug, PartialEq)]
pub struct RefInstance {
    pub ty: Type,
    pub view: MemView,
    pub ptr: usize,
}

/// A value, of any kind that a shader can compute at compile time.
#[derive(Debug, PartialEq)]
pub enum Instance {
    Literal(LiteralInstance),
    Struct(StructInstance),
    Array(ArrayInstance),
    Vec(VecInstance),
    Mat(MatInstance),
    Ptr(PtrInstance),
    Ref(RefInstance),
    Type(Type),
    Void,
}

/// What a pointer or a reference holds.
pub struct PointerView {
    pub ty: TypeView,
    pub view: Seq<Step>,
    pub ptr: usize,
}

pub enum InstanceView {
    Literal(LiteralInstance),
    Struct { name: Seq<char>, components: Seq<(Seq<char>, InstanceView)> },
    Array(Seq<InstanceView>),
    Vec { arity: int, components: Seq<LiteralInstance> },
    Mat { columns: int, rows: int, components: Seq<Seq<LiteralInstance>> },
    Ptr(PointerView),
    Ref(PointerView),
    Type(TypeView),
    Void,
}

/// The models of the members of a struct.
pub open spec fn member_models(components: Seq<(String, Instance)>) -> Seq<
    (Seq<char>, InstanceView),
>
    decreases components,
{
    Seq::new(
        components.len(),
        |i: int|
            if 0 <= i < components.len() {
                (components[i].0@, components[i].1.model())
            } else {
                arbitrary()
            },
    )
}

/// The models of the components of an array.
pub open spec fn component_models(components: Seq<Instance>) -> Seq<InstanceView>
    decreases components,
{
    Seq::new(
        components.len(),
        |i: int|
            if 0 <= i < components.len() {
                components[i].model()
            } else {
                arbitrary()
            },
    )
}

impl Instance {
    pub open spec fn model(self) -> InstanceView
        decreases self,
    {
        match self {
            Instance::Literal(l) => InstanceView::Literal(l),
            Instance::Struct(s) => InstanceView::Struct {
                name: s.name@,
                components: member_models(s.components@),
            },
            Instance::Array(a) => InstanceView::Array(component_models(a.components@)),
            Instance::Vec(v) => InstanceView::Vec { arity: v.arity(), components: v@ },
            Instance::Mat(m) => InstanceView::Mat {
                columns: m.columns(),
                rows: m.rows(),
                components: m@,
            },
            Instance::Ptr(p) => InstanceView::Ptr(p@),
            Instance::Ref(r) => InstanceView::Ref(r@),
            Instance::Type(t) => InstanceView::Type(t@),
            Instance::Void => InstanceView::Void,
        }
    }
}

impl View for PtrInstance {
    type V = PointerView;

    open spec fn view(&self) -> PointerView {
        PointerView { ty: self.ty@, view: self.view@, ptr: self.ptr }
    }
}

impl View for RefInstance {
    type V = PointerView;

    open spec fn view(&self) -> PointerView {
        PointerView { ty: self.ty@, view: self.view@, ptr: self.ptr }
    }
}

impl View for StructInstance {
    type V = InstanceView;

    open spec fn view(&self) -> InstanceView {
        InstanceView::Struct { name: self.name@, components: member_models(self.components@) }
    }
}

impl View for ArrayInstance {
    type V = Seq<InstanceView>;

    open spec fn view(&self) -> Seq<InstanceView> {
        component_models(self.components@)
    }
}

/// `i` is where the first member named `name` stands.
pub open spec fn is_member_at(
    components: Seq<(Seq<char>, InstanceView)>,
    name: Seq<char>,
    i: int,
) -> bool {
    &&& 0 <= i < components.len()
    &&& components[i].0 == name
    &&& forall|j: int| 0 <= j < i ==> (#[trigger] components[j]).0 != name
}

/// The position of the member named `name`, if there is one.
pub open spec fn member_position(
    components: Seq<(Seq<char>, InstanceView)>,
    name: Seq<char>,
) -> Option<int> {
    if exists|i: int| is_member_at(components, name, i) {
        Some(choose|i: int| is_member_at(components, name, i))
    } else {
        None
    }
}

/// A list that has a member named `name` has a first such member.
pub proof fn lemma_member_exists(
    components: Seq<(Seq<char>, InstanceView)>,
    name: Seq<char>,
    i: int,
)
    requires
        0 <= i < components.len(),
        components[i].0 == name,
    ensures
        member_position(components, name) is Some,
    decreases i,
{
    if exists|j: int| 0 <= j < i && (#[trigger] components[j]).0 == name {
        let j = choose|j: int| 0 <= j < i && (#[trigger] components[j]).0 == name;
        lemma_member_exists(components, name, j);
    } else {
        assert(is_member_at(components, name, i));
    }
}

/// The first member named `name` stands at one position only.
pub proof fn lemma_member_unique(
    components: Seq<(Seq<char>, InstanceView)>,
    name: Seq<char>,
    i: int,
)
    requires
        is_member_at(components, name, i),
    ensures
        member_position(components, name) == Some(i),
{
    let k = choose|k: int| is_member_at(components, name, k);
    if k < i {
        assert(components[k].0 != name);
    } else if i < k {
        assert(components[i].0 != name);
    }
}

/// Where a path leads from a value: to the value itself, into the member of
/// a struct that a step names, to the position of an array that a step gives.
/// It leads nowhere where a step does not fit the value it is taken from.
pub open spec fn resolve(value: InstanceView, path: Seq<Step>) -> Option<InstanceView>
    decreases path.len(),
{
    if path.len() == 0 {
        Some(value)
    } else {
        match (path[0], value) {
            (Step::Member(name), InstanceView::Struct { components, .. }) => {
                match member_position(components, name) {
                    Some(i) => resolve(components[i].1, path.skip(1)),
                    None => None,
                }
            },
            (Step::Index(i), InstanceView::Array(components)) => {
                if i < components.len() {
                    resolve(components[i as int], path.skip(1))
                } else {
                    None
                }
            },
            _ => None,
        }
    }
}

/// The value with the part that a path leads to replaced. Where the path
/// leads nowhere, the value is as it was.
pub open spec fn replaced(value: InstanceView, path: Seq<Step>, part: InstanceView) -> InstanceView
    decreases path.len(),
{
    if path.len() == 0 {
        part
    } else {
        match (path[0], value) {
            (Step::Member(name), InstanceView::Struct { name: ty, components }) => {
                match member_position(components, name) {
                    Some(i) => InstanceView::Struct {
                        name: ty,
                        components: components.update(
                            i,
                            (components[i].0, replaced(components[i].1, path.skip(1), part)),
                        ),
                    },
                    None => value,
                }
            },
            (Step::Index(i), InstanceView::Array(components)) => {
                if i < components.len() {
                    InstanceView::Array(
                        components.update(
                            i as int,
                            replaced(components[i as int], path.skip(1), part),
                        ),
                    )
                } else {
                    value
                }
            },
            _ => value,
        }
    }
}

/// Whether the type of a value can be read off it: an array has a first
/// component whose type can be read off, a vector and a matrix have the
/// components that their kind says.
pub open spec fn has_type(value: InstanceView) -> bool
    decreases value,
{
    match value {
        InstanceView::Array(components) => components.len() > 0 && has_type(components[0]),
        InstanceView::Vec { arity, components } => components.len() == arity && 2 <= arity <= 4,
        InstanceView::Mat { columns, rows, components } => {
            &&& 2 <= columns <= 4
            &&& 2 <= rows <= 4
            &&& components.len() == columns
            &&& forall|i: int| 0 <= i < columns ==> (#[trigger] components[i]).len() == rows
        },
        _ => true,
    }
}

/// The type of a value. An array has the type of its first component as
/// its element type, and no length.
pub open spec fn type_of_value(value: InstanceView) -> TypeView
    decreases value,
{
    match value {
        InstanceView::Literal(l) => l.scalar(),
        InstanceView::Struct { name, .. } => TypeView::Struct(name),
        InstanceView::Array(components) => if components.len() > 0 {
            TypeView::Array(None, Box::new(type_of_value(components[0])))
        } else {
            TypeView::Void
        },
        InstanceView::Vec { components, .. } => vector_type(components),
        InstanceView::Mat { columns, rows, components } => matrix_type(components, columns, rows),
        InstanceView::Ptr(p) => TypeView::Ptr(Box::new(p.ty)),
        InstanceView::Ref(r) => r.ty,
        InstanceView::Type(t) => t,
        InstanceView::Void => TypeView::Void,
    }
}

/// The number of components of an array or a vector, the number of columns
/// of a matrix, and 0 for every other value.
pub open spec fn length(value: InstanceView) -> int {
    match value {
        InstanceView::Array(components) => components.len() as int,
        InstanceView::Vec { arity, .. } => arity,
        InstanceView::Mat { columns, .. } => columns,
        _ => 0,
    }
}

/// No two members have the same name.
pub open spec fn distinct_names(components: Seq<(Seq<char>, InstanceView)>) -> bool {
    forall|i: int, j: int|
        0 <= i < j < components.len() ==> (#[trigger] components[i]).0 != (
        #[trigger] components[j]).0
}

/// The value of the member named `name`, if there is one.
pub open spec fn member_value(
    components: Seq<(Seq<char>, InstanceView)>,
    name: Seq<char>,
) -> Option<InstanceView> {
    match member_position(components, name) {
        Some(i) => Some(components[i].1),
        None => None,
    }
}

impl StructInstance {
    /// The members of the struct, by name and value.
    pub open spec fn members(&self) -> Seq<(Seq<char>, InstanceView)> {
        member_models(self.components@)
    }

    /// No two members have the same name.
    pub open spec fn wf(&self) -> bool {
        distinct_names(self.members())
    }

    /// A value of the struct type `name`, without members yet.
    pub fn new(name: String) -> (made: StructInstance)
        ensures
            made.name == name,
            made.members() == Seq::<(Seq<char>, InstanceView)>::empty(),
            made.wf(),
    {
        let made = StructInstance { name, components: Vec::new() };
        assert(made.members() =~= Seq::<(Seq<char>, InstanceView)>::empty());
        made
    }

    /// The name of the struct type.
    pub fn name(&self) -> (name: &str)
        ensures
            name@ == self.name@,
    {
        self.name.as_str()
    }

    /// The value of the member named `name`, if there is one.
    pub fn get(&self, name: &str) -> (value: Option<&Instance>)
        ensures
            match value {
                Some(v) => member_value(self.members(), name@) == Some(v.model()),
                None => member_value(self.members(), name@) is None,
            },
    {
        match self.position(name) {
            Some(i) => Some(&self.components[i].1),
            None => None,
        }
    }

    /// Gives the member named `name` a value. Where the struct has such a
    /// member already, the value takes the place of the one it had, which
    /// is returned; else the member is added after the others.
    pub fn insert(&mut self, name: String, value: Instance) -> (replaced: Option<Instance>)
        ensures
            final(self).name == old(self).name,
            match member_position(old(self).members(), name@) {
                Some(i) => {
                    &&& replaced matches Some(r)
                    &&& r.model() == old(self).members()[i].1
                    &&& final(self).members() == old(self).members().update(
                        i,
                        (name@, value.model()),
                    )
                },
                None => {
                    &&& replaced is None
                    &&& final(self).members() == old(self).members().push((name@, value.model()))
                },
            },
            old(self).wf() ==> final(self).wf(),
    {
        let ghost before = self.members();
        match self.position(name.as_str()) {
            Some(i) => {
                let mut slot = value;
                std::mem::swap(&mut self.components[i].1, &mut slot);
                assert(self.members() =~= before.update(i as int, (name@, value.model())));
                Some(slot)
            },
            None => {
                self.components.push((name, value));
                assert(self.members() =~= before.push((name@, value.model())));
                proof {
                    if distinct_names(before) {
                        assert forall|i: int, j: int|
                            0 <= i < j < self.members().len() implies (
                        #[trigger] self.members()[i]).0 != (#[trigger] self.members()[j]).0 by {
                            if j == before.len() {
                                if before[i].0 == name@ {
                                    lemma_member_exists(before, name@, i);
                                }
                            } else {
                                assert(before[i].0 != before[j].0);
                            }
                        }
                    }
                }
                None
            },
        }
    }

    /// The position of the member named `name`, if there is one.
    pub fn position(&self, name: &str) -> (position: Option<usize>)
        ensures
            match position {
                Some(i) => member_position(member_models(self.components@), name@) == Some(
                    i as int,
                ),
                None => member_position(member_models(self.components@), name@) is None,
            },
    {
        let ghost members = member_models(self.components@);
        let mut i: usize = 0;
        while i < self.components.len()
            invariant
                i <= self.components.len(),
                members == member_models(self.components@),
                forall|j: int| 0 <= j < i ==> (#[trigger] members[j]).0 != name@,
            decreases self.components.len() - i,
        {
            if str_eq(self.components[i].0.as_str(), name) {
                proof {
                    lemma_member_unique(members, name@, i as int);
                }
                return Some(i);
            }
            i += 1;
        }
        None
    }
}

impl ArrayInstance {
    /// The number of components.
    pub fn n(&self) -> (n: usize)
        ensures
            n == self@.len(),
    {
        self.components.len()
    }

    /// The component at position `i`, if there is one.
    pub fn get(&self, i: usize) -> (component: Option<&Instance>)
        ensures
            match component {
                Some(c) => i < self@.len() && c.model() == self@[i as int],
                None => i >= self@.len(),
            },
    {
        if i < self.components.len() {
            Some(&self.components[i])
        } else {
            None
        }
    }
}

impl Instance {
    /// The part of the value that a path leads to.
    pub fn view(&self, view: &MemView) -> (part: Option<&Instance>)
        ensures
            match part {
                Some(p) => resolve(self.model(), view@) == Some(p.model()),
                None => resolve(self.model(), view@) is None,
            },
        decreases view,
    {
        match view {
            MemView::Whole => Some(self),
            MemView::Member(m, v) => {
                assert(view@.skip(1) =~= v@);
                match self {
                    Instance::Struct(s) => match s.position(m.as_str()) {
                        Some(i) => s.components[i].1.view(v),
                        None => None,
                    },
                    _ => None,
                }
            },
            MemView::Index(i, v) => {
                assert(view@.skip(1) =~= v@);
                match self {
                    Instance::Array(a) => {
                        if *i < a.components.len() {
                            a.components[*i].view(v)
                        } else {
                            None
                        }
                    },
                    _ => None,
                }
            },
        }
    }

    /// The part of the value that a path leads to, for writing.
    pub fn view_mut(&mut self, view: &MemView) -> (part: Option<&mut Instance>)
        ensures
            match part {
                Some(p) => {
                    &&& resolve(old(self).model(), view@) == Some(p.model())
                    &&& final(self).model() == replaced(
                        old(self).model(),
                        view@,
                        final(p).model(),
                    )
                },
                None => {
                    &&& resolve(old(self).model(), view@) is None
                    &&& final(self).model() == old(self).model()
                },
            },
        decreases view,
    {
        proof {
            reveal_with_fuel(Instance::model, 2);
            reveal_with_fuel(member_models, 2);
            reveal_with_fuel(component_models, 2);
        }
        match view {
            MemView::Whole => Some(self),
            MemView::Member(m, v) => {
                assert(view@.skip(1) =~= v@);
                match self {
                    Instance::Struct(s) => match s.position(m.as_str()) {
                        Some(i) => {
                            let ghost members = s.components@;
                            let ghost future = *final(s);
                            let part = s.components[i].1.view_mut(v);
                            proof {
                                assert(member_models(future.components@) =~= member_models(
                                    members,
                                ).update(
                                    i as int,
                                    (members[i as int].0@, future.components@[i as int].1.model()),
                                ));
                                if part is None {
                                    assert(member_models(future.components@) =~= member_models(
                                        members,
                                    ));
                                }
                            }
                            part
                        },
                        None => None,
                    },
                    _ => None,
                }
            },
            MemView::Index(i, v) => {
                assert(view@.skip(1) =~= v@);
                match self {
                    Instance::Array(a) => {
                        if *i < a.components.len() {
                            let ghost components = a.components@;
                            let ghost future = *final(a);
                            let part = a.components[*i].view_mut(v);
                            proof {
                                assert(component_models(future.components@) =~= component_models(
                                    components,
                                ).update(*i as int, future.components@[*i as int].model()));
                                if part is None {
                                    assert(component_models(future.components@)
                                        =~= component_models(components));
                                }
                            }
                            part
                        } else {
                            None
                        }
                    },
                    _ => None,
                }
            },
        }
    }

    /// The number of components of an array or a vector, the number of
    /// columns of a matrix, and 0 for every other value.
    pub fn len(&self) -> (n: usize)
        ensures
            n == length(self.model()),
    {
        match self {
            Instance::Array(a) => a.n(),
            Instance::Vec(v) => v.n() as usize,
            Instance::Mat(m) => m.c() as usize,
            _ => 0,
        }
    }
}

impl Instance {
    /// The type of the value.
    pub fn derive_type(&self) -> (ty: Type)
        requires
            has_type(self.model()),
        ensures
            ty@ == type_of_value(self.model()),
        decreases self,
    {
        match self {
            Instance::Literal(l) => l.ty(),
            Instance::Struct(s) => Type::Struct(s.name.clone()),
            Instance::Array(a) => {
                assert(component_models(a.components@)[0] == a.components@[0].model());
                Type::Array(None, Box::new(a.components[0].derive_type()))
            },
            Instance::Vec(v) => v.ty(),
            Instance::Mat(m) => m.ty(),
            Instance::Ptr(p) => Type::Ptr(Box::new(p.ty.clone())),
            Instance::Ref(r) => r.ty.clone(),
            Instance::Type(t) => t.clone(),
            Instance::Void => Type::Void,
        }
    }

    /// Whether the type of the value can be read off it.
    pub fn is_typed(&self) -> (typed: bool)
        ensures
            typed == has_type(self.model()),
        decreases self,
    {
        match self {
            Instance::Array(a) => {
                if a.components.len() > 0 {
                    assert(component_models(a.components@)[0] == a.components@[0].model());
                    a.components[0].is_typed()
                } else {
                    false
                }
            },
            Instance::Vec(v) => v.iter().len() == v.n() as usize,
            Instance::Mat(m) => m.is_wf(),
            _ => true,
        }
    }
}

impl Ty for Instance {
    open spec fn typed(&self) -> bool {
        has_type(self.model())
    }

    open spec fn type_of(&self) -> TypeView {
        type_of_value(self.model())
    }

    open spec fn inner_type_of(&self) -> TypeView {
        type_of_value(self.model())
    }

    fn ty(&self) -> (ty: Type) {
        self.derive_type()
    }

    fn inner_ty(&self) -> (ty: Type) {
        self.derive_type()
    }
}

impl Ty for StructInstance {
    open spec fn typed(&self) -> bool {
        true
    }

    open spec fn type_of(&self) -> TypeView {
        TypeView::Struct(self.name@)
    }

    open spec fn inner_type_of(&self) -> TypeView {
        TypeView::Struct(self.name@)
    }

    fn ty(&self) -> (ty: Type) {
        Type::Struct(self.name.clone())
    }

    fn inner_ty(&self) -> (ty: Type) {
        self.ty()
    }
}

impl Ty for ArrayInstance {
    /// The array has a first component whose type can be read off.
    open spec fn typed(&self) -> bool {
        self@.len() > 0 && has_type(self@[0])
    }

    open spec fn type_of(&self) -> TypeView {
        TypeView::Array(None, Box::new(type_of_value(self@[0])))
    }

    /// The type of the first component.
    open spec fn inner_type_of(&self) -> TypeView {
        type_of_value(self@[0])
    }

    fn ty(&self) -> (ty: Type) {
        Type::Array(None, Box::new(self.inner_ty()))
    }

    fn inner_ty(&self) -> (ty: Type) {
        assert(self@[0] == self.components@[0].model());
        self.components[0].derive_type()
    }
}

impl Ty for PtrInstance {
    open spec fn typed(&self) -> bool {
        true
    }

    /// A pointer to the type of what it points to.
    open spec fn type_of(&self) -> TypeView {
        TypeView::Ptr(Box::new(self.ty@))
    }

    open spec fn inner_type_of(&self) -> TypeView {
        TypeView::Ptr(Box::new(self.ty@))
    }

    fn ty(&self) -> (ty: Type) {
        Type::Ptr(Box::new(self.ty.clone()))
    }

    fn inner_ty(&self) -> (ty: Type) {
        self.ty()
    }
}

impl Ty for RefInstance {
    open spec fn typed(&self) -> bool {
        true
    }

    /// The type of what it refers to.
    open spec fn type_of(&self) -> TypeView {
        self.ty@
    }

    open spec fn inner_type_of(&self) -> TypeView {
        self.ty@
    }

    fn ty(&self) -> (ty: Type) {
        self.ty.clone()
    }

    fn inner_ty(&self) -> (ty: Type) {
        self.ty()
    }
}

impl Clone for PtrInstance {
    fn clone(&self) -> (copy: PtrInstance)
        ensures
            copy@ == self@,
    {
        PtrInstance { ty: self.ty.clone(), view: self.view.clone(), ptr: self.ptr }
    }
}

impl Clone for RefInstance {
    fn clone(&self) -> (copy: RefInstance)
        ensures
            copy@ == self@,
    {
        RefInstance { ty: self.ty.clone(), view: self.view.clone(), ptr: self.ptr }
    }
}

/// A deep copy of the members of a struct.
fn copy_members(list: &Vec<(String, Instance)>) -> (copy: Vec<(String, Instance)>)
    ensures
        member_models(copy@) == member_models(list@),
    decreases list,
{
    let mut copy: Vec<(String, Instance)> = Vec::new();
    let mut i: usize = 0;
    while i < list.len()
        invariant
            i <= list.len(),
            copy@.len() == i,
            forall|k: int|
                0 <= k < i ==> (#[trigger] copy@[k]).0@ == list@[k].0@ && copy@[k].1.model()
                    == list@[k].1.model(),
        decreases list.len() - i,
    {
        copy.push((list[i].0.clone(), list[i].1.copy()));
        i += 1;
    }
    assert(member_models(copy@) =~= member_models(list@));
    copy
}

/// A deep copy of the components of an array.
fn copy_components(list: &Vec<Instance>) -> (copy: Vec<Instance>)
    ensures
        component_models(copy@) == component_models(list@),
    decreases list,
{
    let mut copy: Vec<Instance> = Vec::new();
    let mut i: usize = 0;
    while i < list.len()
        invariant
            i <= list.len(),
            copy@.len() == i,
            forall|k: int| 0 <= k < i ==> (#[trigger] copy@[k]).model() == list@[k].model(),
        decreases list.len() - i,
    {
        copy.push(list[i].copy());
        i += 1;
    }
    assert(component_models(copy@) =~= component_models(list@));
    copy
}

impl Instance {
    /// A deep copy of the value. A copy of a pointer or a reference leads to
    /// the same place of the memory.
    pub fn copy(&self) -> (copy: Instance)
        ensures
            copy.model() == self.model(),
        decreases self,
    {
        match self {
            Instance::Literal(l) => Instance::Literal(*l),
            Instance::Struct(s) => Instance::Struct(
                StructInstance { name: s.name.clone(), components: copy_members(&s.components) },
            ),
            Instance::Array(a) => Instance::Array(
                ArrayInstance { components: copy_components(&a.components) },
            ),
            Instance::Vec(v) => Instance::Vec(v.clone()),
            Instance::Mat(m) => Instance::Mat(m.clone()),
            Instance::Ptr(p) => Instance::Ptr(p.clone()),
            Instance::Ref(r) => Instance::Ref(r.clone()),
            Instance::Type(t) => Instance::Type(t.clone()),
            Instance::Void => Instance::Void,
        }
    }
}

impl Clone for Instance {
    fn clone(&self) -> (copy: Instance)
        ensures
            copy.model() == self.model(),
    {
        self.copy()
    }
}

impl Clone for StructInstance {
    fn clone(&self) -> (copy: StructInstance)
        ensures
            copy@ == self@,
    {
        StructInstance { name: self.name.clone(), components: copy_members(&self.components) }
    }
}

impl Clone for ArrayInstance {
    fn clone(&self) -> (copy: ArrayInstance)
        ensures
            copy@ == self@,
    {
        ArrayInstance { components: copy_components(&self.components) }
    }
}

} // verus!
