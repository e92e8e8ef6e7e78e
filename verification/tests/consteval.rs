
use wesl::consteval::error::ConstEvalError;
use wesl::consteval::instance::{ArrayInstance, Instance, StructInstance};
use wesl::consteval::literal::{LiteralInstance, Ty};
use wesl::consteval::matrix::{MatInner, MatInstance};
use wesl::consteval::ty::Type;
use wesl::consteval::vector::{VecInner, VecInstance};
use wesl::consteval::view::MemView;

fn vec3_f16() -> Type {
    Type::Vec(3, Box::new(Type::F16))
}

fn i32_of(value: i32) -> Instance {
    Instance::Literal(LiteralInstance::I32(value))
}

fn array(components: Vec<Instance>) -> Instance {
    Instance::Array(ArrayInstance::new(components).unwrap())
}

fn record(name: &str, members: Vec<(&str, Instance)>) -> Instance {
    Instance::Struct(StructInstance {
        name: name.to_string(),
        components: members.into_iter().map(|(n, v)| (n.to_string(), v)).collect(),
    })
}

fn path(steps: &[&str]) -> MemView {
    let mut view = MemView::Whole;
    for step in steps {
        match step.parse::<usize>() {
            Ok(i) => view.append_index(i),
            Err(_) => view.append_member(step.to_string()),
        }
    }
    view
}

#[test]
fn type_of_an_array_of_vectors() {
    let ty = Type::Array(None, Box::new(vec3_f16()));
    assert_eq!(ty.ty(), Type::Array(None, Box::new(Type::Vec(3, Box::new(Type::F16)))));
    assert_eq!(ty.inner_ty(), Type::Vec(3, Box::new(Type::F16)));
    assert!(!ty.is_abstract());
    assert!(ty.is_concrete());
    let ty = Type::Array(None, Box::new(Type::Vec(2, Box::new(Type::AbstractFloat))));
    assert!(ty.is_abstract());
    assert!(!ty.is_concrete());
}

#[test]
fn scalars_are_told_apart() {
    let scalars =
        [
            Type::Bool,
            Type::AbstractInt,
            Type::AbstractFloat,
            Type::I32,
            Type::U32,
            Type::F32,
            Type::F16,
        ];
    for ty in &scalars {
        assert!(ty.is_scalar());
        assert_eq!(ty.is_numeric(), *ty != Type::Bool);
        assert_eq!(ty.inner_ty(), ty.clone());
    }
    for ty in [Type::AbstractInt, Type::I32, Type::U32] {
        assert!(ty.is_integer());
    }
    for ty in [Type::Bool, Type::AbstractFloat, Type::F32, Type::F16, Type::Void] {
        assert!(!ty.is_integer());
    }
    for ty in [
        Type::Struct("S".to_string()),
        Type::Array(Some(4), Box::new(Type::I32)),
        vec3_f16(),
        Type::Mat(2, 2, Box::new(Type::F32)),
        Type::Atomic(Box::new(Type::U32)),
        Type::Ptr(Box::new(Type::U32)),
        Type::Void,
    ] {
        assert!(!ty.is_scalar());
        assert!(!ty.is_numeric());
        assert!(!ty.is_integer());
    }
}

#[test]
fn abstractness_comes_from_the_elements() {
    assert!(Type::AbstractInt.is_abstract());
    assert!(Type::AbstractFloat.is_abstract());
    assert!(Type::Mat(2, 3, Box::new(Type::AbstractFloat)).is_abstract());
    assert!(Type::Array(Some(2), Box::new(Type::Array(None, Box::new(Type::AbstractInt))))
        .is_abstract());
    assert!(!Type::Mat(2, 3, Box::new(Type::F32)).is_abstract());
    assert!(!Type::Atomic(Box::new(Type::AbstractInt)).is_abstract());
    assert!(!Type::Ptr(Box::new(Type::AbstractInt)).is_abstract());
    assert!(!Type::Struct("AbstractInt".to_string()).is_abstract());
}

#[test]
fn inner_type_goes_one_level_down() {
    assert_eq!(Type::Atomic(Box::new(Type::U32)).inner_ty(), Type::U32);
    assert_eq!(Type::Mat(4, 2, Box::new(Type::F16)).inner_ty(), Type::F16);
    let nested = Type::Array(None, Box::new(Type::Array(Some(3), Box::new(Type::Bool))));
    assert_eq!(nested.inner_ty(), Type::Array(Some(3), Box::new(Type::Bool)));
    let ptr = Type::Ptr(Box::new(Type::U32));
    assert_eq!(ptr.inner_ty(), ptr.clone());
    assert_eq!(Type::Void.inner_ty(), Type::Void);
}

#[test]
fn types_compare_by_what_they_are() {
    assert_eq!(Type::Struct("S".to_string()), Type::Struct("S".to_string()));
    assert_ne!(Type::Struct("S".to_string()), Type::Struct("T".to_string()));
    assert_ne!(Type::Array(None, Box::new(Type::I32)), Type::Array(Some(1), Box::new(Type::I32)));
    assert_ne!(Type::Vec(2, Box::new(Type::I32)), Type::Vec(3, Box::new(Type::I32)));
    assert_ne!(Type::Atomic(Box::new(Type::I32)), Type::Ptr(Box::new(Type::I32)));
    assert_ne!(Type::Mat(2, 3, Box::new(Type::F32)), Type::Mat(3, 2, Box::new(Type::F32)));
}

#[test]
fn paths_grow_at_the_far_end() {
    let mut view = MemView::Whole;
    view.append_member("a".to_string());
    assert_eq!(view, MemView::Member("a".to_string(), Box::new(MemView::Whole)));
    view.append_index(3);
    assert_eq!(
        view,
        MemView::Member("a".to_string(), Box::new(MemView::Index(3, Box::new(MemView::Whole))))
    );
    view.append_member("b".to_string());
    assert_eq!(
        view,
        MemView::Member(
            "a".to_string(),
            Box::new(MemView::Index(
                3,
                Box::new(MemView::Member("b".to_string(), Box::new(MemView::Whole)))
            ))
        )
    );
    assert_eq!(view.clone(), view);
}

#[test]
fn vector_of_five_is_an_arity_error() {
    let five = vec![LiteralInstance::I32(0); 5];
    assert_eq!(VecInstance::new(five), Err(ConstEvalError::ArityMismatch(5)));
    assert_eq!(VecInstance::new(vec![]), Err(ConstEvalError::ArityMismatch(0)));
    assert_eq!(
        VecInstance::new(vec![LiteralInstance::Bool(true)]),
        Err(ConstEvalError::ArityMismatch(1))
    );
    assert_eq!(
        VecInner::<3>::new(vec![LiteralInstance::I32(0); 2]),
        Err(ConstEvalError::ArityMismatch(2))
    );
    assert_eq!(
        VecInner::<5>::new(vec![LiteralInstance::I32(0); 5]),
        Err(ConstEvalError::ArityMismatch(5))
    );
    assert_eq!(
        VecInner::<7>::new_with_value(&LiteralInstance::I32(0)),
        Err(ConstEvalError::ArityMismatch(7))
    );
}

#[test]
fn vectors_of_two_to_four() {
    let l = |v: u32| LiteralInstance::U32(v);
    match VecInstance::new(vec![l(1), l(2)]) {
        Ok(VecInstance::Vec2(v)) => assert_eq!(v.components, vec![l(1), l(2)]),
        other => panic!("{:?}", other),
    }
    match VecInstance::new(vec![l(1), l(2), l(3)]) {
        Ok(VecInstance::Vec3(v)) => assert_eq!(v.components, vec![l(1), l(2), l(3)]),
        other => panic!("{:?}", other),
    }
    let v = VecInstance::new(vec![l(1), l(2), l(3), l(4)]).unwrap();
    assert!(matches!(v, VecInstance::Vec4(_)));
    assert_eq!(v.n(), 4);
    assert_eq!(v.get(3), Some(&l(4)));
    assert_eq!(v.get(4), None);
    assert_eq!(v.iter(), &vec![l(1), l(2), l(3), l(4)]);
    assert_eq!(v.ty(), Type::Vec(4, Box::new(Type::U32)));
    assert_eq!(v.inner_ty(), Type::U32);
    assert_eq!(Instance::Vec(v).len(), 4);
    let filled = VecInner::<3>::new_with_value(&l(9)).unwrap();
    assert_eq!(filled.components, vec![l(9), l(9), l(9)]);
    assert_eq!(filled.ty(), Type::Vec(3, Box::new(Type::U32)));
}

#[test]
fn vector_components_can_be_written() {
    let mut v = VecInstance::new(vec![LiteralInstance::I32(1), LiteralInstance::I32(2)]).unwrap();
    v.iter_mut()[1] = LiteralInstance::I32(5);
    assert_eq!(v.get(1), Some(&LiteralInstance::I32(5)));
    assert_eq!(v.n(), 2);
}

#[test]
fn matrices_have_columns_and_rows() {
    let f = |v: f32| LiteralInstance::F32(v.to_bits());
    let col = |a: f32, b: f32, c: f32| VecInner::<3>::new(vec![f(a), f(b), f(c)]).unwrap();
    let m = MatInstance::Mat2x3(
        MatInner::<2, 3>::new(vec![col(1.0, 2.0, 3.0), col(4.0, 5.0, 6.0)]).unwrap(),
    );
    assert_eq!(m.c(), 2);
    assert_eq!(m.r(), 3);
    assert_eq!(m.get(1, 2), Some(&f(6.0)));
    assert_eq!(m.get(2, 0), None);
    assert_eq!(m.get(0, 3), None);
    assert_eq!(m.iter(), vec![f(1.0), f(2.0), f(3.0), f(4.0), f(5.0), f(6.0)]);
    match m.col(1) {
        Some(VecInstance::Vec3(v)) => assert_eq!(v.components, vec![f(4.0), f(5.0), f(6.0)]),
        other => panic!("{:?}", other),
    }
    assert_eq!(m.col(2), None);
    assert_eq!(m.ty(), Type::Mat(2, 3, Box::new(Type::Vec(3, Box::new(Type::F32)))));
    assert_eq!(m.inner_ty(), Type::Vec(3, Box::new(Type::F32)));
    assert_eq!(Instance::Mat(m).len(), 2);
}

#[test]
fn matrices_of_the_wrong_shape_are_arity_errors() {
    let col = || VecInner::<2>::new(vec![LiteralInstance::I32(0); 2]).unwrap();
    assert_eq!(MatInner::<3, 2>::new(vec![col(), col()]), Err(ConstEvalError::ArityMismatch(2)));
    assert_eq!(
        MatInner::<5, 2>::new(vec![col(), col(), col(), col(), col()]),
        Err(ConstEvalError::ArityMismatch(5))
    );
    let short = VecInner::<2> { components: vec![LiteralInstance::I32(0)] };
    assert_eq!(MatInner::<2, 2>::new(vec![col(), short]), Err(ConstEvalError::ArityMismatch(1)));
    assert_eq!(
        MatInner::<2, 9>::new_with_value(&LiteralInstance::I32(0)),
        Err(ConstEvalError::ArityMismatch(9))
    );
    let filled = MatInner::<4, 2>::new_with_value(&LiteralInstance::I32(3)).unwrap();
    assert_eq!(filled.iter(), vec![LiteralInstance::I32(3); 8]);
}

#[test]
fn arrays_hold_components_of_one_type() {
    let a = ArrayInstance::new(vec![i32_of(1), i32_of(2), i32_of(3)]).unwrap();
    assert_eq!(a.n(), 3);
    assert_eq!(a.get(2), Some(&i32_of(3)));
    assert_eq!(a.get(3), None);
    assert_eq!(a.ty(), Type::Array(None, Box::new(Type::I32)));
    assert_eq!(a.inner_ty(), Type::I32);
    assert_eq!(Instance::Array(a).len(), 3);
    assert_eq!(
        ArrayInstance::new(vec![i32_of(1), Instance::Literal(LiteralInstance::U32(2))]),
        Err(ConstEvalError::ComponentTypes)
    );
    assert_eq!(
        ArrayInstance::new(vec![
            i32_of(1),
            i32_of(2),
            Instance::Literal(LiteralInstance::Bool(true)),
            i32_of(4)
        ]),
        Err(ConstEvalError::ComponentTypes)
    );
    assert_eq!(
        ArrayInstance::new(vec![array(vec![i32_of(1)]), array(vec![])]),
        Err(ConstEvalError::ComponentTypes)
    );
    assert!(ArrayInstance::new(vec![]).is_ok());
}

#[test]
fn values_have_types() {
    assert_eq!(i32_of(1).ty(), Type::I32);
    assert_eq!(
        Instance::Literal(LiteralInstance::AbstractFloat(1.5f64.to_bits())).ty(),
        Type::AbstractFloat
    );
    assert_eq!(Instance::Literal(LiteralInstance::F16(0)).ty(), Type::F16);
    assert_eq!(record("S", vec![("a", i32_of(1))]).ty(), Type::Struct("S".to_string()));
    assert_eq!(
        array(vec![array(vec![i32_of(1)]), array(vec![i32_of(2)])]).ty(),
        Type::Array(None, Box::new(Type::Array(None, Box::new(Type::I32))))
    );
    assert_eq!(Instance::Type(vec3_f16()).ty(), vec3_f16());
    assert_eq!(Instance::Void.ty(), Type::Void);
    assert_eq!(Instance::Void.inner_ty(), Type::Void);
    assert!(!Instance::Array(ArrayInstance { components: vec![] }).is_typed());
    assert!(array(vec![i32_of(1)]).is_typed());
}

#[test]
fn length_is_zero_for_what_has_no_components() {
    assert_eq!(i32_of(1).len(), 0);
    assert_eq!(record("S", vec![("a", i32_of(1)), ("b", i32_of(2))]).len(), 0);
    assert_eq!(Instance::Void.len(), 0);
    assert_eq!(Instance::Type(Type::I32).len(), 0);
    assert_eq!(array(vec![]).len(), 0);
}

#[test]
fn paths_lead_into_structs_and_arrays() {
    let value = record(
        "S",
        vec![
            ("a", i32_of(1)),
            (
                "b",
                array(vec![
                    record("T", vec![("x", i32_of(7))]),
                    record("T", vec![("x", i32_of(8))]),
                ]),
            ),
        ],
    );
    assert_eq!(value.view(&path(&[])), Some(&value));
    assert_eq!(value.view(&path(&["a"])), Some(&i32_of(1)));
    assert_eq!(value.view(&path(&["b", "1", "x"])), Some(&i32_of(8)));
    assert_eq!(value.view(&path(&["b", "0"])), Some(&record("T", vec![("x", i32_of(7))])));
    assert_eq!(value.view(&path(&["c"])), None);
    assert_eq!(value.view(&path(&["b", "2"])), None);
    assert_eq!(value.view(&path(&["0"])), None);
    assert_eq!(value.view(&path(&["b", "x"])), None);
    assert_eq!(value.view(&path(&["a", "x"])), None);
    assert_eq!(value.view(&path(&["a", "0"])), None);
}

#[test]
fn writing_through_a_path_changes_that_part_only() {
    let mut value =
        record("S", vec![("a", i32_of(1)), ("b", array(vec![i32_of(7), i32_of(8), i32_of(9)]))]);
    *value.view_mut(&path(&["b", "1"])).unwrap() = i32_of(0);
    assert_eq!(
        value,
        record("S", vec![("a", i32_of(1)), ("b", array(vec![i32_of(7), i32_of(0), i32_of(9)]))])
    );
    *value.view_mut(&path(&["a"])).unwrap() = Instance::Void;
    assert_eq!(
        value,
        record(
            "S",
            vec![("a", Instance::Void), ("b", array(vec![i32_of(7), i32_of(0), i32_of(9)]))]
        )
    );
    assert!(value.view_mut(&path(&["b", "3"])).is_none());
    assert!(value.view_mut(&path(&["z"])).is_none());
    assert!(value.view_mut(&path(&["a", "0"])).is_none());
    *value.view_mut(&path(&[])).unwrap() = i32_of(5);
    assert_eq!(value, i32_of(5));
}

#[test]
fn struct_members_are_found_by_name() {
    let s = StructInstance {
        name: "S".to_string(),
        components: vec![("a".to_string(), i32_of(1)), ("b".to_string(), i32_of(2))],
    };
    assert_eq!(s.name(), "S");
    assert_eq!(s.position("b"), Some(1));
    assert_eq!(s.position("c"), None);
    assert_eq!(s.ty(), Type::Struct("S".to_string()));
}

#[test]
fn struct_members_are_inserted_like_map_entries() {
    let mut s = StructInstance::new("S".to_string());
    assert_eq!(s.insert("a".to_string(), i32_of(1)), None);
    assert_eq!(s.insert("b".to_string(), i32_of(2)), None);
    assert_eq!(s.insert("a".to_string(), i32_of(3)), Some(i32_of(1)));
    assert_eq!(s.components, vec![("a".to_string(), i32_of(3)), ("b".to_string(), i32_of(2))]);
    assert_eq!(s.get("a"), Some(&i32_of(3)));
    assert_eq!(s.get("c"), None);
}

#[test]
fn matrix_scalars_can_be_written() {
    let col = || VecInner::<2>::new(vec![LiteralInstance::I32(0); 2]).unwrap();
    let mut m = MatInstance::Mat2x2(MatInner::<2, 2>::new(vec![col(), col()]).unwrap());
    *m.get_mut(1, 0).unwrap() = LiteralInstance::I32(7);
    assert!(m.get_mut(2, 0).is_none());
    assert!(m.get_mut(0, 2).is_none());
    assert_eq!(
        m.iter(),
        vec![
            LiteralInstance::I32(0),
            LiteralInstance::I32(0),
            LiteralInstance::I32(7),
            LiteralInstance::I32(0)
        ]
    );
    let mut inner = MatInner::<2, 2>::new(vec![col(), col()]).unwrap();
    inner.iter_mut()[0].iter_mut()[1] = LiteralInstance::I32(4);
    assert_eq!(inner.get(0, 1), Some(&LiteralInstance::I32(4)));
}

#[test]
fn values_are_made_from_their_parts() {
    assert_eq!(
        Instance::from(LiteralInstance::from(true)),
        Instance::Literal(LiteralInstance::Bool(true))
    );
    assert_eq!(LiteralInstance::from(-1i64), LiteralInstance::AbstractInt(-1));
    assert_eq!(LiteralInstance::from(-1i32), LiteralInstance::I32(-1));
    assert_eq!(LiteralInstance::from(1u32), LiteralInstance::U32(1));
    assert_eq!(Instance::from(Type::Bool), Instance::Type(Type::Bool));
    let v = VecInner::<2>::new(vec![LiteralInstance::I32(0); 2]).unwrap();
    assert!(matches!(VecInstance::from(v), VecInstance::Vec2(_)));
    let a = ArrayInstance::new(vec![i32_of(1)]).unwrap();
    assert_eq!(Instance::from(a), array(vec![i32_of(1)]));
}

#[test]
fn a_copy_of_a_value_is_the_value() {
    let value = record(
        "S",
        vec![("a", i32_of(1)), ("b", array(vec![i32_of(7), i32_of(8)])), ("c", Instance::Void)],
    );
    assert_eq!(value.clone(), value);
    let v = Instance::Vec(VecInstance::new(vec![LiteralInstance::I32(0); 3]).unwrap());
    assert_eq!(v.clone(), v);
}
