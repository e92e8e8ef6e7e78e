use wesl::consteval::error::ConstEvalError;
use wesl::consteval::instance::{ArrayInstance, Instance, PtrInstance, RefInstance, StructInstance};
use wesl::consteval::literal::{LiteralInstance, Ty};
use wesl::consteval::memory::Memory;
use wesl::consteval::ty::Type;
use wesl::consteval::view::MemView;

fn num(value: u32) -> Instance {
    Instance::Literal(LiteralInstance::U32(value))
}

fn list(components: Vec<Instance>) -> Instance {
    Instance::Array(ArrayInstance::new(components).unwrap())
}

fn point(x: u32, y: u32) -> Instance {
    Instance::Struct(StructInstance {
        name: "Point".to_string(),
        components: vec![("x".to_string(), num(x)), ("y".to_string(), num(y))],
    })
}

fn member(name: &str, rest: MemView) -> MemView {
    MemView::Member(name.to_string(), Box::new(rest))
}

fn index(i: usize, rest: MemView) -> MemView {
    MemView::Index(i, Box::new(rest))
}

#[test]
fn reference_to_a_whole_value() {
    let mut memory = Memory::new();
    assert_eq!(memory.store(num(1)), 0);
    assert_eq!(memory.store(point(1, 2)), 1);
    let r = RefInstance::new(&memory, 1).unwrap();
    assert_eq!(
        r,
        RefInstance { ty: Type::Struct("Point".to_string()), view: MemView::Whole, ptr: 1 }
    );
    assert_eq!(r.ty(), Type::Struct("Point".to_string()));
    assert_eq!(RefInstance::new(&memory, 2), Err(ConstEvalError::InvalidReference));
    assert_eq!(memory.get(0), Some(&num(1)));
    assert_eq!(memory.get(2), None);
    let empty = memory.store(Instance::Array(ArrayInstance { components: vec![] }));
    assert_eq!(RefInstance::new(&memory, empty), Err(ConstEvalError::Untyped));
}

#[test]
fn narrowing_by_index_needs_an_array() {
    let mut memory = Memory::new();
    let s = memory.store(point(1, 2));
    let r = RefInstance::new(&memory, s).unwrap();
    assert_eq!(r.view_index(&memory, 0), None);
    let x = r.view_member(&memory, "x".to_string()).unwrap();
    assert_eq!(x.view_index(&memory, 0), None);
    assert_eq!(x.view_member(&memory, "x".to_string()), None);
    let a = memory.store(list(vec![num(1), num(2)]));
    let r = RefInstance::new(&memory, a).unwrap();
    assert_eq!(r.view_member(&memory, "x".to_string()), None);
    assert_eq!(r.view_index(&memory, 2), None);
}

#[test]
fn narrowing_extends_the_path_and_derives_the_type() {
    let mut memory = Memory::new();
    let a = memory.store(list(vec![point(1, 2), point(3, 4)]));
    let r = RefInstance::new(&memory, a).unwrap();
    assert_eq!(r.ty, Type::Array(None, Box::new(Type::Struct("Point".to_string()))));
    let second = r.view_index(&memory, 1).unwrap();
    assert_eq!(
        second,
        RefInstance {
            ty: Type::Struct("Point".to_string()),
            view: index(1, MemView::Whole),
            ptr: a,
        }
    );
    let y = second.view_member(&memory, "y".to_string()).unwrap();
    assert_eq!(
        y,
        RefInstance { ty: Type::U32, view: index(1, member("y", MemView::Whole)), ptr: a }
    );
    assert_eq!(second.view_member(&memory, "z".to_string()), None);
    let guard = y.deref_inst(&mut memory).unwrap();
    assert_eq!(guard.deref(&memory), Some(&num(4)));
    guard.release(&mut memory);
}

#[test]
fn readers_share_and_writers_exclude() {
    let mut memory = Memory::new();
    let p = memory.store(point(1, 2));
    let mut r = RefInstance::new(&memory, p).unwrap();
    let first = r.deref_inst(&mut memory).unwrap();
    let second = r.deref_inst(&mut memory).unwrap();
    assert_eq!(memory.slots[p].readers, 2);
    assert_eq!(r.deref_inst_mut(&mut memory), Err(ConstEvalError::BorrowConflict));
    first.release(&mut memory);
    assert_eq!(r.deref_inst_mut(&mut memory), Err(ConstEvalError::BorrowConflict));
    second.release(&mut memory);
    assert_eq!(memory.slots[p].readers, 0);
    let writer = r.deref_inst_mut(&mut memory).unwrap();
    assert!(memory.slots[p].writer);
    assert_eq!(r.deref_inst(&mut memory), Err(ConstEvalError::BorrowConflict));
    assert_eq!(r.deref_inst_mut(&mut memory), Err(ConstEvalError::BorrowConflict));
    assert_eq!(RefInstance::new(&memory, p), Err(ConstEvalError::BorrowConflict));
    assert_eq!(r.view_member(&memory, "x".to_string()), None);
    writer.release(&mut memory);
    assert!(!memory.slots[p].writer);
    assert!(r.deref_inst(&mut memory).is_ok());
}

#[test]
fn writing_through_a_reference_changes_the_memory() {
    let mut memory = Memory::new();
    let other = memory.store(num(9));
    let a = memory.store(list(vec![point(1, 2), point(3, 4)]));
    let r = RefInstance::new(&memory, a).unwrap();
    let mut x = r.view_index(&memory, 0).unwrap().view_member(&memory, "x".to_string()).unwrap();
    let writer = x.deref_inst_mut(&mut memory).unwrap();
    assert_eq!(writer.deref(&memory), Some(&num(1)));
    *writer.deref_mut(&mut memory).unwrap() = num(7);
    assert_eq!(writer.deref(&memory), Some(&num(7)));
    writer.release(&mut memory);
    assert_eq!(memory.get(a), Some(&list(vec![point(7, 2), point(3, 4)])));
    assert_eq!(memory.get(other), Some(&num(9)));
}

#[test]
fn a_path_that_leads_nowhere_is_an_error() {
    let mut memory = Memory::new();
    let p = memory.store(point(1, 2));
    let mut r =
        RefInstance { ty: Type::U32, view: member("z", MemView::Whole), ptr: p };
    assert_eq!(r.deref_inst(&mut memory), Err(ConstEvalError::InvalidReference));
    assert_eq!(r.deref_inst_mut(&mut memory), Err(ConstEvalError::InvalidReference));
    let mut dangling = RefInstance { ty: Type::U32, view: MemView::Whole, ptr: 5 };
    assert_eq!(dangling.deref_inst(&mut memory), Err(ConstEvalError::InvalidReference));
    assert_eq!(dangling.deref_inst_mut(&mut memory), Err(ConstEvalError::InvalidReference));
    assert_eq!(memory.slots[p].readers, 0);
    assert!(!memory.slots[p].writer);
}

#[test]
fn pointers_and_references_convert() {
    let r = RefInstance { ty: Type::U32, view: index(2, MemView::Whole), ptr: 3 };
    let p = PtrInstance::from(r);
    assert_eq!(p, PtrInstance { ty: Type::U32, view: index(2, MemView::Whole), ptr: 3 });
    assert_eq!(p.ty(), Type::Ptr(Box::new(Type::U32)));
    let back = RefInstance::from(p);
    assert_eq!(back, RefInstance { ty: Type::U32, view: index(2, MemView::Whole), ptr: 3 });
    assert_eq!(Instance::Ref(back).ty(), Type::U32);
}
