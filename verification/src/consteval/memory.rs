use crate::consteval::error::{ConstEvalError, ConstEvalErrorView};
use crate::consteval::instance::{
    has_type, replaced, resolve, type_of_value, Instance, InstanceView, PointerView, PtrInstance,
    RefInstance,
};
use crate::consteval::view::{MemView, Step};
use vstd::prelude::*;
use vstd::std_specs::convert::FromSpecImpl;

verus! {

/// A value of the memory and how it is borrowed at the moment: by a number
/// of readers, or by one writer.
#[derive(Debug, PartialEq)]
pub struct Slot {
    pub value: Instance,
    pub readers: usize,
    pub writer: bool,
}

pub struct SlotView {
    pub value: InstanceView,
    pub readers: usize,
    pub writer: bool,
}

impl View for Slot {
    type V = SlotView;

    open spec fn view(&self) -> SlotView {
        SlotView { value: self.value.model(), readers: self.readers, writer: self.writer }
    }
}

/// The values that pointers and references lead to. A value is found by its
/// place, which it keeps for as long as the memory lasts.
#[derive(Debug, PartialEq)]
pub struct Memory {
    pub slots: Vec<Slot>,
}

impl View for Memory {
    type V = Seq<SlotView>;

    open spec fn view(&self) -> Seq<SlotView> {
        Seq::new(self.slots@.len(), |i: int| self.slots@[i]@)
    }
}

/// The part of the memory that a reference may read: an error where the
/// place is not in the memory, where the value is borrowed by a writer, or
/// where the path leads nowhere, in this order.
pub open spec fn readable(memory: Seq<SlotView>, ptr: usize, path: Seq<Step>) -> Result<
    InstanceView,
    ConstEvalErrorView,
> {
    if ptr >= memory.len() {
        Err(ConstEvalErrorView::InvalidReference)
    } else if memory[ptr as int].writer {
        Err(ConstEvalErrorView::BorrowConflict)
    } else {
        match resolve(memory[ptr as int].value, path) {
            Some(part) => Ok(part),
            None => Err(ConstEvalErrorView::InvalidReference),
        }
    }
}

/// What a new reader finds: what is readable, unless the readers cannot be
/// counted any further.
pub open spec fn read_borrow(memory: Seq<SlotView>, ptr: usize, path: Seq<Step>) -> Result<
    InstanceView,
    ConstEvalErrorView,
> {
    if ptr < memory.len() && !memory[ptr as int].writer && memory[ptr as int].readers
        == usize::MAX {
        Err(ConstEvalErrorView::BorrowConflict)
    } else {
        readable(memory, ptr, path)
    }
}

/// What a new writer finds: an error where the place is not in the memory,
/// where the value is borrowed at all, or where the path leads nowhere, in
/// this order.
pub open spec fn write_borrow(memory: Seq<SlotView>, ptr: usize, path: Seq<Step>) -> Result<
    InstanceView,
    ConstEvalErrorView,
> {
    if ptr < memory.len() && memory[ptr as int].readers > 0 {
        Err(ConstEvalErrorView::BorrowConflict)
    } else {
        readable(memory, ptr, path)
    }
}

/// The memory with the way a value is borrowed changed.
pub open spec fn borrowed(memory: Seq<SlotView>, ptr: usize, readers: usize, writer: bool) -> Seq<
    SlotView,
> {
    memory.update(ptr as int, SlotView { readers, writer, ..memory[ptr as int] })
}

impl Memory {
    pub fn new() -> (memory: Memory)
        ensures
            memory@ == Seq::<SlotView>::empty(),
    {
        let memory = Memory { slots: Vec::new() };
        assert(memory@ =~= Seq::<SlotView>::empty());
        memory
    }

    /// Puts a value into the memory and returns its place.
    pub fn store(&mut self, value: Instance) -> (ptr: usize)
        ensures
            ptr == old(self)@.len(),
            final(self)@ == old(self)@.push(
                SlotView { value: value.model(), readers: 0, writer: false },
            ),
    {
        let ptr = self.slots.len();
        self.slots.push(Slot { value, readers: 0, writer: false });
        assert(self@ =~= old(self)@.push(
            SlotView { value: value.model(), readers: 0, writer: false },
        ));
        ptr
    }

    /// The value at a place, however it is borrowed.
    pub fn get(&self, ptr: usize) -> (value: Option<&Instance>)
        ensures
            match value {
                Some(v) => ptr < self@.len() && v.model() == self@[ptr as int].value,
                None => ptr >= self@.len(),
            },
    {
        if ptr < self.slots.len() {
            Some(&self.slots[ptr].value)
        } else {
            None
        }
    }

    /// The part of a value that a reader may see.
    fn read(&self, ptr: usize, view: &MemView) -> (part: Result<&Instance, ConstEvalError>)
        ensures
            match part {
                Ok(p) => readable(self@, ptr, view@) == Ok::<InstanceView, ConstEvalErrorView>(
                    p.model(),
                ),
                Err(e) => readable(self@, ptr, view@) == Err::<InstanceView, ConstEvalErrorView>(
                    e@,
                ),
            },
    {
        if ptr >= self.slots.len() {
            return Err(ConstEvalError::InvalidReference);
        }
        if self.slots[ptr].writer {
            return Err(ConstEvalError::BorrowConflict);
        }
        match self.slots[ptr].value.view(view) {
            Some(part) => Ok(part),
            None => Err(ConstEvalError::InvalidReference),
        }
    }
}

/// A reference narrowed to the part that `path` leads to, where a reader
/// may see that part and its type can be read off.
pub open spec fn narrowed(memory: Seq<SlotView>, ptr: usize, path: Seq<Step>) -> Option<
    PointerView,
> {
    match readable(memory, ptr, path) {
        Ok(part) => if has_type(part) {
            Some(PointerView { ty: type_of_value(part), view: path, ptr })
        } else {
            None
        },
        Err(_) => None,
    }
}

impl RefInstance {
    /// A reference to the whole value at a place of the memory.
    pub fn new(memory: &Memory, ptr: usize) -> (result: Result<RefInstance, ConstEvalError>)
        ensures
            match result {
                Ok(r) => {
                    &&& readable(memory@, ptr, Seq::empty()) is Ok
                    &&& narrowed(memory@, ptr, Seq::empty()) == Some(r@)
                },
                Err(e) => match readable(memory@, ptr, Seq::empty()) {
                    Err(err) => e@ == err,
                    Ok(part) => !has_type(part) && e@ == ConstEvalErrorView::Untyped,
                },
            },
    {
        let view = MemView::Whole;
        match memory.read(ptr, &view) {
            Err(e) => Err(e),
            Ok(part) => {
                if part.is_typed() {
                    Ok(RefInstance { ty: part.derive_type(), view, ptr })
                } else {
                    Err(ConstEvalError::Untyped)
                }
            },
        }
    }

    /// The reference narrowed to a member of the struct it refers to. There
    /// is none where the narrowed path leads nowhere in the value as it is
    /// now, where the value is borrowed by a writer, or where the type of the
    /// member cannot be read off.
    pub fn view_member(&self, memory: &Memory, member: String) -> (narrow: Option<RefInstance>)
        ensures
            match narrow {
                Some(r) => narrowed(memory@, self.ptr, self.view@.push(Step::Member(member@)))
                    == Some(r@),
                None => narrowed(memory@, self.ptr, self.view@.push(Step::Member(member@)))
                    is None,
            },
    {
        let mut view = self.view.clone();
        view.append_member(member);
        RefInstance::narrow(memory, self.ptr, view)
    }

    /// The reference narrowed to a position of the array it refers to. There
    /// is none where the narrowed path leads nowhere in the value as it is
    /// now, where the value is borrowed by a writer, or where the type of the
    /// component cannot be read off.
    pub fn view_index(&self, memory: &Memory, index: usize) -> (narrow: Option<RefInstance>)
        ensures
            match narrow {
                Some(r) => narrowed(memory@, self.ptr, self.view@.push(Step::Index(index)))
                    == Some(r@),
                None => narrowed(memory@, self.ptr, self.view@.push(Step::Index(index))) is None,
            },
    {
        let mut view = self.view.clone();
        view.append_index(index);
        RefInstance::narrow(memory, self.ptr, view)
    }

    fn narrow(memory: &Memory, ptr: usize, view: MemView) -> (narrow: Option<RefInstance>)
        ensures
            match narrow {
                Some(r) => narrowed(memory@, ptr, view@) == Some(r@),
                None => narrowed(memory@, ptr, view@) is None,
            },
    {
        match memory.read(ptr, &view) {
            Err(_) => None,
            Ok(part) => {
                if part.is_typed() {
                    Some(RefInstance { ty: part.derive_type(), view, ptr })
                } else {
                    None
                }
            },
        }
    }
}

/// The right to read the part of the memory that a reference leads to,
/// until it is released.
#[derive(Debug, PartialEq)]
pub struct RefView {
    pub ptr: usize,
    pub view: MemView,
}

/// The right to read and write the part of the memory that a reference
/// leads to, until it is released.
#[derive(Debug, PartialEq)]
pub struct RefViewMut {
    pub ptr: usize,
    pub view: MemView,
}

/// The part of the memory that a path leads to from a place.
pub open spec fn target(memory: Seq<SlotView>, ptr: usize, path: Seq<Step>) -> Option<
    InstanceView,
> {
    if ptr < memory.len() {
        resolve(memory[ptr as int].value, path)
    } else {
        None
    }
}

impl Memory {
    /// The part of the memory that a path leads to from a place.
    fn part(&self, ptr: usize, view: &MemView) -> (part: Option<&Instance>)
        ensures
            match part {
                Some(p) => target(self@, ptr, view@) == Some(p.model()),
                None => target(self@, ptr, view@) is None,
            },
    {
        if ptr < self.slots.len() {
            self.slots[ptr].value.view(view)
        } else {
            None
        }
    }

    /// Changes how the value at a place is borrowed.
    fn mark(&mut self, ptr: usize, readers: usize, writer: bool)
        requires
            ptr < old(self)@.len(),
        ensures
            final(self)@ == borrowed(old(self)@, ptr, readers, writer),
    {
        let slot = &mut self.slots[ptr];
        slot.readers = readers;
        slot.writer = writer;
        assert(self@ =~= borrowed(old(self)@, ptr, readers, writer));
    }
}

impl RefInstance {
    /// Borrows what the reference leads to, for reading. The value is
    /// counted as read by one more reader until the borrow is released.
    ///
    /// It is an error to read what a writer has borrowed, and to follow a
    /// path that leads nowhere; the memory is then left as it was.
    pub fn deref_inst(&self, memory: &mut Memory) -> (result: Result<RefView, ConstEvalError>)
        ensures
            match result {
                Ok(guard) => {
                    &&& read_borrow(old(memory)@, self.ptr, self.view@) is Ok
                    &&& guard.ptr == self.ptr
                    &&& guard.view@ == self.view@
                    &&& final(memory)@ == borrowed(
                        old(memory)@,
                        self.ptr,
                        (old(memory)@[self.ptr as int].readers + 1) as usize,
                        false,
                    )
                },
                Err(e) => {
                    &&& read_borrow(old(memory)@, self.ptr, self.view@) == Err::<
                        InstanceView,
                        ConstEvalErrorView,
                    >(e@)
                    &&& final(memory)@ == old(memory)@
                },
            },
    {
        if self.ptr >= memory.slots.len() {
            return Err(ConstEvalError::InvalidReference);
        }
        let readers = memory.slots[self.ptr].readers;
        if memory.slots[self.ptr].writer || readers == usize::MAX {
            return Err(ConstEvalError::BorrowConflict);
        }
        if memory.part(self.ptr, &self.view).is_none() {
            return Err(ConstEvalError::InvalidReference);
        }
        memory.mark(self.ptr, readers + 1, false);
        Ok(RefView { ptr: self.ptr, view: self.view.clone() })
    }

    /// Borrows what the reference leads to, for writing. The value is
    /// counted as borrowed by a writer until the borrow is released.
    ///
    /// It is an error to write what is borrowed at all, and to follow a path
    /// that leads nowhere; the memory is then left as it was.
    pub fn deref_inst_mut(&mut self, memory: &mut Memory) -> (result: Result<
        RefViewMut,
        ConstEvalError,
    >)
        ensures
            *final(self) == *old(self),
            match result {
                Ok(guard) => {
                    &&& write_borrow(old(memory)@, old(self).ptr, old(self).view@) is Ok
                    &&& guard.ptr == old(self).ptr
                    &&& guard.view@ == old(self).view@
                    &&& final(memory)@ == borrowed(old(memory)@, old(self).ptr, 0, true)
                },
                Err(e) => {
                    &&& write_borrow(old(memory)@, old(self).ptr, old(self).view@) == Err::<
                        InstanceView,
                        ConstEvalErrorView,
                    >(e@)
                    &&& final(memory)@ == old(memory)@
                },
            },
    {
        if self.ptr >= memory.slots.len() {
            return Err(ConstEvalError::InvalidReference);
        }
        if memory.slots[self.ptr].readers > 0 || memory.slots[self.ptr].writer {
            return Err(ConstEvalError::BorrowConflict);
        }
        if memory.part(self.ptr, &self.view).is_none() {
            return Err(ConstEvalError::InvalidReference);
        }
        memory.mark(self.ptr, 0, true);
        Ok(RefViewMut { ptr: self.ptr, view: self.view.clone() })
    }
}

impl RefView {
    /// What the borrow leads to.
    pub fn deref<'a>(&self, memory: &'a Memory) -> (part: Option<&'a Instance>)
        ensures
            match part {
                Some(p) => target(memory@, self.ptr, self.view@) == Some(p.model()),
                None => target(memory@, self.ptr, self.view@) is None,
            },
    {
        memory.part(self.ptr, &self.view)
    }

    /// Ends the borrow: the value has one reader less.
    pub fn release(self, memory: &mut Memory)
        ensures
            final(memory)@ == if self.ptr < old(memory)@.len()
                && old(memory)@[self.ptr as int].readers > 0 {
                borrowed(
                    old(memory)@,
                    self.ptr,
                    (old(memory)@[self.ptr as int].readers - 1) as usize,
                    old(memory)@[self.ptr as int].writer,
                )
            } else {
                old(memory)@
            },
    {
        if self.ptr < memory.slots.len() {
            let readers = memory.slots[self.ptr].readers;
            let writer = memory.slots[self.ptr].writer;
            if readers > 0 {
                memory.mark(self.ptr, readers - 1, writer);
            }
        }
    }
}

impl RefViewMut {
    /// What the borrow leads to.
    pub fn deref<'a>(&self, memory: &'a Memory) -> (part: Option<&'a Instance>)
        ensures
            match part {
                Some(p) => target(memory@, self.ptr, self.view@) == Some(p.model()),
                None => target(memory@, self.ptr, self.view@) is None,
            },
    {
        memory.part(self.ptr, &self.view)
    }

    /// What the borrow leads to, for writing. What is written there
    /// replaces that part of the value in the memory; the rest of the
    /// memory stays as it is.
    pub fn deref_mut<'a>(&self, memory: &'a mut Memory) -> (part: Option<&'a mut Instance>)
        ensures
            match part {
                Some(p) => {
                    &&& target(old(memory)@, self.ptr, self.view@) == Some(p.model())
                    &&& final(memory)@ == old(memory)@.update(
                        self.ptr as int,
                        SlotView {
                            value: replaced(
                                old(memory)@[self.ptr as int].value,
                                self.view@,
                                final(p).model(),
                            ),
                            ..old(memory)@[self.ptr as int]
                        },
                    )
                },
                None => {
                    &&& target(old(memory)@, self.ptr, self.view@) is None
                    &&& final(memory)@ == old(memory)@
                },
            },
    {
        if self.ptr < memory.slots.len() {
            let ghost slots = memory.slots@;
            let ghost future = *final(memory);
            let part = memory.slots[self.ptr].value.view_mut(&self.view);
            proof {
                let ptr = self.ptr as int;
                assert(future@ =~= old(memory)@.update(ptr, future.slots@[ptr]@));
                if part is None {
                    assert(future@ =~= old(memory)@);
                }
            }
            part
        } else {
            None
        }
    }

    /// Ends the borrow: the value has no writer any more.
    pub fn release(self, memory: &mut Memory)
        ensures
            final(memory)@ == if self.ptr < old(memory)@.len() {
                borrowed(
                    old(memory)@,
                    self.ptr,
                    old(memory)@[self.ptr as int].readers,
                    false,
                )
            } else {
                old(memory)@
            },
    {
        if self.ptr < memory.slots.len() {
            let readers = memory.slots[self.ptr].readers;
            memory.mark(self.ptr, readers, false);
        }
    }
}

impl From<RefInstance> for PtrInstance {
    fn from(r: RefInstance) -> (p: PtrInstance) {
        PtrInstance { ty: r.ty, view: r.view, ptr: r.ptr }
    }
}

impl FromSpecImpl<RefInstance> for PtrInstance {
    open spec fn obeys_from_spec() -> bool {
        true
    }

    /// A pointer to what the reference refers to.
    open spec fn from_spec(r: RefInstance) -> PtrInstance {
        PtrInstance { ty: r.ty, view: r.view, ptr: r.ptr }
    }
}

impl From<PtrInstance> for RefInstance {
    fn from(p: PtrInstance) -> (r: RefInstance) {
        RefInstance { ty: p.ty, view: p.view, ptr: p.ptr }
    }
}

impl FromSpecImpl<PtrInstance> for RefInstance {
    open spec fn obeys_from_spec() -> bool {
        true
    }

    /// A reference to what the pointer points to.
    open spec fn from_spec(p: PtrInstance) -> RefInstance {
        RefInstance { ty: p.ty, view: p.view, ptr: p.ptr }
    }
}

} // verus!
