use vstd::prelude::*;

verus! {

/// A path from a value to a value nested in it: `Whole` is the value itself,
/// `Member` and `Index` take one step and go on with the rest.
#[derive(Debug, PartialEq, Eq)]
pub enum MemView {
    Whole,
    Member(String, Box<MemView>),
    Index(usize, Box<MemView>),
}

/// One step of a path: into a member of a struct, or to a position of an array.
pub enum Step {
    Member(Seq<char>),
    Index(usize),
}

impl MemView {
    /// The steps of the path, the outermost first.
    pub open spec fn steps(self) -> Seq<Step>
        decreases self,
    {
        match self {
            MemView::Whole => Seq::empty(),
            MemView::Member(m, rest) => seq![Step::Member(m@)] + rest.steps(),
            MemView::Index(i, rest) => seq![Step::Index(i)] + rest.steps(),
        }
    }

    /// Extends the path by a step into the member `m`, at its far end.
    pub fn append_member(&mut self, m: String)
        ensures
            final(self)@ == old(self)@.push(Step::Member(m@)),
        decreases *old(self),
    {
        match self {
            MemView::Whole => {
                *self = MemView::Member(m, Box::new(MemView::Whole));
                proof {
                    reveal_with_fuel(MemView::steps, 2);
                }
                assert(self@ =~= Seq::<Step>::empty().push(Step::Member(m@)));
            },
            MemView::Member(_, v) => {
                v.append_member(m);
                assert(self@ =~= old(self)@.push(Step::Member(m@)));
            },
            MemView::Index(_, v) => {
                v.append_member(m);
                assert(self@ =~= old(self)@.push(Step::Member(m@)));
            },
        }
    }

    /// Extends the path by a step to the position `i`, at its far end.
    pub fn append_index(&mut self, i: usize)
        ensures
            final(self)@ == old(self)@.push(Step::Index(i)),
        decreases *old(self),
    {
        match self {
            MemView::Whole => {
                *self = MemView::Index(i, Box::new(MemView::Whole));
                proof {
                    reveal_with_fuel(MemView::steps, 2);
                }
                assert(self@ =~= Seq::<Step>::empty().push(Step::Index(i)));
            },
            MemView::Member(_, v) => {
                v.append_index(i);
                assert(self@ =~= old(self)@.push(Step::Index(i)));
            },
            MemView::Index(_, v) => {
                v.append_index(i);
                assert(self@ =~= old(self)@.push(Step::Index(i)));
            },
        }
    }

    pub fn copy(&self) -> (copy: MemView)
        ensures
            copy@ == self@,
        decreases self,
    {
        match self {
            MemView::Whole => MemView::Whole,
            MemView::Member(m, rest) => MemView::Member(m.clone(), Box::new(rest.copy())),
            MemView::Index(i, rest) => MemView::Index(*i, Box::new(rest.copy())),
        }
    }
}

impl View for MemView {
    type V = Seq<Step>;

    open spec fn view(&self) -> Seq<Step> {
        self.steps()
    }
}

impl Clone for MemView {
    fn clone(&self) -> (copy: MemView)
        ensures
            copy@ == self@,
    {
        self.copy()
    }
}

} // verus!
