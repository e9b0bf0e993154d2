//! The undo history of the circle drawer: every drawing that was saved, and
//! which of them is on screen.
use vstd::prelude::*;
use crate::circle_map::Circles;
use crate::geometry::{Coord, Radius};

verus! {

/// A history in the abstract: the saved drawings, oldest first, and the
/// position of the one on screen.
pub type History = (Seq<Map<Coord, Radius>>, int);

/// The position of the drawing on screen lies within the history.
pub open spec fn history_wf(h: History) -> bool {
    0 <= h.1 < h.0.len()
}

/// The history of a new drawer: one empty drawing.
pub open spec fn fresh_history() -> History {
    (seq![Map::<Coord, Radius>::empty()], 0)
}

/// The drawing on screen.
pub open spec fn shown(h: History) -> Map<Coord, Radius> {
    h.0[h.1]
}

/// There is an earlier drawing to go back to.
pub open spec fn undo_possible(h: History) -> bool {
    h.1 > 0
}

/// There is a later drawing to go forward to.
pub open spec fn redo_possible(h: History) -> bool {
    h.1 + 1 < h.0.len()
}

/// Saving forgets the drawings after the one on screen and puts a copy of
/// it on top, which is then shown.
pub open spec fn saved(h: History) -> History {
    (h.0.take(h.1 + 1).push(h.0[h.1]), h.1 + 1)
}

/// Undoing shows the drawing before.
pub open spec fn undone(h: History) -> History {
    (h.0, h.1 - 1)
}

/// Redoing shows the drawing after.
pub open spec fn redone(h: History) -> History {
    (h.0, h.1 + 1)
}

/// Setting a circle changes the drawing on screen alone.
pub open spec fn with_circle(h: History, c: Coord, r: Radius) -> History {
    (h.0.update(h.1, h.0[h.1].insert(c, r)), h.1)
}

/// The saved drawings of the circle drawer and the one it shows.
pub struct Model {
    states: Vec<Circles>,
    current_state_index: usize,
}

impl View for Model {
    type V = History;

    closed spec fn view(&self) -> History {
        (self.states@.map_values(|c: Circles| c@), self.current_state_index as int)
    }
}

impl Model {
    /// The shown drawing lies within the history.
    pub open spec fn wf(&self) -> bool {
        history_wf(self@)
    }

    /// A history of one empty drawing.
    pub fn new() -> (m: Self)
        ensures
            m.wf(),
            m@ == fresh_history(),
    {
        let mut states: Vec<Circles> = Vec::new();
        states.push(Circles::new());
        let m = Model { states, current_state_index: 0 };
        assert(m@.0 =~= fresh_history().0);
        m
    }

    /// Forgets the drawings after the one on screen, then saves a copy of it
    /// on top and shows the copy.
    pub fn save(&mut self)
        requires
            old(self).wf(),
        ensures
            final(self).wf(),
            final(self)@ == saved(old(self)@),
    {
        let ghost h = self@;
        while self.current_state_index < self.states.len() - 1
            invariant
                self.current_state_index < self.states@.len(),
                self.current_state_index == h.1,
                self.states@.len() <= h.0.len(),
                self@.0 == h.0.take(self.states@.len() as int),
            decreases self.states@.len(),
        {
            self.states.pop();
            assert(self@.0 =~= h.0.take(self.states@.len() as int));
        }
        assert(self.states@.len() == h.1 + 1);
        assert(self@.0[h.1] == h.0[h.1]);
        let copy = self.states[self.current_state_index].duplicate();
        let ghost before = self.states@;
        let n = self.states.len();
        assert(self.current_state_index + 1 == n);
        self.states.push(copy);
        assert(self.states@ == before.push(copy));
        self.current_state_index = self.current_state_index + 1;
        assert(self@.0 =~= saved(h).0);
    }

    /// Shows the drawing before.
    pub fn undo(&mut self)
        requires
            old(self).wf(),
            undo_possible(old(self)@),
        ensures
            final(self).wf(),
            final(self)@ == undone(old(self)@),
    {
        self.current_state_index = self.current_state_index - 1;
    }

    /// There is an earlier drawing.
    pub fn can_undo(&self) -> (b: bool)
        ensures
            b == undo_possible(self@),
    {
        self.current_state_index > 0
    }

    /// Shows the drawing after.
    pub fn redo(&mut self)
        requires
            old(self).wf(),
            redo_possible(old(self)@),
        ensures
            final(self).wf(),
            final(self)@ == redone(old(self)@),
    {
        assert(self@.0.len() == self.states@.len());
        let n = self.states.len();
        assert(self.current_state_index + 1 < n);
        self.current_state_index = self.current_state_index + 1;
    }

    /// There is a later drawing.
    pub fn can_redo(&self) -> (b: bool)
        requires
            self.wf(),
        ensures
            b == redo_possible(self@),
    {
        self.current_state_index < self.states.len() - 1
    }

    /// Sets the circle at `coord` in the drawing on screen to `radius`.
    pub fn set(&mut self, coord: Coord, radius: Radius)
        requires
            old(self).wf(),
        ensures
            final(self).wf(),
            final(self)@ == with_circle(old(self)@, coord, radius),
    {
        let ghost h = self@;
        let i = self.current_state_index;
        self.states[i].insert(coord, radius);
        assert(self@.0 =~= with_circle(h, coord, radius).0);
    }

    /// The drawing on screen.
    pub fn circles(&self) -> (c: &Circles)
        requires
            self.wf(),
        ensures
            c@ == shown(self@),
    {
        &self.states[self.current_state_index]
    }
}

/// Undoing and then redoing gives back the history as it was.
pub proof fn lemma_undo_then_redo(h: History)
    requires
        history_wf(h),
        undo_possible(h),
    ensures
        history_wf(undone(h)),
        redo_possible(undone(h)),
        redone(undone(h)) == h,
{
}

/// Redoing and then undoing gives back the history as it was.
pub proof fn lemma_redo_then_undo(h: History)
    requires
        history_wf(h),
        redo_possible(h),
    ensures
        history_wf(redone(h)),
        undo_possible(redone(h)),
        undone(redone(h)) == h,
{
}

/// Saving keeps the drawing on screen, makes undo possible and redo
/// impossible.
pub proof fn lemma_save(h: History)
    requires
        history_wf(h),
    ensures
        history_wf(saved(h)),
        shown(saved(h)) == shown(h),
        undo_possible(saved(h)),
        !redo_possible(saved(h)),
{
}

/// An edit made after saving is taken back by one undo, and brought back by
/// one redo; the drawings before it are kept.
pub proof fn lemma_edit_undo_redo(h: History, c: Coord, r: Radius)
    requires
        history_wf(h),
    ensures
        ({
            let edited = with_circle(saved(h), c, r);
            &&& history_wf(edited)
            &&& shown(edited) == shown(h).insert(c, r)
            &&& undo_possible(edited)
            &&& shown(undone(edited)) == shown(h)
            &&& redo_possible(undone(edited))
            &&& shown(redone(undone(edited))) == shown(h).insert(c, r)
            &&& forall|i: int| 0 <= i <= h.1 ==> #[trigger] edited.0[i] == h.0[i]
        }),
{
}

/// Every operation keeps the position within the history.
pub proof fn lemma_operations_keep_wf(h: History, c: Coord, r: Radius)
    requires
        history_wf(h),
    ensures
        history_wf(saved(h)),
        history_wf(with_circle(h, c, r)),
        undo_possible(h) ==> history_wf(undone(h)),
        redo_possible(h) ==> history_wf(redone(h)),
        history_wf(fresh_history()),
{
}

} // verus!
