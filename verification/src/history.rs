use vstd::prelude::*;

verus! {

/// The strokes of a drawing, the stroke being drawn, and the strokes that
/// undo took back (most recently undone last).
pub struct StrokeHistory<T> {
    pub strokes: Vec<T>,
    pub current_stroke: Option<T>,
    pub undo_stack: Vec<T>,
}

/// The two stacks after an undo: the last stroke moves onto the undo stack;
/// with no stroke nothing moves.
pub open spec fn undone<T>(strokes: Seq<T>, undo: Seq<T>) -> (Seq<T>, Seq<T>) {
    if strokes.len() == 0 {
        (strokes, undo)
    } else {
        (strokes.drop_last(), undo.push(strokes.last()))
    }
}

/// The two stacks after a redo: the most recently undone stroke moves back;
/// with nothing undone nothing moves.
pub open spec fn redone<T>(strokes: Seq<T>, undo: Seq<T>) -> (Seq<T>, Seq<T>) {
    if undo.len() == 0 {
        (strokes, undo)
    } else {
        (strokes.push(undo.last()), undo.drop_last())
    }
}

/// Every stroke drawn and not discarded, in drawing order: the visible
/// strokes followed by the undone ones, earliest undone last.
pub open spec fn timeline<T>(strokes: Seq<T>, undo: Seq<T>) -> Seq<T> {
    strokes + undo.reverse()
}

impl<T> StrokeHistory<T> {
    /// An empty drawing.
    pub fn new() -> (h: Self)
        ensures
            h.strokes@ == Seq::<T>::empty(),
            h.current_stroke is None,
            h.undo_stack@ == Seq::<T>::empty(),
    {
        StrokeHistory { strokes: Vec::new(), current_stroke: None, undo_stack: Vec::new() }
    }

    /// Starts drawing `stroke`, replacing any stroke being drawn.
    pub fn begin_stroke(&mut self, stroke: T)
        ensures
            final(self).current_stroke == Some(stroke),
            final(self).strokes@ == old(self).strokes@,
            final(self).undo_stack@ == old(self).undo_stack@,
    {
        self.current_stroke = Some(stroke);
    }

    /// Takes the stroke being drawn, leaving none.
    pub fn take_current_stroke(&mut self) -> (s: Option<T>)
        ensures
            s == old(self).current_stroke,
            final(self).current_stroke is None,
            final(self).strokes@ == old(self).strokes@,
            final(self).undo_stack@ == old(self).undo_stack@,
    {
        self.current_stroke.take()
    }

    /// Adds a finished stroke. What was undone can no longer be redone.
    pub fn commit(&mut self, stroke: T)
        ensures
            final(self).strokes@ == old(self).strokes@.push(stroke),
            final(self).undo_stack@ == Seq::<T>::empty(),
            final(self).current_stroke == old(self).current_stroke,
    {
        self.strokes.push(stroke);
        self.undo_stack.clear();
    }

    /// Takes back the last stroke. Returns whether there was one.
    pub fn undo(&mut self) -> (moved: bool)
        ensures
            moved == (old(self).strokes@.len() > 0),
            (final(self).strokes@, final(self).undo_stack@)
                == undone(old(self).strokes@, old(self).undo_stack@),
            final(self).current_stroke == old(self).current_stroke,
    {
        match self.strokes.pop() {
            Some(stroke) => {
                self.undo_stack.push(stroke);
                true
            },
            None => false,
        }
    }

    /// Restores the most recently undone stroke. Returns whether there was
    /// one.
    pub fn redo(&mut self) -> (moved: bool)
        ensures
            moved == (old(self).undo_stack@.len() > 0),
            (final(self).strokes@, final(self).undo_stack@)
                == redone(old(self).strokes@, old(self).undo_stack@),
            final(self).current_stroke == old(self).current_stroke,
    {
        match self.undo_stack.pop() {
            Some(stroke) => {
                self.strokes.push(stroke);
                true
            },
            None => false,
        }
    }
}

/// Redo right after an undo that took a stroke back restores both stacks.
pub proof fn lemma_redo_reverts_undo<T>(strokes: Seq<T>, undo: Seq<T>)
    requires
        strokes.len() > 0,
    ensures
        redone(undone(strokes, undo).0, undone(strokes, undo).1) == (strokes, undo),
{
    assert(strokes.drop_last().push(strokes.last()) =~= strokes);
    assert(undo.push(strokes.last()).drop_last() =~= undo);
}

/// Undo right after a redo that restored a stroke restores both stacks.
pub proof fn lemma_undo_reverts_redo<T>(strokes: Seq<T>, undo: Seq<T>)
    requires
        undo.len() > 0,
    ensures
        undone(redone(strokes, undo).0, redone(strokes, undo).1) == (strokes, undo),
{
    assert(undo.drop_last().push(undo.last()) =~= undo);
    assert(strokes.push(undo.last()).drop_last() =~= strokes);
}

/// Undo never loses or reorders a stroke: the timeline stays the same.
pub proof fn lemma_undo_keeps_timeline<T>(strokes: Seq<T>, undo: Seq<T>)
    ensures
        timeline(undone(strokes, undo).0, undone(strokes, undo).1) == timeline(strokes, undo),
{
    if strokes.len() > 0 {
        let s2 = strokes.drop_last();
        let u2 = undo.push(strokes.last());
        assert(u2.reverse() =~= seq![strokes.last()] + undo.reverse());
        assert(s2 + u2.reverse() =~= strokes + undo.reverse());
    }
}

/// Redo never loses or reorders a stroke: the timeline stays the same.
pub proof fn lemma_redo_keeps_timeline<T>(strokes: Seq<T>, undo: Seq<T>)
    ensures
        timeline(redone(strokes, undo).0, redone(strokes, undo).1) == timeline(strokes, undo),
{
    if undo.len() > 0 {
        let s2 = strokes.push(undo.last());
        let u2 = undo.drop_last();
        assert(undo.reverse() =~= seq![undo.last()] + u2.reverse());
        assert(s2 + u2.reverse() =~= strokes + undo.reverse());
    }
}

/// Undoing `n` times and then redoing `n` times restores both stacks, as
/// long as there were `n` strokes to undo.
pub proof fn lemma_undo_redo_n<T>(strokes: Seq<T>, undo: Seq<T>, n: nat)
    requires
        n <= strokes.len(),
    ensures
        redo_n(undo_n((strokes, undo), n), n) == (strokes, undo),
    decreases n,
{
    if n > 0 {
        let once = undone(strokes, undo);
        lemma_undo_n_first(strokes, undo, n);
        lemma_undo_redo_n(once.0, once.1, (n - 1) as nat);
        lemma_redo_n_last(undo_n((strokes, undo), n), n);
        lemma_redo_reverts_undo(strokes, undo);
    }
}

/// The stacks after `n` undos.
pub open spec fn undo_n<T>(h: (Seq<T>, Seq<T>), n: nat) -> (Seq<T>, Seq<T>)
    decreases n,
{
    if n == 0 {
        h
    } else {
        let prev = undo_n(h, (n - 1) as nat);
        undone(prev.0, prev.1)
    }
}

/// The stacks after `n` redos.
pub open spec fn redo_n<T>(h: (Seq<T>, Seq<T>), n: nat) -> (Seq<T>, Seq<T>)
    decreases n,
{
    if n == 0 {
        h
    } else {
        let prev = redo_n(h, (n - 1) as nat);
        redone(prev.0, prev.1)
    }
}

proof fn lemma_undo_n_first<T>(strokes: Seq<T>, undo: Seq<T>, n: nat)
    requires
        0 < n,
    ensures
        undo_n((strokes, undo), n) == undo_n(undone(strokes, undo), (n - 1) as nat),
    decreases n,
{
    let h = (strokes, undo);
    let h1 = undone(strokes, undo);
    if n == 1 {
        assert(undo_n(h, 0) == h);
        assert(undo_n(h, 1) == undone(undo_n(h, 0).0, undo_n(h, 0).1));
    } else {
        lemma_undo_n_first(strokes, undo, (n - 1) as nat);
        assert(undo_n(h, n) == undone(undo_n(h, (n - 1) as nat).0, undo_n(h, (n - 1) as nat).1));
        assert(undo_n(h1, (n - 1) as nat) == undone(
            undo_n(h1, (n - 2) as nat).0,
            undo_n(h1, (n - 2) as nat).1,
        ));
    }
}

proof fn lemma_redo_n_last<T>(h: (Seq<T>, Seq<T>), n: nat)
    requires
        0 < n,
    ensures
        redo_n(h, n) == redone(redo_n(h, (n - 1) as nat).0, redo_n(h, (n - 1) as nat).1),
{
}

} // verus!
