use vstd::prelude::*;

verus! {

/// An ordered sequence of items together with an optional selected index.
/// Navigation wraps around from the last item to the first and back; an
/// explicit "nothing selected" state is distinct from any index.
pub struct CyclicSelectionList<T> {
    pub items: Vec<T>,
    pub selected: Option<usize>,
}

/// The selection after one `next` step on a list of length `len`.
/// On an empty list the step is a no-op; with no selection it picks
/// index 0; otherwise it advances by one, wrapping to 0 at the end.
pub open spec fn next_sel(sel: Option<int>, len: int) -> Option<int> {
    if len <= 0 {
        sel
    } else {
        match sel {
            Option::None => Option::Some(0int),
            Option::Some(i) => Option::Some(if i + 1 == len { 0int } else { i + 1 }),
        }
    }
}

/// The selection after one `previous` step on a list of length `len`.
/// On an empty list the step is a no-op; with no selection it picks
/// index 0; otherwise it moves back by one, wrapping to the last index.
pub open spec fn prev_sel(sel: Option<int>, len: int) -> Option<int> {
    if len <= 0 {
        sel
    } else {
        match sel {
            Option::None => Option::Some(0int),
            Option::Some(i) => Option::Some(if i == 0 { len - 1 } else { i - 1 }),
        }
    }
}

impl<T> CyclicSelectionList<T> {
    /// The selection as a mathematical optional index.
    pub open spec fn sel(&self) -> Option<int> {
        match self.selected {
            Option::None => Option::None,
            Option::Some(i) => Option::Some(i as int),
        }
    }

    /// A selected index, when present, lies inside the list.
    pub open spec fn wf(&self) -> bool {
        match self.selected {
            Option::None => true,
            Option::Some(i) => i < self.items.len(),
        }
    }

    /// Creates a list holding `items` with nothing selected.
    pub fn with_items(items: Vec<T>) -> (l: CyclicSelectionList<T>)
        ensures
            l.wf(),
            l.items@ == items@,
            l.sel() == Option::<int>::None,
    {
        CyclicSelectionList { items, selected: None }
    }

    /// Moves the selection one step forward, wrapping around; selects
    /// index 0 when nothing is selected; does nothing on an empty list.
    pub fn next(&mut self)
        requires
            old(self).wf(),
        ensures
            final(self).wf(),
            final(self).items@ == old(self).items@,
            final(self).sel() == next_sel(old(self).sel(), old(self).items@.len() as int),
    {
        if self.items.len() == 0 {
            return;
        }
        let i: usize = match self.selected {
            Some(i) => {
                if i >= self.items.len() - 1 {
                    0
                } else {
                    i + 1
                }
            },
            None => 0,
        };
        self.selected = Some(i);
    }

    /// Moves the selection one step backward, wrapping around; selects
    /// index 0 when nothing is selected; does nothing on an empty list.
    pub fn previous(&mut self)
        requires
            old(self).wf(),
        ensures
            final(self).wf(),
            final(self).items@ == old(self).items@,
            final(self).sel() == prev_sel(old(self).sel(), old(self).items@.len() as int),
    {
        if self.items.len() == 0 {
            return;
        }
        let i: usize = match self.selected {
            Some(i) => {
                if i == 0 {
                    self.items.len() - 1
                } else {
                    i - 1
                }
            },
            None => 0,
        };
        self.selected = Some(i);
    }

    /// Clears the selection unconditionally.
    pub fn unselect(&mut self)
        requires
            old(self).wf(),
        ensures
            final(self).wf(),
            final(self).items@ == old(self).items@,
            final(self).sel() == Option::<int>::None,
    {
        self.selected = None;
    }

    /// Appends `value` at the end; the selection is unchanged.
    pub fn append(&mut self, value: T)
        requires
            old(self).wf(),
        ensures
            final(self).wf(),
            final(self).items@ == old(self).items@.push(value),
            final(self).sel() == old(self).sel(),
    {
        self.items.push(value);
    }
}

/// The selection reached from `sel` by `n` applications of `next` on a
/// list of length `len`.
pub open spec fn iterate_next(sel: Option<int>, len: int, n: nat) -> Option<int>
    decreases n,
{
    if n == 0 {
        sel
    } else {
        next_sel(iterate_next(sel, len, (n - 1) as nat), len)
    }
}

proof fn lemma_iterate_next_closed_form(i: int, len: int, n: nat)
    requires
        0 <= i < len,
        n <= len,
    ensures
        iterate_next(Some(i), len, n) == Some(
            if i + n < len {
                i + n
            } else {
                i + n - len
            },
        ),
    decreases n,
{
    if n > 0 {
        lemma_iterate_next_closed_form(i, len, (n - 1) as nat);
    }
}

/// Cyclic closure: starting from any valid selected index, applying
/// `next` exactly `len` times returns the selection to where it began.
pub proof fn lemma_next_cycles(i: int, len: int)
    requires
        0 <= i < len,
    ensures
        iterate_next(Some(i), len, len as nat) == Some(i),
{
    lemma_iterate_next_closed_form(i, len, len as nat);
}

/// `next` followed by `previous` is an identity on any valid selected index.
pub proof fn lemma_next_then_previous(i: int, len: int)
    requires
        0 <= i < len,
    ensures
        prev_sel(next_sel(Some(i), len), len) == Some(i),
{
}

/// After `unselect`, a `next` on a non-empty list always selects index 0,
/// regardless of the prior selection.
pub proof fn lemma_unselect_then_next(len: int)
    requires
        len > 0,
    ensures
        next_sel(Option::None, len) == Some(0int),
{
}

} // verus!
