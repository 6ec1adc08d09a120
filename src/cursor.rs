use vstd::prelude::*;

verus! {

/// The index that `move_down` leaves behind: one further on, clamped to the
/// last position; an empty list keeps the selection as it was.
pub open spec fn down_index(sel: Option<usize>, len: nat) -> Option<usize> {
    if len == 0 {
        sel
    } else {
        let cur: int = match sel {
            Some(i) => i as int,
            None => 0,
        };
        if cur + 1 < len {
            Some((cur + 1) as usize)
        } else {
            Some((len - 1) as usize)
        }
    }
}

/// The index that `move_up` leaves behind: one back, never below the first
/// position and never past the last; an empty list or an undefined or first
/// position keeps the selection as it was.
pub open spec fn up_index(sel: Option<usize>, len: nat) -> Option<usize> {
    match sel {
        Some(i) => if len > 0 && i > 0 {
            if i - 1 < len {
                Some((i - 1) as usize)
            } else {
                Some((len - 1) as usize)
            }
        } else {
            sel
        },
        None => sel,
    }
}

/// `move_down` applied `k` times.
pub open spec fn down_times(sel: Option<usize>, len: nat, k: nat) -> Option<usize>
    decreases k,
{
    if k == 0 {
        sel
    } else {
        down_times(down_index(sel, len), len, (k - 1) as nat)
    }
}

/// `move_up` applied `k` times.
pub open spec fn up_times(sel: Option<usize>, len: nat, k: nat) -> Option<usize>
    decreases k,
{
    if k == 0 {
        sel
    } else {
        up_times(up_index(sel, len), len, (k - 1) as nat)
    }
}

/// On a non-empty list of `n` items, moving down from any valid index at
/// least `n - 1 - i` times reaches the last index and stays there.
pub proof fn lemma_down_converges(n: usize, i: usize, k: nat)
    requires
        n > 0,
        i < n,
        k + i >= n - 1,
    ensures
        down_times(Some(i), n as nat, k) == Some((n - 1) as usize),
    decreases k,
{
    if k > 0 {
        let j: usize = if i + 1 < n { (i + 1) as usize } else { (n - 1) as usize };
        assert(down_index(Some(i), n as nat) == Some(j));
        lemma_down_converges(n, j, (k - 1) as nat);
    }
}

/// On a non-empty list, moving up from any valid index `i` at least `i`
/// times reaches the first index and stays there.
pub proof fn lemma_up_converges(n: usize, i: usize, k: nat)
    requires
        n > 0,
        i < n,
        k >= i,
    ensures
        up_times(Some(i), n as nat, k) == Some(0usize),
    decreases k,
{
    if k > 0 {
        if i > 0 {
            assert(up_index(Some(i), n as nat) == Some((i - 1) as usize));
            lemma_up_converges(n, (i - 1) as usize, (k - 1) as nat);
        } else {
            assert(up_index(Some(i), n as nat) == Some(0usize));
            lemma_up_converges(n, 0, (k - 1) as nat);
        }
    }
}

/// On an empty list, any number of moves leaves the selection as it was.
pub proof fn lemma_empty_list_moves(sel: Option<usize>, k: nat)
    ensures
        down_times(sel, 0, k) == sel,
        up_times(sel, 0, k) == sel,
    decreases k,
{
    if k > 0 {
        lemma_empty_list_moves(sel, (k - 1) as nat);
    }
}

/// A selected index over one list, or none.
pub struct ListCursor {
    selected: Option<usize>,
}

impl View for ListCursor {
    type V = Option<usize>;

    closed spec fn view(&self) -> Option<usize> {
        self.selected
    }
}

impl ListCursor {
    /// A cursor with no selection.
    pub fn new() -> (r: ListCursor)
        ensures
            r@ == None::<usize>,
    {
        ListCursor { selected: None }
    }

    /// The selected index, if any.
    pub fn selected(&self) -> (r: Option<usize>)
        ensures
            r == self@,
    {
        self.selected
    }

    /// Clears the selection.
    pub fn reset(&mut self)
        ensures
            final(self)@ == None::<usize>,
    {
        self.selected = None;
    }

    /// Sets the selection; an index outside a list of `len` items is refused
    /// and leaves the cursor as it was.
    pub fn select(&mut self, index: Option<usize>, len: usize) -> (r: bool)
        ensures
            r == (match index {
                Some(i) => i < len,
                None => true,
            }),
            r ==> final(self)@ == index,
            !r ==> final(self)@ == old(self)@,
    {
        match index {
            Some(i) => {
                if i < len {
                    self.selected = Some(i);
                    true
                } else {
                    false
                }
            },
            None => {
                self.selected = None;
                true
            },
        }
    }

    /// Moves one item down a list of `len` items; returns whether the
    /// selection changed.
    pub fn move_down(&mut self, len: usize) -> (changed: bool)
        ensures
            final(self)@ == down_index(old(self)@, len as nat),
            changed == (final(self)@ != old(self)@),
    {
        if len == 0 {
            return false;
        }
        let cur: usize = match self.selected {
            Some(i) => i,
            None => 0,
        };
        let next: usize = if cur < len - 1 {
            cur + 1
        } else {
            len - 1
        };
        let changed = self.selected != Some(next);
        self.selected = Some(next);
        changed
    }

    /// Moves one item up a list of `len` items; returns whether the
    /// selection changed.
    pub fn move_up(&mut self, len: usize) -> (changed: bool)
        ensures
            final(self)@ == up_index(old(self)@, len as nat),
            changed == (final(self)@ != old(self)@),
    {
        match self.selected {
            Some(i) => {
                if len > 0 && i > 0 {
                    let next: usize = if i - 1 < len {
                        i - 1
                    } else {
                        len - 1
                    };
                    let changed = next != i;
                    self.selected = Some(next);
                    changed
                } else {
                    false
                }
            },
            None => false,
        }
    }
}

} // verus!
