use vstd::prelude::*;

use crate::cursor::{down_index, up_index, ListCursor};
use crate::error::{NavError, StoreError};
use crate::models::entry::Entry;
use crate::models::stack::Stack;
use crate::store::DbReader;

verus! {

/// Which list has the focus.
#[derive(Clone, Copy, Debug, PartialEq, Eq, Structural)]
pub enum Mode {
    BrowsingStacks,
    BrowsingEntries,
}

/// A key press, as far as navigation tells keys apart.
#[derive(Clone, Copy, Debug, PartialEq, Eq, Structural)]
pub enum Key {
    Up,
    Down,
    Enter,
    Escape,
    Other,
}

/// Whether the screen must be drawn again after an event.
#[derive(Clone, Copy, Debug, PartialEq, Eq, Structural)]
pub enum RenderHint {
    Render,
    NoChange,
}

/// The navigator's state seen as plain values.
pub struct HomeView {
    pub mode: Mode,
    pub stacks: Seq<Stack>,
    pub stack_sel: Option<usize>,
    pub entries: Seq<Entry>,
    pub entry_sel: Option<usize>,
    /// The stack whose entries are loaded, while one is entered.
    pub entered: Option<usize>,
}

pub open spec fn sel_in_bounds(sel: Option<usize>, len: nat) -> bool {
    sel matches Some(i) ==> i < len
}

/// The navigator's invariant: cursors stay inside their lists, an entry is
/// selected exactly when there are entries, entries are loaded only while a
/// stack is entered, and the stack to return to, if any, still exists.
pub open spec fn home_wf(v: HomeView) -> bool {
    &&& sel_in_bounds(v.stack_sel, v.stacks.len())
    &&& sel_in_bounds(v.entry_sel, v.entries.len())
    &&& (v.entry_sel is None <==> v.entries.len() == 0)
    &&& match v.mode {
        Mode::BrowsingStacks => v.entered is None && v.entries.len() == 0,
        Mode::BrowsingEntries => sel_in_bounds(v.entered, v.stacks.len()),
    }
}

pub open spec fn hint_of(changed: bool) -> RenderHint {
    if changed {
        RenderHint::Render
    } else {
        RenderHint::NoChange
    }
}

/// The first index of a list of `len` items, if it has any.
pub open spec fn first_index(len: nat) -> Option<usize> {
    if len > 0 {
        Some(0usize)
    } else {
        None
    }
}

/// The state right after the stacks of `v` are replaced by `stacks`: the
/// stack cursor goes to the first stack; the mode, the loaded entries and
/// the entry cursor stay; while a stack is entered, Escape will return to
/// that first stack.
pub open spec fn stacks_reloaded(v: HomeView, stacks: Seq<Stack>) -> HomeView {
    HomeView {
        stacks: stacks,
        stack_sel: first_index(stacks.len()),
        entered: match v.mode {
            Mode::BrowsingStacks => None,
            Mode::BrowsingEntries => first_index(stacks.len()),
        },
        ..v
    }
}

/// The state after entering stack `i` whose entries are `es`.
pub open spec fn entered_view(v: HomeView, i: usize, es: Seq<Entry>) -> HomeView {
    HomeView {
        mode: Mode::BrowsingEntries,
        stacks: v.stacks,
        stack_sel: None,
        entries: es,
        entry_sel: if es.len() > 0 { Some(0usize) } else { None },
        entered: Some(i),
    }
}

/// The state after leaving the entries: the stack that was entered is
/// highlighted again.
pub open spec fn escaped_view(v: HomeView) -> HomeView {
    HomeView {
        mode: Mode::BrowsingStacks,
        stacks: v.stacks,
        stack_sel: v.entered,
        entries: Seq::empty(),
        entry_sel: None,
        entered: None,
    }
}

/// Whether `key` asks for the entries of the selected stack to be loaded.
pub open spec fn needs_load(v: HomeView, key: Key) -> bool {
    v.mode == Mode::BrowsingStacks && key == Key::Enter && v.stack_sel is Some
}

/// Every transition that needs no data from the storage provider.
pub open spec fn navigate(v: HomeView, key: Key) -> (HomeView, RenderHint) {
    match v.mode {
        Mode::BrowsingStacks => match key {
            Key::Down => {
                let s = down_index(v.stack_sel, v.stacks.len());
                (HomeView { stack_sel: s, ..v }, hint_of(s != v.stack_sel))
            },
            Key::Up => {
                let s = up_index(v.stack_sel, v.stacks.len());
                (HomeView { stack_sel: s, ..v }, hint_of(s != v.stack_sel))
            },
            _ => (v, RenderHint::NoChange),
        },
        Mode::BrowsingEntries => match key {
            Key::Down => {
                let s = down_index(v.entry_sel, v.entries.len());
                (HomeView { entry_sel: s, ..v }, hint_of(s != v.entry_sel))
            },
            Key::Up => {
                let s = up_index(v.entry_sel, v.entries.len());
                (HomeView { entry_sel: s, ..v }, hint_of(s != v.entry_sel))
            },
            Key::Escape => (escaped_view(v), RenderHint::Render),
            _ => (v, RenderHint::NoChange),
        },
    }
}

/// The state after the keys `keys`, pressed in order, none of which needs
/// data from the storage provider.
pub open spec fn run_keys(v: HomeView, keys: Seq<Key>) -> HomeView
    decreases keys.len(),
{
    if keys.len() == 0 {
        v
    } else {
        run_keys(navigate(v, keys[0]).0, keys.drop_first())
    }
}

/// Entering a stack that has no entries leaves the entry cursor undefined,
/// Up and Down then change nothing, and Escape returns cleanly to browsing
/// the stacks with the entered stack selected.
pub proof fn lemma_enter_empty_stack(v: HomeView, i: usize)
    requires
        home_wf(v),
        i < v.stacks.len(),
    ensures
        home_wf(entered_view(v, i, Seq::empty())),
        entered_view(v, i, Seq::empty()).entry_sel is None,
        navigate(entered_view(v, i, Seq::empty()), Key::Down) == (
        entered_view(v, i, Seq::empty()),
        RenderHint::NoChange,
        ),
        navigate(entered_view(v, i, Seq::empty()), Key::Up) == (
        entered_view(v, i, Seq::empty()),
        RenderHint::NoChange,
        ),
        navigate(entered_view(v, i, Seq::empty()), Key::Escape).0.mode == Mode::BrowsingStacks,
        navigate(entered_view(v, i, Seq::empty()), Key::Escape).0.stack_sel == Some(i),
        home_wf(navigate(entered_view(v, i, Seq::empty()), Key::Escape).0),
{
}

/// Up and Down keys pressed inside an entered stack keep the navigator in
/// that stack.
proof fn lemma_moves_stay_in_stack(w: HomeView, keys: Seq<Key>)
    requires
        w.mode == Mode::BrowsingEntries,
        forall|k: int| 0 <= k < keys.len() ==> #[trigger] keys[k] == Key::Up || keys[k] == Key::Down,
    ensures
        run_keys(w, keys).mode == Mode::BrowsingEntries,
        run_keys(w, keys).stacks == w.stacks,
        run_keys(w, keys).entered == w.entered,
    decreases keys.len(),
{
    if keys.len() > 0 {
        let next = navigate(w, keys[0]).0;
        assert(keys[0] == Key::Up || keys[0] == Key::Down);
        assert forall|k: int| 0 <= k < keys.drop_first().len() implies #[trigger] keys.drop_first()[k]
            == Key::Up || keys.drop_first()[k] == Key::Down by {
            assert(keys.drop_first()[k] == keys[k + 1]);
        }
        lemma_moves_stay_in_stack(next, keys.drop_first());
    }
}

/// Entering the selected stack, moving through its entries with Up and
/// Down, and pressing Escape gives back exactly the state before entry,
/// the stack cursor included.
pub proof fn lemma_round_trip(v: HomeView, es: Seq<Entry>, keys: Seq<Key>)
    requires
        home_wf(v),
        v.mode == Mode::BrowsingStacks,
        v.stack_sel is Some,
        forall|k: int| 0 <= k < keys.len() ==> #[trigger] keys[k] == Key::Up || keys[k] == Key::Down,
    ensures
        navigate(run_keys(entered_view(v, v.stack_sel->Some_0, es), keys), Key::Escape).0 == v,
{
    let i = v.stack_sel->Some_0;
    let w = run_keys(entered_view(v, i, es), keys);
    lemma_moves_stay_in_stack(entered_view(v, i, es), keys);
    let back = navigate(w, Key::Escape).0;
    assert(back.entries =~= v.entries);
}

/// The navigator's invariant holds after every key that needs no data from
/// the storage provider.
pub proof fn lemma_navigate_keeps_wf(v: HomeView, key: Key)
    requires
        home_wf(v),
    ensures
        home_wf(navigate(v, key).0),
{
}

/// All entries belong to the stack with id `stack_id`.
pub open spec fn all_in_stack(es: Seq<Entry>, stack_id: u32) -> bool {
    forall|k: int| 0 <= k < es.len() ==> (#[trigger] es[k]).stack_id == stack_id
}

/// The navigator: the loaded stacks, the entries of the entered stack, and a
/// cursor over each.
pub struct Home {
    stacks: Vec<Stack>,
    stack_cursor: ListCursor,
    entries: Vec<Entry>,
    entry_cursor: ListCursor,
    mode: Mode,
    entered: Option<usize>,
}

impl View for Home {
    type V = HomeView;

    closed spec fn view(&self) -> HomeView {
        HomeView {
            mode: self.mode,
            stacks: self.stacks@,
            stack_sel: self.stack_cursor@,
            entries: self.entries@,
            entry_sel: self.entry_cursor@,
            entered: self.entered,
        }
    }
}

impl Home {
    pub open spec fn wf(&self) -> bool {
        home_wf(self@)
    }

    /// A navigator browsing an empty list of stacks, with nothing selected.
    pub fn new() -> (r: Home)
        ensures
            r.wf(),
            r@.mode == Mode::BrowsingStacks,
            r@.stacks.len() == 0,
            r@.stack_sel is None,
            r@.entries.len() == 0,
            r@.entry_sel is None,
            r@.entered is None,
    {
        Home {
            stacks: Vec::new(),
            stack_cursor: ListCursor::new(),
            entries: Vec::new(),
            entry_cursor: ListCursor::new(),
            mode: Mode::BrowsingStacks,
            entered: None,
        }
    }
    /// Takes the outcome of fetching the stacks. On success the stacks are
    /// replaced and the first stack (if any) is selected, while the mode, the
    /// loaded entries and the entry cursor stay as they were; an entered
    /// stack's return position moves to that first stack, since the old
    /// index may no longer exist. On failure nothing changes and the failure
    /// is handed back.
    pub fn apply_stacks(&mut self, loaded: Result<Vec<Stack>, StoreError>) -> (r: Result<(), NavError>)
        requires
            old(self).wf(),
        ensures
            final(self).wf(),
            match loaded {
                Ok(v) => r is Ok && final(self)@ == stacks_reloaded(old(self)@, v@),
                Err(e) => r == Err::<(), NavError>(NavError::LoadFailure(e)) && final(self)@
                    == old(self)@,
            },
    {
        match loaded {
            Ok(stacks) => {
                let n = stacks.len();
                self.stacks = stacks;
                self.stack_cursor.reset();
                if n > 0 {
                    let _ = self.stack_cursor.select(Some(0), n);
                }
                match self.mode {
                    Mode::BrowsingStacks => {},
                    Mode::BrowsingEntries => {
                        self.entered = self.stack_cursor.selected();
                    },
                }
                Ok(())
            },
            Err(e) => Err(NavError::LoadFailure(e)),
        }
    }

    /// Fetches every stack from `store` and takes the outcome as
    /// `apply_stacks` does.
    pub fn load_stacks<S: DbReader>(&mut self, store: &S) -> (r: Result<(), NavError>)
        requires
            old(self).wf(),
        ensures
            final(self).wf(),
            r is Ok ==> final(self)@ == stacks_reloaded(old(self)@, final(self)@.stacks),
            r is Err ==> (r matches Err(NavError::LoadFailure(_))) && final(self)@ == old(self)@,
    {
        let loaded = store.list_stacks();
        self.apply_stacks(loaded)
    }

    /// Takes the outcome of fetching the entries of stack `index`. An index
    /// outside the stacks is refused; a failed fetch changes nothing; else
    /// the stack is entered with its first entry (if any) selected.
    pub fn enter_with(&mut self, index: usize, loaded: Result<Vec<Entry>, StoreError>) -> (r:
        Result<(), NavError>)
        requires
            old(self).wf(),
        ensures
            final(self).wf(),
            index >= old(self)@.stacks.len() ==> r == Err::<(), NavError>(
                NavError::InvalidSelection,
            ) && final(self)@ == old(self)@,
            index < old(self)@.stacks.len() ==> match loaded {
                Ok(es) => r is Ok && final(self)@ == entered_view(old(self)@, index, es@),
                Err(e) => r == Err::<(), NavError>(NavError::LoadFailure(e)) && final(self)@
                    == old(self)@,
            },
    {
        if index >= self.stacks.len() {
            return Err(NavError::InvalidSelection);
        }
        match loaded {
            Ok(es) => {
                let n = es.len();
                self.entries = es;
                self.entry_cursor.reset();
                if n > 0 {
                    let _ = self.entry_cursor.select(Some(0), n);
                }
                self.stack_cursor.reset();
                self.mode = Mode::BrowsingEntries;
                self.entered = Some(index);
                Ok(())
            },
            Err(e) => Err(NavError::LoadFailure(e)),
        }
    }

    /// Enters stack `index`, fetching its entries from `store`. An index
    /// outside the stacks is refused before anything is fetched; a failed
    /// fetch changes nothing.
    pub fn enter_stack<S: DbReader>(&mut self, index: usize, store: &S) -> (r: Result<(), NavError>)
        requires
            old(self).wf(),
        ensures
            final(self).wf(),
            index >= old(self)@.stacks.len() ==> r == Err::<(), NavError>(
                NavError::InvalidSelection,
            ) && final(self)@ == old(self)@,
            index < old(self)@.stacks.len() ==> {
                ||| r is Ok && final(self)@ == entered_view(old(self)@, index, final(self)@.entries)
                    && all_in_stack(final(self)@.entries, old(self)@.stacks[index as int].id)
                ||| (r matches Err(NavError::LoadFailure(_))) && final(self)@ == old(self)@
            },
    {
        if index >= self.stacks.len() {
            return Err(NavError::InvalidSelection);
        }
        let id = self.stacks[index].id;
        let loaded = store.list_entries(id);
        self.enter_with(index, loaded)
    }

    /// Leaves the entered stack: the entries are dropped and the stack that
    /// was entered is selected again.
    fn leave_stack(&mut self)
        requires
            old(self).wf(),
            old(self)@.mode == Mode::BrowsingEntries,
        ensures
            final(self).wf(),
            final(self)@ == escaped_view(old(self)@),
    {
        let back = self.entered;
        let n = self.stacks.len();
        self.entries = Vec::new();
        self.entry_cursor.reset();
        let _ = self.stack_cursor.select(back, n);
        self.mode = Mode::BrowsingStacks;
        self.entered = None;
    }

    /// Applies one key press; the result says whether anything visible
    /// changed. Enter on a selected stack fetches its entries from `store`;
    /// if that fails nothing changes.
    pub fn handle_key<S: DbReader>(&mut self, key: Key, store: &S) -> (r: RenderHint)
        requires
            old(self).wf(),
        ensures
            final(self).wf(),
            !needs_load(old(self)@, key) ==> (final(self)@, r) == navigate(old(self)@, key),
            needs_load(old(self)@, key) ==> {
                let i = old(self)@.stack_sel->Some_0;
                ||| final(self)@ == old(self)@ && r == RenderHint::NoChange
                ||| final(self)@ == entered_view(old(self)@, i, final(self)@.entries) && r
                    == RenderHint::Render && all_in_stack(
                    final(self)@.entries,
                    old(self)@.stacks[i as int].id,
                )
            },
    {
        match self.mode {
            Mode::BrowsingStacks => match key {
                Key::Down => {
                    let n = self.stacks.len();
                    let changed = self.stack_cursor.move_down(n);
                    if changed { RenderHint::Render } else { RenderHint::NoChange }
                },
                Key::Up => {
                    let n = self.stacks.len();
                    let changed = self.stack_cursor.move_up(n);
                    if changed { RenderHint::Render } else { RenderHint::NoChange }
                },
                Key::Enter => match self.stack_cursor.selected() {
                    Some(i) => match self.enter_stack(i, store) {
                        Ok(()) => RenderHint::Render,
                        Err(_) => RenderHint::NoChange,
                    },
                    None => RenderHint::NoChange,
                },
                _ => RenderHint::NoChange,
            },
            Mode::BrowsingEntries => match key {
                Key::Down => {
                    let n = self.entries.len();
                    let changed = self.entry_cursor.move_down(n);
                    if changed { RenderHint::Render } else { RenderHint::NoChange }
                },
                Key::Up => {
                    let n = self.entries.len();
                    let changed = self.entry_cursor.move_up(n);
                    if changed { RenderHint::Render } else { RenderHint::NoChange }
                },
                Key::Escape => {
                    self.leave_stack();
                    RenderHint::Render
                },
                _ => RenderHint::NoChange,
            },
        }
    }

    /// The list that has the focus.
    pub fn mode(&self) -> (r: Mode)
        ensures
            r == self@.mode,
    {
        self.mode
    }

    /// The highlighted stack, if any.
    pub fn selected_stack(&self) -> (r: Option<usize>)
        ensures
            r == self@.stack_sel,
    {
        self.stack_cursor.selected()
    }

    /// The highlighted entry, if any.
    pub fn selected_entry(&self) -> (r: Option<usize>)
        ensures
            r == self@.entry_sel,
    {
        self.entry_cursor.selected()
    }

    /// The stack whose entries are loaded, if one is entered.
    pub fn entered_stack(&self) -> (r: Option<usize>)
        ensures
            r == self@.entered,
    {
        self.entered
    }

    /// The loaded stacks.
    pub fn stacks(&self) -> (r: &Vec<Stack>)
        ensures
            r@ == self@.stacks,
    {
        &self.stacks
    }

    /// The entries of the entered stack; empty while browsing stacks.
    pub fn entries(&self) -> (r: &Vec<Entry>)
        ensures
            r@ == self@.entries,
    {
        &self.entries
    }
}

} // verus!
