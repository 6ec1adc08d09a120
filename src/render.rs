use vstd::prelude::*;
use vstd::string::*;

use crate::home::{Home, Mode};

verus! {

/// How many characters of an entry a list line shows.
pub const MAX_VISIBLE: usize = 100;

/// What follows a shortened entry.
pub open spec fn truncation_marker() -> Seq<char> {
    seq!['.', '.', '.']
}

/// The line shown for an entry: its content, or its first `MAX_VISIBLE`
/// characters and the marker when it is longer.
pub open spec fn display_of(content: Seq<char>) -> Seq<char> {
    if content.len() > MAX_VISIBLE {
        content.subrange(0, MAX_VISIBLE as int) + truncation_marker()
    } else {
        content
    }
}

/// The line shown for an entry whose content is `content`.
pub fn entry_line(content: &str) -> (r: String)
    ensures
        r@ == display_of(content@),
{
    let n = content.unicode_len();
    if n > MAX_VISIBLE {
        let mut line = String::from_str(content.substring_char(0, MAX_VISIBLE));
        line.append("...");
        proof {
            reveal_strlit("...");
            assert("..."@ =~= truncation_marker());
        }
        line
    } else {
        String::from_str(content)
    }
}

/// What the renderer is told: the focused list, the stack names and entry
/// lines in order, the highlighted index of each, and which panel is active.
pub struct Snapshot {
    pub mode: Mode,
    pub stack_names: Vec<String>,
    pub stack_selected: Option<usize>,
    pub entry_lines: Vec<String>,
    pub entry_selected: Option<usize>,
    pub stacks_active: bool,
    pub entries_active: bool,
}

impl Home {
    /// The read-only projection of the navigator for drawing.
    pub fn current_view(&self) -> (r: Snapshot)
        ensures
            r.mode == self@.mode,
            r.stack_names@.len() == self@.stacks.len(),
            forall|k: int|
                0 <= k < self@.stacks.len() ==> (#[trigger] r.stack_names@[k])@
                    == self@.stacks[k].name@,
            r.stack_selected == self@.stack_sel,
            r.entry_lines@.len() == self@.entries.len(),
            forall|k: int|
                0 <= k < self@.entries.len() ==> (#[trigger] r.entry_lines@[k])@ == display_of(
                    self@.entries[k].content@,
                ),
            r.entry_selected == self@.entry_sel,
            r.stacks_active == (self@.mode == Mode::BrowsingStacks),
            r.entries_active == (self@.mode == Mode::BrowsingEntries),
    {
        let stacks = self.stacks();
        let mut stack_names: Vec<String> = Vec::new();
        let mut i: usize = 0;
        while i < stacks.len()
            invariant
                stacks@ == self@.stacks,
                i <= stacks@.len(),
                stack_names@.len() == i,
                forall|k: int|
                    0 <= k < i ==> (#[trigger] stack_names@[k])@ == stacks@[k].name@,
            decreases stacks@.len() - i,
        {
            stack_names.push(stacks[i].name.clone());
            i = i + 1;
        }
        let entries = self.entries();
        let mut entry_lines: Vec<String> = Vec::new();
        let mut j: usize = 0;
        while j < entries.len()
            invariant
                entries@ == self@.entries,
                j <= entries@.len(),
                entry_lines@.len() == j,
                forall|k: int|
                    0 <= k < j ==> (#[trigger] entry_lines@[k])@ == display_of(
                        entries@[k].content@,
                    ),
            decreases entries@.len() - j,
        {
            entry_lines.push(entry_line(entries[j].content.as_str()));
            j = j + 1;
        }
        let mode = self.mode();
        Snapshot {
            mode,
            stack_names,
            stack_selected: self.selected_stack(),
            entry_lines,
            entry_selected: self.selected_entry(),
            stacks_active: match mode {
                Mode::BrowsingStacks => true,
                Mode::BrowsingEntries => false,
            },
            entries_active: match mode {
                Mode::BrowsingStacks => false,
                Mode::BrowsingEntries => true,
            },
        }
    }
}

} // verus!
