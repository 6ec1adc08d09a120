use stackview::error::{NavError, StoreError};
use stackview::home::{Home, Key, Mode, RenderHint};
use stackview::models::entry::Entry;
use stackview::models::stack::Stack;
use stackview::store::{DbReader, MemoryStore};

fn stack(id: u32, name: &str) -> Stack {
    Stack { id, name: name.to_string(), count: 0 }
}

fn two_stacks() -> Vec<Stack> {
    vec![stack(1, "Stack 1"), stack(2, "Stack 2")]
}

struct EmptyStore;

impl DbReader for EmptyStore {
    fn list_stacks(&self) -> Result<Vec<Stack>, StoreError> {
        Ok(two_stacks())
    }

    fn list_entries(&self, _stack_id: u32) -> Result<Vec<Entry>, StoreError> {
        Ok(Vec::new())
    }
}

struct FailingStore;

impl DbReader for FailingStore {
    fn list_stacks(&self) -> Result<Vec<Stack>, StoreError> {
        Err(StoreError { reason: "disk gone".to_string() })
    }

    fn list_entries(&self, _stack_id: u32) -> Result<Vec<Entry>, StoreError> {
        Err(StoreError { reason: "disk gone".to_string() })
    }
}

fn loaded_home() -> Home {
    let mut home = Home::new();
    assert!(home.apply_stacks(Ok(two_stacks())).is_ok());
    home
}

#[test]
fn new_home_has_nothing_selected() {
    let home = Home::new();
    assert_eq!(home.mode(), Mode::BrowsingStacks);
    assert_eq!(home.selected_stack(), None);
    assert_eq!(home.selected_entry(), None);
    assert!(home.stacks().is_empty());
    assert!(home.entries().is_empty());
}

#[test]
fn load_stacks_selects_first() {
    let mut home = Home::new();
    assert!(home.load_stacks(&MemoryStore::new()).is_ok());
    assert_eq!(home.stacks().len(), 4);
    assert_eq!(home.selected_stack(), Some(0));
    assert_eq!(home.mode(), Mode::BrowsingStacks);
}

#[test]
fn load_stacks_failure_keeps_previous_state() {
    let mut home = loaded_home();
    home.handle_key(Key::Down, &MemoryStore::new());
    let r = home.load_stacks(&FailingStore);
    assert_eq!(r, Err(NavError::LoadFailure(StoreError { reason: "disk gone".to_string() })));
    assert_eq!(home.stacks().len(), 2);
    assert_eq!(home.selected_stack(), Some(1));
}

#[test]
fn down_then_enter_loads_second_stack() {
    let store = MemoryStore::new();
    let mut home = loaded_home();
    assert_eq!(home.selected_stack(), Some(0));
    assert_eq!(home.handle_key(Key::Down, &store), RenderHint::Render);
    assert_eq!(home.handle_key(Key::Enter, &store), RenderHint::Render);
    assert_eq!(home.mode(), Mode::BrowsingEntries);
    assert!(!home.entries().is_empty());
    assert!(home.entries().iter().all(|e| e.stack_id == 2));
    assert_eq!(home.selected_entry(), Some(0));
    assert_eq!(home.selected_stack(), None);
    assert_eq!(home.entered_stack(), Some(1));
}

#[test]
fn down_at_last_stack_needs_no_render() {
    let store = MemoryStore::new();
    let mut home = loaded_home();
    assert_eq!(home.handle_key(Key::Down, &store), RenderHint::Render);
    assert_eq!(home.handle_key(Key::Down, &store), RenderHint::NoChange);
    assert_eq!(home.selected_stack(), Some(1));
    assert_eq!(home.handle_key(Key::Up, &store), RenderHint::Render);
    assert_eq!(home.handle_key(Key::Up, &store), RenderHint::NoChange);
    assert_eq!(home.selected_stack(), Some(0));
}

#[test]
fn keys_on_empty_stack_list_do_nothing() {
    let store = MemoryStore::new();
    let mut home = Home::new();
    for key in [Key::Down, Key::Up, Key::Enter, Key::Escape, Key::Other] {
        assert_eq!(home.handle_key(key, &store), RenderHint::NoChange);
    }
    assert_eq!(home.mode(), Mode::BrowsingStacks);
    assert_eq!(home.selected_stack(), None);
}

#[test]
fn enter_stack_without_entries() {
    let store = EmptyStore;
    let mut home = loaded_home();
    assert_eq!(home.handle_key(Key::Enter, &store), RenderHint::Render);
    assert_eq!(home.mode(), Mode::BrowsingEntries);
    assert_eq!(home.selected_entry(), None);
    assert_eq!(home.handle_key(Key::Down, &store), RenderHint::NoChange);
    assert_eq!(home.handle_key(Key::Up, &store), RenderHint::NoChange);
    assert_eq!(home.selected_entry(), None);
    assert_eq!(home.handle_key(Key::Escape, &store), RenderHint::Render);
    assert_eq!(home.mode(), Mode::BrowsingStacks);
    assert_eq!(home.selected_stack(), Some(0));
}

#[test]
fn round_trip_restores_stack_cursor() {
    let store = MemoryStore::new();
    let mut home = Home::new();
    assert!(home.load_stacks(&store).is_ok());
    home.handle_key(Key::Down, &store);
    home.handle_key(Key::Down, &store);
    assert_eq!(home.selected_stack(), Some(2));
    assert_eq!(home.handle_key(Key::Enter, &store), RenderHint::Render);
    assert_eq!(home.handle_key(Key::Down, &store), RenderHint::Render);
    assert_eq!(home.handle_key(Key::Down, &store), RenderHint::Render);
    assert_eq!(home.handle_key(Key::Up, &store), RenderHint::Render);
    assert_eq!(home.selected_entry(), Some(1));
    assert_eq!(home.handle_key(Key::Escape, &store), RenderHint::Render);
    assert_eq!(home.mode(), Mode::BrowsingStacks);
    assert_eq!(home.selected_stack(), Some(2));
    assert_eq!(home.selected_entry(), None);
    assert!(home.entries().is_empty());
    assert_eq!(home.entered_stack(), None);
}

#[test]
fn failed_enter_keeps_browsing_stacks() {
    let mut home = loaded_home();
    home.handle_key(Key::Down, &MemoryStore::new());
    assert_eq!(home.handle_key(Key::Enter, &FailingStore), RenderHint::NoChange);
    assert_eq!(home.mode(), Mode::BrowsingStacks);
    assert_eq!(home.selected_stack(), Some(1));
    assert!(home.entries().is_empty());
}

#[test]
fn enter_stack_reports_load_failure() {
    let mut home = loaded_home();
    let r = home.enter_stack(0, &FailingStore);
    assert!(matches!(r, Err(NavError::LoadFailure(_))));
    assert_eq!(home.mode(), Mode::BrowsingStacks);
    assert_eq!(home.selected_stack(), Some(0));
}

#[test]
fn enter_stack_out_of_range_is_refused() {
    let mut home = loaded_home();
    assert_eq!(home.enter_stack(2, &MemoryStore::new()), Err(NavError::InvalidSelection));
    assert_eq!(home.mode(), Mode::BrowsingStacks);
    assert_eq!(home.selected_stack(), Some(0));
}

#[test]
fn enter_with_given_entries() {
    let mut home = loaded_home();
    let entries = vec![Entry { id: 5, stack_id: 1, content: "only".to_string() }];
    assert_eq!(home.enter_with(0, Ok(entries)), Ok(()));
    assert_eq!(home.mode(), Mode::BrowsingEntries);
    assert_eq!(home.entries().len(), 1);
    assert_eq!(home.selected_entry(), Some(0));
    assert_eq!(home.enter_with(9, Ok(Vec::new())), Err(NavError::InvalidSelection));
    let failed = home.enter_with(1, Err(StoreError { reason: "x".to_string() }));
    assert_eq!(failed, Err(NavError::LoadFailure(StoreError { reason: "x".to_string() })));
    assert_eq!(home.entered_stack(), Some(0));
}

#[test]
fn entry_navigation_is_clamped() {
    let store = MemoryStore::new();
    let mut home = loaded_home();
    home.handle_key(Key::Enter, &store);
    for _ in 0..10 {
        home.handle_key(Key::Down, &store);
    }
    assert_eq!(home.selected_entry(), Some(3));
    assert_eq!(home.handle_key(Key::Down, &store), RenderHint::NoChange);
    for _ in 0..10 {
        home.handle_key(Key::Up, &store);
    }
    assert_eq!(home.selected_entry(), Some(0));
}

#[test]
fn unrecognized_keys_are_inert() {
    let store = MemoryStore::new();
    let mut home = loaded_home();
    assert_eq!(home.handle_key(Key::Other, &store), RenderHint::NoChange);
    assert_eq!(home.handle_key(Key::Escape, &store), RenderHint::NoChange);
    home.handle_key(Key::Enter, &store);
    assert_eq!(home.handle_key(Key::Other, &store), RenderHint::NoChange);
    assert_eq!(home.handle_key(Key::Enter, &store), RenderHint::NoChange);
    assert_eq!(home.mode(), Mode::BrowsingEntries);
}

#[test]
fn current_view_projects_state() {
    let store = MemoryStore::new();
    let mut home = Home::new();
    assert!(home.load_stacks(&store).is_ok());
    let v = home.current_view();
    assert_eq!(v.mode, Mode::BrowsingStacks);
    assert_eq!(v.stack_names, vec!["Stack 1", "Stack 2", "Stack 3", "Stack 4"]);
    assert_eq!(v.stack_selected, Some(0));
    assert!(v.entry_lines.is_empty());
    assert!(v.stacks_active && !v.entries_active);

    home.handle_key(Key::Enter, &store);
    let v = home.current_view();
    assert_eq!(v.mode, Mode::BrowsingEntries);
    assert_eq!(v.stack_selected, None);
    assert_eq!(v.entry_selected, Some(0));
    assert_eq!(v.entry_lines.len(), 4);
    assert_eq!(v.entry_lines[0], "Lorem ipsum dolor sit amet, consectetur adipiscing elit.");
    assert!(v.entry_lines[1].ends_with("..."));
    assert_eq!(v.entry_lines[1].chars().count(), 103);
    assert_eq!(v.entry_lines[3], "Duis aute irure dolor.");
    assert!(!v.stacks_active && v.entries_active);
}

#[test]
fn reload_while_entered_keeps_mode_and_entries() {
    let store = MemoryStore::new();
    let mut home = loaded_home();
    home.handle_key(Key::Down, &store);
    home.handle_key(Key::Enter, &store);
    home.handle_key(Key::Down, &store);
    assert_eq!(home.selected_entry(), Some(1));
    assert!(home.load_stacks(&store).is_ok());
    assert_eq!(home.mode(), Mode::BrowsingEntries);
    let ids: Vec<u32> = home.stacks().iter().map(|s| s.id).collect();
    assert_eq!(ids, vec![1, 2, 3, 4]);
    assert_eq!(home.selected_stack(), Some(0));
    assert_eq!(home.entries().len(), 4);
    assert!(home.entries().iter().all(|e| e.stack_id == 2));
    assert_eq!(home.selected_entry(), Some(1));
    assert_eq!(home.entered_stack(), Some(0));
    assert_eq!(home.handle_key(Key::Escape, &store), RenderHint::Render);
    assert_eq!(home.mode(), Mode::BrowsingStacks);
    assert_eq!(home.selected_stack(), Some(0));
    assert!(home.entries().is_empty());
}

#[test]
fn reload_to_no_stacks_while_entered() {
    let store = MemoryStore::new();
    let mut home = loaded_home();
    home.handle_key(Key::Enter, &store);
    assert!(home.apply_stacks(Ok(Vec::new())).is_ok());
    assert_eq!(home.mode(), Mode::BrowsingEntries);
    assert_eq!(home.entries().len(), 4);
    assert_eq!(home.selected_stack(), None);
    assert_eq!(home.entered_stack(), None);
    assert_eq!(home.handle_key(Key::Escape, &store), RenderHint::Render);
    assert_eq!(home.mode(), Mode::BrowsingStacks);
    assert_eq!(home.selected_stack(), None);
}
