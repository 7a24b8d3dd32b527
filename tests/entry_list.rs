use alliumd::entry_list::{jump_back, jump_forward, CoreSelection, EntryListState};

fn initials(s: &str) -> Vec<Option<char>> {
    s.chars().map(|c| if c == '_' { None } else { Some(c) }).collect()
}

#[test]
fn jump_forward_to_next_initial() {
    let v = initials("aaabbc");
    assert_eq!(jump_forward(&v, 0), 3);
    assert_eq!(jump_forward(&v, 1), 3);
    assert_eq!(jump_forward(&v, 3), 5);
    assert_eq!(jump_forward(&v, 5), 5);
    assert_eq!(jump_forward(&v, 9), 5);
    let v = initials("aaaa");
    assert_eq!(jump_forward(&v, 1), 3);
}

#[test]
fn jump_back_to_group_start() {
    let v = initials("aaabbc");
    assert_eq!(jump_back(&v, 5), 3);
    assert_eq!(jump_back(&v, 4), 3);
    assert_eq!(jump_back(&v, 3), 0);
    assert_eq!(jump_back(&v, 0), 0);
    assert_eq!(jump_back(&v, 6), 5);
    let v = initials("__ab");
    assert_eq!(jump_back(&v, 2), 0);
}

#[test]
fn core_selection_stays_in_bounds() {
    let mut c = CoreSelection::new(0, vec!["a".to_string(), "b".to_string(), "c".to_string()]);
    c.select_previous();
    assert_eq!(c.selected(), 0);
    c.select_next();
    c.select_next();
    assert_eq!(c.core_name(), "c");
    c.select_next();
    assert_eq!(c.selected(), 2);
    c.select_previous();
    assert_eq!(c.selected(), 1);
}

#[test]
fn list_state_nests() {
    let s = EntryListState { sort: 1u8, selected: 2, child: Some(Box::new(EntryListState { sort: 3u8, selected: 4, child: None })) };
    assert_eq!(s.child.as_ref().map(|c| c.selected), Some(4));
}
