use ferry::picker::{item_label, PickerKey, TuiState};

fn names(n: usize) -> Vec<String> {
    (0..n).map(|i| format!("/start/f{}.txt", i)).collect()
}

#[test]
fn new_state_starts_at_top_with_nothing_checked() {
    let s = TuiState::new(names(3), 10);
    assert!(s.get_selected_paths().is_empty());
    let rows = s.visible_rows_text("/start");
    assert_eq!(rows, vec!["> [ ] f0.txt", "  [ ] f1.txt", "  [ ] f2.txt"]);
}

#[test]
fn move_down_scrolls_minimally() {
    // height 5 leaves 3 rows for the list
    let mut s = TuiState::new(names(6), 5);
    s.move_down();
    s.move_down();
    assert_eq!(s.visible_rows_text("/start")[0], "  [ ] f0.txt");
    s.move_down();
    let rows = s.visible_rows_text("/start");
    assert_eq!(rows, vec!["  [ ] f1.txt", "  [ ] f2.txt", "> [ ] f3.txt"]);
}

#[test]
fn move_up_scrolls_back_when_leaving_the_window() {
    let mut s = TuiState::new(names(6), 5);
    for _ in 0..5 {
        s.move_down();
    }
    let rows = s.visible_rows_text("/start");
    assert_eq!(rows, vec!["  [ ] f3.txt", "  [ ] f4.txt", "> [ ] f5.txt"]);
    s.move_up();
    s.move_up();
    s.move_up();
    let rows = s.visible_rows_text("/start");
    assert_eq!(rows, vec!["> [ ] f2.txt", "  [ ] f3.txt", "  [ ] f4.txt"]);
}

#[test]
fn highlight_is_clamped_at_both_ends() {
    let mut s = TuiState::new(names(2), 10);
    s.move_up();
    assert_eq!(s.visible_rows_text("/start")[0], "> [ ] f0.txt");
    s.move_down();
    s.move_down();
    s.move_down();
    assert_eq!(s.visible_rows_text("/start")[1], "> [ ] f1.txt");
}

#[test]
fn highlight_stays_visible_over_many_keys() {
    let n = 7;
    let h: u16 = 4;
    let mut s = TuiState::new(names(n), h);
    let keys = [
        PickerKey::Down, PickerKey::Down, PickerKey::Down, PickerKey::Up, PickerKey::Down,
        PickerKey::Down, PickerKey::Down, PickerKey::Down, PickerKey::Down, PickerKey::Up,
        PickerKey::Up, PickerKey::Up, PickerKey::Up, PickerKey::Up, PickerKey::Up,
    ];
    for k in keys {
        s.handle_key(k);
        let rows = s.visible_rows_text("/start");
        assert_eq!(rows.len(), (h - 2) as usize);
        assert_eq!(rows.iter().filter(|r| r.starts_with("> ")).count(), 1);
    }
}

#[test]
fn toggle_flips_only_the_highlighted_item() {
    let mut s = TuiState::new(names(3), 10);
    s.move_down();
    s.toggle_selection();
    assert_eq!(s.get_selected_paths(), vec!["/start/f1.txt"]);
    assert_eq!(s.visible_rows_text("/start")[1], "> [x] f1.txt");
    s.toggle_selection();
    assert!(s.get_selected_paths().is_empty());
}

#[test]
fn selection_follows_list_order_not_toggle_order() {
    let mut s = TuiState::new(names(4), 10);
    s.move_down();
    s.move_down();
    s.toggle_selection();
    s.move_up();
    s.move_up();
    s.toggle_selection();
    assert_eq!(s.get_selected_paths(), vec!["/start/f0.txt", "/start/f2.txt"]);
}

#[test]
fn quit_keeps_what_is_checked() {
    let mut s = TuiState::new(names(3), 10);
    assert!(!s.handle_key(PickerKey::Toggle));
    assert!(!s.handle_key(PickerKey::Other));
    assert!(s.handle_key(PickerKey::Quit));
    assert_eq!(s.get_selected_paths(), vec!["/start/f0.txt"]);
    assert!(s.handle_key(PickerKey::Confirm));
}

#[test]
fn toggle_on_empty_list_does_nothing() {
    let mut s = TuiState::new(Vec::new(), 10);
    s.toggle_selection();
    s.move_down();
    assert!(s.get_selected_paths().is_empty());
    assert!(s.visible_rows_text("/start").is_empty());
}

#[test]
fn resize_changes_the_window() {
    let mut s = TuiState::new(names(5), 10);
    assert_eq!(s.visible_rows_text("/start").len(), 5);
    s.set_terminal_height(4);
    assert_eq!(s.visible_rows_text("/start").len(), 2);
}

#[test]
fn labels_are_relative_to_the_start_directory() {
    assert_eq!(item_label("/start", "/start/a.txt"), "a.txt");
    assert_eq!(item_label("/start/", "/start/a.txt"), "a.txt");
    assert_eq!(item_label("./dir", "./dir/sub/b.txt"), "sub/b.txt");
    assert_eq!(item_label("/other", "/start/a.txt"), "a.txt");
    assert_eq!(item_label("/start", "/"), "/");
}
