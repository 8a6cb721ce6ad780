use dirbrowser::listing::{build_listing, sort_names, str_le};
use dirbrowser::render::path_string;
use dirbrowser::state::{ActivationEvent, BrowserState, ErrorKind, HostCommand, LogicalKey};

fn names(xs: &[&str]) -> Vec<String> {
    xs.iter().map(|s| s.to_string()).collect()
}

#[test]
fn listing_starts_with_parent_and_is_sorted() {
    let l = build_listing(names(&["banana", "Apple", "cherry", "apple"]));
    assert_eq!(l, names(&["..", "Apple", "apple", "banana", "cherry"]));
}

#[test]
fn listing_of_empty_directory_is_just_the_parent() {
    let l = build_listing(Vec::new());
    assert_eq!(l, names(&[".."]));
}

#[test]
fn sort_keeps_duplicates() {
    let l = sort_names(names(&["b", "a", "b"]));
    assert_eq!(l, names(&["a", "b", "b"]));
}

#[test]
fn name_order_is_by_code_point() {
    assert!(str_le("", "a"));
    assert!(str_le("a", "a"));
    assert!(str_le("ab", "abc"));
    assert!(!str_le("abc", "ab"));
    assert!(str_le("Zoo", "ant"));
    assert!(!str_le("ant", "Zoo"));
    assert!(str_le("a1", "a2"));
}

#[test]
fn new_state_starts_at_origin() {
    let s = BrowserState::new(names(&["home"]), names(&["y", "x"]), 4);
    assert_eq!(s.current_dir, names(&["home"]));
    assert_eq!(s.listing, names(&["..", "x", "y"]));
    assert_eq!(s.page, 0);
    assert_eq!(s.selection, 0);
    assert!(s.last_error.is_none());
}

#[test]
fn move_selection_clamps_at_both_ends() {
    // Three entries on one page of height five.
    let mut s = BrowserState::new(Vec::new(), names(&["a", "b"]), 5);
    s.move_selection(-1);
    assert_eq!(s.selection, 0);
    s.move_selection(1);
    assert_eq!(s.selection, 1);
    s.move_selection(1);
    assert_eq!(s.selection, 2);
    // Repeated forward moves at the last visible row are no-ops.
    s.move_selection(1);
    assert_eq!(s.selection, 2);
    s.move_selection(1);
    assert_eq!(s.selection, 2);
    s.move_selection(-1);
    assert_eq!(s.selection, 1);
}

#[test]
fn page_change_clamps_and_resets_selection() {
    // Twelve entries, height five: three pages.
    let children: Vec<String> = (0..11).map(|i| format!("f{:02}", i)).collect();
    let mut s = BrowserState::new(Vec::new(), children, 5);
    s.change_page(-1);
    assert_eq!(s.page, 0);
    s.move_selection(1);
    assert_eq!(s.selection, 1);
    s.change_page(1);
    assert_eq!(s.page, 1);
    assert_eq!(s.selection, 0);
    s.change_page(1);
    assert_eq!(s.page, 2);
    // Forward on the last page is a no-op.
    s.change_page(1);
    assert_eq!(s.page, 2);
    s.change_page(-1);
    assert_eq!(s.page, 1);
    assert_eq!(s.selection, 0);
}

#[test]
fn single_page_forward_is_noop() {
    let mut s = BrowserState::new(Vec::new(), names(&["a"]), 5);
    assert_eq!(s.total_page_count(), 1);
    s.change_page(1);
    assert_eq!(s.page, 0);
}

#[test]
fn absolute_index_stays_in_bounds_through_transitions() {
    let children: Vec<String> = (0..11).map(|i| format!("f{:02}", i)).collect();
    let mut s = BrowserState::new(Vec::new(), children, 5);
    let keys = [
        LogicalKey::NextPage,
        LogicalKey::MoveDown,
        LogicalKey::MoveDown,
        LogicalKey::NextPage,
        LogicalKey::MoveDown,
        LogicalKey::NextPage,
        LogicalKey::MoveDown,
        LogicalKey::MoveUp,
        LogicalKey::PrevPage,
        LogicalKey::PrevPage,
        LogicalKey::PrevPage,
        LogicalKey::MoveUp,
    ];
    for k in keys {
        s.handle_key(k);
        let abs = s.page * s.page_height + s.selection;
        assert!(abs < s.listing.len());
    }
}

#[test]
fn pagination_of_twelve_entries_in_pages_of_five() {
    // Eleven children plus the parent marker: twelve entries, three pages,
    // the last page showing exactly the two entries at indices 10 and 11.
    let children: Vec<String> = (0..11).map(|i| format!("f{:02}", i)).collect();
    let mut s = BrowserState::new(Vec::new(), children, 5);
    assert_eq!(s.listing.len(), 12);
    assert_eq!(s.total_page_count(), 3);
    s.change_page(1);
    s.change_page(1);
    assert_eq!(s.page, 2);
    assert_eq!(s.visible_len(), 2);
    let flags = vec![false, false];
    let m = s.render_model(&flags);
    assert_eq!(m.rows.len(), 2);
    assert_eq!(m.rows[0].text, s.listing[10]);
    assert_eq!(m.rows[1].text, s.listing[11]);
    assert_eq!(m.page_number, 3);
    assert_eq!(m.page_count, 3);
    assert_eq!(m.item_count, 12);
}

#[test]
fn exact_multiple_has_no_trailing_short_page() {
    // Nine children plus the parent marker: ten entries, exactly two full
    // pages of five.
    let children: Vec<String> = (0..9).map(|i| format!("f{}", i)).collect();
    let mut s = BrowserState::new(Vec::new(), children, 5);
    assert_eq!(s.total_page_count(), 2);
    s.change_page(1);
    assert_eq!(s.visible_len(), 5);
    s.change_page(1);
    assert_eq!(s.page, 1);
}

#[test]
fn descend_then_parent_round_trip() {
    let mut s = BrowserState::new(names(&["home", "user"]), names(&["docs", "music"]), 5);
    // Select the child "docs" and descend into it.
    s.move_selection(1);
    assert_eq!(s.selected_name(), "docs");
    s.apply_activation(ActivationEvent::EnteredDirectory { children: names(&["a.txt"]) });
    assert_eq!(s.current_dir, names(&["home", "user", "docs"]));
    assert_eq!(s.listing, names(&["..", "a.txt"]));
    assert_eq!(s.page, 0);
    assert_eq!(s.selection, 0);
    // The selection now rests on the parent marker; activate it.
    assert_eq!(s.selected_name(), "..");
    s.apply_activation(ActivationEvent::EnteredDirectory { children: names(&["docs", "music"]) });
    assert_eq!(s.current_dir, names(&["home", "user"]));
    assert_eq!(s.page, 0);
    assert_eq!(s.selection, 0);
}

#[test]
fn parent_at_root_keeps_root() {
    let mut s = BrowserState::new(Vec::new(), names(&["etc"]), 5);
    assert_eq!(s.selected_name(), "..");
    s.apply_activation(ActivationEvent::EnteredDirectory { children: names(&["etc"]) });
    assert_eq!(s.current_dir, Vec::<String>::new());
    assert_eq!(s.page, 0);
    assert_eq!(s.selection, 0);
}

#[test]
fn editor_exit_changes_nothing() {
    let mut s = BrowserState::new(names(&["home"]), names(&["notes.txt", "todo.txt"]), 5);
    s.move_selection(1);
    // The host hands the editor exactly the selected entry's path.
    assert_eq!(s.selected_name(), "notes.txt");
    s.apply_activation(ActivationEvent::EditorExited);
    assert_eq!(s.current_dir, names(&["home"]));
    assert_eq!(s.listing, names(&["..", "notes.txt", "todo.txt"]));
    assert_eq!(s.page, 0);
    assert_eq!(s.selection, 1);
    assert!(s.last_error.is_none());
}

#[test]
fn editor_launch_failure_only_sets_error() {
    let mut s = BrowserState::new(names(&["home"]), names(&["notes.txt"]), 5);
    s.move_selection(1);
    s.apply_activation(ActivationEvent::EditorLaunchFailed { detail: "no vi".to_string() });
    let e = s.last_error.as_ref().expect("error must be set");
    assert_eq!(e.kind, ErrorKind::EditorLaunch);
    assert_eq!(e.detail, "no vi");
    assert_eq!(s.selection, 1);
    assert_eq!(s.listing, names(&["..", "notes.txt"]));
}

#[test]
fn failed_descend_preserves_state() {
    let mut s = BrowserState::new(names(&["home"]), names(&["locked"]), 5);
    s.move_selection(1);
    s.apply_activation(ActivationEvent::NavigationFailed { detail: "permission denied".to_string() });
    let e = s.last_error.as_ref().expect("error must be set");
    assert_eq!(e.kind, ErrorKind::Navigation);
    assert_eq!(e.detail, "permission denied");
    assert_eq!(s.current_dir, names(&["home"]));
    assert_eq!(s.listing, names(&["..", "locked"]));
    assert_eq!(s.page, 0);
    assert_eq!(s.selection, 1);
}

#[test]
fn unreadable_listing_preserves_state() {
    let mut s = BrowserState::new(names(&["home"]), names(&["dir"]), 5);
    s.apply_activation(ActivationEvent::ListingFailed { detail: "unreadable".to_string() });
    let e = s.last_error.as_ref().expect("error must be set");
    assert_eq!(e.kind, ErrorKind::Listing);
    assert_eq!(s.current_dir, names(&["home"]));
    assert_eq!(s.listing, names(&["..", "dir"]));
}

#[test]
fn keys_map_to_commands() {
    let mut s = BrowserState::new(Vec::new(), names(&["a", "b"]), 5);
    assert_eq!(s.handle_key(LogicalKey::MoveDown), HostCommand::Idle);
    assert_eq!(s.selection, 1);
    assert_eq!(s.handle_key(LogicalKey::MoveUp), HostCommand::Idle);
    assert_eq!(s.selection, 0);
    assert_eq!(s.handle_key(LogicalKey::Quit), HostCommand::Quit);
    assert_eq!(s.handle_key(LogicalKey::Activate), HostCommand::Activate);
    assert_eq!(s.handle_key(LogicalKey::Other), HostCommand::Idle);
    assert_eq!(s.selection, 0);
    assert_eq!(s.page, 0);
}

#[test]
fn path_string_joins_components() {
    assert_eq!(path_string(&Vec::new()), "/");
    assert_eq!(path_string(&names(&["home"])), "/home");
    assert_eq!(path_string(&names(&["home", "user", "docs"])), "/home/user/docs");
}

#[test]
fn render_marks_directories_and_highlights_selection() {
    let mut s = BrowserState::new(names(&["home"]), names(&["dir", "file"]), 5);
    s.move_selection(1);
    let flags = vec![true, true, false];
    let m = s.render_model(&flags);
    assert_eq!(m.path, "/home");
    assert_eq!(m.item_count, 3);
    assert_eq!(m.page_number, 1);
    assert_eq!(m.page_count, 1);
    assert_eq!(m.rows.len(), 3);
    assert_eq!(m.rows[0].text, "../");
    assert_eq!(m.rows[1].text, "dir/");
    assert_eq!(m.rows[2].text, "file");
    assert!(!m.rows[0].highlighted);
    assert!(m.rows[1].highlighted);
    assert!(!m.rows[2].highlighted);
}

#[test]
fn render_shows_an_error_exactly_once() {
    let mut s = BrowserState::new(Vec::new(), names(&["a"]), 5);
    s.apply_activation(ActivationEvent::NavigationFailed { detail: "gone".to_string() });
    let flags = vec![false, false];
    let m1 = s.render_model(&flags);
    assert_eq!(m1.error_text, "gone");
    assert!(s.last_error.is_none());
    let m2 = s.render_model(&flags);
    assert_eq!(m2.error_text, "");
}
