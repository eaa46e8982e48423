use secure_safe::navigation::file_explorer::{
    clipped, explorer_entries, order_entries, select_vault_entry, Explorer, ExplorerAction,
    ExplorerEntry, ExplorerEvent, ExplorerViewport, KeyInput,
};

fn entry(path: &str, name: &str, is_dir: bool) -> ExplorerEntry {
    ExplorerEntry { path: path.to_string(), name: name.to_string(), is_dir, is_file: !is_dir }
}

#[test]
fn scrolling_keeps_the_selection_in_view() {
    let mut viewport = ExplorerViewport::new(80, 5);
    viewport.selected = 4;
    viewport.keep_selection_visible();
    assert_eq!(viewport.scroll_offset, 2);

    viewport.selected = 1;
    viewport.keep_selection_visible();
    assert_eq!(viewport.scroll_offset, 1);
}

#[test]
fn clipping_does_not_split_unicode_characters() {
    assert_eq!(clipped("\u{2191}/\u{2193}: select", 4), "\u{2191}/\u{2193}:");
}

#[test]
fn clipping_keeps_short_text() {
    assert_eq!(clipped("abc", 10), "abc");
    assert_eq!(clipped("abc", 0), "");
}

#[test]
fn tiny_screen_shows_no_entry_rows() {
    let mut viewport = ExplorerViewport::new(80, 2);
    assert_eq!(viewport.visible_entry_count(), 0);
    viewport.selected = 7;
    viewport.scroll_offset = 3;
    viewport.keep_selection_visible();
    assert_eq!(viewport.scroll_offset, 7);
    viewport.reset_selection();
    assert_eq!((viewport.selected, viewport.scroll_offset), (0, 0));
}

#[test]
fn flat_explorer_hides_directories() {
    let entries = vec![entry("/d/nested", "nested", true), entry("/d/entry.safe", "entry.safe", false)];
    let listed = explorer_entries(entries, false);
    assert_eq!(listed.len(), 1);
    assert_eq!(listed[0].path, "/d/entry.safe");
}

#[test]
fn listing_puts_directories_first_then_names() {
    let mut other = entry("/d/sock", "sock", false);
    other.is_file = false;
    let entries = vec![
        entry("/d/b.txt", "b.txt", false),
        entry("/d/zdir", "zdir", true),
        other,
        entry("/d/a.txt", "a.txt", false),
        entry("/d/adir", "adir", true),
    ];
    let ordered = order_entries(entries);
    let names: Vec<&str> = ordered.iter().map(|e| e.name.as_str()).collect();
    assert_eq!(names, vec!["adir", "zdir", "a.txt", "b.txt"]);
}

#[test]
fn listing_keeps_equal_entries_in_their_order() {
    let entries = vec![
        entry("/d/second/x", "x", false),
        entry("/d/a", "a", false),
        entry("/d/first/x", "x", false),
    ];
    let ordered = order_entries(entries);
    let paths: Vec<&str> = ordered.iter().map(|e| e.path.as_str()).collect();
    assert_eq!(paths, vec!["/d/a", "/d/second/x", "/d/first/x"]);
}

#[test]
fn keys_move_and_choose() {
    let entries = vec![entry("/d/sub", "sub", true), entry("/d/a", "a", false), entry("/d/b", "b", false)];
    let mut explorer = Explorer::new("/d".to_string(), entries, 80, 4, true);
    assert!(matches!(explorer.handle(ExplorerEvent::Key(KeyInput::Up, false)), ExplorerAction::Redraw));
    assert_eq!(explorer.viewport.selected, 0);
    match explorer.handle(ExplorerEvent::Key(KeyInput::Right, false)) {
        ExplorerAction::OpenDirectory(p) => assert_eq!(p, "/d/sub"),
        _ => panic!("expected to open the directory"),
    }
    assert!(matches!(explorer.handle(ExplorerEvent::Key(KeyInput::Enter, false)), ExplorerAction::Redraw));
    explorer.handle(ExplorerEvent::Key(KeyInput::Down, false));
    explorer.handle(ExplorerEvent::Key(KeyInput::Down, false));
    explorer.handle(ExplorerEvent::Key(KeyInput::Down, false));
    assert_eq!(explorer.viewport.selected, 2);
    assert_eq!(explorer.viewport.scroll_offset, 1);
    match explorer.handle(ExplorerEvent::Key(KeyInput::Enter, false)) {
        ExplorerAction::Choose(p) => assert_eq!(p, "/d/b"),
        _ => panic!("expected a choice"),
    }
    assert!(matches!(explorer.handle(ExplorerEvent::Key(KeyInput::Down, true)), ExplorerAction::Redraw));
    assert!(matches!(explorer.handle(ExplorerEvent::Key(KeyInput::Char('q'), false)), ExplorerAction::Quit));
    assert!(matches!(explorer.handle(ExplorerEvent::Key(KeyInput::Esc, false)), ExplorerAction::Quit));
    match explorer.handle(ExplorerEvent::Key(KeyInput::Left, false)) {
        ExplorerAction::OpenParent(p) => assert_eq!(p, "/"),
        _ => panic!("expected to go up"),
    }
    explorer.handle(ExplorerEvent::Resize(80, 10));
    assert_eq!(explorer.viewport.rows, 10);
    assert_eq!(explorer.viewport.scroll_offset, 1);
}

#[test]
fn flat_explorer_does_not_navigate() {
    let entries = vec![entry("/v/a", "a", false)];
    let mut explorer = Explorer::new("/v".to_string(), entries, 80, 4, false);
    assert!(matches!(explorer.handle(ExplorerEvent::Key(KeyInput::Left, false)), ExplorerAction::Redraw));
    assert!(matches!(explorer.handle(ExplorerEvent::Key(KeyInput::Right, false)), ExplorerAction::Redraw));
}

#[test]
fn going_up_selects_the_directory_left() {
    let mut explorer = Explorer::new("/d/sub".to_string(), vec![], 80, 4, true);
    let parent_listing = vec![entry("/d/a", "a", true), entry("/d/b", "b", true), entry("/d/sub", "sub", true)];
    explorer.enter_parent("/d".to_string(), parent_listing);
    assert_eq!(explorer.current_directory, "/d");
    assert_eq!(explorer.viewport.selected, 2);
    assert_eq!(explorer.viewport.scroll_offset, 1);
    explorer.enter_directory("/d/a".to_string(), vec![]);
    assert_eq!(explorer.viewport.selected, 0);
}

#[test]
fn going_up_finds_the_directory_left_by_its_components() {
    let mut explorer = Explorer::new("/home/u/".to_string(), vec![], 80, 10, true);
    let parent_listing = vec![entry("/home/a", "a", true), entry("/home//u", "u", true)];
    explorer.enter_parent("/home".to_string(), parent_listing);
    assert_eq!(explorer.viewport.selected, 1);
}

#[test]
fn screen_lines() {
    let entries = vec![entry("/d/sub", "sub", true), entry("/d/a", "a", false), entry("/d/b", "b", false)];
    let explorer = Explorer::new("/d".to_string(), entries, 5, 4, true);
    let screen = explorer.screen();
    assert_eq!(screen.title, "/d");
    assert_eq!(screen.lines.len(), 2);
    assert_eq!(screen.lines[0].row, 1);
    assert_eq!(screen.lines[0].text, "> sub");
    assert!(screen.lines[0].selected && screen.lines[0].is_dir);
    assert_eq!(screen.lines[1].text, "  a");
    assert_eq!(screen.hint, Some((3, "\u{2191}/\u{2193}: ".to_string())));
    let empty = Explorer::new("/v".to_string(), vec![], 80, 3, false);
    assert_eq!(empty.screen().hint, Some((2, "No stored files  q: quit".to_string())));
    assert!(empty.screen().lines.is_empty());
}

#[test]
fn vault_entry_choice_is_its_file_name() {
    assert_eq!(select_vault_entry(Some("/v/report.txt".to_string())), Ok(Some("report.txt".to_string())));
    assert_eq!(select_vault_entry(None), Ok(None));
    assert!(select_vault_entry(Some("/".to_string())).is_err());
}
