use parq::app::{App, InputEvent, Key, KeyInput, KeyPhase, MouseKind, ViewMode};
use parq::{FileMetadata, LocalTime, ParquetFileData, ParquetFileMetadata, SchemaField, SchemaType};

fn empty_file() -> ParquetFileData {
    ParquetFileData {
        file_meta: FileMetadata {
            name: "f.parquet".to_string(),
            created: LocalTime { unix_seconds: 0, subsec_nanos: 0, utc_offset_seconds: 0 },
            modified: LocalTime { unix_seconds: 0, subsec_nanos: 0, utc_offset_seconds: 0 },
            size: 4,
        },
        metadata: ParquetFileMetadata {
            num_rows: 0,
            num_columns: 0,
            version: 1,
            created_by: None,
            num_row_groups: 0,
            schema: String::new(),
            schema_tree: SchemaField {
                id: None,
                name: "schema".to_string(),
                _type: SchemaType::Group(vec![]),
                repetition: None,
                converted_type: None,
                logical_type: None,
            },
            key_value_metadata: vec![],
            column_orders: String::new(),
        },
        row_groups_data: vec![],
    }
}

fn app() -> App {
    App::new(empty_file(), "f.parquet".to_string())
}

fn press(key: Key) -> KeyInput {
    KeyInput { key, phase: KeyPhase::Press, modifiers: 0 }
}

#[test]
fn view_mode_names_and_positions() {
    let all = ViewMode::all();
    let names: Vec<&str> = all.iter().map(|m| m.as_str()).collect();
    assert_eq!(names, vec!["Structure", "Schema", "Metadata", "Stats"]);
    for (i, m) in all.iter().enumerate() {
        assert_eq!(m.index(), i);
        assert_eq!(ViewMode::from_index(i), *m);
    }
    assert_eq!(ViewMode::from_index(4), ViewMode::Structure);
    assert_eq!(ViewMode::from_index(usize::MAX), ViewMode::Structure);
}

#[test]
fn new_app_starts_at_the_top_of_structure() {
    let a = app();
    assert_eq!(a.current_view, ViewMode::Structure);
    assert!(!a.should_quit);
    assert_eq!(a.scroll_offset, 0);
    assert_eq!(a.max_scroll, 0);
    assert!(a.expanded_nodes.is_empty());
    assert_eq!(a.file_path, "f.parquet");
}

#[test]
fn tabs_wrap_both_ways() {
    let mut a = app();
    a.previous_tab();
    assert_eq!(a.current_view, ViewMode::Stats);
    a.next_tab();
    assert_eq!(a.current_view, ViewMode::Structure);
    a.scroll_offset = 5;
    a.next_tab();
    assert_eq!(a.current_view, ViewMode::Schema);
    assert_eq!(a.scroll_offset, 0);
    for _ in 0..4 {
        a.next_tab();
    }
    assert_eq!(a.current_view, ViewMode::Schema);
    a.previous_tab();
    a.next_tab();
    assert_eq!(a.current_view, ViewMode::Schema);
}

#[test]
fn scrolling_stays_within_bounds() {
    let mut a = app();
    a.max_scroll = 12;
    a.scroll_down();
    assert_eq!(a.scroll_offset, 1);
    a.page_down();
    assert_eq!(a.scroll_offset, 11);
    a.page_down();
    assert_eq!(a.scroll_offset, 12);
    a.scroll_down();
    assert_eq!(a.scroll_offset, 12);
    a.page_up();
    assert_eq!(a.scroll_offset, 2);
    a.page_up();
    assert_eq!(a.scroll_offset, 0);
    a.scroll_up();
    assert_eq!(a.scroll_offset, 0);
    a.scroll_to_bottom();
    assert_eq!(a.scroll_offset, usize::MAX);
    a.scroll_down();
    assert_eq!(a.scroll_offset, 12);
    a.scroll_to_top();
    assert_eq!(a.scroll_offset, 0);
}

#[test]
fn scroll_up_undoes_scroll_down() {
    let mut a = app();
    a.max_scroll = 30;
    a.scroll_offset = 7;
    a.scroll_down();
    a.scroll_up();
    assert_eq!(a.scroll_offset, 7);
    a.page_down();
    a.page_up();
    assert_eq!(a.scroll_offset, 7);
}

#[test]
fn expand_and_collapse_record_offsets_once() {
    let mut a = app();
    a.scroll_offset = 3;
    a.expand_current();
    a.expand_current();
    assert_eq!(a.expanded_nodes, vec![3]);
    a.scroll_offset = 5;
    a.expand_current();
    assert_eq!(a.expanded_nodes, vec![3, 5]);
    a.scroll_offset = 3;
    a.collapse_current();
    assert_eq!(a.expanded_nodes, vec![5]);
    a.collapse_current();
    assert_eq!(a.expanded_nodes, vec![5]);
}

#[test]
fn keys_move_scroll_and_quit() {
    let mut a = app();
    a.max_scroll = 50;
    a.handle_key_event(press(Key::Char('3')));
    assert_eq!(a.current_view, ViewMode::Metadata);
    a.handle_key_event(press(Key::Char('j')));
    a.handle_key_event(press(Key::Down));
    assert_eq!(a.scroll_offset, 2);
    a.handle_key_event(press(Key::PageDown));
    assert_eq!(a.scroll_offset, 12);
    a.handle_key_event(press(Key::Char('k')));
    a.handle_key_event(press(Key::Up));
    assert_eq!(a.scroll_offset, 10);
    a.handle_key_event(press(Key::PageUp));
    assert_eq!(a.scroll_offset, 0);
    a.handle_key_event(press(Key::End));
    assert_eq!(a.scroll_offset, usize::MAX);
    a.handle_key_event(press(Key::Home));
    assert_eq!(a.scroll_offset, 0);
    a.handle_key_event(press(Key::Tab));
    assert_eq!(a.current_view, ViewMode::Stats);
    a.handle_key_event(press(Key::Right));
    assert_eq!(a.current_view, ViewMode::Structure);
    a.handle_key_event(press(Key::Left));
    assert_eq!(a.current_view, ViewMode::Stats);
    a.handle_key_event(press(Key::BackTab));
    assert_eq!(a.current_view, ViewMode::Metadata);
    a.handle_key_event(press(Key::Char('1')));
    assert_eq!(a.current_view, ViewMode::Structure);
    a.handle_key_event(press(Key::Char('4')));
    assert_eq!(a.current_view, ViewMode::Stats);
    a.handle_key_event(press(Key::Char('2')));
    assert_eq!(a.current_view, ViewMode::Schema);
    a.handle_key_event(press(Key::Char('l')));
    assert_eq!(a.expanded_nodes, vec![0]);
    a.handle_key_event(press(Key::Char('h')));
    assert!(a.expanded_nodes.is_empty());
    assert!(!a.should_quit);
    a.handle_key_event(KeyInput { key: Key::Char('q'), phase: KeyPhase::Press, modifiers: 2 });
    assert!(!a.should_quit);
    a.handle_key_event(KeyInput { key: Key::Esc, phase: KeyPhase::Release, modifiers: 0 });
    assert!(!a.should_quit);
    a.handle_key_event(press(Key::Esc));
    assert!(a.should_quit);
}

#[test]
fn quit_with_q_and_released_keys_do_nothing() {
    let mut a = app();
    a.handle_key_event(KeyInput { key: Key::Char('3'), phase: KeyPhase::Repeat, modifiers: 0 });
    assert_eq!(a.current_view, ViewMode::Structure);
    a.handle_key_event(press(Key::Other));
    a.handle_key_event(press(Key::Char('x')));
    assert_eq!(a.current_view, ViewMode::Structure);
    a.handle_key_event(press(Key::Char('q')));
    assert!(a.should_quit);
    a.handle_event(InputEvent::Key(press(Key::Char('2'))));
    assert!(a.should_quit);
}

#[test]
fn mouse_wheel_scrolls() {
    let mut a = app();
    a.max_scroll = 2;
    a.handle_mouse_event(MouseKind::ScrollDown);
    a.handle_event(InputEvent::Mouse(MouseKind::ScrollDown));
    a.handle_event(InputEvent::Mouse(MouseKind::ScrollDown));
    assert_eq!(a.scroll_offset, 2);
    a.handle_mouse_event(MouseKind::Other);
    a.handle_event(InputEvent::Resize);
    a.handle_event(InputEvent::Other);
    assert_eq!(a.scroll_offset, 2);
    a.handle_mouse_event(MouseKind::ScrollUp);
    assert_eq!(a.scroll_offset, 1);
}
