use tree_cleaner::model::{ByteSize, CandidateId, CleaningCandidate, CleaningCategory, NodeId, QueryId};
use tree_cleaner::panels::{cleaner_rows, CleanerRow, CleanerState, DashboardPanel, DashboardState, HeaviestState};

fn candidate(id: u32, category: u32, size: Option<u64>) -> CleaningCandidate {
    CleaningCandidate { id: CandidateId(id), category: CleaningCategory(category), size: size.map(ByteSize) }
}

fn header(category: u32) -> CleanerRow {
    CleanerRow::Category(CleaningCategory(category))
}

fn row(id: u32) -> CleanerRow {
    CleanerRow::Candidate(CandidateId(id))
}

#[test]
fn cleaner_groups_by_category_largest_first() {
    let categories = [CleaningCategory(0), CleaningCategory(1), CleaningCategory(2)];
    let candidates = [
        candidate(10, 2, Some(5)),
        candidate(11, 0, None),
        candidate(12, 0, Some(7)),
        candidate(13, 2, Some(9)),
        candidate(14, 0, Some(7)),
    ];
    let rows = cleaner_rows(&categories, &candidates, &[]);
    assert_eq!(rows, vec![header(0), row(12), row(14), row(11), header(2), row(13), row(10)]);
}

#[test]
fn collapsed_category_shows_only_its_header() {
    let categories = [CleaningCategory(0), CleaningCategory(1)];
    let candidates = [candidate(1, 0, Some(1)), candidate(2, 1, Some(2))];
    let rows = cleaner_rows(&categories, &candidates, &[CleaningCategory(0)]);
    assert_eq!(rows, vec![header(0), header(1), row(2)]);
}

#[test]
fn cleaner_selection_and_collapse() {
    let mut cleaner = CleanerState::default();
    assert!(cleaner.selected_row().is_none());
    let categories = [CleaningCategory(0), CleaningCategory(1)];
    let candidates = [candidate(1, 0, Some(1)), candidate(2, 1, Some(2)), candidate(3, 1, Some(3))];
    cleaner.rebuild_rows(&categories, &candidates);
    assert_eq!(cleaner.rows.len(), 5);
    assert_eq!(cleaner.table_selection, Some(0));
    cleaner.move_selection(15);
    assert_eq!(cleaner.selected, 4);
    assert_eq!(cleaner.selected_row(), Some(&row(2)));
    cleaner.toggle_collapsed(CleaningCategory(1));
    assert_eq!(cleaner.collapsed, vec![CleaningCategory(1)]);
    cleaner.rebuild_rows(&categories, &candidates);
    assert_eq!(cleaner.rows, vec![header(0), row(1), header(1)]);
    assert_eq!(cleaner.selected, 2);
    cleaner.toggle_collapsed(CleaningCategory(1));
    assert!(cleaner.collapsed.is_empty());
    cleaner.move_selection(-15);
    assert_eq!(cleaner.selected, 0);
}

#[test]
fn cleaner_with_no_rows_has_no_selection() {
    let mut cleaner = CleanerState::default();
    cleaner.selected = 3;
    cleaner.clamp_selection();
    assert_eq!(cleaner.selected, 0);
    assert_eq!(cleaner.table_selection, None);
    cleaner.move_selection(1);
    assert_eq!(cleaner.selected, 0);
}

#[test]
fn dashboard_moves_the_focused_panel() {
    let mut dashboard = DashboardState::new(vec!["disk0", "disk1"]);
    assert_eq!(dashboard.focus, DashboardPanel::RootBreakdown);
    dashboard.move_selection(1);
    assert_eq!(dashboard.selected_root_row, 0);
    dashboard.show_root_rows(vec![NodeId(5), NodeId(6), NodeId(7)]);
    assert_eq!(dashboard.root_table_selection, Some(0));
    dashboard.move_selection(5);
    assert_eq!(dashboard.selected_root_child(), Some(NodeId(7)));
    assert_eq!(dashboard.root_table_selection, Some(2));
    dashboard.toggle_focus();
    assert_eq!(dashboard.focus, DashboardPanel::Volumes);
    dashboard.move_selection(1);
    assert_eq!(dashboard.selected_volume(), Some(&"disk1"));
    dashboard.move_selection(1);
    assert_eq!(dashboard.selected_volume(), Some(&"disk1"));
    dashboard.toggle_focus();
    assert_eq!(dashboard.focus, DashboardPanel::RootBreakdown);
}

#[test]
fn dashboard_root_rows_keep_the_cursor_inside() {
    let mut dashboard: DashboardState<&str> = DashboardState::new(Vec::new());
    dashboard.show_root_rows(vec![NodeId(1), NodeId(2), NodeId(3)]);
    dashboard.move_selection(2);
    dashboard.show_root_rows(vec![NodeId(1)]);
    assert_eq!(dashboard.selected_root_row, 0);
    dashboard.show_root_rows(Vec::new());
    assert_eq!(dashboard.root_table_selection, None);
    assert_eq!(dashboard.selected_root_child(), None);
    assert_eq!(dashboard.selected_volume(), None);
}

#[test]
fn heaviest_moves_and_clamps() {
    let mut heaviest: HeaviestState<u64> = HeaviestState::new(100);
    assert_eq!(heaviest.limit, 100);
    assert!(heaviest.selected_file().is_none());
    heaviest.query = Some(QueryId(1));
    heaviest.rows = vec![30, 20, 10];
    heaviest.move_selection(15);
    assert_eq!(heaviest.selected_file(), Some(&10));
    heaviest.rows.truncate(1);
    heaviest.clamp_selection();
    assert_eq!(heaviest.selected, 0);
    assert_eq!(heaviest.table_selection, Some(0));
    heaviest.selected = usize::MAX;
    heaviest.clamp_selection();
    assert_eq!(heaviest.selected, 0);
}

use tree_cleaner::keys::Key;
use tree_cleaner::panels::{CleanerEffect, DashboardEffect, HeaviestEffect};
use tree_cleaner::screen::Screen;

#[test]
fn heaviest_keys() {
    let mut heaviest: HeaviestState<u64> = HeaviestState::new(100);
    heaviest.rows = vec![3, 2, 1];
    assert_eq!(heaviest.handle_key(Key::Char('j')), HeaviestEffect::Nothing);
    assert_eq!(heaviest.selected, 1);
    heaviest.handle_key(Key::End);
    assert_eq!(heaviest.selected, 2);
    heaviest.handle_key(Key::Char('g'));
    assert_eq!(heaviest.selected, 0);
    assert_eq!(heaviest.handle_key(Key::Char('+')), HeaviestEffect::StartQuery(200));
    assert_eq!(heaviest.handle_key(Key::Char('-')), HeaviestEffect::StartQuery(50));
    assert_eq!(heaviest.handle_key(Key::Char('r')), HeaviestEffect::StartQuery(100));
    assert_eq!(heaviest.handle_key(Key::Enter), HeaviestEffect::JumpToFile);
    assert_eq!(heaviest.handle_key(Key::Backspace), HeaviestEffect::SwitchScreen(Screen::Explorer));
    assert_eq!(heaviest.handle_key(Key::Char('x')), HeaviestEffect::ClearMarks);
    heaviest.limit = 8_000;
    assert_eq!(heaviest.handle_key(Key::Char('=')), HeaviestEffect::StartQuery(10_000));
    heaviest.limit = 12;
    assert_eq!(heaviest.handle_key(Key::Char('-')), HeaviestEffect::StartQuery(10));
}

#[test]
fn cleaner_keys() {
    let mut cleaner = CleanerState::default();
    let categories = [CleaningCategory(0)];
    let candidates = [candidate(7, 0, Some(1))];
    cleaner.rebuild_rows(&categories, &candidates);
    assert_eq!(cleaner.handle_key(Key::Char(' ')), CleanerEffect::ToggleCategory(CleaningCategory(0)));
    assert_eq!(cleaner.handle_key(Key::Enter), CleanerEffect::Nothing);
    assert_eq!(cleaner.collapsed, vec![CleaningCategory(0)]);
    assert_eq!(cleaner.handle_key(Key::Left), CleanerEffect::Nothing);
    assert!(cleaner.collapsed.is_empty());
    cleaner.handle_key(Key::Down);
    assert_eq!(cleaner.handle_key(Key::Char(' ')), CleanerEffect::ToggleCandidate(CandidateId(7)));
    assert_eq!(cleaner.handle_key(Key::Right), CleanerEffect::ToggleCandidate(CandidateId(7)));
    assert_eq!(cleaner.handle_key(Key::Char('o')), CleanerEffect::Reveal(CandidateId(7)));
    assert_eq!(cleaner.handle_key(Key::Char('i')), CleanerEffect::ShowInfo(row(7)));
    assert_eq!(cleaner.handle_key(Key::Char('a')), CleanerEffect::SetAll(true));
    assert_eq!(cleaner.handle_key(Key::Char('n')), CleanerEffect::SetAll(false));
    assert_eq!(cleaner.handle_key(Key::Char('c')), CleanerEffect::RequestCleaning);
    assert_eq!(cleaner.handle_key(Key::Char('r')), CleanerEffect::Restart);
    assert_eq!(cleaner.handle_key(Key::Esc), CleanerEffect::SwitchScreen(Screen::Explorer));
}

#[test]
fn dashboard_keys() {
    let mut dashboard = DashboardState::new(vec!["a", "b"]);
    dashboard.show_root_rows(vec![NodeId(1), NodeId(2)]);
    dashboard.handle_key(Key::Char('j'));
    assert_eq!(dashboard.handle_key(Key::Enter), DashboardEffect::EnterDirectory(NodeId(2)));
    dashboard.handle_key(Key::Char('h'));
    assert_eq!(dashboard.focus, DashboardPanel::Volumes);
    assert_eq!(dashboard.handle_key(Key::Char('e')), DashboardEffect::OpenVolume(0));
    dashboard.handle_key(Key::Down);
    assert_eq!(dashboard.handle_key(Key::Enter), DashboardEffect::OpenVolume(1));
    assert_eq!(dashboard.handle_key(Key::Char('c')), DashboardEffect::SwitchScreen(Screen::Cleaner));
    assert_eq!(dashboard.handle_key(Key::Char('r')), DashboardEffect::Refresh);
    assert_eq!(dashboard.handle_key(Key::Char('z')), DashboardEffect::Nothing);
}
