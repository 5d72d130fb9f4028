use tree_cleaner::command_line::CommandLineState;
use tree_cleaner::commands::Session;
use tree_cleaner::explorer::ExplorerState;
use tree_cleaner::marks::{MarkedItem, Marks};
use tree_cleaner::model::{ByteSize, DeletionMode, NodeId, SizeBase, SizeMode};
use tree_cleaner::preferences::Preferences;
use tree_cleaner::screen::Screen;
use tree_cleaner::settings::SettingsState;
use tree_cleaner::theme::Theme;

fn session() -> Session {
    Session {
        screen: Screen::Explorer,
        overlay: None,
        status: None,
        explorer: ExplorerState::new(200),
        marks: Marks::default(),
        preferences: Preferences {
            theme_name: "terracotta".to_owned(),
            size_mode: SizeMode::Allocated,
            size_base: SizeBase::Decimal,
            show_files: true,
            row_limit: 200,
            heaviest_limit: 100,
            worker_threads: 8,
            dense_threshold: 20_000,
            materialize_depth: 3,
            background_root_scan: true,
            background_paused: false,
            deletion_mode: DeletionMode::Permanent,
            docker_enabled: true,
            docker_prune_containers: false,
            docker_prune_volumes: false,
            docker_prune_build_cache: false,
            discovery_max_depth: 6,
        },
        settings: SettingsState::new(),
        theme: Theme::terracotta(),
        truecolor: true,
        theme_overrides: Vec::new(),
        pending_foreground: None,
        should_quit: false,
        command_line: CommandLineState::default(),
        command_mode: false,
    }
}

#[test]
fn the_plan_takes_fresh_sizes_and_the_session_mode() {
    let mut s = session();
    s.preferences.deletion_mode = DeletionMode::Trash;
    s.marks.toggle("/data/b".to_owned(), MarkedItem { size: ByteSize(10), is_directory: true, node: Some(NodeId(2)), parent_node: None });
    s.marks.toggle("/data/a/".to_owned(), MarkedItem { size: ByteSize(5), is_directory: true, node: Some(NodeId(1)), parent_node: None });
    let plan = s.deletion_plan(&[("/data/a".to_owned(), ByteSize(500)), ("/elsewhere".to_owned(), ByteSize(1))]);
    assert_eq!(plan.mode, DeletionMode::Trash);
    assert_eq!(plan.items.len(), 2);
    assert_eq!(plan.items[0].path, "/data/a");
    assert_eq!(plan.items[0].size, ByteSize(500));
    assert_eq!(plan.items[1].path, "/data/b");
    assert_eq!(plan.items[1].size, ByteSize(10));
    assert_eq!(s.marks.len(), 2);
}
