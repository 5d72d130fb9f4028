use tree_cleaner::command_line::{parse_command, CommandLineState, DeveloperCommand};

fn unknown(text: &str) -> DeveloperCommand {
    DeveloperCommand::Unknown(text.to_owned())
}

#[test]
fn quit_has_three_spellings_and_an_optional_colon() {
    assert_eq!(parse_command("q"), DeveloperCommand::Quit);
    assert_eq!(parse_command(":quit"), DeveloperCommand::Quit);
    assert_eq!(parse_command("  ::EXIT  "), DeveloperCommand::Quit);
}

#[test]
fn simple_commands() {
    assert_eq!(parse_command("help"), DeveloperCommand::Help);
    assert_eq!(parse_command("?"), DeveloperCommand::Help);
    assert_eq!(parse_command("logs"), DeveloperCommand::ShowLog);
    assert_eq!(parse_command("stats"), DeveloperCommand::ShowStatistics);
    assert_eq!(parse_command("refresh"), DeveloperCommand::Rescan);
    assert_eq!(parse_command("force"), DeveloperCommand::ExpandDense);
    assert_eq!(parse_command("pause"), DeveloperCommand::PauseBackground);
    assert_eq!(parse_command("unpause"), DeveloperCommand::ResumeBackground);
    assert_eq!(parse_command("finder"), DeveloperCommand::Reveal);
    assert_eq!(parse_command("volumes"), DeveloperCommand::ListMounts);
    assert_eq!(parse_command("cleaner"), DeveloperCommand::Cleaner);
    assert_eq!(parse_command("home"), DeveloperCommand::Dashboard);
    assert_eq!(parse_command("tree"), DeveloperCommand::Explorer);
    assert_eq!(parse_command("unmark"), DeveloperCommand::ClearMarks);
}

#[test]
fn config_save_or_show_path() {
    assert_eq!(parse_command("config save"), DeveloperCommand::SaveConfig);
    assert_eq!(parse_command("config"), DeveloperCommand::ShowConfigPath);
    assert_eq!(parse_command("config other"), DeveloperCommand::ShowConfigPath);
}

#[test]
fn goto_keeps_the_path_and_needs_one() {
    assert_eq!(parse_command("goto ~/My Documents "), DeveloperCommand::GoTo("~/My Documents".to_owned()));
    assert_eq!(parse_command("cd"), unknown("cd needs a path"));
    assert_eq!(parse_command("OPEN"), unknown("open needs a path"));
}

#[test]
fn numbers_accept_underscores() {
    assert_eq!(parse_command("limit 1_000"), DeveloperCommand::SetRowLimit(1000));
    assert_eq!(parse_command("threads 8"), DeveloperCommand::SetWorkerThreads(8));
    assert_eq!(parse_command("dense 20_000"), DeveloperCommand::SetDenseThreshold(20000));
    assert_eq!(parse_command("depth 64"), DeveloperCommand::SetMaterializeDepth(64));
}

#[test]
fn number_errors() {
    assert_eq!(parse_command("limit 0"), unknown("limit needs a positive number"));
    assert_eq!(parse_command("rows lots"), unknown("limit needs a positive number"));
    assert_eq!(parse_command("workers"), unknown("threads needs a positive number"));
    assert_eq!(parse_command("dense 99"), unknown("dense needs a number of at least 100"));
    assert_eq!(parse_command("depth 65"), unknown("depth needs a number between 1 and 64"));
    assert_eq!(parse_command("materialize 0"), unknown("depth needs a number between 1 and 64"));
}

#[test]
fn words_are_lower_cased() {
    assert_eq!(parse_command("mode Apparent"), DeveloperCommand::SetSizeMode("apparent".to_owned()));
    assert_eq!(parse_command("units SI"), DeveloperCommand::SetSizeBase("si".to_owned()));
    assert_eq!(parse_command("trash ON"), DeveloperCommand::SetDeletionMode("on".to_owned()));
    assert_eq!(parse_command("size"), unknown("mode needs `allocated` or `apparent`"));
    assert_eq!(parse_command("base"), unknown("base needs `decimal` or `binary`"));
    assert_eq!(parse_command("deletion"), unknown("trash needs `on` or `off`"));
}

#[test]
fn heaviest_with_and_without_a_count() {
    assert_eq!(parse_command("top"), DeveloperCommand::HeaviestFiles(None));
    assert_eq!(parse_command("largest 50"), DeveloperCommand::HeaviestFiles(Some(50)));
    assert_eq!(parse_command("heaviest many"), DeveloperCommand::HeaviestFiles(None));
}

#[test]
fn filter_keeps_case_and_may_be_empty() {
    assert_eq!(parse_command("filter Photos"), DeveloperCommand::Filter(Some("Photos".to_owned())));
    assert_eq!(parse_command("grep"), DeveloperCommand::Filter(None));
}

#[test]
fn export_needs_a_path() {
    assert_eq!(parse_command("dump rows.tsv"), DeveloperCommand::Export("rows.tsv".to_owned()));
    assert_eq!(parse_command("export"), unknown("export needs a file path"));
}

#[test]
fn unknown_command_names_itself_in_lower_case() {
    assert_eq!(parse_command("Frobnicate now"), unknown("unknown command `frobnicate`"));
    assert_eq!(parse_command(""), unknown("unknown command ``"));
}

#[test]
fn typing_moves_the_cursor() {
    let mut line = CommandLineState::default();
    line.open();
    for character in "qé".chars() {
        line.insert(character);
    }
    assert_eq!(line.input, "qé");
    assert_eq!(line.cursor, 2);
    line.move_left();
    line.insert('x');
    assert_eq!(line.input, "qxé");
    line.move_home();
    assert_eq!(line.cursor, 0);
    line.move_end();
    assert_eq!(line.cursor, 3);
    line.move_right();
    assert_eq!(line.cursor, 3);
}

#[test]
fn backspace_undoes_an_insert() {
    let mut line = CommandLineState::default();
    line.insert('a');
    line.insert('ß');
    line.move_left();
    line.insert('z');
    assert_eq!(line.input, "azß");
    assert!(!line.backspace());
    assert_eq!(line.input, "aß");
    assert_eq!(line.cursor, 1);
}

#[test]
fn backspace_on_an_empty_line_closes_it() {
    let mut line = CommandLineState::default();
    assert!(line.backspace());
    line.insert('a');
    line.move_home();
    assert!(!line.backspace());
    assert_eq!(line.input, "a");
}

#[test]
fn submit_records_history_once() {
    let mut line = CommandLineState::default();
    for character in "  rescan ".chars() {
        line.insert(character);
    }
    assert_eq!(line.submit(), Some(DeveloperCommand::Rescan));
    assert_eq!(line.history, vec!["rescan".to_owned()]);
    line.open();
    for character in "rescan".chars() {
        line.insert(character);
    }
    assert_eq!(line.submit(), Some(DeveloperCommand::Rescan));
    assert_eq!(line.history.len(), 1);
    line.open();
    line.insert(' ');
    assert_eq!(line.submit(), None);
}

#[test]
fn history_walks_back_and_forth() {
    let mut line = CommandLineState::default();
    for word in ["top", "stats"] {
        line.open();
        for character in word.chars() {
            line.insert(character);
        }
        line.submit();
    }
    line.open();
    line.history_previous();
    assert_eq!(line.input, "stats");
    assert_eq!(line.cursor, 5);
    line.history_previous();
    assert_eq!(line.input, "top");
    line.history_previous();
    assert_eq!(line.input, "top");
    assert_eq!(line.history_index, Some(0));
    line.history_next();
    assert_eq!(line.input, "stats");
    line.history_next();
    assert_eq!(line.input, "");
    assert_eq!(line.history_index, None);
    assert_eq!(line.cursor, 0);
}

#[test]
fn the_command_word_is_read_in_any_case() {
    assert_eq!(parse_command("GoTo /tmp"), parse_command("goto /tmp"));
    assert_eq!(parse_command("THEME Nord"), parse_command("theme Nord"));
    assert_eq!(parse_command("Q"), parse_command("q"));
}
