use log::Level;
use tree_cleaner::log_history::{LogHistory, LOG_CAPACITY};

#[test]
fn keeps_lines_in_order() {
    let mut history = LogHistory::new();
    assert!(history.is_empty());
    history.push(Level::Info, "first".to_owned());
    history.push(Level::Warn, "second".to_owned());
    let lines = history.snapshot();
    assert_eq!(history.len(), 2);
    assert_eq!(lines[0].message, "first");
    assert_eq!(lines[1].level, Level::Warn);
}

#[test]
fn drops_the_oldest_when_full() {
    let mut history = LogHistory::new();
    for index in 0..(LOG_CAPACITY + 5) {
        history.push(Level::Debug, format!("line {index}"));
    }
    assert_eq!(history.len(), LOG_CAPACITY);
    let lines = history.snapshot();
    assert_eq!(lines[0].message, "line 5");
    assert_eq!(lines[LOG_CAPACITY - 1].message, format!("line {}", LOG_CAPACITY + 4));
}
