use tree_cleaner::dialogs::{
    answer_overlay, ConfirmDialog, Confirmation, DialogOutcome, MessageDialog, Overlay, PendingAction, Severity,
    StatusMessage,
};
use tree_cleaner::keys::Key;
use tree_cleaner::screen::{start_path_was_given, Screen};

#[test]
fn tabs_cycle_through_four_screens() {
    assert_eq!(Screen::all(), [Screen::Dashboard, Screen::Explorer, Screen::Heaviest, Screen::Cleaner]);
    assert_eq!(Screen::Dashboard.next(), Screen::Explorer);
    assert_eq!(Screen::Cleaner.next(), Screen::Dashboard);
    assert_eq!(Screen::Dashboard.previous(), Screen::Cleaner);
    assert_eq!(Screen::Heaviest.label(), "Heaviest");
    for screen in Screen::all() {
        assert_eq!(screen.next().previous(), screen);
        assert_eq!(screen.next().next().next().next(), screen);
    }
}

#[test]
fn start_path_counts_unless_it_is_home() {
    assert!(!start_path_was_given("/Users/me", Some("/Users/me")));
    assert!(!start_path_was_given("/Users/me/", Some("/Users/me")));
    assert!(start_path_was_given("/Users/me/Documents", Some("/Users/me")));
    assert!(start_path_was_given("/Users/me", None));
}

fn dialog(confirmation: Confirmation) -> ConfirmDialog {
    ConfirmDialog {
        title: "Delete".to_owned(),
        lines: Vec::new(),
        confirmation,
        action: PendingAction::Quit,
        dangerous: true,
    }
}

#[test]
fn typed_word_has_to_match() {
    let typed = |text: &str| {
        dialog(Confirmation::TypedWord { expected: "yes".to_owned(), typed: text.to_owned() }).typed_word_matches()
    };
    assert!(typed("yes"));
    assert!(typed("  YeS "));
    assert!(!typed("ye"));
    assert!(!typed("yes please"));
    assert!(!typed(""));
    assert!(dialog(Confirmation::YesKey).typed_word_matches());
    assert!(dialog(Confirmation::SaveOrDiscard).typed_word_matches());
}

#[test]
fn status_message_is_fresh() {
    let message = StatusMessage::new("saved".to_owned(), Severity::Success);
    assert_eq!(message.text, "saved");
    assert_eq!(message.severity, Severity::Success);
    assert!(!message.is_expired());
}

#[test]
fn a_status_line_lasts_six_seconds() {
    let moment = std::time::Instant::now();
    let message = StatusMessage::shown_at("saved".to_owned(), Severity::Success, moment);
    assert_eq!(message.until, moment + std::time::Duration::from_secs(6));
    assert!(!message.expired_at(moment + std::time::Duration::from_secs(5)));
    assert!(message.expired_at(moment + std::time::Duration::from_secs(6)));
}

#[test]
fn status_message_expires_at_its_time() {
    let message = StatusMessage::new("saved".to_owned(), Severity::Success);
    assert!(!message.expired_at(message.until - std::time::Duration::from_secs(1)));
    assert!(message.expired_at(message.until));
    assert!(message.expired_at(message.until + std::time::Duration::from_secs(1)));
}

fn typed_dialog(typed: &str) -> Overlay {
    Overlay::Confirm(dialog(Confirmation::TypedWord { expected: "yes".to_owned(), typed: typed.to_owned() }))
}

fn typed_text(overlay: &Option<Overlay>) -> String {
    match overlay {
        Some(Overlay::Confirm(ConfirmDialog { confirmation: Confirmation::TypedWord { typed, .. }, .. })) => {
            typed.clone()
        }
        _ => panic!("expected a typed-word dialog"),
    }
}

#[test]
fn overlays_without_a_question_close_on_any_key() {
    assert!(matches!(answer_overlay(Overlay::Help, Key::Char('x')), (None, DialogOutcome::Nothing)));
    assert!(matches!(answer_overlay(Overlay::Log, Key::Enter), (None, DialogOutcome::Nothing)));
    let message = MessageDialog { title: "t".to_owned(), lines: Vec::new(), severity: Severity::Info };
    assert!(matches!(answer_overlay(Overlay::Message(message), Key::Esc), (None, DialogOutcome::Nothing)));
    assert!(matches!(answer_overlay(Overlay::Settings, Key::Esc), (Some(Overlay::Settings), DialogOutcome::Nothing)));
}

#[test]
fn typing_the_word_then_enter_confirms() {
    let (next, outcome) = answer_overlay(typed_dialog("ye"), Key::Char('s'));
    assert!(matches!(outcome, DialogOutcome::Nothing));
    assert_eq!(typed_text(&next), "yes");
    let (next, outcome) = answer_overlay(next.unwrap(), Key::Enter);
    assert!(next.is_none());
    assert!(matches!(outcome, DialogOutcome::Perform(PendingAction::Quit)));
}

#[test]
fn enter_before_the_word_keeps_the_dialog() {
    let (next, outcome) = answer_overlay(typed_dialog("no"), Key::Enter);
    assert!(matches!(outcome, DialogOutcome::Nothing));
    assert_eq!(typed_text(&next), "no");
    let (next, _) = answer_overlay(next.unwrap(), Key::Backspace);
    assert_eq!(typed_text(&next), "n");
    let (next, _) = answer_overlay(typed_dialog(""), Key::Backspace);
    assert_eq!(typed_text(&next), "");
    let (next, outcome) = answer_overlay(typed_dialog("ye"), Key::Esc);
    assert!(next.is_none());
    assert!(matches!(outcome, DialogOutcome::Cancelled));
}

#[test]
fn yes_key_answers() {
    let ask = || Overlay::Confirm(dialog(Confirmation::YesKey));
    assert!(matches!(answer_overlay(ask(), Key::Char('Y')), (None, DialogOutcome::Perform(PendingAction::Quit))));
    assert!(matches!(answer_overlay(ask(), Key::Enter), (None, DialogOutcome::Perform(PendingAction::Quit))));
    assert!(matches!(answer_overlay(ask(), Key::Char('n')), (None, DialogOutcome::Cancelled)));
    assert!(matches!(answer_overlay(ask(), Key::Esc), (None, DialogOutcome::Cancelled)));
    assert!(matches!(answer_overlay(ask(), Key::Char('z')), (Some(Overlay::Confirm(_)), DialogOutcome::Nothing)));
}

#[test]
fn save_or_discard_answers() {
    let ask = || {
        let mut question = dialog(Confirmation::SaveOrDiscard);
        question.action = PendingAction::SaveAndQuit;
        Overlay::Confirm(question)
    };
    assert!(matches!(answer_overlay(ask(), Key::Char('y')), (None, DialogOutcome::Perform(PendingAction::SaveAndQuit))));
    assert!(matches!(answer_overlay(ask(), Key::Char('N')), (None, DialogOutcome::Perform(PendingAction::Quit))));
    assert!(matches!(answer_overlay(ask(), Key::Esc), (None, DialogOutcome::Cancelled)));
    assert!(matches!(answer_overlay(ask(), Key::Char('z')), (Some(Overlay::Confirm(_)), DialogOutcome::Nothing)));
}
