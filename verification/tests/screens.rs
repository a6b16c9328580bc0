use iota::gui::screens::main_screen::navigate;
use iota::gui::screens::screens::{document_of, NavDirection, ScreenAction, ScreenKey};
use iota::gui::screens::terms_updater::{TermsUpdaterScreen, UpdaterView};
use iota::terms::consent_state::{UpdateDecision, UserChoice};
use iota::terms::doc::Doc;
use iota::terms::focus::Focus;
use iota::terms::terms_getter::Type;

fn grid() -> Vec<Vec<Option<usize>>> {
    vec![vec![Some(0), Some(0), Some(1)], vec![Some(2), None, Some(1)]]
}

fn doc(v: &str, t: Type) -> Doc {
    Doc::new(v.to_string(), format!("h{}", v), t, 100)
}

#[test]
fn navigate_skips_the_selected_card() {
    assert_eq!(navigate(&grid(), (0, 0), NavDirection::Right), (0, 2));
    assert_eq!(navigate(&grid(), (0, 0), NavDirection::Down), (1, 0));
    assert_eq!(navigate(&grid(), (1, 0), NavDirection::Right), (1, 2));
}

#[test]
fn navigate_stops_at_the_edge() {
    assert_eq!(navigate(&grid(), (0, 2), NavDirection::Right), (0, 2));
    assert_eq!(navigate(&grid(), (1, 2), NavDirection::Up), (0, 2));
    assert_eq!(navigate(&grid(), (0, 1), NavDirection::Left), (0, 0));
    assert_eq!(navigate(&grid(), (0, 0), NavDirection::Up), (0, 0));
}

#[test]
fn documents_of_focus() {
    assert_eq!(document_of(Focus::Eula), Some(Type::EULA));
    assert_eq!(document_of(Focus::Pp), Some(Type::PP));
    assert_eq!(document_of(Focus::Cancel), None);
}

#[test]
fn updater_new_from_decisions() {
    let s = TermsUpdaterScreen::new(
        UpdateDecision::Forced(doc("2", Type::EULA)),
        UpdateDecision::Future { newest: doc("3", Type::TOS) },
        UpdateDecision::NoChange,
    );
    assert!(s.eula_needed && !s.eula_future);
    assert!(s.tos_needed && s.tos_future);
    assert!(!s.pp_needed);
    assert!(s.update_needed);
    assert!(!s.eula && !s.tos && s.pp);
    assert_eq!(s.focus, Focus::Eula);
    assert_eq!(s.tos_for_future.as_ref().unwrap().get_version(), "3");
    assert_eq!(s.possible_states(), vec![Focus::Eula, Focus::Tos, Focus::Cancel]);
}

#[test]
fn updater_only_future_is_not_forced() {
    let s = TermsUpdaterScreen::new(
        UpdateDecision::NoChange,
        UpdateDecision::NoChange,
        UpdateDecision::Future { newest: doc("3", Type::PP) },
    );
    assert!(!s.update_needed);
    assert_eq!(s.focus, Focus::Pp);
}

#[test]
fn updater_keys_accept_all() {
    let mut s = TermsUpdaterScreen::new(
        UpdateDecision::Forced(doc("2", Type::EULA)),
        UpdateDecision::Forced(doc("2", Type::TOS)),
        UpdateDecision::NoChange,
    );
    assert_eq!(s.handle_input(ScreenKey::Enter), ScreenAction::Handled);
    assert!(s.eula);
    assert_eq!(s.possible_states(), vec![Focus::Eula, Focus::Tos, Focus::Cancel, Focus::Continue]);
    assert_eq!(s.handle_input(ScreenKey::Down), ScreenAction::Handled);
    assert_eq!(s.focus, Focus::Tos);
    assert_eq!(s.handle_input(ScreenKey::Char(' ')), ScreenAction::Handled);
    assert!(s.tos);
    assert_eq!(
        s.possible_states(),
        vec![Focus::Eula, Focus::Tos, Focus::Cancel, Focus::Continue, Focus::ContinueAll]
    );
    assert_eq!(s.handle_input(ScreenKey::Up), ScreenAction::Handled);
    assert_eq!(s.handle_input(ScreenKey::Up), ScreenAction::Handled);
    assert_eq!(s.focus, Focus::ContinueAll);
    assert_eq!(s.handle_input(ScreenKey::Enter), ScreenAction::Close(UserChoice::AcceptAll));
}

#[test]
fn updater_keys_other() {
    let mut s = TermsUpdaterScreen::new(
        UpdateDecision::Forced(doc("2", Type::EULA)),
        UpdateDecision::NoChange,
        UpdateDecision::NoChange,
    );
    assert_eq!(s.handle_input(ScreenKey::Char('o')), ScreenAction::OpenDocument(Type::EULA));
    assert_eq!(s.handle_input(ScreenKey::Char('L')), ScreenAction::OpenLink(Type::EULA));
    assert_eq!(s.handle_input(ScreenKey::Char('x')), ScreenAction::Unhandled);
    assert_eq!(s.handle_input(ScreenKey::Other), ScreenAction::Unhandled);
    assert_eq!(s.handle_input(ScreenKey::Tab), ScreenAction::Handled);
    assert_eq!(s.focus, Focus::Cancel);
    assert_eq!(s.handle_input(ScreenKey::Enter), ScreenAction::Close(UserChoice::Deny));
    assert_eq!(s.handle_input(ScreenKey::Char('q')), ScreenAction::Close(UserChoice::Deny));
    assert_eq!(s.handle_input(ScreenKey::Esc), ScreenAction::Close(UserChoice::Deny));
}

#[test]
fn updater_layout_sizes() {
    let s = TermsUpdaterScreen::new(
        UpdateDecision::Future { newest: doc("2", Type::EULA) },
        UpdateDecision::NoChange,
        UpdateDecision::NoChange,
    );
    assert!(matches!(s.layout(10, 3), UpdaterView::TooSmall));
    match s.layout(200, 80) {
        UpdaterView::Full { lines, .. } => assert!(!lines.is_empty()),
        _ => panic!("a large terminal shows the full screen"),
    }
    match s.session_layout(200, 80) {
        UpdaterView::Full { lines, .. } => assert!(!lines.is_empty()),
        _ => panic!("a large terminal shows the full screen"),
    }
}
