use iota::eula::eula_checker::{accept_eula, check_eula, needs_default, EULA_FALSE_TEXT};
use iota::eula::terms_checker::{consent_layout, ConsentKey, ConsentManager, ConsentUiState, ConsentUiView};
use iota::gui::screens::consent_layout::ConsentLine;
use iota::terms::consent_state::UserChoice;
use iota::terms::focus::Focus;

fn state(eula: bool, tos: bool, pp: bool, focus: Focus) -> ConsentUiState {
    ConsentUiState { eula, tos, pp, focus }
}

#[test]
fn eula_file_switch() {
    assert!(!check_eula(""));
    assert!(!check_eula(EULA_FALSE_TEXT));
    assert!(check_eula(accept_eula()));
    assert!(check_eula("eula=true"));
    assert!(!check_eula("eula=true\neula=false"));
    assert!(!check_eula("EULA=true"));
    assert!(needs_default(""));
    assert!(!needs_default("x"));
}

#[test]
fn accept_eula_text_ends_with_true() {
    assert!(accept_eula().ends_with("\neula=true"));
    assert!(accept_eula().starts_with("By changing the value to \"true\""));
}

#[test]
fn ui_round_trip_on_values() {
    let s = state(true, false, true, Focus::Pp);
    let text = s.to_string_at(123);
    let back = ConsentUiState::from_str(&text);
    assert_eq!(back, state(true, false, true, Focus::Cancel));
    let s = state(false, true, true, Focus::Eula);
    let back = ConsentUiState::from_str(&s.to_string_at(0));
    assert_eq!(back, state(false, false, false, Focus::Cancel));
}

#[test]
fn ui_text_layout() {
    let text = state(true, true, false, Focus::Cancel).to_string_at(99);
    let lines: Vec<&str> = text.lines().collect();
    assert_eq!(lines.len(), 10);
    assert_eq!(lines[1], "EULA=true");
    assert_eq!(lines[3], "PrivacyPolicy=false");
    assert_eq!(lines[5], "ToS=true");
    assert_eq!(lines[9], "UNIX-SECOND=99");
}

#[test]
fn ui_to_string_uses_clock() {
    let text = state(false, false, false, Focus::Cancel).to_string();
    let last = text.lines().last().unwrap();
    let secs: u64 = last.strip_prefix("UNIX-SECOND=").unwrap().parse().unwrap();
    assert!(secs > 1_600_000_000);
}

#[test]
fn ui_from_text_last_line_wins() {
    let s = ConsentUiState::from_str("EULA=true\nToS=true\nToS=no\nPrivacyPolicy=true\r\n");
    assert_eq!(s, state(true, false, true, Focus::Cancel));
    assert_eq!(ConsentUiState::from_str(""), ConsentUiState::denied());
}

#[test]
fn check_reads_agreements() {
    assert_eq!(ConsentManager::check("EULA=true\nToS=true\nPrivacyPolicy=true"), Some((true, true)));
    assert_eq!(ConsentManager::check("EULA=true\nToS=true"), Some((true, false)));
    assert_eq!(ConsentManager::check("ToS=true\nPrivacyPolicy=true"), None);
}

#[test]
fn resolve_choices() {
    assert_eq!(ConsentManager::resolve(UserChoice::Deny), (ConsentUiState::denied(), (false, false)));
    let (s, out) = ConsentManager::resolve(UserChoice::AcceptEULA);
    assert!(s.eula && !s.tos && !s.pp);
    assert_eq!(out, (true, false));
    assert_eq!(ConsentManager::resolve(UserChoice::AcceptAll).1, (true, true));
}

#[test]
fn sanitize_and_continue_flags() {
    let s = state(false, true, true, Focus::Tos).sanitize();
    assert_eq!(s, state(false, false, false, Focus::Tos));
    assert!(!s.can_continue());
    let s = state(true, true, true, Focus::Tos);
    assert!(s.can_continue() && s.can_continue_all());
    assert!(!state(true, true, false, Focus::Tos).can_continue_all());
}

#[test]
fn focus_moves() {
    let mut s = state(false, false, false, Focus::Cancel);
    s.next();
    assert_eq!(s.focus, Focus::Eula);
    let mut s = state(true, false, false, Focus::Cancel);
    s.next();
    assert_eq!(s.focus, Focus::Continue);
    s.prev();
    assert_eq!(s.focus, Focus::Cancel);
    let mut s = state(true, false, false, Focus::Eula);
    s.prev();
    assert_eq!(s.focus, Focus::ContinueAll);
}

#[test]
fn keys_on_the_consent_screen() {
    let mut s = state(false, false, false, Focus::Eula);
    assert_eq!(s.handle_key(ConsentKey::Space), None);
    assert!(s.eula);
    assert_eq!(s.handle_key(ConsentKey::Down), None);
    assert_eq!(s.focus, Focus::Tos);
    assert_eq!(s.handle_key(ConsentKey::Space), None);
    assert!(s.tos);
    s.focus = Focus::Continue;
    assert_eq!(s.handle_key(ConsentKey::Enter), Some(UserChoice::AcceptEULA));
    s.focus = Focus::ContinueAll;
    assert_eq!(s.handle_key(ConsentKey::Enter), None);
    s.pp = true;
    assert_eq!(s.handle_key(ConsentKey::Enter), Some(UserChoice::AcceptAll));
    assert_eq!(s.handle_key(ConsentKey::Esc), Some(UserChoice::Deny));
    assert_eq!(s.handle_key(ConsentKey::Other), None);
}

#[test]
fn unticking_eula_clears_optional() {
    let mut s = state(true, true, true, Focus::Eula);
    s.handle_key(ConsentKey::Space);
    assert_eq!(s, state(false, false, false, Focus::Eula));
    s.focus = Focus::Pp;
    s.handle_key(ConsentKey::Space);
    assert!(!s.pp);
}

#[test]
fn consent_layout_sizes() {
    let s = state(false, false, false, Focus::Cancel);
    assert!(matches!(consent_layout(&s, 20, 40), ConsentUiView::TooSmall));
    assert!(matches!(consent_layout(&s, 100, 5), ConsentUiView::TooSmall));
    match consent_layout(&s, 200, 60) {
        ConsentUiView::Full { lines, .. } => {
            match lines[0] {
                ConsentLine::CheckBox { label, checked, .. } => {
                    assert!(label.starts_with("End User Licence Agreement"));
                    assert!(!checked);
                }
                _ => panic!("first line is the EULA check box"),
            }
        }
        _ => panic!("a large terminal shows the full screen"),
    }
}
