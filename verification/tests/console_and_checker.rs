use iota::gui::elements::console_card::{
    cursor_blink, parse_command, ConsoleAction, ConsoleCard, ConsoleCommand, ConsoleKey, PartStyle,
};
use iota::gui::screens::screens::{ScreenAction, ScreenKey};
use iota::gui::screens::terms_checker::{CheckerView, TermsCheckerScreen};
use iota::terms::consent_state::UserChoice;
use iota::terms::focus::Focus;
use iota::terms::terms_getter::Type;

fn parts(v: &[(&str, PartStyle)]) -> Vec<(String, PartStyle)> {
    v.iter().map(|(s, p)| (s.to_string(), *p)).collect()
}

#[test]
fn console_typing_and_running() {
    let mut c = ConsoleCard::new("Console", "");
    assert_eq!(c.interact(ConsoleKey::Enter), ConsoleAction::EmptyLine);
    for ch in "hlp".chars() {
        assert_eq!(c.interact(ConsoleKey::Char(ch)), ConsoleAction::Handled);
    }
    c.interact(ConsoleKey::Left);
    c.interact(ConsoleKey::Left);
    c.interact(ConsoleKey::Char('e'));
    assert_eq!(c.content, "help");
    assert_eq!(c.cursor_position, 2);
    assert_eq!(c.interact(ConsoleKey::Enter), ConsoleAction::Run("help".to_string()));
    assert_eq!(c.content, "");
    assert_eq!(c.cursor_position, 0);
    assert_eq!(c.interact(ConsoleKey::Other), ConsoleAction::Unhandled);
}

#[test]
fn console_editing_keys() {
    let mut c = ConsoleCard::new("t", "abcd");
    assert_eq!(c.cursor_position, 4);
    c.interact(ConsoleKey::Home);
    c.interact(ConsoleKey::Delete);
    assert_eq!(c.content, "bcd");
    c.interact(ConsoleKey::End);
    c.interact(ConsoleKey::Backspace);
    assert_eq!(c.content, "bc");
    assert_eq!(c.cursor_position, 2);
    c.interact(ConsoleKey::Right);
    assert_eq!(c.cursor_position, 2);
    c.move_cursor_left();
    c.delete_at_cursor();
    assert_eq!(c.content, "c");
    assert_eq!(c.cursor_position, 0);
    c.delete_at_cursor();
    assert_eq!(c.content, "c");
    c.move_cursor_right();
    c.insert_at_cursor('!');
    assert_eq!(c.content, "c!");
}

#[test]
fn console_focus_and_spans() {
    let mut c = ConsoleCard::new("t", "");
    assert!(!c.is_focused());
    assert_eq!(c.cursor_spans(true), parts(&[(" send command (<help> for info)", PartStyle::Dim)]));
    c.focus(true);
    assert!(c.is_focused());
    assert_eq!(
        c.cursor_spans(true),
        parts(&[(" ", PartStyle::Cursor), ("send command (<help> for info)", PartStyle::Dim)])
    );
    let mut c = ConsoleCard::new("t", "/ping");
    c.focus(true);
    c.interact(ConsoleKey::Left);
    assert_eq!(
        c.cursor_spans(true),
        parts(&[("/", PartStyle::Dim), ("pin", PartStyle::Text), (" ", PartStyle::Cursor), ("g", PartStyle::Text)])
    );
    assert_eq!(c.cursor_spans(false), parts(&[("/", PartStyle::Dim), ("pin", PartStyle::Text), ("g", PartStyle::Text)]));
}

#[test]
fn cursor_blinks_every_half_second() {
    assert_eq!(cursor_blink(true, 1000, 1499), (true, 1000));
    assert_eq!(cursor_blink(true, 1000, 1500), (false, 1500));
    assert_eq!(cursor_blink(false, 1000, 900), (false, 1000));
}

#[test]
fn console_commands() {
    assert_eq!(parse_command("tasks"), ConsoleCommand::Tasks);
    assert_eq!(parse_command("fps"), ConsoleCommand::Fps);
    assert_eq!(parse_command("help"), ConsoleCommand::Help);
    assert_eq!(parse_command("help user"), ConsoleCommand::HelpUser);
    assert_eq!(parse_command("ping"), ConsoleCommand::Ping(20));
    assert_eq!(parse_command("ping 5"), ConsoleCommand::Ping(5));
    assert_eq!(parse_command("ping x"), ConsoleCommand::Ping(20));
    assert_eq!(parse_command("user add bob"), ConsoleCommand::UserAdd("bob".to_string()));
    assert_eq!(parse_command("user remove bob"), ConsoleCommand::UserRemove("bob".to_string()));
    assert_eq!(parse_command("user info bob"), ConsoleCommand::UserInfo("bob".to_string()));
    assert_eq!(parse_command("user list"), ConsoleCommand::UserList);
    assert_eq!(parse_command("restart"), ConsoleCommand::Reload);
    assert_eq!(parse_command("stop"), ConsoleCommand::Shutdown);
    assert_eq!(parse_command("help  fps"), ConsoleCommand::Unknown);
    assert_eq!(parse_command(""), ConsoleCommand::Unknown);
}

#[test]
fn checker_screen_keys() {
    let mut s = TermsCheckerScreen::new();
    assert_eq!(s.focus, Focus::Eula);
    assert_eq!(s.possible_states(), vec![Focus::Eula, Focus::Tos, Focus::Pp, Focus::Cancel]);
    assert_eq!(s.handle_input(ScreenKey::Down), ScreenAction::Handled);
    assert_eq!(s.handle_input(ScreenKey::Enter), ScreenAction::Unhandled);
    assert!(!s.tos);
    s.handle_input(ScreenKey::Up);
    assert_eq!(s.handle_input(ScreenKey::Char(' ')), ScreenAction::Handled);
    assert!(s.eula);
    assert_eq!(s.handle_input(ScreenKey::Char('O')), ScreenAction::OpenDocument(Type::EULA));
    s.handle_input(ScreenKey::Tab);
    s.handle_input(ScreenKey::Enter);
    s.handle_input(ScreenKey::Right);
    s.handle_input(ScreenKey::Enter);
    assert!(s.tos && s.pp);
    assert_eq!(s.possible_states().len(), 6);
    s.handle_input(ScreenKey::Left);
    s.handle_input(ScreenKey::Left);
    s.handle_input(ScreenKey::Left);
    assert_eq!(s.focus, Focus::ContinueAll);
    assert_eq!(s.handle_input(ScreenKey::Enter), ScreenAction::Close(UserChoice::AcceptAll));
    assert_eq!(s.handle_input(ScreenKey::Char('q')), ScreenAction::Close(UserChoice::Deny));
}

#[test]
fn checker_screen_layout() {
    let s = TermsCheckerScreen::new();
    assert!(matches!(s.layout(26, 40), CheckerView::TooSmall));
    assert!(matches!(s.layout(59, 40), CheckerView::Warning { .. }));
    match s.layout(200, 40) {
        CheckerView::Full { lines, area } => {
            assert_eq!(area, (25, 7, 150, 26));
            assert!(!lines.is_empty());
        }
        _ => panic!("a large terminal shows the full screen"),
    }
}

#[test]
fn typing_then_backspace_restores_the_line() {
    let mut c = ConsoleCard::new("t", "abc");
    c.move_cursor_left();
    let before = (c.content.clone(), c.cursor_position);
    c.insert_at_cursor('x');
    assert_eq!(c.content, "abxc");
    c.delete_at_cursor();
    assert_eq!((c.content.clone(), c.cursor_position), before);
}
