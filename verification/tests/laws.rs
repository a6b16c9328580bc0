use iota::omikron::omikron_connection::{omikron_step, settings_list, take_waiting, ConnectionState, OmikronAction};
use iota::data::communication::{CommunicationType, CommunicationValue, DataTypes, LogLevel, LogValue};
use iota::eula::terms_checker::{ConsentKey, ConsentUiState};
use iota::gui::elements::console_card::{ConsoleCard, ConsoleKey};
use iota::terms::consent_state::UserChoice;
use iota::terms::focus::Focus;

#[test]
fn debug_names_parse_back() {
    for k in [
        DataTypes::ErrorType,
        DataTypes::ChatPartnerId,
        DataTypes::UserIds,
        DataTypes::SharedSecretOwn,
        DataTypes::CommunityTitle,
        DataTypes::Communities,
    ] {
        assert_eq!(DataTypes::parse(format!("{:?}", k)), k);
    }
    for c in [
        CommunicationType::Error,
        CommunicationType::MessageOtherIota,
        CommunicationType::ChallengeResponse,
        CommunicationType::IdentificationResponse,
        CommunicationType::Update,
    ] {
        assert_eq!(CommunicationType::parse(format!("{:?}", c)), c);
    }
}

#[test]
fn parsers_ignore_case_and_underscores() {
    assert_eq!(DataTypes::parse("CHAT_PARTNER_ID".to_string()), DataTypes::ChatPartnerId);
    assert_eq!(DataTypes::parse("chatpartnerid".to_string()), DataTypes::ChatPartnerId);
    assert_eq!(CommunicationType::parse("message_other_iota".to_string()), CommunicationType::MessageOtherIota);
    assert_eq!(CommunicationType::parse("MESSAGEOTHERIOTA".to_string()), CommunicationType::MessageOtherIota);
}

#[test]
fn message_reads_back_from_its_json() {
    let cv = CommunicationValue::with_fresh_id(CommunicationType::IdentificationResponse, 0x1234_5678_9abc)
        .with_sender(11)
        .with_log(LogValue::new("note".to_string(), LogLevel::Debug))
        .add_data(DataTypes::CallName, "room".to_string())
        .add_data(DataTypes::Username, "ann".to_string());
    let back = CommunicationValue::from_json(&cv.to_json()).unwrap();
    assert_eq!(back.get_id(), cv.get_id());
    assert_eq!(back.get_type(), CommunicationType::IdentificationResponse);
    assert_eq!(back.get_sender(), Some(11));
    assert_eq!(back.get_receiver(), None);
    let log = back.get_log().as_ref().unwrap();
    assert_eq!(log.message, "note");
    assert_eq!(log.log_level, LogLevel::Normal);
    assert_eq!(back.get_data(DataTypes::CallName).map(|s| s.as_str()), Some("room"));
    assert_eq!(back.get_data(DataTypes::Username).map(|s| s.as_str()), Some("ann"));
}

fn run(keys: &[ConsentKey]) -> (ConsentUiState, Option<UserChoice>) {
    let mut s = ConsentUiState { eula: false, tos: false, pp: false, focus: Focus::Eula };
    for k in keys {
        let c = s.handle_key(*k);
        assert!(s.eula || (!s.tos && !s.pp));
        if c.is_some() {
            return (s, c);
        }
    }
    (s, None)
}

#[test]
fn consent_screen_runs() {
    let (s, c) = run(&[ConsentKey::Space, ConsentKey::Down, ConsentKey::Space, ConsentKey::Down, ConsentKey::Space, ConsentKey::Down, ConsentKey::Down, ConsentKey::Down, ConsentKey::Enter]);
    assert_eq!(c, Some(UserChoice::AcceptAll));
    assert!(s.eula && s.tos && s.pp);
    let (_, c) = run(&[ConsentKey::Space, ConsentKey::Down, ConsentKey::Down, ConsentKey::Down, ConsentKey::Down, ConsentKey::Enter]);
    assert_eq!(c, Some(UserChoice::AcceptEULA));
    let (s, c) = run(&[ConsentKey::Space, ConsentKey::Down, ConsentKey::Space, ConsentKey::Up, ConsentKey::Space, ConsentKey::Down, ConsentKey::Down, ConsentKey::Down, ConsentKey::Down, ConsentKey::Enter]);
    assert_eq!(c, None);
    assert!(!s.eula && !s.tos);
    assert_eq!(run(&[ConsentKey::Down, ConsentKey::Down, ConsentKey::Down, ConsentKey::Enter]).1, Some(UserChoice::Deny));
    assert_eq!(run(&[ConsentKey::Quit]).1, Some(UserChoice::Deny));
}

#[test]
fn console_cursor_stays_in_the_line() {
    let mut c = ConsoleCard::new("c", "aé");
    for k in [
        ConsoleKey::Backspace,
        ConsoleKey::Right,
        ConsoleKey::Right,
        ConsoleKey::Char('x'),
        ConsoleKey::Home,
        ConsoleKey::Delete,
        ConsoleKey::End,
        ConsoleKey::Backspace,
        ConsoleKey::Backspace,
        ConsoleKey::Backspace,
    ] {
        c.interact(k);
        assert!(c.cursor_position <= c.content.chars().count());
    }
    assert_eq!(c.content, "");
    assert_eq!(c.cursor_position, 0);
}

#[test]
fn omikron_reactions() {
    let up = ConnectionState::Connected { identified: false };
    let ok = CommunicationValue::with_fresh_id(CommunicationType::Success, 1).add_data(DataTypes::IotaId, "77".to_string());
    assert_eq!(omikron_step(up, &ok, 5), (up, OmikronAction::Registered(77)));
    let zero = CommunicationValue::with_fresh_id(CommunicationType::Success, 1);
    assert_eq!(omikron_step(up, &zero, 5), (up, OmikronAction::Ignore));
    let answer = CommunicationValue::with_fresh_id(CommunicationType::IdentificationResponse, 2)
        .add_data(DataTypes::Accepted, "false".to_string());
    assert_eq!(omikron_step(up, &answer, 5).0, ConnectionState::Connected { identified: true });
    assert_eq!(omikron_step(ConnectionState::Connecting, &answer, 5).0, ConnectionState::Connecting);
    let direct = CommunicationValue::with_fresh_id(CommunicationType::MessageOtherIota, 3)
        .add_data(DataTypes::Content, "hi".to_string());
    assert_eq!(
        omikron_step(up, &direct, 99).1,
        OmikronAction::DirectMessage { send_time: 99, content: "hi".to_string() }
    );
    let timed = direct.add_data(DataTypes::SendTime, "12".to_string());
    assert_eq!(
        omikron_step(up, &timed, 99).1,
        OmikronAction::DirectMessage { send_time: 12, content: "hi".to_string() }
    );
    let pong = CommunicationValue::with_fresh_id(CommunicationType::Pong, 4);
    assert_eq!(omikron_step(up, &pong, 0).1, OmikronAction::HandlePong);
    let state = CommunicationValue::with_fresh_id(CommunicationType::MessageState, 5)
        .with_sender(8)
        .with_receiver(9)
        .add_data(DataTypes::SendTime, "44".to_string())
        .add_data(DataTypes::MessageState, "READ".to_string());
    assert_eq!(
        omikron_step(up, &state, 0).1,
        OmikronAction::UpdateMessageState { send_time: 44, receiver: 9, sender: 8, state: "READ".to_string() }
    );
    let send = CommunicationValue::with_fresh_id(CommunicationType::MessageSend, 6)
        .with_sender(8)
        .add_data(DataTypes::ReceiverId, "21".to_string())
        .add_data(DataTypes::Content, "yo".to_string());
    assert_eq!(
        omikron_step(up, &send, 1000).1,
        OmikronAction::SendMessage { sender: 8, receiver: 21, content: "yo".to_string(), now_ms: 1000 }
    );
    let conv = CommunicationValue::with_fresh_id(CommunicationType::AddConversation, 7)
        .with_sender(8)
        .add_data(DataTypes::ChatPartnerId, "5".to_string());
    assert_eq!(
        omikron_step(up, &conv, 3).1,
        OmikronAction::AddConversation { user: 8, partner: 5, now_ms: 3 }
    );
    let save = CommunicationValue::with_fresh_id(CommunicationType::SettingsSave, 8)
        .with_sender(8)
        .add_data(DataTypes::SettingsName, "theme".to_string())
        .add_data(DataTypes::Payload, "dark".to_string());
    assert_eq!(
        omikron_step(up, &save, 0).1,
        OmikronAction::SaveSettings { user: 8, name: "theme".to_string(), value: "dark".to_string() }
    );
    let load = CommunicationValue::with_fresh_id(CommunicationType::SettingsLoad, 9)
        .with_sender(8)
        .add_data(DataTypes::SettingsName, "theme".to_string());
    assert_eq!(omikron_step(up, &load, 0).1, OmikronAction::LoadSettings { user: 8, name: "theme".to_string() });
    let list = CommunicationValue::with_fresh_id(CommunicationType::SettingsList, 10).with_sender(8);
    assert_eq!(omikron_step(up, &list, 0).1, OmikronAction::ListSettings { user: 8 });
    let get = CommunicationValue::with_fresh_id(CommunicationType::MessageGet, 11)
        .with_sender(8)
        .add_data(DataTypes::UserId, "3".to_string())
        .add_data(DataTypes::Offset, "10".to_string())
        .add_data(DataTypes::Amount, "x".to_string());
    assert_eq!(
        omikron_step(up, &get, 0).1,
        OmikronAction::MessagesRequest { user: 8, partner: 3, offset: 10, amount: 0 }
    );
    let mut waiting = vec![5u128, 6, 7];
    assert!(take_waiting(&mut waiting, 6));
    assert_eq!(waiting, vec![5, 7]);
    assert!(!take_waiting(&mut waiting, 6));
    assert_eq!(waiting, vec![5, 7]);
}

#[test]
fn settings_names_from_files() {
    let files = vec!["theme.settings".to_string(), ".settings".to_string(), "lang.settings".to_string()];
    assert_eq!(settings_list(&files), vec!["theme".to_string(), "lang".to_string()]);
}
