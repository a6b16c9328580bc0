use iota::data::communication::{CommunicationType, CommunicationValue, DataTypes, LogLevel, LogValue};
use iota::data::json_value::{as_i64, from_i64, get_member, i64_member, text_member, u64_member, Json};
use iota::langu::language_manager::entries_from_json;
use iota::terms::doc::Doc;
use iota::terms::terms_getter::{docs_of_answer, Type};
use iota::users::contact::Contact;
use iota::users::user_manager::{users_from_json, users_to_json};
use iota::users::user_profile::UserProfile;

fn object(members: Vec<(&str, Json)>) -> Json {
    Json::Object(members.into_iter().map(|(k, v)| (k.to_string(), v)).collect())
}

fn text(s: &str) -> Json {
    Json::Text(s.to_string())
}

#[test]
fn members_and_numbers() {
    let j = object(vec![("a", text("x")), ("n", from_i64(-5)), ("u", Json::Number((true, 7, 0))), ("a", text("y"))]);
    assert_eq!(text_member(&j, "a").map(|s| s.as_str()), Some("x"));
    assert_eq!(i64_member(&j, "n"), Some(-5));
    assert_eq!(u64_member(&j, "u"), Some(7));
    assert_eq!(u64_member(&j, "n"), None);
    assert!(get_member(&j, "missing").is_none());
    assert!(get_member(&text("x"), "a").is_none());
    assert_eq!(as_i64(&Json::Number((true, 15, 1))), None);
    assert_eq!(as_i64(&from_i64(i64::MIN)), Some(i64::MIN));
    assert_eq!(as_i64(&from_i64(i64::MAX)), Some(i64::MAX));
}

#[test]
fn message_from_json_text() {
    let text = r#"{"id":"550e8400-e29b-41d4-a716-446655440000","type":"message_live","sender":"01234567-89ab-cdef-0123-456789abcdef","receiver":"nope","log":{"message":"hi","log_level":2},"data":{"MessageContent":"hello","receiver_id":"r","Name":5}}"#;
    let cv = CommunicationValue::from_json(text).unwrap();
    assert_eq!(cv.get_id(), 0x550e8400_e29b_41d4_a716_446655440000);
    assert_eq!(cv.get_type(), CommunicationType::MessageLive);
    assert_eq!(cv.get_sender(), Some(0x0123_4567_89ab_cdef_0123_4567_89ab_cdef));
    assert_eq!(cv.get_receiver(), None);
    let log = cv.get_log().as_ref().unwrap();
    assert_eq!(log.message, "hi");
    assert_eq!(log.log_level, LogLevel::Normal);
    assert_eq!(cv.get_data(DataTypes::MessageContent).map(|s| s.as_str()), Some("hello"));
    assert_eq!(cv.get_data(DataTypes::ReceiverId).map(|s| s.as_str()), Some("r"));
    assert!(cv.get_data(DataTypes::Name).is_none());
}

#[test]
fn message_from_json_defaults() {
    let cv = CommunicationValue::from_json(r#"{"type":7}"#).unwrap();
    assert_eq!(cv.get_type(), CommunicationType::Error);
    assert!(cv.get_log().is_none());
    assert_eq!((cv.get_id() >> 76) & 0xf, 4);
    assert!(CommunicationValue::from_json("not json").is_none());
}

#[test]
fn message_to_json_text() {
    let cv = CommunicationValue::with_fresh_id(CommunicationType::Ping, 0x550e8400_e29b_41d4_a716_446655440000)
        .with_receiver(1)
        .with_log(LogValue::new("m".to_string(), LogLevel::DebugOnly))
        .add_data(DataTypes::UserId, "u1".to_string());
    assert_eq!(
        cv.to_json(),
        r#"{"id":"550e8400-e29b-41d4-a716-446655440000","type":"Ping","sender":"","receiver":"00000000-0000-0000-0000-000000000001","log":{"message":"m","log_level":-2},"data":{"UserId":"u1"}}"#
    );
    let back = CommunicationValue::from_json(&cv.to_json()).unwrap();
    assert_eq!(back.get_id(), cv.get_id());
    assert_eq!(back.get_type(), CommunicationType::Ping);
    assert_eq!(back.get_receiver(), Some(1));
    assert_eq!(back.get_data(DataTypes::UserId).map(|s| s.as_str()), Some("u1"));
}

#[test]
fn message_without_log_writes_null() {
    let cv = CommunicationValue::with_fresh_id(CommunicationType::Pong, 0);
    assert_eq!(
        cv.to_json(),
        r#"{"id":"00000000-0000-0000-0000-000000000000","type":"Pong","sender":"","receiver":"","log":null,"data":{}}"#
    );
}

#[test]
fn log_value_json() {
    match LogValue::new("x".to_string(), LogLevel::Important).to_json() {
        Json::Object(ms) => {
            assert_eq!(ms.len(), 2);
            assert_eq!(ms[0].0, "message");
            assert_eq!(ms[1].0, "log_level");
            assert_eq!(as_i64(&ms[1].1), Some(2));
        }
        _ => panic!("a log value is an object"),
    }
}

#[test]
fn profiles_round_trip() {
    let p = UserProfile::new_at(7, "alice".to_string(), Some("Al".to_string()), "pk".to_string(), "h".to_string(), "t".to_string(), -3);
    let back = UserProfile::from_json(&p.to_json()).unwrap();
    assert_eq!((back.user_id, back.username.as_str(), back.created_at), (7, "alice", -3));
    assert_eq!(back.display_name.as_deref(), Some("Al"));
    let text = users_to_json(&vec![p]);
    assert_eq!(
        text,
        r#"[{"uuid":7,"username":"alice","public_key":"pk","private_key_hash":"h","created_at":-3,"reset_token":"t","display_name":"Al"}]"#
    );
    let loaded = users_from_json(&text).unwrap();
    assert_eq!(loaded.len(), 1);
    assert_eq!(loaded[0].reset_token, "t");
}

#[test]
fn profiles_file_edge_cases() {
    assert_eq!(users_from_json("  \n").unwrap().len(), 0);
    assert!(users_from_json("[").is_none());
    assert_eq!(users_from_json("{}").unwrap().len(), 0);
    assert_eq!(users_from_json(r#"[{"uuid":1},{"uuid":2,"username":"b","public_key":"k","private_key_hash":"h","reset_token":"r","created_at":0}]"#).unwrap().len(), 1);
    assert!(UserProfile::from_json(&object(vec![("uuid", text("1"))])).is_none());
}

#[test]
fn contacts_round_trip() {
    let mut c = Contact::new(-4);
    c.set_last_message_at(99);
    let back = Contact::from_json(&c.to_json());
    assert_eq!((back.user_id, back.user_name.clone(), back.last_message_at), (-4, None, Some(99)));
    let d = Contact::from_json(&object(vec![("user_name", text("bob"))]));
    assert_eq!((d.user_id, d.user_name.as_deref(), d.last_message_at), (0, Some("bob"), None));
}

#[test]
fn docs_round_trip() {
    let d = Doc::new("1.2".to_string(), "abc".to_string(), Type::TOS, 1700000000);
    let back = Doc::from_json(Type::PP, &d.to_json()).unwrap();
    assert_eq!((back.get_version(), back.get_hash(), back.get_time(), back.get_type()), ("1.2".to_string(), "abc".to_string(), 1700000000, Type::PP));
    assert!(Doc::from_json(Type::EULA, &object(vec![("hash", text("h")), ("version", text("v"))])).is_none());
}

#[test]
fn document_service_answers() {
    let body = r#"{"eula":{"version":"1","hash":"e","unix":5},"tos":{"version":"2","hash":"t","unix":6},"pp":{"version":"3","hash":"p","unix":7}}"#;
    let (e, t, p) = docs_of_answer(body).unwrap();
    assert_eq!((e.get_version(), e.get_type()), ("1".to_string(), Type::EULA));
    assert_eq!((t.get_hash(), t.get_time()), ("t".to_string(), 6));
    assert_eq!(p.get_type(), Type::PP);
    assert!(docs_of_answer(r#"{"eula":{"version":"1","hash":"e","unix":5}}"#).is_none());
    assert!(docs_of_answer(r#"{"eula":{"version":"1","hash":"e","unix":-5},"tos":{"version":"2","hash":"t","unix":6},"pp":{"version":"3","hash":"p","unix":7}}"#).is_none());
    assert!(docs_of_answer("<html>").is_none());
}

#[test]
fn language_files() {
    let e = entries_from_json(r#"{"hello":"Hallo","bye":"Tschüss"}"#).unwrap();
    assert_eq!(e, vec![("hello".to_string(), "Hallo".to_string()), ("bye".to_string(), "Tschüss".to_string())]);
    assert!(entries_from_json(r#"{"n":1}"#).is_none());
    assert!(entries_from_json("{").is_none());
    assert!(entries_from_json("[1]").unwrap().is_empty());
}
