use iota::data::communication::{CommunicationType, CommunicationValue, DataTypes, LogLevel, LogValue};

#[test]
fn data_type_parse_ignores_case_and_underscores() {
    assert_eq!(DataTypes::parse("receiver_id".to_string()), DataTypes::ReceiverId);
    assert_eq!(DataTypes::parse("RECEIVER_ID".to_string()), DataTypes::ReceiverId);
    assert_eq!(DataTypes::parse("ReceiverId".to_string()), DataTypes::ReceiverId);
    assert_eq!(DataTypes::parse("message_content".to_string()), DataTypes::MessageContent);
    assert_eq!(DataTypes::parse("community_title".to_string()), DataTypes::CommunityTitle);
}

#[test]
fn data_type_parse_unknown_is_error_type() {
    assert_eq!(DataTypes::parse("no_such_key".to_string()), DataTypes::ErrorType);
    assert_eq!(DataTypes::parse(String::new()), DataTypes::ErrorType);
    assert_eq!(DataTypes::parse("receiver id".to_string()), DataTypes::ErrorType);
}

#[test]
fn data_type_from_normalized_is_exact() {
    assert_eq!(DataTypes::from_normalized("userid"), DataTypes::UserId);
    assert_eq!(DataTypes::from_normalized("userids"), DataTypes::UserIds);
    assert_eq!(DataTypes::from_normalized("USERID"), DataTypes::ErrorType);
}

#[test]
fn communication_type_parse() {
    assert_eq!(CommunicationType::parse("message_live".to_string()), CommunicationType::MessageLive);
    assert_eq!(CommunicationType::parse("Ping".to_string()), CommunicationType::Ping);
    assert_eq!(CommunicationType::parse("challenge_response".to_string()), CommunicationType::ChallengeResponse);
    assert_eq!(CommunicationType::parse("whatever".to_string()), CommunicationType::Error);
}

#[test]
fn log_level_numbers() {
    assert_eq!(LogLevel::Important.as_i32(), 2);
    assert_eq!(LogLevel::Normal.as_i32(), 1);
    assert_eq!(LogLevel::Debug.as_i32(), 0);
    assert_eq!(LogLevel::Off.as_i32(), -1);
    assert_eq!(LogLevel::DebugOnly.as_i32(), -2);
}

#[test]
fn add_then_get_data() {
    let cv = CommunicationValue::with_fresh_id(CommunicationType::Message, 7)
        .add_data(DataTypes::Name, "alice".to_string())
        .add_data(DataTypes::Path, "/x".to_string());
    assert_eq!(cv.get_data(DataTypes::Name).map(|s| s.as_str()), Some("alice"));
    assert_eq!(cv.get_data(DataTypes::Path).map(|s| s.as_str()), Some("/x"));
    assert!(cv.get_data(DataTypes::Codec).is_none());
    let cv = cv.add_data(DataTypes::Name, "bob".to_string());
    assert_eq!(cv.get_data(DataTypes::Name).map(|s| s.as_str()), Some("bob"));
    assert_eq!(cv.get_data(DataTypes::Path).map(|s| s.as_str()), Some("/x"));
}

#[test]
fn builders_and_getters() {
    let cv = CommunicationValue::with_fresh_id(CommunicationType::Ping, 1)
        .with_id(42)
        .with_sender(5)
        .with_receiver(6)
        .with_log(LogValue::new("hello".to_string(), LogLevel::Debug));
    assert_eq!(cv.get_id(), 42);
    assert_eq!(cv.get_sender(), Some(5));
    assert_eq!(cv.get_receiver(), Some(6));
    assert_eq!(cv.get_type(), CommunicationType::Ping);
    assert!(cv.is_type(CommunicationType::Ping));
    assert!(!cv.is_type(CommunicationType::Pong));
    let log = cv.get_log().as_ref().unwrap();
    assert_eq!(log.message, "hello");
    assert_eq!(log.log_level, LogLevel::Debug);
}

#[test]
fn new_message_has_nothing_set() {
    let cv = CommunicationValue::new(CommunicationType::GetChats);
    assert_eq!(cv.get_type(), CommunicationType::GetChats);
    assert_eq!(cv.get_sender(), None);
    assert_eq!(cv.get_receiver(), None);
    assert!(cv.get_log().is_none());
    assert!(cv.get_data(DataTypes::Name).is_none());
}

#[test]
fn fresh_ids_differ() {
    let a = CommunicationValue::new(CommunicationType::Ping).get_id();
    let b = CommunicationValue::new(CommunicationType::Ping).get_id();
    assert_ne!(a, b);
    assert_eq!((a >> 76) & 0xf, 4);
}

#[test]
fn forward_to_other_iota_at_copies_content() {
    let original = CommunicationValue::with_fresh_id(CommunicationType::MessageLive, 99)
        .with_sender(0x0123_4567_89ab_cdef_0123_4567_89ab_cdef)
        .add_data(DataTypes::ReceiverId, "550e8400-e29b-41d4-a716-446655440000".to_string())
        .add_data(DataTypes::MessageContent, "hi".to_string())
        .add_data(DataTypes::Name, "dropped".to_string());
    let f = CommunicationValue::forward_to_other_iota_at(&original, 1700000000123);
    assert_eq!(f.get_id(), 99);
    assert_eq!(f.get_type(), CommunicationType::MessageOtherIota);
    assert_eq!(f.get_receiver(), Some(0x550e8400_e29b_41d4_a716_446655440000));
    assert_eq!(f.get_sender(), None);
    assert_eq!(f.get_data(DataTypes::SendTime).map(|s| s.as_str()), Some("1700000000123"));
    assert_eq!(f.get_data(DataTypes::MessageContent).map(|s| s.as_str()), Some("hi"));
    assert_eq!(
        f.get_data(DataTypes::SenderId).map(|s| s.as_str()),
        Some("01234567-89ab-cdef-0123-456789abcdef")
    );
    assert!(f.get_data(DataTypes::Name).is_none());
}

#[test]
fn forward_to_other_iota_bad_receiver_is_nil() {
    let original = CommunicationValue::with_fresh_id(CommunicationType::MessageLive, 3)
        .add_data(DataTypes::ReceiverId, "not a uuid".to_string())
        .add_data(DataTypes::MessageContent, "x".to_string());
    let f = CommunicationValue::forward_to_other_iota_at(&original, -5);
    assert_eq!(f.get_receiver(), Some(0));
    assert_eq!(f.get_data(DataTypes::SendTime).map(|s| s.as_str()), Some("-5"));
    assert!(f.get_data(DataTypes::SenderId).is_none());
}

#[test]
fn forward_to_other_iota_uses_clock() {
    let original = CommunicationValue::with_fresh_id(CommunicationType::MessageLive, 3)
        .add_data(DataTypes::ReceiverId, "550e8400-e29b-41d4-a716-446655440000".to_string())
        .add_data(DataTypes::MessageContent, "x".to_string());
    let f = CommunicationValue::forward_to_other_iota(&original);
    let t: i64 = f.get_data(DataTypes::SendTime).unwrap().parse().unwrap();
    assert!(t > 1_600_000_000_000);
}

#[test]
fn ack_message_names_sender() {
    let a = CommunicationValue::ack_message(11, Some(0x550e8400_e29b_41d4_a716_446655440000));
    assert_eq!(a.get_id(), 11);
    assert_eq!(a.get_type(), CommunicationType::Message);
    assert_eq!(
        a.get_data(DataTypes::SenderId).map(|s| s.as_str()),
        Some("550e8400-e29b-41d4-a716-446655440000")
    );
    let b = CommunicationValue::ack_message(12, None);
    assert!(b.get_data(DataTypes::SenderId).is_none());
}
