use iota::langu::language_manager::{from_key, get_language, set_language, LanguagePack};
use iota::omikron::omikron_connection::ConnectionState;
use iota::server::server::{is_allowed, is_local_network, IpAddress};
use iota::server::socket::{Heartbeat, SessionRoute, WsEvent, WsReply, WsSession, IDLE_TIMEOUT_MS};
use iota::server::web_path_parser::{codec_for_ext, is_plain_not_found};

fn pairs(v: &[(&str, &str)]) -> Vec<(String, String)> {
    v.iter().map(|(k, x)| (k.to_string(), x.to_string())).collect()
}

#[test]
fn language_pack_lookup() {
    let pack = LanguagePack::new(pairs(&[("hello", "Hallo"), ("bye", "Tschüss"), ("hello", "Servus")]));
    assert_eq!(pack.get("hello").map(|s| s.as_str()), Some("Servus"));
    assert_eq!(pack.get_translation("bye"), "Tschüss");
    assert!(pack.get("nope").is_none());
    assert_eq!(from_key(&pack, "nope"), "");
    let copy = get_language(&pack);
    assert_eq!(copy.get("bye").map(|s| s.as_str()), Some("Tschüss"));
}

#[test]
fn language_pack_insert_and_load() {
    let mut pack = LanguagePack::empty();
    pack.insert("a".to_string(), "1".to_string());
    pack.load_language(pairs(&[("a", "2"), ("b", "3")]));
    assert_eq!(from_key(&pack, "a"), "2");
    assert_eq!(from_key(&pack, "b"), "3");
    set_language(&mut pack, pairs(&[("c", "4")]));
    assert!(pack.get("a").is_none());
    assert_eq!(from_key(&pack, "c"), "4");
}

#[test]
fn format_fills_marks_in_order() {
    let pack = LanguagePack::new(pairs(&[
        ("greet", "Hello {}!"),
        ("two", "{} and {}"),
        ("plain", "x"),
        ("none", "no marks"),
    ]));
    assert_eq!(iota::langu::language_manager::format(&pack, "greet", &["bob"]), "Hello bob!");
    assert_eq!(iota::langu::language_manager::format(&pack, "two", &["a", "b"]), "a and b");
    assert_eq!(iota::langu::language_manager::format(&pack, "two", &["a"]), "a and ");
    assert_eq!(iota::langu::language_manager::format(&pack, "plain", &["a", "b"]), "xa");
    assert_eq!(iota::langu::language_manager::format(&pack, "none", &[]), "no marks");
    assert_eq!(iota::langu::language_manager::format(&pack, "missing", &["a"]), "a");
}

#[test]
fn local_networks() {
    assert!(is_local_network(IpAddress::V4([10, 1, 2, 3])));
    assert!(is_local_network(IpAddress::V4([172, 16, 0, 1])));
    assert!(is_local_network(IpAddress::V4([172, 31, 255, 1])));
    assert!(!is_local_network(IpAddress::V4([172, 32, 0, 1])));
    assert!(is_local_network(IpAddress::V4([192, 168, 1, 1])));
    assert!(is_local_network(IpAddress::V4([127, 0, 0, 1])));
    assert!(is_local_network(IpAddress::V4([169, 254, 3, 4])));
    assert!(!is_local_network(IpAddress::V4([8, 8, 8, 8])));
    assert!(is_local_network(IpAddress::V6([0, 0, 0, 0, 0, 0, 0, 1])));
    assert!(is_local_network(IpAddress::V6([0xfd12, 0, 0, 0, 0, 0, 0, 5])));
    assert!(is_local_network(IpAddress::V6([0xfe80, 0, 0, 0, 0, 0, 0, 5])));
    assert!(!is_local_network(IpAddress::V6([0x2001, 0xdb8, 0, 0, 0, 0, 0, 1])));
}

#[test]
fn allowed_connections() {
    assert!(is_allowed(IpAddress::V4([8, 8, 8, 8]), true));
    assert!(!is_allowed(IpAddress::V4([8, 8, 8, 8]), false));
    assert!(is_allowed(IpAddress::V4([10, 0, 0, 1]), false));
}

#[test]
fn content_types() {
    assert_eq!(codec_for_ext("html"), "text/html; charset=utf-8");
    assert_eq!(codec_for_ext("css"), "text/css");
    assert_eq!(codec_for_ext("js"), "application/javascript");
    assert_eq!(codec_for_ext("woff2"), "font/woff2");
    assert_eq!(codec_for_ext("exe"), "application/octet-stream");
    assert!(is_plain_not_found("js"));
    assert!(!is_plain_not_found("html"));
}

#[test]
fn socket_routes() {
    assert_eq!(WsSession::new("/ws/users/".to_string()).route(), SessionRoute::Users);
    assert_eq!(
        WsSession::new("/ws/community/abc/x".to_string()).route(),
        SessionRoute::Community("abc".to_string())
    );
    assert_eq!(WsSession::new("/ws/community/".to_string()).route(), SessionRoute::Community(String::new()));
    assert_eq!(WsSession::new("/other".to_string()).route(), SessionRoute::Other);
    assert_eq!(WsSession::new("/p".to_string()).path(), "/p");
}

#[test]
fn socket_heartbeat() {
    let mut s = WsSession::new_at("/ws/users/".to_string(), 1000);
    assert_eq!(s.on_tick(1000 + IDLE_TIMEOUT_MS), Heartbeat::SendPing);
    assert_eq!(s.on_tick(1001 + IDLE_TIMEOUT_MS), Heartbeat::CloseIdle);
    assert_eq!(s.on_tick(0), Heartbeat::SendPing);
    assert_eq!(s.on_message(WsEvent::Ping, 5000), WsReply::Pong);
    assert_eq!(s.on_tick(5000 + IDLE_TIMEOUT_MS), Heartbeat::SendPing);
    assert_eq!(s.on_message(WsEvent::Binary, 90_000), WsReply::Stop);
    assert_eq!(s.on_tick(5001 + IDLE_TIMEOUT_MS), Heartbeat::CloseIdle);
    assert_eq!(s.on_message(WsEvent::Close, 0), WsReply::Close);
    assert_eq!(s.on_message(WsEvent::Text, 0), WsReply::Nothing);
}

#[test]
fn connection_states() {
    assert!(!ConnectionState::Disconnected.is_connected());
    assert!(!ConnectionState::Connecting.is_identified());
    assert!(ConnectionState::Connected { identified: false }.is_connected());
    assert!(!ConnectionState::Connected { identified: false }.is_identified());
    assert!(ConnectionState::Connected { identified: true }.is_identified());
}
